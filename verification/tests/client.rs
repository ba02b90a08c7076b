use relay::buffer::MessageBuffer;
use relay::editor::{InputLineEditor, Key, KeyAction};
use relay::multiplexer::{receive_chunk, Event, EventMultiplexer, LoopInput, StepAction};
use relay::snapshot::render_snapshot;

fn key(c: char) -> Key {
    Key::Char { c, ctrl: false }
}

fn received(k: Key) -> LoopInput {
    LoopInput::Received(Event::Input(k))
}

#[test]
fn buffer_keeps_the_ten_most_recent() {
    let mut buf = MessageBuffer::new();
    for i in 0..15 {
        buf.push(format!("line {}", i));
    }
    assert_eq!(buf.len(), 10);
    let lines = buf.snapshot();
    let expected: Vec<String> = (5..15).map(|i| format!("line {}", i)).collect();
    assert_eq!(lines, expected);
}

#[test]
fn buffer_under_capacity_keeps_everything_in_order() {
    let mut buf = MessageBuffer::new();
    buf.push("a".to_string());
    buf.push("b".to_string());
    assert_eq!(buf.snapshot(), vec!["a".to_string(), "b".to_string()]);
    assert_eq!(buf.message_at(0).as_str(), "a");
    assert_eq!(buf.message_at(1).as_str(), "b");
}

#[test]
fn received_chunk_is_decoded_trimmed_and_stored() {
    let mut buf = MessageBuffer::new();
    let e = receive_chunk(&mut buf, &b"hello\n".to_vec());
    assert!(matches!(e, Event::Redraw));
    assert_eq!(buf.snapshot(), vec!["hello".to_string()]);
}

#[test]
fn only_one_trailing_newline_is_trimmed() {
    let mut buf = MessageBuffer::new();
    receive_chunk(&mut buf, &b"hello\n\n".to_vec());
    assert_eq!(buf.snapshot(), vec!["hello\n".to_string()]);
}

#[test]
fn undecodable_bytes_become_replacement_characters() {
    let mut buf = MessageBuffer::new();
    receive_chunk(&mut buf, &vec![0xFF, b'h', b'i']);
    assert_eq!(buf.snapshot(), vec!["\u{FFFD}hi".to_string()]);
}

#[test]
fn empty_chunk_becomes_an_empty_line() {
    let mut buf = MessageBuffer::new();
    receive_chunk(&mut buf, &Vec::new());
    assert_eq!(buf.snapshot(), vec![String::new()]);
}

#[test]
fn typing_builds_the_input_line() {
    let mut ed = InputLineEditor::new();
    assert!(matches!(ed.apply_key(key('h')), KeyAction::Handled));
    assert!(matches!(ed.apply_key(key('i')), KeyAction::Handled));
    assert_eq!(ed.text(), "hi");
}

#[test]
fn backspace_drops_the_last_character() {
    let mut ed = InputLineEditor::new();
    ed.apply_key(key('h'));
    ed.apply_key(key('i'));
    ed.apply_key(Key::Backspace);
    assert_eq!(ed.text(), "h");
}

#[test]
fn backspace_on_an_empty_line_is_a_no_op() {
    let mut ed = InputLineEditor::new();
    assert!(matches!(ed.apply_key(Key::Backspace), KeyAction::Handled));
    assert_eq!(ed.text(), "");
}

#[test]
fn enter_submits_and_clears_unconditionally() {
    let mut ed = InputLineEditor::new();
    ed.apply_key(key('h'));
    ed.apply_key(key('i'));
    match ed.apply_key(Key::Enter) {
        KeyAction::Submit(s) => assert_eq!(s, "hi"),
        _ => panic!("Enter must submit the line"),
    }
    assert_eq!(ed.text(), "");
}

#[test]
fn escape_stops_the_loop_within_one_iteration() {
    let mut mux = EventMultiplexer::new();
    let a = mux.step(received(Key::Esc));
    assert!(matches!(a, StepAction::Stop));
    assert!(mux.should_quit);
}

#[test]
fn q_stops_the_loop_within_one_iteration() {
    let mut mux = EventMultiplexer::new();
    let a = mux.step(received(key('q')));
    assert!(matches!(a, StepAction::Stop));
    assert!(mux.should_quit);
}

#[test]
fn ctrl_c_stops_the_loop_within_one_iteration() {
    let mut mux = EventMultiplexer::new();
    let a = mux.step(received(Key::Char { c: 'c', ctrl: true }));
    assert!(matches!(a, StepAction::Stop));
    assert!(mux.should_quit);
}

#[test]
fn plain_c_is_just_a_character() {
    let mut mux = EventMultiplexer::new();
    let a = mux.step(received(key('c')));
    assert!(matches!(a, StepAction::Continue));
    assert!(!mux.should_quit);
    assert_eq!(mux.editor.text(), "c");
}

#[test]
fn timeout_is_a_no_op_tick() {
    let mut mux = EventMultiplexer::new();
    mux.step(received(key('x')));
    let a = mux.step(LoopInput::TimedOut);
    assert!(matches!(a, StepAction::Continue));
    assert_eq!(mux.editor.text(), "x");
}

#[test]
fn redraw_triggers_no_action() {
    let mut mux = EventMultiplexer::new();
    let a = mux.step(LoopInput::Received(Event::Redraw));
    assert!(matches!(a, StepAction::Continue));
    assert!(!mux.should_quit);
}

#[test]
fn channel_disconnect_ends_the_loop() {
    let mut mux = EventMultiplexer::new();
    let a = mux.step(LoopInput::Disconnected);
    assert!(matches!(a, StepAction::Stop));
}

#[test]
fn enter_submits_through_the_loop() {
    let mut mux = EventMultiplexer::new();
    mux.step(received(key('h')));
    mux.step(received(key('i')));
    match mux.step(received(Key::Enter)) {
        StepAction::Submit(s) => assert_eq!(s, "hi"),
        _ => panic!("Enter must submit the line"),
    }
    // The line is cleared whatever became of the send.
    assert_eq!(mux.editor.text(), "");
}

#[test]
fn rendering_twice_yields_identical_output() {
    let mut buf = MessageBuffer::new();
    buf.push("one".to_string());
    buf.push("two".to_string());
    let mut ed = InputLineEditor::new();
    ed.apply_key(key('z'));
    let first = render_snapshot(&buf, &ed);
    let second = render_snapshot(&buf, &ed);
    assert_eq!(first.lines, second.lines);
    assert_eq!(first.input, second.input);
}

#[test]
fn hello_reaches_both_clients_and_eviction_waits_for_the_next_send() {
    // Hub with two connections, C1 and C2.
    let mut reg = relay::registry::ConnectionRegistry::new();
    reg.register(1);
    reg.register(2);
    let mut c1 = MessageBuffer::new();
    let mut c2 = MessageBuffer::new();

    // C1 sends "hello": the hub relays the chunk to every registered
    // handle, C1's own included.
    let payload = relay::chunk::relay_payload(b"hello".to_vec()).expect("valid UTF-8");
    let recipients = relay::registry::broadcast_pass(&mut reg, &vec![true, true]);
    for h in &recipients {
        match h {
            1 => receive_chunk(&mut c1, &payload),
            2 => receive_chunk(&mut c2, &payload),
            _ => unreachable!(),
        };
    }
    assert_eq!(c1.snapshot().last().map(String::as_str), Some("hello"));
    assert_eq!(c2.snapshot().last().map(String::as_str), Some("hello"));

    // C2 disconnects: the registry must not notice yet.
    assert_eq!(reg.len(), 2);

    // C1 sends "ping": only this broadcast attempt discovers the dead
    // peer, and the registry shrinks by exactly one.
    let payload = relay::chunk::relay_payload(b"ping".to_vec()).expect("valid UTF-8");
    let recipients = relay::registry::broadcast_pass(&mut reg, &vec![true, false]);
    assert_eq!(recipients, vec![1]);
    for h in &recipients {
        if *h == 1 {
            receive_chunk(&mut c1, &payload);
        }
    }
    assert_eq!(reg.len(), 1);
    assert_eq!(c1.snapshot().last().map(String::as_str), Some("ping"));
}
