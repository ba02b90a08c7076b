//! The client's event multiplexer and consumer loop.
//!
//! Three producers — the network reader, the keyboard poller, and the
//! 250 ms wait timeout — feed one ordered channel. Ordering is guaranteed
//! only within a producer, which is acceptable because the render step is
//! idempotent over current state. This module holds the decisions of the
//! consumer loop: the surrounding process performs the channel wait, the
//! socket send, and the drawing, and feeds each observed event back in.

use crate::buffer::{model_push, MessageBuffer};
use crate::chunk::{chunk_text, message_from_chunk};
use crate::editor::{editor_after, is_quit_key, InputLineEditor, Key, KeyAction};
use vstd::prelude::*;

verus! {

/// What flows through the client's single event channel; consumed exactly
/// once by the main loop.
pub enum Event {
    /// The keyboard poller saw a key.
    Input(Key),
    /// The reader task stored a new line; the next render pass will show it.
    Redraw,
}

/// What one wait on the channel came back with.
pub enum LoopInput {
    /// An event arrived.
    Received(Event),
    /// The 250 ms wait elapsed: a no-op tick that keeps rendering live.
    TimedOut,
    /// All producers are gone; the loop must end.
    Disconnected,
}

/// What the main loop must do after consuming one `LoopInput`.
pub enum StepAction {
    /// Render and wait again.
    Continue,
    /// Send this submitted line over the connection, then continue; a send
    /// failure is logged and does not end the loop.
    Submit(String),
    /// End the loop after this iteration.
    Stop,
}

/// The consumer loop's own state: the input line and the quit flag.
pub struct EventMultiplexer {
    pub editor: InputLineEditor,
    pub should_quit: bool,
}

impl EventMultiplexer {
    pub fn new() -> (r: Self)
        ensures
            r.editor@ == Seq::<char>::empty(),
            !r.should_quit,
    {
        EventMultiplexer { editor: InputLineEditor::new(), should_quit: false }
    }

    /// Consume one channel outcome. A quit key or a dead channel ends the
    /// loop within this iteration; `Redraw` and the timeout tick only let
    /// the next render pass run; every other key goes to the editor.
    pub fn step(&mut self, inp: LoopInput) -> (a: StepAction)
        requires
            !old(self).should_quit,
        ensures
            match inp {
                LoopInput::Disconnected => a is Stop && *final(self) == *old(self),
                LoopInput::TimedOut => a is Continue && *final(self) == *old(self),
                LoopInput::Received(ev) => match ev {
                    Event::Redraw => a is Continue && *final(self) == *old(self),
                    Event::Input(k) => {
                        &&& final(self).editor@ == editor_after(old(self).editor@, k)
                        &&& final(self).should_quit == is_quit_key(k)
                        &&& (is_quit_key(k) ==> a is Stop)
                        &&& (!is_quit_key(k) && k is Enter ==> (a matches StepAction::Submit(s)
                            && s@ == old(self).editor@))
                        &&& (!is_quit_key(k) && !(k is Enter) ==> a is Continue)
                    },
                },
            },
    {
        match inp {
            LoopInput::Disconnected => StepAction::Stop,
            LoopInput::TimedOut => StepAction::Continue,
            LoopInput::Received(Event::Redraw) => StepAction::Continue,
            LoopInput::Received(Event::Input(k)) => match self.editor.apply_key(k) {
                KeyAction::Quit => {
                    self.should_quit = true;
                    StepAction::Stop
                },
                KeyAction::Submit(s) => StepAction::Submit(s),
                KeyAction::Handled => StepAction::Continue,
            },
        }
    }
}

/// What the reader task does with one nonzero read: decode the chunk into a
/// line, store it in the bounded scrollback, and wake the render loop.
pub fn receive_chunk(buf: &mut MessageBuffer, chunk: &Vec<u8>) -> (e: Event)
    requires
        old(buf).wf(),
    ensures
        final(buf)@ == model_push(old(buf)@, chunk_text(chunk@)),
        final(buf).wf(),
        e is Redraw,
{
    let m = message_from_chunk(chunk);
    buf.push(m);
    Event::Redraw
}

/// Quit keys: Escape, the character `q` (with or without control), and
/// Ctrl+C are each quit keys, so by `step`'s contract each of them alone
/// ends the main loop within the iteration that consumes it.
pub proof fn lemma_quit_keys()
    ensures
        is_quit_key(Key::Esc),
        is_quit_key((Key::Char { c: 'q', ctrl: false })),
        is_quit_key((Key::Char { c: 'q', ctrl: true })),
        is_quit_key((Key::Char { c: 'c', ctrl: true })),
        !is_quit_key((Key::Char { c: 'c', ctrl: false })),
        !is_quit_key(Key::Enter),
        !is_quit_key(Key::Backspace),
        !is_quit_key(Key::Other),
{
}

} // verus!
