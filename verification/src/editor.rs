//! The client's input line and its key dispatch.
//!
//! The editor owns the in-progress typed line. Escape, `q`, and Ctrl+C are
//! quit keys; Enter submits the whole line and clears it unconditionally,
//! whatever becomes of the send; Backspace drops the last character; any
//! other printable character is appended.

use vstd::prelude::*;

verus! {

/// A keyboard key as the client interprets it. `ctrl` records whether the
/// control modifier was held with a character key.
#[derive(Clone, Copy, PartialEq, Eq, Structural)]
pub enum Key {
    Esc,
    Char { c: char, ctrl: bool },
    Backspace,
    Enter,
    Other,
}

/// Whether a key asks the client to quit: Escape, the character `q`, or
/// Ctrl+C.
pub open spec fn is_quit_key(k: Key) -> bool {
    match k {
        Key::Esc => true,
        Key::Char { c, ctrl } => (c == 'c' && ctrl) || c == 'q',
        _ => false,
    }
}

/// The input line after one key is applied: quit keys and unknown keys
/// leave it alone, Enter clears it unconditionally, Backspace drops the
/// last character if there is one, and any other character key appends.
pub open spec fn editor_after(line: Seq<char>, k: Key) -> Seq<char> {
    if is_quit_key(k) {
        line
    } else {
        match k {
            Key::Char { c, ctrl } => line.push(c),
            Key::Backspace => if line.len() > 0 {
                line.drop_last()
            } else {
                line
            },
            Key::Enter => Seq::<char>::empty(),
            _ => line,
        }
    }
}

/// What the main loop must do after a key was applied to the editor.
pub enum KeyAction {
    /// The key was consumed by the editor; nothing further to do.
    Handled,
    /// A quit key: end the loop after the current iteration.
    Quit,
    /// Enter: send this line over the connection; the editor has already
    /// cleared it, whatever becomes of the send.
    Submit(String),
}

/// The in-progress input line, owned by the main/render task alone.
pub struct InputLineEditor {
    line: Vec<char>,
}

impl View for InputLineEditor {
    type V = Seq<char>;

    closed spec fn view(&self) -> Seq<char> {
        self.line@
    }
}

/// Relies on `String`'s `FromIterator<char>`: collecting characters yields
/// the string of exactly those characters, in order.
#[verifier::external_body]
fn chars_to_string(v: &Vec<char>) -> (r: String)
    ensures
        r@ == v@,
{
    v.iter().collect()
}

impl InputLineEditor {
    /// The client starts with an empty input line.
    pub fn new() -> (r: Self)
        ensures
            r@ == Seq::<char>::empty(),
    {
        InputLineEditor { line: Vec::new() }
    }

    /// The current line's text, for the render snapshot.
    pub fn text(&self) -> (r: String)
        ensures
            r@ == self@,
    {
        chars_to_string(&self.line)
    }

    /// Dispatch one key: quit keys leave the line alone and ask the loop to
    /// end; Enter submits the whole line and clears it unconditionally;
    /// Backspace drops the last character if there is one; any other
    /// character key appends its character; other keys do nothing.
    pub fn apply_key(&mut self, k: Key) -> (a: KeyAction)
        ensures
            final(self)@ == editor_after(old(self)@, k),
            is_quit_key(k) ==> a is Quit,
            !is_quit_key(k) && k is Enter ==> (a matches KeyAction::Submit(s) && s@ == old(self)@),
            !is_quit_key(k) && !(k is Enter) ==> a is Handled,
    {
        match k {
            Key::Esc => KeyAction::Quit,
            Key::Char { c, ctrl } => {
                if (c == 'c' && ctrl) || c == 'q' {
                    KeyAction::Quit
                } else {
                    self.line.push(c);
                    KeyAction::Handled
                }
            },
            Key::Backspace => {
                self.line.pop();
                KeyAction::Handled
            },
            Key::Enter => {
                let s = chars_to_string(&self.line);
                self.line.clear();
                KeyAction::Submit(s)
            },
            Key::Other => KeyAction::Handled,
        }
    }
}

} // verus!
