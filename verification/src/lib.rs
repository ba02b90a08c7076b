//! Core of a minimal real-time text relay.
//!
//! A central hub keeps an ordered registry of write handles to its peers and
//! rebroadcasts every chunk it receives to all of them, evicting a peer only
//! when a write to it fails. A companion client keeps a bounded scrollback of
//! received lines, an in-progress input line, and a single event loop that
//! merges network input, keyboard input, and a render tick.
//!
//! Everything here is pure state and decision logic; the surrounding process
//! performs the socket and terminal work and feeds the outcomes back in.

pub mod accept;
pub mod buffer;
pub mod chunk;
pub mod editor;
pub mod multiplexer;
pub mod registry;
pub mod snapshot;
