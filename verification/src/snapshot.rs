//! The read-only snapshot the render step consumes.
//!
//! Terminal layout and drawing are outside the core: the renderer is handed
//! only an ordered copy of the scrollback and the current input line. The
//! snapshot is a function of that state alone, which is what makes the
//! render step safe to repeat.

use crate::buffer::MessageBuffer;
use crate::editor::InputLineEditor;
use vstd::prelude::*;

verus! {

/// Everything the renderer may look at: the scrollback lines in arrival
/// order and the in-progress input line.
pub struct RenderSnapshot {
    pub lines: Vec<String>,
    pub input: String,
}

/// Take the snapshot for one render pass. The result is determined by the
/// buffer and editor state alone.
pub fn render_snapshot(buf: &MessageBuffer, ed: &InputLineEditor) -> (r: RenderSnapshot)
    ensures
        r.lines@.map_values(|s: String| s@) == buf@,
        r.input@ == ed@,
{
    RenderSnapshot { lines: buf.snapshot(), input: ed.text() }
}

/// Idempotent render: two snapshots taken with no intervening mutation show
/// the same lines and the same input text, so rendering twice yields
/// identical output. The parameters are the observed contents of two
/// snapshots of one and the same state, as `render_snapshot` pins them.
pub proof fn lemma_render_idempotent(
    buf: Seq<Seq<char>>,
    input: Seq<char>,
    first_lines: Seq<Seq<char>>,
    first_input: Seq<char>,
    second_lines: Seq<Seq<char>>,
    second_input: Seq<char>,
)
    requires
        first_lines == buf,
        first_input == input,
        second_lines == buf,
        second_input == input,
    ensures
        first_lines == second_lines,
        first_input == second_input,
{
}

} // verus!
