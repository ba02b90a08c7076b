//! The client's bounded scrollback of received text lines.
//!
//! A fixed-capacity FIFO: new lines are appended at the back, and once the
//! buffer holds `BUFFER_CAPACITY` lines the oldest line is evicted to make
//! room. The render step reads it as an ordered snapshot.

use std::collections::VecDeque;
use vstd::prelude::*;

verus! {

/// How many received lines the scrollback retains.
pub const BUFFER_CAPACITY: usize = 10;

/// Bounded FIFO of received text lines, oldest first.
pub struct MessageBuffer {
    items: VecDeque<String>,
}

impl View for MessageBuffer {
    type V = Seq<Seq<char>>;

    closed spec fn view(&self) -> Seq<Seq<char>> {
        self.items@.map_values(|s: String| s@)
    }
}

/// What one insert does to the buffer's contents: append the new line, and
/// evict the oldest line first when the buffer is already full.
pub open spec fn model_push(s: Seq<Seq<char>>, m: Seq<char>) -> Seq<Seq<char>> {
    if s.len() < BUFFER_CAPACITY {
        s.push(m)
    } else {
        s.drop_first().push(m)
    }
}

/// The contents after pushing each line of `msgs` in order, starting from `s`.
pub open spec fn fill(s: Seq<Seq<char>>, msgs: Seq<Seq<char>>) -> Seq<Seq<char>>
    decreases msgs.len(),
{
    if msgs.len() == 0 {
        s
    } else {
        fill(model_push(s, msgs.first()), msgs.drop_first())
    }
}

/// The lines a history `h` of pushed lines boils down to: all of them while
/// they fit, otherwise the `BUFFER_CAPACITY` most recent, in arrival order.
pub open spec fn retained(h: Seq<Seq<char>>) -> Seq<Seq<char>> {
    if h.len() <= BUFFER_CAPACITY {
        h
    } else {
        h.skip(h.len() - BUFFER_CAPACITY)
    }
}

impl MessageBuffer {
    /// The buffer never holds more than `BUFFER_CAPACITY` lines.
    pub open spec fn wf(&self) -> bool {
        self@.len() <= BUFFER_CAPACITY
    }

    /// The client starts with an empty scrollback.
    pub fn new() -> (r: Self)
        ensures
            r@ == Seq::<Seq<char>>::empty(),
            r.wf(),
    {
        let items: VecDeque<String> = VecDeque::new();
        proof {
            assert(items@.map_values(|s: String| s@) =~= Seq::<Seq<char>>::empty());
        }
        MessageBuffer { items }
    }

    pub fn len(&self) -> (n: usize)
        ensures
            n == self@.len(),
    {
        self.items.len()
    }

    /// Append a received line, evicting the oldest if the buffer is full.
    pub fn push(&mut self, m: String)
        requires
            old(self).wf(),
        ensures
            final(self)@ == model_push(old(self)@, m@),
            final(self).wf(),
    {
        if self.items.len() == BUFFER_CAPACITY {
            self.items.pop_front();
        }
        self.items.push_back(m);
        proof {
            assert(self@ =~= model_push(old(self)@, m@));
        }
    }

    /// The line at position `i`, oldest line first.
    pub fn message_at(&self, i: usize) -> (m: &String)
        requires
            i < self@.len(),
        ensures
            m@ == self@[i as int],
    {
        &self.items[i]
    }

    /// An ordered copy of the current contents, for the render step.
    pub fn snapshot(&self) -> (r: Vec<String>)
        ensures
            r@.map_values(|s: String| s@) == self@,
    {
        let mut out: Vec<String> = Vec::new();
        let n = self.items.len();
        let mut i: usize = 0;
        while i < n
            invariant
                i <= n,
                n == self@.len(),
                n == self.items@.len(),
                out@.len() == i,
                forall|j: int| 0 <= j < i ==> out@[j]@ == self@[j],
            decreases n - i,
        {
            out.push(self.items[i].clone());
            proof {
                assert(self@[i as int] == self.items@[i as int]@);
            }
            i = i + 1;
        }
        proof {
            assert(out@.map_values(|s: String| s@) =~= self@);
        }
        out
    }
}

/// Bounded buffer law: pushing any history of lines into an initially empty
/// buffer leaves exactly the most recent `BUFFER_CAPACITY` of them, in
/// arrival order (all of them while the history is shorter than that).
pub proof fn lemma_bounded_buffer(msgs: Seq<Seq<char>>)
    ensures
        fill(Seq::<Seq<char>>::empty(), msgs) == retained(msgs),
        msgs.len() > BUFFER_CAPACITY ==> retained(msgs) == msgs.skip(msgs.len() - BUFFER_CAPACITY),
{
    lemma_fill_retained(Seq::<Seq<char>>::empty(), msgs);
    assert(Seq::<Seq<char>>::empty() + msgs =~= msgs);
}

/// Generalisation of the bounded-buffer law to any well-formed start state.
proof fn lemma_fill_retained(s: Seq<Seq<char>>, msgs: Seq<Seq<char>>)
    requires
        s.len() <= BUFFER_CAPACITY,
    ensures
        fill(s, msgs) == retained(s + msgs),
    decreases msgs.len(),
{
    if msgs.len() == 0 {
        assert(s + msgs =~= s);
    } else {
        let m0 = msgs.first();
        let rest = msgs.drop_first();
        let s1 = model_push(s, m0);
        lemma_fill_retained(s1, rest);
        if s.len() < BUFFER_CAPACITY {
            assert(s1 + rest =~= s + msgs);
        } else {
            let h = s + msgs;
            assert(s1 + rest =~= h.drop_first());
            assert(h.len() > BUFFER_CAPACITY);
            let d = h.drop_first();
            if d.len() <= BUFFER_CAPACITY {
                assert(retained(d) =~= h.skip(h.len() - BUFFER_CAPACITY));
            } else {
                assert(d.skip(d.len() - BUFFER_CAPACITY) =~= h.skip(h.len() - BUFFER_CAPACITY));
            }
        }
    }
}

} // verus!
