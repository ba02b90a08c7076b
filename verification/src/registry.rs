//! The hub's connection registry and its broadcast pass.
//!
//! The registry is an ordered sequence of write-handle identifiers. A handle's
//! presence does not imply its peer is still reachable: entries are appended
//! on connect and removed only when a broadcast write to them fails (lazy
//! eviction). There is deliberately no operation that removes a handle on
//! disconnect.
//!
//! A broadcast pass walks the registry in insertion order and attempts one
//! write per handle that was present when the pass began. The caller performs
//! the actual writes and reports each outcome; the registry decides whether to
//! keep or evict the handle and which index to try next.

use vstd::prelude::*;

verus! {

/// Ordered registry of write-handle identifiers for the hub's peers.
pub struct ConnectionRegistry {
    handles: Vec<u64>,
}

impl View for ConnectionRegistry {
    type V = Seq<u64>;

    closed spec fn view(&self) -> Seq<u64> {
        self.handles@
    }
}

/// The handles that a broadcast pass delivers to, given the per-handle write
/// outcomes: handle `k` of the starting registry is a recipient exactly when
/// `ok[k]`, and recipients keep the registry's insertion order.
pub open spec fn delivered(hs: Seq<u64>, ok: Seq<bool>) -> Seq<u64>
    decreases hs.len(),
{
    if hs.len() == 0 {
        Seq::empty()
    } else if ok[0] {
        seq![hs[0]] + delivered(hs.drop_first(), ok.drop_first())
    } else {
        delivered(hs.drop_first(), ok.drop_first())
    }
}

/// How many write outcomes in `ok` succeeded.
pub open spec fn count_true(ok: Seq<bool>) -> nat
    decreases ok.len(),
{
    if ok.len() == 0 {
        0
    } else {
        (if ok[0] {
            1nat
        } else {
            0nat
        }) + count_true(ok.drop_first())
    }
}

impl ConnectionRegistry {
    /// The hub starts with no registered peers.
    pub fn new() -> (r: Self)
        ensures
            r@ == Seq::<u64>::empty(),
    {
        ConnectionRegistry { handles: Vec::new() }
    }

    /// Append a freshly accepted peer's write handle; no duplicate detection.
    pub fn register(&mut self, h: u64)
        ensures
            final(self)@ == old(self)@.push(h),
    {
        self.handles.push(h);
    }

    pub fn len(&self) -> (n: usize)
        ensures
            n == self@.len(),
    {
        self.handles.len()
    }

    /// The handle the caller must write to next during a broadcast pass.
    pub fn handle_at(&self, i: usize) -> (h: u64)
        requires
            i < self@.len(),
        ensures
            h == self@[i as int],
    {
        self.handles[i]
    }

    /// Record the outcome of the write to handle `i` of the current pass: a
    /// successful write keeps the handle and moves on; a failed write evicts
    /// the handle in place, so the next handle shifts into index `i`.
    pub fn broadcast_step(&mut self, i: usize, ok: bool) -> (j: usize)
        requires
            i < old(self)@.len(),
        ensures
            ok ==> final(self)@ == old(self)@ && j == i + 1,
            !ok ==> final(self)@ == old(self)@.remove(i as int) && j == i,
    {
        if ok {
            // The exec length bounds `i`, so the increment cannot overflow.
            let _n = self.handles.len();
            i + 1
        } else {
            self.handles.remove(i);
            i
        }
    }
}

/// One full broadcast pass, as the hub runs it: each handle that was
/// registered when the pass began is attempted exactly once, in insertion
/// order; `ok[k]` reports whether the write to the `k`-th of those handles
/// succeeded. Returns the recipients; the registry keeps exactly the handles
/// whose writes succeeded, still in insertion order.
pub fn broadcast_pass(reg: &mut ConnectionRegistry, ok: &Vec<bool>) -> (r: Vec<u64>)
    requires
        ok@.len() == old(reg)@.len(),
    ensures
        final(reg)@ == delivered(old(reg)@, ok@),
        r@ == delivered(old(reg)@, ok@),
{
    let ghost hs0 = reg@;
    let mut recipients: Vec<u64> = Vec::new();
    let mut i: usize = 0;
    let mut k: usize = 0;
    proof {
        assert(hs0.take(0) =~= Seq::<u64>::empty());
        assert(ok@.take(0) =~= Seq::<bool>::empty());
        assert(hs0.skip(0) =~= hs0);
        assert(recipients@ =~= delivered(hs0.take(0), ok@.take(0)));
        assert(reg@ =~= delivered(hs0.take(0), ok@.take(0)) + hs0.skip(0));
    }
    while k < ok.len()
        invariant
            ok@.len() == hs0.len(),
            k <= hs0.len(),
            i == recipients@.len(),
            recipients@ == delivered(hs0.take(k as int), ok@.take(k as int)),
            reg@ == delivered(hs0.take(k as int), ok@.take(k as int)) + hs0.skip(k as int),
        decreases ok@.len() - k,
    {
        proof {
            assert(reg@.len() == i + hs0.skip(k as int).len());
            assert(reg@[i as int] == hs0.skip(k as int)[0]);
            assert(hs0.skip(k as int)[0] == hs0[k as int]);
        }
        let h = reg.handle_at(i);
        let okk = ok[k];
        let ghost reg_before = reg@;
        let j = reg.broadcast_step(i, okk);
        if okk {
            recipients.push(h);
        }
        proof {
            let d = delivered(hs0.take(k as int), ok@.take(k as int));
            assert(hs0.take(k + 1) =~= hs0.take(k as int) + seq![hs0[k as int]]);
            assert(ok@.take(k + 1) =~= ok@.take(k as int) + seq![ok@[k as int]]);
            lemma_delivered_append(
                hs0.take(k as int),
                ok@.take(k as int),
                seq![hs0[k as int]],
                seq![ok@[k as int]],
            );
            lemma_delivered_singleton(hs0[k as int], ok@[k as int]);
            if okk {
                assert(delivered(hs0.take(k + 1), ok@.take(k + 1)) =~= d.push(hs0[k as int]));
                assert(reg_before =~= d + hs0.skip(k as int));
                assert(hs0.skip(k as int) =~= seq![hs0[k as int]] + hs0.skip(k + 1));
                assert(reg@ =~= delivered(hs0.take(k + 1), ok@.take(k + 1)) + hs0.skip(k + 1));
            } else {
                assert(delivered(hs0.take(k + 1), ok@.take(k + 1)) =~= d);
                assert(reg@ =~= reg_before.remove(i as int));
                assert(reg_before.remove(i as int) =~= d + hs0.skip(k as int).drop_first());
                assert(hs0.skip(k as int).drop_first() =~= hs0.skip(k + 1));
            }
        }
        i = j;
        k = k + 1;
    }
    proof {
        assert(hs0.take(k as int) =~= hs0);
        assert(ok@.take(k as int) =~= ok@);
        assert(hs0.skip(k as int) =~= Seq::<u64>::empty());
        assert(reg@ =~= delivered(hs0, ok@));
    }
    recipients
}

/// A pass over a single handle delivers to it exactly when its write succeeds.
proof fn lemma_delivered_singleton(h: u64, b: bool)
    ensures
        b ==> delivered(seq![h], seq![b]) == seq![h],
        !b ==> delivered(seq![h], seq![b]) == Seq::<u64>::empty(),
{
    let hs = seq![h];
    let ob = seq![b];
    assert(hs.len() == 1);
    assert(hs.drop_first() =~= Seq::<u64>::empty());
    assert(ob.drop_first() =~= Seq::<bool>::empty());
    assert(delivered(Seq::<u64>::empty(), Seq::<bool>::empty()) == Seq::<u64>::empty());
    if b {
        assert(ob[0]);
        assert(delivered(hs, ob) == seq![hs[0]] + delivered(hs.drop_first(), ob.drop_first()));
        assert(seq![h] + Seq::<u64>::empty() =~= seq![h]);
    } else {
        assert(delivered(hs, ob) == delivered(hs.drop_first(), ob.drop_first()));
    }
}

/// A broadcast pass delivers to exactly as many peers as had successful
/// writes; combined with `broadcast_pass`, the registry shrinks by exactly
/// the number of failed writes, and only then.
pub proof fn lemma_delivered_len(hs: Seq<u64>, ok: Seq<bool>)
    requires
        hs.len() == ok.len(),
    ensures
        delivered(hs, ok).len() == count_true(ok),
    decreases hs.len(),
{
    if hs.len() != 0 {
        lemma_delivered_len(hs.drop_first(), ok.drop_first());
    }
}

/// Where in the recipient sequence handle `k` lands when its write succeeds:
/// after exactly the successful writes that preceded it.
pub proof fn lemma_delivered_position(hs: Seq<u64>, ok: Seq<bool>, k: int)
    requires
        hs.len() == ok.len(),
        0 <= k < hs.len(),
        ok[k],
    ensures
        count_true(ok.take(k)) < delivered(hs, ok).len(),
        delivered(hs, ok)[count_true(ok.take(k)) as int] == hs[k],
    decreases k,
{
    lemma_delivered_len(hs, ok);
    lemma_count_true_append(ok.take(k), ok.subrange(k, ok.len() as int));
    assert(ok.take(k) + ok.subrange(k, ok.len() as int) =~= ok);
    assert(ok.subrange(k, ok.len() as int)[0]);
    assert(count_true(ok.subrange(k, ok.len() as int)) >= 1);
    if k == 0 {
        assert(ok.take(0) =~= Seq::<bool>::empty());
        assert(count_true(ok.take(0)) == 0);
        assert(delivered(hs, ok)[0] == hs[0]);
    } else {
        lemma_delivered_position(hs.drop_first(), ok.drop_first(), k - 1);
        assert(ok.take(k).drop_first() =~= ok.drop_first().take(k - 1));
        assert(hs.drop_first()[k - 1] == hs[k]);
        if ok[0] {
            assert(count_true(ok.take(k)) == 1 + count_true(ok.drop_first().take(k - 1)));
            assert(delivered(hs, ok) == seq![hs[0]] + delivered(hs.drop_first(), ok.drop_first()));
        } else {
            assert(count_true(ok.take(k)) == count_true(ok.drop_first().take(k - 1)));
        }
    }
}

/// Successful writes accumulate over a split of the outcome sequence.
proof fn lemma_count_true_append(a: Seq<bool>, b: Seq<bool>)
    ensures
        count_true(a + b) == count_true(a) + count_true(b),
    decreases a.len(),
{
    if a.len() == 0 {
        assert(a + b =~= b);
    } else {
        assert((a + b).drop_first() =~= a.drop_first() + b);
        lemma_count_true_append(a.drop_first(), b);
        assert((a + b)[0] == a[0]);
    }
}

/// Fan-out order: when the writes to handles `a` and `b` of one pass both
/// succeed and `a` precedes `b` in the registry, the pass delivers to `a`
/// strictly before it delivers to `b`. A pass is one call of
/// `broadcast_pass`, so every delivery of one chunk also precedes every
/// delivery of any chunk broadcast afterwards.
pub proof fn lemma_fanout_order(hs: Seq<u64>, ok: Seq<bool>, a: int, b: int)
    requires
        hs.len() == ok.len(),
        0 <= a < b < hs.len(),
        ok[a],
        ok[b],
    ensures
        count_true(ok.take(a)) < count_true(ok.take(b)) < delivered(hs, ok).len(),
        delivered(hs, ok)[count_true(ok.take(a)) as int] == hs[a],
        delivered(hs, ok)[count_true(ok.take(b)) as int] == hs[b],
{
    lemma_delivered_position(hs, ok, a);
    lemma_delivered_position(hs, ok, b);
    assert(ok.take(b) =~= ok.take(a) + ok.subrange(a, b));
    lemma_count_true_append(ok.take(a), ok.subrange(a, b));
    assert(ok.subrange(a, b)[0]);
    assert(count_true(ok.subrange(a, b)) >= 1);
}

/// Fan-out across chunks: a broadcast pass is one call of `broadcast_pass`,
/// so every delivery of a chunk precedes every delivery of the next chunk.
/// A peer whose writes succeed in two successive passes receives the first
/// chunk in the first pass and the second chunk in the second pass, which
/// starts from exactly the handles the first pass kept.
pub proof fn lemma_fanout_across_chunks(hs: Seq<u64>, ok1: Seq<bool>, ok2: Seq<bool>, k: int)
    requires
        hs.len() == ok1.len(),
        delivered(hs, ok1).len() == ok2.len(),
        0 <= k < hs.len(),
        ok1[k],
        ok2[count_true(ok1.take(k)) as int],
    ensures
        delivered(hs, ok1).contains(hs[k]),
        delivered(delivered(hs, ok1), ok2).contains(hs[k]),
{
    lemma_delivered_position(hs, ok1, k);
    lemma_delivered_position(delivered(hs, ok1), ok2, count_true(ok1.take(k)) as int);
}

/// Self-inclusion: a registered handle whose write succeeds is among the
/// recipients of the pass — in particular the sender's own handle, which the
/// hub never excludes from a broadcast.
pub proof fn lemma_self_inclusion(hs: Seq<u64>, ok: Seq<bool>, k: int)
    requires
        hs.len() == ok.len(),
        0 <= k < hs.len(),
        ok[k],
    ensures
        delivered(hs, ok).contains(hs[k]),
{
    lemma_delivered_position(hs, ok, k);
}

/// `delivered` distributes over splitting the pass into two runs of handles.
proof fn lemma_delivered_append(a: Seq<u64>, oa: Seq<bool>, b: Seq<u64>, ob: Seq<bool>)
    requires
        a.len() == oa.len(),
        b.len() == ob.len(),
    ensures
        delivered(a + b, oa + ob) == delivered(a, oa) + delivered(b, ob),
    decreases a.len(),
{
    if a.len() == 0 {
        assert(a + b =~= b);
        assert(oa + ob =~= ob);
        assert(delivered(a, oa) + delivered(b, ob) =~= delivered(b, ob));
    } else {
        assert((a + b).drop_first() =~= a.drop_first() + b);
        assert((oa + ob).drop_first() =~= oa.drop_first() + ob);
        lemma_delivered_append(a.drop_first(), oa.drop_first(), b, ob);
        assert((a + b)[0] == a[0]);
        assert((oa + ob)[0] == oa[0]);
        assert(delivered(a + b, oa + ob) =~= delivered(a, oa) + delivered(b, ob));
    }
}

} // verus!
