//! Fixed-capacity rolling history: a first-in-first-out buffer that keeps
//! the `HISTORY_LENGTH` most recently appended values, oldest first.

use vstd::prelude::*;

verus! {

/// Number of samples each rolling history retains.
pub const HISTORY_LENGTH: usize = 100;

/// The abstract effect of one append on a rolling history: the value goes
/// to the back, and when the history is already at capacity the oldest
/// (front) element is evicted, so the length never exceeds `HISTORY_LENGTH`.
pub open spec fn pushed(h: Seq<u64>, v: u64) -> Seq<u64> {
    if h.len() < HISTORY_LENGTH {
        h.push(v)
    } else {
        h.subrange(1, h.len() as int).push(v)
    }
}

/// The rolling history obtained by appending the values of `vs`, in order,
/// to an initially empty history.
pub open spec fn history_after(vs: Seq<u64>) -> Seq<u64>
    decreases vs.len(),
{
    if vs.len() == 0 {
        Seq::<u64>::empty()
    } else {
        pushed(history_after(vs.drop_last()), vs.last())
    }
}

/// A fixed-capacity first-in-first-out sequence of metric samples.
/// Appending at capacity evicts the oldest element; iteration order is
/// oldest to newest.
pub struct RollingHistory {
    items: Vec<u64>,
}

impl View for RollingHistory {
    type V = Seq<u64>;

    closed spec fn view(&self) -> Seq<u64> {
        self.items@
    }
}

impl RollingHistory {
    /// The capacity bound: a rolling history never holds more than
    /// `HISTORY_LENGTH` values.
    pub open spec fn wf(&self) -> bool {
        self@.len() <= HISTORY_LENGTH
    }

    /// An empty history.
    pub fn new() -> (r: Self)
        ensures
            r.wf(),
            r@ == Seq::<u64>::empty(),
    {
        RollingHistory { items: Vec::new() }
    }

    /// Number of retained values.
    pub fn len(&self) -> (n: usize)
        ensures
            n == self@.len(),
    {
        self.items.len()
    }

    /// Appends `v`, evicting the oldest value first when at capacity.
    pub fn push(&mut self, v: u64)
        requires
            old(self).wf(),
        ensures
            final(self).wf(),
            final(self)@ == pushed(old(self)@, v),
    {
        if self.items.len() == HISTORY_LENGTH {
            self.items.remove(0);
            proof {
                assert(self.items@ =~= old(self)@.subrange(1, old(self)@.len() as int));
            }
        }
        self.items.push(v);
        proof {
            assert(self@ =~= pushed(old(self)@, v));
        }
    }

    /// Read-only view of the retained values, oldest first: index 0 is the
    /// least recently appended retained value.
    pub fn values(&self) -> (r: &Vec<u64>)
        ensures
            r@ == self@,
    {
        &self.items
    }
}

/// Core shape of a rolling history built by appends: it is exactly the
/// suffix of the appended values that fits in the capacity, in order.
pub proof fn lemma_history_is_suffix(vs: Seq<u64>)
    ensures
        history_after(vs).len() <= HISTORY_LENGTH,
        vs.len() <= HISTORY_LENGTH ==> history_after(vs) == vs,
        vs.len() >= HISTORY_LENGTH ==> history_after(vs) == vs.subrange(
            vs.len() - HISTORY_LENGTH,
            vs.len() as int,
        ),
    decreases vs.len(),
{
    if vs.len() == 0 {
        assert(history_after(vs) =~= vs);
    } else {
        let pre = vs.drop_last();
        lemma_history_is_suffix(pre);
        if vs.len() <= HISTORY_LENGTH {
            assert(history_after(pre) == pre);
            assert(history_after(vs) =~= vs);
        } else {
            let h = history_after(pre);
            assert(h == pre.subrange(pre.len() - HISTORY_LENGTH, pre.len() as int));
            assert(h.len() == HISTORY_LENGTH);
            let r = vs.subrange(vs.len() - HISTORY_LENGTH, vs.len() as int);
            assert forall|i: int| 0 <= i < HISTORY_LENGTH implies history_after(vs)[i] == r[i] by {
                if i < HISTORY_LENGTH - 1 {
                    assert(history_after(vs)[i] == h[i + 1]);
                    assert(h[i + 1] == pre[pre.len() - HISTORY_LENGTH + i + 1]);
                    assert(pre[pre.len() - HISTORY_LENGTH + i + 1] == vs[vs.len() - HISTORY_LENGTH
                        + i]);
                } else {
                    assert(history_after(vs)[i] == vs.last());
                }
            }
            assert(history_after(vs) =~= r);
        }
    }
}

/// Fixed capacity: after more than `HISTORY_LENGTH` appends, a rolling
/// history holds exactly the `HISTORY_LENGTH` most recently appended
/// values, in the order they were appended.
pub proof fn lemma_fixed_capacity(vs: Seq<u64>)
    requires
        vs.len() > HISTORY_LENGTH,
    ensures
        history_after(vs).len() == HISTORY_LENGTH,
        history_after(vs) == vs.subrange(vs.len() - HISTORY_LENGTH, vs.len() as int),
{
    lemma_history_is_suffix(vs);
}

/// FIFO eviction: appending to a full history drops exactly the oldest
/// element, shifts the rest left by one, and places the new value last.
pub proof fn lemma_fifo_eviction(h: Seq<u64>, v: u64)
    requires
        h.len() == HISTORY_LENGTH,
    ensures
        pushed(h, v).len() == HISTORY_LENGTH,
        pushed(h, v) == h.subrange(1, HISTORY_LENGTH as int).push(v),
        forall|i: int| 0 <= i < HISTORY_LENGTH - 1 ==> pushed(h, v)[i] == h[i + 1],
        pushed(h, v)[HISTORY_LENGTH - 1] == v,
{
}

/// No eviction below capacity: appending at most `HISTORY_LENGTH` values
/// to an empty history retains all of them, so the length equals the
/// number of values recorded.
pub proof fn lemma_no_eviction_below_capacity(vs: Seq<u64>)
    requires
        vs.len() <= HISTORY_LENGTH,
    ensures
        history_after(vs) == vs,
{
    lemma_history_is_suffix(vs);
}

/// Oldest-first order for rendering: element `i` of the history is the
/// `i`-th oldest retained append; index 0 is always the least recently
/// appended value that is still retained.
pub proof fn lemma_oldest_first(vs: Seq<u64>)
    ensures
        forall|i: int|
            0 <= i < history_after(vs).len() ==> history_after(vs)[i] == vs[vs.len()
                - history_after(vs).len() + i],
{
    lemma_history_is_suffix(vs);
}

} // verus!
