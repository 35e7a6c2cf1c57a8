use vstd::prelude::*;

verus! {

/// How many samples a metric history keeps.
pub const HISTORY_CAPACITY: usize = 200;

/// The last `n` items of `s` (all of `s` when it holds no more than `n`).
pub open spec fn keep_last<T>(s: Seq<T>, n: nat) -> Seq<T> {
    if s.len() > n {
        s.subrange(s.len() - n, s.len() as int)
    } else {
        s
    }
}

/// Keeping the last `n` items, then appending and keeping the last `n` again,
/// is the same as appending to the whole sequence and keeping the last `n`:
/// a bounded window over a stream holds the most recent `n` items, oldest
/// first, with the newest at the end.
pub proof fn law_window_push<T>(s: Seq<T>, x: T, n: nat)
    requires
        n > 0,
    ensures
        keep_last(keep_last(s, n).push(x), n) == keep_last(s.push(x), n),
        keep_last(s.push(x), n).last() == x,
        keep_last(s.push(x), n).len() == if s.len() + 1 <= n { s.len() + 1 } else { n },
{
    assert(keep_last(keep_last(s, n).push(x), n) =~= keep_last(s.push(x), n));
}

/// A bounded history of metric samples: the most recent
/// `HISTORY_CAPACITY` values, oldest first.
pub struct History<T> {
    values: Vec<T>,
}

impl<T> View for History<T> {
    type V = Seq<T>;

    closed spec fn view(&self) -> Seq<T> {
        self.values@
    }
}

impl<T> History<T> {
    #[verifier::type_invariant]
    spec fn bounded(self) -> bool {
        self.values@.len() <= HISTORY_CAPACITY
    }

    /// An empty history.
    pub fn new() -> (res: History<T>)
        ensures
            res@ == Seq::<T>::empty(),
    {
        History { values: Vec::new() }
    }

    /// Appends a sample; when the history is full the oldest sample leaves.
    pub fn push(&mut self, value: T)
        ensures
            final(self)@ == keep_last(old(self)@.push(value), HISTORY_CAPACITY as nat),
            final(self)@.len() <= HISTORY_CAPACITY,
    {
        proof {
            use_type_invariant(&*self);
        }
        let mut values = Vec::new();
        std::mem::swap(&mut values, &mut self.values);
        let ghost before = values@;
        if values.len() == HISTORY_CAPACITY {
            values.remove(0);
        }
        values.push(value);
        assert(values@ =~= keep_last(before.push(value), HISTORY_CAPACITY as nat));
        self.values = values;
    }

    /// The number of samples held.
    pub fn len(&self) -> (res: usize)
        ensures
            res == self@.len(),
            res <= HISTORY_CAPACITY,
    {
        proof {
            use_type_invariant(self);
        }
        self.values.len()
    }

    /// The samples, oldest first.
    pub fn values(&self) -> (res: &Vec<T>)
        ensures
            res@ == self@,
    {
        &self.values
    }
}

/// The law of a history: if it holds the last `HISTORY_CAPACITY` of the
/// samples `all` pushed so far, then after pushing `x` it holds the last
/// `HISTORY_CAPACITY` of `all` followed by `x`.
pub proof fn law_history_holds_latest_samples<T>(before: Seq<T>, after: Seq<T>, all: Seq<T>, x: T)
    requires
        before == keep_last(all, HISTORY_CAPACITY as nat),
        after == keep_last(before.push(x), HISTORY_CAPACITY as nat),
    ensures
        after == keep_last(all.push(x), HISTORY_CAPACITY as nat),
        after.len() <= HISTORY_CAPACITY,
        after.last() == x,
{
    law_window_push(all, x, HISTORY_CAPACITY as nat);
}

} // verus!
