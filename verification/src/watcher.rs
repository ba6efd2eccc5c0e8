//! Two-slot history of one sampled quantity.

use vstd::prelude::*;

verus! {

/// The two most recent samples of a quantity.
#[derive(Clone, Copy, Debug)]
pub struct Pair<T> {
    /// The sample before the latest one.
    pub old: T,
    /// The latest sample.
    pub current: T,
}

/// History of one quantity. `pair` is `None` until the first sample arrives.
#[derive(Clone, Copy, Debug)]
pub struct Watcher<T> {
    pub pair: Option<Pair<T>>,
}

impl<T: Copy> Watcher<T> {
    /// A watcher that has seen nothing.
    pub open spec fn empty() -> Self {
        Watcher { pair: None }
    }

    /// The watcher after one more sample: `current` moves to `old`, the
    /// sample becomes `current`. The first sample fills both slots, so it
    /// never looks like a change.
    pub open spec fn updated(self, value: T) -> Self {
        Watcher {
            pair: Some(
                Pair {
                    old: match self.pair {
                        Some(p) => p.current,
                        None => value,
                    },
                    current: value,
                },
            ),
        }
    }

    pub fn new() -> (w: Self)
        ensures
            w == Self::empty(),
    {
        Watcher { pair: None }
    }

    /// Records one sample.
    pub fn update(&mut self, value: T)
        ensures
            *final(self) == old(self).updated(value),
    {
        let previous: T = match self.pair {
            Some(p) => p.current,
            None => value,
        };
        self.pair = Some(Pair { old: previous, current: value });
    }

    /// The two most recent samples, or `None` before the first one.
    pub fn pair(&self) -> (p: Option<Pair<T>>)
        ensures
            p == self.pair,
    {
        self.pair
    }
}

impl Pair<u8> {
    pub open spec fn changed_spec(&self) -> bool {
        self.old != self.current
    }

    pub open spec fn changed_from_to_spec(&self, from: u8, to: u8) -> bool {
        self.old == from && self.current == to
    }

    /// Whether the latest sample differs from the one before.
    #[verifier::when_used_as_spec(changed_spec)]
    pub fn changed(&self) -> (b: bool)
        ensures
            b == self.changed_spec(),
    {
        self.old != self.current
    }

    /// Whether the quantity went from exactly `from` to exactly `to`.
    #[verifier::when_used_as_spec(changed_from_to_spec)]
    pub fn changed_from_to(&self, from: u8, to: u8) -> (b: bool)
        ensures
            b == self.changed_from_to_spec(from, to),
    {
        self.old == from && self.current == to
    }
}

impl Pair<u32> {
    pub open spec fn changed_spec(&self) -> bool {
        self.old != self.current
    }

    /// Whether the latest sample differs from the one before, bit for bit.
    #[verifier::when_used_as_spec(changed_spec)]
    pub fn changed(&self) -> (b: bool)
        ensures
            b == self.changed_spec(),
    {
        self.old != self.current
    }
}

impl<const N: usize> Pair<[u8; N]> {
    pub open spec fn changed_spec(&self) -> bool {
        self.old@ != self.current@
    }

    /// Whether any byte of the latest sample differs from the one before.
    #[verifier::when_used_as_spec(changed_spec)]
    pub fn changed(&self) -> (b: bool)
        ensures
            b == self.changed_spec(),
    {
        let mut i: usize = 0;
        while i < N
            invariant
                i <= N,
                forall|j: int| 0 <= j < i ==> self.old@[j] == self.current@[j],
            decreases N - i,
        {
            if self.old[i] != self.current[i] {
                return true;
            }
            i += 1;
        }
        assert(self.old@ =~= self.current@);
        false
    }
}

} // verus!
