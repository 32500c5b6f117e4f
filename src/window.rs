//! The rolling window of recent per-buffer energies, oldest first.
use vstd::prelude::*;
use std::collections::VecDeque;
use crate::config::ConfigError;

verus! {

/// Sum of a sequence of energies.
pub open spec fn window_sum(w: Seq<u64>) -> nat
    decreases w.len(),
{
    if w.len() == 0 {
        0
    } else {
        window_sum(w.drop_last()) + w.last() as nat
    }
}

/// The window after `e` is appended to `w`, keeping only the newest
/// `capacity` values.
pub open spec fn pushed(w: Seq<u64>, capacity: nat, e: u64) -> Seq<u64> {
    let p = w.push(e);
    if p.len() > capacity {
        p.subrange(p.len() - capacity, p.len() as int)
    } else {
        p
    }
}

/// The window after each value of `es` is pushed in turn.
pub open spec fn pushed_all(w: Seq<u64>, capacity: nat, es: Seq<u64>) -> Seq<u64>
    decreases es.len(),
{
    if es.len() == 0 {
        w
    } else {
        pushed(pushed_all(w, capacity, es.drop_last()), capacity, es.last())
    }
}

/// The newest `capacity` values of `s` (all of them if there are fewer).
pub open spec fn newest(s: Seq<u64>, capacity: nat) -> Seq<u64> {
    if s.len() > capacity {
        s.subrange(s.len() - capacity, s.len() as int)
    } else {
        s
    }
}

pub proof fn lemma_window_sum_bound(w: Seq<u64>, bound: nat)
    requires
        forall|i: int| 0 <= i < w.len() ==> w[i] <= bound,
    ensures
        window_sum(w) <= bound * w.len(),
    decreases w.len(),
{
    if w.len() > 0 {
        lemma_window_sum_bound(w.drop_last(), bound);
        assert(bound * w.len() == bound * (w.len() - 1) + bound) by (nonlinear_arith)
            requires
                w.len() > 0,
        ;
    }
}

/// A fixed-capacity window of energies; pushing onto a full window evicts
/// the oldest value.
pub struct EnergyWindow {
    values: VecDeque<u64>,
    capacity: usize,
}

impl View for EnergyWindow {
    type V = Seq<u64>;

    closed spec fn view(&self) -> Seq<u64> {
        self.values@
    }
}

impl EnergyWindow {
    /// The capacity is positive and the window never holds more than it.
    pub closed spec fn wf(&self) -> bool {
        &&& self.capacity > 0
        &&& self.values@.len() <= self.capacity
    }

    /// How many values the window keeps.
    pub closed spec fn spec_capacity(&self) -> nat {
        self.capacity as nat
    }

    /// An empty window of the given capacity; a capacity of zero is rejected.
    pub fn new(capacity: usize) -> (r: Result<EnergyWindow, ConfigError>)
        ensures
            match r {
                Ok(w) => capacity > 0 && w.wf() && w@ == Seq::<u64>::empty() && w.spec_capacity()
                    == capacity,
                Err(e) => capacity == 0 && e == ConfigError::InvalidWindowSize,
            },
    {
        if capacity == 0 {
            Err(ConfigError::InvalidWindowSize)
        } else {
            Ok(EnergyWindow { values: VecDeque::with_capacity(capacity), capacity })
        }
    }

    /// Appends an energy, evicting the oldest one when the window is full.
    pub fn push(&mut self, energy: u64)
        requires
            old(self).wf(),
        ensures
            final(self).wf(),
            final(self)@ == pushed(old(self)@, old(self).spec_capacity(), energy),
            final(self).spec_capacity() == old(self).spec_capacity(),
            final(self)@.len() <= final(self).spec_capacity(),
            final(self)@.len() > 0,
    {
        if self.values.len() == self.capacity {
            let _ = self.values.pop_front();
        }
        self.values.push_back(energy);
        proof {
            assert(self.values@ =~= pushed(old(self)@, old(self).spec_capacity(), energy));
        }
    }

    /// Removes every value.
    pub fn clear(&mut self)
        requires
            old(self).wf(),
        ensures
            final(self).wf(),
            final(self)@ == Seq::<u64>::empty(),
            final(self).spec_capacity() == old(self).spec_capacity(),
    {
        self.values.clear();
    }

    pub fn len(&self) -> (r: usize)
        requires
            self.wf(),
        ensures
            r == self@.len(),
            r <= self.spec_capacity(),
    {
        self.values.len()
    }

    pub fn is_empty(&self) -> (r: bool)
        ensures
            r == (self@.len() == 0),
    {
        self.values.len() == 0
    }

    pub fn capacity(&self) -> (r: usize)
        requires
            self.wf(),
        ensures
            r == self.spec_capacity(),
            r > 0,
    {
        self.capacity
    }

    /// Sum of the energies in the window.
    pub fn sum(&self) -> (r: u128)
        ensures
            r == window_sum(self@),
    {
        let n = self.values.len();
        let mut total: u128 = 0;
        let mut i: usize = 0;
        while i < n
            invariant
                n == self@.len(),
                i <= n,
                total == window_sum(self@.subrange(0, i as int)),
                total <= u64::MAX * i,
            decreases n - i,
        {
            let e = self.values[i];
            proof {
                let prefix = self@.subrange(0, i as int + 1);
                assert(prefix.drop_last() =~= self@.subrange(0, i as int));
                assert(u64::MAX * (i + 1) == u64::MAX * i + u64::MAX) by (nonlinear_arith);
                assert(u64::MAX * (i + 1) <= u64::MAX * usize::MAX) by (nonlinear_arith)
                    requires
                        i < usize::MAX,
                ;
            }
            total = total + e as u128;
            i = i + 1;
        }
        proof {
            assert(self@.subrange(0, n as int) =~= self@);
        }
        total
    }

    /// The energies in the window, oldest first.
    pub fn to_vec(&self) -> (r: Vec<u64>)
        ensures
            r@ == self@,
    {
        let n = self.values.len();
        let mut out: Vec<u64> = Vec::with_capacity(n);
        let mut i: usize = 0;
        while i < n
            invariant
                n == self@.len(),
                i <= n,
                out@ == self@.subrange(0, i as int),
            decreases n - i,
        {
            out.push(self.values[i]);
            i = i + 1;
        }
        proof {
            assert(out@ =~= self@);
        }
        out
    }
}

/// Pushing any sequence of energies onto a window leaves exactly the newest
/// `capacity` values of the old contents followed by the pushed ones, oldest
/// first: once more than `capacity` values have been pushed, the window is
/// full and holds the last `capacity` of them in the order they came.
pub proof fn lemma_window_keeps_newest(w: Seq<u64>, capacity: nat, es: Seq<u64>)
    requires
        capacity > 0,
        w.len() <= capacity,
    ensures
        pushed_all(w, capacity, es) == newest(w + es, capacity),
        es.len() >= capacity ==> pushed_all(w, capacity, es) == es.subrange(
            es.len() - capacity,
            es.len() as int,
        ),
    decreases es.len(),
{
    if es.len() > 0 {
        lemma_window_keeps_newest(w, capacity, es.drop_last());
        let prev = newest(w + es.drop_last(), capacity);
        assert((w + es.drop_last()).push(es.last()) =~= w + es);
        assert(pushed(prev, capacity, es.last()) =~= newest(w + es, capacity));
    } else {
        assert(w + es =~= w);
    }
    if es.len() >= capacity {
        assert(newest(w + es, capacity) =~= es.subrange(es.len() - capacity, es.len() as int));
    }
}

} // verus!
