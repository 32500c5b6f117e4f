//! The beat signal shared between the analyzer and its consumers.
//!
//! Two ways of consuming beats are offered. The flag is level-triggered and
//! cleared by whichever consumer reads it first, so a second consumer in the
//! same frame sees nothing. The counter grows by one per beat; each consumer
//! keeps a [`BeatCursor`] with the last count it saw, so every consumer sees
//! every beat.
use vstd::prelude::*;

verus! {

/// The beat counter after one more beat (it wraps around at `u64::MAX`).
pub open spec fn next_count(c: u64) -> u64 {
    if c == u64::MAX {
        0
    } else {
        (c + 1) as u64
    }
}

/// A raised-until-cleared beat flag together with a count of all beats.
#[derive(Clone, Copy, Debug)]
pub struct BeatSignal {
    pub raised: bool,
    pub count: u64,
}

impl BeatSignal {
    /// Flag lowered, no beats counted.
    pub fn new() -> (s: BeatSignal)
        ensures
            !s.raised,
            s.count == 0,
    {
        BeatSignal { raised: false, count: 0 }
    }

    /// Records one beat: raises the flag and advances the counter.
    pub fn raise(&mut self)
        ensures
            final(self).raised,
            final(self).count == next_count(old(self).count),
    {
        self.raised = true;
        self.count = self.count.wrapping_add(1);
    }

    /// Whether the flag is raised, without clearing it.
    pub fn is_raised(&self) -> (r: bool)
        ensures
            r == self.raised,
    {
        self.raised
    }

    /// Reads and clears the flag: returns whether it was raised.
    pub fn take(&mut self) -> (r: bool)
        ensures
            r == old(self).raised,
            !final(self).raised,
            final(self).count == old(self).count,
    {
        let r = self.raised;
        self.raised = false;
        r
    }

    /// Lowers the flag.
    pub fn clear(&mut self)
        ensures
            !final(self).raised,
            final(self).count == old(self).count,
    {
        self.raised = false;
    }

    /// The number of beats so far (modulo 2^64).
    pub fn beat_count(&self) -> (r: u64)
        ensures
            r == self.count,
    {
        self.count
    }
}

/// One consumer's position in the beat counter.
#[derive(Clone, Copy, Debug)]
pub struct BeatCursor {
    pub last_seen: u64,
}

impl BeatCursor {
    /// A cursor that has seen every beat so far.
    pub fn new(signal: &BeatSignal) -> (c: BeatCursor)
        ensures
            c.last_seen == signal.count,
    {
        BeatCursor { last_seen: signal.count }
    }

    /// Whether a beat came since the last poll; the cursor then catches up.
    pub fn poll(&mut self, signal: &BeatSignal) -> (r: bool)
        ensures
            r == (old(self).last_seen != signal.count),
            final(self).last_seen == signal.count,
    {
        let r = self.last_seen != signal.count;
        self.last_seen = signal.count;
        r
    }
}

} // verus!
