//! Conversion of unsigned PCM samples to the signed samples the analyzer
//! reads.
use vstd::prelude::*;

verus! {

/// The signed value of an unsigned sample: its offset from the midpoint 32768.
pub open spec fn centered(s: u16) -> int {
    s as int - 32768
}

/// Relies on dasp's `conv::u16::to_i16`, which moves an unsigned sample down
/// by the midpoint 32768 (`s - 32768` for every `s`), with no other effect.
pub assume_specification[ dasp::sample::conv::u16::to_i16 ](s: u16) -> (r: i16)
    ensures
        r as int == centered(s),
;

/// Converts a buffer of unsigned samples to signed ones, sample by sample.
pub fn samples_from_u16(raw: &[u16]) -> (r: Vec<i16>)
    ensures
        r@.len() == raw@.len(),
        forall|i: int| 0 <= i < raw@.len() ==> r@[i] as int == centered(#[trigger] raw@[i]),
{
    let n = raw.len();
    let mut out: Vec<i16> = Vec::with_capacity(n);
    let mut i: usize = 0;
    while i < n
        invariant
            n == raw@.len(),
            i <= n,
            out@.len() == i,
            forall|k: int| 0 <= k < i ==> out@[k] as int == centered(#[trigger] raw@[k]),
        decreases n - i,
    {
        out.push(dasp::sample::conv::u16::to_i16(raw[i]));
        i = i + 1;
    }
    out
}

} // verus!
