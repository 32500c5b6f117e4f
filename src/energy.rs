//! Energy of one audio buffer: the mean absolute amplitude of its samples.
use vstd::prelude::*;

verus! {

/// The largest absolute amplitude of an `i16` sample (that of `i16::MIN`).
pub const FULL_SCALE: u64 = 32768;

/// Absolute amplitude of one sample.
pub open spec fn amplitude(s: i16) -> nat {
    if s < 0 {
        (-s) as nat
    } else {
        s as nat
    }
}

/// Sum of the absolute amplitudes of a sequence of samples.
pub open spec fn sum_amplitudes(s: Seq<i16>) -> nat
    decreases s.len(),
{
    if s.len() == 0 {
        0
    } else {
        sum_amplitudes(s.drop_last()) + amplitude(s.last())
    }
}

/// Mean absolute amplitude of a non-empty buffer, rounded down.
pub open spec fn mean_amplitude(s: Seq<i16>) -> nat
    recommends
        s.len() > 0,
{
    sum_amplitudes(s) / s.len()
}

/// The energy of a buffer: its mean absolute amplitude, or nothing for an
/// empty buffer.
pub open spec fn energy_of(s: Seq<i16>) -> Option<nat> {
    if s.len() == 0 {
        None
    } else {
        Some(mean_amplitude(s))
    }
}

pub proof fn lemma_sum_amplitudes_bound(s: Seq<i16>)
    ensures
        sum_amplitudes(s) <= FULL_SCALE * s.len(),
    decreases s.len(),
{
    if s.len() > 0 {
        lemma_sum_amplitudes_bound(s.drop_last());
    }
}

pub proof fn lemma_mean_amplitude_bound(s: Seq<i16>)
    requires
        s.len() > 0,
    ensures
        mean_amplitude(s) <= FULL_SCALE,
{
    lemma_sum_amplitudes_bound(s);
    let n = s.len() as int;
    let t = sum_amplitudes(s) as int;
    assert(t / n <= FULL_SCALE) by (nonlinear_arith)
        requires
            t <= FULL_SCALE * n,
            n > 0,
            t >= 0,
    {
        vstd::arithmetic::div_mod::lemma_div_is_ordered(t, FULL_SCALE * n, n);
        vstd::arithmetic::div_mod::lemma_div_multiples_vanish(FULL_SCALE as int, n);
    }
}

/// A buffer of silence has no energy.
pub proof fn lemma_silence_has_no_energy(s: Seq<i16>)
    requires
        forall|i: int| 0 <= i < s.len() ==> s[i] == 0,
    ensures
        sum_amplitudes(s) == 0,
        s.len() > 0 ==> mean_amplitude(s) == 0,
    decreases s.len(),
{
    if s.len() > 0 {
        lemma_silence_has_no_energy(s.drop_last());
    }
}

/// Computes the energy of a buffer of samples: its mean absolute amplitude
/// (rounded down), or `None` for an empty buffer.
pub fn buffer_energy(samples: &[i16]) -> (r: Option<u64>)
    ensures
        match r {
            None => samples@.len() == 0,
            Some(e) => samples@.len() > 0 && e == mean_amplitude(samples@),
        },
        r matches Some(e) ==> e <= FULL_SCALE,
{
    let n = samples.len();
    if n == 0 {
        return None;
    }
    let mut total: u128 = 0;
    let mut i: usize = 0;
    while i < n
        invariant
            n == samples@.len(),
            i <= n,
            total == sum_amplitudes(samples@.subrange(0, i as int)),
            total <= FULL_SCALE * i,
        decreases n - i,
    {
        let s = samples[i];
        let a: u128 = if s < 0 {
            (-(s as i32)) as u128
        } else {
            s as u128
        };
        proof {
            let prefix = samples@.subrange(0, i as int + 1);
            assert(prefix.drop_last() =~= samples@.subrange(0, i as int));
            assert(prefix.last() == s);
        }
        total = total + a;
        i = i + 1;
    }
    proof {
        assert(samples@.subrange(0, n as int) =~= samples@);
        lemma_mean_amplitude_bound(samples@);
    }
    Some((total / (n as u128)) as u64)
}

} // verus!
