//! Stateless sample transforms shared by the capture driver.
use vstd::prelude::*;

verus! {

/// Rust's truncating halving (`v / 2` in executable code), as a mathematical
/// function: rounds toward zero rather than toward negative infinity.
pub open spec fn half_toward_zero(v: int) -> int {
    if v >= 0 {
        v / 2
    } else {
        -((-v) / 2)
    }
}

/// The mono sample produced from one stereo pair: the sum of the two half
/// samples (each channel halved first, so the sum cannot overflow `i16`;
/// this accepts a rounding error of at most one unit per sample).
pub open spec fn mono_mix(l: i16, r: i16) -> int {
    half_toward_zero(l as int) + half_toward_zero(r as int)
}

/// The downmix of an interleaved stereo sequence: one mixed sample per
/// complete left/right pair; a trailing unpaired sample is dropped.
pub open spec fn downmix(s: Seq<i16>) -> Seq<i16> {
    Seq::new(s.len() / 2, |i: int| mono_mix(s[2 * i], s[2 * i + 1]) as i16)
}

proof fn lemma_mono_mix_fits(l: i16, r: i16)
    ensures
        i16::MIN <= mono_mix(l, r) <= i16::MAX,
{
}

/// Copies `v[start..end]` into a fresh vector.
pub fn copy_range<T: Copy>(v: &Vec<T>, start: usize, end: usize) -> (out: Vec<T>)
    requires
        start <= end <= v@.len(),
    ensures
        out@ == v@.subrange(start as int, end as int),
{
    let mut out: Vec<T> = Vec::with_capacity(end - start);
    let mut i: usize = start;
    proof {
        assert(out@ =~= v@.subrange(start as int, start as int));
    }
    while i < end
        invariant
            start <= i <= end <= v@.len(),
            out@ == v@.subrange(start as int, i as int),
        decreases end - i,
    {
        out.push(v[i]);
        proof {
            assert(out@ =~= v@.subrange(start as int, i + 1));
        }
        i = i + 1;
    }
    out
}

/// Downmixes interleaved stereo samples to mono, pair by pair.
pub fn stereo_to_mono(input_data: &[i16]) -> (result: Vec<i16>)
    ensures
        result@ == downmix(input_data@),
{
    let pairs: usize = input_data.len() / 2;
    let mut result: Vec<i16> = Vec::with_capacity(pairs);
    let mut i: usize = 0;
    while i < pairs
        invariant
            i <= pairs,
            pairs <= usize::MAX / 2,
            pairs == input_data@.len() / 2,
            result@.len() == i as int,
            forall|j: int| 0 <= j < i ==> result@[j] == downmix(input_data@)[j],
        decreases pairs - i,
    {
        proof {
            assert(2 * i + 1 < input_data@.len());
        }
        let l = input_data[2 * i];
        let r = input_data[2 * i + 1];
        let mixed = l / 2 + r / 2;
        proof {
            lemma_mono_mix_fits(l, r);
            assert(mixed as int == mono_mix(l, r));
        }
        result.push(mixed);
        i = i + 1;
    }
    proof {
        assert(result@ =~= downmix(input_data@));
    }
    result
}

} // verus!

