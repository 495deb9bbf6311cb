//! The aggregator's two pure transforms: converting one analysis window of
//! raw samples into a display buffer, and merging several display buffers
//! into one representative buffer by per-index averaging.
use vstd::prelude::*;

use crate::Config;

verus! {

/// The length of the display buffer that one analysis window yields under a
/// configuration: one value per complete `density_reduction`-sample group.
pub open spec fn window_len_of(c: Config) -> nat {
    (c.resolution as nat) / (c.density_reduction as nat)
}

/// Absolute value of a raw sample, as a mathematical integer (so that
/// `i16::MIN` has its true magnitude of 32768).
pub open spec fn abs_sample(v: i16) -> int {
    if v >= 0 {
        v as int
    } else {
        -(v as int)
    }
}

/// Peak amplitude of a sample sequence: the largest absolute value, 0 when
/// the sequence is empty. Always within `0 ..= 32768`.
pub open spec fn peak(s: Seq<i16>) -> int
    decreases s.len(),
{
    if s.len() == 0 {
        0
    } else {
        let rest = peak(s.drop_last());
        if abs_sample(s.last()) > rest {
            abs_sample(s.last())
        } else {
            rest
        }
    }
}

/// One display value: a peak amplitude scaled by `volume` hundredths and
/// saturated at `u16::MAX`.
pub open spec fn scale_amplitude(p: int, volume: u32) -> u16 {
    if p * volume / 100 > 65535 {
        65535u16
    } else {
        (p * volume / 100) as u16
    }
}

/// The display buffer derived from one analysis window: the window is cut
/// into groups of `density` samples (an incomplete trailing group is
/// dropped) and each group contributes its scaled peak amplitude.
pub open spec fn convert_spec(window: Seq<i16>, density: nat, volume: u32) -> Seq<u16> {
    Seq::new(
        window.len() / density,
        |j: int| scale_amplitude(peak(window.subrange(j * density, (j + 1) * density)), volume),
    )
}

/// The value a display buffer contributes at index `i`: its entry there, or
/// 0 past its end (merging pads shorter buffers with silence).
pub open spec fn entry_or_zero(b: Seq<u16>, i: int) -> int {
    if 0 <= i < b.len() {
        b[i] as int
    } else {
        0
    }
}

/// Sum of the contributions of all buffers at index `i`.
pub open spec fn column_sum(bufs: Seq<Seq<u16>>, i: int) -> int
    decreases bufs.len(),
{
    if bufs.len() == 0 {
        0
    } else {
        column_sum(bufs.drop_last(), i) + entry_or_zero(bufs.last(), i)
    }
}

/// Length of the longest buffer in the set.
pub open spec fn max_len(bufs: Seq<Seq<u16>>) -> nat
    decreases bufs.len(),
{
    if bufs.len() == 0 {
        0
    } else {
        let rest = max_len(bufs.drop_last());
        if bufs.last().len() > rest {
            bufs.last().len()
        } else {
            rest
        }
    }
}

/// The merge of a set of display buffers: per-index arithmetic mean over all
/// buffers, shorter buffers counting as 0 past their end. The mean is a
/// per-index reduction of a sum, so the merge is insensitive to the order of
/// the buffers (`lemma_merge_order_insensitive`).
pub open spec fn merge_spec(bufs: Seq<Seq<u16>>) -> Seq<u16> {
    if bufs.len() == 0 {
        Seq::empty()
    } else {
        Seq::new(max_len(bufs), |i: int| (column_sum(bufs, i) / bufs.len() as int) as u16)
    }
}

pub proof fn lemma_column_sum_bounds(bufs: Seq<Seq<u16>>, i: int)
    ensures
        0 <= column_sum(bufs, i) <= bufs.len() * 65535,
    decreases bufs.len(),
{
    if bufs.len() > 0 {
        lemma_column_sum_bounds(bufs.drop_last(), i);
        assert((bufs.len() - 1) * 65535 == bufs.len() * 65535 - 65535) by (nonlinear_arith);
    }
}

/// The per-index mean of `n` values in `0 ..= 65535` is itself in that range.
pub proof fn lemma_mean_fits(bufs: Seq<Seq<u16>>, i: int)
    requires
        bufs.len() > 0,
    ensures
        0 <= column_sum(bufs, i) / bufs.len() as int <= 65535,
{
    lemma_column_sum_bounds(bufs, i);
    let n = bufs.len() as int;
    assert(column_sum(bufs, i) / n <= 65535) by (nonlinear_arith)
        requires
            n > 0,
            0 <= column_sum(bufs, i) <= n * 65535,
    ;
}

/// Unfolds `column_sum` for a two-buffer set.
pub proof fn lemma_column_sum_pair(a: Seq<u16>, b: Seq<u16>, i: int)
    ensures
        column_sum(seq![a, b], i) == entry_or_zero(a, i) + entry_or_zero(b, i),
{
    reveal_with_fuel(column_sum, 3);
    assert(seq![a, b].drop_last() =~= seq![a]);
    assert(seq![a, b].last() == b);
    assert(column_sum(seq![a, b], i) == column_sum(seq![a], i) + entry_or_zero(b, i));
    assert(seq![a].drop_last() =~= Seq::<Seq<u16>>::empty());
    assert(seq![a].last() == a);
    assert(column_sum(seq![a], i) == column_sum(Seq::<Seq<u16>>::empty(), i) + entry_or_zero(a, i));
    assert(column_sum(Seq::<Seq<u16>>::empty(), i) == 0);
}

/// Unfolds `max_len` for a two-buffer set.
pub proof fn lemma_max_len_pair(a: Seq<u16>, b: Seq<u16>)
    ensures
        max_len(seq![a, b]) == if a.len() > b.len() {
            a.len()
        } else {
            b.len()
        },
{
    reveal_with_fuel(max_len, 3);
    assert(seq![a, b].drop_last() =~= seq![a]);
    assert(seq![a, b].last() == b);
    assert(seq![a].drop_last() =~= Seq::<Seq<u16>>::empty());
    assert(seq![a].last() == a);
    assert(max_len(Seq::<Seq<u16>>::empty()) == 0);
    assert(max_len(seq![a]) == a.len());
}

/// Unfolds `column_sum` by one buffer at the end of a prefix.
pub proof fn lemma_column_sum_take_step(bufs: Seq<Seq<u16>>, k: int, i: int)
    requires
        0 <= k < bufs.len(),
    ensures
        column_sum(bufs.take(k + 1), i) == column_sum(bufs.take(k), i) + entry_or_zero(
            bufs[k],
            i,
        ),
{
    assert(bufs.take(k + 1).drop_last() =~= bufs.take(k));
    assert(bufs.take(k + 1).last() == bufs[k]);
}

/// Unfolds `max_len` by one buffer at the end of a prefix.
pub proof fn lemma_max_len_take_step(bufs: Seq<Seq<u16>>, k: int)
    requires
        0 <= k < bufs.len(),
    ensures
        max_len(bufs.take(k + 1)) == if bufs[k].len() > max_len(bufs.take(k)) {
            bufs[k].len()
        } else {
            max_len(bufs.take(k))
        },
{
    assert(bufs.take(k + 1).drop_last() =~= bufs.take(k));
    assert(bufs.take(k + 1).last() == bufs[k]);
}

/// Merging is order-insensitive: merging `[a, b]` yields the same buffer as
/// merging `[b, a]` for any two equal-shape display buffers.
pub proof fn lemma_merge_order_insensitive(a: Seq<u16>, b: Seq<u16>)
    requires
        a.len() == b.len(),
    ensures
        merge_spec(seq![a, b]) == merge_spec(seq![b, a]),
{
    lemma_max_len_pair(a, b);
    lemma_max_len_pair(b, a);
    assert forall|i: int| true implies column_sum(seq![a, b], i) == column_sum(
        seq![b, a],
        i,
    ) by {
        lemma_column_sum_pair(a, b, i);
        lemma_column_sum_pair(b, a, i);
    }
    assert(merge_spec(seq![a, b]) =~= merge_spec(seq![b, a]));
}

/// Peak amplitude of `window[start..end]`, as executable code.
pub fn peak_of_range(window: &Vec<i16>, start: usize, end: usize) -> (p: u16)
    requires
        start <= end <= window@.len(),
    ensures
        p as int == peak(window@.subrange(start as int, end as int)),
{
    let mut p: u16 = 0;
    let mut k: usize = start;
    proof {
        assert(window@.subrange(start as int, start as int) =~= Seq::<i16>::empty());
    }
    while k < end
        invariant
            start <= k <= end <= window@.len(),
            p as int == peak(window@.subrange(start as int, k as int)),
        decreases end - k,
    {
        let v = window[k];
        let a: u16 = if v >= 0 {
            v as u16
        } else {
            (-(v as i32)) as u16
        };
        proof {
            let sub = window@.subrange(start as int, k + 1);
            assert(sub.drop_last() =~= window@.subrange(start as int, k as int));
            assert(sub.last() == window@[k as int]);
            assert(a as int == abs_sample(v));
        }
        if a > p {
            p = a;
        }
        k = k + 1;
    }
    p
}

/// One display value, as executable code: the scaled, saturated peak.
fn scale_exec(p: u16, volume: u32) -> (s: u16)
    ensures
        s == scale_amplitude(p as int, volume),
{
    proof {
        assert((p as int) * (volume as int) <= 65535 * 4294967295) by (nonlinear_arith)
            requires
                p <= 65535,
                volume <= 4294967295,
        ;
    }
    let scaled: u64 = (p as u64) * (volume as u64) / 100;
    if scaled > 65535 {
        65535
    } else {
        scaled as u16
    }
}

/// Converts one analysis window of raw samples into its display buffer: the
/// scaled peak amplitude of each `density`-sample group.
pub fn convert_buffer(window: &Vec<i16>, density: usize, volume: u32) -> (out: Vec<u16>)
    requires
        density >= 1,
    ensures
        out@ == convert_spec(window@, density as nat, volume),
{
    let out_len: usize = window.len() / density;
    let mut out: Vec<u16> = Vec::with_capacity(out_len);
    let mut j: usize = 0;
    while j < out_len
        invariant
            j <= out_len,
            density >= 1,
            window@.len() <= usize::MAX,
            out_len as int == window@.len() as int / density as int,
            out@.len() == j as int,
            forall|t: int|
                0 <= t < j ==> out@[t] == convert_spec(window@, density as nat, volume)[t],
        decreases out_len - j,
    {
        proof {
            lemma_group_in_window(j as int, density as int, window@.len() as int);
        }
        let start = j * density;
        let end = start + density;
        let p = peak_of_range(window, start, end);
        let s = scale_exec(p, volume);
        out.push(s);
        j = j + 1;
    }
    proof {
        assert(out@ =~= convert_spec(window@, density as nat, volume));
    }
    out
}

/// A group that `convert_spec` indexes lies entirely inside the window.
proof fn lemma_group_in_window(j: int, density: int, len: int)
    requires
        density >= 1,
        len >= 0,
        0 <= j < len / density,
    ensures
        0 <= j * density,
        j * density + density <= len,
        (j + 1) * density == j * density + density,
{
    vstd::arithmetic::div_mod::lemma_fundamental_div_mod(len, density);
    vstd::arithmetic::mul::lemma_mul_inequality(j + 1, len / density, density);
    vstd::arithmetic::mul::lemma_mul_nonnegative(j, density);
    assert((j + 1) * density == j * density + density) by (nonlinear_arith);
}

/// The contribution of `bufs[k]` at index `i`, as executable code.
fn entry_exec(b: &Vec<u16>, i: usize) -> (e: u16)
    ensures
        e as int == entry_or_zero(b@, i as int),
{
    if i < b.len() {
        b[i]
    } else {
        0
    }
}

/// Merges a set of display buffers into one by per-index averaging; shorter
/// buffers count as 0 past their end, and an empty set merges to an empty
/// buffer.
pub fn merge_buffers(bufs: &Vec<Vec<u16>>) -> (out: Vec<u16>)
    ensures
        out@ == merge_spec(bufs.deep_view()),
{
    let ghost dv = bufs.deep_view();
    proof {
        assert forall|k: int| 0 <= k < bufs@.len() implies dv[k] == bufs@[k]@ by {
            assert(bufs@[k].deep_view() =~= bufs@[k]@);
        }
    }
    let n = bufs.len();
    if n == 0 {
        let out: Vec<u16> = Vec::new();
        proof {
            assert(out@ =~= merge_spec(dv));
        }
        return out;
    }
    let mut m: usize = 0;
    let mut k: usize = 0;
    proof {
        assert(dv.take(0) =~= Seq::<Seq<u16>>::empty());
    }
    while k < n
        invariant
            k <= n,
            n == bufs@.len(),
            dv == bufs.deep_view(),
            forall|t: int| 0 <= t < bufs@.len() ==> dv[t] == bufs@[t]@,
            m as int == max_len(dv.take(k as int)),
        decreases n - k,
    {
        proof {
            lemma_max_len_take_step(dv, k as int);
        }
        let l = bufs[k].len();
        if l > m {
            m = l;
        }
        k = k + 1;
    }
    proof {
        assert(dv.take(n as int) =~= dv);
    }
    let mut out: Vec<u16> = Vec::with_capacity(m);
    let mut i: usize = 0;
    while i < m
        invariant
            i <= m,
            n == bufs@.len(),
            n >= 1,
            dv == bufs.deep_view(),
            forall|t: int| 0 <= t < bufs@.len() ==> dv[t] == bufs@[t]@,
            m as int == max_len(dv),
            out@.len() == i as int,
            forall|t: int| 0 <= t < i ==> out@[t] == merge_spec(dv)[t],
        decreases m - i,
    {
        let mut sum: u128 = 0;
        let mut k2: usize = 0;
        proof {
            assert(dv.take(0) =~= Seq::<Seq<u16>>::empty());
        }
        while k2 < n
            invariant
                k2 <= n,
                n == bufs@.len(),
                dv == bufs.deep_view(),
                forall|t: int| 0 <= t < bufs@.len() ==> dv[t] == bufs@[t]@,
                sum as int == column_sum(dv.take(k2 as int), i as int),
                sum as int <= k2 as int * 65535,
            decreases n - k2,
        {
            proof {
                lemma_column_sum_take_step(dv, k2 as int, i as int);
                lemma_column_sum_bounds(dv.take(k2 as int), i as int);
                assert((k2 + 1) as int * 65535 == k2 as int * 65535 + 65535) by (nonlinear_arith);
            }
            let e = entry_exec(&bufs[k2], i);
            sum = sum + (e as u128);
            k2 = k2 + 1;
        }
        proof {
            assert(dv.take(n as int) =~= dv);
            lemma_mean_fits(dv, i as int);
        }
        let avg = sum / (n as u128);
        out.push(avg as u16);
        i = i + 1;
    }
    proof {
        assert(out@ =~= merge_spec(dv));
    }
    out
}

/// Merges exactly two display buffers; the aggregator folds each freshly
/// converted window into its running buffer this way.
pub fn merge_pair(a: &Vec<u16>, b: &Vec<u16>) -> (out: Vec<u16>)
    ensures
        out@ == merge_spec(seq![a@, b@]),
{
    let ghost aseq = a@;
    let ghost bseq = b@;
    let m: usize = if a.len() > b.len() {
        a.len()
    } else {
        b.len()
    };
    proof {
        lemma_max_len_pair(aseq, bseq);
    }
    let mut out: Vec<u16> = Vec::with_capacity(m);
    let mut i: usize = 0;
    while i < m
        invariant
            i <= m,
            aseq == a@,
            bseq == b@,
            m as int == max_len(seq![aseq, bseq]),
            out@.len() == i as int,
            forall|t: int| 0 <= t < i ==> out@[t] == merge_spec(seq![aseq, bseq])[t],
        decreases m - i,
    {
        let ea = entry_exec(a, i);
        let eb = entry_exec(b, i);
        let sum: u32 = ea as u32 + eb as u32;
        proof {
            lemma_column_sum_pair(aseq, bseq, i as int);
        }
        let avg = sum / 2;
        out.push(avg as u16);
        i = i + 1;
    }
    proof {
        assert(out@ =~= merge_spec(seq![aseq, bseq]));
    }
    out
}

} // verus!
