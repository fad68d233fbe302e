//! Analog sampling: the fixed window of raw conversions and its mean.
//!
//! One averaged reading is the floored arithmetic mean of `READ_V_COUNT`
//! successive conversions of one channel. Nothing else is filtered.

use vstd::prelude::*;

verus! {

/// Conversions that make up one averaged reading.
pub const READ_V_COUNT: usize = 3;

/// Largest value a conversion of the 12-bit converter delivers.
pub const RAW_SAMPLE_MAX: u16 = 4095;

/// The sum of the samples.
pub open spec fn sum_of(samples: Seq<u16>) -> int
    decreases samples.len(),
{
    if samples.len() == 0 {
        0
    } else {
        sum_of(samples.drop_last()) + samples.last() as int
    }
}

/// The arithmetic mean of the samples, floored.
pub open spec fn average_of(samples: Seq<u16>) -> int
    recommends
        samples.len() > 0,
{
    sum_of(samples) / (samples.len() as int)
}

/// Every sample lies within `lo..=hi`.
pub open spec fn all_within(samples: Seq<u16>, lo: int, hi: int) -> bool {
    forall|i: int| 0 <= i < samples.len() ==> lo <= #[trigger] samples[i] <= hi
}

/// The averaged reading of one window of conversions: the floor of their mean.
pub fn read_average_v(read_v: &[u16; READ_V_COUNT]) -> (avg: u16)
    ensures
        avg as int == average_of(read_v@),
        avg as int == (read_v[0] + read_v[1] + read_v[2]) / 3,
        all_within(read_v@, 0, RAW_SAMPLE_MAX as int) ==> avg <= RAW_SAMPLE_MAX,
{
    let mut sum: u32 = 0;
    let mut i: usize = 0;
    while i < READ_V_COUNT
        invariant
            i <= READ_V_COUNT,
            sum as int == sum_of(read_v@.take(i as int)),
            sum <= i * 0xffff,
        decreases READ_V_COUNT - i,
    {
        proof {
            assert(read_v@.take(i + 1).drop_last() =~= read_v@.take(i as int));
        }
        sum = sum + read_v[i] as u32;
        i = i + 1;
    }
    proof {
        assert(read_v@.take(READ_V_COUNT as int) =~= read_v@);
        assert(read_v@ =~= seq![read_v[0], read_v[1], read_v[2]]);
        lemma_average_of_three(read_v[0], read_v[1], read_v[2]);
        if all_within(read_v@, 0, RAW_SAMPLE_MAX as int) {
            lemma_average_within(read_v@, 0, RAW_SAMPLE_MAX as int);
        }
    }
    (sum / READ_V_COUNT as u32) as u16
}

/// The averaged reading of three samples is `floor((a + b + c) / 3)`.
pub proof fn lemma_average_of_three(a: u16, b: u16, c: u16)
    ensures
        sum_of(seq![a, b, c]) == a + b + c,
        average_of(seq![a, b, c]) == (a + b + c) / 3,
{
    let s3 = seq![a, b, c];
    let s2 = seq![a, b];
    let s1 = seq![a];
    assert(s3.drop_last() =~= s2);
    assert(s2.drop_last() =~= s1);
    assert(s1.drop_last() =~= Seq::<u16>::empty());
    assert(sum_of(Seq::<u16>::empty()) == 0);
    assert(sum_of(s1) == a);
    assert(sum_of(s2) == a + b);
}

/// A sum lies between the window length times the least and times the
/// greatest bound of its samples.
pub proof fn lemma_sum_within(samples: Seq<u16>, lo: int, hi: int)
    requires
        all_within(samples, lo, hi),
    ensures
        samples.len() * lo <= sum_of(samples) <= samples.len() * hi,
    decreases samples.len(),
{
    let n = samples.len() as int;
    if n == 0 {
        assert(n * lo == 0 && n * hi == 0) by (nonlinear_arith)
            requires
                n == 0,
        ;
    } else {
        let rest = samples.drop_last();
        lemma_sum_within(rest, lo, hi);
        assert(n * lo == (n - 1) * lo + lo && n * hi == (n - 1) * hi + hi) by (nonlinear_arith);
    }
}

/// A mean never leaves the range of its samples. In particular the mean of
/// 12-bit conversions is a 12-bit reading, and equal samples average to
/// themselves.
pub proof fn lemma_average_within(samples: Seq<u16>, lo: int, hi: int)
    requires
        samples.len() > 0,
        all_within(samples, lo, hi),
    ensures
        lo <= average_of(samples) <= hi,
{
    lemma_sum_within(samples, lo, hi);
    let n = samples.len() as int;
    let sum = sum_of(samples);
    assert(lo <= sum / n <= hi) by (nonlinear_arith)
        requires
            n > 0,
            n * lo <= sum <= n * hi,
    ;
}

} // verus!
