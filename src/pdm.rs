//! First-order delta-sigma modulation of a sampled waveform into a packed
//! pulse-density bitstream.
//!
//! A waveform sample is an integer in `[-scale, scale]`, where `scale` stands
//! for an amplitude of 1.0.
use vstd::prelude::*;
use vstd::arithmetic::power2::{pow2, lemma2_to64};

verus! {

/// Every sample lies within the full scale.
pub open spec fn samples_in_range(samples: Seq<i32>, scale: int) -> bool {
    forall|k: int| 0 <= k < samples.len() ==> -scale <= #[trigger] samples[k] <= scale
}

/// The modulator's running quantisation error after the first `k` samples.
pub open spec fn pdm_error(samples: Seq<i32>, scale: int, k: nat) -> int
    decreases k,
{
    if k == 0 {
        0
    } else {
        let e = pdm_error(samples, scale, (k - 1) as nat) + samples[k - 1];
        if e > 0 {
            e - scale
        } else {
            e + scale
        }
    }
}

/// Bit `k` of the stream: 1 exactly when the error, with sample `k` added, is
/// positive.
pub open spec fn pdm_bit(samples: Seq<i32>, scale: int, k: int) -> bool {
    pdm_error(samples, scale, k as nat) + samples[k] > 0
}

/// The bitstream, one bit per sample, in sample order.
pub open spec fn pdm_bits(samples: Seq<i32>, scale: int) -> Seq<bool> {
    Seq::new(samples.len(), |k: int| pdm_bit(samples, scale, k))
}

/// The value of `bits` read as a binary number, most significant bit first.
pub open spec fn bits_value(bits: Seq<bool>) -> nat
    decreases bits.len(),
{
    if bits.len() == 0 {
        0
    } else {
        2 * bits_value(bits.drop_last()) + if bits.last() {
            1nat
        } else {
            0nat
        }
    }
}

/// `bits` packed eight to a byte, most significant bit first.
pub open spec fn pack_bits(bits: Seq<bool>) -> Seq<u8> {
    Seq::new(bits.len() / 8, |j: int| bits_value(bits.subrange(8 * j, 8 * j + 8)) as u8)
}

/// The packed bitstream of `samples`.
pub open spec fn pdm_table(samples: Seq<i32>, scale: int) -> Seq<u8> {
    pack_bits(pdm_bits(samples, scale))
}

proof fn lemma_bits_value_bound(bits: Seq<bool>)
    ensures
        bits_value(bits) < pow2(bits.len()),
    decreases bits.len(),
{
    if bits.len() == 0 {
        lemma2_to64();
    } else {
        lemma_bits_value_bound(bits.drop_last());
        vstd::arithmetic::power2::lemma_pow2_unfold(bits.len());
    }
}

/// Modulates `samples` and packs the bits eight to a byte, most significant
/// bit first.
pub fn generate_pdm(samples: &Vec<i32>, scale: i32) -> (r: Vec<u8>)
    requires
        samples.len() % 8 == 0,
        scale > 0,
        samples_in_range(samples@, scale as int),
    ensures
        r@ == pdm_table(samples@, scale as int),
        r@.len() == samples.len() / 8,
{
    let ghost bits = pdm_bits(samples@, scale as int);
    let n_bytes: usize = samples.len() / 8;
    let mut out: Vec<u8> = Vec::new();
    let mut qe: i64 = 0;
    let mut j: usize = 0;
    while j < n_bytes
        invariant
            n_bytes == samples.len() / 8,
            samples.len() % 8 == 0,
            scale > 0,
            samples_in_range(samples@, scale as int),
            bits == pdm_bits(samples@, scale as int),
            j <= n_bytes,
            out@ == pdm_table(samples@, scale as int).take(j as int),
            qe == pdm_error(samples@, scale as int, (8 * j) as nat),
            -scale <= qe <= scale,
        decreases n_bytes - j,
    {
        let base: usize = 8 * j;
        let mut acc: u8 = 0;
        let mut t: usize = 0;
        while t < 8
            invariant
                n_bytes == samples.len() / 8,
                samples.len() % 8 == 0,
                scale > 0,
                samples_in_range(samples@, scale as int),
                bits == pdm_bits(samples@, scale as int),
                j < n_bytes,
                base == 8 * j,
                t <= 8,
                acc == bits_value(bits.subrange(base as int, base + t)),
                qe == pdm_error(samples@, scale as int, (base + t) as nat),
                -scale <= qe <= scale,
            decreases 8 - t,
        {
            proof {
                lemma_bits_value_bound(bits.subrange(base as int, base + t));
                lemma2_to64();
            }
            let k: usize = base + t;
            let e: i64 = qe + samples[k] as i64;
            let bit: u8 = if e > 0 {
                qe = e - scale as i64;
                1
            } else {
                qe = e + scale as i64;
                0
            };
            assert(bits.subrange(base as int, k + 1).drop_last() =~= bits.subrange(base as int, k as int));
            acc = acc * 2 + bit;
            t = t + 1;
        }
        proof {
            let table = pdm_table(samples@, scale as int);
            assert(out@.push(acc) =~= table.take(j + 1));
        }
        out.push(acc);
        j = j + 1;
    }
    proof {
        assert(out@ =~= pdm_table(samples@, scale as int));
    }
    out
}

/// The number of 1-bits among `bits[a..b]`.
pub open spec fn ones_in(bits: Seq<bool>, a: int, b: int) -> int
    decreases b - a,
{
    if b <= a {
        0
    } else {
        ones_in(bits, a, b - 1) + if bits[b - 1] {
            1int
        } else {
            0int
        }
    }
}

/// The sum of `samples[a..b]`.
pub open spec fn sum_in(samples: Seq<i32>, a: int, b: int) -> int
    decreases b - a,
{
    if b <= a {
        0
    } else {
        sum_in(samples, a, b - 1) + samples[b - 1]
    }
}

/// Generation depends on the samples and the scale alone: equal inputs give
/// bit-identical tables.
pub proof fn lemma_pdm_deterministic(s1: Seq<i32>, s2: Seq<i32>, scale: int)
    requires
        s1 =~= s2,
    ensures
        pdm_bits(s1, scale) == pdm_bits(s2, scale),
        pdm_table(s1, scale) == pdm_table(s2, scale),
{
}

proof fn lemma_error_bounded(samples: Seq<i32>, scale: int, k: nat)
    requires
        scale > 0,
        samples_in_range(samples, scale),
        k <= samples.len(),
    ensures
        -scale <= pdm_error(samples, scale, k) <= scale,
    decreases k,
{
    if k > 0 {
        lemma_error_bounded(samples, scale, (k - 1) as nat);
        assert(-scale <= samples[k - 1] <= scale);
    }
}

proof fn lemma_error_accounts(samples: Seq<i32>, scale: int, k: nat)
    requires
        k <= samples.len(),
    ensures
        pdm_error(samples, scale, k) == sum_in(samples, 0, k as int) - scale * (2 * ones_in(
            pdm_bits(samples, scale),
            0,
            k as int,
        ) - k),
    decreases k,
{
    if k > 0 {
        let bits = pdm_bits(samples, scale);
        let km = (k - 1) as nat;
        lemma_error_accounts(samples, scale, km);
        let o = ones_in(bits, 0, km as int);
        assert(bits[km as int] == pdm_bit(samples, scale, km as int));
        assert(ones_in(bits, 0, k as int) == o + if bits[km as int] {
            1int
        } else {
            0int
        });
        assert(sum_in(samples, 0, k as int) == sum_in(samples, 0, km as int) + samples[km as int]);
        assert(scale * (2 * (o + 1) - k) == scale * (2 * o - km) + scale) by (nonlinear_arith)
            requires
                k == km + 1,
        ;
        assert(scale * (2 * o - k) == scale * (2 * o - km) - scale) by (nonlinear_arith)
            requires
                k == km + 1,
        ;
        let e = pdm_error(samples, scale, km) + samples[km as int];
        if e > 0 {
            assert(pdm_error(samples, scale, k) == e - scale);
        } else {
            assert(pdm_error(samples, scale, k) == e + scale);
        }
    } else {
        assert(scale * (2 * ones_in(pdm_bits(samples, scale), 0, 0) - 0) == 0) by (nonlinear_arith)
            requires
                ones_in(pdm_bits(samples, scale), 0, 0) == 0,
        ;
    }
}

proof fn lemma_ones_split(bits: Seq<bool>, a: int, b: int)
    requires
        0 <= a <= b,
    ensures
        ones_in(bits, a, b) == ones_in(bits, 0, b) - ones_in(bits, 0, a),
    decreases b - a,
{
    if b > a {
        lemma_ones_split(bits, a, b - 1);
    }
}

proof fn lemma_sum_split(samples: Seq<i32>, a: int, b: int)
    requires
        0 <= a <= b,
    ensures
        sum_in(samples, a, b) == sum_in(samples, 0, b) - sum_in(samples, 0, a),
    decreases b - a,
{
    if b > a {
        lemma_sum_split(samples, a, b - 1);
    }
}

/// Noise shaping: over any window `a..b` of the stream, the number of 1-bits
/// tracks `(window length + sum of the samples / scale) / 2`, the window's
/// average of `(waveform + 1) / 2`, to within one full scale of the sum; over
/// a window that starts at the first bit, to within half of that.
pub proof fn lemma_pdm_density(samples: Seq<i32>, scale: int, a: int, b: int)
    requires
        scale > 0,
        samples_in_range(samples, scale),
        0 <= a <= b <= samples.len(),
    ensures
        -2 * scale <= scale * (2 * ones_in(pdm_bits(samples, scale), a, b) - (b - a)) - sum_in(
            samples,
            a,
            b,
        ) <= 2 * scale,
        a == 0 ==> -scale <= scale * (2 * ones_in(pdm_bits(samples, scale), a, b) - (b - a))
            - sum_in(samples, a, b) <= scale,
{
    let bits = pdm_bits(samples, scale);
    lemma_error_bounded(samples, scale, a as nat);
    lemma_error_bounded(samples, scale, b as nat);
    lemma_error_accounts(samples, scale, a as nat);
    lemma_error_accounts(samples, scale, b as nat);
    lemma_ones_split(bits, a, b);
    lemma_sum_split(samples, a, b);
    let oa = ones_in(bits, 0, a);
    let ob = ones_in(bits, 0, b);
    assert(scale * (2 * (ob - oa) - (b - a)) == scale * (2 * ob - b) - scale * (2 * oa - a))
        by (nonlinear_arith);
    assert(ones_in(bits, 0, 0) == 0);
    assert(sum_in(samples, 0, 0) == 0);
}

} // verus!
