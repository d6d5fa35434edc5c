//! The clock divider of the bit-clock state machine, as a fixed-point number
//! with 24 integer and 8 fractional bits.
use vstd::prelude::*;
use crate::tones::{tone_table, tone_tenths, TONE_COUNT};

verus! {

/// The system clock that the bit-clock state machine divides.
pub const SYSTEM_CLOCK_HZ: u64 = 125_000_000;

/// System clock cycles that the state machine spends on one output bit.
pub const CYCLES_PER_BIT: u64 = 4;

/// Bits in one period of the modulated carrier.
pub const PDM_BITS: u64 = 16384;

/// One unit of the divider's integer part, in its raw representation.
pub const DIVIDER_ONE: u64 = 256;

/// The divider for a carrier of `f` tenths of a hertz is
/// `DIVIDER_NUMERATOR / (DIVIDER_DENOMINATOR * f)` in raw units: the system
/// clock, in tenths of a hertz and raw units, over the clock cycles of one
/// carrier period.
pub const DIVIDER_NUMERATOR: u64 = SYSTEM_CLOCK_HZ * 10 * DIVIDER_ONE;

/// See `DIVIDER_NUMERATOR`.
pub const DIVIDER_DENOMINATOR: u64 = CYCLES_PER_BIT * PDM_BITS;

/// A clock divider; `bits` holds its value times 256.
#[derive(Clone, Copy, Debug, PartialEq, Eq, Structural)]
pub struct ClockDivider {
    pub bits: u32,
}

/// The divider, in raw units, that plays a carrier of `tenths` tenths of a
/// hertz: the exact quotient, truncated to 8 fractional bits.
pub open spec fn divider_bits(tenths: int) -> int {
    DIVIDER_NUMERATOR as int / (DIVIDER_DENOMINATOR * tenths)
}

/// The clock divider for a carrier of `tenths` tenths of a hertz.
pub fn freq_to_divider(tenths: u32) -> (r: ClockDivider)
    requires
        tenths > 0,
    ensures
        r.bits == divider_bits(tenths as int),
{
    let den: u64 = DIVIDER_DENOMINATOR * tenths as u64;
    assert(den >= DIVIDER_DENOMINATOR) by (nonlinear_arith)
        requires
            den == DIVIDER_DENOMINATOR * tenths,
            tenths >= 1,
    ;
    let q: u64 = DIVIDER_NUMERATOR / den;
    assert(q <= DIVIDER_NUMERATOR / DIVIDER_DENOMINATOR) by {
        vstd::arithmetic::div_mod::lemma_div_is_ordered_by_denominator(
            DIVIDER_NUMERATOR as int,
            DIVIDER_DENOMINATOR as int,
            den as int,
        );
    }
    ClockDivider { bits: q as u32 }
}

/// The divider for tone `index` of the table.
pub fn tone_divider(index: usize) -> (r: ClockDivider)
    requires
        index < TONE_COUNT,
    ensures
        r.bits == divider_bits(tone_table()[index as int] as int),
{
    freq_to_divider(tone_tenths(index))
}

/// A higher frequency never gets a larger divider.
pub proof fn lemma_divider_antitone(f1: int, f2: int)
    requires
        0 < f1 <= f2,
    ensures
        divider_bits(f1) >= divider_bits(f2),
{
    assert(DIVIDER_DENOMINATOR * f1 <= DIVIDER_DENOMINATOR * f2) by (nonlinear_arith)
        requires
            0 < f1 <= f2,
    ;
    vstd::arithmetic::div_mod::lemma_div_is_ordered_by_denominator(
        DIVIDER_NUMERATOR as int,
        DIVIDER_DENOMINATOR * f1,
        DIVIDER_DENOMINATOR * f2,
    );
}

/// A higher frequency gets a strictly smaller divider whenever the two
/// exact quotients lie at least one raw unit apart, that is whenever
/// `DIVIDER_NUMERATOR * (f2 - f1) >= DIVIDER_DENOMINATOR * f1 * f2`.
pub proof fn lemma_divider_decreasing(f1: int, f2: int)
    requires
        0 < f1 < f2,
        DIVIDER_NUMERATOR * (f2 - f1) >= DIVIDER_DENOMINATOR * f1 * f2,
    ensures
        divider_bits(f1) > divider_bits(f2),
{
    let n = DIVIDER_NUMERATOR as int;
    let d = DIVIDER_DENOMINATOR as int;
    let q2 = divider_bits(f2);
    assert(d * f2 > 0) by (nonlinear_arith)
        requires
            d > 0,
            f2 > 0,
    ;
    vstd::arithmetic::div_mod::lemma_fundamental_div_mod(n, d * f2);
    assert(q2 * (d * f2) <= n) by {
        vstd::arithmetic::div_mod::lemma_mod_bound(n, d * f2);
    }
    assert((q2 + 1) * (d * f1) <= n) by (nonlinear_arith)
        requires
            q2 * (d * f2) <= n,
            n * (f2 - f1) >= d * f1 * f2,
            0 < f1 < f2,
            d > 0,
    ;
    assert(d * f1 > 0) by (nonlinear_arith)
        requires
            d > 0,
            f1 > 0,
    ;
    vstd::arithmetic::div_mod::lemma_fundamental_div_mod(n, d * f1);
    vstd::arithmetic::div_mod::lemma_mod_bound(n, d * f1);
    assert(divider_bits(f1) >= q2 + 1) by (nonlinear_arith)
        requires
            (q2 + 1) * (d * f1) <= n,
            n == (d * f1) * divider_bits(f1) + n % (d * f1),
            0 <= n % (d * f1) < d * f1,
            d * f1 > 0,
    ;
}

/// Consecutive tones of the table lie at least 1.4 Hz apart, and all lie
/// between 67.0 Hz and 254.1 Hz.
proof fn lemma_table_spacing()
    ensures
        forall|k: int| 0 <= k < TONE_COUNT - 1 ==> tone_table()[k] + 14 <= #[trigger] tone_table()[k + 1],
        forall|k: int| 0 <= k < TONE_COUNT ==> 670 <= #[trigger] tone_table()[k] <= 2541,
{
}

/// Over the tone table the divider strictly decreases: a later, higher tone
/// always gets a smaller divider.
pub proof fn lemma_tone_dividers_decrease(i: int, j: int)
    requires
        0 <= i < j < TONE_COUNT,
    ensures
        divider_bits(tone_table()[i] as int) > divider_bits(tone_table()[j] as int),
{
    lemma_table_spacing();
    lemma_table_gap(i, j);
    let f1 = tone_table()[i] as int;
    let f2 = tone_table()[j] as int;
    assert(DIVIDER_NUMERATOR * (f2 - f1) >= DIVIDER_DENOMINATOR * f1 * f2) by (nonlinear_arith)
        requires
            670 <= f1 <= 2541,
            670 <= f2 <= 2541,
            f2 - f1 >= 14,
    ;
    lemma_divider_decreasing(f1, f2);
}

proof fn lemma_table_gap(i: int, j: int)
    requires
        0 <= i < j < TONE_COUNT,
        forall|k: int| 0 <= k < TONE_COUNT - 1 ==> tone_table()[k] + 14 <= #[trigger] tone_table()[k + 1],
    ensures
        tone_table()[i] + 14 <= tone_table()[j],
    decreases j - i,
{
    if j > i + 1 {
        lemma_table_gap(i, j - 1);
        assert(tone_table()[j - 1] + 14 <= tone_table()[(j - 1) + 1]);
    }
}

} // verus!
