//! The table of selectable tones and the wrap-around arithmetic of the dial
//! that walks over it.
use vstd::prelude::*;

verus! {

/// Number of entries in the tone table.
pub const TONE_COUNT: usize = 51;

/// The CTCSS tones in tenths of a hertz, ascending.
pub open spec fn tone_table() -> Seq<u32> {
    seq![
        670, 693, 719, 744, 770, 797, 825, 854, 885, 915, 948, 974, 1000, 1035, 1072,
        1109, 1148, 1188, 1230, 1273, 1318, 1365, 1413, 1462, 1500, 1514, 1567, 1598,
        1622, 1655, 1679, 1713, 1738, 1773, 1799, 1835, 1862, 1899, 1928, 1966, 1995,
        2035, 2065, 2107, 2181, 2257, 2291, 2336, 2418, 2503, 2541,
    ]
}

/// The frequency of tone `index`, in tenths of a hertz.
pub fn tone_tenths(index: usize) -> (r: u32)
    requires
        index < TONE_COUNT,
    ensures
        r == tone_table()[index as int],
{
    let table: [u32; 51] = [
        670, 693, 719, 744, 770, 797, 825, 854, 885, 915, 948, 974, 1000, 1035, 1072,
        1109, 1148, 1188, 1230, 1273, 1318, 1365, 1413, 1462, 1500, 1514, 1567, 1598,
        1622, 1655, 1679, 1713, 1738, 1773, 1799, 1835, 1862, 1899, 1928, 1966, 1995,
        2035, 2065, 2107, 2181, 2257, 2291, 2336, 2418, 2503, 2541,
    ];
    assert(table@ =~= tone_table());
    table[index]
}

/// The number of indices that the dial walks over: the whole table, or the
/// whole table but its last entry when that entry is reserved.
pub open spec fn span_of(reserve_last: bool) -> int {
    if reserve_last {
        TONE_COUNT - 1
    } else {
        TONE_COUNT as int
    }
}

/// One step up: the next index, wrapping from the last selectable index to 0.
pub open spec fn up_index(index: int, span: int) -> int {
    (index + 1) % span
}

/// One step down: the previous index, wrapping from 0 to the last selectable
/// index.
pub open spec fn down_index(index: int, span: int) -> int {
    if index == 0 {
        span - 1
    } else {
        index - 1
    }
}

/// The index after `n` steps up from `index`.
pub open spec fn up_steps(index: int, n: nat, span: int) -> int
    decreases n,
{
    if n == 0 {
        index
    } else {
        up_index(up_steps(index, (n - 1) as nat, span), span)
    }
}

/// The dial over the tone table; whether the last entry is reserved is the
/// configuration.
#[derive(Clone, Copy, Debug, PartialEq, Eq, Structural)]
pub struct ToneDial {
    pub reserve_last: bool,
}

impl ToneDial {
    pub fn new(reserve_last: bool) -> (r: ToneDial)
        ensures
            r.reserve_last == reserve_last,
    {
        ToneDial { reserve_last }
    }

    /// The number of selectable indices.
    pub fn span(&self) -> (r: usize)
        ensures
            r == span_of(self.reserve_last),
            0 < r <= TONE_COUNT,
    {
        if self.reserve_last {
            TONE_COUNT - 1
        } else {
            TONE_COUNT
        }
    }

    /// The index one step up from `index`.
    pub fn up(&self, index: usize) -> (r: usize)
        requires
            index < TONE_COUNT,
        ensures
            r == up_index(index as int, span_of(self.reserve_last)),
            r < span_of(self.reserve_last),
    {
        (index + 1) % self.span()
    }

    /// The index one step down from `index`.
    pub fn down(&self, index: usize) -> (r: usize)
        requires
            index < TONE_COUNT,
        ensures
            r == down_index(index as int, span_of(self.reserve_last)),
            r < TONE_COUNT,
    {
        if index == 0 {
            self.span() - 1
        } else {
            index - 1
        }
    }
}

/// A step down undoes a step up, and a step up undoes a step down, on every
/// selectable index.
pub proof fn lemma_up_down_inverse(index: int, reserve_last: bool)
    requires
        0 <= index < span_of(reserve_last),
    ensures
        down_index(up_index(index, span_of(reserve_last)), span_of(reserve_last)) == index,
        up_index(down_index(index, span_of(reserve_last)), span_of(reserve_last)) == index,
{
}

/// Stepping up from the last selectable index wraps to 0, and stepping down
/// from 0 wraps to the last selectable index.
pub proof fn lemma_dial_wraps(reserve_last: bool)
    ensures
        up_index(span_of(reserve_last) - 1, span_of(reserve_last)) == 0,
        down_index(0, span_of(reserve_last)) == span_of(reserve_last) - 1,
{
    vstd::arithmetic::div_mod::lemma_mod_self_0(span_of(reserve_last));
}

/// `n` steps up from a selectable index land on `(index + n) % span`.
pub proof fn lemma_up_steps(index: int, n: nat, reserve_last: bool)
    requires
        0 <= index < span_of(reserve_last),
    ensures
        up_steps(index, n, span_of(reserve_last)) == (index + n) % span_of(reserve_last),
    decreases n,
{
    let span = span_of(reserve_last);
    if n > 0 {
        lemma_up_steps(index, (n - 1) as nat, reserve_last);
        vstd::arithmetic::div_mod::lemma_add_mod_noop(index + n - 1, 1, span);
        vstd::arithmetic::div_mod::lemma_small_mod(1, span as nat);
    }
}

/// A full turn of `span` steps up comes back to the index it started from.
pub proof fn lemma_up_full_turn(index: int, reserve_last: bool)
    requires
        0 <= index < span_of(reserve_last),
    ensures
        up_steps(index, span_of(reserve_last) as nat, span_of(reserve_last)) == index,
{
    let span = span_of(reserve_last);
    lemma_up_steps(index, span as nat, reserve_last);
    vstd::arithmetic::div_mod::lemma_mod_add_multiples_vanish(index, span);
    vstd::arithmetic::div_mod::lemma_small_mod(index as nat, span as nat);
}

} // verus!
