//! Conversion from MIDI Control Change values to volume levels.
//!
//! Levels are carried in tenths of a volume unit on the operating system's
//! 0–10 scale, so that the one-decimal resolution of the bridge is exact
//! integer arithmetic.

use vstd::prelude::*;

verus! {

/// Highest level the bridge ever requests, in tenths of a volume unit:
/// 7.0 on the 0–10 scale the operating system exposes.
pub const MAX_LEVEL_TENTHS: u32 = 70;

/// Largest value a Control Change data byte can carry.
pub const MAX_CC_VALUE: u8 = 127;

/// Level requested for a controller value `v`, in tenths: `v / 127` of the
/// full level, rounded to the nearest tenth. Over the integers this is
/// `round(v * 70 / 127)`, which for `v >= 0` equals `(v * 140 + 127) / 254`.
pub open spec fn convert_spec(v: int) -> int {
    (v * 140 + 127) / 254
}

/// Converts a controller value to the volume level it requests.
pub fn convert(v: u8) -> (tenths: u32)
    requires
        v <= MAX_CC_VALUE,
    ensures
        tenths == convert_spec(v as int),
        tenths <= MAX_LEVEL_TENTHS,
{
    let scaled: u32 = (v as u32) * 140 + 127;
    let tenths: u32 = scaled / 254;
    proof {
        vstd::arithmetic::div_mod::lemma_div_is_ordered(scaled as int, 17907, 254);
        assert(17907int / 254int == 70int);
    }
    tenths
}

/// Law: the conversion is monotone — a larger controller value never yields
/// a smaller level.
pub proof fn lemma_convert_monotonic(v1: int, v2: int)
    requires
        0 <= v1 <= v2 <= 127,
    ensures
        convert_spec(v1) <= convert_spec(v2),
{
    vstd::arithmetic::div_mod::lemma_div_is_ordered(v1 * 140 + 127, v2 * 140 + 127, 254);
}

/// Law: silence maps to silence and a full deflection maps to the full level.
pub proof fn lemma_convert_endpoints()
    ensures
        convert_spec(0) == 0,
        convert_spec(127) == MAX_LEVEL_TENTHS,
{
    assert((0int * 140 + 127) / 254 == 0);
    assert((127int * 140 + 127) / 254 == 70);
}

/// Law: the rounding is exact round-to-nearest — the chosen number of
/// tenths differs from the ideal value `v * 70 / 127` by at most half a
/// tenth, stated here multiplied through by `2 * 127`.
pub proof fn lemma_convert_nearest(v: int)
    requires
        0 <= v <= 127,
    ensures
        -127 < 2 * (127 * convert_spec(v) - 70 * v) <= 127,
{
    let x = v * 140 + 127;
    vstd::arithmetic::div_mod::lemma_fundamental_div_mod(x, 254);
    vstd::arithmetic::div_mod::lemma_mod_bound(x, 254);
    assert(2 * (127 * (x / 254)) == 254 * (x / 254)) by (nonlinear_arith);
}

/// Law: every controller value maps into `0 ..= MAX_LEVEL_TENTHS`.
pub proof fn lemma_convert_range(v: int)
    requires
        0 <= v <= 127,
    ensures
        0 <= convert_spec(v) <= MAX_LEVEL_TENTHS,
{
    lemma_convert_monotonic(0, v);
    lemma_convert_monotonic(v, 127);
    lemma_convert_endpoints();
}

} // verus!
