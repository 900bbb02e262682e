//! Playback rates and content scales, kept as the bits of an IEEE 754 double.
use vstd::prelude::*;

verus! {

/// The bits of the double `1.0`.
pub const UNIT_BITS: u64 = 0x3ff0_0000_0000_0000;

/// The bits of positive infinity; every smaller non-zero pattern is a positive, finite double.
pub const INFINITY_BITS: u64 = 0x7ff0_0000_0000_0000;

/// The smallest double whose distance from `1.0` is not above `0.001`.
pub const NEAR_UNIT_LOW_BITS: u64 = 0x3fef_f7ce_d916_872c;

/// The largest double whose distance from `1.0` is not above `0.001`.
pub const NEAR_UNIT_HIGH_BITS: u64 = 0x3ff0_0418_9374_bc6a;

/// Whether `bits` encodes a double that is finite and above zero.
pub open spec fn positive_finite(bits: u64) -> bool {
    0 < bits < INFINITY_BITS
}

/// `bits` where it encodes a positive, finite double, and `1.0` otherwise.
pub open spec fn positive_or_unit(bits: u64) -> u64 {
    if positive_finite(bits) { bits } else { UNIT_BITS }
}

/// Whether `bits` encodes a double within `0.001` of `1.0`.
pub open spec fn near_unit(bits: u64) -> bool {
    NEAR_UNIT_LOW_BITS <= bits <= NEAR_UNIT_HIGH_BITS
}

/// Replaces a rate that is not a positive, finite number by one.
pub fn sanitize_playback_rate(bits: u64) -> (r: u64)
    ensures
        r == positive_or_unit(bits),
        positive_finite(r),
{
    if 0 < bits && bits < INFINITY_BITS {
        bits
    } else {
        UNIT_BITS
    }
}

/// Replaces a content scale that is not a positive, finite number by one.
pub fn normalize_surface_scale(bits: u64) -> (r: u64)
    ensures
        r == positive_or_unit(bits),
        positive_finite(r),
{
    sanitize_playback_rate(bits)
}

/// Whether a rate is so close to one that the audio output plays at media speed.
pub fn rate_is_near_unit(bits: u64) -> (r: bool)
    ensures
        r == near_unit(bits),
{
    NEAR_UNIT_LOW_BITS <= bits && bits <= NEAR_UNIT_HIGH_BITS
}

/// Sanitising is idempotent: a rate that was sanitised once is kept as it is.
pub proof fn law_sanitize_is_idempotent(bits: u64)
    ensures
        positive_or_unit(positive_or_unit(bits)) == positive_or_unit(bits),
{
}

/// A rate is kept exactly where it is a positive, finite number, and is one where it is not: zero, a
/// negative number, an infinite one or none at all.
pub proof fn law_only_sensible_rates_are_kept(bits: u64)
    ensures
        0 < bits < 0x7ff0_0000_0000_0000 ==> positive_or_unit(bits) == bits,
        bits == 0 || bits >= 0x7ff0_0000_0000_0000 ==> positive_or_unit(bits)
            == 0x3ff0_0000_0000_0000,
{
}

/// The rates at media speed lie close around one, and hold one itself.
pub proof fn law_media_speed_lies_around_one(a: u64, b: u64, c: u64)
    requires
        a <= b <= c,
        near_unit(a),
        near_unit(c),
    ensures
        near_unit(b),
        near_unit(0x3ff0_0000_0000_0000),
        !near_unit(0x3fe0_0000_0000_0000),
        !near_unit(0x3ff0_1000_0000_0000),
        !near_unit(0x3fef_f000_0000_0000),
        a > 0x3fef_f000_0000_0000 && c < 0x3ff0_1000_0000_0000,
{
}

} // verus!
