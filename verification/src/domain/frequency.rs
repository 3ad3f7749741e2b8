//! Frequencies and the sideband convention.
//!
//! A frequency travels through the program as an IEEE-754 double. The library keeps
//! the 64-bit pattern of that double and reasons about the number that the pattern
//! denotes, so that no rounding stands between a rule and the value it is applied to.

use vstd::arithmetic::div_mod::lemma_div_multiples_vanish_quotient;
use vstd::arithmetic::power2::{
    lemma2_to64, lemma2_to64_rest, lemma_pow2_adds, lemma_pow2_pos, lemma_pow2_strictly_increases,
    pow2,
};
use vstd::prelude::*;

verus! {

/// Weight of the sign bit of a double.
pub const SIGN_BIT: u64 = 0x8000_0000_0000_0000;

/// Pattern of positive infinity: the magnitudes above it are not numbers.
pub const INFINITY_BITS: u64 = 0x7ff0_0000_0000_0000;

/// Weight of the lowest exponent bit, and of the leading bit that the format leaves out.
pub const HIDDEN_BIT: u64 = 0x0010_0000_0000_0000;

/// Pattern of 5 332 000 Hz, the lower edge of the 60 m band.
pub const SIXTY_METERS_LOW_BITS: u64 = 0x4154_5708_0000_0000;

/// Pattern of 5 405 000 Hz, the upper edge of the 60 m band.
pub const SIXTY_METERS_HIGH_BITS: u64 = 0x4154_9e52_0000_0000;

/// Pattern of 10 MHz, where the convention changes from lower to upper sideband.
pub const TEN_MEGAHERTZ_BITS: u64 = 0x4163_12d0_0000_0000;

/// A frequency in hertz, held as the bit pattern of a double.
#[derive(Clone, Copy, PartialEq, Eq, Structural, Debug)]
pub struct Frequency {
    pub bits: u64,
}

/// The number of hertz that a pattern of a finite, non-negative double denotes, counted
/// in units of 2^-1074 Hz. That unit is the smallest positive double, so the count is a
/// whole number.
pub open spec fn scaled(magnitude: nat) -> nat {
    let exponent = magnitude / (HIDDEN_BIT as nat);
    let fraction = magnitude % (HIDDEN_BIT as nat);
    if exponent == 0 {
        fraction
    } else {
        (HIDDEN_BIT as nat + fraction) * pow2((exponent - 1) as nat)
    }
}

/// One hertz in the units of [`scaled`].
pub open spec fn one_hertz() -> nat {
    pow2(1074)
}

impl Frequency {
    /// The pattern without its sign bit.
    pub open spec fn magnitude(self) -> nat {
        if self.bits >= SIGN_BIT {
            (self.bits - SIGN_BIT) as nat
        } else {
            self.bits as nat
        }
    }

    pub open spec fn is_negative(self) -> bool {
        self.bits >= SIGN_BIT
    }

    pub open spec fn is_nan(self) -> bool {
        self.magnitude() > INFINITY_BITS
    }

    pub open spec fn is_infinite(self) -> bool {
        self.magnitude() == INFINITY_BITS
    }

    /// The double is exactly `hz` hertz.
    pub open spec fn denotes(self, hz: nat) -> bool {
        &&& !self.is_negative()
        &&& self.magnitude() < INFINITY_BITS
        &&& scaled(self.magnitude()) == hz * one_hertz()
    }

    /// `self >= hz` as doubles compare, for a positive `hz`.
    pub open spec fn at_least(self, hz: nat) -> bool {
        &&& !self.is_nan()
        &&& !self.is_negative()
        &&& self.is_infinite() || scaled(self.magnitude()) >= hz * one_hertz()
    }

    /// `self <= hz` as doubles compare, for a positive `hz`.
    pub open spec fn at_most(self, hz: nat) -> bool {
        &&& !self.is_nan()
        &&& self.is_negative() || (!self.is_infinite() && scaled(self.magnitude()) <= hz
            * one_hertz())
    }

    /// `self < hz` as doubles compare, for a positive `hz`.
    pub open spec fn below(self, hz: nat) -> bool {
        &&& !self.is_nan()
        &&& self.is_negative() || (!self.is_infinite() && scaled(self.magnitude()) < hz
            * one_hertz())
    }

    /// Whole hertz as a saturating cast to an unsigned 64-bit integer gives them: the
    /// fraction is cut off, what lies outside the integer's range goes to its nearest
    /// end, and what is not a number goes to zero.
    pub open spec fn whole_hertz(self) -> nat {
        if self.is_nan() || self.is_negative() {
            0
        } else if self.is_infinite() || scaled(self.magnitude()) / one_hertz() > u64::MAX {
            u64::MAX as nat
        } else {
            scaled(self.magnitude()) / one_hertz()
        }
    }

    pub fn from_bits(bits: u64) -> (r: Frequency)
        ensures
            r.bits == bits,
    {
        Frequency { bits }
    }

    pub fn to_bits(self) -> (r: u64)
        ensures
            r == self.bits,
    {
        self.bits
    }

    /// Whole hertz, saturating at both ends of the integer's range.
    pub fn as_whole_hertz(self) -> (r: u64)
        ensures
            r == self.whole_hertz(),
    {
        if self.bits >= SIGN_BIT || self.bits > INFINITY_BITS {
            return 0;
        }
        if self.bits == INFINITY_BITS {
            return u64::MAX;
        }
        let exponent: u64 = self.bits / HIDDEN_BIT;
        let fraction: u64 = self.bits % HIDDEN_BIT;
        let significand: u64 = HIDDEN_BIT + fraction;
        if exponent < 1023 {
            proof {
                lemma_below_one_hertz(self.bits as nat);
            }
            0
        } else if exponent < 1075 {
            let shift: u64 = 1075 - exponent;
            proof {
                lemma_fractional_hertz(self.bits as nat);
                vstd::bits::lemma_u64_shr_is_div(significand, shift);
                assert(significand as nat / pow2(shift as nat) <= significand as nat) by {
                    lemma_pow2_pos(shift as nat);
                    vstd::arithmetic::div_mod::lemma_div_is_ordered_by_denominator(
                        significand as int,
                        1,
                        pow2(shift as nat) as int,
                    );
                }
            }
            significand >> shift
        } else if exponent < 1087 {
            let shift: u64 = exponent - 1075;
            proof {
                lemma_integral_hertz(self.bits as nat);
                lemma_small_shift_fits(significand as nat, shift as nat);
                vstd::bits::lemma_u64_shl_is_mul(significand, shift);
            }
            significand << shift
        } else {
            proof {
                lemma_huge_hertz(self.bits as nat);
            }
            u64::MAX
        }
    }
}

/// The mode string of the sideband convention for PSK-31.
///
/// - Below 10 MHz (160 m, 80 m, 40 m): lower sideband, DATA-LSB.
/// - From 10 MHz up (30 m to 10 m): upper sideband, DATA-USB.
/// - 60 m, 5.332 to 5.405 MHz: upper sideband, as FCC Part 97.307(f)(11) demands.
pub open spec fn data_mode(frequency: Frequency) -> Seq<char> {
    if frequency.at_least(5_332_000) && frequency.at_most(5_405_000) {
        "DATA-USB"@
    } else if frequency.below(10_000_000) {
        "DATA-LSB"@
    } else {
        "DATA-USB"@
    }
}

/// Determine the correct PSK-31 DATA mode for a given radio frequency.
pub fn data_mode_for_frequency(frequency: Frequency) -> (mode: &'static str)
    ensures
        mode@ == data_mode(frequency),
{
    proof {
        lemma_band_edges();
        let m = frequency.magnitude();
        lemma_scaled_order(m, SIXTY_METERS_LOW_BITS as nat);
        lemma_scaled_order(m, SIXTY_METERS_HIGH_BITS as nat);
        lemma_scaled_order(m, TEN_MEGAHERTZ_BITS as nat);
    }
    let bits: u64 = frequency.bits;
    if SIXTY_METERS_LOW_BITS <= bits && bits <= SIXTY_METERS_HIGH_BITS {
        return "DATA-USB";
    }
    let negative_number: bool = bits >= SIGN_BIT && bits - SIGN_BIT <= INFINITY_BITS;
    if negative_number || bits < TEN_MEGAHERTZ_BITS {
        "DATA-LSB"
    } else {
        "DATA-USB"
    }
}

/// Every number below the 60 m band, and every one from above it up to 10 MHz, takes the
/// lower sideband; every other number takes the upper one.
pub proof fn sideband_convention(frequency: Frequency)
    requires
        !frequency.is_nan(),
    ensures
        data_mode(frequency) == "DATA-LSB"@ <==> frequency.below(10_000_000) && !(
        frequency.at_least(5_332_000) && frequency.at_most(5_405_000)),
        data_mode(frequency) == "DATA-USB"@ <==> frequency.at_least(10_000_000) || (
        frequency.at_least(5_332_000) && frequency.at_most(5_405_000)),
{
    reveal_strlit("DATA-LSB");
    reveal_strlit("DATA-USB");
    assert("DATA-LSB"@[5] != "DATA-USB"@[5]);
}

/// The convention for a frequency of whole hertz, and such a frequency as an integer.
pub proof fn sideband_of_whole_hertz(frequency: Frequency, hz: nat)
    requires
        frequency.denotes(hz),
    ensures
        data_mode(frequency) == if 5_332_000 <= hz <= 5_405_000 || hz >= 10_000_000 {
            "DATA-USB"@
        } else {
            "DATA-LSB"@
        },
        hz <= u64::MAX ==> frequency.whole_hertz() == hz,
{
    let unit = one_hertz();
    lemma_pow2_pos(1074);
    vstd::arithmetic::div_mod::lemma_div_by_multiple(hz as int, unit as int);
    assert forall|edge: nat| #[trigger] frequency.at_least(edge) == (hz >= edge)
        && frequency.at_most(edge) == (hz <= edge) && frequency.below(edge) == (hz < edge) by {
        assert(hz >= edge <==> hz * unit >= edge * unit) by (nonlinear_arith)
            requires
                unit > 0,
        ;
        assert(hz <= edge <==> hz * unit <= edge * unit) by (nonlinear_arith)
            requires
                unit > 0,
        ;
    }
    assert(frequency.at_least(5_332_000) == (hz >= 5_332_000));
    assert(frequency.at_least(5_405_000) == (hz >= 5_405_000));
    assert(frequency.at_least(10_000_000) == (hz >= 10_000_000));
}

proof fn lemma_exponent_bound(magnitude: nat)
    ensures
        scaled(magnitude) < (HIDDEN_BIT as nat) * pow2(magnitude / (HIDDEN_BIT as nat)),
        magnitude / (HIDDEN_BIT as nat) > 0 ==> scaled(magnitude) >= (HIDDEN_BIT as nat) * pow2(
            (magnitude / (HIDDEN_BIT as nat) - 1) as nat,
        ),
{
    let exponent = magnitude / (HIDDEN_BIT as nat);
    let fraction = magnitude % (HIDDEN_BIT as nat);
    if exponent == 0 {
        lemma2_to64();
    } else {
        let lower = pow2((exponent - 1) as nat);
        lemma_pow2_pos((exponent - 1) as nat);
        lemma_pow2_adds((exponent - 1) as nat, 1);
        lemma2_to64();
        let h = HIDDEN_BIT as nat;
        assert((h + fraction) * lower < h * (lower * 2)) by (nonlinear_arith)
            requires
                fraction < h,
                lower > 0,
        ;
        assert((h + fraction) * lower >= h * lower) by (nonlinear_arith)
            requires
                lower > 0,
        ;
    }
}

/// Patterns of non-negative doubles are ordered as the numbers that they denote.
proof fn lemma_scaled_increases(a: nat, b: nat)
    requires
        a < b,
    ensures
        scaled(a) < scaled(b),
{
    let h = HIDDEN_BIT as nat;
    let ea = a / h;
    let eb = b / h;
    if ea == eb {
        if ea > 0 {
            let p = pow2((ea - 1) as nat);
            lemma_pow2_pos((ea - 1) as nat);
            let fa = a % h;
            let fb = b % h;
            assert((h + fa) * p < (h + fb) * p) by (nonlinear_arith)
                requires
                    fa < fb,
                    p > 0,
            ;
        }
    } else {
        assert(ea < eb);
        lemma_exponent_bound(a);
        lemma_exponent_bound(b);
        if ea < eb - 1 {
            lemma_pow2_strictly_increases(ea, (eb - 1) as nat);
        }
        assert(h * pow2(ea) <= h * pow2((eb - 1) as nat)) by (nonlinear_arith)
            requires
                pow2(ea) <= pow2((eb - 1) as nat),
        ;
    }
}

proof fn lemma_scaled_order(a: nat, b: nat)
    ensures
        a < b <==> scaled(a) < scaled(b),
        a == b <==> scaled(a) == scaled(b),
{
    if a < b {
        lemma_scaled_increases(a, b);
    } else if b < a {
        lemma_scaled_increases(b, a);
    }
}

proof fn lemma_band_edges()
    ensures
        scaled(SIXTY_METERS_LOW_BITS as nat) == 5_332_000 * one_hertz(),
        scaled(SIXTY_METERS_HIGH_BITS as nat) == 5_405_000 * one_hertz(),
        scaled(TEN_MEGAHERTZ_BITS as nat) == 10_000_000 * one_hertz(),
{
    lemma2_to64();
    lemma_whole(SIXTY_METERS_LOW_BITS as nat, 1045, 5_332_000);
    lemma_whole(SIXTY_METERS_HIGH_BITS as nat, 1045, 5_405_000);
    lemma_whole(TEN_MEGAHERTZ_BITS as nat, 1046, 10_000_000);
}

/// A pattern whose significand is `hz` shifted up denotes `hz` hertz.
pub proof fn lemma_whole(magnitude: nat, exponent: nat, hz: nat)
    requires
        0 < exponent <= 1075,
        magnitude / (HIDDEN_BIT as nat) == exponent,
        HIDDEN_BIT as nat + magnitude % (HIDDEN_BIT as nat) == hz * pow2((1075 - exponent) as nat),
    ensures
        scaled(magnitude) == hz * one_hertz(),
{
    let p = pow2((exponent - 1) as nat);
    let q = pow2((1075 - exponent) as nat);
    lemma_pow2_adds((exponent - 1) as nat, (1075 - exponent) as nat);
    assert((hz * q) * p == hz * (p * q)) by (nonlinear_arith);
}

/// The numbers that patterns denote, one after the other.
pub proof fn lemma_scaled_by_patterns(magnitude: nat)
    ensures
        magnitude < 0x0020_0000_0000_0000 ==> scaled(magnitude) == magnitude,
        magnitude >= 0x0010_0000_0000_0000 ==> scaled(magnitude + 0x0010_0000_0000_0000) == 2
            * scaled(magnitude),
        scaled(0x3ff0_0000_0000_0000) == one_hertz(),
{
    lemma2_to64();
    lemma2_to64_rest();
    let h = HIDDEN_BIT as nat;
    if magnitude >= h {
        let e = magnitude / h;
        let f = magnitude % h;
        assert((magnitude + h) / h == e + 1 && (magnitude + h) % h == f) by {
            vstd::arithmetic::div_mod::lemma_div_plus_one(magnitude as int, h as int);
            vstd::arithmetic::div_mod::lemma_mod_add_multiples_vanish(magnitude as int, h as int);
        }
        lemma_pow2_adds((e - 1) as nat, 1);
        let p = pow2((e - 1) as nat);
        assert((h + f) * (p * 2) == 2 * ((h + f) * p)) by (nonlinear_arith);
        if magnitude < 2 * h {
            assert((h + f) * p == h + f) by (nonlinear_arith)
                requires
                    p == 1,
            ;
        }
    }
    lemma_whole(0x3ff0_0000_0000_0000, 1023, 1);
}

proof fn lemma_below_one_hertz(magnitude: nat)
    requires
        magnitude / (HIDDEN_BIT as nat) < 1023,
    ensures
        scaled(magnitude) / one_hertz() == 0,
{
    let h = HIDDEN_BIT as nat;
    let e = magnitude / h;
    lemma_exponent_bound(magnitude);
    if e < 1022 {
        lemma_pow2_strictly_increases(e, 1022);
    }
    lemma2_to64_rest();
    lemma_pow2_adds(52, 1022);
    assert(h * pow2(e) <= h * pow2(1022)) by (nonlinear_arith)
        requires
            pow2(e) <= pow2(1022),
    ;
    assert(scaled(magnitude) < one_hertz());
    vstd::arithmetic::div_mod::lemma_basic_div(scaled(magnitude) as int, one_hertz() as int);
}

proof fn lemma_fractional_hertz(magnitude: nat)
    requires
        1023 <= magnitude / (HIDDEN_BIT as nat) < 1075,
    ensures
        scaled(magnitude) / one_hertz() == (HIDDEN_BIT as nat + magnitude % (HIDDEN_BIT as nat))
            / pow2((1075 - magnitude / (HIDDEN_BIT as nat)) as nat),
{
    let h = HIDDEN_BIT as nat;
    let e = magnitude / h;
    let p = pow2((e - 1) as nat);
    let q = pow2((1075 - e) as nat);
    let s = h + magnitude % h;
    lemma_pow2_pos((e - 1) as nat);
    lemma_pow2_pos((1075 - e) as nat);
    lemma_pow2_adds((e - 1) as nat, (1075 - e) as nat);
    assert(s * p == p * s) by (nonlinear_arith);
    lemma_div_multiples_vanish_quotient(p as int, s as int, q as int);
}

proof fn lemma_integral_hertz(magnitude: nat)
    requires
        magnitude / (HIDDEN_BIT as nat) >= 1075,
    ensures
        scaled(magnitude) / one_hertz() == (HIDDEN_BIT as nat + magnitude % (HIDDEN_BIT as nat))
            * pow2((magnitude / (HIDDEN_BIT as nat) - 1075) as nat),
{
    let h = HIDDEN_BIT as nat;
    let e = magnitude / h;
    let s = h + magnitude % h;
    let k = pow2((e - 1075) as nat);
    lemma_pow2_pos(1074);
    lemma_pow2_adds((e - 1075) as nat, 1074);
    assert(s * (k * one_hertz()) == (s * k) * one_hertz()) by (nonlinear_arith);
    vstd::arithmetic::div_mod::lemma_div_by_multiple((s * k) as int, one_hertz() as int);
}

proof fn lemma_small_shift_fits(significand: nat, shift: nat)
    requires
        significand < 2 * HIDDEN_BIT,
        shift < 12,
    ensures
        significand * pow2(shift) <= u64::MAX,
{
    lemma2_to64();
    if shift < 11 {
        lemma_pow2_strictly_increases(shift, 11);
    }
    let p = pow2(shift);
    let h = HIDDEN_BIT as nat;
    assert(significand * p <= (2 * h - 1) * 2048) by (nonlinear_arith)
        requires
            significand <= 2 * h - 1,
            p <= 2048,
    ;
}

proof fn lemma_huge_hertz(magnitude: nat)
    requires
        magnitude / (HIDDEN_BIT as nat) >= 1087,
    ensures
        scaled(magnitude) / one_hertz() > u64::MAX,
{
    lemma_integral_hertz(magnitude);
    let h = HIDDEN_BIT as nat;
    let e = magnitude / h;
    lemma2_to64();
    if e > 1087 {
        lemma_pow2_strictly_increases(12, (e - 1075) as nat);
    }
    let p = pow2((e - 1075) as nat);
    let s = h + magnitude % h;
    assert(s * p >= h * 4096) by (nonlinear_arith)
        requires
            s >= h,
            p >= 4096,
    ;
}

} // verus!
