//! Frequencies and the sideband convention.

use crate::commands::tx::mode_correction;
use crate::domain::frequency::{
    data_mode, data_mode_for_frequency, lemma_scaled_by_patterns, one_hertz, scaled, Frequency,
};
use vstd::arithmetic::power2::lemma_pow2_pos;
use vstd::prelude::*;

verus! {

/// What number a pattern denotes, in units of the smallest double. The patterns below the
/// second power of two count the units one by one; from the first power of two on, raising
/// the exponent by one doubles the number. The pattern of 1.0 denotes one hertz. There is
/// only one way to number the patterns so.
pub proof fn patterns_denote_numbers(magnitude: nat)
    ensures
        magnitude < 0x0020_0000_0000_0000 ==> scaled(magnitude) == magnitude,
        magnitude >= 0x0010_0000_0000_0000 ==> scaled(magnitude + 0x0010_0000_0000_0000) == 2
            * scaled(magnitude),
        scaled(0x3ff0_0000_0000_0000) == one_hertz(),
{
    lemma_scaled_by_patterns(magnitude);
}

/// A frequency of at least 0 that is a number and finite.
pub open spec fn ordinary(frequency: Frequency) -> bool {
    frequency.bits < 0x7ff0_0000_0000_0000
}

/// Lies from `low` to `high` hertz.
pub open spec fn within(frequency: Frequency, low: nat, high: nat) -> bool {
    low * one_hertz() <= scaled(frequency.bits as nat) <= high * one_hertz()
}

/// Lies below `hz` hertz.
pub open spec fn under(frequency: Frequency, hz: nat) -> bool {
    scaled(frequency.bits as nat) < hz * one_hertz()
}

/// The mode that the convention asks for at this frequency.
pub open spec fn conventional_mode(frequency: Frequency) -> Seq<char> {
    if ordinary(frequency) {
        if under(frequency, 10_000_000) && !within(frequency, 5_332_000, 5_405_000) {
            "DATA-LSB"@
        } else {
            "DATA-USB"@
        }
    } else if 0x8000_0000_0000_0000 <= frequency.bits <= 0xfff0_0000_0000_0000 {
        // Zero with a sign, a negative number, or the negative infinity.
        "DATA-LSB"@
    } else {
        // The positive infinity, or no number.
        "DATA-USB"@
    }
}

/// The mode of a frequency is the one of the convention: lower sideband below 10 MHz except
/// from 5.332 to 5.405 MHz, upper sideband otherwise, whatever fraction of a hertz the
/// frequency has.
pub proof fn modes_follow_the_convention(frequency: Frequency, mode: &'static str)
    requires
        call_ensures(data_mode_for_frequency, (frequency,), mode),
    ensures
        mode@ == conventional_mode(frequency),
{
    lemma_conventional(frequency);
}

pub(crate) proof fn lemma_conventional(frequency: Frequency)
    ensures
        data_mode(frequency) == conventional_mode(frequency),
{
}

/// A radio is corrected if and only if it is not in the mode of its frequency, and then to
/// that mode.
pub proof fn corrections_lead_to_the_convention(
    frequency: Frequency,
    current: &str,
    target: Option<&'static str>,
)
    requires
        call_ensures(mode_correction, (frequency, current), target),
    ensures
        target is None <==> current@ == conventional_mode(frequency),
        target is Some ==> target->0@ == conventional_mode(frequency),
{
    lemma_conventional(frequency);
}

/// Whole hertz are the hertz of a frequency with the fraction cut off. What is too large for
/// the integer goes to its end, what is negative or no number goes to zero.
pub proof fn whole_hertz_cut_off_the_fraction(frequency: Frequency, whole: u64)
    requires
        call_ensures(Frequency::as_whole_hertz, (frequency,), whole),
    ensures
        ordinary(frequency) && under(frequency, 0x1_0000_0000_0000_0000) ==> whole * one_hertz()
            <= scaled(frequency.bits as nat) < (whole + 1) * one_hertz(),
        ordinary(frequency) && !under(frequency, 0x1_0000_0000_0000_0000) ==> whole == u64::MAX,
        frequency.bits == 0x7ff0_0000_0000_0000 ==> whole == u64::MAX,
        frequency.bits > 0x7ff0_0000_0000_0000 ==> whole == 0,
{
    if ordinary(frequency) {
        let value = scaled(frequency.bits as nat);
        let unit = one_hertz();
        lemma_pow2_pos(1074);
        let quotient = value / unit;
        vstd::arithmetic::div_mod::lemma_fundamental_div_mod(value as int, unit as int);
        vstd::arithmetic::div_mod::lemma_mod_bound(value as int, unit as int);
        let rest = value % unit;
        assert(value == unit * quotient + rest);
        assert(quotient * unit <= value < (quotient + 1) * unit) by (nonlinear_arith)
            requires
                value == unit * quotient + rest,
                0 <= rest < unit,
        ;
        let end: nat = 0x1_0000_0000_0000_0000;
        if quotient >= end {
            assert(quotient * unit >= end * unit) by (nonlinear_arith)
                requires
                    quotient >= end,
            ;
        } else {
            assert((quotient + 1) * unit <= end * unit) by (nonlinear_arith)
                requires
                    quotient + 1 <= end,
            ;
        }
    }
}

/// A frequency travels as its pattern, unchanged.
pub proof fn patterns_pass_through(bits: u64, frequency: Frequency, back: u64)
    requires
        call_ensures(Frequency::from_bits, (bits,), frequency),
        call_ensures(Frequency::to_bits, (frequency,), back),
    ensures
        frequency.bits == bits,
        back == bits,
{
}

} // verus!
