//! Numbers and texts.

use crate::text::{decimal, decimal_text, digit_char, join3, same_text};
use vstd::prelude::*;

verus! {

/// The character is a decimal digit.
pub open spec fn is_digit(c: char) -> bool {
    '0' <= c <= '9'
}

/// The number that a text of decimal digits stands for.
pub open spec fn value(digits: Seq<char>) -> int
    decreases digits.len(),
{
    if digits.len() == 0 {
        0
    } else {
        10 * value(digits.drop_last()) + (digits.last() as int - '0' as int)
    }
}

/// A number in decimal is made of digits, begins with a zero only if it is zero, and stands
/// for the number.
pub proof fn decimals_stand_for_their_numbers(n: u32, text: String)
    requires
        call_ensures(decimal_text, (n,), text),
    ensures
        text@.len() > 0,
        forall|i: int| 0 <= i < text@.len() ==> is_digit(#[trigger] text@[i]),
        text@[0] == '0' ==> text@.len() == 1,
        value(text@) == n,
{
    lemma_decimal(n as nat);
}

proof fn lemma_decimal(n: nat)
    ensures
        decimal(n).len() > 0,
        forall|i: int| 0 <= i < decimal(n).len() ==> is_digit(#[trigger] decimal(n)[i]),
        decimal(n)[0] == '0' ==> n == 0,
        n == 0 ==> decimal(n).len() == 1,
        value(decimal(n)) == n,
    decreases n,
{
    reveal_with_fuel(value, 2);
    if n < 10 {
        assert(decimal(n).drop_last() =~= Seq::<char>::empty());
        assert(decimal(n).last() == digit_char(n));
    } else {
        lemma_decimal(n / 10);
        assert(decimal(n).drop_last() =~= decimal(n / 10));
        assert(decimal(n)[0] == decimal(n / 10)[0]);
    }
}

/// Two texts are the same if and only if they hold the same characters, and texts are put
/// together in the order given.
pub proof fn texts_are_compared_and_joined(a: &str, b: &str, c: &str, same: bool, joined: String)
    requires
        call_ensures(same_text, (a, b), same),
        call_ensures(join3, (a, b, c), joined),
    ensures
        same <==> a@ == b@,
        joined@ == a@ + b@ + c@,
{
}

} // verus!
