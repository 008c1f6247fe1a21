//! Arbitrary-precision identifiers.
//!
//! Identifiers and keys are `num::BigUint` values. Verus cannot look inside
//! one, so this module names the natural number that it holds and states, for
//! each operation of `BigUint` that the node uses, what it does to that number.
//! None of these statements is proved here: they describe the `num` crate.

use vstd::prelude::*;
use vstd::arithmetic::power::pow;
use num::BigUint;
use crate::text::{all_digits, decimal_text, decimal_value, digit_value, is_digit, lemma_decimal_text};

verus! {

/// `num::BigUint`, an unsigned integer of any size. Nothing inside it is
/// visible here.
#[verifier::external_type_specification]
#[verifier::external_body]
pub struct ExBigUint(BigUint);

/// The natural number that a `BigUint` holds.
pub uninterp spec fn big_value(n: BigUint) -> nat;

/// The number that a sequence of bytes spells in base 256, most significant
/// byte first. The empty sequence spells zero.
pub open spec fn be_value(bytes: Seq<u8>) -> nat
    decreases bytes.len(),
{
    if bytes.len() == 0 {
        0
    } else {
        be_value(bytes.drop_last()) * 256 + bytes.last() as nat
    }
}

/// The number that a text of digits and underscores spells in base ten, the
/// underscores passed over.
pub open spec fn spaced_decimal_value(s: Seq<char>) -> nat
    decreases s.len(),
{
    if s.len() == 0 {
        0
    } else if s.last() == '_' {
        spaced_decimal_value(s.drop_last())
    } else {
        spaced_decimal_value(s.drop_last()) * 10 + digit_value(s.last())
    }
}

/// Whether every character of a text is a decimal digit or an underscore.
pub open spec fn digits_or_underscores(s: Seq<char>) -> bool {
    forall|i: int| 0 <= i < s.len() ==> is_digit(#[trigger] s[i]) || s[i] == '_'
}

/// The number that a text spells for `BigUint` in base ten, where it spells
/// one: an optional `+`, then a digit, then digits and underscores.
pub open spec fn big_text_value(s: Seq<char>) -> Option<nat> {
    let body = if s.len() > 0 && s[0] == '+' {
        s.skip(1)
    } else {
        s
    };
    if body.len() > 0 && body[0] != '_' && digits_or_underscores(body) {
        Some(spaced_decimal_value(body))
    } else {
        None
    }
}

/// `BigUint::from_bytes_be` reads its argument as a number in base 256, most
/// significant byte first.
pub assume_specification[ BigUint::from_bytes_be ](bytes: &[u8]) -> (n: BigUint)
    ensures
        big_value(n) == be_value(bytes@),
;

/// `BigUint::pow` raises the number to the given power.
pub assume_specification[ BigUint::pow ](base: &BigUint, exponent: u32) -> (n: BigUint)
    ensures
        big_value(n) == pow(big_value(*base) as int, exponent as nat),
;

/// `&a + &b` on `BigUint` is the sum of the two numbers.
#[verifier::external_body]
pub(crate) fn big_sum(a: &BigUint, b: &BigUint) -> (n: BigUint)
    ensures
        big_value(n) == big_value(*a) + big_value(*b),
{
    a + b
}

/// `&a % &b` on `BigUint` is the remainder of the division of `a` by `b`. It
/// panics on a zero divisor, which the precondition excludes.
#[verifier::external_body]
pub(crate) fn big_remainder(a: &BigUint, b: &BigUint) -> (n: BigUint)
    requires
        big_value(*b) != 0,
    ensures
        big_value(n) == big_value(*a) % big_value(*b),
{
    a % b
}

/// `a < b` on `BigUint` orders by the numbers held.
#[verifier::external_body]
pub(crate) fn big_less(a: &BigUint, b: &BigUint) -> (r: bool)
    ensures
        r == (big_value(*a) < big_value(*b)),
{
    a < b
}

/// `a == b` on `BigUint` holds exactly when the two hold the same number.
#[verifier::external_body]
pub(crate) fn big_equal(a: &BigUint, b: &BigUint) -> (r: bool)
    ensures
        r == (big_value(*a) == big_value(*b)),
{
    a == b
}

/// `BigUint::clone` gives a `BigUint` that holds the same number.
#[verifier::external_body]
pub(crate) fn big_clone(a: &BigUint) -> (n: BigUint)
    ensures
        big_value(n) == big_value(*a),
{
    a.clone()
}

/// `BigUint::to_string` spells the number in base ten, without leading zeros
/// and with `0` for zero.
#[verifier::external_body]
pub(crate) fn big_to_string(a: &BigUint) -> (s: String)
    ensures
        s@ == decimal_text(big_value(*a)),
{
    a.to_string()
}

/// `BigUint::parse_bytes` reads a number from the bytes of a text. This states
/// it for radix ten: the text may begin with one `+`; what follows must begin
/// with a digit and hold digits and underscores only, and the digits spell the
/// number. Any other text gives `None`.
#[verifier::external_body]
pub(crate) fn big_parse(text: &str, radix: u32) -> (r: Option<BigUint>)
    requires
        radix == 10,
    ensures
        r matches Some(n) ==> big_text_value(text@) == Some(big_value(n)),
        r is None ==> big_text_value(text@) is None,
{
    BigUint::parse_bytes(text.as_bytes(), radix)
}

/// In a text of digits there is no underscore to pass over.
pub proof fn lemma_spaced_value_of_digits(s: Seq<char>)
    requires
        all_digits(s),
    ensures
        spaced_decimal_value(s) == decimal_value(s),
    decreases s.len(),
{
    if s.len() > 0 {
        assert(is_digit(s[s.len() - 1]));
        assert forall|i: int| 0 <= i < s.drop_last().len() implies is_digit(
            #[trigger] s.drop_last()[i],
        ) by {
            assert(s.drop_last()[i] == s[i]);
        }
        lemma_spaced_value_of_digits(s.drop_last());
    }
}

/// A number is read back from its decimal spelling.
pub proof fn lemma_big_text_value_of_decimal_text(n: nat)
    ensures
        big_text_value(decimal_text(n)) == Some(n),
{
    lemma_decimal_text(n);
    lemma_spaced_value_of_digits(decimal_text(n));
    assert(is_digit(decimal_text(n)[0]));
}

} // verus!
