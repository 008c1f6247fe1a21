//! Identifier algebra on the ring of `2^m` positions.

use vstd::prelude::*;
use vstd::arithmetic::div_mod::lemma_small_mod;
use vstd::arithmetic::power::{lemma_pow_increases, lemma_pow_positive, pow};
use num::BigUint;
use crate::hash::{digest, hash_value};
use crate::number::{be_value, big_equal, big_less, big_remainder, big_value};

verus! {

/// Whether `n` lies on the arc that runs clockwise from `left` to `right`.
///
/// Each border belongs to the arc exactly when its flag is set. Where
/// `left < right` the arc is one interval; where `left > right` it wraps
/// around the top of the ring and is the union of two intervals; where the two
/// borders coincide it is the whole ring, less the border itself when neither
/// flag is set.
pub open spec fn in_ring_range(
    n: nat,
    left: nat,
    left_inclusive: bool,
    right: nat,
    right_inclusive: bool,
) -> bool {
    let after_left = if left_inclusive { n >= left } else { n > left };
    let before_right = if right_inclusive { n <= right } else { n < right };
    if left < right {
        after_left && before_right
    } else if left > right {
        after_left || before_right
    } else {
        left_inclusive || right_inclusive || n != left
    }
}

/// The number of positions on a ring of `bits` bits.
pub open spec fn ring_size(bits: nat) -> nat {
    pow(2, bits) as nat
}

/// The identifier of a text on a ring of `bits` bits: its hash, reduced
/// modulo the size of the ring.
pub open spec fn ring_identifier(bits: nat, text: Seq<char>) -> nat {
    hash_value(text) % ring_size(bits)
}

/// Hashes a string with SHA-256 into a number of at most 256 bits.
pub fn hash(input: &String) -> (n: BigUint)
    ensures
        big_value(n) == hash_value(input@),
        big_value(n) < pow(2, 256),
{
    digest(input)
}

/// Tells whether `n` lies on the ring arc from `left_border` to
/// `right_border`. Each border is an identifier and a flag that says whether
/// the border itself belongs to the arc.
pub fn is_in_range(
    n: &BigUint,
    left_border: (&BigUint, bool),
    right_border: (&BigUint, bool),
) -> (r: bool)
    ensures
        r == in_ring_range(
            big_value(*n),
            big_value(*left_border.0),
            left_border.1,
            big_value(*right_border.0),
            right_border.1,
        ),
{
    let (left, left_inclusive) = left_border;
    let (right, right_inclusive) = right_border;

    if !big_equal(left, right) {
        let left_condition = if left_inclusive {
            !big_less(n, left)
        } else {
            big_less(left, n)
        };
        let right_condition = if right_inclusive {
            !big_less(right, n)
        } else {
            big_less(n, right)
        };
        if big_less(left, right) {
            left_condition && right_condition
        } else {
            left_condition || right_condition
        }
    } else {
        left_inclusive || right_inclusive || !big_equal(n, left)
    }
}

/// Two to the power of `exponent`.
pub fn power_of_two(exponent: u32) -> (n: BigUint)
    ensures
        big_value(n) == pow(2, exponent as nat),
        big_value(n) > 0,
{
    let two: [u8; 1] = [2];
    let base = BigUint::from_bytes_be(two.as_slice());
    proof {
        assert(two@.drop_last() =~= Seq::<u8>::empty());
        assert(be_value(two@) == 2) by {
            reveal_with_fuel(be_value, 2);
        }
        lemma_pow_positive(2, exponent as nat);
    }
    base.pow(exponent)
}

/// Reduces a number to an identifier on a ring of `bits` bits: its remainder
/// modulo the size of the ring.
pub fn reduce(bits: u32, n: &BigUint) -> (id: BigUint)
    ensures
        big_value(id) == big_value(*n) % ring_size(bits as nat),
        big_value(id) < ring_size(bits as nat),
{
    let divisor = power_of_two(bits);
    big_remainder(n, &divisor)
}

/// Computes the identifier of a string on a ring of `bits` bits. On a ring
/// of 256 bits or more it is the hash itself.
pub fn compute_identifier(bits: u32, input: &String) -> (id: BigUint)
    ensures
        big_value(id) == ring_identifier(bits as nat, input@),
        big_value(id) < ring_size(bits as nat),
        bits >= 256 ==> big_value(id) == hash_value(input@),
{
    let hash = hash(input);
    proof {
        if bits >= 256 {
            lemma_pow_increases(2, 256, bits as nat);
            lemma_small_mod(big_value(hash), ring_size(bits as nat));
        }
    }
    reduce(bits, &hash)
}

/// On an arc whose borders differ, the left border belongs to the arc exactly
/// when its flag is set, and so does the right border.
pub proof fn lemma_borders(left: nat, left_inclusive: bool, right: nat, right_inclusive: bool)
    requires
        left != right,
    ensures
        in_ring_range(left, left, left_inclusive, right, right_inclusive) == left_inclusive,
        in_ring_range(right, left, left_inclusive, right, right_inclusive) == right_inclusive,
{
}

/// A point strictly between the borders of a non-wrapping arc lies on it, and
/// a point outside them does not, whatever the flags.
pub proof fn lemma_plain_arc(n: nat, left: nat, left_inclusive: bool, right: nat, right_inclusive: bool)
    requires
        left < right,
    ensures
        left < n < right ==> in_ring_range(n, left, left_inclusive, right, right_inclusive),
        n < left || n > right ==> !in_ring_range(n, left, left_inclusive, right, right_inclusive),
{
}

/// A wrapping arc holds exactly the points that the opposite plain arc, with
/// the flags swapped and negated, leaves out.
pub proof fn lemma_wrapping_arc(n: nat, left: nat, left_inclusive: bool, right: nat, right_inclusive: bool)
    requires
        left > right,
    ensures
        in_ring_range(n, left, left_inclusive, right, right_inclusive) == !in_ring_range(
            n,
            right,
            !right_inclusive,
            left,
            !left_inclusive,
        ),
{
}

/// Where the borders coincide, the arc leaves out at most the border itself,
/// and that only when neither flag is set.
pub proof fn lemma_degenerate_arc(n: nat, border: nat, left_inclusive: bool, right_inclusive: bool)
    ensures
        in_ring_range(n, border, left_inclusive, border, right_inclusive) == (left_inclusive
            || right_inclusive || n != border),
{
}

} // verus!
