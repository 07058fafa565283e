use crate::utils::text::digit;
use uuid::Uuid;
use vstd::arithmetic::div_mod::{lemma_basic_div, lemma_div_denominator, lemma_fundamental_div_mod};
use vstd::arithmetic::power::{lemma_pow_adds, lemma_pow_positive, pow};
use vstd::prelude::*;

verus! {

/// The character of a hexadecimal digit, in lower case.
pub open spec fn hex_digit(d: nat) -> char {
    if d < 10 {
        digit(d)
    } else if d == 10 {
        'a'
    } else if d == 11 {
        'b'
    } else if d == 12 {
        'c'
    } else if d == 13 {
        'd'
    } else if d == 14 {
        'e'
    } else {
        'f'
    }
}

/// The `k`-th of the 32 hexadecimal digits of a 128-bit value, counted from
/// the most significant.
pub open spec fn nibble(value: u128, k: int) -> nat {
    ((value as int / pow(16, (31 - k) as nat)) % 16) as nat
}

/// How many hyphens stand before place `i` of the hyphenated form.
pub open spec fn hyphens_before(i: int) -> int {
    if i < 8 {
        0
    } else if i < 13 {
        1
    } else if i < 18 {
        2
    } else if i < 23 {
        3
    } else {
        4
    }
}

/// The hyphenated form of a 128-bit identifier: its 32 hexadecimal digits
/// in lower case, most significant first, in groups of 8, 4, 4, 4 and 12
/// with a hyphen between two groups.
pub open spec fn hyphenated(value: u128) -> Seq<char> {
    Seq::new(
        36,
        |i: int|
            if i == 8 || i == 13 || i == 18 || i == 23 {
                '-'
            } else {
                hex_digit(nibble(value, i - hyphens_before(i)))
            },
    )
}

/// The place of the `k`-th hexadecimal digit in the hyphenated form.
pub open spec fn place_of_digit(k: int) -> int {
    if k < 8 {
        k
    } else if k < 12 {
        k + 1
    } else if k < 16 {
        k + 2
    } else if k < 20 {
        k + 3
    } else {
        k + 4
    }
}

/// The number that the first `k` hexadecimal digits of a value make.
spec fn leading(value: u128, k: int) -> int {
    value as int / pow(16, (32 - k) as nat)
}

/// One more digit: sixteen times what the digits before it make, and the
/// digit.
proof fn lemma_leading_step(value: u128, k: int)
    requires
        0 <= k < 32,
    ensures
        leading(value, k + 1) == leading(value, k) * 16 + nibble(value, k),
{
    let unit = pow(16, (31 - k) as nat);
    lemma_pow_positive(16, (31 - k) as nat);
    assert(pow(16, (32 - k) as nat) == 16 * unit) by {
        reveal_with_fuel(pow, 2);
    }
    assert(unit * 16 == 16 * unit);
    lemma_div_denominator(value as int, unit, 16);
    lemma_fundamental_div_mod(value as int / unit, 16);
}

/// Thirty-two hexadecimal digits hold every 128-bit value.
proof fn lemma_sixteen_to_the_32()
    ensures
        pow(16, 32) == 0x1_0000_0000_0000_0000_0000_0000_0000_0000,
{
    assert(pow(16, 4) == 0x1_0000) by {
        reveal_with_fuel(pow, 5);
    }
    assert(pow(16, 8) == 0x1_0000_0000) by {
        lemma_pow_adds(16, 4, 4);
    }
    assert(pow(16, 16) == 0x1_0000_0000_0000_0000) by {
        lemma_pow_adds(16, 8, 8);
    }
    assert(pow(16, 32) == 0x1_0000_0000_0000_0000_0000_0000_0000_0000) by {
        lemma_pow_adds(16, 16, 16);
    }
}

/// Two values whose first `k` hexadecimal digits agree make the same
/// number of them.
proof fn lemma_leading_agree(a: u128, b: u128, k: int)
    requires
        0 <= k <= 32,
        forall|j: int| 0 <= j < k ==> nibble(a, j) == nibble(b, j),
    ensures
        leading(a, k) == leading(b, k),
    decreases k,
{
    if k == 0 {
        lemma_sixteen_to_the_32();
        lemma_basic_div(a as int, pow(16, 32));
        lemma_basic_div(b as int, pow(16, 32));
    } else {
        lemma_leading_agree(a, b, k - 1);
        lemma_leading_step(a, k - 1);
        lemma_leading_step(b, k - 1);
    }
}

/// The hyphenated form tells identifiers apart: two identifiers with the
/// same form are the same.
pub proof fn lemma_hyphenated_is_injective(a: u128, b: u128)
    requires
        hyphenated(a) == hyphenated(b),
    ensures
        a == b,
{
    assert forall|j: int| 0 <= j < 32 implies nibble(a, j) == nibble(b, j) by {
        let place = place_of_digit(j);
        assert(hyphenated(a)[place] == hex_digit(nibble(a, j)));
        assert(hyphenated(b)[place] == hex_digit(nibble(b, j)));
        assert(nibble(a, j) < 16 && nibble(b, j) < 16);
    }
    lemma_leading_agree(a, b, 32);
    assert(pow(16, 0) == 1) by {
        reveal_with_fuel(pow, 1);
    }
}

/// Draws a random 128-bit identifier (`Uuid::new_v4`, read with
/// `Uuid::as_u128`).
///
/// Trusted; the value is random, so nothing is claimed of it. The call
/// panics if the operating system cannot supply random bytes.
#[verifier::external_body]
pub(crate) fn random() -> (value: u128) {
    Uuid::new_v4().as_u128()
}

/// Writes an identifier in hyphenated form (`Uuid::from_u128`, then the
/// `Display` of `Uuid`).
///
/// Trusted. The claim is that `Uuid` prints its sixteen bytes, taken from
/// the value with the most significant first, as lower-case hexadecimal
/// digits in the groups that `hyphenated` describes.
#[verifier::external_body]
pub(crate) fn hyphenated_string(value: u128) -> (text: String)
    ensures
        text@ == hyphenated(value),
{
    Uuid::from_u128(value).to_string()
}

} // verus!
