//! UUIDs as text.

use vstd::prelude::*;

use crate::text;

verus! {

/// The last `n` hexadecimal digits of `value`, in lower case.
pub open spec fn hex_digits(value: nat, n: nat) -> Seq<char>
    decreases n,
{
    if n == 0 {
        seq![]
    } else {
        hex_digits(value / 16, (n - 1) as nat).push(text::digit_char(value % 16))
    }
}

/// The hyphenated notation of a UUID: groups of 8, 4, 4, 4 and 12 digits.
pub open spec fn hyphenated(id: u128) -> Seq<char> {
    let digits = hex_digits(id as nat, 32);
    digits.subrange(0, 8).push('-') + digits.subrange(8, 12).push('-') + digits.subrange(
        12,
        16,
    ).push('-') + digits.subrange(16, 20).push('-') + digits.subrange(20, 32)
}

/// Whether `s` consists of hexadecimal digits.
pub open spec fn is_hex(s: Seq<char>) -> bool {
    forall|i: int| 0 <= i < s.len() ==> text::is_hex_digit(#[trigger] s[i])
}

/// Whether `s` has the shape of a hyphenated UUID.
pub open spec fn is_hyphenated(s: Seq<char>) -> bool {
    &&& s.len() == 36
    &&& s[8] == '-' && s[13] == '-' && s[18] == '-' && s[23] == '-'
    &&& is_hex(s.subrange(0, 8))
    &&& is_hex(s.subrange(9, 13))
    &&& is_hex(s.subrange(14, 18))
    &&& is_hex(s.subrange(19, 23))
    &&& is_hex(s.subrange(24, 36))
}

/// Whether `s` is a UUID in one of its notations: 32 digits, hyphenated,
/// hyphenated in braces, or hyphenated as a URN.
pub open spec fn is_uuid_text(s: Seq<char>) -> bool {
    ||| s.len() == 32 && is_hex(s)
    ||| is_hyphenated(s)
    ||| s.len() == 38 && s[0] == '{' && s[37] == '}' && is_hyphenated(s.subrange(1, 37))
    ||| s.len() == 45 && text::same_ignoring_ascii_case(s.take(9), "urn:uuid:"@) && is_hyphenated(
        s.skip(9),
    )
}

/// Writes a UUID in its hyphenated notation.
///
/// Calls `uuid::Uuid::from_u128` and its `to_string`, which writes the 32
/// digits of the big-endian bytes in lower case, in five groups.
#[verifier::external_body]
pub(crate) fn uuid_text(id: u128) -> (text: String)
    ensures
        text@ == hyphenated(id),
{
    uuid::Uuid::from_u128(id).to_string()
}

/// Writes a UUID as its 32 digits.
///
/// Calls `uuid::Uuid::from_u128` and `to_string` of its `simple` notation, which
/// writes the 32 digits of the big-endian bytes in lower case.
#[verifier::external_body]
pub(crate) fn uuid_digits(id: u128) -> (text: String)
    ensures
        text@ == hex_digits(id as nat, 32),
{
    uuid::Uuid::from_u128(id).simple().to_string()
}

/// Draws a UUID.
///
/// Calls `uuid::Uuid::new_v4`. Its bits are random; nothing is claimed of them.
#[verifier::external_body]
pub(crate) fn random_uuid() -> (id: u128) {
    uuid::Uuid::new_v4().as_u128()
}

/// Whether `s` is a UUID.
///
/// Calls `uuid::Uuid::parse_str`, which accepts the four notations and no other
/// text.
#[verifier::external_body]
pub(crate) fn parses_as_uuid(s: &str) -> (yes: bool)
    ensures
        yes == is_uuid_text(s@),
{
    uuid::Uuid::parse_str(s).is_ok()
}

spec fn pow16(n: nat) -> nat
    decreases n,
{
    if n == 0 {
        1
    } else {
        16 * pow16((n - 1) as nat)
    }
}

/// `n` digits are `n` characters.
pub proof fn lemma_hex_digits_len(value: nat, n: nat)
    ensures
        hex_digits(value, n).len() == n,
    decreases n,
{
    if n > 0 {
        lemma_hex_digits_len(value / 16, (n - 1) as nat);
    }
}

proof fn lemma_hex_digits_injective(a: nat, b: nat, n: nat)
    requires
        a < pow16(n),
        b < pow16(n),
        hex_digits(a, n) == hex_digits(b, n),
    ensures
        a == b,
    decreases n,
{
    if n > 0 {
        let m = (n - 1) as nat;
        let left = hex_digits(a / 16, m);
        let right = hex_digits(b / 16, m);
        assert(hex_digits(a, n).last() == text::digit_char(a % 16));
        assert(hex_digits(b, n).last() == text::digit_char(b % 16));
        assert(a % 16 == b % 16);
        assert(hex_digits(a, n).drop_last() =~= left);
        assert(hex_digits(b, n).drop_last() =~= right);
        lemma_hex_digits_injective(a / 16, b / 16, m);
    }
}

/// Different UUIDs have different hyphenated notations.
pub proof fn hyphenated_is_injective(a: u128, b: u128)
    requires
        hyphenated(a) == hyphenated(b),
    ensures
        a == b,
{
    let left = hex_digits(a as nat, 32);
    let right = hex_digits(b as nat, 32);
    lemma_hex_digits_len(a as nat, 32);
    lemma_hex_digits_len(b as nat, 32);
    assert forall|i: int| 0 <= i < 32 implies left[i] == right[i] by {
        let at = if i < 8 {
            i
        } else if i < 12 {
            i + 1
        } else if i < 16 {
            i + 2
        } else if i < 20 {
            i + 3
        } else {
            i + 4
        };
        assert(hyphenated(a)[at] == left[i]);
        assert(hyphenated(b)[at] == right[i]);
    }
    assert(left =~= right);
    reveal_with_fuel(pow16, 33);
    assert(pow16(32) == 0x1_0000_0000_0000_0000_0000_0000_0000_0000nat);
    lemma_hex_digits_injective(a as nat, b as nat, 32);
}

}
