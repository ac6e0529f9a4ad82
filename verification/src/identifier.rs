//! Path segments that stand for an identifier: unsigned integers and UUIDs.

use vstd::prelude::*;
use vstd::string::*;
use crate::text::{all_digits, chars_of, decimal_value, is_digit, lemma_decimal_value_prefix};

verus! {

/// What is left of `s` behind an optional leading `+`.
pub open spec fn unsigned_digits(s: Seq<char>) -> Seq<char> {
    if s.len() > 0 && s[0] == '+' {
        s.skip(1)
    } else {
        s
    }
}

/// Text that the strict unsigned-integer parse accepts: an optional `+`, then one or more
/// decimal digits whose value fits in 64 bits.
pub open spec fn is_unsigned_text(s: Seq<char>) -> bool {
    let digits = unsigned_digits(s);
    digits.len() > 0 && all_digits(digits) && decimal_value(digits) <= u64::MAX
}

/// Whether `c` is a hexadecimal digit of either case.
pub open spec fn is_hex_digit(c: char) -> bool {
    ('0' <= c <= '9') || ('a' <= c <= 'f') || ('A' <= c <= 'F')
}

/// The places of the four hyphens in the 8-4-4-4-12 form.
pub open spec fn is_hyphen_position(i: int) -> bool {
    i == 8 || i == 13 || i == 18 || i == 23
}

/// The canonical textual form of a UUID: 36 characters, five groups of 8, 4, 4, 4 and 12
/// hexadecimal digits with a hyphen between neighbouring groups.
pub open spec fn is_hyphenated_uuid(s: Seq<char>) -> bool {
    &&& s.len() == 36
    &&& forall|i: int|
        0 <= i < 36 ==> if is_hyphen_position(i) {
            #[trigger] s[i] == '-'
        } else {
            is_hex_digit(s[i])
        }
}

/// 32 hexadecimal digits without hyphens.
pub open spec fn is_simple_uuid(s: Seq<char>) -> bool {
    &&& s.len() == 32
    &&& forall|i: int| 0 <= i < 32 ==> is_hex_digit(#[trigger] s[i])
}

/// The canonical form between braces.
pub open spec fn is_braced_uuid(s: Seq<char>) -> bool {
    &&& s.len() == 38
    &&& s[0] == '{'
    &&& s[37] == '}'
    &&& is_hyphenated_uuid(s.subrange(1, 37))
}

/// Whether `c` is the letter `lower` in either case.
pub open spec fn is_letter(c: char, lower: char, upper: char) -> bool {
    c == lower || c == upper
}

/// The canonical form behind the prefix `urn:uuid:`, whose letters may have either case.
pub open spec fn is_urn_uuid(s: Seq<char>) -> bool {
    &&& s.len() == 45
    &&& is_letter(s[0], 'u', 'U')
    &&& is_letter(s[1], 'r', 'R')
    &&& is_letter(s[2], 'n', 'N')
    &&& s[3] == ':'
    &&& is_letter(s[4], 'u', 'U')
    &&& is_letter(s[5], 'u', 'U')
    &&& is_letter(s[6], 'i', 'I')
    &&& is_letter(s[7], 'd', 'D')
    &&& s[8] == ':'
    &&& is_hyphenated_uuid(s.subrange(9, 45))
}

/// The canonical form as it is written out: with the digits `a` to `f` in lower case.
pub open spec fn is_lowercase_uuid(s: Seq<char>) -> bool {
    &&& is_hyphenated_uuid(s)
    &&& forall|i: int| 0 <= i < 36 ==> !('A' <= #[trigger] s[i] <= 'F')
}

/// A random (version 4) UUID as it is written out: in the canonical lower-case form, with
/// the version digit `4` and a variant digit from `8` to `b`.
pub open spec fn is_random_uuid(s: Seq<char>) -> bool {
    &&& is_lowercase_uuid(s)
    &&& s[14] == '4'
    &&& s[19] == '8' || s[19] == '9' || s[19] == 'a' || s[19] == 'b'
}

/// Every text that the UUID parser accepts.
pub open spec fn is_uuid_text(s: Seq<char>) -> bool {
    is_simple_uuid(s) || is_hyphenated_uuid(s) || is_braced_uuid(s) || is_urn_uuid(s)
}

/// A segment that is replaced by the placeholder: an unsigned integer or a canonical UUID.
pub open spec fn is_identifier(s: Seq<char>) -> bool {
    is_unsigned_text(s) || is_hyphenated_uuid(s)
}

/// Calls `uuid::Uuid::parse_str` and tells whether it returned `Ok`. The parser goes by the
/// length of the input in bytes and accepts exactly four shapes, all of them ASCII: 32
/// hexadecimal digits, the hyphenated 8-4-4-4-12 form, that form between braces, and that form
/// behind `urn:uuid:`.
#[verifier::external_body]
fn parses_as_uuid(text: &str) -> (accepted: bool)
    ensures
        accepted == is_uuid_text(text@),
{
    uuid::Uuid::parse_str(text).is_ok()
}

/// Calls `uuid::Uuid::new_v4`, which draws 128 random bits from the operating system and
/// sets the version and variant bits, and writes the UUID out with `to_string`: in the
/// hyphenated form, in lower case. Which UUID it is depends on chance, so nothing else is
/// claimed of it; in particular not that two calls differ.
#[verifier::external_body]
pub(crate) fn random_uuid_text() -> (text: String)
    ensures
        is_random_uuid(text@),
{
    uuid::Uuid::new_v4().to_string()
}

/// Whether `segment` parses as an unsigned 64-bit integer.
pub fn is_unsigned_segment(segment: &str) -> (b: bool)
    ensures
        b == is_unsigned_text(segment@),
{
    let chars = chars_of(segment);
    let n = chars.len();
    let first: usize = if n > 0 && chars[0] == '+' {
        1
    } else {
        0
    };
    if first == n {
        return false;
    }
    let ghost digits = unsigned_digits(segment@);
    assert(digits == segment@.skip(first as int));
    let mut value: u64 = 0;
    let mut i: usize = first;
    while i < n
        invariant
            first <= i <= n,
            chars@ == segment@,
            n == segment@.len(),
            digits == unsigned_digits(segment@),
            digits == segment@.skip(first as int),
            all_digits(digits.take(i - first)),
            value == decimal_value(digits.take(i - first)),
        decreases n - i,
    {
        let c = chars[i];
        if !(c >= '0' && c <= '9') {
            assert(!is_digit(digits[i - first]));
            return false;
        }
        let d: u64 = (c as u64) - ('0' as u64);
        let ghost longer = digits.take(i - first + 1);
        assert(longer.drop_last() == digits.take(i - first));
        assert(longer.last() == c);
        if value > (u64::MAX - d) / 10 {
            proof {
                lemma_decimal_value_prefix(digits, i - first + 1);
            }
            return false;
        }
        value = value * 10 + d;
        i += 1;
    }
    assert(digits.take(n - first) == digits);
    true
}

/// Whether `segment` is a UUID in its canonical 8-4-4-4-12 form. The parser also accepts
/// three other forms; none of them is 36 characters long.
pub fn is_uuid_segment(segment: &str) -> (b: bool)
    ensures
        b == is_hyphenated_uuid(segment@),
{
    segment.unicode_len() == 36 && parses_as_uuid(segment)
}

/// Whether `segment` is replaced by the placeholder.
pub fn is_identifier_segment(segment: &str) -> (b: bool)
    ensures
        b == is_identifier(segment@),
{
    is_unsigned_segment(segment) || is_uuid_segment(segment)
}

} // verus!
