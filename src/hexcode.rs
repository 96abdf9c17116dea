//! Hexadecimal text and text prefixes: what decoding, encoding and prefix
//! removal mean, and the calls that do them.

use vstd::prelude::*;

verus! {

#[verifier::external_type_specification]
#[verifier::external_body]
pub struct ExFromHexError(hex::FromHexError);

/// Value of a hexadecimal digit in either case, or -1 for any other character.
pub open spec fn hex_digit_value(c: char) -> int {
    if '0' <= c && c <= '9' {
        c as int - '0' as int
    } else if 'a' <= c && c <= 'f' {
        c as int - 'a' as int + 10
    } else if 'A' <= c && c <= 'F' {
        c as int - 'A' as int + 10
    } else {
        -1
    }
}

pub open spec fn is_hex_digit(c: char) -> bool {
    hex_digit_value(c) >= 0
}

/// Text that decodes: an even number of hexadecimal digits.
pub open spec fn is_hex_text(s: Seq<char>) -> bool {
    &&& s.len() % 2 == 0
    &&& forall|i: int| 0 <= i < s.len() ==> #[trigger] is_hex_digit(s[i])
}

/// The bytes that hexadecimal text stands for, two digits per byte, high digit first.
pub open spec fn hex_bytes(s: Seq<char>) -> Seq<u8> {
    Seq::new(
        s.len() / 2,
        |i: int| (16 * hex_digit_value(s[2 * i]) + hex_digit_value(s[2 * i + 1])) as u8,
    )
}

/// Lower-case digit for a value below sixteen.
pub open spec fn lower_hex_digit(n: int) -> char {
    if n < 10 {
        (n + '0' as int) as char
    } else {
        (n - 10 + 'a' as int) as char
    }
}

/// Lower-case hexadecimal text of bytes, two digits per byte, high digit first.
pub open spec fn hex_text(b: Seq<u8>) -> Seq<char> {
    Seq::new(
        2 * b.len(),
        |i: int|
            if i % 2 == 0 {
                lower_hex_digit(b[i / 2] as int / 16)
            } else {
                lower_hex_digit(b[i / 2] as int % 16)
            },
    )
}

pub open spec fn starts_with(s: Seq<char>, p: Seq<char>) -> bool {
    p.len() <= s.len() && s.subrange(0, p.len() as int) == p
}

/// Text with one leading `p` removed, if it has one.
pub open spec fn without_prefix(s: Seq<char>, p: Seq<char>) -> Seq<char> {
    if starts_with(s, p) {
        s.skip(p.len() as int)
    } else {
        s
    }
}

/// Text with every leading `p` removed, as many times as it repeats.
pub open spec fn without_prefixes(s: Seq<char>, p: Seq<char>) -> Seq<char>
    decreases s.len(),
{
    if p.len() > 0 && starts_with(s, p) {
        without_prefixes(s.skip(p.len() as int), p)
    } else {
        s
    }
}

pub open spec fn hex_prefix() -> Seq<char> {
    seq!['0', 'x']
}

/// Relies on `hex::decode`: an odd number of digits or a character that is
/// not a hexadecimal digit of either case is an error; otherwise each pair of
/// digits gives one byte, high digit first.
#[verifier::external_body]
pub(crate) fn hex_decode(s: &str) -> (r: Result<Vec<u8>, hex::FromHexError>)
    ensures
        r is Ok <==> is_hex_text(s@),
        r matches Ok(b) ==> b@ == hex_bytes(s@),
{
    hex::decode(s)
}

/// Relies on `hex::encode`: two lower-case digits per byte, high digit first.
#[verifier::external_body]
pub(crate) fn hex_encode(b: &Vec<u8>) -> (r: String)
    ensures
        r@ == hex_text(b@),
{
    hex::encode(b)
}

/// Relies on `str::strip_prefix`: the text after a leading `p`, or the text itself.
#[verifier::external_body]
pub(crate) fn strip_text_prefix<'a>(s: &'a str, p: &str) -> (r: &'a str)
    ensures
        r@ == without_prefix(s@, p@),
{
    s.strip_prefix(p).unwrap_or(s)
}

/// Relies on `str::trim_start_matches`: the text after every leading `p`.
#[verifier::external_body]
pub(crate) fn trim_text_prefixes<'a>(s: &'a str, p: &str) -> (r: &'a str)
    ensures
        r@ == without_prefixes(s@, p@),
{
    s.trim_start_matches(p)
}

/// Relies on `str::starts_with`.
#[verifier::external_body]
pub(crate) fn text_starts_with(s: &str, p: &str) -> (r: bool)
    ensures
        r == starts_with(s@, p@),
{
    s.starts_with(p)
}

} // verus!
