use vstd::prelude::*;

verus! {

/// The error type of hex decoding, declared so that the decoding wrapper
/// can return it; the service maps it to the crate's own `Error`.
#[verifier::external_type_specification]
#[verifier::external_body]
pub struct ExFromHexError(hex::FromHexError);

/// Whether `c` is a hexadecimal digit, upper or lower case.
pub open spec fn is_hex_digit(c: char) -> bool {
    ('0' <= c && c <= '9') || ('a' <= c && c <= 'f') || ('A' <= c && c <= 'F')
}

/// The value of a hexadecimal digit, either case; zero on other characters.
pub open spec fn nibble_of_char(c: char) -> u8 {
    if '0' <= c && c <= '9' {
        (c as u8 - '0' as u8) as u8
    } else if 'a' <= c && c <= 'f' {
        (c as u8 - 'a' as u8 + 10) as u8
    } else if 'A' <= c && c <= 'F' {
        (c as u8 - 'A' as u8 + 10) as u8
    } else {
        0
    }
}

/// The lowercase hexadecimal digit of a nibble value.
pub open spec fn char_of_nibble(v: u8) -> char {
    if v < 10 {
        ((v + 0x30) as char)
    } else {
        ((v + 0x57) as char)
    }
}

/// The lowercase hexadecimal encoding of a byte sequence: two digits per
/// byte, high nibble first.
pub open spec fn hex_of(s: Seq<u8>) -> Seq<char> {
    Seq::new(
        2 * s.len(),
        |i: int|
            if i % 2 == 0 {
                char_of_nibble(s[i / 2] >> 4u8)
            } else {
                char_of_nibble(s[i / 2] & 0x0fu8)
            },
    )
}

/// Whether `s` is a well-formed hexadecimal string: even length, every
/// character a digit of either case.
pub open spec fn is_hex(s: Seq<char>) -> bool {
    s.len() % 2 == 0 && forall|i: int| 0 <= i < s.len() ==> is_hex_digit(#[trigger] s[i])
}

/// The bytes denoted by a hexadecimal string: each pair of digits one
/// byte, high nibble first. Meaningful when `is_hex` holds.
pub open spec fn bytes_of_hex(s: Seq<char>) -> Seq<u8> {
    Seq::new(
        s.len() / 2,
        |i: int| (nibble_of_char(s[2 * i]) * 16 + nibble_of_char(s[2 * i + 1])) as u8,
    )
}

/// Relies on hex::encode: every input byte becomes exactly two lowercase
/// hexadecimal digits, high nibble first.
#[verifier::external_body]
pub(crate) fn hex_encode(b: &[u8]) -> (r: String)
    ensures
        r@ == hex_of(b@),
{
    hex::encode(b)
}

/// Relies on hex::decode: decoding succeeds exactly on strings of even
/// length whose characters are all hexadecimal digits of either case, and
/// then each pair of digits becomes one byte, high nibble first.
#[verifier::external_body]
pub(crate) fn hex_decode(s: &str) -> (r: Result<Vec<u8>, hex::FromHexError>)
    ensures
        r matches Ok(b) ==> is_hex(s@) && b@ == bytes_of_hex(s@),
        r is Err ==> !is_hex(s@),
{
    hex::decode(s)
}

} // verus!
