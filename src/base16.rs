//! Base16 (hexadecimal) text for byte strings: lowercase on output, either
//! case accepted on input.
use vstd::prelude::*;

verus! {

/// The lowercase hexadecimal digit for a value below sixteen.
pub open spec fn hex_digit(n: int) -> char {
    if 0 <= n < 10 {
        ((n + 48) as u8) as char
    } else {
        ((n - 10 + 97) as u8) as char
    }
}

/// Whether a character is a hexadecimal digit, in either case.
pub open spec fn is_hex_char(c: char) -> bool {
    ('0' <= c && c <= '9') || ('a' <= c && c <= 'f') || ('A' <= c && c <= 'F')
}

/// The value of a hexadecimal digit.
pub open spec fn hex_value(c: char) -> int {
    if '0' <= c && c <= '9' {
        c as int - 48
    } else if 'a' <= c && c <= 'f' {
        c as int - 97 + 10
    } else {
        c as int - 65 + 10
    }
}

/// The lowercase base16 text of a byte string: two digits per byte, the high
/// half first.
pub open spec fn hex_text(b: Seq<u8>) -> Seq<char> {
    Seq::new(
        2 * b.len(),
        |j: int|
            if j % 2 == 0 {
                hex_digit(b[j / 2] as int / 16)
            } else {
                hex_digit(b[j / 2] as int % 16)
            },
    )
}

/// Whether a text is well-formed base16: an even number of hexadecimal digits.
pub open spec fn is_hex_text(s: Seq<char>) -> bool {
    s.len() % 2 == 0 && forall|j: int| 0 <= j < s.len() ==> #[trigger] is_hex_char(s[j])
}

/// The bytes that a well-formed base16 text stands for.
pub open spec fn hex_bytes(s: Seq<char>) -> Seq<u8> {
    Seq::new(s.len() / 2, |i: int| (16 * hex_value(s[2 * i]) + hex_value(s[2 * i + 1])) as u8)
}

/// Declares `hex::FromHexError`, the error of a failed decoding.
#[verifier::external_type_specification]
#[verifier::external_body]
pub struct ExFromHexError(hex::FromHexError);

/// Relies on `hex::encode`: each byte becomes two lowercase digits from the
/// table `0123456789abcdef`, the high half first.
#[verifier::external_body]
fn hex_encode(b: &[u8]) -> (r: String)
    ensures
        r@ == hex_text(b@),
{
    hex::encode(b)
}

/// Relies on `hex::decode`: an odd length or a byte outside `0-9`, `a-f`,
/// `A-F` is an error; otherwise each pair of digits gives one byte, the first
/// digit being the high half.
#[verifier::external_body]
fn hex_decode(s: &str) -> (r: Result<Vec<u8>, hex::FromHexError>)
    ensures
        r is Ok <==> is_hex_text(s@),
        r is Ok ==> r->Ok_0@ == hex_bytes(s@),
{
    hex::decode(s)
}

/// Failure to read base16 text.
#[derive(Clone, Copy, Debug, PartialEq, Eq, Structural)]
pub enum Base16Error {
    /// The text has an odd length or a character that is no hexadecimal digit.
    NotHex,
}

/// The lowercase base16 text of `bytes`.
pub fn encode(bytes: &[u8]) -> (r: String)
    ensures
        r@ == hex_text(bytes@),
{
    hex_encode(bytes)
}

/// The bytes written in the base16 text `text`.
pub fn decode(text: &str) -> (r: Result<Vec<u8>, Base16Error>)
    ensures
        r is Ok <==> is_hex_text(text@),
        r is Ok ==> r->Ok_0@ == hex_bytes(text@),
        r is Err ==> r->Err_0 == Base16Error::NotHex,
{
    match hex_decode(text) {
        Ok(b) => Ok(b),
        Err(_) => Err(Base16Error::NotHex),
    }
}

proof fn lemma_digit_round_trip(n: int)
    requires
        0 <= n < 16,
    ensures
        is_hex_char(hex_digit(n)),
        hex_value(hex_digit(n)) == n,
{
}

/// Reading the base16 text of a byte string gives that byte string back.
pub proof fn lemma_hex_round_trip(b: Seq<u8>)
    ensures
        is_hex_text(hex_text(b)),
        hex_bytes(hex_text(b)) == b,
{
    let s = hex_text(b);
    assert forall|j: int| 0 <= j < s.len() implies #[trigger] is_hex_char(s[j]) by {
        lemma_digit_round_trip(b[j / 2] as int / 16);
        lemma_digit_round_trip(b[j / 2] as int % 16);
    }
    assert forall|i: int| 0 <= i < b.len() implies #[trigger] hex_bytes(s)[i] == b[i] by {
        lemma_digit_round_trip(b[i] as int / 16);
        lemma_digit_round_trip(b[i] as int % 16);
        assert(s[2 * i] == hex_digit(b[i] as int / 16));
        assert(s[2 * i + 1] == hex_digit(b[i] as int % 16));
    }
    assert(hex_bytes(s) =~= b);
}

} // verus!
