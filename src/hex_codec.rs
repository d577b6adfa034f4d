use vstd::prelude::*;

verus! {

/// The lowercase hexadecimal digit for a value below sixteen.
pub open spec fn hex_digit(d: u8) -> char {
    if d < 10 {
        (d + 48) as char
    } else {
        (d + 87) as char
    }
}

/// Whether `c` is a hexadecimal digit, in either case.
pub open spec fn is_hex_char(c: char) -> bool {
    ('0' <= c && c <= '9') || ('a' <= c && c <= 'f') || ('A' <= c && c <= 'F')
}

/// The value of a hexadecimal digit.
pub open spec fn hex_value(c: char) -> u8 {
    if '0' <= c && c <= '9' {
        (c as u32 - 48) as u8
    } else if 'a' <= c && c <= 'f' {
        (c as u32 - 87) as u8
    } else {
        (c as u32 - 55) as u8
    }
}

/// Lowercase hexadecimal text of a byte string: two digits per byte, high nibble first.
pub open spec fn hex_text(b: Seq<u8>) -> Seq<char> {
    Seq::new(
        2 * b.len(),
        |i: int|
            if i % 2 == 0 {
                hex_digit(b[i / 2] / 16)
            } else {
                hex_digit(b[i / 2] % 16)
            },
    )
}

/// Whether a text is made of pairs of hexadecimal digits.
pub open spec fn is_hex_text(s: Seq<char>) -> bool {
    s.len() % 2 == 0 && forall|i: int| 0 <= i < s.len() ==> is_hex_char(#[trigger] s[i])
}

/// The bytes that a text of pairs of hexadecimal digits stands for.
pub open spec fn hex_bytes(s: Seq<char>) -> Seq<u8> {
    Seq::new(s.len() / 2, |i: int| (hex_value(s[2 * i]) * 16 + hex_value(s[2 * i + 1])) as u8)
}

pub proof fn lemma_hex_digit_value(d: u8)
    requires
        d < 16,
    ensures
        is_hex_char(hex_digit(d)),
        hex_value(hex_digit(d)) == d,
        hex_digit(d) != '@',
{
}

/// Hexadecimal text holds only digits, and reads back as the bytes it was made from.
pub proof fn lemma_hex_round_trip(b: Seq<u8>)
    ensures
        is_hex_text(hex_text(b)),
        hex_bytes(hex_text(b)) == b,
        !hex_text(b).contains('@'),
{
    let t = hex_text(b);
    assert forall|i: int| 0 <= i < t.len() implies is_hex_char(#[trigger] t[i]) && t[i] != '@' by {
        lemma_hex_digit_value(b[i / 2] / 16);
        lemma_hex_digit_value(b[i / 2] % 16);
    }
    assert forall|i: int| 0 <= i < b.len() implies #[trigger] hex_bytes(t)[i] == b[i] by {
        lemma_hex_digit_value(b[i] / 16);
        lemma_hex_digit_value(b[i] % 16);
        assert(t[2 * i] == hex_digit(b[i] / 16));
        assert(t[2 * i + 1] == hex_digit(b[i] % 16));
        assert((b[i] / 16) * 16 + b[i] % 16 == b[i]);
    }
    assert(hex_bytes(t) =~= b);
}

#[verifier::external_type_specification]
#[verifier::external_body]
pub struct ExFromHexError(hex::FromHexError);

/// Relies on hex::encode: each byte becomes two lowercase digits, high nibble first.
#[verifier::external_body]
pub(crate) fn encode_hex(b: &[u8]) -> (r: String)
    ensures
        r@ == hex_text(b@),
{
    hex::encode(b)
}

/// Relies on hex::decode: it succeeds exactly on an even number of hexadecimal digits
/// of either case, and then yields one byte per pair, high nibble first.
#[verifier::external_body]
pub(crate) fn decode_hex(s: &str) -> (r: Result<Vec<u8>, hex::FromHexError>)
    ensures
        r.is_ok() <==> is_hex_text(s@),
        r.is_ok() ==> r.unwrap()@ == hex_bytes(s@),
{
    hex::decode(s)
}

} // verus!
