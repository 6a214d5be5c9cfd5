use vstd::prelude::*;

use crate::errors::InputError;

verus! {

/// A byte is a hexadecimal digit: `0-9`, `a-f` or `A-F` in ASCII.
pub open spec fn is_hex_digit(c: u8) -> bool {
    (48 <= c && c <= 57) || (97 <= c && c <= 102) || (65 <= c && c <= 70)
}

/// The numeric value of a hexadecimal digit.
pub open spec fn hex_val(c: u8) -> u8
    recommends
        is_hex_digit(c),
{
    if 48 <= c && c <= 57 {
        (c - 48) as u8
    } else if 97 <= c && c <= 102 {
        (c - 87) as u8
    } else {
        (c - 55) as u8
    }
}

/// A byte string is valid hexadecimal text: even length, hex digits only.
pub open spec fn valid_hex(s: Seq<u8>) -> bool {
    s.len() % 2 == 0 && (forall|i: int| 0 <= i < s.len() ==> is_hex_digit(s[i]))
}

/// The byte written by a pair of hexadecimal digits, high digit first.
pub open spec fn byte_of_digits(hi: u8, lo: u8) -> u8
    recommends
        is_hex_digit(hi),
        is_hex_digit(lo),
{
    (hex_val(hi) * 16 + hex_val(lo)) as u8
}

/// The byte sequence that valid hexadecimal text denotes.
pub open spec fn decode_hex_spec(s: Seq<u8>) -> Seq<u8>
    recommends
        valid_hex(s),
{
    Seq::new((s.len() / 2) as nat, |i: int| byte_of_digits(s[2 * i], s[2 * i + 1]))
}

/// The lowercase hexadecimal digit for a value below 16.
pub open spec fn hex_char_of(v: u8) -> u8
    recommends
        v < 16,
{
    if v < 10 {
        (v + 48) as u8
    } else {
        (v + 87) as u8
    }
}

/// The lowercase hexadecimal text for a byte sequence.
pub open spec fn encode_hex_spec(b: Seq<u8>) -> Seq<u8> {
    Seq::new((b.len() * 2) as nat, |i: int|
        if i % 2 == 0 {
            hex_char_of(b[i / 2] / 16)
        } else {
            hex_char_of(b[i / 2] % 16)
        })
}

/// An ASCII uppercase letter mapped to lowercase; any other byte unchanged.
pub open spec fn lower_byte(c: u8) -> u8 {
    if 65 <= c && c <= 90 {
        (c + 32) as u8
    } else {
        c
    }
}

/// ASCII uppercase letters mapped to lowercase; other bytes unchanged.
pub open spec fn lower_ascii(s: Seq<u8>) -> Seq<u8> {
    Seq::new(s.len(), |i: int| lower_byte(s[i]))
}

/// The value of a hexadecimal digit, or `None` for any other byte.
pub fn hex_digit_value(c: u8) -> (r: Option<u8>)
    ensures
        is_hex_digit(c) ==> r == Some(hex_val(c)),
        !is_hex_digit(c) ==> r is None,
{
    if 48 <= c && c <= 57 {
        Some(c - 48)
    } else if 97 <= c && c <= 102 {
        Some(c - 87)
    } else if 65 <= c && c <= 70 {
        Some(c - 55)
    } else {
        None
    }
}

/// Decode hexadecimal text into the byte sequence it denotes.
///
/// Succeeds exactly on valid hexadecimal text: an even number of
/// characters, all of them hex digits. Any other input is a terminal
/// input error.
pub fn decode_hex(s: &[u8]) -> (r: Result<Vec<u8>, InputError>)
    ensures
        r is Ok <==> valid_hex(s@),
        r matches Ok(b) ==> b@ == decode_hex_spec(s@),
        r matches Err(e) ==> e == InputError::InvalidHex,
{
    if s.len() % 2 != 0 {
        return Err(InputError::InvalidHex);
    }
    let mut out: Vec<u8> = Vec::new();
    let mut i: usize = 0;
    while i < s.len()
        invariant
            s@.len() % 2 == 0,
            i % 2 == 0,
            i <= s@.len(),
            forall|j: int| 0 <= j < i ==> is_hex_digit(s@[j]),
            out@.len() == i / 2,
            forall|j: int| 0 <= j < i / 2 ==> out@[j] == byte_of_digits(s@[2 * j], s@[2 * j + 1]),
        decreases s@.len() - i,
    {
        let hi = match hex_digit_value(s[i]) {
            Some(v) => v,
            None => {
                return Err(InputError::InvalidHex);
            },
        };
        let lo = match hex_digit_value(s[i + 1]) {
            Some(v) => v,
            None => {
                return Err(InputError::InvalidHex);
            },
        };
        out.push(hi * 16 + lo);
        i = i + 2;
    }
    proof {
        assert(out@ =~= decode_hex_spec(s@));
    }
    Ok(out)
}

/// Encode a byte sequence as lowercase hexadecimal text.
pub fn encode_hex(b: &[u8]) -> (r: Vec<u8>)
    ensures
        r@ == encode_hex_spec(b@),
{
    let mut out: Vec<u8> = Vec::new();
    let mut i: usize = 0;
    while i < b.len()
        invariant
            i <= b@.len(),
            out@.len() == 2 * i,
            forall|j: int| 0 <= j < out@.len() ==> out@[j] == encode_hex_spec(b@)[j],
        decreases b@.len() - i,
    {
        let c = b[i];
        out.push(if c / 16 < 10 { c / 16 + 48 } else { c / 16 + 87 });
        out.push(if c % 16 < 10 { c % 16 + 48 } else { c % 16 + 87 });
        i = i + 1;
    }
    proof {
        assert(out@ =~= encode_hex_spec(b@));
    }
    out
}

/// A hexadecimal digit's value is below 16, and writing that value back
/// as a digit gives the digit itself, lowercased.
pub proof fn lemma_digit_round_trip(c: u8)
    requires
        is_hex_digit(c),
    ensures
        hex_val(c) < 16,
        hex_char_of(hex_val(c)) == lower_byte(c),
{
}

/// Round trip: encoding the bytes decoded from valid hexadecimal text
/// yields the original text, lowercased.
pub proof fn lemma_hex_round_trip(s: Seq<u8>)
    requires
        valid_hex(s),
    ensures
        encode_hex_spec(decode_hex_spec(s)) == lower_ascii(s),
{
    let d = decode_hex_spec(s);
    let e = encode_hex_spec(d);
    assert(e.len() == s.len());
    assert forall|i: int| 0 <= i < e.len() implies e[i] == lower_ascii(s)[i] by {
        let j = i / 2;
        assert(is_hex_digit(s[2 * j]) && is_hex_digit(s[2 * j + 1]));
        assert(hex_val(s[2 * j]) < 16 && hex_val(s[2 * j + 1]) < 16);
        assert(d[j] == byte_of_digits(s[2 * j], s[2 * j + 1]));
        assert(d[j] / 16 == hex_val(s[2 * j]) && d[j] % 16 == hex_val(s[2 * j + 1]));
        if i % 2 == 0 {
            assert(2 * j == i);
            lemma_digit_round_trip(s[i]);
        } else {
            assert(2 * j + 1 == i);
            lemma_digit_round_trip(s[i]);
        }
    }
    assert(e =~= lower_ascii(s));
}

/// Encoding always yields valid hexadecimal text, and decoding it gives
/// the original bytes back.
pub proof fn lemma_encode_then_decode(b: Seq<u8>)
    ensures
        valid_hex(encode_hex_spec(b)),
        decode_hex_spec(encode_hex_spec(b)) == b,
{
    let e = encode_hex_spec(b);
    assert forall|i: int| 0 <= i < e.len() implies is_hex_digit(e[i]) by {
        assert(b[i / 2] / 16 < 16 && b[i / 2] % 16 < 16);
    }
    let d = decode_hex_spec(e);
    assert forall|i: int| 0 <= i < d.len() implies d[i] == b[i] by {
        assert(e[2 * i] == hex_char_of(b[i] / 16));
        assert(e[2 * i + 1] == hex_char_of(b[i] % 16));
        assert(b[i] / 16 < 16 && b[i] % 16 < 16);
        assert(hex_val(hex_char_of(b[i] / 16)) == b[i] / 16);
        assert(hex_val(hex_char_of(b[i] % 16)) == b[i] % 16);
    }
    assert(d =~= b);
}

} // verus!
