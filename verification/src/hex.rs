//! Hexadecimal text, the form in which byte strings are written down.

use crate::backend::byte_strings;
use vstd::prelude::*;

verus! {

/// The bytes of a text in UTF-8.
pub open spec fn text_bytes(text: Seq<char>) -> Seq<u8> {
    vstd::utf8::encode_utf8(text)
}

/// The value of a hexadecimal digit, in either case.
pub open spec fn hex_digit_value(c: u8) -> Option<u8> {
    if 0x30 <= c <= 0x39 {
        Some((c - 0x30) as u8)
    } else if 0x61 <= c <= 0x66 {
        Some((c - 0x61 + 10) as u8)
    } else if 0x41 <= c <= 0x46 {
        Some((c - 0x41 + 10) as u8)
    } else {
        None
    }
}

/// Whether `text` is `0x` followed by an even number of hexadecimal digits.
pub open spec fn is_hex_text(text: Seq<u8>) -> bool {
    &&& text.len() >= 2
    &&& text.len() % 2 == 0
    &&& text[0] == 0x30
    &&& text[1] == 0x78
    &&& forall|i: int| 2 <= i < text.len() ==> hex_digit_value(#[trigger] text[i]) is Some
}

/// The byte that the digits at `2k + 2` and `2k + 3` of `text` write.
pub open spec fn hex_byte_at(text: Seq<u8>, k: int) -> u8 {
    (hex_digit_value(text[2 * k + 2]).unwrap() * 16 + hex_digit_value(
        text[2 * k + 3],
    ).unwrap()) as u8
}

/// The bytes that a hexadecimal text writes.
pub open spec fn hex_payload(text: Seq<u8>) -> Seq<u8> {
    Seq::new(((text.len() - 2) / 2) as nat, |k: int| hex_byte_at(text, k))
}

/// The bytes that `text` writes, if it is hexadecimal text.
pub open spec fn hex_decoding(text: Seq<u8>) -> Option<Seq<u8>> {
    if is_hex_text(text) {
        Some(hex_payload(text))
    } else {
        None
    }
}

/// The bytes that a hexadecimal text writes, if it is one.
pub open spec fn text_decoding(text: Seq<char>) -> Option<Seq<u8>> {
    hex_decoding(text_bytes(text))
}

/// The byte strings that a list of texts writes, if every one is
/// hexadecimal text.
pub open spec fn texts_decoding(texts: Seq<String>) -> Option<Seq<Seq<u8>>> {
    if forall|i: int| 0 <= i < texts.len() ==> text_decoding((#[trigger] texts[i])@) is Some {
        Some(Seq::new(texts.len(), |i: int| text_decoding(texts[i]@).unwrap()))
    } else {
        None
    }
}

/// The value of one hexadecimal digit.
pub fn hex_digit(c: u8) -> (r: Option<u8>)
    ensures
        r == hex_digit_value(c),
        r matches Some(v) ==> v < 16,
{
    if 0x30 <= c && c <= 0x39 {
        Some(c - 0x30)
    } else if 0x61 <= c && c <= 0x66 {
        Some(c - 0x61 + 10)
    } else if 0x41 <= c && c <= 0x46 {
        Some(c - 0x41 + 10)
    } else {
        None
    }
}

/// Decodes `0x`-prefixed hexadecimal text given as bytes.
pub fn decode_hex(text: &[u8]) -> (r: Option<Vec<u8>>)
    ensures
        match r {
            Some(bytes) => hex_decoding(text@) == Some(bytes@),
            None => hex_decoding(text@) is None,
        },
{
    let n: usize = text.len();
    if n < 2 || n % 2 != 0 || text[0] != 0x30 || text[1] != 0x78 {
        return None;
    }
    let count: usize = (n - 2) / 2;
    let mut out: Vec<u8> = Vec::new();
    let mut k: usize = 0;
    while k < count
        invariant
            n == text@.len(),
            n >= 2,
            n % 2 == 0,
            count == (n - 2) / 2,
            k <= count,
            out@.len() == k,
            forall|i: int| 2 <= i < 2 * k + 2 ==> hex_digit_value(#[trigger] text@[i]) is Some,
            forall|j: int| 0 <= j < k ==> out@[j] == hex_byte_at(text@, j),
        decreases count - k,
    {
        let hi = match hex_digit(text[2 * k + 2]) {
            Some(v) => v,
            None => {
                return None;
            },
        };
        let lo = match hex_digit(text[2 * k + 3]) {
            Some(v) => v,
            None => {
                return None;
            },
        };
        out.push(hi * 16 + lo);
        k = k + 1;
    }
    assert(out@ =~= hex_payload(text@));
    Some(out)
}

/// Decodes `0x`-prefixed hexadecimal text.
pub fn decode_hex_text(text: &str) -> (r: Option<Vec<u8>>)
    ensures
        match r {
            Some(bytes) => hex_decoding(text_bytes(text@)) == Some(bytes@),
            None => hex_decoding(text_bytes(text@)) is None,
        },
{
    decode_hex(text.as_bytes())
}

/// Decodes a list of hexadecimal texts, all or none.
pub fn decode_hex_list(texts: &Vec<String>) -> (r: Option<Vec<Vec<u8>>>)
    ensures
        match r {
            Some(list) => texts_decoding(texts@) == Some(byte_strings(list@)),
            None => texts_decoding(texts@) is None,
        },
{
    let mut out: Vec<Vec<u8>> = Vec::new();
    let mut i: usize = 0;
    while i < texts.len()
        invariant
            i <= texts@.len(),
            out@.len() == i,
            forall|j: int| 0 <= j < i ==> text_decoding((#[trigger] texts@[j])@) == Some(out@[j]@),
        decreases texts@.len() - i,
    {
        match decode_hex_text(texts[i].as_str()) {
            Some(bytes) => {
                out.push(bytes);
            },
            None => {
                return None;
            },
        }
        i = i + 1;
    }
    proof {
        let decoded = texts_decoding(texts@);
        assert(decoded is Some);
        assert(decoded.unwrap() =~= byte_strings(out@));
    }
    Some(out)
}

} // verus!
