//! Hexadecimal decoding of header values: signature and key material arrive
//! as ASCII hex strings and are decoded to raw bytes before use.

use vstd::prelude::*;

verus! {

/// True when `c` is the ASCII code of a hexadecimal digit.
pub open spec fn is_hex_digit(c: u8) -> bool {
    (48 <= c && c <= 57) || (65 <= c && c <= 70) || (97 <= c && c <= 102)
}

/// Numeric value of the ASCII hex digit `c`.
pub open spec fn hex_digit_value(c: u8) -> u8
    recommends
        is_hex_digit(c),
{
    if 48 <= c && c <= 57 {
        (c - 48) as u8
    } else if 65 <= c && c <= 70 {
        (c - 55) as u8
    } else {
        (c - 87) as u8
    }
}

/// `s` is a well-formed hex string: even length, every byte a hex digit.
pub open spec fn is_hex_encoding(s: Seq<u8>) -> bool {
    &&& s.len() % 2 == 0
    &&& forall|i: int| 0 <= i < s.len() ==> is_hex_digit(#[trigger] s[i])
}

/// The bytes denoted by the hex string `s`: one byte per digit pair,
/// high digit first.
pub open spec fn hex_decoded(s: Seq<u8>) -> Seq<u8> {
    Seq::new(
        s.len() / 2,
        |i: int| (hex_digit_value(s[2 * i]) * 16 + hex_digit_value(s[2 * i + 1])) as u8,
    )
}

fn hex_digit(c: u8) -> (r: Option<u8>)
    ensures
        is_hex_digit(c) ==> r == Some(hex_digit_value(c)),
        !is_hex_digit(c) ==> r is None,
{
    if 48 <= c && c <= 57 {
        Some(c - 48)
    } else if 65 <= c && c <= 70 {
        Some(c - 55)
    } else if 97 <= c && c <= 102 {
        Some(c - 87)
    } else {
        None
    }
}

/// Decode the ASCII hex string `input`; `None` exactly when `input` is not a
/// well-formed hex string.
pub fn decode_hex(input: &[u8]) -> (r: Option<Vec<u8>>)
    ensures
        r is Some <==> is_hex_encoding(input@),
        r matches Some(v) ==> v@ == hex_decoded(input@),
{
    if input.len() % 2 != 0 {
        return None;
    }
    let pairs: usize = input.len() / 2;
    let mut out: Vec<u8> = Vec::new();
    let mut i: usize = 0;
    while i < pairs
        invariant
            input@.len() % 2 == 0,
            input@.len() <= usize::MAX,
            pairs == input@.len() / 2,
            i <= pairs,
            out@.len() == i,
            forall|j: int| 0 <= j < 2 * i ==> is_hex_digit(#[trigger] input@[j]),
            forall|j: int|
                0 <= j < i ==> #[trigger] out@[j] == (hex_digit_value(input@[2 * j]) * 16
                    + hex_digit_value(input@[2 * j + 1])) as u8,
        decreases pairs - i,
    {
        proof {
            assert(2 * i + 1 < input@.len());
        }
        let hi = match hex_digit(input[2 * i]) {
            Some(v) => v,
            None => {
                return None;
            },
        };
        let lo = match hex_digit(input[2 * i + 1]) {
            Some(v) => v,
            None => {
                return None;
            },
        };
        out.push(hi * 16 + lo);
        i = i + 1;
    }
    proof {
        assert(out@ =~= hex_decoded(input@));
    }
    Some(out)
}

} // verus!
