//! Code written in hexadecimal.

use vstd::prelude::*;
use vstd::string::StringSliceAdditionalSpecFns;

verus! {

/// Why a text is no hexadecimal code.
#[derive(Clone, Copy, Debug, PartialEq, Eq, Structural)]
pub enum ParseHexError {
    /// The text holds a character that is no hexadecimal digit.
    InvalidCharacter,
    /// The text has an odd number of digits: a byte lacks its second digit.
    TooShort,
}

/// The value of a hexadecimal digit, of either case.
pub open spec fn hex_value(c: u8) -> Option<u8> {
    if 0x30 <= c <= 0x39 {
        Some((c - 0x30) as u8)
    } else if 0x61 <= c <= 0x66 {
        Some((c - 0x61 + 10) as u8)
    } else if 0x41 <= c <= 0x46 {
        Some((c - 0x41 + 10) as u8)
    } else {
        None
    }
}

/// The digits of a text: the text without a leading `0x`.
pub open spec fn hex_digits(text: Seq<u8>) -> Seq<u8> {
    if text.len() >= 2 && text[0] == 0x30 && text[1] == 0x78 {
        text.skip(2)
    } else {
        text
    }
}

/// The bytes that a text denotes: after an optional `0x`, two hexadecimal
/// digits for each byte, the more significant first.
pub open spec fn decode_hex(text: Seq<u8>) -> Result<Seq<u8>, ParseHexError> {
    let digits = hex_digits(text);
    if exists|i: int| 0 <= i < digits.len() && hex_value(#[trigger] digits[i]) is None {
        Err(ParseHexError::InvalidCharacter)
    } else if digits.len() % 2 == 1 {
        Err(ParseHexError::TooShort)
    } else {
        Ok(
            Seq::new(
                digits.len() / 2,
                |i: int|
                    (16 * hex_value(digits[2 * i])->Some_0 + hex_value(digits[2 * i + 1])->Some_0) as u8,
            ),
        )
    }
}

/// The value of a hexadecimal digit.
fn digit_value(c: u8) -> (r: Option<u8>)
    ensures
        r == hex_value(c),
{
    if 0x30 <= c && c <= 0x39 {
        Some(c - 0x30)
    } else if 0x61 <= c && c <= 0x66 {
        Some(c - 0x61 + 10)
    } else if 0x41 <= c && c <= 0x46 {
        Some(c - 0x41 + 10)
    } else {
        None
    }
}

/// Reads code written in hexadecimal, with or without a leading `0x`. The
/// empty text is the empty code.
pub fn read_hex(s: &str) -> (r: Result<Vec<u8>, ParseHexError>)
    ensures
        match r {
            Ok(bytes) => decode_hex(s.spec_bytes()) == Ok::<Seq<u8>, ParseHexError>(bytes@),
            Err(e) => decode_hex(s.spec_bytes()) == Err::<Seq<u8>, ParseHexError>(e),
        },
{
    let text = s.as_bytes();
    let start: usize = if text.len() >= 2 && text[0] == 0x30 && text[1] == 0x78 {
        2
    } else {
        0
    };
    let ghost digits = hex_digits(text@);
    let mut i: usize = start;
    while i < text.len()
        invariant
            start <= i <= text@.len(),
            text@ == s.spec_bytes(),
            digits == hex_digits(text@),
            digits == text@.skip(start as int),
            forall|k: int| 0 <= k < i - start ==> hex_value(#[trigger] digits[k]) is Some,
        decreases text.len() - i,
    {
        if digit_value(text[i]).is_none() {
            assert(hex_value(digits[i - start]) is None);
            return Err(ParseHexError::InvalidCharacter);
        }
        i += 1;
    }
    if (text.len() - start) % 2 == 1 {
        return Err(ParseHexError::TooShort);
    }
    let mut res: Vec<u8> = Vec::new();
    let mut j: usize = start;
    while j < text.len()
        invariant
            start <= j <= text@.len(),
            (j - start) % 2 == 0,
            (text@.len() - start) % 2 == 0,
            digits == hex_digits(text@),
            digits == text@.skip(start as int),
            forall|k: int| 0 <= k < digits.len() ==> hex_value(#[trigger] digits[k]) is Some,
            res@.len() == (j - start) / 2,
            forall|k: int|
                0 <= k < res@.len() ==> (#[trigger] res@[k]) == (16 * hex_value(
                    digits[2 * k],
                )->Some_0 + hex_value(digits[2 * k + 1])->Some_0) as u8,
        decreases text.len() - j,
    {
        assert(hex_value(digits[j - start]) is Some);
        assert(hex_value(digits[j - start + 1]) is Some);
        let high = match digit_value(text[j]) {
            Some(v) => v,
            None => 0,
        };
        let low = match digit_value(text[j + 1]) {
            Some(v) => v,
            None => 0,
        };
        res.push(16 * high + low);
        j += 2;
    }
    assert(res@ =~= decode_hex(text@)->Ok_0);
    Ok(res)
}

} // verus!
