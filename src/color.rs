//! Hex color literals (`"ff8000"`) read as 8-bit RGB channels.
use vstd::prelude::*;

verus! {

/// Value of one ASCII hex digit, upper or lower case.
pub open spec fn hex_digit(b: u8) -> Option<nat> {
    if 48 <= b <= 57 {
        Some((b - 48) as nat)
    } else if 97 <= b <= 102 {
        Some((b - 87) as nat)
    } else if 65 <= b <= 70 {
        Some((b - 55) as nat)
    } else {
        None
    }
}

/// The byte written by the two hex digits `hi lo`.
pub open spec fn hex_pair(hi: u8, lo: u8) -> Option<nat> {
    match (hex_digit(hi), hex_digit(lo)) {
        (Some(h), Some(l)) => Some(16 * h + l),
        _ => None,
    }
}

/// Every one of the six bytes is a hex digit.
pub open spec fn is_hex_color(hex: Seq<u8>) -> bool {
    hex.len() == 6 && forall|i: int| 0 <= i < 6 ==> (#[trigger] hex_digit(hex[i])).is_some()
}

/// Channel `c` (0 red, 1 green, 2 blue) of a valid six-digit hex color.
pub open spec fn hex_channel(hex: Seq<u8>, c: int) -> nat {
    16 * hex_digit(hex[2 * c]).unwrap() + hex_digit(hex[2 * c + 1]).unwrap()
}

/// Reads one hex digit.
pub fn hex_digit_value(b: u8) -> (r: Option<u8>)
    ensures
        r.is_some() == hex_digit(b).is_some(),
        r.is_some() ==> r.unwrap() as nat == hex_digit(b).unwrap(),
        r.is_some() ==> r.unwrap() < 16,
{
    if 48u8 <= b && b <= 57u8 {
        Some(b - 48u8)
    } else if 97u8 <= b && b <= 102u8 {
        Some(b - 87)
    } else if 65u8 <= b && b <= 70u8 {
        Some(b - 55)
    } else {
        None
    }
}

/// Reads the byte written as the two hex digits `hi lo`.
pub fn hex_byte(hi: u8, lo: u8) -> (r: Option<u8>)
    ensures
        r.is_some() == hex_pair(hi, lo).is_some(),
        r.is_some() ==> r.unwrap() as nat == hex_pair(hi, lo).unwrap(),
{
    match (hex_digit_value(hi), hex_digit_value(lo)) {
        (Some(h), Some(l)) => Some(16 * h + l),
        _ => None,
    }
}

/// Reads a six-digit hex color (`rrggbb`) into its three 8-bit channels;
/// `None` when any byte is not a hex digit.
pub fn parse_hex_rgb(hex: &[u8; 6]) -> (r: Option<[u8; 3]>)
    ensures
        r.is_some() == is_hex_color(hex@),
        r.is_some() ==> forall|c: int|
            0 <= c < 3 ==> (#[trigger] r.unwrap()[c]) as nat == hex_channel(hex@, c),
{
    let red = hex_byte(hex[0], hex[1]);
    let green = hex_byte(hex[2], hex[3]);
    let blue = hex_byte(hex[4], hex[5]);
    match (red, green, blue) {
        (Some(r), Some(g), Some(b)) => {
            let out = [r, g, b];
            assert(is_hex_color(hex@)) by {
                assert forall|i: int| 0 <= i < 6 implies (#[trigger] hex_digit(hex@[i])).is_some() by {
                    if i == 0 || i == 1 {
                    } else if i == 2 || i == 3 {
                    } else {
                    }
                }
            }
            assert forall|c: int| 0 <= c < 3 implies (#[trigger] out@[c]) as nat == hex_channel(hex@, c) by {
            }
            Some(out)
        },
        _ => {
            proof {
                if is_hex_color(hex@) {
                    assert(hex_digit(hex@[0]).is_some() && hex_digit(hex@[1]).is_some());
                    assert(hex_digit(hex@[2]).is_some() && hex_digit(hex@[3]).is_some());
                    assert(hex_digit(hex@[4]).is_some() && hex_digit(hex@[5]).is_some());
                }
            }
            None
        },
    }
}

} // verus!
