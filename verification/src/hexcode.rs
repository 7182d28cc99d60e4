//! Verified decoding of hexadecimal signature text into bytes.
//!
//! Stripe's signature header carries the expected HMAC tag as lowercase
//! hex; the verifier decodes it and compares bytes. Decoding is the
//! crate's own code, proved against `hex_decode_of`.

use vstd::prelude::*;

verus! {

/// Value of one hexadecimal digit character, either case.
pub open spec fn hex_digit_val(c: char) -> Option<int> {
    if '0' <= c && c <= '9' {
        Some(c as int - 48)
    } else if 'a' <= c && c <= 'f' {
        Some(c as int - 87)
    } else if 'A' <= c && c <= 'F' {
        Some(c as int - 55)
    } else {
        None
    }
}

/// Bytes denoted by the hex text from `pos` on: two digits per byte;
/// `None` on an odd tail or a character that is not a hex digit.
pub open spec fn hex_decode_from(s: Seq<char>, pos: int) -> Option<Seq<u8>>
    decreases s.len() - pos,
{
    if pos >= s.len() {
        Some(Seq::empty())
    } else if pos + 1 >= s.len() {
        None
    } else {
        match (hex_digit_val(s[pos]), hex_digit_val(s[pos + 1])) {
            (Some(h), Some(l)) => match hex_decode_from(s, pos + 2) {
                Some(rest) => Some(seq![(h * 16 + l) as u8] + rest),
                None => None,
            },
            _ => None,
        }
    }
}

/// Bytes denoted by a whole hex text.
pub open spec fn hex_decode_of(s: Seq<char>) -> Option<Seq<u8>> {
    hex_decode_from(s, 0)
}

/// Decode one hex digit character.
pub fn hex_digit(c: char) -> (r: Option<u8>)
    ensures
        (match r {
            Some(v) => hex_digit_val(c) == Some(v as int),
            None => hex_digit_val(c) is None,
        }),
{
    if '0' <= c && c <= '9' {
        Some(((c as u32) - 48) as u8)
    } else if 'a' <= c && c <= 'f' {
        Some(((c as u32) - 87) as u8)
    } else if 'A' <= c && c <= 'F' {
        Some(((c as u32) - 55) as u8)
    } else {
        None
    }
}

fn x_hex_decode(s: &str, len: usize, pos: usize) -> (r: Option<Vec<u8>>)
    requires
        len == s@.len(),
        pos <= len,
    ensures
        (match (r, hex_decode_from(s@, pos as int)) {
            (Some(v), Some(m)) => v@ == m,
            (None, None) => true,
            _ => false,
        }),
    decreases len - pos,
{
    if pos >= len {
        let v: Vec<u8> = Vec::new();
        return Some(v);
    }
    if pos + 1 >= len {
        return None;
    }
    let h = match hex_digit(s.get_char(pos)) {
        Some(h) => h,
        None => {
            return None;
        },
    };
    let l = match hex_digit(s.get_char(pos + 1)) {
        Some(l) => l,
        None => {
            return None;
        },
    };
    match x_hex_decode(s, len, pos + 2) {
        Some(rest) => {
            let ghost restm = rest@;
            let mut v = rest;
            v.insert(0, h * 16 + l);
            proof {
                assert(v@ =~= seq![(h * 16 + l) as u8] + restm);
            }
            Some(v)
        },
        None => None,
    }
}

/// Decode a whole hex text; `None` exactly when `hex_decode_of` says the
/// text is not hexadecimal.
pub fn hex_decode(s: &str) -> (r: Option<Vec<u8>>)
    ensures
        (match (r, hex_decode_of(s@)) {
            (Some(v), Some(m)) => v@ == m,
            (None, None) => true,
            _ => false,
        }),
{
    let len = s.unicode_len();
    x_hex_decode(s, len, 0)
}

} // verus!
