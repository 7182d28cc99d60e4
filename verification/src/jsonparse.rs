//! A verified parser for the JSON texts that webhook payloads are made
//! of.
//!
//! The grammar is given once, mathematically, by the `sp_*` spec
//! functions over a sequence of characters; the executable parser is
//! proved to return exactly what the spec functions say. Numbers with a
//! fraction or exponent part, and integers of more than eighteen digits,
//! parse as the opaque `NumOther`; string escapes cover the single-letter
//! escapes of JSON (`\u` sequences are not accepted).

use vstd::prelude::*;

use crate::hexcode::{hex_digit, hex_digit_val};
use crate::jsonval::{Json, JsonM, json_view, arr_view, obj_view};
use crate::strutil::{char_from_u32, push_char};

verus! {

pub open spec fn is_ws(c: char) -> bool {
    c == ' ' || c == '\t' || c == '\n' || c == '\r'
}

pub open spec fn is_digit(c: char) -> bool {
    '0' <= c && c <= '9'
}

/// First index at or after `pos` that does not hold whitespace.
pub open spec fn ws_end(s: Seq<char>, pos: int) -> int
    decreases s.len() - pos,
{
    if pos < s.len() && is_ws(s[pos]) {
        ws_end(s, pos + 1)
    } else {
        pos
    }
}

/// First index at or after `pos` that does not hold a decimal digit.
pub open spec fn digits_end(s: Seq<char>, pos: int) -> int
    decreases s.len() - pos,
{
    if pos < s.len() && is_digit(s[pos]) {
        digits_end(s, pos + 1)
    } else {
        pos
    }
}

/// Numeric value of the digit run `s[a..b)`.
pub open spec fn digits_val(s: Seq<char>, a: int, b: int) -> int
    decreases b - a,
{
    if a >= b {
        0
    } else {
        digits_val(s, a, b - 1) * 10 + (s[b - 1] as int - 48)
    }
}

/// The character denoted by a single-letter escape `\c`.
pub open spec fn escape_char(c: char) -> Option<char> {
    if c == '"' {
        Some('"')
    } else if c == '\\' {
        Some('\\')
    } else if c == '/' {
        Some('/')
    } else if c == 'b' {
        Some('\u{8}')
    } else if c == 'f' {
        Some('\u{c}')
    } else if c == 'n' {
        Some('\n')
    } else if c == 'r' {
        Some('\r')
    } else if c == 't' {
        Some('\t')
    } else {
        None
    }
}

/// String body starting at `pos`, just after the opening quote. Yields
/// the unescaped content and the index just after the closing quote.
pub open spec fn sp_string(s: Seq<char>, pos: int) -> Option<(Seq<char>, int)>
    decreases s.len() - pos,
{
    if pos >= s.len() {
        None
    } else if s[pos] == '"' {
        Some((Seq::empty(), pos + 1))
    } else if s[pos] == '\\' {
        if pos + 1 < s.len() {
            if s[pos + 1] == 'u' {
                if pos + 6 <= s.len() {
                    match (
                        hex_digit_val(s[pos + 2]),
                        hex_digit_val(s[pos + 3]),
                        hex_digit_val(s[pos + 4]),
                        hex_digit_val(s[pos + 5]),
                    ) {
                        (Some(a), Some(b), Some(c), Some(d)) => {
                            let v = (a * 4096 + b * 256 + c * 16 + d) as u32;
                            if vstd::utf8::is_scalar(v) {
                                match sp_string(s, pos + 6) {
                                    Some((rest, q)) => Some((seq![v as char] + rest, q)),
                                    None => None,
                                }
                            } else if 0xD800 <= v <= 0xDBFF && pos + 12 <= s.len() && s[pos + 6]
                                == '\\' && s[pos + 7] == 'u' {
                                match (
                                    hex_digit_val(s[pos + 8]),
                                    hex_digit_val(s[pos + 9]),
                                    hex_digit_val(s[pos + 10]),
                                    hex_digit_val(s[pos + 11]),
                                ) {
                                    (Some(e), Some(f), Some(g), Some(h)) => {
                                        let w = (e * 4096 + f * 256 + g * 16 + h) as u32;
                                        if 0xDC00 <= w <= 0xDFFF {
                                            let combined = (0x10000 + (v - 0xD800) * 0x400 + (w
                                                - 0xDC00)) as u32;
                                            match sp_string(s, pos + 12) {
                                                Some((rest, q)) => Some(
                                                    (seq![combined as char] + rest, q),
                                                ),
                                                None => None,
                                            }
                                        } else {
                                            None
                                        }
                                    },
                                    _ => None,
                                }
                            } else {
                                None
                            }
                        },
                        _ => None,
                    }
                } else {
                    None
                }
            } else {
                match escape_char(s[pos + 1]) {
                    Some(c) => match sp_string(s, pos + 2) {
                        Some((rest, q)) => Some((seq![c] + rest, q)),
                        None => None,
                    },
                    None => None,
                }
            }
        } else {
            None
        }
    } else {
        match sp_string(s, pos + 1) {
            Some((rest, q)) => Some((seq![s[pos]] + rest, q)),
            None => None,
        }
    }
}

/// Numeric literal starting at `pos`. A plain integer of at most
/// eighteen digits is kept exactly; anything else well-formed is
/// `NumOther`.
pub open spec fn sp_number(s: Seq<char>, pos: int) -> Option<(JsonM, int)> {
    let d0 = if pos < s.len() && s[pos] == '-' {
        pos + 1
    } else {
        pos
    };
    let de = digits_end(s, d0);
    if de == d0 {
        None
    } else {
        let fe = if de < s.len() && s[de] == '.' {
            let f = digits_end(s, de + 1);
            if f == de + 1 {
                -1
            } else {
                f
            }
        } else {
            de
        };
        if fe < 0 {
            None
        } else {
            let ee = if fe < s.len() && (s[fe] == 'e' || s[fe] == 'E') {
                let es = if fe + 1 < s.len() && (s[fe + 1] == '+' || s[fe + 1] == '-') {
                    fe + 2
                } else {
                    fe + 1
                };
                let g = digits_end(s, es);
                if g == es {
                    -1
                } else {
                    g
                }
            } else {
                fe
            };
            if ee < 0 {
                None
            } else if ee == de && de - d0 <= 18 {
                let v = digits_val(s, d0, de);
                Some((JsonM::Int(if d0 > pos { -v } else { v }), de))
            } else {
                Some((JsonM::NumOther, ee))
            }
        }
    }
}

pub open spec fn lit4(s: Seq<char>, pos: int, c0: char, c1: char, c2: char, c3: char) -> bool {
    pos + 4 <= s.len() && s[pos] == c0 && s[pos + 1] == c1 && s[pos + 2] == c2 && s[pos + 3] == c3
}

pub open spec fn lit5(
    s: Seq<char>,
    pos: int,
    c0: char,
    c1: char,
    c2: char,
    c3: char,
    c4: char,
) -> bool {
    pos + 5 <= s.len() && s[pos] == c0 && s[pos + 1] == c1 && s[pos + 2] == c2 && s[pos + 3] == c3
        && s[pos + 4] == c4
}

/// A JSON value beginning at `pos`, leading whitespace allowed. Yields
/// the value and the index just after it.
pub open spec fn sp_value(s: Seq<char>, pos: int) -> Option<(JsonM, int)>
    decreases s.len() - pos, 2int,
{
    let p = ws_end(s, pos);
    if !(pos <= p && p < s.len()) {
        None
    } else {
        let c = s[p];
        if c == '{' {
            match sp_obj_items(s, p + 1, true) {
                Some((items, q)) => Some((JsonM::Obj(items), q)),
                None => None,
            }
        } else if c == '[' {
            match sp_arr_items(s, p + 1, true) {
                Some((items, q)) => Some((JsonM::Arr(items), q)),
                None => None,
            }
        } else if c == '"' {
            match sp_string(s, p + 1) {
                Some((t, q)) => Some((JsonM::Str(t), q)),
                None => None,
            }
        } else if c == '-' || is_digit(c) {
            sp_number(s, p)
        } else if lit4(s, p, 't', 'r', 'u', 'e') {
            Some((JsonM::Bool(true), p + 4))
        } else if lit5(s, p, 'f', 'a', 'l', 's', 'e') {
            Some((JsonM::Bool(false), p + 5))
        } else if lit4(s, p, 'n', 'u', 'l', 'l') {
            Some((JsonM::Null, p + 4))
        } else {
            None
        }
    }
}

/// Members of an object, starting just after `{` (`first`) or after a
/// `,`. Yields the members and the index just after the closing `}`;
/// only an object's first position may hold the closing brace directly,
/// so a trailing comma does not parse.
pub open spec fn sp_obj_items(s: Seq<char>, pos: int, first: bool) -> Option<
    (Seq<(Seq<char>, JsonM)>, int),
>
    decreases s.len() - pos, 3int,
{
    let p = ws_end(s, pos);
    if !(pos <= p && p < s.len()) {
        None
    } else if s[p] == '}' {
        if first {
            Some((Seq::empty(), p + 1))
        } else {
            None
        }
    } else if s[p] == '"' {
        match sp_string(s, p + 1) {
            Some((k, q1)) => {
                let q2 = ws_end(s, q1);
                if !(pos < q1 && q1 <= q2 && q2 < s.len()) {
                    None
                } else if s[q2] == ':' {
                    match sp_value(s, q2 + 1) {
                        Some((v, q3)) => {
                            let q4 = ws_end(s, q3);
                            if !(pos < q3 && q3 <= q4 && q4 < s.len()) {
                                None
                            } else if s[q4] == ',' {
                                match sp_obj_items(s, q4 + 1, false) {
                                    Some((rest, q5)) => Some((seq![(k, v)] + rest, q5)),
                                    None => None,
                                }
                            } else if s[q4] == '}' {
                                Some((seq![(k, v)], q4 + 1))
                            } else {
                                None
                            }
                        },
                        None => None,
                    }
                } else {
                    None
                }
            },
            None => None,
        }
    } else {
        None
    }
}

/// Elements of an array, starting just after `[` (`first`) or after a
/// `,`. Yields the elements and the index just after the closing `]`;
/// only an array's first position may hold the closing bracket directly.
pub open spec fn sp_arr_items(s: Seq<char>, pos: int, first: bool) -> Option<(Seq<JsonM>, int)>
    decreases s.len() - pos, 3int,
{
    let p = ws_end(s, pos);
    if !(pos <= p && p < s.len()) {
        None
    } else if s[p] == ']' {
        if first {
            Some((Seq::empty(), p + 1))
        } else {
            None
        }
    } else {
        match sp_value(s, pos) {
            Some((v, q)) => {
                let q2 = ws_end(s, q);
                if !(pos < q && q <= q2 && q2 < s.len()) {
                    None
                } else if s[q2] == ',' {
                    match sp_arr_items(s, q2 + 1, false) {
                        Some((rest, q3)) => Some((seq![v] + rest, q3)),
                        None => None,
                    }
                } else if s[q2] == ']' {
                    Some((seq![v], q2 + 1))
                } else {
                    None
                }
            },
            None => None,
        }
    }
}

pub proof fn lemma_ws_end(s: Seq<char>, pos: int)
    requires
        0 <= pos <= s.len(),
    ensures
        pos <= ws_end(s, pos) <= s.len(),
        ws_end(s, pos) < s.len() ==> !is_ws(s[ws_end(s, pos)]),
    decreases s.len() - pos,
{
    if pos < s.len() && is_ws(s[pos]) {
        lemma_ws_end(s, pos + 1);
    }
}

pub proof fn lemma_digits_end(s: Seq<char>, pos: int)
    requires
        0 <= pos <= s.len(),
    ensures
        pos <= digits_end(s, pos) <= s.len(),
        forall|j: int| pos <= j < digits_end(s, pos) ==> is_digit(s[j]),
    decreases s.len() - pos,
{
    if pos < s.len() && is_digit(s[pos]) {
        lemma_digits_end(s, pos + 1);
    }
}

pub proof fn lemma_sp_string(s: Seq<char>, pos: int)
    requires
        0 <= pos <= s.len(),
    ensures
        sp_string(s, pos) matches Some((t, q)) ==> pos < q <= s.len(),
    decreases s.len() - pos,
{
    if pos < s.len() && s[pos] != '"' {
        if s[pos] == '\\' {
            if pos + 1 < s.len() {
                if s[pos + 1] == 'u' {
                    if pos + 6 <= s.len() {
                        lemma_sp_string(s, pos + 6);
                    }
                    if pos + 12 <= s.len() {
                        lemma_sp_string(s, pos + 12);
                    }
                } else {
                    lemma_sp_string(s, pos + 2);
                }
            }
        } else {
            lemma_sp_string(s, pos + 1);
        }
    }
}

pub proof fn lemma_sp_number(s: Seq<char>, pos: int)
    requires
        0 <= pos <= s.len(),
    ensures
        sp_number(s, pos) matches Some((v, q)) ==> pos < q <= s.len(),
{
    let d0 = if pos < s.len() && s[pos] == '-' {
        pos + 1
    } else {
        pos
    };
    lemma_digits_end(s, d0);
    let de = digits_end(s, d0);
    if de > d0 {
        if de < s.len() && s[de] == '.' {
            lemma_digits_end(s, de + 1);
        }
        let fe = if de < s.len() && s[de] == '.' {
            let f = digits_end(s, de + 1);
            if f == de + 1 {
                -1
            } else {
                f
            }
        } else {
            de
        };
        if fe >= 0 {
            if fe < s.len() && (s[fe] == 'e' || s[fe] == 'E') {
                let es = if fe + 1 < s.len() && (s[fe + 1] == '+' || s[fe + 1] == '-') {
                    fe + 2
                } else {
                    fe + 1
                };
                lemma_digits_end(s, es);
            }
        }
    }
}

pub proof fn lemma_sp_value(s: Seq<char>, pos: int)
    requires
        0 <= pos <= s.len(),
    ensures
        sp_value(s, pos) matches Some((v, q)) ==> pos < q <= s.len(),
    decreases s.len() - pos, 2int,
{
    let p = ws_end(s, pos);
    lemma_ws_end(s, pos);
    if pos <= p && p < s.len() {
        let c = s[p];
        if c == '{' {
            lemma_sp_obj_items(s, p + 1, true);
        } else if c == '[' {
            lemma_sp_arr_items(s, p + 1, true);
        } else if c == '"' {
            lemma_sp_string(s, p + 1);
        } else if c == '-' || is_digit(c) {
            lemma_sp_number(s, p);
        }
    }
}

pub proof fn lemma_sp_obj_items(s: Seq<char>, pos: int, first: bool)
    requires
        0 <= pos <= s.len(),
    ensures
        sp_obj_items(s, pos, first) matches Some((items, q)) ==> pos < q <= s.len(),
    decreases s.len() - pos, 3int,
{
    let p = ws_end(s, pos);
    lemma_ws_end(s, pos);
    if pos <= p && p < s.len() && s[p] != '}' && s[p] == '"' {
        lemma_sp_string(s, p + 1);
        match sp_string(s, p + 1) {
            Some((k, q1)) => {
                let q2 = ws_end(s, q1);
                lemma_ws_end(s, q1);
                if pos < q1 && q1 <= q2 && q2 < s.len() && s[q2] == ':' {
                    lemma_sp_value(s, q2 + 1);
                    match sp_value(s, q2 + 1) {
                        Some((v, q3)) => {
                            let q4 = ws_end(s, q3);
                            lemma_ws_end(s, q3);
                            if pos < q3 && q3 <= q4 && q4 < s.len() && s[q4] == ',' {
                                lemma_sp_obj_items(s, q4 + 1, false);
                            }
                        },
                        None => {},
                    }
                }
            },
            None => {},
        }
    }
}

pub proof fn lemma_sp_arr_items(s: Seq<char>, pos: int, first: bool)
    requires
        0 <= pos <= s.len(),
    ensures
        sp_arr_items(s, pos, first) matches Some((items, q)) ==> pos < q <= s.len(),
    decreases s.len() - pos, 3int,
{
    let p = ws_end(s, pos);
    lemma_ws_end(s, pos);
    if pos <= p && p < s.len() && s[p] != ']' {
        lemma_sp_value(s, pos);
        match sp_value(s, pos) {
            Some((v, q)) => {
                let q2 = ws_end(s, q);
                lemma_ws_end(s, q);
                if pos < q && q <= q2 && q2 < s.len() && s[q2] == ',' {
                    lemma_sp_arr_items(s, q2 + 1, false);
                }
            },
            None => {},
        }
    }
}

/// The JSON document denoted by a whole text: one value, surrounded only
/// by whitespace.
pub open spec fn sp_json(s: Seq<char>) -> Option<JsonM> {
    match sp_value(s, 0) {
        Some((v, q)) => {
            if ws_end(s, q) == s.len() {
                Some(v)
            } else {
                None
            }
        },
        None => None,
    }
}

pub open spec fn pow10(n: nat) -> int
    decreases n,
{
    if n == 0 {
        1
    } else {
        10 * pow10((n - 1) as nat)
    }
}

pub proof fn lemma_pow10_pos(n: nat)
    ensures
        pow10(n) >= 1,
    decreases n,
{
    if n > 0 {
        lemma_pow10_pos((n - 1) as nat);
    }
}

pub proof fn lemma_pow10_mono(m: nat, n: nat)
    requires
        m <= n,
    ensures
        pow10(m) <= pow10(n),
        pow10(m) >= 1,
    decreases n,
{
    lemma_pow10_pos(m);
    if m < n {
        lemma_pow10_mono(m, (n - 1) as nat);
    }
}

pub proof fn lemma_digits_val_bound(s: Seq<char>, a: int, b: int)
    requires
        0 <= a <= b <= s.len(),
        forall|j: int| a <= j < b ==> is_digit(s[j]),
    ensures
        0 <= digits_val(s, a, b) < pow10((b - a) as nat),
    decreases b - a,
{
    if a < b {
        lemma_digits_val_bound(s, a, b - 1);
        assert(is_digit(s[b - 1]));
        assert(48 <= s[b - 1] as int <= 57);
        assert(pow10((b - a) as nat) == 10 * pow10((b - a - 1) as nat));
    }
}

fn ws_char(c: char) -> (r: bool)
    ensures
        r == is_ws(c),
{
    c == ' ' || c == '\t' || c == '\n' || c == '\r'
}

fn digit_char(c: char) -> (r: bool)
    ensures
        r == is_digit(c),
{
    '0' <= c && c <= '9'
}

fn x_ws_end(s: &str, len: usize, pos: usize) -> (r: usize)
    requires
        len == s@.len(),
        pos <= len,
    ensures
        r as int == ws_end(s@, pos as int),
        pos <= r <= len,
{
    let mut p = pos;
    while p < len && ws_char(s.get_char(p))
        invariant
            len == s@.len(),
            pos <= p <= len,
            ws_end(s@, pos as int) == ws_end(s@, p as int),
        decreases len - p,
    {
        p += 1;
    }
    p
}

fn x_digits_end(s: &str, len: usize, pos: usize) -> (r: usize)
    requires
        len == s@.len(),
        pos <= len,
    ensures
        r as int == digits_end(s@, pos as int),
        pos <= r <= len,
{
    let mut p = pos;
    while p < len && digit_char(s.get_char(p))
        invariant
            len == s@.len(),
            pos <= p <= len,
            digits_end(s@, pos as int) == digits_end(s@, p as int),
        decreases len - p,
    {
        p += 1;
    }
    p
}

fn x_string(s: &str, len: usize, pos: usize) -> (r: Option<(String, usize)>)
    requires
        len == s@.len(),
        pos <= len,
    ensures
        (match (r, sp_string(s@, pos as int)) {
            (Some((t, q)), Some((tm, qm))) => t@ == tm && q as int == qm && pos < q <= len,
            (None, None) => true,
            _ => false,
        }),
    decreases len - pos,
{
    proof {
        lemma_sp_string(s@, pos as int);
    }
    if pos >= len {
        return None;
    }
    let c = s.get_char(pos);
    if c == '"' {
        return Some((String::new(), pos + 1));
    }
    if c == '\\' {
        if pos + 1 >= len {
            return None;
        }
        let e = s.get_char(pos + 1);
        if e == 'u' {
            if len - pos < 6 {
                return None;
            }
            let a = match hex_digit(s.get_char(pos + 2)) {
                Some(x) => x,
                None => {
                    return None;
                },
            };
            let b = match hex_digit(s.get_char(pos + 3)) {
                Some(x) => x,
                None => {
                    return None;
                },
            };
            let c2 = match hex_digit(s.get_char(pos + 4)) {
                Some(x) => x,
                None => {
                    return None;
                },
            };
            let d = match hex_digit(s.get_char(pos + 5)) {
                Some(x) => x,
                None => {
                    return None;
                },
            };
            let v: u32 = (a as u32) * 4096 + (b as u32) * 256 + (c2 as u32) * 16 + (d as u32);
            match char_from_u32(v) {
                Some(ch) => {
                    return match x_string(s, len, pos + 6) {
                        Some((rest, q)) => {
                            let mut out = String::new();
                            push_char(&mut out, ch);
                            out.append(rest.as_str());
                            proof {
                                assert(out@ =~= seq![ch] + rest@);
                            }
                            Some((out, q))
                        },
                        None => None,
                    };
                },
                None => {},
            }
            // Not a scalar: only a surrogate pair can follow.
            if !(0xD800 <= v && v <= 0xDBFF) {
                return None;
            }
            if len - pos < 12 {
                return None;
            }
            if s.get_char(pos + 6) != '\\' || s.get_char(pos + 7) != 'u' {
                return None;
            }
            let e2 = match hex_digit(s.get_char(pos + 8)) {
                Some(x) => x,
                None => {
                    return None;
                },
            };
            let f2 = match hex_digit(s.get_char(pos + 9)) {
                Some(x) => x,
                None => {
                    return None;
                },
            };
            let g2 = match hex_digit(s.get_char(pos + 10)) {
                Some(x) => x,
                None => {
                    return None;
                },
            };
            let h2 = match hex_digit(s.get_char(pos + 11)) {
                Some(x) => x,
                None => {
                    return None;
                },
            };
            let w: u32 = (e2 as u32) * 4096 + (f2 as u32) * 256 + (g2 as u32) * 16 + (h2 as u32);
            if !(0xDC00 <= w && w <= 0xDFFF) {
                return None;
            }
            let combined: u32 = 0x10000 + (v - 0xD800) * 0x400 + (w - 0xDC00);
            proof {
                assert(vstd::utf8::is_scalar(combined));
            }
            let ch = match char_from_u32(combined) {
                Some(ch) => ch,
                None => {
                    proof {
                        assert(false);
                    }
                    return None;
                },
            };
            return match x_string(s, len, pos + 12) {
                Some((rest, q)) => {
                    let mut out = String::new();
                    push_char(&mut out, ch);
                    out.append(rest.as_str());
                    proof {
                        assert(out@ =~= seq![ch] + rest@);
                    }
                    Some((out, q))
                },
                None => None,
            };
        }
        let piece: &str = if e == '"' {
            "\""
        } else if e == '\\' {
            "\\"
        } else if e == '/' {
            "/"
        } else if e == 'b' {
            "\u{8}"
        } else if e == 'f' {
            "\u{c}"
        } else if e == 'n' {
            "\n"
        } else if e == 'r' {
            "\r"
        } else if e == 't' {
            "\t"
        } else {
            return None;
        };
        proof {
            reveal_strlit("\"");
            reveal_strlit("\\");
            reveal_strlit("/");
            reveal_strlit("\u{8}");
            reveal_strlit("\u{c}");
            reveal_strlit("\n");
            reveal_strlit("\r");
            reveal_strlit("\t");
            assert(piece@ =~= seq![escape_char(e)->0]);
        }
        match x_string(s, len, pos + 2) {
            Some((rest, q)) => {
                let mut out = piece.to_owned();
                out.append(rest.as_str());
                proof {
                    assert(out@ =~= seq![escape_char(e)->0] + rest@);
                }
                Some((out, q))
            },
            None => None,
        }
    } else {
        match x_string(s, len, pos + 1) {
            Some((rest, q)) => {
                let piece = s.substring_char(pos, pos + 1);
                let mut out = piece.to_owned();
                out.append(rest.as_str());
                proof {
                    assert(piece@ =~= seq![s@[pos as int]]);
                    assert(out@ =~= seq![s@[pos as int]] + rest@);
                }
                Some((out, q))
            },
            None => None,
        }
    }
}

fn x_number(s: &str, len: usize, pos: usize) -> (r: Option<(Json, usize)>)
    requires
        len == s@.len(),
        pos <= len,
    ensures
        (match (r, sp_number(s@, pos as int)) {
            (Some((j, q)), Some((m, qm))) => json_view(j) == m && q as int == qm && q <= len,
            (None, None) => true,
            _ => false,
        }),
{
    let d0: usize = if pos < len && s.get_char(pos) == '-' {
        pos + 1
    } else {
        pos
    };
    let de = x_digits_end(s, len, d0);
    if de == d0 {
        return None;
    }
    let mut isint = true;
    let mut end = de;
    if de < len && s.get_char(de) == '.' {
        let f = x_digits_end(s, len, de + 1);
        if f == de + 1 {
            return None;
        }
        isint = false;
        end = f;
    }
    if end < len && (s.get_char(end) == 'e' || s.get_char(end) == 'E') {
        let es: usize = if end + 1 < len && (s.get_char(end + 1) == '+' || s.get_char(end + 1)
            == '-') {
            end + 2
        } else {
            end + 1
        };
        let g = x_digits_end(s, len, es);
        if g == es {
            return None;
        }
        isint = false;
        end = g;
    }
    if isint && de - d0 <= 18 {
        proof {
            lemma_digits_end(s@, d0 as int);
            lemma_digits_val_bound(s@, d0 as int, de as int);
            lemma_pow10_mono((de - d0) as nat, 18nat);
            assert(pow10(18nat) == 1000000000000000000int) by {
                reveal_with_fuel(pow10, 19);
            }
        }
        let mut acc: u64 = 0;
        let mut i = d0;
        while i < de
            invariant
                len == s@.len(),
                d0 <= i <= de <= len,
                de - d0 <= 18,
                de as int == digits_end(s@, d0 as int),
                forall|j: int| d0 <= j < de ==> is_digit(s@[j]),
                acc as int == digits_val(s@, d0 as int, i as int),
                (acc as int) < pow10((i - d0) as nat),
                pow10(18nat) == 1000000000000000000int,
            decreases de - i,
        {
            let c = s.get_char(i);
            let d: u64 = (c as u32 as u64) - 48;
            proof {
                lemma_pow10_mono((i - d0) as nat, 17nat);
                assert(pow10(17nat) == 100000000000000000int) by {
                    reveal_with_fuel(pow10, 18);
                }
                assert(pow10((i + 1 - d0) as nat) == 10 * pow10((i - d0) as nat));
            }
            acc = acc * 10 + d;
            i += 1;
        }
        let v: i64 = acc as i64;
        let result: i64 = if d0 > pos {
            -v
        } else {
            v
        };
        Some((Json::Int(result), de))
    } else {
        Some((Json::NumOther, end))
    }
}

fn x_value(s: &str, len: usize, pos: usize) -> (r: Option<(Json, usize)>)
    requires
        len == s@.len(),
        pos <= len,
    ensures
        (match (r, sp_value(s@, pos as int)) {
            (Some((j, q)), Some((m, qm))) => json_view(j) == m && q as int == qm && pos < q <= len,
            (None, None) => true,
            _ => false,
        }),
    decreases len - pos, 2int,
{
    proof {
        lemma_sp_value(s@, pos as int);
    }
    let p = x_ws_end(s, len, pos);
    if p >= len {
        return None;
    }
    let c = s.get_char(p);
    if c == '{' {
        match x_obj_items(s, len, p + 1, true) {
            Some((items, q)) => Some((Json::Obj(items), q)),
            None => None,
        }
    } else if c == '[' {
        match x_arr_items(s, len, p + 1, true) {
            Some((items, q)) => Some((Json::Arr(items), q)),
            None => None,
        }
    } else if c == '"' {
        match x_string(s, len, p + 1) {
            Some((t, q)) => Some((Json::Str(t), q)),
            None => None,
        }
    } else if c == '-' || digit_char(c) {
        x_number(s, len, p)
    } else if len - p >= 4 && c == 't' && s.get_char(p + 1) == 'r' && s.get_char(p + 2) == 'u'
        && s.get_char(p + 3) == 'e' {
        Some((Json::Bool(true), p + 4))
    } else if len - p >= 5 && c == 'f' && s.get_char(p + 1) == 'a' && s.get_char(p + 2) == 'l'
        && s.get_char(p + 3) == 's' && s.get_char(p + 4) == 'e' {
        Some((Json::Bool(false), p + 5))
    } else if len - p >= 4 && c == 'n' && s.get_char(p + 1) == 'u' && s.get_char(p + 2) == 'l'
        && s.get_char(p + 3) == 'l' {
        Some((Json::Null, p + 4))
    } else {
        None
    }
}

fn x_obj_items(s: &str, len: usize, pos: usize, first: bool) -> (r: Option<
    (Vec<(String, Json)>, usize),
>)
    requires
        len == s@.len(),
        pos <= len,
    ensures
        (match (r, sp_obj_items(s@, pos as int, first)) {
            (Some((items, q)), Some((ms, qm))) => obj_view(items@) == ms && q as int == qm && pos
                < q <= len,
            (None, None) => true,
            _ => false,
        }),
    decreases len - pos, 3int,
{
    proof {
        lemma_sp_obj_items(s@, pos as int, first);
    }
    let p = x_ws_end(s, len, pos);
    if p >= len {
        return None;
    }
    let c = s.get_char(p);
    if c == '}' {
        if first {
            let items: Vec<(String, Json)> = Vec::new();
            proof {
                assert(obj_view(items@) =~= Seq::<(Seq<char>, JsonM)>::empty());
            }
            return Some((items, p + 1));
        }
        return None;
    }
    if c != '"' {
        return None;
    }
    proof {
        lemma_sp_string(s@, p as int + 1);
    }
    let (k, q1) = match x_string(s, len, p + 1) {
        Some(x) => x,
        None => {
            return None;
        },
    };
    let q2 = x_ws_end(s, len, q1);
    if q2 >= len {
        return None;
    }
    if s.get_char(q2) != ':' {
        return None;
    }
    let (v, q3) = match x_value(s, len, q2 + 1) {
        Some(x) => x,
        None => {
            return None;
        },
    };
    let q4 = x_ws_end(s, len, q3);
    if q4 >= len {
        return None;
    }
    let d = s.get_char(q4);
    if d == ',' {
        match x_obj_items(s, len, q4 + 1, false) {
            Some((rest, q5)) => {
                let ghost restm = rest@;
                let mut items = rest;
                items.insert(0, (k, v));
                proof {
                    assert(items@.drop_first() =~= restm);
                    assert(items@[0] == (k, v));
                    assert(obj_view(items@) == seq![(k@, json_view(v))] + obj_view(restm));
                }
                Some((items, q5))
            },
            None => None,
        }
    } else if d == '}' {
        let mut items: Vec<(String, Json)> = Vec::new();
        items.push((k, v));
        proof {
            assert(items@[0] == (k, v));
            assert(items@.drop_first() =~= Seq::<(String, Json)>::empty());
            assert(obj_view(items@.drop_first()) =~= Seq::<(Seq<char>, JsonM)>::empty());
            assert(obj_view(items@) =~= seq![(k@, json_view(v))]);
        }
        Some((items, q4 + 1))
    } else {
        None
    }
}

fn x_arr_items(s: &str, len: usize, pos: usize, first: bool) -> (r: Option<(Vec<Json>, usize)>)
    requires
        len == s@.len(),
        pos <= len,
    ensures
        (match (r, sp_arr_items(s@, pos as int, first)) {
            (Some((items, q)), Some((ms, qm))) => arr_view(items@) == ms && q as int == qm && pos
                < q <= len,
            (None, None) => true,
            _ => false,
        }),
    decreases len - pos, 3int,
{
    proof {
        lemma_sp_arr_items(s@, pos as int, first);
    }
    let p = x_ws_end(s, len, pos);
    if p >= len {
        return None;
    }
    if s.get_char(p) == ']' {
        if first {
            let items: Vec<Json> = Vec::new();
            proof {
                assert(arr_view(items@) =~= Seq::<JsonM>::empty());
            }
            return Some((items, p + 1));
        }
        return None;
    }
    let (v, q) = match x_value(s, len, pos) {
        Some(x) => x,
        None => {
            return None;
        },
    };
    let q2 = x_ws_end(s, len, q);
    if q2 >= len {
        return None;
    }
    let d = s.get_char(q2);
    if d == ',' {
        match x_arr_items(s, len, q2 + 1, false) {
            Some((rest, q3)) => {
                let ghost restm = rest@;
                let mut items = rest;
                items.insert(0, v);
                proof {
                    assert(items@.drop_first() =~= restm);
                    assert(items@[0] == v);
                    assert(arr_view(items@) == seq![json_view(v)] + arr_view(restm));
                }
                Some((items, q3))
            },
            None => None,
        }
    } else if d == ']' {
        let mut items: Vec<Json> = Vec::new();
        items.push(v);
        proof {
            assert(items@[0] == v);
            assert(items@.drop_first() =~= Seq::<Json>::empty());
            assert(arr_view(items@.drop_first()) =~= Seq::<JsonM>::empty());
            assert(arr_view(items@) =~= seq![json_view(v)]);
        }
        Some((items, q2 + 1))
    } else {
        None
    }
}

/// Parse a whole JSON text into the crate's JSON tree; `None` exactly
/// when the text does not satisfy the grammar `sp_json`.
pub fn parse_json(s: &str) -> (r: Option<Json>)
    ensures
        (match (r, sp_json(s@)) {
            (Some(j), Some(m)) => json_view(j) == m,
            (None, None) => true,
            _ => false,
        }),
{
    let len = s.unicode_len();
    match x_value(s, len, 0) {
        Some((j, q)) => {
            let e = x_ws_end(s, len, q);
            if e == len {
                Some(j)
            } else {
                None
            }
        },
        None => None,
    }
}

} // verus!
