//! A small JSON reader, specified and verified from the grammar up, used to
//! decode WebAuthn client-data objects.
//!
//! The spec functions define a deterministic recursive-descent parse over a
//! character sequence: each takes a position and yields the position after
//! the construct (and, for strings, the decoded contents), or `None` on a
//! syntax error. The executable functions mirror them one-to-one. Nesting is
//! bounded by an explicit depth budget, as stream decoders usually bound it.

use vstd::prelude::*;

verus! {

/// Nesting depth budget for values inside the top-level object.
pub const JSON_MAX_DEPTH: usize = 128;

/// JSON insignificant whitespace.
pub open spec fn is_json_ws(c: char) -> bool {
    c == ' ' || c == '\t' || c == '\n' || c == '\r'
}

/// An ASCII decimal digit.
pub open spec fn is_json_digit(c: char) -> bool {
    48 <= c as u32 <= 57
}

/// The value of a hexadecimal digit character, if it is one.
pub open spec fn hex_char_value(c: char) -> Option<u32> {
    let u = c as u32;
    if 48 <= u <= 57 {
        Some((u - 48) as u32)
    } else if 65 <= u <= 70 {
        Some((u - 55) as u32)
    } else if 97 <= u <= 102 {
        Some((u - 87) as u32)
    } else {
        None
    }
}

/// The position of the first non-whitespace character at or after `pos`.
pub open spec fn ws_end(s: Seq<char>, pos: int) -> int
    decreases s.len() - pos,
    when 0 <= pos <= s.len()
{
    if pos < s.len() && is_json_ws(s[pos]) {
        ws_end(s, pos + 1)
    } else {
        pos
    }
}

pub proof fn lemma_ws_end_bounds(s: Seq<char>, pos: int)
    requires
        0 <= pos <= s.len(),
    ensures
        pos <= ws_end(s, pos) <= s.len(),
    decreases s.len() - pos,
{
    if pos < s.len() && is_json_ws(s[pos]) {
        lemma_ws_end_bounds(s, pos + 1);
    }
}

/// The position after a run of decimal digits starting at `pos`.
pub open spec fn digits_end(s: Seq<char>, pos: int) -> int
    decreases s.len() - pos,
    when 0 <= pos <= s.len()
{
    if pos < s.len() && is_json_digit(s[pos]) {
        digits_end(s, pos + 1)
    } else {
        pos
    }
}

pub proof fn lemma_digits_end_bounds(s: Seq<char>, pos: int)
    requires
        0 <= pos <= s.len(),
    ensures
        pos <= digits_end(s, pos) <= s.len(),
    decreases s.len() - pos,
{
    if pos < s.len() && is_json_digit(s[pos]) {
        lemma_digits_end_bounds(s, pos + 1);
    }
}

/// The value of four hexadecimal digit characters at `pos`, if they are such.
pub open spec fn hex4_value(s: Seq<char>, pos: int) -> Option<u32>
    recommends
        0 <= pos,
        pos + 4 <= s.len(),
{
    let h0 = hex_char_value(s[pos]);
    let h1 = hex_char_value(s[pos + 1]);
    let h2 = hex_char_value(s[pos + 2]);
    let h3 = hex_char_value(s[pos + 3]);
    if h0 is Some && h1 is Some && h2 is Some && h3 is Some {
        Some((h0.unwrap() * 0x1000 + h1.unwrap() * 0x100 + h2.unwrap() * 0x10 + h3.unwrap()) as u32)
    } else {
        None
    }
}

/// One step of string-body decoding: the decoded contents from `pos` (inside
/// the quotes) appended to `acc`, with the position after the closing quote.
///
/// Escapes follow RFC 8259: the short escapes, and `\uXXXX` with surrogate
/// pairs combined and lone surrogates rejected. Unescaped control characters
/// are rejected.
pub open spec fn string_body_at(s: Seq<char>, pos: int, acc: Seq<char>) -> Option<(Seq<char>, int)>
    decreases s.len() - pos,
    when 0 <= pos <= s.len()
{
    if pos >= s.len() {
        None
    } else if s[pos] == '"' {
        Some((acc, pos + 1))
    } else if s[pos] == '\\' {
        if pos + 1 >= s.len() {
            None
        } else {
            let e = s[pos + 1];
            if e == '"' {
                string_body_at(s, pos + 2, acc.push('"'))
            } else if e == '\\' {
                string_body_at(s, pos + 2, acc.push('\\'))
            } else if e == '/' {
                string_body_at(s, pos + 2, acc.push('/'))
            } else if e == 'b' {
                string_body_at(s, pos + 2, acc.push('\u{8}'))
            } else if e == 'f' {
                string_body_at(s, pos + 2, acc.push('\u{c}'))
            } else if e == 'n' {
                string_body_at(s, pos + 2, acc.push('\n'))
            } else if e == 'r' {
                string_body_at(s, pos + 2, acc.push('\r'))
            } else if e == 't' {
                string_body_at(s, pos + 2, acc.push('\t'))
            } else if e == 'u' {
                if pos + 6 > s.len() {
                    None
                } else {
                    match hex4_value(s, pos + 2) {
                        None => None,
                        Some(cu) => if 0xD800 <= cu < 0xDC00 {
                            if pos + 12 > s.len() || s[pos + 6] != '\\' || s[pos + 7] != 'u' {
                                None
                            } else {
                                match hex4_value(s, pos + 8) {
                                    None => None,
                                    Some(cu2) => if 0xDC00 <= cu2 < 0xE000 {
                                        let cp = 0x10000 + (cu - 0xD800) * 0x400 + (cu2 - 0xDC00);
                                        string_body_at(s, pos + 12, acc.push(cp as u32 as char))
                                    } else {
                                        None
                                    },
                                }
                            }
                        } else if 0xDC00 <= cu < 0xE000 {
                            None
                        } else {
                            string_body_at(s, pos + 6, acc.push(cu as char))
                        },
                    }
                }
            } else {
                None
            }
        }
    } else if (s[pos] as u32) < 0x20 {
        None
    } else {
        string_body_at(s, pos + 1, acc.push(s[pos]))
    }
}

/// A JSON string starting at `pos` (at its opening quote): its decoded
/// contents and the position after the closing quote.
pub open spec fn string_at(s: Seq<char>, pos: int) -> Option<(Seq<char>, int)> {
    if 0 <= pos < s.len() && s[pos] == '"' {
        string_body_at(s, pos + 1, Seq::empty())
    } else {
        None
    }
}

proof fn lemma_string_body_at_bounds(s: Seq<char>, pos: int, acc: Seq<char>)
    requires
        0 <= pos <= s.len(),
    ensures
        string_body_at(s, pos, acc) matches Some(r) ==> pos < r.1 <= s.len(),
    decreases s.len() - pos,
{
    if pos >= s.len() {
    } else if s[pos] == '"' {
    } else if s[pos] == '\\' {
        if pos + 1 < s.len() {
            let e = s[pos + 1];
            if e == 'u' {
                if pos + 6 <= s.len() {
                    match hex4_value(s, pos + 2) {
                        None => {},
                        Some(cu) => if 0xD800 <= cu < 0xDC00 {
                            if !(pos + 12 > s.len() || s[pos + 6] != '\\' || s[pos + 7] != 'u') {
                                match hex4_value(s, pos + 8) {
                                    None => {},
                                    Some(cu2) => if 0xDC00 <= cu2 < 0xE000 {
                                        let cp = 0x10000 + (cu - 0xD800) * 0x400 + (cu2 - 0xDC00);
                                        lemma_string_body_at_bounds(
                                            s,
                                            pos + 12,
                                            acc.push(cp as u32 as char),
                                        );
                                    } else {
                                    },
                                }
                            }
                        } else if 0xDC00 <= cu < 0xE000 {
                        } else {
                            lemma_string_body_at_bounds(s, pos + 6, acc.push(cu as char));
                        },
                    }
                }
            } else {
                lemma_string_body_at_bounds(s, pos + 2, acc.push(e));
                lemma_string_body_at_bounds(s, pos + 2, acc.push('"'));
                lemma_string_body_at_bounds(s, pos + 2, acc.push('\\'));
                lemma_string_body_at_bounds(s, pos + 2, acc.push('/'));
                lemma_string_body_at_bounds(s, pos + 2, acc.push('\u{8}'));
                lemma_string_body_at_bounds(s, pos + 2, acc.push('\u{c}'));
                lemma_string_body_at_bounds(s, pos + 2, acc.push('\n'));
                lemma_string_body_at_bounds(s, pos + 2, acc.push('\r'));
                lemma_string_body_at_bounds(s, pos + 2, acc.push('\t'));
            }
        }
    } else if (s[pos] as u32) < 0x20 {
    } else {
        lemma_string_body_at_bounds(s, pos + 1, acc.push(s[pos]));
    }
}

pub proof fn lemma_string_at_bounds(s: Seq<char>, pos: int)
    ensures
        string_at(s, pos) matches Some(r) ==> pos < r.1 <= s.len(),
{
    if 0 <= pos < s.len() && s[pos] == '"' {
        lemma_string_body_at_bounds(s, pos + 1, Seq::empty());
    }
}

/// The position after a JSON number starting at `pos`, if one is there.
/// Only the shape is checked; the numeric value is not interpreted.
pub open spec fn number_end(s: Seq<char>, pos: int) -> Option<int>
    recommends
        0 <= pos <= s.len(),
{
    let p1 = if pos < s.len() && s[pos] == '-' {
        pos + 1
    } else {
        pos
    };
    if !(p1 < s.len() && is_json_digit(s[p1])) {
        None
    } else {
        let p2 = if s[p1] == '0' {
            p1 + 1
        } else {
            digits_end(s, p1)
        };
        let p3 = if p2 < s.len() && s[p2] == '.' {
            if p2 + 1 < s.len() && is_json_digit(s[p2 + 1]) {
                digits_end(s, p2 + 1)
            } else {
                -1
            }
        } else {
            p2
        };
        if p3 < 0 {
            None
        } else {
            let p4 = if p3 < s.len() && (s[p3] == 'e' || s[p3] == 'E') {
                let p3a = if p3 + 1 < s.len() && (s[p3 + 1] == '+' || s[p3 + 1] == '-') {
                    p3 + 2
                } else {
                    p3 + 1
                };
                if p3a < s.len() && is_json_digit(s[p3a]) {
                    digits_end(s, p3a)
                } else {
                    -1
                }
            } else {
                p3
            };
            if p4 < 0 {
                None
            } else {
                Some(p4)
            }
        }
    }
}

pub proof fn lemma_number_end_bounds(s: Seq<char>, pos: int)
    requires
        0 <= pos <= s.len(),
    ensures
        number_end(s, pos) matches Some(p) ==> pos < p <= s.len(),
{
    let p1 = if pos < s.len() && s[pos] == '-' {
        pos + 1
    } else {
        pos
    };
    if p1 < s.len() && is_json_digit(s[p1]) {
        lemma_digits_end_bounds(s, p1);
        lemma_digits_end_bounds(s, p1 + 1);
        let p2 = if s[p1] == '0' {
            p1 + 1
        } else {
            digits_end(s, p1)
        };
        if p2 < s.len() && s[p2] == '.' && p2 + 1 < s.len() && is_json_digit(s[p2 + 1]) {
            lemma_digits_end_bounds(s, p2 + 1);
        }
        let p3 = if p2 < s.len() && s[p2] == '.' {
            if p2 + 1 < s.len() && is_json_digit(s[p2 + 1]) {
                digits_end(s, p2 + 1)
            } else {
                -1
            }
        } else {
            p2
        };
        if 0 <= p3 <= s.len() && p3 < s.len() && (s[p3] == 'e' || s[p3] == 'E') {
            let p3a = if p3 + 1 < s.len() && (s[p3 + 1] == '+' || s[p3 + 1] == '-') {
                p3 + 2
            } else {
                p3 + 1
            };
            if p3a < s.len() && is_json_digit(s[p3a]) {
                lemma_digits_end_bounds(s, p3a);
            }
        }
    }
}

/// The position after the literal word `w` at `pos`, if it is there.
pub open spec fn literal_end(s: Seq<char>, pos: int, w: Seq<char>) -> Option<int>
    recommends
        0 <= pos <= s.len(),
{
    if pos + w.len() <= s.len() && s.subrange(pos, pos + w.len() as int) == w {
        Some(pos + w.len() as int)
    } else {
        None
    }
}

pub proof fn lemma_literal_end_bounds(s: Seq<char>, pos: int, w: Seq<char>)
    requires
        0 <= pos <= s.len(),
        w.len() > 0,
    ensures
        literal_end(s, pos, w) matches Some(p) ==> pos < p <= s.len(),
{
}

/// The position after the JSON value starting at `pos`, decoding nothing.
/// `depth` bounds how deeply objects and arrays may nest.
pub open spec fn value_end(s: Seq<char>, pos: int, depth: int) -> Option<int>
    decreases s.len() - pos, 0int,
    when 0 <= pos <= s.len()
{
    if pos >= s.len() {
        None
    } else {
        let c = s[pos];
        if c == '"' {
            match string_at(s, pos) {
                Some(r) => Some(r.1),
                None => None,
            }
        } else if c == 't' {
            literal_end(s, pos, "true"@)
        } else if c == 'f' {
            literal_end(s, pos, "false"@)
        } else if c == 'n' {
            literal_end(s, pos, "null"@)
        } else if c == '-' || is_json_digit(c) {
            number_end(s, pos)
        } else if c == '{' {
            if depth <= 0 {
                None
            } else {
                let p = ws_end(s, pos + 1);
                if !(pos < p <= s.len()) {
                    None  // unreachable: whitespace skipping stays in bounds
                } else if p < s.len() && s[p] == '}' {
                    Some(p + 1)
                } else {
                    members_end(s, p, depth - 1)
                }
            }
        } else if c == '[' {
            if depth <= 0 {
                None
            } else {
                let p = ws_end(s, pos + 1);
                if !(pos < p <= s.len()) {
                    None  // unreachable: whitespace skipping stays in bounds
                } else if p < s.len() && s[p] == ']' {
                    Some(p + 1)
                } else {
                    elements_end(s, p, depth - 1)
                }
            }
        } else {
            None
        }
    }
}

/// The position after the remaining members of an object, starting at the
/// first character of a member key, up to and including the closing brace.
pub open spec fn members_end(s: Seq<char>, pos: int, depth: int) -> Option<int>
    decreases s.len() - pos, 1int,
    when 0 <= pos <= s.len()
{
    match string_at(s, pos) {
        None => None,
        Some(k) => {
            let p2 = ws_end(s, k.1);
            if !(p2 < s.len() && s[p2] == ':') {
                None
            } else {
                let p3 = ws_end(s, p2 + 1);
                if !(pos <= p3 <= s.len()) {
                    None  // unreachable: parsing only moves forward
                } else {
                    match value_end(s, p3, depth) {
                        None => None,
                        Some(p4) => if !(p3 < p4 <= s.len()) {
                            None  // unreachable: a value is never empty
                        } else {
                            let p5 = ws_end(s, p4);
                            if p5 < s.len() && s[p5] == '}' {
                                Some(p5 + 1)
                            } else if p5 < s.len() && s[p5] == ',' {
                                let p6 = ws_end(s, p5 + 1);
                                if !(pos < p6 <= s.len()) {
                                    None  // unreachable: parsing only moves forward
                                } else {
                                    members_end(s, p6, depth)
                                }
                            } else {
                                None
                            }
                        },
                    }
                }
            }
        },
    }
}

/// The position after the remaining elements of an array, starting at the
/// first character of an element, up to and including the closing bracket.
pub open spec fn elements_end(s: Seq<char>, pos: int, depth: int) -> Option<int>
    decreases s.len() - pos, 1int,
    when 0 <= pos <= s.len()
{
    match value_end(s, pos, depth) {
        None => None,
        Some(p1) => if !(pos < p1 <= s.len()) {
            None  // unreachable: a value is never empty
        } else {
            let p2 = ws_end(s, p1);
            if p2 < s.len() && s[p2] == ']' {
                Some(p2 + 1)
            } else if p2 < s.len() && s[p2] == ',' {
                let p3 = ws_end(s, p2 + 1);
                if !(pos < p3 <= s.len()) {
                    None  // unreachable: parsing only moves forward
                } else {
                    elements_end(s, p3, depth)
                }
            } else {
                None
            }
        },
    }
}

/// Every successful parse of a value lands strictly beyond its start and
/// within the input.
pub proof fn lemma_value_end_bounds(s: Seq<char>, pos: int, depth: int)
    requires
        0 <= pos <= s.len(),
    ensures
        value_end(s, pos, depth) matches Some(p) ==> pos < p <= s.len(),
    decreases s.len() - pos, 0int,
{
    if pos < s.len() {
        let c = s[pos];
        if c == '"' {
            lemma_string_at_bounds(s, pos);
        }
        if c == 't' || c == 'f' || c == 'n' {
            reveal_strlit("true");
            reveal_strlit("false");
            reveal_strlit("null");
            lemma_literal_end_bounds(s, pos, "true"@);
            lemma_literal_end_bounds(s, pos, "false"@);
            lemma_literal_end_bounds(s, pos, "null"@);
        }
        if c == '-' || is_json_digit(c) {
            lemma_number_end_bounds(s, pos);
        }
        if c == '{' && depth > 0 {
            let p = ws_end(s, pos + 1);
            if pos < p <= s.len() {
                if !(p < s.len() && s[p] == '}') {
                    lemma_members_end_bounds(s, p, depth - 1);
                }
            }
        }
        if c == '[' && depth > 0 {
            let p = ws_end(s, pos + 1);
            if pos < p <= s.len() {
                if !(p < s.len() && s[p] == ']') {
                    lemma_elements_end_bounds(s, p, depth - 1);
                }
            }
        }
    }
}

pub proof fn lemma_members_end_bounds(s: Seq<char>, pos: int, depth: int)
    requires
        0 <= pos <= s.len(),
    ensures
        members_end(s, pos, depth) matches Some(p) ==> pos < p <= s.len(),
    decreases s.len() - pos, 1int,
{
    match string_at(s, pos) {
        None => {},
        Some(k) => {
            let p2 = ws_end(s, k.1);
            if p2 < s.len() && s[p2] == ':' {
                let p3 = ws_end(s, p2 + 1);
                if pos <= p3 <= s.len() {
                    lemma_value_end_bounds(s, p3, depth);
                    match value_end(s, p3, depth) {
                        None => {},
                        Some(p4) => if p3 < p4 <= s.len() {
                            lemma_ws_end_bounds(s, p4);
                            let p5 = ws_end(s, p4);
                            if p5 < s.len() && s[p5] == ',' {
                                let p6 = ws_end(s, p5 + 1);
                                if pos < p6 <= s.len() {
                                    lemma_members_end_bounds(s, p6, depth);
                                }
                            }
                        } else {
                        },
                    }
                }
            }
        },
    }
}

pub proof fn lemma_elements_end_bounds(s: Seq<char>, pos: int, depth: int)
    requires
        0 <= pos <= s.len(),
    ensures
        elements_end(s, pos, depth) matches Some(p) ==> pos < p <= s.len(),
    decreases s.len() - pos, 1int,
{
    lemma_value_end_bounds(s, pos, depth);
    match value_end(s, pos, depth) {
        None => {},
        Some(p1) => if pos < p1 <= s.len() {
            lemma_ws_end_bounds(s, p1);
            let p2 = ws_end(s, p1);
            if p2 < s.len() && s[p2] == ',' {
                let p3 = ws_end(s, p2 + 1);
                if pos < p3 <= s.len() {
                    lemma_elements_end_bounds(s, p3, depth);
                }
            }
        } else {
        },
    }
}

// ===== executable mirror =====

/// Whether a character is JSON whitespace.
pub fn is_ws_char(c: char) -> (r: bool)
    ensures
        r == is_json_ws(c),
{
    c == ' ' || c == '\t' || c == '\n' || c == '\r'
}

/// Whether a character is an ASCII decimal digit.
pub fn is_digit_char(c: char) -> (r: bool)
    ensures
        r == is_json_digit(c),
{
    let u = c as u32;
    48 <= u && u <= 57
}

/// Skips JSON whitespace from `pos`.
pub fn skip_ws(s: &[char], pos: usize) -> (r: usize)
    requires
        pos <= s@.len(),
    ensures
        r as int == ws_end(s@, pos as int),
        pos <= r <= s@.len(),
{
    let mut p = pos;
    while p < s.len() && is_ws_char(s[p])
        invariant
            pos <= p <= s@.len(),
            ws_end(s@, pos as int) == ws_end(s@, p as int),
        decreases s@.len() - p,
    {
        p = p + 1;
    }
    p
}

/// Skips a run of decimal digits from `pos`.
fn skip_digits(s: &[char], pos: usize) -> (r: usize)
    requires
        pos <= s@.len(),
    ensures
        r as int == digits_end(s@, pos as int),
        pos <= r <= s@.len(),
{
    let mut p = pos;
    while p < s.len() && is_digit_char(s[p])
        invariant
            pos <= p <= s@.len(),
            digits_end(s@, pos as int) == digits_end(s@, p as int),
        decreases s@.len() - p,
    {
        p = p + 1;
    }
    p
}

/// The value of a hexadecimal digit character, if it is one.
fn hex_digit(c: char) -> (r: Option<u32>)
    ensures
        r == hex_char_value(c),
{
    let u = c as u32;
    if 48 <= u && u <= 57 {
        Some(u - 48)
    } else if 65 <= u && u <= 70 {
        Some(u - 55)
    } else if 97 <= u && u <= 102 {
        Some(u - 87)
    } else {
        None
    }
}

/// The value of four hexadecimal digit characters at `pos`, if they are such.
fn hex4(s: &[char], pos: usize) -> (r: Option<u32>)
    requires
        pos + 4 <= s@.len(),
    ensures
        r == hex4_value(s@, pos as int),
{
    let h0 = hex_digit(s[pos]);
    let h1 = hex_digit(s[pos + 1]);
    let h2 = hex_digit(s[pos + 2]);
    let h3 = hex_digit(s[pos + 3]);
    match (h0, h1, h2, h3) {
        (Some(a), Some(b), Some(c), Some(d)) => Some(a * 0x1000 + b * 0x100 + c * 0x10 + d),
        _ => None,
    }
}

/// Parses the JSON string starting at `pos` (at its opening quote),
/// returning its decoded contents and the position after the closing quote.
pub fn parse_string(s: &[char], pos: usize) -> (r: Option<(String, usize)>)
    requires
        pos <= s@.len(),
    ensures
        match r {
            Some(t) => string_at(s@, pos as int) == Some((t.0@, t.1 as int)) && pos < t.1
                <= s@.len(),
            None => string_at(s@, pos as int) is None,
        },
{
    if pos >= s.len() || s[pos] != '"' {
        return None;
    }
    let ghost start: int = pos + 1;
    let mut p = pos + 1;
    let mut acc = String::new();
    while p < s.len()
        invariant
            start == pos + 1,
            pos < s@.len(),
            s@[pos as int] == '"',
            start <= p <= s@.len(),
            string_body_at(s@, start, Seq::empty()) == string_body_at(s@, p as int, acc@),
        decreases s@.len() - p,
    {
        let c = s[p];
        if c == '"' {
            return Some((acc, p + 1));
        } else if c == '\\' {
            if p + 1 >= s.len() {
                return None;
            }
            let e = s[p + 1];
            if e == '"' {
                acc.push('"');
                p = p + 2;
            } else if e == '\\' {
                acc.push('\\');
                p = p + 2;
            } else if e == '/' {
                acc.push('/');
                p = p + 2;
            } else if e == 'b' {
                acc.push('\u{8}');
                p = p + 2;
            } else if e == 'f' {
                acc.push('\u{c}');
                p = p + 2;
            } else if e == 'n' {
                acc.push('\n');
                p = p + 2;
            } else if e == 'r' {
                acc.push('\r');
                p = p + 2;
            } else if e == 't' {
                acc.push('\t');
                p = p + 2;
            } else if e == 'u' {
                if s.len() - p < 6 {
                    return None;
                }
                match hex4(s, p + 2) {
                    None => {
                        return None;
                    },
                    Some(cu) => {
                        if 0xD800 <= cu && cu < 0xDC00 {
                            if s.len() - p < 12 || s[p + 6] != '\\' || s[p + 7] != 'u' {
                                return None;
                            }
                            match hex4(s, p + 8) {
                                None => {
                                    return None;
                                },
                                Some(cu2) => {
                                    if !(0xDC00 <= cu2 && cu2 < 0xE000) {
                                        return None;
                                    }
                                    let cp: u32 = 0x10000 + (cu - 0xD800) * 0x400 + (cu2 - 0xDC00);
                                    match char::from_u32(cp) {
                                        Some(ch) => {
                                            proof {
                                                vstd::utf8::char_u32_cast(ch, cp);
                                            }
                                            acc.push(ch);
                                            p = p + 12;
                                        },
                                        None => {
                                            proof {
                                                assert(false);
                                            }
                                            return None;
                                        },
                                    }
                                },
                            }
                        } else if 0xDC00 <= cu && cu < 0xE000 {
                            return None;
                        } else {
                            match char::from_u32(cu) {
                                Some(ch) => {
                                    proof {
                                        vstd::utf8::char_u32_cast(ch, cu);
                                    }
                                    acc.push(ch);
                                    p = p + 6;
                                },
                                None => {
                                    proof {
                                        assert(false);
                                    }
                                    return None;
                                },
                            }
                        }
                    },
                }
            } else {
                return None;
            }
        } else if (c as u32) < 0x20 {
            return None;
        } else {
            acc.push(c);
            p = p + 1;
        }
    }
    None
}

/// Matches the literal `true` at `pos`.
pub fn literal_true(s: &[char], pos: usize) -> (r: Option<usize>)
    requires
        pos <= s@.len(),
    ensures
        match r {
            Some(p) => literal_end(s@, pos as int, "true"@) == Some(p as int) && pos < p
                <= s@.len(),
            None => literal_end(s@, pos as int, "true"@) is None,
        },
{
    proof {
        reveal_strlit("true");
    }
    if pos < s.len() && s.len() - pos >= 4 && s[pos] == 't' && s[pos + 1] == 'r' && s[pos + 2]
        == 'u' && s[pos + 3] == 'e' {
        proof {
            assert(s@.subrange(pos as int, pos + 4 as int) =~= "true"@);
        }
        Some(pos + 4)
    } else {
        proof {
            if pos + 4 <= s@.len() {
                let w = s@.subrange(pos as int, pos + 4 as int);
                if w == "true"@ {
                    assert(s@[pos as int] == w[0]);
                    assert(s@[pos + 1] == w[1]);
                    assert(s@[pos + 2] == w[2]);
                    assert(s@[pos + 3] == w[3]);
                }
            }
        }
        None
    }
}

/// Matches the literal `false` at `pos`.
pub fn literal_false(s: &[char], pos: usize) -> (r: Option<usize>)
    requires
        pos <= s@.len(),
    ensures
        match r {
            Some(p) => literal_end(s@, pos as int, "false"@) == Some(p as int) && pos < p
                <= s@.len(),
            None => literal_end(s@, pos as int, "false"@) is None,
        },
{
    proof {
        reveal_strlit("false");
    }
    if pos < s.len() && s.len() - pos >= 5 && s[pos] == 'f' && s[pos + 1] == 'a' && s[pos + 2]
        == 'l' && s[pos + 3] == 's' && s[pos + 4] == 'e' {
        proof {
            assert(s@.subrange(pos as int, pos + 5 as int) =~= "false"@);
        }
        Some(pos + 5)
    } else {
        proof {
            if pos + 5 <= s@.len() {
                let w = s@.subrange(pos as int, pos + 5 as int);
                if w == "false"@ {
                    assert(s@[pos as int] == w[0]);
                    assert(s@[pos + 1] == w[1]);
                    assert(s@[pos + 2] == w[2]);
                    assert(s@[pos + 3] == w[3]);
                    assert(s@[pos + 4] == w[4]);
                }
            }
        }
        None
    }
}

/// Matches the literal `null` at `pos`.
pub fn literal_null(s: &[char], pos: usize) -> (r: Option<usize>)
    requires
        pos <= s@.len(),
    ensures
        match r {
            Some(p) => literal_end(s@, pos as int, "null"@) == Some(p as int) && pos < p
                <= s@.len(),
            None => literal_end(s@, pos as int, "null"@) is None,
        },
{
    proof {
        reveal_strlit("null");
    }
    if pos < s.len() && s.len() - pos >= 4 && s[pos] == 'n' && s[pos + 1] == 'u' && s[pos + 2]
        == 'l' && s[pos + 3] == 'l' {
        proof {
            assert(s@.subrange(pos as int, pos + 4 as int) =~= "null"@);
        }
        Some(pos + 4)
    } else {
        proof {
            if pos + 4 <= s@.len() {
                let w = s@.subrange(pos as int, pos + 4 as int);
                if w == "null"@ {
                    assert(s@[pos as int] == w[0]);
                    assert(s@[pos + 1] == w[1]);
                    assert(s@[pos + 2] == w[2]);
                    assert(s@[pos + 3] == w[3]);
                }
            }
        }
        None
    }
}

/// Skips the JSON number starting at `pos`.
fn skip_number(s: &[char], pos: usize) -> (r: Option<usize>)
    requires
        pos <= s@.len(),
    ensures
        match r {
            Some(p) => number_end(s@, pos as int) == Some(p as int) && pos < p <= s@.len(),
            None => number_end(s@, pos as int) is None,
        },
{
    let p1 = if pos < s.len() && s[pos] == '-' {
        pos + 1
    } else {
        pos
    };
    if !(p1 < s.len() && is_digit_char(s[p1])) {
        return None;
    }
    let p2 = if s[p1] == '0' {
        p1 + 1
    } else {
        skip_digits(s, p1)
    };
    proof {
        lemma_digits_end_bounds(s@, p1 + 1);
    }
    let p3 = if p2 < s.len() && s[p2] == '.' {
        if p2 + 1 < s.len() && is_digit_char(s[p2 + 1]) {
            skip_digits(s, p2 + 1)
        } else {
            return None;
        }
    } else {
        p2
    };
    let p4 = if p3 < s.len() && (s[p3] == 'e' || s[p3] == 'E') {
        let p3a = if p3 + 1 < s.len() && (s[p3 + 1] == '+' || s[p3 + 1] == '-') {
            p3 + 2
        } else {
            p3 + 1
        };
        if p3a < s.len() && is_digit_char(s[p3a]) {
            skip_digits(s, p3a)
        } else {
            return None;
        }
    } else {
        p3
    };
    Some(p4)
}

/// Skips the JSON value starting at `pos`, with `depth` bounding nesting.
pub fn skip_value(s: &[char], pos: usize, depth: usize) -> (r: Option<usize>)
    requires
        pos <= s@.len(),
    ensures
        match r {
            Some(p) => value_end(s@, pos as int, depth as int) == Some(p as int) && pos < p
                <= s@.len(),
            None => value_end(s@, pos as int, depth as int) is None,
        },
    decreases depth, 0int,
{
    if pos >= s.len() {
        return None;
    }
    let c = s[pos];
    if c == '"' {
        match parse_string(s, pos) {
            Some(t) => Some(t.1),
            None => None,
        }
    } else if c == 't' {
        literal_true(s, pos)
    } else if c == 'f' {
        literal_false(s, pos)
    } else if c == 'n' {
        literal_null(s, pos)
    } else if c == '-' || is_digit_char(c) {
        skip_number(s, pos)
    } else if c == '{' {
        if depth == 0 {
            return None;
        }
        let p = skip_ws(s, pos + 1);
        if p < s.len() && s[p] == '}' {
            Some(p + 1)
        } else {
            skip_members(s, p, depth - 1)
        }
    } else if c == '[' {
        if depth == 0 {
            return None;
        }
        let p = skip_ws(s, pos + 1);
        if p < s.len() && s[p] == ']' {
            Some(p + 1)
        } else {
            skip_elements(s, p, depth - 1)
        }
    } else {
        None
    }
}

/// Skips the remaining members of an object, from the first character of a
/// member key through the closing brace.
pub fn skip_members(s: &[char], pos: usize, depth: usize) -> (r: Option<usize>)
    requires
        pos <= s@.len(),
    ensures
        match r {
            Some(p) => members_end(s@, pos as int, depth as int) == Some(p as int) && pos < p
                <= s@.len(),
            None => members_end(s@, pos as int, depth as int) is None,
        },
    decreases depth, 1int,
{
    let mut p = pos;
    loop
        invariant
            pos <= p <= s@.len(),
            members_end(s@, pos as int, depth as int) == members_end(s@, p as int, depth as int),
        decreases s@.len() - p,
    {
        match parse_string(s, p) {
            None => {
                return None;
            },
            Some(k) => {
                let p2 = skip_ws(s, k.1);
                if !(p2 < s.len() && s[p2] == ':') {
                    return None;
                }
                let p3 = skip_ws(s, p2 + 1);
                match skip_value(s, p3, depth) {
                    None => {
                        return None;
                    },
                    Some(p4) => {
                        let p5 = skip_ws(s, p4);
                        if p5 < s.len() && s[p5] == '}' {
                            return Some(p5 + 1);
                        } else if p5 < s.len() && s[p5] == ',' {
                            let p6 = skip_ws(s, p5 + 1);
                            p = p6;
                        } else {
                            return None;
                        }
                    },
                }
            },
        }
    }
}

/// Skips the remaining elements of an array, from the first character of an
/// element through the closing bracket.
pub fn skip_elements(s: &[char], pos: usize, depth: usize) -> (r: Option<usize>)
    requires
        pos <= s@.len(),
    ensures
        match r {
            Some(p) => elements_end(s@, pos as int, depth as int) == Some(p as int) && pos < p
                <= s@.len(),
            None => elements_end(s@, pos as int, depth as int) is None,
        },
    decreases depth, 1int,
{
    let mut p = pos;
    loop
        invariant
            pos <= p <= s@.len(),
            elements_end(s@, pos as int, depth as int) == elements_end(s@, p as int, depth as int),
        decreases s@.len() - p,
    {
        match skip_value(s, p, depth) {
            None => {
                return None;
            },
            Some(p1) => {
                let p2 = skip_ws(s, p1);
                if p2 < s.len() && s[p2] == ']' {
                    return Some(p2 + 1);
                } else if p2 < s.len() && s[p2] == ',' {
                    let p3 = skip_ws(s, p2 + 1);
                    p = p3;
                } else {
                    return None;
                }
            },
        }
    }
}

} // verus!
