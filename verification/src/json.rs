//! JSON text primitives shared by the input formats the orchestrator reads:
//! whitespace, strings with the full escape syntax, and arrays of strings.
//!
//! Each `sp_` function is the definition of the format; the executable
//! parsers are proved to return exactly what the `sp_` functions say.

use vstd::prelude::*;
use crate::text::chars_to_string;

verus! {

/// JSON insignificant whitespace.
pub open spec fn is_json_ws(c: char) -> bool {
    c == ' ' || c == '\t' || c == '\n' || c == '\r'
}

/// The first index at or after `i` that does not hold whitespace
/// (or the end of the text).
pub open spec fn ws_end(s: Seq<char>, i: int) -> int
    decreases s.len() - i,
{
    if 0 <= i < s.len() && is_json_ws(s[i]) {
        ws_end(s, i + 1)
    } else {
        i
    }
}

/// Advances past whitespace.
pub fn skip_ws(v: &Vec<char>, i: usize) -> (r: usize)
    requires
        i <= v@.len(),
    ensures
        r == ws_end(v@, i as int),
        i <= r <= v@.len(),
{
    let mut j = i;
    while j < v.len() && (v[j] == ' ' || v[j] == '\t' || v[j] == '\n' || v[j] == '\r')
        invariant
            i <= j <= v@.len(),
            ws_end(v@, i as int) == ws_end(v@, j as int),
        decreases v@.len() - j,
    {
        j += 1;
    }
    j
}

/// True when `c` is a hexadecimal digit.
pub open spec fn is_hex_digit(c: char) -> bool {
    ('0' <= c && c <= '9') || ('a' <= c && c <= 'f') || ('A' <= c && c <= 'F')
}

/// The numeric value of a hexadecimal digit character.
pub open spec fn hex_digit_val(c: char) -> int {
    if '0' <= c && c <= '9' {
        c as int - '0' as int
    } else if 'a' <= c && c <= 'f' {
        c as int - 'a' as int + 10
    } else {
        c as int - 'A' as int + 10
    }
}

/// True when four hexadecimal digits stand at `i`.
pub open spec fn is_hex4(s: Seq<char>, i: int) -> bool {
    &&& 0 <= i
    &&& i + 4 <= s.len()
    &&& is_hex_digit(s[i])
    &&& is_hex_digit(s[i + 1])
    &&& is_hex_digit(s[i + 2])
    &&& is_hex_digit(s[i + 3])
}

/// The value of the four hexadecimal digits at `i`.
pub open spec fn hex4_val(s: Seq<char>, i: int) -> int {
    hex_digit_val(s[i]) * 0x1000 + hex_digit_val(s[i + 1]) * 0x100 + hex_digit_val(s[i + 2]) * 0x10
        + hex_digit_val(s[i + 3])
}

/// A character's Unicode scalar value.
pub open spec fn char_val(c: char) -> int {
    c as int
}

/// The character with Unicode scalar value `n`.
pub open spec fn char_of(n: int) -> char {
    choose|c: char| char_val(c) == n
}

/// True when `n` is a Unicode scalar value, i.e. a `char`'s value.
pub open spec fn is_scalar_value(n: int) -> bool {
    (0 <= n < 0xD800) || (0xE000 <= n < 0x110000)
}

/// Relies on `char::from_u32` in std: it returns `Some` exactly for
/// Unicode scalar values, and the returned character has that value.
#[verifier::external_body]
fn char_from_u32(n: u32) -> (r: Option<char>)
    ensures
        r is Some <==> is_scalar_value(n as int),
        match r {
            Some(c) => char_val(c) == n as int,
            None => true,
        },
{
    char::from_u32(n)
}

fn hex_digit_val_exec(c: char) -> (r: Option<u32>)
    ensures
        r is Some <==> is_hex_digit(c),
        match r {
            Some(n) => n == hex_digit_val(c) && n < 16,
            None => true,
        },
{
    if '0' <= c && c <= '9' {
        Some(c as u32 - '0' as u32)
    } else if 'a' <= c && c <= 'f' {
        Some(c as u32 - 'a' as u32 + 10)
    } else if 'A' <= c && c <= 'F' {
        Some(c as u32 - 'A' as u32 + 10)
    } else {
        None
    }
}

fn hex4_at(v: &Vec<char>, i: usize) -> (r: Option<u32>)
    requires
        i <= v@.len(),
    ensures
        r is Some <==> is_hex4(v@, i as int),
        match r {
            Some(n) => n == hex4_val(v@, i as int) && n < 0x10000,
            None => true,
        },
{
    if v.len() - i < 4 {
        return None;
    }
    let d0 = hex_digit_val_exec(v[i]);
    let d1 = hex_digit_val_exec(v[i + 1]);
    let d2 = hex_digit_val_exec(v[i + 2]);
    let d3 = hex_digit_val_exec(v[i + 3]);
    match (d0, d1, d2, d3) {
        (Some(a), Some(b), Some(c), Some(d)) => Some(a * 0x1000 + b * 0x100 + c * 0x10 + d),
        _ => None,
    }
}

/// What a backslash escape shorthand stands for, if it is one.
pub open spec fn simple_escape(c: char) -> Option<char> {
    if c == '"' {
        Some('"')
    } else if c == '\\' {
        Some('\\')
    } else if c == '/' {
        Some('/')
    } else if c == 'b' {
        Some('\u{8}')
    } else if c == 'f' {
        Some('\u{c}')
    } else if c == 'n' {
        Some('\n')
    } else if c == 'r' {
        Some('\r')
    } else if c == 't' {
        Some('\t')
    } else {
        None
    }
}

fn simple_escape_exec(c: char) -> (r: Option<char>)
    ensures
        r == simple_escape(c),
{
    match c {
        '"' => Some('"'),
        '\\' => Some('\\'),
        '/' => Some('/'),
        'b' => Some('\u{8}'),
        'f' => Some('\u{c}'),
        'n' => Some('\n'),
        'r' => Some('\r'),
        't' => Some('\t'),
        _ => None,
    }
}

/// The body of a JSON string from `i` (just past the opening quote):
/// the decoded content and the index after the closing quote.
/// Control characters must be escaped; `\uXXXX` escapes follow the JSON
/// rules, surrogate pairs included.
pub open spec fn sp_str_body(s: Seq<char>, i: int, acc: Seq<char>) -> Option<(Seq<char>, int)>
    decreases s.len() - i,
{
    if !(0 <= i < s.len()) {
        None
    } else if s[i] == '"' {
        Some((acc, i + 1))
    } else if s[i] == '\\' {
        if i + 1 < s.len() {
            let e = s[i + 1];
            if simple_escape(e) is Some {
                sp_str_body(s, i + 2, acc.push(simple_escape(e)->Some_0))
            } else if e == 'u' && is_hex4(s, i + 2) {
                let n = hex4_val(s, i + 2);
                if 0xD800 <= n < 0xDC00 {
                    if i + 12 <= s.len() && s[i + 6] == '\\' && s[i + 7] == 'u' && is_hex4(
                        s,
                        i + 8,
                    ) {
                        let m = hex4_val(s, i + 8);
                        if 0xDC00 <= m < 0xE000 {
                            sp_str_body(
                                s,
                                i + 12,
                                acc.push(char_of(0x10000 + (n - 0xD800) * 0x400 + (m - 0xDC00))),
                            )
                        } else {
                            None
                        }
                    } else {
                        None
                    }
                } else if 0xDC00 <= n < 0xE000 {
                    None
                } else {
                    sp_str_body(s, i + 6, acc.push(char_of(n)))
                }
            } else {
                None
            }
        } else {
            None
        }
    } else if (s[i] as u32) < 0x20 {
        None
    } else {
        sp_str_body(s, i + 1, acc.push(s[i]))
    }
}

/// A JSON string at `i` (at the opening quote): content and end index.
pub open spec fn sp_string(s: Seq<char>, i: int) -> Option<(Seq<char>, int)> {
    if 0 <= i < s.len() && s[i] == '"' {
        sp_str_body(s, i + 1, Seq::empty())
    } else {
        None
    }
}

/// Parses the JSON string at `start` (which must be inside the text to
/// parse as anything); returns the decoded content and the end index.
pub fn parse_string_at(v: &Vec<char>, start: usize) -> (r: Option<(String, usize)>)
    requires
        start <= v@.len(),
    ensures
        match r {
            Some((out, j)) => sp_string(v@, start as int) == Some((out@, j as int)) && start < j
                <= v@.len(),
            None => sp_string(v@, start as int) is None,
        },
{
    if start >= v.len() || v[start] != '"' {
        return None;
    }
    let mut out: Vec<char> = Vec::new();
    let mut i = start + 1;
    proof {
        assert(out@ =~= Seq::<char>::empty());
    }
    loop
        invariant
            start as int + 1 <= i <= v@.len() + 1,
            i <= v@.len() + 1,
            start < v@.len(),
            v@[start as int] == '"',
            sp_str_body(v@, i as int, out@) == sp_string(v@, start as int),
        decreases v@.len() - i,
    {
        if i >= v.len() {
            return None;
        }
        let c = v[i];
        if c == '"' {
            let s = chars_to_string(&out);
            return Some((s, i + 1));
        }
        if c == '\\' {
            if i + 1 >= v.len() {
                return None;
            }
            let e = v[i + 1];
            match simple_escape_exec(e) {
                Some(d) => {
                    out.push(d);
                    i = i + 2;
                },
                None => {
                    if e != 'u' {
                        return None;
                    }
                    let n = match hex4_at(v, i + 2) {
                        Some(n) => n,
                        None => {
                            return None;
                        },
                    };
                    if 0xD800 <= n && n < 0xDC00 {
                        // A high surrogate must pair with a following \u escape.
                        if !(v.len() - i >= 12 && v[i + 6] == '\\' && v[i + 7] == 'u') {
                            return None;
                        }
                        let m = match hex4_at(v, i + 8) {
                            Some(m) => m,
                            None => {
                                return None;
                            },
                        };
                        if !(0xDC00 <= m && m < 0xE000) {
                            return None;
                        }
                        let code: u32 = 0x10000 + (n - 0xD800) * 0x400 + (m - 0xDC00);
                        let c2 = match char_from_u32(code) {
                            Some(c2) => c2,
                            None => {
                                return None;  // unreachable: the value is a scalar value
                            },
                        };
                        proof {
                            assert(char_val(c2) == code as int);
                            assert(char_val(char_of(code as int)) == code as int);
                        }
                        out.push(c2);
                        i = i + 12;
                    } else if 0xDC00 <= n && n < 0xE000 {
                        return None;
                    } else {
                        let c2 = match char_from_u32(n) {
                            Some(c2) => c2,
                            None => {
                                return None;  // unreachable: BMP non-surrogates are scalar values
                            },
                        };
                        proof {
                            assert(char_val(c2) == n as int);
                            assert(char_val(char_of(n as int)) == n as int);
                        }
                        out.push(c2);
                        i = i + 6;
                    }
                },
            }
        } else if (c as u32) < 0x20 {
            return None;
        } else {
            out.push(c);
            i = i + 1;
        }
    }
}

/// The elements of a JSON array of strings, from the first element at `i`
/// (whitespace already skipped): the decoded strings and the index after
/// the closing bracket. The bound check before the recursive call keeps
/// the scan position visibly advancing; a parse never moves backward, so
/// the guarded branch rejects nothing.
pub open spec fn sp_str_list_items(s: Seq<char>, i: int, acc: Seq<Seq<char>>) -> Option<
    (Seq<Seq<char>>, int),
>
    decreases s.len() - i,
{
    match sp_string(s, i) {
        None => None,
        Some((e, j)) => {
            let j2 = ws_end(s, j);
            if j2 < s.len() && s[j2] == ',' {
                let nx = ws_end(s, j2 + 1);
                if i < nx && nx <= s.len() {
                    sp_str_list_items(s, nx, acc.push(e))
                } else {
                    None
                }
            } else if j2 < s.len() && s[j2] == ']' {
                Some((acc.push(e), j2 + 1))
            } else {
                None
            }
        },
    }
}

/// A JSON array of strings at `i` (at the opening bracket).
pub open spec fn sp_str_list(s: Seq<char>, i: int) -> Option<(Seq<Seq<char>>, int)> {
    if 0 <= i < s.len() && s[i] == '[' {
        let j = ws_end(s, i + 1);
        if j < s.len() && s[j] == ']' {
            Some((Seq::empty(), j + 1))
        } else {
            sp_str_list_items(s, j, Seq::empty())
        }
    } else {
        None
    }
}

/// Parses the JSON array of strings at `start`.
pub fn parse_str_list_at(v: &Vec<char>, start: usize) -> (r: Option<(Vec<String>, usize)>)
    requires
        start <= v@.len(),
    ensures
        match r {
            Some((items, j)) => sp_str_list(v@, start as int) == Some(
                (items.deep_view(), j as int),
            ) && start < j <= v@.len(),
            None => sp_str_list(v@, start as int) is None,
        },
{
    if start >= v.len() || v[start] != '[' {
        return None;
    }
    let mut i = skip_ws(v, start + 1);
    if i < v.len() && v[i] == ']' {
        let items: Vec<String> = Vec::new();
        proof {
            assert(items.deep_view() =~~= Seq::<Seq<char>>::empty());
        }
        return Some((items, i + 1));
    }
    let mut items: Vec<String> = Vec::new();
    proof {
        assert(items.deep_view() =~~= Seq::<Seq<char>>::empty());
    }
    loop
        invariant
            start as int <= i <= v@.len(),
            sp_str_list_items(v@, i as int, items.deep_view()) == sp_str_list(v@, start as int),
        decreases v@.len() - i,
    {
        let (e, j) = match parse_string_at(v, i) {
            Some(p) => p,
            None => {
                return None;
            },
        };
        let j2 = skip_ws(v, j);
        let ghost prev = items.deep_view();
        let ghost ev = e@;
        if j2 < v.len() && v[j2] == ',' {
            let nx = skip_ws(v, j2 + 1);
            if !(i < nx) {
                return None;
            }
            items.push(e);
            proof {
                assert(items.deep_view() =~~= prev.push(ev));
            }
            i = nx;
        } else if j2 < v.len() && v[j2] == ']' {
            items.push(e);
            proof {
                assert(items.deep_view() =~~= prev.push(ev));
            }
            return Some((items, j2 + 1));
        } else {
            return None;
        }
    }
}

} // verus!
