//! A verified scanner for the server's settings document.
//!
//! The settings endpoint answers with a JSON body; the supervisor needs the
//! server version string under `values.serverVersion` and the canonical
//! base URL under `baseUrl`, and must reject every body that is not a JSON
//! document of that shape.  The scanner walks the whole document once,
//! validating it against the JSON grammar (with a fixed nesting bound, so
//! that a hostile body cannot exhaust the stack) and capturing the two
//! fields on the way; it builds no document tree.
//!
//! The `spec` functions in this module are the grammar: each executable
//! function is proved to return exactly what its specification counterpart
//! denotes.  Inside strings the usual escapes are decoded, including
//! `\uXXXX` with surrogate pairs; within an object the first occurrence of
//! a captured key decides its value, and a captured key whose value has
//! the wrong type makes the whole document invalid.

use vstd::prelude::*;
use vstd::string::StrSliceExecFns;
use crate::text::{char_from_u32, push_char, str_eq};

verus! {

/// The nesting bound: arrays and objects may nest at most this deep.
pub const MAX_DEPTH: u32 = 128;

/// JSON whitespace.
pub open spec fn spec_is_ws(c: char) -> bool {
    c == ' ' || c == '\t' || c == '\n' || c == '\r'
}

/// The first index at or after `i` that does not hold whitespace.
pub open spec fn spec_ws(s: Seq<char>, i: int) -> int
    decreases s.len() - i,
{
    if 0 <= i < s.len() && spec_is_ws(s[i]) {
        spec_ws(s, i + 1)
    } else {
        i
    }
}

/// An ASCII decimal digit.
pub open spec fn spec_is_digit(c: char) -> bool {
    48 <= c as u32 <= 57
}

/// The first index at or after `i` that does not hold a digit.
pub open spec fn spec_digits_end(s: Seq<char>, i: int) -> int
    decreases s.len() - i,
{
    if 0 <= i < s.len() && spec_is_digit(s[i]) {
        spec_digits_end(s, i + 1)
    } else {
        i
    }
}

/// The value of one hexadecimal digit.
pub open spec fn spec_hex_val(c: char) -> Option<u32> {
    let v = c as u32;
    if 48 <= v <= 57 {
        Some((v - 48) as u32)
    } else if 97 <= v <= 102 {
        Some((v - 87) as u32)
    } else if 65 <= v <= 70 {
        Some((v - 55) as u32)
    } else {
        None
    }
}

/// The value of the four hexadecimal digits at `i`.
pub open spec fn spec_hex4(s: Seq<char>, i: int) -> Option<u32> {
    if 0 <= i && i + 4 <= s.len() && spec_hex_val(s[i]) is Some && spec_hex_val(s[i + 1]) is Some
        && spec_hex_val(s[i + 2]) is Some && spec_hex_val(s[i + 3]) is Some {
        Some(
            (spec_hex_val(s[i])->0 * 0x1000 + spec_hex_val(s[i + 1])->0 * 0x100 + spec_hex_val(
                s[i + 2],
            )->0 * 0x10 + spec_hex_val(s[i + 3])->0) as u32,
        )
    } else {
        None
    }
}

/// The body of a string literal from `i` (just after the opening quote),
/// with `acc` the characters decoded so far: the index just past the
/// closing quote, and the decoded contents.
pub open spec fn spec_string_body(s: Seq<char>, i: int, acc: Seq<char>) -> Option<(int, Seq<char>)>
    decreases s.len() - i, 2int,
{
    if !(0 <= i < s.len()) {
        None
    } else {
        let c = s[i];
        if c == '"' {
            Some((i + 1, acc))
        } else if c == '\\' {
            spec_escape_body(s, i + 1, acc)
        } else if (c as u32) < 32 {
            None
        } else {
            spec_string_body(s, i + 1, acc.push(c))
        }
    }
}

/// An escape sequence from `i` (just after the backslash).
pub open spec fn spec_escape_body(s: Seq<char>, i: int, acc: Seq<char>) -> Option<(int, Seq<char>)>
    decreases s.len() - i, 1int,
{
    if !(0 <= i < s.len()) {
        None
    } else {
        let c = s[i];
        if c == '"' {
            spec_string_body(s, i + 1, acc.push('"'))
        } else if c == '\\' {
            spec_string_body(s, i + 1, acc.push('\\'))
        } else if c == '/' {
            spec_string_body(s, i + 1, acc.push('/'))
        } else if c == 'b' {
            spec_string_body(s, i + 1, acc.push('\u{8}'))
        } else if c == 'f' {
            spec_string_body(s, i + 1, acc.push('\u{c}'))
        } else if c == 'n' {
            spec_string_body(s, i + 1, acc.push('\n'))
        } else if c == 'r' {
            spec_string_body(s, i + 1, acc.push('\r'))
        } else if c == 't' {
            spec_string_body(s, i + 1, acc.push('\t'))
        } else if c == 'u' {
            spec_unicode_body(s, i + 1, acc)
        } else {
            None
        }
    }
}

/// A `\uXXXX` escape from `i` (just after the `u`): a scalar value stands
/// for itself, a high surrogate must be followed by a `\uXXXX` low
/// surrogate, and a lone surrogate is invalid.
pub open spec fn spec_unicode_body(s: Seq<char>, i: int, acc: Seq<char>) -> Option<
    (int, Seq<char>),
>
    decreases s.len() - i, 0int,
{
    match spec_hex4(s, i) {
        None => None,
        Some(v) => if v < 0xD800 || (0xE000 <= v && v <= 0xFFFF) {
            spec_string_body(s, i + 4, acc.push(v as char))
        } else if v < 0xDC00 {
            if i + 6 <= s.len() && s[i + 4] == '\\' && s[i + 5] == 'u' {
                match spec_hex4(s, i + 6) {
                    None => None,
                    Some(lo) => if 0xDC00 <= lo && lo < 0xE000 {
                        spec_string_body(
                            s,
                            i + 10,
                            acc.push(((0x10000 + (v - 0xD800) * 0x400 + (lo - 0xDC00)) as u32) as char),
                        )
                    } else {
                        None
                    },
                }
            } else {
                None
            }
        } else {
            None
        },
    }
}

/// A string literal at `i` (at the opening quote): the index just past the
/// closing quote and the decoded contents.
pub open spec fn spec_parse_string(s: Seq<char>, i: int) -> Option<(int, Seq<char>)> {
    if 0 <= i < s.len() && s[i] == '"' {
        spec_string_body(s, i + 1, Seq::empty())
    } else {
        None
    }
}

/// The fraction part of a number, if `k` holds a decimal point.
pub open spec fn spec_frac_end(s: Seq<char>, k: int) -> Option<int> {
    if 0 <= k < s.len() && s[k] == '.' {
        let d = spec_digits_end(s, k + 1);
        if d > k + 1 {
            Some(d)
        } else {
            None
        }
    } else {
        Some(k)
    }
}

/// The exponent part of a number, if `k` holds an exponent marker.
pub open spec fn spec_exp_end(s: Seq<char>, k: int) -> Option<int> {
    if 0 <= k < s.len() && (s[k] == 'e' || s[k] == 'E') {
        let j = if k + 1 < s.len() && (s[k + 1] == '+' || s[k + 1] == '-') {
            k + 2
        } else {
            k + 1
        };
        let d = spec_digits_end(s, j);
        if d > j {
            Some(d)
        } else {
            None
        }
    } else {
        Some(k)
    }
}

/// A number at `i`, per the JSON grammar: the index just past it.
pub open spec fn spec_number_end(s: Seq<char>, i: int) -> Option<int> {
    let j = if 0 <= i < s.len() && s[i] == '-' {
        i + 1
    } else {
        i
    };
    if 0 <= j < s.len() && spec_is_digit(s[j]) {
        let k = if s[j] == '0' {
            j + 1
        } else {
            spec_digits_end(s, j)
        };
        match spec_frac_end(s, k) {
            None => None,
            Some(k2) => spec_exp_end(s, k2),
        }
    } else {
        None
    }
}

/// One of the literals `null`, `true`, `false` at `i`: the index just past
/// it.
pub open spec fn spec_literal_end(s: Seq<char>, i: int) -> Option<int> {
    if 0 <= i && i + 4 <= s.len() && s[i] == 'n' && s[i + 1] == 'u' && s[i + 2] == 'l' && s[i + 3]
        == 'l' {
        Some(i + 4)
    } else if 0 <= i && i + 4 <= s.len() && s[i] == 't' && s[i + 1] == 'r' && s[i + 2] == 'u' && s[i
        + 3] == 'e' {
        Some(i + 4)
    } else if 0 <= i && i + 5 <= s.len() && s[i] == 'f' && s[i + 1] == 'a' && s[i + 2] == 'l' && s[i
        + 3] == 's' && s[i + 4] == 'e' {
        Some(i + 5)
    } else {
        None
    }
}

/// Skips the JSON value at `i`.  `depth` bounds how deep containers may
/// still nest; `fuel` bounds the walk and is ample for every document
/// (see [`spec_fuel`]).
pub open spec fn spec_skip_value(s: Seq<char>, i: int, depth: int, fuel: nat) -> Option<int>
    decreases fuel, 0int,
{
    if fuel == 0 {
        None
    } else if !(0 <= i < s.len()) {
        None
    } else {
        let c = s[i];
        if c == '"' {
            match spec_parse_string(s, i) {
                None => None,
                Some(p) => Some(p.0),
            }
        } else if c == '{' {
            if depth <= 0 {
                None
            } else {
                spec_object_rest(s, spec_ws(s, i + 1), true, depth - 1, (fuel - 1) as nat)
            }
        } else if c == '[' {
            if depth <= 0 {
                None
            } else {
                spec_array_rest(s, spec_ws(s, i + 1), true, depth - 1, (fuel - 1) as nat)
            }
        } else if c == 'n' || c == 't' || c == 'f' {
            spec_literal_end(s, i)
        } else {
            spec_number_end(s, i)
        }
    }
}

/// The rest of an object body, standing at a member key or, when `first`
/// holds, possibly at the closing brace.
pub open spec fn spec_object_rest(s: Seq<char>, i: int, first: bool, depth: int, fuel: nat) -> Option<
    int,
>
    decreases fuel, 1int,
{
    if fuel == 0 {
        None
    } else if !(0 <= i < s.len()) {
        None
    } else if first && s[i] == '}' {
        Some(i + 1)
    } else {
        match spec_parse_string(s, i) {
            None => None,
            Some(p) => {
                let c = spec_ws(s, p.0);
                if !(c < s.len() && s[c] == ':') {
                    None
                } else {
                    match spec_skip_value(s, spec_ws(s, c + 1), depth, (fuel - 1) as nat) {
                        None => None,
                        Some(v) => {
                            let t = spec_ws(s, v);
                            if t < s.len() && s[t] == ',' {
                                spec_object_rest(s, spec_ws(s, t + 1), false, depth, (fuel
                                    - 1) as nat)
                            } else if t < s.len() && s[t] == '}' {
                                Some(t + 1)
                            } else {
                                None
                            }
                        },
                    }
                }
            },
        }
    }
}

/// The rest of an array body, standing at an item or, when `first` holds,
/// possibly at the closing bracket.
pub open spec fn spec_array_rest(s: Seq<char>, i: int, first: bool, depth: int, fuel: nat) -> Option<
    int,
>
    decreases fuel, 1int,
{
    if fuel == 0 {
        None
    } else if !(0 <= i < s.len()) {
        None
    } else if first && s[i] == ']' {
        Some(i + 1)
    } else {
        match spec_skip_value(s, i, depth, (fuel - 1) as nat) {
            None => None,
            Some(v) => {
                let t = spec_ws(s, v);
                if t < s.len() && s[t] == ',' {
                    spec_array_rest(s, spec_ws(s, t + 1), false, depth, (fuel - 1) as nat)
                } else if t < s.len() && s[t] == ']' {
                    Some(t + 1)
                } else {
                    None
                }
            },
        }
    }
}

/// Skips whitespace.
fn ws(s: &str, i: usize) -> (r: usize)
    requires
        i <= s@.len(),
    ensures
        r == spec_ws(s@, i as int),
        i <= r <= s@.len(),
{
    let n = s.unicode_len();
    let mut cur = i;
    while cur < n
        invariant
            n == s@.len(),
            i <= cur <= n,
            spec_ws(s@, i as int) == spec_ws(s@, cur as int),
        decreases n - cur,
    {
        let c = s.get_char(cur);
        if !(c == ' ' || c == '\t' || c == '\n' || c == '\r') {
            return cur;
        }
        cur += 1;
    }
    cur
}

/// Skips digits.
fn digits_end(s: &str, i: usize) -> (r: usize)
    requires
        i <= s@.len(),
    ensures
        r == spec_digits_end(s@, i as int),
        i <= r <= s@.len(),
{
    let n = s.unicode_len();
    let mut cur = i;
    while cur < n
        invariant
            n == s@.len(),
            i <= cur <= n,
            spec_digits_end(s@, i as int) == spec_digits_end(s@, cur as int),
        decreases n - cur,
    {
        let c = s.get_char(cur);
        if !(c as u32 >= 48 && c as u32 <= 57) {
            return cur;
        }
        cur += 1;
    }
    cur
}

/// Value of one hexadecimal digit.
fn hex_val(c: char) -> (r: Option<u32>)
    ensures
        r == spec_hex_val(c),
        r matches Some(v) ==> v < 16,
{
    let v = c as u32;
    if 48 <= v && v <= 57 {
        Some(v - 48)
    } else if 97 <= v && v <= 102 {
        Some(v - 87)
    } else if 65 <= v && v <= 70 {
        Some(v - 55)
    } else {
        None
    }
}

/// Value of the four hexadecimal digits at `i`.
fn hex4(s: &str, i: usize) -> (r: Option<u32>)
    requires
        i <= s@.len(),
    ensures
        r == spec_hex4(s@, i as int),
        r matches Some(v) ==> v < 0x10000,
{
    let n = s.unicode_len();
    if n - i < 4 {
        return None;
    }
    let h0 = match hex_val(s.get_char(i)) {
        Some(v) => v,
        None => {
            return None;
        },
    };
    let h1 = match hex_val(s.get_char(i + 1)) {
        Some(v) => v,
        None => {
            return None;
        },
    };
    let h2 = match hex_val(s.get_char(i + 2)) {
        Some(v) => v,
        None => {
            return None;
        },
    };
    let h3 = match hex_val(s.get_char(i + 3)) {
        Some(v) => v,
        None => {
            return None;
        },
    };
    Some(h0 * 0x1000 + h1 * 0x100 + h2 * 0x10 + h3)
}

/// Parses the string literal at `i`: the index just past its closing quote
/// and the decoded contents.
fn parse_string(s: &str, i: usize) -> (r: Option<(usize, String)>)
    requires
        i <= s@.len(),
    ensures
        match r {
            Some(p) => spec_parse_string(s@, i as int) == Some((p.0 as int, p.1@)) && i < p.0
                <= s@.len(),
            None => spec_parse_string(s@, i as int) is None,
        },
{
    let n = s.unicode_len();
    if !(i < n) {
        return None;
    }
    if s.get_char(i) != '"' {
        return None;
    }
    let mut cur: usize = i + 1;
    let mut out = String::new();
    loop
        invariant
            n == s@.len(),
            i < n,
            s@[i as int] == '"',
            i + 1 <= cur <= n,
            spec_string_body(s@, (i + 1) as int, Seq::empty()) == spec_string_body(
                s@,
                cur as int,
                out@,
            ),
        decreases n - cur,
    {
        if cur >= n {
            return None;
        }
        let c = s.get_char(cur);
        if c == '"' {
            return Some((cur + 1, out));
        }
        if c == '\\' {
            proof {
                assert(spec_string_body(s@, cur as int, out@) == spec_escape_body(
                    s@,
                    cur as int + 1,
                    out@,
                ));
            }
            if cur + 1 >= n {
                return None;
            }
            let e = s.get_char(cur + 1);
            if e == '"' {
                push_char(&mut out, '"');
                cur += 2;
            } else if e == '\\' {
                push_char(&mut out, '\\');
                cur += 2;
            } else if e == '/' {
                push_char(&mut out, '/');
                cur += 2;
            } else if e == 'b' {
                push_char(&mut out, '\u{8}');
                cur += 2;
            } else if e == 'f' {
                push_char(&mut out, '\u{c}');
                cur += 2;
            } else if e == 'n' {
                push_char(&mut out, '\n');
                cur += 2;
            } else if e == 'r' {
                push_char(&mut out, '\r');
                cur += 2;
            } else if e == 't' {
                push_char(&mut out, '\t');
                cur += 2;
            } else if e == 'u' {
                let v = match hex4(s, cur + 2) {
                    Some(v) => v,
                    None => {
                        return None;
                    },
                };
                if v < 0xD800 || (0xE000 <= v && v <= 0xFFFF) {
                    let c2 = match char_from_u32(v) {
                        Some(c2) => c2,
                        None => {
                            proof {
                                assert(false);
                            }
                            '0'
                        },
                    };
                    proof {
                        vstd::utf8::char_u32_cast(c2, v);
                    }
                    push_char(&mut out, c2);
                    cur += 6;
                } else if v < 0xDC00 {
                    if n - (cur + 2) >= 6 && s.get_char(cur + 6) == '\\' && s.get_char(cur + 7)
                        == 'u' {
                        let lo = match hex4(s, cur + 8) {
                            Some(lo) => lo,
                            None => {
                                return None;
                            },
                        };
                        if 0xDC00 <= lo && lo < 0xE000 {
                            let scalar = 0x10000 + (v - 0xD800) * 0x400 + (lo - 0xDC00);
                            let c2 = match char_from_u32(scalar) {
                                Some(c2) => c2,
                                None => {
                                    proof {
                                        assert(false);
                                    }
                                    '0'
                                },
                            };
                            proof {
                                vstd::utf8::char_u32_cast(c2, scalar);
                            }
                            push_char(&mut out, c2);
                            cur += 12;
                        } else {
                            return None;
                        }
                    } else {
                        return None;
                    }
                } else {
                    return None;
                }
            } else {
                return None;
            }
        } else if (c as u32) < 32 {
            return None;
        } else {
            push_char(&mut out, c);
            cur += 1;
        }
    }
}

/// Scans the number at `i`.
fn number_end(s: &str, i: usize) -> (r: Option<usize>)
    requires
        i <= s@.len(),
    ensures
        match r {
            Some(j) => spec_number_end(s@, i as int) == Some(j as int) && i < j <= s@.len(),
            None => spec_number_end(s@, i as int) is None,
        },
{
    let n = s.unicode_len();
    let j = if i < n && s.get_char(i) == '-' {
        i + 1
    } else {
        i
    };
    if !(j < n) {
        return None;
    }
    let d0 = s.get_char(j);
    if !(d0 as u32 >= 48 && d0 as u32 <= 57) {
        return None;
    }
    let k = if d0 == '0' {
        j + 1
    } else {
        digits_end(s, j + 1)
    };
    let k2 = if k < n && s.get_char(k) == '.' {
        let d = digits_end(s, k + 1);
        if d > k + 1 {
            d
        } else {
            return None;
        }
    } else {
        k
    };
    if k2 < n {
        let e = s.get_char(k2);
        if e == 'e' || e == 'E' {
            let j2 = if k2 + 1 < n {
                let sign = s.get_char(k2 + 1);
                if sign == '+' || sign == '-' {
                    k2 + 2
                } else {
                    k2 + 1
                }
            } else {
                k2 + 1
            };
            let d = digits_end(s, j2);
            if d > j2 {
                return Some(d);
            } else {
                return None;
            }
        }
    }
    Some(k2)
}

/// Scans the literal (`null`, `true` or `false`) at `i`.
fn literal_end(s: &str, i: usize) -> (r: Option<usize>)
    requires
        i <= s@.len(),
    ensures
        match r {
            Some(j) => spec_literal_end(s@, i as int) == Some(j as int) && i < j <= s@.len(),
            None => spec_literal_end(s@, i as int) is None,
        },
{
    let n = s.unicode_len();
    if n - i >= 4 && s.get_char(i) == 'n' && s.get_char(i + 1) == 'u' && s.get_char(i + 2) == 'l'
        && s.get_char(i + 3) == 'l' {
        Some(i + 4)
    } else if n - i >= 4 && s.get_char(i) == 't' && s.get_char(i + 1) == 'r' && s.get_char(i + 2)
        == 'u' && s.get_char(i + 3) == 'e' {
        Some(i + 4)
    } else if n - i >= 5 && s.get_char(i) == 'f' && s.get_char(i + 1) == 'a' && s.get_char(i + 2)
        == 'l' && s.get_char(i + 3) == 's' && s.get_char(i + 4) == 'e' {
        Some(i + 5)
    } else {
        None
    }
}

/// Skips the JSON value at `i`.
fn skip_value(s: &str, i: usize, depth: u32, fuel: usize) -> (r: Option<usize>)
    requires
        i <= s@.len(),
    ensures
        match r {
            Some(j) => spec_skip_value(s@, i as int, depth as int, fuel as nat) == Some(j as int)
                && j <= s@.len(),
            None => spec_skip_value(s@, i as int, depth as int, fuel as nat) is None,
        },
    decreases fuel,
{
    if fuel == 0 {
        return None;
    }
    let n = s.unicode_len();
    if !(i < n) {
        return None;
    }
    let c = s.get_char(i);
    if c == '"' {
        match parse_string(s, i) {
            Some(p) => Some(p.0),
            None => None,
        }
    } else if c == '{' {
        if depth == 0 {
            None
        } else {
            object_rest(s, ws(s, i + 1), true, depth - 1, fuel - 1)
        }
    } else if c == '[' {
        if depth == 0 {
            None
        } else {
            array_rest(s, ws(s, i + 1), true, depth - 1, fuel - 1)
        }
    } else if c == 'n' || c == 't' || c == 'f' {
        literal_end(s, i)
    } else {
        number_end(s, i)
    }
}

/// Walks the rest of an object body, validating every member.
fn object_rest(s: &str, i: usize, first: bool, depth: u32, fuel: usize) -> (r: Option<usize>)
    requires
        i <= s@.len(),
    ensures
        match r {
            Some(j) => spec_object_rest(s@, i as int, first, depth as int, fuel as nat) == Some(
                j as int,
            ) && j <= s@.len(),
            None => spec_object_rest(s@, i as int, first, depth as int, fuel as nat) is None,
        },
    decreases fuel,
{
    let n = s.unicode_len();
    let mut cur = i;
    let mut firstc = first;
    let mut f = fuel;
    loop
        invariant
            n == s@.len(),
            cur <= n,
            f <= fuel,
            spec_object_rest(s@, i as int, first, depth as int, fuel as nat) == spec_object_rest(
                s@,
                cur as int,
                firstc,
                depth as int,
                f as nat,
            ),
        decreases f,
    {
        if f == 0 {
            return None;
        }
        if !(cur < n) {
            return None;
        }
        if firstc && s.get_char(cur) == '}' {
            return Some(cur + 1);
        }
        let p = match parse_string(s, cur) {
            Some(p) => p,
            None => {
                return None;
            },
        };
        let cpos = ws(s, p.0);
        if !(cpos < n) {
            return None;
        }
        if s.get_char(cpos) != ':' {
            return None;
        }
        let vstart = ws(s, cpos + 1);
        let vend = match skip_value(s, vstart, depth, f - 1) {
            Some(v) => v,
            None => {
                return None;
            },
        };
        let t = ws(s, vend);
        if t < n && s.get_char(t) == ',' {
            cur = ws(s, t + 1);
            firstc = false;
            f = f - 1;
        } else if t < n && s.get_char(t) == '}' {
            return Some(t + 1);
        } else {
            return None;
        }
    }
}

/// Walks the rest of an array body, validating every item.
fn array_rest(s: &str, i: usize, first: bool, depth: u32, fuel: usize) -> (r: Option<usize>)
    requires
        i <= s@.len(),
    ensures
        match r {
            Some(j) => spec_array_rest(s@, i as int, first, depth as int, fuel as nat) == Some(
                j as int,
            ) && j <= s@.len(),
            None => spec_array_rest(s@, i as int, first, depth as int, fuel as nat) is None,
        },
    decreases fuel,
{
    let n = s.unicode_len();
    let mut cur = i;
    let mut firstc = first;
    let mut f = fuel;
    loop
        invariant
            n == s@.len(),
            cur <= n,
            f <= fuel,
            spec_array_rest(s@, i as int, first, depth as int, fuel as nat) == spec_array_rest(
                s@,
                cur as int,
                firstc,
                depth as int,
                f as nat,
            ),
        decreases f,
    {
        if f == 0 {
            return None;
        }
        if !(cur < n) {
            return None;
        }
        if firstc && s.get_char(cur) == ']' {
            return Some(cur + 1);
        }
        let vend = match skip_value(s, cur, depth, f - 1) {
            Some(v) => v,
            None => {
                return None;
            },
        };
        let t = ws(s, vend);
        if t < n && s.get_char(t) == ',' {
            cur = ws(s, t + 1);
            firstc = false;
            f = f - 1;
        } else if t < n && s.get_char(t) == ']' {
            return Some(t + 1);
        } else {
            return None;
        }
    }
}

/// The view of an optional captured string.
pub open spec fn spec_opt_str(o: Option<String>) -> Option<Seq<char>> {
    match o {
        Some(t) => Some(t@),
        None => None,
    }
}

/// After one member of the `values` object: step to the next member or
/// close the object, carrying the captured version along.
pub open spec fn spec_values_tail(
    s: Seq<char>,
    vend: int,
    ver: Option<Seq<char>>,
    depth: int,
    fuel: nat,
) -> Option<(int, Option<Seq<char>>)>
    decreases fuel, 0int,
{
    let t = spec_ws(s, vend);
    if t < s.len() && s[t] == ',' {
        if fuel == 0 {
            None
        } else {
            spec_values_rest(s, spec_ws(s, t + 1), false, ver, depth, (fuel - 1) as nat)
        }
    } else if t < s.len() && s[t] == '}' {
        Some((t + 1, ver))
    } else {
        None
    }
}

/// The rest of the `values` object body: every member is validated, and
/// the first `serverVersion` member, which must hold a string, is
/// captured.
pub open spec fn spec_values_rest(
    s: Seq<char>,
    i: int,
    first: bool,
    ver: Option<Seq<char>>,
    depth: int,
    fuel: nat,
) -> Option<(int, Option<Seq<char>>)>
    decreases fuel, 1int,
{
    if fuel == 0 {
        None
    } else if !(0 <= i < s.len()) {
        None
    } else if first && s[i] == '}' {
        Some((i + 1, ver))
    } else {
        match spec_parse_string(s, i) {
            None => None,
            Some(p) => {
                let c = spec_ws(s, p.0);
                if !(c < s.len() && s[c] == ':') {
                    None
                } else {
                    let v0 = spec_ws(s, c + 1);
                    if p.1 == "serverVersion"@ && ver is None {
                        match spec_parse_string(s, v0) {
                            None => None,
                            Some(q) => spec_values_tail(s, q.0, Some(q.1), depth, fuel),
                        }
                    } else {
                        match spec_skip_value(s, v0, depth, (fuel - 1) as nat) {
                            None => None,
                            Some(v) => spec_values_tail(s, v, ver, depth, fuel),
                        }
                    }
                }
            },
        }
    }
}

/// After one member of the root object: step to the next member or close
/// the object, carrying both captures along.
pub open spec fn spec_root_tail(
    s: Seq<char>,
    vend: int,
    base: Option<Seq<char>>,
    ver: Option<Seq<char>>,
    depth: int,
    fuel: nat,
) -> Option<(int, Option<Seq<char>>, Option<Seq<char>>)>
    decreases fuel, 0int,
{
    let t = spec_ws(s, vend);
    if t < s.len() && s[t] == ',' {
        if fuel == 0 {
            None
        } else {
            spec_root_rest(s, spec_ws(s, t + 1), false, base, ver, depth, (fuel - 1) as nat)
        }
    } else if t < s.len() && s[t] == '}' {
        Some((t + 1, base, ver))
    } else {
        None
    }
}

/// The rest of the settings document's root object body: every member is
/// validated; the first `baseUrl` member, which must hold a string, is
/// captured, and the first `values` member, which must hold an object, is
/// walked with [`spec_values_rest`] to capture the version.
pub open spec fn spec_root_rest(
    s: Seq<char>,
    i: int,
    first: bool,
    base: Option<Seq<char>>,
    ver: Option<Seq<char>>,
    depth: int,
    fuel: nat,
) -> Option<(int, Option<Seq<char>>, Option<Seq<char>>)>
    decreases fuel, 1int,
{
    if fuel == 0 {
        None
    } else if !(0 <= i < s.len()) {
        None
    } else if first && s[i] == '}' {
        Some((i + 1, base, ver))
    } else {
        match spec_parse_string(s, i) {
            None => None,
            Some(p) => {
                let c = spec_ws(s, p.0);
                if !(c < s.len() && s[c] == ':') {
                    None
                } else {
                    let v0 = spec_ws(s, c + 1);
                    if p.1 == "baseUrl"@ && base is None {
                        match spec_parse_string(s, v0) {
                            None => None,
                            Some(q) => spec_root_tail(s, q.0, Some(q.1), ver, depth, fuel),
                        }
                    } else if p.1 == "values"@ && ver is None {
                        if v0 < s.len() && s[v0] == '{' && depth > 0 {
                            match spec_values_rest(
                                s,
                                spec_ws(s, v0 + 1),
                                true,
                                None,
                                depth - 1,
                                (fuel - 1) as nat,
                            ) {
                                None => None,
                                Some(w) => spec_root_tail(s, w.0, base, w.1, depth, fuel),
                            }
                        } else {
                            None
                        }
                    } else {
                        match spec_skip_value(s, v0, depth, (fuel - 1) as nat) {
                            None => None,
                            Some(v) => spec_root_tail(s, v, base, ver, depth, fuel),
                        }
                    }
                }
            },
        }
    }
}

/// The fuel every walk starts with: ample for any document, since every
/// unit of fuel spent goes along with input consumed.
pub open spec fn spec_fuel(s: Seq<char>) -> nat {
    if s.len() <= (usize::MAX - 8) / 2 {
        (2 * s.len() + 8) as nat
    } else {
        usize::MAX as nat
    }
}

/// What the settings document denotes: the version string under
/// `values.serverVersion` and the base URL under `baseUrl`, provided the
/// body is one JSON object of that shape with nothing but whitespace
/// around it; otherwise nothing.
pub open spec fn spec_settings_of(s: Seq<char>) -> Option<(Seq<char>, Seq<char>)> {
    let i = spec_ws(s, 0);
    if i < s.len() && s[i] == '{' {
        match spec_root_rest(
            s,
            spec_ws(s, i + 1),
            true,
            None,
            None,
            MAX_DEPTH as int - 1,
            spec_fuel(s),
        ) {
            None => None,
            Some(r) => if spec_ws(s, r.0) == s.len() {
                match (r.1, r.2) {
                    (Some(base), Some(ver)) => Some((ver, base)),
                    _ => None,
                }
            } else {
                None
            },
        }
    } else {
        None
    }
}

/// Walks the rest of the `values` object, capturing the first
/// `serverVersion` string.
fn values_rest(s: &str, i: usize, first: bool, depth: u32, fuel: usize) -> (r: Option<
    (usize, Option<String>),
>)
    requires
        i <= s@.len(),
    ensures
        match r {
            Some(p) => spec_values_rest(s@, i as int, first, None, depth as int, fuel as nat)
                == Some((p.0 as int, spec_opt_str(p.1))) && p.0 <= s@.len(),
            None => spec_values_rest(s@, i as int, first, None, depth as int, fuel as nat) is None,
        },
    decreases fuel,
{
    let n = s.unicode_len();
    let mut cur = i;
    let mut firstc = first;
    let mut verc: Option<String> = None;
    let mut f = fuel;
    loop
        invariant
            n == s@.len(),
            cur <= n,
            f <= fuel,
            spec_values_rest(s@, i as int, first, None, depth as int, fuel as nat)
                == spec_values_rest(
                s@,
                cur as int,
                firstc,
                spec_opt_str(verc),
                depth as int,
                f as nat,
            ),
        decreases f,
    {
        if f == 0 {
            return None;
        }
        if !(cur < n) {
            return None;
        }
        if firstc && s.get_char(cur) == '}' {
            return Some((cur + 1, verc));
        }
        let p = match parse_string(s, cur) {
            Some(p) => p,
            None => {
                return None;
            },
        };
        let cpos = ws(s, p.0);
        if !(cpos < n) {
            return None;
        }
        if s.get_char(cpos) != ':' {
            return None;
        }
        let v0 = ws(s, cpos + 1);
        let vend: usize;
        if str_eq(p.1.as_str(), "serverVersion") && verc.is_none() {
            let q = match parse_string(s, v0) {
                Some(q) => q,
                None => {
                    return None;
                },
            };
            verc = Some(q.1);
            vend = q.0;
        } else {
            vend = match skip_value(s, v0, depth, f - 1) {
                Some(v) => v,
                None => {
                    return None;
                },
            };
        }
        let t = ws(s, vend);
        if t < n && s.get_char(t) == ',' {
            cur = ws(s, t + 1);
            firstc = false;
            f = f - 1;
        } else if t < n && s.get_char(t) == '}' {
            return Some((t + 1, verc));
        } else {
            return None;
        }
    }
}

/// Walks the rest of the root object, capturing the first `baseUrl`
/// string and the version inside the first `values` object.
fn root_rest(s: &str, i: usize, first: bool, depth: u32, fuel: usize) -> (r: Option<
    (usize, Option<String>, Option<String>),
>)
    requires
        i <= s@.len(),
    ensures
        match r {
            Some(p) => spec_root_rest(s@, i as int, first, None, None, depth as int, fuel as nat)
                == Some((p.0 as int, spec_opt_str(p.1), spec_opt_str(p.2))) && p.0 <= s@.len(),
            None => spec_root_rest(
                s@,
                i as int,
                first,
                None,
                None,
                depth as int,
                fuel as nat,
            ) is None,
        },
    decreases fuel,
{
    let n = s.unicode_len();
    let mut cur = i;
    let mut firstc = first;
    let mut basec: Option<String> = None;
    let mut verc: Option<String> = None;
    let mut f = fuel;
    loop
        invariant
            n == s@.len(),
            cur <= n,
            f <= fuel,
            spec_root_rest(s@, i as int, first, None, None, depth as int, fuel as nat)
                == spec_root_rest(
                s@,
                cur as int,
                firstc,
                spec_opt_str(basec),
                spec_opt_str(verc),
                depth as int,
                f as nat,
            ),
        decreases f,
    {
        if f == 0 {
            return None;
        }
        if !(cur < n) {
            return None;
        }
        if firstc && s.get_char(cur) == '}' {
            return Some((cur + 1, basec, verc));
        }
        let p = match parse_string(s, cur) {
            Some(p) => p,
            None => {
                return None;
            },
        };
        let cpos = ws(s, p.0);
        if !(cpos < n) {
            return None;
        }
        if s.get_char(cpos) != ':' {
            return None;
        }
        let v0 = ws(s, cpos + 1);
        let vend: usize;
        if str_eq(p.1.as_str(), "baseUrl") && basec.is_none() {
            let q = match parse_string(s, v0) {
                Some(q) => q,
                None => {
                    return None;
                },
            };
            basec = Some(q.1);
            vend = q.0;
        } else if str_eq(p.1.as_str(), "values") && verc.is_none() {
            if !(v0 < n && depth > 0) {
                return None;
            }
            if s.get_char(v0) != '{' {
                return None;
            }
            let w = match values_rest(s, ws(s, v0 + 1), true, depth - 1, f - 1) {
                Some(w) => w,
                None => {
                    return None;
                },
            };
            verc = w.1;
            vend = w.0;
        } else {
            vend = match skip_value(s, v0, depth, f - 1) {
                Some(v) => v,
                None => {
                    return None;
                },
            };
        }
        let t = ws(s, vend);
        if t < n && s.get_char(t) == ',' {
            cur = ws(s, t + 1);
            firstc = false;
            f = f - 1;
        } else if t < n && s.get_char(t) == '}' {
            return Some((t + 1, basec, verc));
        } else {
            return None;
        }
    }
}

/// Reads the settings document: the version string under
/// `values.serverVersion` and the base URL under `baseUrl`, in that
/// order, provided the whole body is one JSON object of that shape.
pub fn settings_fields(s: &str) -> (r: Option<(String, String)>)
    ensures
        match r {
            Some(p) => spec_settings_of(s@) == Some((p.0@, p.1@)),
            None => spec_settings_of(s@) is None,
        },
{
    let n = s.unicode_len();
    let fuel: usize = if n <= (usize::MAX - 8) / 2 {
        2 * n + 8
    } else {
        usize::MAX
    };
    let i = ws(s, 0);
    if !(i < n) {
        return None;
    }
    if s.get_char(i) != '{' {
        return None;
    }
    let w = match root_rest(s, ws(s, i + 1), true, MAX_DEPTH - 1, fuel) {
        Some(w) => w,
        None => {
            return None;
        },
    };
    if ws(s, w.0) != n {
        return None;
    }
    match (w.1, w.2) {
        (Some(base), Some(ver)) => Some((ver, base)),
        _ => None,
    }
}

} // verus!
