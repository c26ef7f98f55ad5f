//! Reading JSON text (RFC 8259): string literals and arrays of strings. This
//! is the reading the Dockerfile's escaped values and `CMD` arrays are
//! checked against.
use vstd::prelude::*;

verus! {

/// JSON's insignificant whitespace.
pub open spec fn json_ws(c: char) -> bool {
    c == ' ' || c == '\t' || c == '\n' || c == '\r'
}

/// `t` without its leading whitespace.
pub open spec fn skip_ws(t: Seq<char>) -> Seq<char>
    decreases t.len(),
{
    if t.len() > 0 && json_ws(t[0]) {
        skip_ws(t.skip(1))
    } else {
        t
    }
}

/// The value of a hexadecimal digit.
pub open spec fn hex_value(c: char) -> Option<int> {
    if '0' <= c && c <= '9' {
        Some(c as int - 48)
    } else if 'a' <= c && c <= 'f' {
        Some(c as int - 87)
    } else if 'A' <= c && c <= 'F' {
        Some(c as int - 55)
    } else {
        None
    }
}

/// The UTF-16 code unit written by the four hexadecimal digits that start `t`.
pub open spec fn hex4(t: Seq<char>) -> Option<int> {
    if t.len() < 4 {
        None
    } else {
        match (hex_value(t[0]), hex_value(t[1]), hex_value(t[2]), hex_value(t[3])) {
            (Some(a), Some(b), Some(c), Some(d)) => Some(((a * 16 + b) * 16 + c) * 16 + d),
            _ => None,
        }
    }
}

/// The character that the backslash escape at the start of `t` stands for,
/// and how many characters the escape takes. A `\u` escape of a high
/// surrogate must be followed by one of a low surrogate; a lone surrogate is
/// refused.
pub open spec fn escape_at(t: Seq<char>) -> Option<(char, int)> {
    if t.len() < 2 || t[0] != '\\' {
        None
    } else {
        let e = t[1];
        if e == '"' {
            Some(('"', 2))
        } else if e == '\\' {
            Some(('\\', 2))
        } else if e == '/' {
            Some(('/', 2))
        } else if e == 'b' {
            Some(('\u{8}', 2))
        } else if e == 'f' {
            Some(('\u{c}', 2))
        } else if e == 'n' {
            Some(('\n', 2))
        } else if e == 'r' {
            Some(('\r', 2))
        } else if e == 't' {
            Some(('\t', 2))
        } else if e == 'u' {
            match hex4(t.skip(2)) {
                Some(v) => if 0xD800 <= v && v < 0xDC00 {
                    if t.len() >= 12 && t[6] == '\\' && t[7] == 'u' {
                        match hex4(t.skip(8)) {
                            Some(w) => if 0xDC00 <= w && w < 0xE000 {
                                Some(
                                    (
                                        (0x10000 + (v - 0xD800) * 0x400 + (w - 0xDC00)) as char,
                                        12,
                                    ),
                                )
                            } else {
                                None
                            },
                            None => None,
                        }
                    } else {
                        None
                    }
                } else if 0xDC00 <= v && v < 0xE000 {
                    None
                } else {
                    Some((v as char, 6))
                },
                None => None,
            }
        } else {
            None
        }
    }
}

pub proof fn lemma_escape_at_len(t: Seq<char>)
    ensures
        escape_at(t) matches Some((c, k)) ==> 2 <= k <= t.len(),
{
}

/// The characters of a string literal's body at the start of `t`, up to its
/// closing quote, and the text after that quote. Unescaped control
/// characters are refused.
pub open spec fn string_body(t: Seq<char>) -> Option<(Seq<char>, Seq<char>)>
    decreases t.len(),
{
    if t.len() == 0 {
        None
    } else if t[0] == '"' {
        Some((Seq::empty(), t.skip(1)))
    } else if t[0] == '\\' {
        match escape_at(t) {
            Some((c, k)) => {
                proof {
                    lemma_escape_at_len(t);
                }
                match string_body(t.skip(k)) {
                    Some((v, r)) => Some((seq![c] + v, r)),
                    None => None,
                }
            },
            None => None,
        }
    } else if !(' ' <= t[0]) {
        None
    } else {
        match string_body(t.skip(1)) {
            Some((v, r)) => Some((seq![t[0]] + v, r)),
            None => None,
        }
    }
}

/// The text after a string literal's body is shorter than the body's text.
pub proof fn lemma_string_body_rest(t: Seq<char>)
    ensures
        string_body(t) matches Some((v, r)) ==> r.len() < t.len(),
    decreases t.len(),
{
    if t.len() > 0 && t[0] != '"' {
        if t[0] == '\\' {
            lemma_escape_at_len(t);
            if let Some((c, k)) = escape_at(t) {
                lemma_string_body_rest(t.skip(k));
            }
        } else {
            lemma_string_body_rest(t.skip(1));
        }
    }
}

pub proof fn lemma_skip_ws_len(t: Seq<char>)
    ensures
        skip_ws(t).len() <= t.len(),
    decreases t.len(),
{
    if t.len() > 0 && json_ws(t[0]) {
        lemma_skip_ws_len(t.skip(1));
    }
}

/// The string that the JSON text `t` holds, if it is one string literal
/// (with optional surrounding whitespace).
pub open spec fn json_string(t: Seq<char>) -> Option<Seq<char>> {
    let u = skip_ws(t);
    if u.len() > 0 && u[0] == '"' {
        match string_body(u.skip(1)) {
            Some((v, r)) => if skip_ws(r).len() == 0 {
                Some(v)
            } else {
                None
            },
            None => None,
        }
    } else {
        None
    }
}

/// The string elements of an array at the start of `t` (just after `[` and
/// whitespace, where a first element begins), and the text after the
/// closing `]`.
#[verifier::opaque]
pub open spec fn array_items(t: Seq<char>) -> Option<(Seq<Seq<char>>, Seq<char>)>
    decreases t.len(),
{
    if t.len() == 0 || t[0] != '"' {
        None
    } else {
        match string_body(t.skip(1)) {
            Some((v, r)) => {
                let r2 = skip_ws(r);
                if r2.len() > 0 && r2[0] == ',' {
                    proof {
                        lemma_string_body_rest(t.skip(1));
                        lemma_skip_ws_len(r);
                        lemma_skip_ws_len(r2.skip(1));
                    }
                    match array_items(skip_ws(r2.skip(1))) {
                        Some((vs, rest)) => Some((seq![v] + vs, rest)),
                        None => None,
                    }
                } else if r2.len() > 0 && r2[0] == ']' {
                    Some((seq![v], r2.skip(1)))
                } else {
                    None
                }
            },
            None => None,
        }
    }
}

/// The strings that the JSON text `t` holds, if it is one array of string
/// literals (with optional whitespace around and between the tokens).
pub open spec fn json_string_array(t: Seq<char>) -> Option<Seq<Seq<char>>> {
    let u = skip_ws(t);
    if u.len() > 0 && u[0] == '[' {
        let w = skip_ws(u.skip(1));
        if w.len() > 0 && w[0] == ']' {
            if skip_ws(w.skip(1)).len() == 0 {
                Some(Seq::empty())
            } else {
                None
            }
        } else {
            match array_items(w) {
                Some((vs, r)) => if skip_ws(r).len() == 0 {
                    Some(vs)
                } else {
                    None
                },
                None => None,
            }
        }
    } else {
        None
    }
}

/// Whitespace is skipped only at the front: text that starts with another
/// character is left as it is.
pub proof fn lemma_skip_ws_stops(t: Seq<char>)
    requires
        t.len() == 0 || !json_ws(t[0]),
    ensures
        skip_ws(t) == t,
{
}

pub proof fn lemma_skip_ws_space(t: Seq<char>)
    ensures
        skip_ws(seq![' '] + t) == skip_ws(t),
{
    assert((seq![' '] + t).skip(1) =~= t);
}

} // verus!
