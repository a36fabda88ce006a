//! A small JSON tree, a parser for it, and helpers shared by the
//! request encoders and the response decoders.
//!
//! The venue's wire protocol exchanges JSON objects whose values are
//! strings, booleans, numbers, nulls and nested objects; arrays never
//! occur in any request or response shape, so a body holding one is
//! simply not JSON as far as this protocol is concerned and fails the
//! parse (which callers surface as a decoding error, exactly as a body
//! of an unrecognised shape would be).
//!
//! Numbers are kept as their raw token text: every numeric quantity of
//! the protocol travels either as a string field or as a token the
//! caller supplies, and keeping the text avoids committing the parser
//! to any binary representation.

use vstd::prelude::*;
use vstd::string::*;

verus! {

broadcast use vstd::seq::axiom_seq_index_decreases, vstd::seq::axiom_seq_subrange_decreases,
    vstd::std_specs::vec::axiom_vec_decreases_to_view;

/// A parsed JSON value.
pub enum Json {
    Null,
    Bool(bool),
    /// A number, as the raw token text from the input.
    Num(String),
    Str(String),
    /// An object: members in input order.
    Obj(Vec<(String, Json)>),
}

/// The mathematical shape of a parsed JSON value.
pub enum JsonV {
    Null,
    Bool(bool),
    Num(Seq<char>),
    Str(Seq<char>),
    Obj(Seq<(Seq<char>, JsonV)>),
}

pub open spec fn jview(j: Json) -> JsonV
    decreases j,
{
    match j {
        Json::Null => JsonV::Null,
        Json::Bool(b) => JsonV::Bool(b),
        Json::Num(t) => JsonV::Num(t@),
        Json::Str(s) => JsonV::Str(s@),
        Json::Obj(ms) => JsonV::Obj(mview(ms@)),
    }
}

pub open spec fn mview(ms: Seq<(String, Json)>) -> Seq<(Seq<char>, JsonV)>
    decreases ms,
{
    if ms.len() == 0 {
        Seq::empty()
    } else {
        seq![(ms[0].0@, jview(ms[0].1))] + mview(ms.subrange(1, ms.len() as int))
    }
}

impl View for Json {
    type V = JsonV;

    open spec fn view(&self) -> JsonV {
        jview(*self)
    }
}

pub broadcast proof fn lemma_mview_len(ms: Seq<(String, Json)>)
    ensures
        (#[trigger] mview(ms)).len() == ms.len(),
    decreases ms.len(),
{
    if ms.len() > 0 {
        lemma_mview_len(ms.subrange(1, ms.len() as int));
    }
}

pub proof fn lemma_mview_index(ms: Seq<(String, Json)>, i: int)
    requires
        0 <= i < ms.len(),
    ensures
        mview(ms).len() == ms.len(),
        mview(ms)[i] == (ms[i].0@, jview(ms[i].1)),
    decreases ms.len(),
{
    lemma_mview_len(ms);
    if i > 0 {
        lemma_mview_index(ms.subrange(1, ms.len() as int), i - 1);
    }
}

// ---------------------------------------------------------------------------
// Character classes
// ---------------------------------------------------------------------------

pub open spec fn is_ws(c: char) -> bool {
    c == ' ' || c == '\t' || c == '\n' || c == '\r'
}

pub open spec fn is_digit(c: char) -> bool {
    48 <= c as u32 && c as u32 <= 57
}

fn is_ws_exec(c: char) -> (r: bool)
    ensures
        r == is_ws(c),
{
    c == ' ' || c == '\t' || c == '\n' || c == '\r'
}

fn is_digit_exec(c: char) -> (r: bool)
    ensures
        r == is_digit(c),
{
    let u = c as u32;
    48 <= u && u <= 57
}

// ---------------------------------------------------------------------------
// Whitespace and digit runs
// ---------------------------------------------------------------------------

/// Index of the first non-whitespace character at or after `i`.
pub open spec fn spec_skip_ws(s: Seq<char>, i: int) -> int
    decreases s.len() - i,
{
    if i < s.len() && is_ws(s[i]) {
        spec_skip_ws(s, i + 1)
    } else {
        i
    }
}

fn skip_ws(s: &str, n: usize, i: usize) -> (r: usize)
    requires
        n == s@.len(),
        i <= n,
    ensures
        r as int == spec_skip_ws(s@, i as int),
        i <= r <= n,
{
    let mut k: usize = i;
    while k < n && is_ws_exec(s.get_char(k))
        invariant
            n == s@.len(),
            i <= k <= n,
            spec_skip_ws(s@, i as int) == spec_skip_ws(s@, k as int),
        decreases n - k,
    {
        k = k + 1;
    }
    k
}

/// Index of the first non-digit character at or after `i`.
pub open spec fn digits_end(s: Seq<char>, i: int) -> int
    decreases s.len() - i,
{
    if i < s.len() && is_digit(s[i]) {
        digits_end(s, i + 1)
    } else {
        i
    }
}

pub proof fn lemma_digits_end_bounds(s: Seq<char>, i: int)
    requires
        0 <= i <= s.len(),
    ensures
        i <= digits_end(s, i) <= s.len(),
    decreases s.len() - i,
{
    if i < s.len() && is_digit(s[i]) {
        lemma_digits_end_bounds(s, i + 1);
    }
}

fn digits_end_exec(s: &str, n: usize, i: usize) -> (r: usize)
    requires
        n == s@.len(),
        i <= n,
    ensures
        r as int == digits_end(s@, i as int),
        i <= r <= n,
{
    let mut k: usize = i;
    while k < n && is_digit_exec(s.get_char(k))
        invariant
            n == s@.len(),
            i <= k <= n,
            digits_end(s@, i as int) == digits_end(s@, k as int),
        decreases n - k,
    {
        k = k + 1;
    }
    k
}

// ---------------------------------------------------------------------------
// Number tokens (the grammar of a JSON number)
// ---------------------------------------------------------------------------

/// End of a JSON number token starting at `i`, or `None` if none starts
/// there.  Follows the JSON grammar: an optional minus sign, an integer
/// part without superfluous leading zeros, an optional fraction and an
/// optional exponent.
pub open spec fn spec_number_end(s: Seq<char>, i: int) -> Option<int> {
    let a: int = if i < s.len() && s[i] == '-' {
        i + 1
    } else {
        i
    };
    if a < s.len() && is_digit(s[a]) {
        let b: int = if s[a] == '0' {
            a + 1
        } else {
            digits_end(s, a)
        };
        let c: int = if b < s.len() && s[b] == '.' {
            if b + 1 < s.len() && is_digit(s[b + 1]) {
                digits_end(s, b + 1)
            } else {
                -1
            }
        } else {
            b
        };
        if c < 0 {
            None
        } else {
            let d: int = if c < s.len() && (s[c] == 'e' || s[c] == 'E') {
                let e0: int = if c + 1 < s.len() && (s[c + 1] == '+' || s[c + 1] == '-') {
                    c + 2
                } else {
                    c + 1
                };
                if e0 < s.len() && is_digit(s[e0]) {
                    digits_end(s, e0)
                } else {
                    -1
                }
            } else {
                c
            };
            if d < 0 {
                None
            } else {
                Some(d)
            }
        }
    } else {
        None
    }
}

/// `s` is exactly one JSON number token.
pub open spec fn is_number(s: Seq<char>) -> bool {
    s.len() > 0 && spec_number_end(s, 0) == Some(s.len() as int)
}

pub proof fn lemma_number_end_bounds(s: Seq<char>, i: int)
    requires
        0 <= i <= s.len(),
        spec_number_end(s, i) is Some,
    ensures
        i < spec_number_end(s, i)->Some_0 <= s.len(),
{
    let a: int = if i < s.len() && s[i] == '-' {
        i + 1
    } else {
        i
    };
    lemma_digits_end_bounds(s, a);
    if a < s.len() && is_digit(s[a]) {
        let b: int = if s[a] == '0' {
            a + 1
        } else {
            digits_end(s, a)
        };
        if b + 1 <= s.len() {
            lemma_digits_end_bounds(s, b + 1);
        }
        if b < s.len() && s[b] == '.' && b + 1 < s.len() && is_digit(s[b + 1]) {
            let c: int = digits_end(s, b + 1);
            if c + 1 <= s.len() {
                lemma_digits_end_bounds(s, c + 1);
            }
            if c + 2 <= s.len() {
                lemma_digits_end_bounds(s, c + 2);
            }
        } else {
            if b + 1 <= s.len() {
                lemma_digits_end_bounds(s, b + 1);
            }
            if b + 2 <= s.len() {
                lemma_digits_end_bounds(s, b + 2);
            }
        }
    }
}

fn number_end_exec(s: &str, n: usize, i: usize) -> (r: Option<usize>)
    requires
        n == s@.len(),
        i <= n,
    ensures
        match r {
            Some(d) => spec_number_end(s@, i as int) == Some(d as int) && i < d <= n,
            None => spec_number_end(s@, i as int) is None,
        },
{
    proof {
        if spec_number_end(s@, i as int) is Some {
            lemma_number_end_bounds(s@, i as int);
        }
    }
    let a: usize = if i < n && s.get_char(i) == '-' {
        i + 1
    } else {
        i
    };
    if a < n && is_digit_exec(s.get_char(a)) {
        let b: usize = if s.get_char(a) == '0' {
            a + 1
        } else {
            digits_end_exec(s, n, a)
        };
        let c_opt: Option<usize> = if b < n && s.get_char(b) == '.' {
            if b + 1 < n && is_digit_exec(s.get_char(b + 1)) {
                Some(digits_end_exec(s, n, b + 1))
            } else {
                None
            }
        } else {
            Some(b)
        };
        match c_opt {
            None => None,
            Some(c) => {
                if c < n && (s.get_char(c) == 'e' || s.get_char(c) == 'E') {
                    let e0: usize = if c + 1 < n
                        && (s.get_char(c + 1) == '+' || s.get_char(c + 1) == '-') {
                        c + 2
                    } else {
                        c + 1
                    };
                    if e0 < n && is_digit_exec(s.get_char(e0)) {
                        Some(digits_end_exec(s, n, e0))
                    } else {
                        None
                    }
                } else {
                    Some(c)
                }
            },
        }
    } else {
        None
    }
}

// ---------------------------------------------------------------------------
// Decimal strings
// ---------------------------------------------------------------------------

/// End of a mantissa starting at `i`: digits with an optional point,
/// with digits on at least one side of the point.
pub open spec fn spec_mantissa_end(s: Seq<char>, i: int) -> Option<int> {
    let a: int = digits_end(s, i);
    if a > i {
        if a < s.len() && s[a] == '.' {
            Some(digits_end(s, a + 1))
        } else {
            Some(a)
        }
    } else if i < s.len() && s[i] == '.' {
        let b: int = digits_end(s, i + 1);
        if b > i + 1 {
            Some(b)
        } else {
            None
        }
    } else {
        None
    }
}

/// The grammar of the decimal strings that carry the protocol's numeric
/// fields: an optional sign, a mantissa, an optional exponent.
pub open spec fn is_decimal_str(s: Seq<char>) -> bool {
    let i0: int = if s.len() > 0 && (s[0] == '+' || s[0] == '-') {
        1
    } else {
        0
    };
    match spec_mantissa_end(s, i0) {
        Some(m) => if m == s.len() {
            true
        } else if 0 <= m < s.len() && (s[m] == 'e' || s[m] == 'E') {
            let e0: int = if m + 1 < s.len() && (s[m + 1] == '+' || s[m + 1] == '-') {
                m + 2
            } else {
                m + 1
            };
            e0 < s.len() && digits_end(s, e0) == s.len()
        } else {
            false
        },
        None => false,
    }
}

/// Whether `s` is a decimal string, per `is_decimal_str`.
pub fn is_decimal_exec(s: &str) -> (r: bool)
    ensures
        r == is_decimal_str(s@),
{
    let n = s.unicode_len();
    let i0: usize = if n > 0 && (s.get_char(0) == '+' || s.get_char(0) == '-') {
        1
    } else {
        0
    };
    let a = digits_end_exec(s, n, i0);
    let m_opt: Option<usize> = if a > i0 {
        if a < n && s.get_char(a) == '.' {
            Some(digits_end_exec(s, n, a + 1))
        } else {
            Some(a)
        }
    } else if i0 < n && s.get_char(i0) == '.' {
        let b = digits_end_exec(s, n, i0 + 1);
        if b > i0 + 1 {
            Some(b)
        } else {
            None
        }
    } else {
        None
    };
    match m_opt {
        Some(m) => if m == n {
            true
        } else if s.get_char(m) == 'e' || s.get_char(m) == 'E' {
            let e0: usize = if m + 1 < n && (s.get_char(m + 1) == '+' || s.get_char(m + 1) == '-') {
                m + 2
            } else {
                m + 1
            };
            e0 < n && digits_end_exec(s, n, e0) == n
        } else {
            false
        },
        None => false,
    }
}

/// Whether `s` is exactly one JSON number token, per `is_number`.
pub fn is_number_exec(s: &str) -> (r: bool)
    ensures
        r == is_number(s@),
{
    let n = s.unicode_len();
    if n == 0 {
        return false;
    }
    match number_end_exec(s, n, 0) {
        Some(d) => d == n,
        None => false,
    }
}

// ---------------------------------------------------------------------------
// String bodies
// ---------------------------------------------------------------------------

/// The value of a hexadecimal digit, or 16 for any other character.
pub open spec fn hex_val(c: char) -> int {
    let u: int = (c as u32) as int;
    if 48 <= u && u <= 57 {
        u - 48
    } else if 97 <= u && u <= 102 {
        u - 87
    } else if 65 <= u && u <= 70 {
        u - 55
    } else {
        16
    }
}

/// The code the four hexadecimal digits at `i` spell, if they are four
/// hexadecimal digits.
pub open spec fn spec_hex4(s: Seq<char>, i: int) -> Option<int> {
    if i + 4 <= s.len() && hex_val(s[i]) < 16 && hex_val(s[i + 1]) < 16 && hex_val(s[i + 2]) < 16
        && hex_val(s[i + 3]) < 16 {
        Some(hex_val(s[i]) * 4096 + hex_val(s[i + 1]) * 256 + hex_val(s[i + 2]) * 16 + hex_val(
            s[i + 3],
        ))
    } else {
        None
    }
}

/// The character with scalar value `code`, where one exists.
pub open spec fn char_of(code: u32) -> char {
    choose|c: char| (#[trigger] (c as u32)) == code
}

pub proof fn lemma_char_of(c: char)
    ensures
        char_of(c as u32) == c,
{
    assert(c as u32 == c as u32);
}

fn hex_val_exec(c: char) -> (r: u32)
    ensures
        r as int == hex_val(c),
{
    let u = c as u32;
    if 48 <= u && u <= 57 {
        u - 48
    } else if 97 <= u && u <= 102 {
        u - 87
    } else if 65 <= u && u <= 70 {
        u - 55
    } else {
        16
    }
}

fn hex4_exec(s: &str, n: usize, i: usize) -> (r: Option<u32>)
    requires
        n == s@.len(),
        i <= n,
    ensures
        match r {
            Some(v) => spec_hex4(s@, i as int) == Some(v as int) && v < 0x10000,
            None => spec_hex4(s@, i as int) is None,
        },
{
    if n - i < 4 {
        return None;
    }
    let a = hex_val_exec(s.get_char(i));
    let b = hex_val_exec(s.get_char(i + 1));
    let c = hex_val_exec(s.get_char(i + 2));
    let d = hex_val_exec(s.get_char(i + 3));
    if a < 16 && b < 16 && c < 16 && d < 16 {
        Some(a * 4096 + b * 256 + c * 16 + d)
    } else {
        None
    }
}

/// Relies on char::from_u32: it returns the character with the given
/// scalar value, and `None` exactly for values that are no scalar
/// value (the surrogate range, and values above the highest code
/// point).
#[verifier::external_body]
fn char_from_u32(code: u32) -> (r: Option<char>)
    ensures
        match r {
            Some(c) => c as u32 == code,
            None => (0xD800 <= code && code <= 0xDFFF) || code > 0x10FFFF,
        },
{
    char::from_u32(code)
}

/// Relies on String::from for a character: the string of exactly that
/// one character.
#[verifier::external_body]
fn char_to_string(c: char) -> (r: String)
    ensures
        r@ == seq![c],
{
    String::from(c)
}

/// What a single-character escape decodes to, if it is a recognised one.
pub open spec fn esc_char(c: char) -> Option<char> {
    if c == '"' {
        Some('"')
    } else if c == '\\' {
        Some('\\')
    } else if c == '/' {
        Some('/')
    } else if c == 'b' {
        Some('\u{8}')
    } else if c == 'f' {
        Some('\u{c}')
    } else if c == 'n' {
        Some('\n')
    } else if c == 'r' {
        Some('\r')
    } else if c == 't' {
        Some('\t')
    } else {
        None
    }
}

/// Parse a string body starting at `i`, which is the index just after the
/// opening quote; on success return the decoded content and the index
/// just after the closing quote.
pub open spec fn spec_strbody(s: Seq<char>, i: int) -> Option<(Seq<char>, int)>
    decreases s.len() - i,
{
    if i < s.len() {
        let c = s[i];
        if c == '"' {
            Some((Seq::empty(), i + 1))
        } else if c == '\\' {
            if i + 1 < s.len() {
                if s[i + 1] == 'u' {
                    match spec_hex4(s, i + 2) {
                        Some(code) => if 0xD800 <= code && code <= 0xDBFF {
                            // a high surrogate: a low surrogate must follow
                            if i + 8 <= s.len() && s[i + 6] == '\\' && s[i + 7] == 'u' {
                                match spec_hex4(s, i + 8) {
                                    Some(low) => if 0xDC00 <= low && low <= 0xDFFF {
                                        match spec_strbody(s, i + 12) {
                                            Some((t, j)) => Some(
                                                (
                                                    seq![
                                                        char_of(
                                                            (0x10000 + (code - 0xD800) * 1024 + (
                                                            low - 0xDC00)) as u32,
                                                        )
                                                    ] + t,
                                                    j,
                                                ),
                                            ),
                                            None => None,
                                        }
                                    } else {
                                        None
                                    },
                                    None => None,
                                }
                            } else {
                                None
                            }
                        } else if 0xDC00 <= code && code <= 0xDFFF {
                            // a lone low surrogate spells no character
                            None
                        } else {
                            match spec_strbody(s, i + 6) {
                                Some((t, j)) => Some((seq![char_of(code as u32)] + t, j)),
                                None => None,
                            }
                        },
                        None => None,
                    }
                } else {
                    match esc_char(s[i + 1]) {
                        Some(e) => match spec_strbody(s, i + 2) {
                            Some((t, j)) => Some((seq![e] + t, j)),
                            None => None,
                        },
                        None => None,
                    }
                }
            } else {
                None
            }
        } else if (c as u32) < 32 {
            None
        } else {
            match spec_strbody(s, i + 1) {
                Some((t, j)) => Some((seq![c] + t, j)),
                None => None,
            }
        }
    } else {
        None
    }
}

fn parse_strbody(s: &str, n: usize, i: usize) -> (r: Option<(String, usize)>)
    requires
        n == s@.len(),
        i <= n,
    ensures
        match r {
            Some(t) => spec_strbody(s@, i as int) == Some((t.0@, t.1 as int)) && i < t.1 <= n,
            None => spec_strbody(s@, i as int) is None,
        },
    decreases n - i,
{
    if i >= n {
        return None;
    }
    let c = s.get_char(i);
    if c == '"' {
        Some((String::new(), i + 1))
    } else if c == '\\' {
        if i + 1 < n {
            let e = s.get_char(i + 1);
            if e == 'u' {
                let code = match hex4_exec(s, n, i + 2) {
                    Some(v) => v,
                    None => {
                        return None;
                    },
                };
                if 0xD800 <= code && code <= 0xDBFF {
                    if n - i >= 8 && s.get_char(i + 6) == '\\' && s.get_char(i + 7) == 'u' {
                        let low = match hex4_exec(s, n, i + 8) {
                            Some(v) => v,
                            None => {
                                return None;
                            },
                        };
                        if 0xDC00 <= low && low <= 0xDFFF {
                            let cp: u32 = 0x10000 + (code - 0xD800) * 1024 + (low - 0xDC00);
                            let ch = match char_from_u32(cp) {
                                Some(ch) => ch,
                                None => {
                                    proof {
                                        assert(false);
                                    }
                                    return None;
                                },
                            };
                            proof {
                                lemma_char_of(ch);
                                assert(char_of(cp) == ch);
                            }
                            match parse_strbody(s, n, i + 12) {
                                Some((t, j)) => {
                                    let out = char_to_string(ch).concat(t.as_str());
                                    proof {
                                        assert(out@ =~= seq![ch] + t@);
                                    }
                                    return Some((out, j));
                                },
                                None => {
                                    return None;
                                },
                            }
                        } else {
                            return None;
                        }
                    } else {
                        return None;
                    }
                } else if 0xDC00 <= code && code <= 0xDFFF {
                    return None;
                } else {
                    let ch = match char_from_u32(code) {
                        Some(ch) => ch,
                        None => {
                            proof {
                                assert(false);
                            }
                            return None;
                        },
                    };
                    proof {
                        lemma_char_of(ch);
                        assert(char_of(code) == ch);
                    }
                    match parse_strbody(s, n, i + 6) {
                        Some((t, j)) => {
                            let out = char_to_string(ch).concat(t.as_str());
                            proof {
                                assert(out@ =~= seq![ch] + t@);
                            }
                            return Some((out, j));
                        },
                        None => {
                            return None;
                        },
                    }
                }
            }
            let lit: &str = if e == '"' {
                "\""
            } else if e == '\\' {
                "\\"
            } else if e == '/' {
                "/"
            } else if e == 'b' {
                "\u{8}"
            } else if e == 'f' {
                "\u{c}"
            } else if e == 'n' {
                "\n"
            } else if e == 'r' {
                "\r"
            } else if e == 't' {
                "\t"
            } else {
                return None;
            };
            proof {
                reveal_strlit("\"");
                reveal_strlit("\\");
                reveal_strlit("/");
                reveal_strlit("\u{8}");
                reveal_strlit("\u{c}");
                reveal_strlit("\n");
                reveal_strlit("\r");
                reveal_strlit("\t");
            }
            match parse_strbody(s, n, i + 2) {
                Some((t, j)) => {
                    let out = String::from_str(lit).concat(t.as_str());
                    proof {
                        assert(out@ =~= seq![esc_char(s@[i + 1])->Some_0] + t@);
                    }
                    Some((out, j))
                },
                None => None,
            }
        } else {
            None
        }
    } else if (c as u32) < 32 {
        None
    } else {
        match parse_strbody(s, n, i + 1) {
            Some((t, j)) => {
                let piece = s.substring_char(i, i + 1);
                let out = String::from_str(piece).concat(t.as_str());
                proof {
                    assert(piece@ =~= seq![s@[i as int]]);
                    assert(out@ =~= seq![s@[i as int]] + t@);
                }
                Some((out, j))
            },
            None => None,
        }
    }
}

// ---------------------------------------------------------------------------
// Values and objects
// ---------------------------------------------------------------------------

/// Parse a value starting at `i`, leading whitespace allowed; on success
/// return the value and the index just after it.
pub open spec fn spec_value(s: Seq<char>, i: int) -> Option<(JsonV, int)>
    decreases s.len() - i,
{
    let j: int = spec_skip_ws(s, i);
    if i <= j && j < s.len() {
        let c = s[j];
        if c == '{' {
            match spec_members(s, j + 1) {
                Some((ms, k)) => Some((JsonV::Obj(ms), k)),
                None => None,
            }
        } else if c == '"' {
            match spec_strbody(s, j + 1) {
                Some((t, k)) => Some((JsonV::Str(t), k)),
                None => None,
            }
        } else if c == '-' || is_digit(c) {
            match spec_number_end(s, j) {
                Some(e) => Some((JsonV::Num(s.subrange(j, e)), e)),
                None => None,
            }
        } else if c == 't' {
            if j + 4 <= s.len() && s[j + 1] == 'r' && s[j + 2] == 'u' && s[j + 3] == 'e' {
                Some((JsonV::Bool(true), j + 4))
            } else {
                None
            }
        } else if c == 'f' {
            if j + 5 <= s.len() && s[j + 1] == 'a' && s[j + 2] == 'l' && s[j + 3] == 's'
                && s[j + 4] == 'e' {
                Some((JsonV::Bool(false), j + 5))
            } else {
                None
            }
        } else if c == 'n' {
            if j + 4 <= s.len() && s[j + 1] == 'u' && s[j + 2] == 'l' && s[j + 3] == 'l' {
                Some((JsonV::Null, j + 4))
            } else {
                None
            }
        } else {
            None
        }
    } else {
        None
    }
}

/// Parse the members of an object whose opening brace stands just before
/// `i`, up to and including the closing brace.
pub open spec fn spec_members(s: Seq<char>, i: int) -> Option<(Seq<(Seq<char>, JsonV)>, int)>
    decreases s.len() - i,
{
    let j: int = spec_skip_ws(s, i);
    if i <= j && j < s.len() {
        if s[j] == '}' {
            Some((Seq::empty(), j + 1))
        } else if s[j] == '"' {
            match spec_strbody(s, j + 1) {
                Some((key, a)) => {
                    let b: int = spec_skip_ws(s, a);
                    if a <= b && b < s.len() && s[b] == ':' && i < b + 1 {
                        match spec_value(s, b + 1) {
                            Some((v, d)) => {
                                let e: int = spec_skip_ws(s, d);
                                if i <= e && e < s.len() {
                                    if s[e] == ',' {
                                        match spec_members(s, e + 1) {
                                            Some((rest, f)) => if rest.len() > 0 {
                                                Some((seq![(key, v)] + rest, f))
                                            } else {
                                                // a comma must introduce a member,
                                                // not the closing brace
                                                None
                                            },
                                            None => None,
                                        }
                                    } else if s[e] == '}' {
                                        Some((seq![(key, v)], e + 1))
                                    } else {
                                        None
                                    }
                                } else {
                                    None
                                }
                            },
                            None => None,
                        }
                    } else {
                        None
                    }
                },
                None => None,
            }
        } else {
            None
        }
    } else {
        None
    }
}

/// A whole text: one value with nothing but whitespace around it.
pub open spec fn spec_parse_json(s: Seq<char>) -> Option<JsonV> {
    match spec_value(s, 0) {
        Some((v, j)) => if 0 <= j <= s.len() && spec_skip_ws(s, j) == s.len() {
            Some(v)
        } else {
            None
        },
        None => None,
    }
}

fn parse_value(s: &str, n: usize, i: usize) -> (r: Option<(Json, usize)>)
    requires
        n == s@.len(),
        i <= n,
    ensures
        match r {
            Some(t) => spec_value(s@, i as int) == Some((t.0@, t.1 as int)) && i < t.1 <= n,
            None => spec_value(s@, i as int) is None,
        },
    decreases n - i, 1int,
{
    let j = skip_ws(s, n, i);
    if j >= n {
        return None;
    }
    let c = s.get_char(j);
    if c == '{' {
        match parse_members(s, n, j + 1) {
            Some((ms, k)) => Some((Json::Obj(ms), k)),
            None => None,
        }
    } else if c == '"' {
        match parse_strbody(s, n, j + 1) {
            Some((t, k)) => Some((Json::Str(t), k)),
            None => None,
        }
    } else if c == '-' || is_digit_exec(c) {
        match number_end_exec(s, n, j) {
            Some(e) => {
                let tok = s.substring_char(j, e);
                Some((Json::Num(String::from_str(tok)), e))
            },
            None => None,
        }
    } else if c == 't' {
        if n - j >= 4 && s.get_char(j + 1) == 'r' && s.get_char(j + 2) == 'u'
            && s.get_char(j + 3) == 'e' {
            Some((Json::Bool(true), j + 4))
        } else {
            None
        }
    } else if c == 'f' {
        if n - j >= 5 && s.get_char(j + 1) == 'a' && s.get_char(j + 2) == 'l'
            && s.get_char(j + 3) == 's' && s.get_char(j + 4) == 'e' {
            Some((Json::Bool(false), j + 5))
        } else {
            None
        }
    } else if c == 'n' {
        if n - j >= 4 && s.get_char(j + 1) == 'u' && s.get_char(j + 2) == 'l'
            && s.get_char(j + 3) == 'l' {
            Some((Json::Null, j + 4))
        } else {
            None
        }
    } else {
        None
    }
}

fn parse_members(s: &str, n: usize, i: usize) -> (r: Option<(Vec<(String, Json)>, usize)>)
    requires
        n == s@.len(),
        i <= n,
    ensures
        match r {
            Some(t) => spec_members(s@, i as int) == Some((mview(t.0@), t.1 as int)) && i < t.1
                <= n,
            None => spec_members(s@, i as int) is None,
        },
    decreases n - i, 0int,
{
    let j = skip_ws(s, n, i);
    if j >= n {
        return None;
    }
    let cj = s.get_char(j);
    if cj == '}' {
        let out: Vec<(String, Json)> = Vec::new();
        proof {
            assert(mview(out@) =~= Seq::<(Seq<char>, JsonV)>::empty());
        }
        Some((out, j + 1))
    } else if cj == '"' {
        match parse_strbody(s, n, j + 1) {
            Some((key, a)) => {
                let b = skip_ws(s, n, a);
                if b >= n {
                    return None;
                }
                if s.get_char(b) != ':' {
                    return None;
                }
                match parse_value(s, n, b + 1) {
                    Some((v, d)) => {
                        let e = skip_ws(s, n, d);
                        if e >= n {
                            return None;
                        }
                        let ce = s.get_char(e);
                        if ce == ',' {
                            match parse_members(s, n, e + 1) {
                                Some((mut rest, f)) => {
                                    if rest.len() == 0 {
                                        proof {
                                            lemma_mview_len(rest@);
                                        }
                                        return None;
                                    }
                                    proof {
                                        lemma_mview_len(rest@);
                                    }
                                    let ghost restv = rest@;
                                    let mut out: Vec<(String, Json)> = Vec::new();
                                    out.push((key, v));
                                    out.append(&mut rest);
                                    proof {
                                        assert(out@ =~= seq![(key, v)] + restv);
                                        assert(out@.subrange(1, out@.len() as int) =~= restv);
                                        assert(mview(out@) =~= seq![(key@, jview(v))] + mview(
                                            restv,
                                        ));
                                    }
                                    Some((out, f))
                                },
                                None => None,
                            }
                        } else if ce == '}' {
                            let mut out: Vec<(String, Json)> = Vec::new();
                            out.push((key, v));
                            proof {
                                assert(out@.subrange(1, out@.len() as int)
                                    =~= Seq::<(String, Json)>::empty());
                                assert(mview(Seq::<(String, Json)>::empty())
                                    =~= Seq::<(Seq<char>, JsonV)>::empty());
                                assert(mview(out@) =~= seq![(key@, jview(v))]);
                            }
                            Some((out, e + 1))
                        } else {
                            None
                        }
                    },
                    None => None,
                }
            },
            None => None,
        }
    } else {
        None
    }
}

/// Parse a whole JSON text, per the protocol's grammar (no arrays).
pub fn parse_json(s: &str) -> (r: Option<Json>)
    ensures
        match r {
            Some(j) => spec_parse_json(s@) == Some(j@),
            None => spec_parse_json(s@) is None,
        },
{
    let n = s.unicode_len();
    match parse_value(s, n, 0) {
        Some((v, j)) => {
            let k = skip_ws(s, n, j);
            if k == n {
                Some(v)
            } else {
                None
            }
        },
        None => None,
    }
}

// ---------------------------------------------------------------------------
// Object lookup
// ---------------------------------------------------------------------------

/// The value of the first member named `k`, from `i` on.
pub open spec fn obj_get_at(ms: Seq<(Seq<char>, JsonV)>, k: Seq<char>, i: int) -> Option<JsonV>
    decreases ms.len() - i,
{
    if 0 <= i < ms.len() {
        if ms[i].0 == k {
            Some(ms[i].1)
        } else {
            obj_get_at(ms, k, i + 1)
        }
    } else {
        None
    }
}

/// The value of the first member named `k`, if any.
pub open spec fn obj_get(ms: Seq<(Seq<char>, JsonV)>, k: Seq<char>) -> Option<JsonV> {
    obj_get_at(ms, k, 0)
}

/// Whether two strings hold the same characters.
pub fn str_eq(a: &str, b: &str) -> (r: bool)
    ensures
        r == (a@ == b@),
{
    let sa = String::from_str(a);
    let sb = String::from_str(b);
    sa == sb
}

/// Look a member up by name, first match wins.
pub fn obj_lookup<'a>(ms: &'a Vec<(String, Json)>, k: &str) -> (r: Option<&'a Json>)
    ensures
        match r {
            Some(j) => obj_get(mview(ms@), k@) == Some(j@),
            None => obj_get(mview(ms@), k@) is None,
        },
{
    let mut i: usize = 0;
    proof {
        lemma_mview_len(ms@);
    }
    while i < ms.len()
        invariant
            i <= ms@.len(),
            mview(ms@).len() == ms@.len(),
            obj_get(mview(ms@), k@) == obj_get_at(mview(ms@), k@, i as int),
        decreases ms@.len() - i,
    {
        proof {
            lemma_mview_index(ms@, i as int);
        }
        if str_eq(ms[i].0.as_str(), k) {
            return Some(&ms[i].1);
        }
        i = i + 1;
    }
    None
}

} // verus!
