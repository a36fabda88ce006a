//! Building the JSON request bodies the four operations send.
//!
//! Key order follows the protocol description: sign-in sends
//! `{email, password}`, refresh `{refreshToken, email}`, quote
//! `{product_id, base_currency_size, side}`, acceptance
//! `{quote_id, quantity?}` with `quantity` absent when the caller
//! accepts the full quoted size.

use vstd::prelude::*;
use vstd::string::*;
use crate::model::{Number, Side};

verus! {

/// The hexadecimal digit for `n`, for `n < 16`.
pub open spec fn hex_digit(n: u32) -> char {
    if n == 0 {
        '0'
    } else if n == 1 {
        '1'
    } else if n == 2 {
        '2'
    } else if n == 3 {
        '3'
    } else if n == 4 {
        '4'
    } else if n == 5 {
        '5'
    } else if n == 6 {
        '6'
    } else if n == 7 {
        '7'
    } else if n == 8 {
        '8'
    } else if n == 9 {
        '9'
    } else if n == 10 {
        'a'
    } else if n == 11 {
        'b'
    } else if n == 12 {
        'c'
    } else if n == 13 {
        'd'
    } else if n == 14 {
        'e'
    } else {
        'f'
    }
}

/// What a character contributes to a JSON string body: itself, or its
/// escape.
pub open spec fn esc_seq(c: char) -> Seq<char> {
    if c == '"' {
        seq!['\\', '"']
    } else if c == '\\' {
        seq!['\\', '\\']
    } else if c == '\n' {
        seq!['\\', 'n']
    } else if c == '\r' {
        seq!['\\', 'r']
    } else if c == '\t' {
        seq!['\\', 't']
    } else if (c as u32) < 32 {
        seq!['\\', 'u', '0', '0', hex_digit(c as u32 / 16), hex_digit(c as u32 % 16)]
    } else {
        seq![c]
    }
}

/// The body of a JSON string carrying `s`: each character in order,
/// escaped where JSON requires it.
pub open spec fn spec_escape(s: Seq<char>) -> Seq<char>
    decreases s.len(),
{
    if s.len() == 0 {
        Seq::empty()
    } else {
        spec_escape(s.drop_last()) + esc_seq(s.last())
    }
}

/// A whole JSON string: quotes around the escaped body.
pub open spec fn quoted(s: Seq<char>) -> Seq<char> {
    seq!['"'] + spec_escape(s) + seq!['"']
}

fn hex_digit_exec(n: u32) -> (r: &'static str)
    requires
        n < 16,
    ensures
        r@ == seq![hex_digit(n)],
{
    proof {
        reveal_strlit("0");
        reveal_strlit("1");
        reveal_strlit("2");
        reveal_strlit("3");
        reveal_strlit("4");
        reveal_strlit("5");
        reveal_strlit("6");
        reveal_strlit("7");
        reveal_strlit("8");
        reveal_strlit("9");
        reveal_strlit("a");
        reveal_strlit("b");
        reveal_strlit("c");
        reveal_strlit("d");
        reveal_strlit("e");
        reveal_strlit("f");
    }
    let r: &'static str = if n == 0 {
        "0"
    } else if n == 1 {
        "1"
    } else if n == 2 {
        "2"
    } else if n == 3 {
        "3"
    } else if n == 4 {
        "4"
    } else if n == 5 {
        "5"
    } else if n == 6 {
        "6"
    } else if n == 7 {
        "7"
    } else if n == 8 {
        "8"
    } else if n == 9 {
        "9"
    } else if n == 10 {
        "a"
    } else if n == 11 {
        "b"
    } else if n == 12 {
        "c"
    } else if n == 13 {
        "d"
    } else if n == 14 {
        "e"
    } else {
        "f"
    };
    proof {
        assert(r@ =~= seq![hex_digit(n)]);
    }
    r
}

/// Escape `s` as the body of a JSON string.
pub fn escape(s: &str) -> (r: String)
    ensures
        r@ == spec_escape(s@),
{
    let n = s.unicode_len();
    let mut acc = String::new();
    let mut i: usize = 0;
    proof {
        assert(s@.take(0) =~= Seq::<char>::empty());
    }
    while i < n
        invariant
            n == s@.len(),
            i <= n,
            acc@ == spec_escape(s@.take(i as int)),
        decreases n - i,
    {
        let c = s.get_char(i);
        proof {
            reveal_strlit("\\\"");
            reveal_strlit("\\\\");
            reveal_strlit("\\n");
            reveal_strlit("\\r");
            reveal_strlit("\\t");
            reveal_strlit("\\u00");
        }
        if c == '"' {
            acc.append("\\\"");
        } else if c == '\\' {
            acc.append("\\\\");
        } else if c == '\n' {
            acc.append("\\n");
        } else if c == '\r' {
            acc.append("\\r");
        } else if c == '\t' {
            acc.append("\\t");
        } else {
            let u = c as u32;
            if u < 32 {
                acc.append("\\u00");
                acc.append(hex_digit_exec(u / 16));
                acc.append(hex_digit_exec(u % 16));
            } else {
                let piece = s.substring_char(i, i + 1);
                proof {
                    assert(piece@ =~= seq![s@[i as int]]);
                }
                acc.append(piece);
            }
        }
        proof {
            assert(s@.take(i + 1).drop_last() =~= s@.take(i as int));
            assert(s@.take(i + 1).last() == s@[i as int]);
            assert(acc@ =~= spec_escape(s@.take(i + 1)));
        }
        i = i + 1;
    }
    proof {
        assert(s@.take(n as int) =~= s@);
    }
    acc
}

/// Append `s` to `b` as a whole JSON string, quotes included.
fn append_quoted(b: &mut String, s: &str)
    ensures
        final(b)@ == old(b)@ + quoted(s@),
{
    proof {
        reveal_strlit("\"");
    }
    b.append("\"");
    let e = escape(s);
    b.append(e.as_str());
    b.append("\"");
    proof {
        assert(b@ =~= old(b)@ + quoted(s@));
    }
}

/// `{"email": ..., "password": ...}`
pub open spec fn spec_sign_in_body(email: Seq<char>, password: Seq<char>) -> Seq<char> {
    "{\"email\":"@ + quoted(email) + ",\"password\":"@ + quoted(password) + "}"@
}

pub fn sign_in_body(email: &str, password: &str) -> (r: String)
    ensures
        r@ == spec_sign_in_body(email@, password@),
{
    let mut b = String::from_str("{\"email\":");
    append_quoted(&mut b, email);
    b.append(",\"password\":");
    append_quoted(&mut b, password);
    b.append("}");
    proof {
        assert(b@ =~= spec_sign_in_body(email@, password@));
    }
    b
}

/// `{"refreshToken": ..., "email": ...}`
pub open spec fn spec_refresh_body(token: Seq<char>, email: Seq<char>) -> Seq<char> {
    "{\"refreshToken\":"@ + quoted(token) + ",\"email\":"@ + quoted(email) + "}"@
}

pub fn refresh_body(token: &str, email: &str) -> (r: String)
    ensures
        r@ == spec_refresh_body(token@, email@),
{
    let mut b = String::from_str("{\"refreshToken\":");
    append_quoted(&mut b, token);
    b.append(",\"email\":");
    append_quoted(&mut b, email);
    b.append("}");
    proof {
        assert(b@ =~= spec_refresh_body(token@, email@));
    }
    b
}

/// `{"product_id": ..., "base_currency_size": ..., "side": ...}`;
/// the side serializes as its lowercase token.
pub open spec fn spec_quote_body(
    product_id: Seq<char>,
    base_currency_size: Seq<char>,
    side: Side,
) -> Seq<char> {
    "{\"product_id\":"@ + quoted(product_id) + ",\"base_currency_size\":"@ + quoted(
        base_currency_size,
    ) + ",\"side\":"@ + quoted(side.spec_token()) + "}"@
}

pub fn quote_body(product_id: &str, base_currency_size: &str, side: Side) -> (r: String)
    ensures
        r@ == spec_quote_body(product_id@, base_currency_size@, side),
{
    let mut b = String::from_str("{\"product_id\":");
    append_quoted(&mut b, product_id);
    b.append(",\"base_currency_size\":");
    append_quoted(&mut b, base_currency_size);
    b.append(",\"side\":");
    append_quoted(&mut b, side.token());
    b.append("}");
    proof {
        assert(b@ =~= spec_quote_body(product_id@, base_currency_size@, side));
    }
    b
}

/// `{"quote_id": ...}` for a full-size acceptance, or
/// `{"quote_id": ..., "quantity": ...}` with the quantity as a bare
/// number token for a partial fill.
pub open spec fn spec_accept_quote_body(quote_id: Seq<char>, quantity: Option<Seq<char>>) -> Seq<
    char,
> {
    match quantity {
        None => "{\"quote_id\":"@ + quoted(quote_id) + "}"@,
        Some(q) => "{\"quote_id\":"@ + quoted(quote_id) + ",\"quantity\":"@ + q + "}"@,
    }
}

pub fn accept_quote_body(quote_id: &str, quantity: Option<&Number>) -> (r: String)
    ensures
        r@ == spec_accept_quote_body(
            quote_id@,
            match quantity {
                Some(q) => Some(q@),
                None => None,
            },
        ),
{
    let mut b = String::from_str("{\"quote_id\":");
    append_quoted(&mut b, quote_id);
    match quantity {
        None => {
            b.append("}");
            proof {
                assert(b@ =~= spec_accept_quote_body(quote_id@, None));
            }
        },
        Some(q) => {
            b.append(",\"quantity\":");
            b.append(q.as_str());
            b.append("}");
            proof {
                assert(b@ =~= spec_accept_quote_body(quote_id@, Some(q@)));
            }
        },
    }
    b
}

} // verus!
