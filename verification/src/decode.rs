//! Shape-based response classification.
//!
//! The server answers every request with transport success, whether the
//! request worked or was rejected for a business reason; the only
//! reliable signal is the JSON body's shape.  So every response body is
//! parsed once into a generic value, that value is probed against the
//! operation's success shape first, and on failure against the
//! structured error shape `{success, message}`; a body matching neither
//! is a decoding error.

use vstd::prelude::*;
use vstd::string::*;
use crate::json::{
    Json, JsonV, is_decimal_str, is_decimal_exec, mview, obj_get, parse_json, spec_parse_json,
    obj_lookup,
};
use crate::model::{
    AcceptQuote, AcceptQuoteV, AuthResponse, AuthResponseV, AuthResult, AuthResultV, Error,
    EscherError, EscherErrorV, Order, OrderV, Quote, QuoteV, Side,
};

verus! {

// ---------------------------------------------------------------------------
// Typed probes of a generic value
// ---------------------------------------------------------------------------

/// The member named `k`, when it is a string.
pub open spec fn str_field(ms: Seq<(Seq<char>, JsonV)>, k: Seq<char>) -> Option<Seq<char>> {
    match obj_get(ms, k) {
        Some(JsonV::Str(t)) => Some(t),
        _ => None,
    }
}

/// The member named `k`, when it is a string holding a decimal number.
pub open spec fn decimal_field(ms: Seq<(Seq<char>, JsonV)>, k: Seq<char>) -> Option<Seq<char>> {
    match str_field(ms, k) {
        Some(t) => if is_decimal_str(t) {
            Some(t)
        } else {
            None
        },
        None => None,
    }
}

/// The member named `k`, when it is a boolean.
pub open spec fn bool_field(ms: Seq<(Seq<char>, JsonV)>, k: Seq<char>) -> Option<bool> {
    match obj_get(ms, k) {
        Some(JsonV::Bool(b)) => Some(b),
        _ => None,
    }
}

/// The member named `k`, when it is a side token.
pub open spec fn side_field(ms: Seq<(Seq<char>, JsonV)>, k: Seq<char>) -> Option<Side> {
    match str_field(ms, k) {
        Some(t) => Side::spec_from_token(t),
        None => None,
    }
}

/// The member named `k`, when it is an object: its members.
pub open spec fn obj_field(ms: Seq<(Seq<char>, JsonV)>, k: Seq<char>) -> Option<
    Seq<(Seq<char>, JsonV)>,
> {
    match obj_get(ms, k) {
        Some(JsonV::Obj(mms)) => Some(mms),
        _ => None,
    }
}

fn get_str(ms: &Vec<(String, Json)>, k: &str) -> (r: Option<String>)
    ensures
        match r {
            Some(t) => str_field(mview(ms@), k@) == Some(t@),
            None => str_field(mview(ms@), k@) is None,
        },
{
    match obj_lookup(ms, k) {
        Some(j) => match j {
            Json::Str(t) => Some(t.clone()),
            _ => None,
        },
        None => None,
    }
}

fn get_decimal(ms: &Vec<(String, Json)>, k: &str) -> (r: Option<String>)
    ensures
        match r {
            Some(t) => decimal_field(mview(ms@), k@) == Some(t@),
            None => decimal_field(mview(ms@), k@) is None,
        },
{
    match get_str(ms, k) {
        Some(t) => if is_decimal_exec(t.as_str()) {
            Some(t)
        } else {
            None
        },
        None => None,
    }
}

fn get_bool(ms: &Vec<(String, Json)>, k: &str) -> (r: Option<bool>)
    ensures
        match r {
            Some(b) => bool_field(mview(ms@), k@) == Some(b),
            None => bool_field(mview(ms@), k@) is None,
        },
{
    match obj_lookup(ms, k) {
        Some(j) => match j {
            Json::Bool(b) => Some(*b),
            _ => None,
        },
        None => None,
    }
}

fn get_side(ms: &Vec<(String, Json)>, k: &str) -> (r: Option<Side>)
    ensures
        match r {
            Some(sd) => side_field(mview(ms@), k@) == Some(sd),
            None => side_field(mview(ms@), k@) is None,
        },
{
    match get_str(ms, k) {
        Some(t) => Side::from_token(t.as_str()),
        None => None,
    }
}

fn get_obj<'a>(ms: &'a Vec<(String, Json)>, k: &str) -> (r: Option<&'a Vec<(String, Json)>>)
    ensures
        match r {
            Some(mms) => obj_field(mview(ms@), k@) == Some(mview(mms@)),
            None => obj_field(mview(ms@), k@) is None,
        },
{
    match obj_lookup(ms, k) {
        Some(j) => match j {
            Json::Obj(mms) => Some(mms),
            _ => None,
        },
        None => None,
    }
}

// ---------------------------------------------------------------------------
// The success shapes
// ---------------------------------------------------------------------------

/// The sign-in success shape:
/// `{AuthenticationResult: {AccessToken, RefreshToken, ...}, ...}`.
pub open spec fn spec_decode_auth(v: JsonV) -> Option<AuthResponseV> {
    match v {
        JsonV::Obj(ms) => match obj_field(ms, "AuthenticationResult"@) {
            Some(ams) => if str_field(ams, "AccessToken"@) is Some && str_field(
                ams,
                "RefreshToken"@,
            ) is Some {
                Some(
                    AuthResponseV {
                        authentication_result: AuthResultV {
                            access_token: str_field(ams, "AccessToken"@)->Some_0,
                            refresh_token: str_field(ams, "RefreshToken"@)->Some_0,
                        },
                    },
                )
            } else {
                None
            },
            None => None,
        },
        _ => None,
    }
}

/// The quote success shape; numeric fields are decimal strings, the
/// timestamps are taken as given.
pub open spec fn spec_decode_quote(v: JsonV) -> Option<QuoteV> {
    match v {
        JsonV::Obj(ms) => if str_field(ms, "quote_id"@) is Some && str_field(ms, "product_id"@)
            is Some && str_field(ms, "base_currency"@) is Some && decimal_field(ms, "price"@)
            is Some && decimal_field(ms, "base_currency_size"@) is Some && decimal_field(
            ms,
            "quote_currency_size"@,
        ) is Some && side_field(ms, "side"@) is Some && str_field(ms, "created_at"@) is Some
            && str_field(ms, "expiry"@) is Some {
            Some(
                QuoteV {
                    quote_id: str_field(ms, "quote_id"@)->Some_0,
                    product_id: str_field(ms, "product_id"@)->Some_0,
                    base_currency: str_field(ms, "base_currency"@)->Some_0,
                    price: decimal_field(ms, "price"@)->Some_0,
                    base_currency_size: decimal_field(ms, "base_currency_size"@)->Some_0,
                    quote_currency_size: decimal_field(ms, "quote_currency_size"@)->Some_0,
                    side: side_field(ms, "side"@)->Some_0,
                    created_at: str_field(ms, "created_at"@)->Some_0,
                    expiry: str_field(ms, "expiry"@)->Some_0,
                },
            )
        } else {
            None
        },
        _ => None,
    }
}

/// The order shape embedded in an acceptance envelope.
pub open spec fn spec_decode_order(v: JsonV) -> Option<OrderV> {
    match v {
        JsonV::Obj(ms) => if str_field(ms, "id"@) is Some && str_field(ms, "product_id"@) is Some
            && str_field(ms, "order_type"@) is Some && str_field(ms, "order_status"@) is Some
            && str_field(ms, "time_in_force"@) is Some && decimal_field(ms, "fill_price"@) is Some
            && decimal_field(ms, "fill_qty"@) is Some && decimal_field(ms, "price"@) is Some
            && decimal_field(ms, "order_size"@) is Some && side_field(ms, "client_side"@) is Some
            && str_field(ms, "status"@) is Some && decimal_field(ms, "executed_value"@) is Some {
            Some(
                OrderV {
                    id: str_field(ms, "id"@)->Some_0,
                    product_id: str_field(ms, "product_id"@)->Some_0,
                    order_type: str_field(ms, "order_type"@)->Some_0,
                    order_status: str_field(ms, "order_status"@)->Some_0,
                    time_in_force: str_field(ms, "time_in_force"@)->Some_0,
                    fill_price: decimal_field(ms, "fill_price"@)->Some_0,
                    fill_qty: decimal_field(ms, "fill_qty"@)->Some_0,
                    price: decimal_field(ms, "price"@)->Some_0,
                    order_size: decimal_field(ms, "order_size"@)->Some_0,
                    client_side: side_field(ms, "client_side"@)->Some_0,
                    status: str_field(ms, "status"@)->Some_0,
                    executed_value: decimal_field(ms, "executed_value"@)->Some_0,
                },
            )
        } else {
            None
        },
        _ => None,
    }
}

/// The acceptance success shape: `{success, quote_id, order: {...}}`.
pub open spec fn spec_decode_accept(v: JsonV) -> Option<AcceptQuoteV> {
    match v {
        JsonV::Obj(ms) => if bool_field(ms, "success"@) is Some && str_field(ms, "quote_id"@)
            is Some && obj_field(ms, "order"@) is Some && spec_decode_order(
            JsonV::Obj(obj_field(ms, "order"@)->Some_0),
        ) is Some {
            Some(
                AcceptQuoteV {
                    success: bool_field(ms, "success"@)->Some_0,
                    quote_id: str_field(ms, "quote_id"@)->Some_0,
                    order: spec_decode_order(JsonV::Obj(obj_field(ms, "order"@)->Some_0))->Some_0,
                },
            )
        } else {
            None
        },
        _ => None,
    }
}

/// The structured error shape: `{success, message}`.
pub open spec fn spec_decode_escher(v: JsonV) -> Option<EscherErrorV> {
    match v {
        JsonV::Obj(ms) => if bool_field(ms, "success"@) is Some && str_field(ms, "message"@)
            is Some {
            Some(
                EscherErrorV {
                    success: bool_field(ms, "success"@)->Some_0,
                    message: str_field(ms, "message"@)->Some_0,
                },
            )
        } else {
            None
        },
        _ => None,
    }
}

// ---------------------------------------------------------------------------
// Typed decoders
// ---------------------------------------------------------------------------

pub fn decode_auth(j: &Json) -> (r: Option<AuthResponse>)
    ensures
        match r {
            Some(a) => spec_decode_auth(j@) == Some(a@),
            None => spec_decode_auth(j@) is None,
        },
{
    match j {
        Json::Obj(ms) => match get_obj(ms, "AuthenticationResult") {
            Some(ams) => {
                let access_token = match get_str(ams, "AccessToken") {
                    Some(t) => t,
                    None => {
                        return None;
                    },
                };
                let refresh_token = match get_str(ams, "RefreshToken") {
                    Some(t) => t,
                    None => {
                        return None;
                    },
                };
                Some(
                    AuthResponse {
                        authentication_result: AuthResult { access_token, refresh_token },
                    },
                )
            },
            None => None,
        },
        _ => None,
    }
}

pub fn decode_quote(j: &Json) -> (r: Option<Quote>)
    ensures
        match r {
            Some(q) => spec_decode_quote(j@) == Some(q@),
            None => spec_decode_quote(j@) is None,
        },
{
    match j {
        Json::Obj(ms) => {
            let quote_id = match get_str(ms, "quote_id") {
                Some(t) => t,
                None => {
                    return None;
                },
            };
            let product_id = match get_str(ms, "product_id") {
                Some(t) => t,
                None => {
                    return None;
                },
            };
            let base_currency = match get_str(ms, "base_currency") {
                Some(t) => t,
                None => {
                    return None;
                },
            };
            let price = match get_decimal(ms, "price") {
                Some(t) => t,
                None => {
                    return None;
                },
            };
            let base_currency_size = match get_decimal(ms, "base_currency_size") {
                Some(t) => t,
                None => {
                    return None;
                },
            };
            let quote_currency_size = match get_decimal(ms, "quote_currency_size") {
                Some(t) => t,
                None => {
                    return None;
                },
            };
            let side = match get_side(ms, "side") {
                Some(sd) => sd,
                None => {
                    return None;
                },
            };
            let created_at = match get_str(ms, "created_at") {
                Some(t) => t,
                None => {
                    return None;
                },
            };
            let expiry = match get_str(ms, "expiry") {
                Some(t) => t,
                None => {
                    return None;
                },
            };
            Some(
                Quote {
                    quote_id,
                    product_id,
                    base_currency,
                    price,
                    base_currency_size,
                    quote_currency_size,
                    side,
                    created_at,
                    expiry,
                },
            )
        },
        _ => None,
    }
}

pub fn decode_order(j: &Json) -> (r: Option<Order>)
    ensures
        match r {
            Some(o) => spec_decode_order(j@) == Some(o@),
            None => spec_decode_order(j@) is None,
        },
{
    match j {
        Json::Obj(ms) => decode_order_members(ms),
        _ => None,
    }
}

pub fn decode_accept(j: &Json) -> (r: Option<AcceptQuote>)
    ensures
        match r {
            Some(a) => spec_decode_accept(j@) == Some(a@),
            None => spec_decode_accept(j@) is None,
        },
{
    match j {
        Json::Obj(ms) => {
            let success = match get_bool(ms, "success") {
                Some(b) => b,
                None => {
                    return None;
                },
            };
            let quote_id = match get_str(ms, "quote_id") {
                Some(t) => t,
                None => {
                    return None;
                },
            };
            let order_members = match get_obj(ms, "order") {
                Some(mms) => mms,
                None => {
                    return None;
                },
            };
            let order = match decode_order_members(order_members) {
                Some(o) => o,
                None => {
                    return None;
                },
            };
            Some(AcceptQuote { success, quote_id, order })
        },
        _ => None,
    }
}

/// The order decoder, applied to members already borrowed out of the
/// envelope.
fn decode_order_members(ms: &Vec<(String, Json)>) -> (r: Option<Order>)
    ensures
        match r {
            Some(o) => spec_decode_order(JsonV::Obj(mview(ms@))) == Some(o@),
            None => spec_decode_order(JsonV::Obj(mview(ms@))) is None,
        },
{
    let id = match get_str(ms, "id") {
        Some(t) => t,
        None => {
            return None;
        },
    };
    let product_id = match get_str(ms, "product_id") {
        Some(t) => t,
        None => {
            return None;
        },
    };
    let order_type = match get_str(ms, "order_type") {
        Some(t) => t,
        None => {
            return None;
        },
    };
    let order_status = match get_str(ms, "order_status") {
        Some(t) => t,
        None => {
            return None;
        },
    };
    let time_in_force = match get_str(ms, "time_in_force") {
        Some(t) => t,
        None => {
            return None;
        },
    };
    let fill_price = match get_decimal(ms, "fill_price") {
        Some(t) => t,
        None => {
            return None;
        },
    };
    let fill_qty = match get_decimal(ms, "fill_qty") {
        Some(t) => t,
        None => {
            return None;
        },
    };
    let price = match get_decimal(ms, "price") {
        Some(t) => t,
        None => {
            return None;
        },
    };
    let order_size = match get_decimal(ms, "order_size") {
        Some(t) => t,
        None => {
            return None;
        },
    };
    let client_side = match get_side(ms, "client_side") {
        Some(sd) => sd,
        None => {
            return None;
        },
    };
    let status = match get_str(ms, "status") {
        Some(t) => t,
        None => {
            return None;
        },
    };
    let executed_value = match get_decimal(ms, "executed_value") {
        Some(t) => t,
        None => {
            return None;
        },
    };
    Some(
        Order {
            id,
            product_id,
            order_type,
            order_status,
            time_in_force,
            fill_price,
            fill_qty,
            price,
            order_size,
            client_side,
            status,
            executed_value,
        },
    )
}

pub fn decode_escher(j: &Json) -> (r: Option<EscherError>)
    ensures
        match r {
            Some(e) => spec_decode_escher(j@) == Some(e@),
            None => spec_decode_escher(j@) is None,
        },
{
    match j {
        Json::Obj(ms) => {
            let success = match get_bool(ms, "success") {
                Some(b) => b,
                None => {
                    return None;
                },
            };
            let message = match get_str(ms, "message") {
                Some(t) => t,
                None => {
                    return None;
                },
            };
            Some(EscherError { success, message })
        },
        _ => None,
    }
}

// ---------------------------------------------------------------------------
// Classification
// ---------------------------------------------------------------------------

/// What classification makes of a generic value: the typed success
/// value, the structured business error, or neither shape.
pub enum Outcome<V> {
    Success(V),
    Handled(EscherErrorV),
    Undecodable,
}

pub open spec fn spec_classify_auth(v: JsonV) -> Outcome<AuthResponseV> {
    match spec_decode_auth(v) {
        Some(a) => Outcome::Success(a),
        None => match spec_decode_escher(v) {
            Some(e) => Outcome::Handled(e),
            None => Outcome::Undecodable,
        },
    }
}

pub open spec fn spec_classify_quote(v: JsonV) -> Outcome<QuoteV> {
    match spec_decode_quote(v) {
        Some(q) => Outcome::Success(q),
        None => match spec_decode_escher(v) {
            Some(e) => Outcome::Handled(e),
            None => Outcome::Undecodable,
        },
    }
}

pub open spec fn spec_classify_accept(v: JsonV) -> Outcome<AcceptQuoteV> {
    match spec_decode_accept(v) {
        Some(a) => Outcome::Success(a),
        None => match spec_decode_escher(v) {
            Some(e) => Outcome::Handled(e),
            None => Outcome::Undecodable,
        },
    }
}

pub fn classify_auth_response(body: &str) -> (r: Result<AuthResponse, Error>)
    ensures
        match spec_parse_json(body@) {
            None => r matches Err(Error::DecodingError(_)),
            Some(v) => match spec_classify_auth(v) {
                Outcome::Success(av) => r matches Ok(a) && a@ == av,
                Outcome::Handled(ev) => r matches Err(Error::HandledError(e)) && e@ == ev,
                Outcome::Undecodable => r matches Err(Error::DecodingError(_)),
            },
        },
{
    match parse_json(body) {
        None => Err(Error::DecodingError(String::from_str("the body is not JSON"))),
        Some(j) => match decode_auth(&j) {
            Some(a) => Ok(a),
            None => match decode_escher(&j) {
                Some(e) => Err(Error::HandledError(e)),
                None => Err(Error::DecodingError(String::from_str("unrecognised body shape"))),
            },
        },
    }
}

pub fn classify_quote_response(body: &str) -> (r: Result<Quote, Error>)
    ensures
        match spec_parse_json(body@) {
            None => r matches Err(Error::DecodingError(_)),
            Some(v) => match spec_classify_quote(v) {
                Outcome::Success(qv) => r matches Ok(q) && q@ == qv,
                Outcome::Handled(ev) => r matches Err(Error::HandledError(e)) && e@ == ev,
                Outcome::Undecodable => r matches Err(Error::DecodingError(_)),
            },
        },
{
    match parse_json(body) {
        None => Err(Error::DecodingError(String::from_str("the body is not JSON"))),
        Some(j) => match decode_quote(&j) {
            Some(q) => Ok(q),
            None => match decode_escher(&j) {
                Some(e) => Err(Error::HandledError(e)),
                None => Err(Error::DecodingError(String::from_str("unrecognised body shape"))),
            },
        },
    }
}

pub fn classify_accept_quote_response(body: &str) -> (r: Result<AcceptQuote, Error>)
    ensures
        match spec_parse_json(body@) {
            None => r matches Err(Error::DecodingError(_)),
            Some(v) => match spec_classify_accept(v) {
                Outcome::Success(av) => r matches Ok(a) && a@ == av,
                Outcome::Handled(ev) => r matches Err(Error::HandledError(e)) && e@ == ev,
                Outcome::Undecodable => r matches Err(Error::DecodingError(_)),
            },
        },
{
    match parse_json(body) {
        None => Err(Error::DecodingError(String::from_str("the body is not JSON"))),
        Some(j) => match decode_accept(&j) {
            Some(a) => Ok(a),
            None => match decode_escher(&j) {
                Some(e) => Err(Error::HandledError(e)),
                None => Err(Error::DecodingError(String::from_str("unrecognised body shape"))),
            },
        },
    }
}

// ---------------------------------------------------------------------------
// Laws of classification
// ---------------------------------------------------------------------------

/// A value of an operation's success shape classifies as that typed
/// success value, every field exactly as the body gave it.
pub proof fn lemma_success_shape_classifies(v: JsonV)
    ensures
        spec_decode_auth(v) matches Some(a) ==> spec_classify_auth(v) == Outcome::<
            AuthResponseV,
        >::Success(a),
        spec_decode_quote(v) matches Some(q) ==> spec_classify_quote(v) == Outcome::<
            QuoteV,
        >::Success(q),
        spec_decode_accept(v) matches Some(acc) ==> spec_classify_accept(v) == Outcome::<
            AcceptQuoteV,
        >::Success(acc),
{
}

/// A value that is exactly the structured error shape
/// `{success: false, message}` classifies as a handled error carrying
/// the message verbatim, whichever operation asked.
pub proof fn lemma_error_shape_classifies(m: Seq<char>)
    ensures
        ({
            let v = JsonV::Obj(
                seq![("success"@, JsonV::Bool(false)), ("message"@, JsonV::Str(m))],
            );
            let e = (EscherErrorV { success: false, message: m });
            &&& spec_classify_auth(v) == Outcome::<AuthResponseV>::Handled(e)
            &&& spec_classify_quote(v) == Outcome::<QuoteV>::Handled(e)
            &&& spec_classify_accept(v) == Outcome::<AcceptQuoteV>::Handled(e)
        }),
{
    reveal_strlit("success");
    reveal_strlit("message");
    reveal_strlit("quote_id");
    reveal_strlit("AuthenticationResult");
    reveal_with_fuel(crate::json::obj_get_at, 4);
    let v = JsonV::Obj(seq![("success"@, JsonV::Bool(false)), ("message"@, JsonV::Str(m))]);
    let ms = seq![("success"@, JsonV::Bool(false)), ("message"@, JsonV::Str(m))];
    assert("success"@.len() == 7);
    assert("message"@.len() == 7);
    assert("quote_id"@.len() == 8);
    assert("AuthenticationResult"@.len() == 20);
    assert(ms[0].0 == "success"@ && ms[1].0 == "message"@);
    assert("success"@[0] == 's' && "message"@[0] == 'm');
    assert("success"@ != "message"@);
    assert("success"@ != "quote_id"@ && "message"@ != "quote_id"@);
    assert("success"@ != "AuthenticationResult"@ && "message"@ != "AuthenticationResult"@);
    assert(obj_get(ms, "message"@) == Some(JsonV::Str(m)));
    assert(crate::json::obj_get_at(ms, "quote_id"@, 2) is None);
    assert(crate::json::obj_get_at(ms, "quote_id"@, 1) is None);
    assert(obj_get(ms, "quote_id"@) is None);
    assert(crate::json::obj_get_at(ms, "AuthenticationResult"@, 2) is None);
    assert(crate::json::obj_get_at(ms, "AuthenticationResult"@, 1) is None);
    assert(obj_get(ms, "AuthenticationResult"@) is None);
    assert(spec_decode_escher(v) == Some(EscherErrorV { success: false, message: m }));
}

/// A value matching neither an operation's success shape nor the error
/// shape classifies as undecodable: never a success, never a handled
/// error.
pub proof fn lemma_neither_shape_classifies(v: JsonV)
    requires
        spec_decode_escher(v) is None,
    ensures
        spec_decode_auth(v) is None ==> spec_classify_auth(v) == Outcome::<
            AuthResponseV,
        >::Undecodable,
        spec_decode_quote(v) is None ==> spec_classify_quote(v) == Outcome::<
            QuoteV,
        >::Undecodable,
        spec_decode_accept(v) is None ==> spec_classify_accept(v) == Outcome::<
            AcceptQuoteV,
        >::Undecodable,
{
}

} // verus!

