//! The domain model: what the venue's responses carry, and the error
//! taxonomy every operation reports.
//!
//! Numeric quantities travel on the wire as decimal strings; the model
//! keeps that text, validated against `is_decimal_str`, so that an
//! embedding application may convert it to whatever numeric type it
//! uses.  Timestamps are kept as the text the server sent: the client
//! never reads them, they are advisory data for the caller.

use vstd::prelude::*;
use vstd::string::*;
use crate::json::{is_number, is_number_exec};

verus! {

/// Direction of trade intent.
#[derive(Clone, Copy, PartialEq, Eq, Debug, Structural)]
pub enum Side {
    Buy,
    Sell,
}

impl Side {
    /// The token this side serializes to on the wire.
    pub open spec fn spec_token(self) -> Seq<char> {
        match self {
            Side::Buy => "buy"@,
            Side::Sell => "sell"@,
        }
    }

    /// The side a wire token decodes to, if either.
    pub open spec fn spec_from_token(t: Seq<char>) -> Option<Side> {
        if t == "buy"@ {
            Some(Side::Buy)
        } else if t == "sell"@ {
            Some(Side::Sell)
        } else {
            None
        }
    }

    pub fn token(&self) -> (r: &'static str)
        ensures
            r@ == self.spec_token(),
    {
        match self {
            Side::Buy => "buy",
            Side::Sell => "sell",
        }
    }

    pub fn from_token(t: &str) -> (r: Option<Side>)
        ensures
            r == Side::spec_from_token(t@),
    {
        if crate::json::str_eq(t, "buy") {
            Some(Side::Buy)
        } else if crate::json::str_eq(t, "sell") {
            Some(Side::Sell)
        } else {
            None
        }
    }
}

/// Encoding a side and decoding the token back yields the side again.
pub proof fn lemma_side_round_trip(s: Side)
    ensures
        Side::spec_from_token(s.spec_token()) == Some(s),
{
    reveal_strlit("buy");
    reveal_strlit("sell");
    assert("buy"@.len() == 3);
    assert("sell"@.len() == 4);
}

/// A number token, exactly as it will stand in a request body.
#[derive(Debug)]
pub struct Number {
    token: String,
}

impl View for Number {
    type V = Seq<char>;

    closed spec fn view(&self) -> Seq<char> {
        self.token@
    }
}

impl Number {
    /// Every value of the type holds a well-formed JSON number token.
    pub open spec fn wf(&self) -> bool {
        is_number(self@)
    }

    /// Accepts the text only if it is one JSON number token.
    pub fn new(token: String) -> (r: Option<Number>)
        ensures
            match r {
                Some(nr) => nr@ == token@ && nr.wf(),
                None => !is_number(token@),
            },
    {
        if is_number_exec(token.as_str()) {
            Some(Number { token })
        } else {
            None
        }
    }

    pub fn as_str(&self) -> (r: &str)
        ensures
            r@ == self@,
    {
        self.token.as_str()
    }
}

/// Session tokens issued by a successful sign-in or refresh.
#[derive(Debug)]
pub struct AuthResult {
    pub access_token: String,
    pub refresh_token: String,
}

pub struct AuthResultV {
    pub access_token: Seq<char>,
    pub refresh_token: Seq<char>,
}

impl View for AuthResult {
    type V = AuthResultV;

    open spec fn view(&self) -> AuthResultV {
        AuthResultV { access_token: self.access_token@, refresh_token: self.refresh_token@ }
    }
}

/// The success envelope of the sign-in endpoint.
#[derive(Debug)]
pub struct AuthResponse {
    pub authentication_result: AuthResult,
}

pub struct AuthResponseV {
    pub authentication_result: AuthResultV,
}

impl View for AuthResponse {
    type V = AuthResponseV;

    open spec fn view(&self) -> AuthResponseV {
        AuthResponseV { authentication_result: self.authentication_result@ }
    }
}

/// A firm, time-boxed price offer.  The numeric fields hold the wire's
/// decimal text; the timestamps hold the wire's text untouched.
#[derive(Debug)]
pub struct Quote {
    pub quote_id: String,
    pub product_id: String,
    pub base_currency: String,
    pub price: String,
    pub base_currency_size: String,
    pub quote_currency_size: String,
    pub side: Side,
    pub created_at: String,
    pub expiry: String,
}

pub struct QuoteV {
    pub quote_id: Seq<char>,
    pub product_id: Seq<char>,
    pub base_currency: Seq<char>,
    pub price: Seq<char>,
    pub base_currency_size: Seq<char>,
    pub quote_currency_size: Seq<char>,
    pub side: Side,
    pub created_at: Seq<char>,
    pub expiry: Seq<char>,
}

impl View for Quote {
    type V = QuoteV;

    open spec fn view(&self) -> QuoteV {
        QuoteV {
            quote_id: self.quote_id@,
            product_id: self.product_id@,
            base_currency: self.base_currency@,
            price: self.price@,
            base_currency_size: self.base_currency_size@,
            quote_currency_size: self.quote_currency_size@,
            side: self.side,
            created_at: self.created_at@,
            expiry: self.expiry@,
        }
    }
}

/// The execution record an accepted quote produces.
#[derive(Debug)]
pub struct Order {
    pub id: String,
    pub product_id: String,
    pub order_type: String,
    pub order_status: String,
    pub time_in_force: String,
    pub fill_price: String,
    pub fill_qty: String,
    pub price: String,
    pub order_size: String,
    pub client_side: Side,
    pub status: String,
    pub executed_value: String,
}

pub struct OrderV {
    pub id: Seq<char>,
    pub product_id: Seq<char>,
    pub order_type: Seq<char>,
    pub order_status: Seq<char>,
    pub time_in_force: Seq<char>,
    pub fill_price: Seq<char>,
    pub fill_qty: Seq<char>,
    pub price: Seq<char>,
    pub order_size: Seq<char>,
    pub client_side: Side,
    pub status: Seq<char>,
    pub executed_value: Seq<char>,
}

impl View for Order {
    type V = OrderV;

    open spec fn view(&self) -> OrderV {
        OrderV {
            id: self.id@,
            product_id: self.product_id@,
            order_type: self.order_type@,
            order_status: self.order_status@,
            time_in_force: self.time_in_force@,
            fill_price: self.fill_price@,
            fill_qty: self.fill_qty@,
            price: self.price@,
            order_size: self.order_size@,
            client_side: self.client_side,
            status: self.status@,
            executed_value: self.executed_value@,
        }
    }
}

/// The outcome envelope of an acceptance request.
#[derive(Debug)]
pub struct AcceptQuote {
    pub success: bool,
    pub quote_id: String,
    pub order: Order,
}

pub struct AcceptQuoteV {
    pub success: bool,
    pub quote_id: Seq<char>,
    pub order: OrderV,
}

impl View for AcceptQuote {
    type V = AcceptQuoteV;

    open spec fn view(&self) -> AcceptQuoteV {
        AcceptQuoteV { success: self.success, quote_id: self.quote_id@, order: self.order@ }
    }
}

/// A well-formed business rejection the server returns with transport
/// success: `{success, message}`.
#[derive(Debug)]
pub struct EscherError {
    pub success: bool,
    pub message: String,
}

pub struct EscherErrorV {
    pub success: bool,
    pub message: Seq<char>,
}

impl View for EscherError {
    type V = EscherErrorV;

    open spec fn view(&self) -> EscherErrorV {
        EscherErrorV { success: self.success, message: self.message@ }
    }
}

impl EscherError {
    /// The server's message, verbatim.
    pub fn text(&self) -> (r: String)
        ensures
            r@ == self.message@,
    {
        self.message.clone()
    }
}

/// Every operation returns its success value or one of these three:
/// a transport failure, a body matching neither expected shape, or the
/// server's structured business rejection.
#[derive(Debug)]
pub enum Error {
    NetworkingError(String),
    DecodingError(String),
    HandledError(EscherError),
}

} // verus!
