//! The API client: a base address and the four operations' outbound
//! requests.
//!
//! The client is stateless aside from its configured base address.  It
//! builds, for each operation, the full request — address, JSON body,
//! and the access-key header where one is required — and classifies the
//! response body the transport brings back (see `decode`).  Issuing the
//! request is the embedding application's part.

use vstd::prelude::*;
use vstd::string::*;
use crate::encode::{
    accept_quote_body, quote_body, refresh_body, sign_in_body, spec_accept_quote_body,
    spec_quote_body, spec_refresh_body, spec_sign_in_body,
};
use crate::model::{Number, Side};

verus! {

/// One outbound exchange, ready for the transport: where to post, what
/// to send, and the access key to attach, if the operation needs one.
pub struct Request {
    pub url: String,
    pub body: String,
    pub access_key: Option<String>,
}

/// The API client; holds nothing but the venue's base address.
pub struct Client {
    pub url: String,
}

impl Client {
    pub fn init(url: String) -> (c: Client)
        ensures
            c.url == url,
    {
        Client { url }
    }

    /// The sign-in request: credentials to the sign-in endpoint, no
    /// prior authentication.
    pub fn sign_in_request(&self, email: &str, password: &str) -> (r: Request)
        ensures
            r.url@ == self.url@ + "/sign-in"@,
            r.body@ == spec_sign_in_body(email@, password@),
            r.access_key is None,
    {
        Request {
            url: self.url.clone().concat("/sign-in"),
            body: sign_in_body(email, password),
            access_key: None,
        }
    }

    /// The refresh request: the refresh token and the email to the same
    /// sign-in endpoint, which tells the two apart by payload shape.
    pub fn refresh_token_request(&self, token: &str, email: &str) -> (r: Request)
        ensures
            r.url@ == self.url@ + "/sign-in"@,
            r.body@ == spec_refresh_body(token@, email@),
            r.access_key is None,
    {
        Request {
            url: self.url.clone().concat("/sign-in"),
            body: refresh_body(token, email),
            access_key: None,
        }
    }

    /// The quote request: product, requested base-currency size as the
    /// caller wrote it, and side; carries the access key.
    pub fn quote_request(
        &self,
        access_token: String,
        product_id: &str,
        base_currency_size: &str,
        side: Side,
    ) -> (r: Request)
        ensures
            r.url@ == self.url@ + "/quotes"@,
            r.body@ == spec_quote_body(product_id@, base_currency_size@, side),
            r.access_key == Some(access_token),
    {
        Request {
            url: self.url.clone().concat("/quotes"),
            body: quote_body(product_id, base_currency_size, side),
            access_key: Some(access_token),
        }
    }

    /// The acceptance request: the quote to accept and, for a partial
    /// fill, the quantity; carries the access key.  No quantity means
    /// the full quoted size.
    pub fn accept_quote_request(
        &self,
        access_token: String,
        quote_id: &str,
        quantity: Option<&Number>,
    ) -> (r: Request)
        ensures
            r.url@ == self.url@ + "/quotes/accept"@,
            r.body@ == spec_accept_quote_body(
                quote_id@,
                match quantity {
                    Some(q) => Some(q@),
                    None => None,
                },
            ),
            r.access_key == Some(access_token),
    {
        Request {
            url: self.url.clone().concat("/quotes/accept"),
            body: accept_quote_body(quote_id, quantity),
            access_key: Some(access_token),
        }
    }
}

} // verus!
