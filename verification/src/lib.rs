//! Client-side core for the Escher trading venue's REST interface.
//!
//! The library builds the JSON request bodies for the four operations
//! (sign in, refresh, quote, accept quote) and classifies every response
//! body by its shape: the expected success shape, the structured business
//! error shape `{success, message}`, or neither.  The HTTP transport
//! itself lives outside the library.

pub mod client;
pub mod decode;
pub mod encode;
pub mod json;
pub mod model;

pub use client::Client;
pub use client::Request;

pub use decode::classify_accept_quote_response;
pub use decode::classify_auth_response;
pub use decode::classify_quote_response;

pub use json::Json;
pub use model::AcceptQuote;
pub use model::AuthResponse;
pub use model::AuthResult;
pub use model::Error;
pub use model::EscherError;
pub use model::Number;
pub use model::Order;
pub use model::Quote;
pub use model::Side;
