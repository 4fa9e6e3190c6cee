//! Client-side logic for requesting swap quotes from the 0x aggregator API:
//! resolving a chain id to an endpoint, encoding quote parameters as a query,
//! classifying and decoding HTTP replies, and turning a successful quote into
//! a minimal unsigned transaction request.

mod client;
mod errors;
mod json;
mod params;
mod response;
mod txreq;

pub use client::ZeroXClient;
pub use client::classify_reply;
pub use client::spec_base_url;
pub use errors::TransactionRequestError;
pub use errors::ZeroXClientError;
pub use json::JsonValue;
pub use params::ZeroXQuoteParams;
pub use params::encode_query;
pub use response::Fees;
pub use response::FillData;
pub use response::Order;
pub use response::Source;
pub use response::ZeroExFee;
pub use response::ZeroXQuoteResponse;
pub use response::decode_quote_response;
pub use txreq::Address;
pub use txreq::TransactionRequest;
pub use txreq::U256;
