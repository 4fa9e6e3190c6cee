use vstd::prelude::*;

verus! {

/// Everything that can go wrong while obtaining a quote: an unknown network
/// identifier, a transport-level failure, an unexpected HTTP status, or a
/// response body that does not match the quote schema.
#[derive(Debug)]
pub enum ZeroXClientError {
    InvalidChainId(u64),
    ZeroXQuoteError(String),
    ZeroXInvalidResponseStatusCode(u16),
    ZeroXInvalidResponse(String),
}

/// Everything that can go wrong while turning a quote into a transaction
/// request: a required field that the quote does not carry, or one whose
/// text cannot be parsed into its destination type. Both name the field.
#[derive(Debug)]
pub enum TransactionRequestError {
    MissingField(String),
    InvalidField(String),
}

} // verus!
