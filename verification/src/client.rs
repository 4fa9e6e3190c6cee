use vstd::prelude::*;
use vstd::string::StringExecFns;

use crate::errors::ZeroXClientError;
use crate::json::json_of;
use crate::json::json_parse;
use crate::json::json_tree;
use crate::json::tree_of;
use crate::response::ZeroXQuoteResponse;
use crate::response::decode_quote_response;
use crate::response::spec_decode_quote;

verus! {

/// The base URL that the 0x service documents for a given network
/// identifier, or `None` for an unsupported identifier.
pub open spec fn spec_base_url(chain_id: u64) -> Option<Seq<char>> {
    if chain_id == 1 {
        Some("https://api.0x.org"@)
    } else if chain_id == 42161 {
        Some("https://arbitrum.api.0x.org"@)
    } else if chain_id == 43114 {
        Some("https://avalanche.api.0x.org"@)
    } else if chain_id == 250 {
        Some("https://fantom.api.0x.org"@)
    } else if chain_id == 137 {
        Some("https://polygon.api.0x.org"@)
    } else if chain_id == 42220 {
        Some("https://celo.api.0x.org"@)
    } else if chain_id == 56 {
        Some("https://bsc.api.0x.org"@)
    } else if chain_id == 10 {
        Some("https://optimism.api.0x.org"@)
    } else {
        None
    }
}

/// A quote client bound to one network's endpoint and one API key.
pub struct ZeroXClient {
    base_url: String,
    api_key: String,
}

impl ZeroXClient {
    pub closed spec fn spec_base_url_field(&self) -> Seq<char> {
        self.base_url@
    }

    pub closed spec fn spec_api_key(&self) -> Seq<char> {
        self.api_key@
    }

    /// Resolves `chain_id` to its documented base URL and stores it together
    /// with the API key; an unsupported identifier is rejected.
    pub fn new(chain_id: u64, api_key: String) -> (r: Result<ZeroXClient, ZeroXClientError>)
        ensures
            match r {
                Ok(c) => spec_base_url(chain_id) == Some(c.spec_base_url_field())
                    && c.spec_api_key() == api_key@,
                Err(e) => spec_base_url(chain_id) is None
                    && (e matches ZeroXClientError::InvalidChainId(id) && id == chain_id),
            },
    {
        let base_url: String = if chain_id == 1 {
            String::from_str("https://api.0x.org")
        } else if chain_id == 42161 {
            String::from_str("https://arbitrum.api.0x.org")
        } else if chain_id == 43114 {
            String::from_str("https://avalanche.api.0x.org")
        } else if chain_id == 250 {
            String::from_str("https://fantom.api.0x.org")
        } else if chain_id == 137 {
            String::from_str("https://polygon.api.0x.org")
        } else if chain_id == 42220 {
            String::from_str("https://celo.api.0x.org")
        } else if chain_id == 56 {
            String::from_str("https://bsc.api.0x.org")
        } else if chain_id == 10 {
            String::from_str("https://optimism.api.0x.org")
        } else {
            return Err(ZeroXClientError::InvalidChainId(chain_id));
        };
        Ok(ZeroXClient { base_url, api_key })
    }

    /// The base URL this client was constructed with.
    pub fn base_url(&self) -> (r: &String)
        ensures
            r@ == self.spec_base_url_field(),
    {
        &self.base_url
    }

    /// The API key this client was constructed with.
    pub fn api_key(&self) -> (r: &String)
        ensures
            r@ == self.spec_api_key(),
    {
        &self.api_key
    }

    /// The full URL of the quote endpoint under this client's base URL.
    pub fn quote_url(&self) -> (r: String)
        ensures
            r@ == self.spec_base_url_field() + "/swap/v1/quote"@,
    {
        self.base_url.clone().concat("/swap/v1/quote")
    }
}

/// Classifies the outcome of one quote request, given either the reply's
/// status code and body text or a transport-level cause of failure. A
/// transport failure and a non-200 status are surfaced as such, with the
/// body of a non-200 reply deliberately not parsed; a 200 body is parsed
/// and then strictly decoded into a quote, and each of the two steps
/// reports its own failure as a malformed response.
pub fn classify_reply(reply: Result<(u16, String), String>) -> (r: Result<
    ZeroXQuoteResponse,
    ZeroXClientError,
>)
    ensures
        reply is Err ==> (r matches Err(ZeroXClientError::ZeroXQuoteError(c)) && c@ == reply
            ->Err_0@),
        reply matches Ok(p) ==> {
            &&& p.0 != 200 ==> (r matches Err(
                ZeroXClientError::ZeroXInvalidResponseStatusCode(code),
            ) && code == p.0)
            &&& p.0 == 200 && json_of(p.1@) is None ==> (r matches Err(
                ZeroXClientError::ZeroXInvalidResponse(_),
            ))
            &&& p.0 == 200 && json_of(p.1@) is Some && spec_decode_quote(
                tree_of(json_of(p.1@)->0),
            ) is Err ==> (r matches Err(ZeroXClientError::ZeroXInvalidResponse(_)))
            &&& p.0 == 200 && json_of(p.1@) is Some && spec_decode_quote(
                tree_of(json_of(p.1@)->0),
            ) is Ok ==> (r matches Ok(resp) && resp.deep_view() == spec_decode_quote(
                tree_of(json_of(p.1@)->0),
            )->Ok_0)
        },
{
    match reply {
        Err(cause) => Err(ZeroXClientError::ZeroXQuoteError(cause)),
        Ok((status, body)) => {
            if status != 200 {
                return Err(ZeroXClientError::ZeroXInvalidResponseStatusCode(status));
            }
            match json_parse(body.as_str()) {
                Err(cause) => Err(ZeroXClientError::ZeroXInvalidResponse(cause)),
                Ok(doc) => {
                    let tree = json_tree(&doc);
                    match decode_quote_response(&tree) {
                        Ok(resp) => Ok(resp),
                        Err(_) => Err(
                            ZeroXClientError::ZeroXInvalidResponse(
                                String::from_str("response body does not match the quote schema"),
                            ),
                        ),
                    }
                },
            }
        },
    }
}

} // verus!
