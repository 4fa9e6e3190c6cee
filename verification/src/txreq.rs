use vstd::prelude::*;
use vstd::string::StringExecFns;

use crate::errors::TransactionRequestError;
use crate::response::ZeroXQuoteResponse;

verus! {

// ---------------------------------------------------------------------------
// Plain-value stand-ins for the blockchain primitives a transaction request
// carries: a 20-byte address, a 256-bit unsigned integer held as four
// little-endian 64-bit limbs, and call data as raw bytes.
// ---------------------------------------------------------------------------

/// A 20-byte account or contract address.
pub struct Address {
    pub bytes: [u8; 20],
}

/// A 256-bit unsigned integer as four 64-bit limbs, least significant first.
pub struct U256 {
    pub limbs: [u64; 4],
}

/// The integer a limb sequence denotes.
pub open spec fn u256_val(l: Seq<u64>) -> int {
    l[0] + l[1] * 0x10000000000000000 + l[2] * 0x100000000000000000000000000000000 + l[3]
        * 0x1000000000000000000000000000000000000000000000000
}

/// An unsigned, partially populated description of an on-chain call: only
/// the fields a quote provides are set; the caller fills in the rest before
/// signing.
pub struct TransactionRequest {
    pub from: Option<Address>,
    pub to: Option<Address>,
    pub gas: Option<U256>,
    pub gas_price: Option<U256>,
    pub value: Option<U256>,
    pub data: Option<Vec<u8>>,
    pub nonce: Option<U256>,
    pub chain_id: Option<u64>,
}

// ---------------------------------------------------------------------------
// What the delegated string parsers accept and return, stated exactly.
// ---------------------------------------------------------------------------

pub open spec fn is_dec_digit(c: char) -> bool {
    '0' as int <= c as int && c as int <= '9' as int
}

pub open spec fn is_hex_digit(c: char) -> bool {
    ||| ('0' as int <= c as int && c as int <= '9' as int)
    ||| ('a' as int <= c as int && c as int <= 'f' as int)
    ||| ('A' as int <= c as int && c as int <= 'F' as int)
}

pub open spec fn hex_val(c: char) -> int {
    if '0' as int <= c as int && c as int <= '9' as int {
        c as int - '0' as int
    } else if 'a' as int <= c as int && c as int <= 'f' as int {
        c as int - 'a' as int + 10
    } else {
        c as int - 'A' as int + 10
    }
}

/// The whitespace the address parser's hex reader skips over.
pub open spec fn is_hex_ws(c: char) -> bool {
    c == ' ' || c == '\r' || c == '\n' || c == '\t'
}

/// The bytes denoted by an even-length run of hex digits, two digits each.
pub open spec fn hex_bytes_of(u: Seq<char>) -> Seq<u8> {
    Seq::new((u.len() / 2) as nat, |i: int| (16 * hex_val(u[2 * i]) + hex_val(u[2 * i + 1])) as u8)
}

/// The 20 bytes an address string denotes, or `None` where the string is
/// rejected: after an optional lowercase `0x` prefix and ignoring skipped
/// whitespace, exactly forty hex digits are required.
pub open spec fn spec_parse_address(s: Seq<char>) -> Option<Seq<u8>> {
    let t = if s.len() >= 2 && s[0] == '0' && s[1] == 'x' {
        s.skip(2)
    } else {
        s
    };
    let u = t.filter(|c: char| !is_hex_ws(c));
    if u.len() == 40 && (forall|i: int| 0 <= i < u.len() ==> is_hex_digit(u[i])) {
        Some(hex_bytes_of(u))
    } else {
        None
    }
}

/// The bytes a hex string denotes, or `None` where the string is rejected:
/// an optional `0x` or `0X` prefix, then an even number of hex digits and
/// nothing else.
pub open spec fn spec_parse_hex_bytes(s: Seq<char>) -> Option<Seq<u8>> {
    let t = if s.len() >= 2 && s[0] == '0' && (s[1] == 'x' || s[1] == 'X') {
        s.skip(2)
    } else {
        s
    };
    if t.len() % 2 == 0 && (forall|i: int| 0 <= i < t.len() ==> is_hex_digit(t[i])) {
        Some(hex_bytes_of(t))
    } else {
        None
    }
}

/// The integer a run of decimal digits denotes; an empty run denotes zero.
pub open spec fn dec_val(s: Seq<char>) -> int
    decreases s.len(),
{
    if s.len() == 0 {
        0
    } else {
        dec_val(s.drop_last()) * 10 + (s.last() as int - '0' as int)
    }
}

/// The 256-bit integer a decimal string denotes, or `None` where the string
/// is rejected: every character must be a decimal digit and the value must
/// fit in 256 bits; an empty string denotes zero.
pub open spec fn spec_parse_u256_dec(s: Seq<char>) -> Option<int> {
    if (forall|i: int| 0 <= i < s.len() ==> is_dec_digit(s[i])) && dec_val(s)
        < 0x10000000000000000000000000000000000000000000000000000000000000000 {
        Some(dec_val(s))
    } else {
        None
    }
}

// ---------------------------------------------------------------------------
// The delegated parsers themselves.
// ---------------------------------------------------------------------------

/// Relies on str::parse::<ethers_core::types::Address>: strips one optional
/// lowercase `0x` prefix, reads hex digits while skipping blank, tab,
/// carriage-return and newline characters, and accepts exactly twenty bytes'
/// worth of digits; the result's bytes are returned as they are.
#[verifier::external_body]
fn parse_address(s: &str) -> (r: Option<Address>)
    ensures
        match r {
            Some(a) => spec_parse_address(s@) == Some(a.bytes@),
            None => spec_parse_address(s@) is None,
        },
{
    s.parse::<ethers_core::types::Address>().ok().map(|a| Address { bytes: a.0 })
}

/// Relies on str::parse::<ethers_core::types::Bytes>: requires an even
/// number of characters, strips one optional `0x` or `0X` prefix, and
/// decodes the rest as hex digits, two per byte, rejecting anything else.
#[verifier::external_body]
fn parse_hex_bytes(s: &str) -> (r: Option<Vec<u8>>)
    ensures
        match r {
            Some(b) => spec_parse_hex_bytes(s@) == Some(b@),
            None => spec_parse_hex_bytes(s@) is None,
        },
{
    s.parse::<ethers_core::types::Bytes>().ok().map(|b| b.to_vec())
}

/// Relies on ethers_core::types::U256::from_dec_str: accepts decimal digits
/// only (the empty string reads as zero), rejects values that overflow 256
/// bits, and returns the value as four little-endian limbs.
#[verifier::external_body]
fn parse_u256_dec(s: &str) -> (r: Option<U256>)
    ensures
        match r {
            Some(v) => spec_parse_u256_dec(s@) == Some(u256_val(v.limbs@)),
            None => spec_parse_u256_dec(s@) is None,
        },
{
    ethers_core::types::U256::from_dec_str(s).ok().map(|u| U256 { limbs: u.0 })
}

// ---------------------------------------------------------------------------
// Building a transaction request out of a quote.
// ---------------------------------------------------------------------------

impl ZeroXQuoteResponse {
    /// Builds a minimal unsigned transaction request from this quote. The
    /// quote must carry `to`, `data`, `value` and `gas_price`, checked in
    /// that order, and the first absent one is reported by name; each is
    /// then parsed in the same order — `to` as a 20-byte address, `data` as
    /// hex-encoded bytes, `value` and `gas_price` as decimal 256-bit
    /// integers — and the first rejected one is reported by name. On
    /// success exactly those four fields of the result are set.
    pub fn to_transaction_request(&self) -> (r: Result<
        TransactionRequest,
        TransactionRequestError,
    >)
        ensures
            match r {
                Ok(tx) => {
                    &&& self.to is Some && self.data is Some && self.value is Some
                        && self.gas_price is Some
                    &&& tx.to is Some && spec_parse_address(self.to->0@) == Some(tx.to->0.bytes@)
                    &&& tx.data is Some && spec_parse_hex_bytes(self.data->0@) == Some(tx.data->0@)
                    &&& tx.value is Some && spec_parse_u256_dec(self.value->0@) == Some(
                        u256_val(tx.value->0.limbs@),
                    )
                    &&& tx.gas_price is Some && spec_parse_u256_dec(self.gas_price->0@) == Some(
                        u256_val(tx.gas_price->0.limbs@),
                    )
                    &&& tx.from is None && tx.gas is None && tx.nonce is None && tx.chain_id
                        is None
                },
                Err(e) => match e {
                    TransactionRequestError::MissingField(f) => {
                        ||| (f@ == "to"@ && self.to is None)
                        ||| (f@ == "data"@ && self.to is Some && self.data is None)
                        ||| (f@ == "value"@ && self.to is Some && self.data is Some
                            && self.value is None)
                        ||| (f@ == "gas_price"@ && self.to is Some && self.data is Some
                            && self.value is Some && self.gas_price is None)
                    },
                    TransactionRequestError::InvalidField(f) => {
                        &&& self.to is Some && self.data is Some && self.value is Some
                            && self.gas_price is Some
                        &&& {
                            ||| (f@ == "to"@ && spec_parse_address(self.to->0@) is None)
                            ||| (f@ == "data"@ && spec_parse_address(self.to->0@) is Some
                                && spec_parse_hex_bytes(self.data->0@) is None)
                            ||| (f@ == "value"@ && spec_parse_address(self.to->0@) is Some
                                && spec_parse_hex_bytes(self.data->0@) is Some
                                && spec_parse_u256_dec(self.value->0@) is None)
                            ||| (f@ == "gas_price"@ && spec_parse_address(self.to->0@) is Some
                                && spec_parse_hex_bytes(self.data->0@) is Some
                                && spec_parse_u256_dec(self.value->0@) is Some
                                && spec_parse_u256_dec(self.gas_price->0@) is None)
                        }
                    },
                },
            },
    {
        let to_text = match &self.to {
            Some(s) => s,
            None => {
                return Err(TransactionRequestError::MissingField(String::from_str("to")));
            },
        };
        let data_text = match &self.data {
            Some(s) => s,
            None => {
                return Err(TransactionRequestError::MissingField(String::from_str("data")));
            },
        };
        let value_text = match &self.value {
            Some(s) => s,
            None => {
                return Err(TransactionRequestError::MissingField(String::from_str("value")));
            },
        };
        let gas_price_text = match &self.gas_price {
            Some(s) => s,
            None => {
                return Err(TransactionRequestError::MissingField(String::from_str("gas_price")));
            },
        };
        let to = match parse_address(to_text.as_str()) {
            Some(a) => a,
            None => {
                return Err(TransactionRequestError::InvalidField(String::from_str("to")));
            },
        };
        let data = match parse_hex_bytes(data_text.as_str()) {
            Some(b) => b,
            None => {
                return Err(TransactionRequestError::InvalidField(String::from_str("data")));
            },
        };
        let value = match parse_u256_dec(value_text.as_str()) {
            Some(v) => v,
            None => {
                return Err(TransactionRequestError::InvalidField(String::from_str("value")));
            },
        };
        let gas_price = match parse_u256_dec(gas_price_text.as_str()) {
            Some(v) => v,
            None => {
                return Err(TransactionRequestError::InvalidField(String::from_str("gas_price")));
            },
        };
        Ok(
            TransactionRequest {
                from: None,
                to: Some(to),
                gas: None,
                gas_price: Some(gas_price),
                value: Some(value),
                data: Some(data),
                nonce: None,
                chain_id: None,
            },
        )
    }
}

} // verus!

