use vstd::prelude::*;
use near_contract_standards::fungible_token::metadata::FungibleTokenMetadata;
use crate::exchange::TokenMetadata;

verus! {

/// A remote call's result as the fabric delivers it to a continuation.
///
/// `NotReady` must never reach a continuation: the fabric invokes one only
/// after every call of the batch has resolved, so the decoders below demand
/// its absence instead of handling it.
pub enum RemoteResult {
    NotReady,
    Successful(Vec<u8>),
    Failed,
}

/// The metadata record that `near_sdk::serde_json::from_slice` decodes from
/// a successful metadata fetch, reduced to the fields the exchange keeps;
/// `None` where the payload does not match the record's shape.
pub uninterp spec fn json_token_metadata(bytes: Seq<u8>) -> Option<TokenMetadata>;

/// The amount that `near_sdk::serde_json::from_slice` decodes from a
/// successful balance query, which a ledger reports as a base-10 string;
/// `None` where the payload does not match that shape.
pub uninterp spec fn json_u128(bytes: Seq<u8>) -> Option<u128>;

/// Relies on `near_sdk::serde_json::from_slice::<FungibleTokenMetadata>`:
/// the decoded record is a function of the bytes alone, and the call keeps
/// only the symbol and decimal precision of it.
#[verifier::external_body]
fn parse_metadata_bytes(bytes: &Vec<u8>) -> (r: Option<TokenMetadata>)
    ensures
        r == json_token_metadata(bytes@),
{
    match near_sdk::serde_json::from_slice::<FungibleTokenMetadata>(bytes) {
        Ok(m) => Some(TokenMetadata { symbol: m.symbol, decimals: m.decimals }),
        Err(_) => None,
    }
}

/// Relies on `near_sdk::serde_json::from_slice::<near_sdk::json_types::U128>`:
/// the decoded amount is a function of the bytes alone.
#[verifier::external_body]
fn parse_balance_bytes(bytes: &Vec<u8>) -> (r: Option<u128>)
    ensures
        r == json_u128(bytes@),
{
    match near_sdk::serde_json::from_slice::<near_sdk::json_types::U128>(bytes) {
        Ok(v) => Some(v.0),
        Err(_) => None,
    }
}

/// What decoding a metadata fetch yields: absence is the single failure
/// signal, for a reported remote failure and a malformed payload alike.
pub open spec fn decode_metadata_spec(r: RemoteResult) -> Option<TokenMetadata> {
    match r {
        RemoteResult::Successful(bytes) => json_token_metadata(bytes@),
        _ => None,
    }
}

/// Decodes the result of a metadata fetch; never panics.
pub fn decode_metadata(r: &RemoteResult) -> (m: Option<TokenMetadata>)
    requires
        !(r is NotReady),
    ensures
        m == decode_metadata_spec(*r),
{
    match r {
        RemoteResult::Successful(bytes) => parse_metadata_bytes(bytes),
        _ => None,
    }
}

/// What decoding a balance query yields: absence is the single failure
/// signal, for a reported remote failure and a malformed payload alike.
pub open spec fn decode_balance_spec(r: RemoteResult) -> Option<u128> {
    match r {
        RemoteResult::Successful(bytes) => json_u128(bytes@),
        _ => None,
    }
}

/// Decodes the result of a balance query; never panics.
pub fn decode_balance(r: &RemoteResult) -> (b: Option<u128>)
    requires
        !(r is NotReady),
    ensures
        b == decode_balance_spec(*r),
{
    match r {
        RemoteResult::Successful(bytes) => parse_balance_bytes(bytes),
        _ => None,
    }
}

} // verus!
