//! The byte encodings of CIS-2 requests and responses, as `concordium-cis2`
//! writes and reads them.
//!
//! The `encode_` and `decode_` functions of this module are not proved: each
//! hands its argument to the outside crate, and its contract gives the result
//! a name. What the rest of the library knows of an encoding is that name.

use crate::chain::{AccountAddress, Address, ContractAddress, ContractTokenAmount};
use crate::cis2_types::{
    BalanceOfQuery, OperatorOfQuery, Receiver, SupportResult, SupportResultView, Transfer,
    TransferView,
};
use concordium_cis2::{
    AdditionalData, BalanceOfQueryParams, BalanceOfQueryResponse, OperatorOfQueryParams,
    OperatorOfQueryResponse, StandardIdentifierOwned, SupportsQueryParams, SupportsQueryResponse,
    TokenAmountU8, TokenIdU32, TransferParams,
};
use concordium_std::{
    from_bytes, to_bytes, AccountAddress as HostAccount, Address as HostAddress,
    ContractAddress as HostContract, OwnedEntrypointName, ParseError,
};
use vstd::prelude::*;
use vstd::utf8::is_ascii_chars;

verus! {

/// Why `concordium-std` could not read a value from bytes. It carries no
/// detail.
#[verifier::external_type_specification]
#[verifier::external_body]
pub struct ExParseError(ParseError);

/// The bytes of a `supports` parameter that asks about `standards`.
pub uninterp spec fn supports_queries_encoding(standards: Seq<Seq<char>>) -> Seq<u8>;

/// The bytes of an `operatorOf` parameter that holds `queries`.
pub uninterp spec fn operator_of_queries_encoding(queries: Seq<OperatorOfQuery>) -> Seq<u8>;

/// The bytes of a `balanceOf` parameter that holds `queries`.
pub uninterp spec fn balance_of_queries_encoding(queries: Seq<BalanceOfQuery>) -> Seq<u8>;

/// The bytes of a `transfer` parameter that holds `transfers`.
pub uninterp spec fn transfers_encoding(transfers: Seq<TransferView>) -> Seq<u8>;

/// The results that a `supports` return value holds, or `None` where the
/// bytes are not such a return value.
pub uninterp spec fn supports_response_decoding(bytes: Seq<u8>) -> Option<Seq<SupportResultView>>;

/// The answers that an `operatorOf` return value holds, or `None` where the
/// bytes are not such a return value.
pub uninterp spec fn operator_of_response_decoding(bytes: Seq<u8>) -> Option<Seq<bool>>;

/// The amounts that a `balanceOf` return value holds, or `None` where the
/// bytes are not such a return value.
pub uninterp spec fn balance_of_response_decoding(bytes: Seq<u8>) -> Option<Seq<ContractTokenAmount>>;

/// A standard identifier is at most 255 ASCII characters.
pub open spec fn is_standard_identifier(standard: Seq<char>) -> bool {
    standard.len() <= 255 && is_ascii_chars(standard)
}

/// Serializes a `concordium_cis2::SupportsQueryParams` with
/// `concordium_std::to_bytes`. The list is written behind a two-byte length
/// and each identifier behind a one-byte length, so both must fit.
#[verifier::external_body]
pub(crate) fn encode_supports_queries(standards: &Vec<String>) -> (bytes: Vec<u8>)
    requires
        standards.len() <= u16::MAX,
        forall|i: int| 0 <= i < standards.len() ==> is_standard_identifier(#[trigger] standards[i]@),
    ensures
        bytes@ == supports_queries_encoding(standards.deep_view()),
{
    let queries = standards.iter().map(|s| StandardIdentifierOwned::new_unchecked(s.clone())).collect();
    to_bytes(&SupportsQueryParams { queries })
}

/// Serializes a `concordium_cis2::OperatorOfQueryParams` with
/// `concordium_std::to_bytes`. The list is written behind a two-byte length,
/// which it must fit.
#[verifier::external_body]
pub(crate) fn encode_operator_of_queries(queries: &Vec<OperatorOfQuery>) -> (bytes: Vec<u8>)
    requires
        queries.len() <= u16::MAX,
    ensures
        bytes@ == operator_of_queries_encoding(queries@),
{
    let queries = queries.iter().map(|q| concordium_cis2::OperatorOfQuery {
        owner: match q.owner {
            Address::Account(a) => HostAddress::Account(HostAccount(a.0)),
            Address::Contract(c) => HostAddress::Contract(HostContract::new(c.index, c.subindex)),
        },
        address: match q.address {
            Address::Account(a) => HostAddress::Account(HostAccount(a.0)),
            Address::Contract(c) => HostAddress::Contract(HostContract::new(c.index, c.subindex)),
        },
    }).collect();
    to_bytes(&OperatorOfQueryParams { queries })
}

/// Serializes a `concordium_cis2::BalanceOfQueryParams<TokenIdU32>` with
/// `concordium_std::to_bytes`. The list is written behind a two-byte length,
/// which it must fit.
#[verifier::external_body]
pub(crate) fn encode_balance_of_queries(queries: &Vec<BalanceOfQuery>) -> (bytes: Vec<u8>)
    requires
        queries.len() <= u16::MAX,
    ensures
        bytes@ == balance_of_queries_encoding(queries@),
{
    let queries = queries.iter().map(|q| concordium_cis2::BalanceOfQuery {
        token_id: TokenIdU32(q.token_id),
        address: match q.address {
            Address::Account(a) => HostAddress::Account(HostAccount(a.0)),
            Address::Contract(c) => HostAddress::Contract(HostContract::new(c.index, c.subindex)),
        },
    }).collect();
    to_bytes(&BalanceOfQueryParams { queries })
}

/// Serializes a `concordium_cis2::TransferParams<TokenIdU32, TokenAmountU8>`
/// with `concordium_std::to_bytes`. The list, and the data of each transfer,
/// are written behind a two-byte length, which they must fit.
#[verifier::external_body]
pub(crate) fn encode_transfers(transfers: &Vec<Transfer>) -> (bytes: Vec<u8>)
    requires
        transfers.len() <= u16::MAX,
        forall|i: int| 0 <= i < transfers.len() ==> (#[trigger] transfers[i]).data.len() <= u16::MAX,
    ensures
        bytes@ == transfers_encoding(transfers.deep_view()),
{
    to_bytes(&TransferParams(transfers.iter().map(|t| concordium_cis2::Transfer {
        token_id: TokenIdU32(t.token_id),
        amount: TokenAmountU8(t.amount),
        from: match t.from {
            Address::Account(a) => HostAddress::Account(HostAccount(a.0)),
            Address::Contract(c) => HostAddress::Contract(HostContract::new(c.index, c.subindex)),
        },
        to: match &t.to {
            Receiver::Account(a) => concordium_cis2::Receiver::Account(HostAccount(a.0)),
            Receiver::Contract(c, f) => concordium_cis2::Receiver::Contract(HostContract::new(c.index, c.subindex), OwnedEntrypointName::new_unchecked(f.clone())),
        },
        data: AdditionalData::from(t.data.clone()),
    }).collect()))
}

/// Reads a `concordium_cis2::SupportsQueryResponse` from the front of
/// `bytes` with `concordium_std::from_bytes`.
#[verifier::external_body]
pub(crate) fn decode_supports_response(bytes: &Vec<u8>) -> (decoded: Result<Vec<SupportResult>, ParseError>)
    ensures
        decoded matches Ok(results) ==> supports_response_decoding(bytes@) == Some(results.deep_view()),
        decoded is Err ==> supports_response_decoding(bytes@) is None,
{
    let response: SupportsQueryResponse = from_bytes(bytes)?;
    Ok(response.results.into_iter().map(|r| match r {
        concordium_cis2::SupportResult::NoSupport => SupportResult::NoSupport,
        concordium_cis2::SupportResult::Support => SupportResult::Support,
        concordium_cis2::SupportResult::SupportBy(cs) => SupportResult::SupportBy(
            cs.into_iter().map(|c| ContractAddress { index: c.index, subindex: c.subindex }).collect(),
        ),
    }).collect())
}

/// Reads a `concordium_cis2::OperatorOfQueryResponse` from the front of
/// `bytes` with `concordium_std::from_bytes`.
#[verifier::external_body]
pub(crate) fn decode_operator_of_response(bytes: &Vec<u8>) -> (decoded: Result<Vec<bool>, ParseError>)
    ensures
        decoded matches Ok(results) ==> operator_of_response_decoding(bytes@) == Some(results@),
        decoded is Err ==> operator_of_response_decoding(bytes@) is None,
{
    let response: OperatorOfQueryResponse = from_bytes(bytes)?;
    Ok(response.0)
}

/// Reads a `concordium_cis2::BalanceOfQueryResponse<TokenAmountU8>` from the
/// front of `bytes` with `concordium_std::from_bytes`.
///
/// `TokenAmountU8` reads an amount byte by byte and shifts the `i`-th byte
/// left by `7 * i` bits within a `u8`. From the third byte of an amount on
/// that shift is wider than the type, which panics where overflow is
/// checked: such bytes are left out.
#[verifier::external_body]
pub(crate) fn decode_balance_of_response(bytes: &Vec<u8>) -> (decoded: Result<Vec<ContractTokenAmount>, ParseError>)
    requires
        amounts_are_short(bytes@),
    ensures
        decoded matches Ok(amounts) ==> balance_of_response_decoding(bytes@) == Some(amounts@),
        decoded is Err ==> balance_of_response_decoding(bytes@) is None,
{
    let response: BalanceOfQueryResponse<TokenAmountU8> = from_bytes(bytes)?;
    Ok(response.0.into_iter().map(|amount| amount.0).collect())
}

/// In a list of amounts that starts at `start`, none of the first `count`
/// has a third byte. An amount ends with its first byte below `0x80`; where
/// the bytes run out before that, it has no third byte either.
pub open spec fn short_amounts_from(bytes: Seq<u8>, start: int, count: nat) -> bool
    decreases count,
{
    if count == 0 || start >= bytes.len() {
        true
    } else if bytes[start] < 0x80 {
        short_amounts_from(bytes, start + 1, (count - 1) as nat)
    } else if start + 1 >= bytes.len() {
        true
    } else if bytes[start + 1] < 0x80 {
        short_amounts_from(bytes, start + 2, (count - 1) as nat)
    } else {
        start + 2 >= bytes.len()
    }
}

/// In a `balanceOf` return value, which announces the number of its amounts
/// in two bytes, low byte first, no announced amount has a third byte.
pub open spec fn amounts_are_short(bytes: Seq<u8>) -> bool {
    bytes.len() >= 2 ==> short_amounts_from(bytes, 2, (bytes[0] + 256 * bytes[1]) as nat)
}

/// Decides [`amounts_are_short`].
pub fn has_short_amounts(bytes: &Vec<u8>) -> (short: bool)
    ensures
        short == amounts_are_short(bytes@),
{
    if bytes.len() < 2 {
        return true;
    }
    let announced: usize = bytes[0] as usize + 256 * (bytes[1] as usize);
    let mut start: usize = 2;
    let mut left: usize = announced;
    while left > 0 && start < bytes.len()
        invariant
            2 <= start,
            amounts_are_short(bytes@) == short_amounts_from(bytes@, start as int, left as nat),
        decreases left,
    {
        if bytes[start] < 0x80 {
            start = start + 1;
        } else if bytes.len() - start < 2 {
            return true;
        } else if bytes[start + 1] < 0x80 {
            start = start + 2;
        } else {
            return bytes.len() - start < 3;
        }
        left = left - 1;
    }
    true
}

} // verus!
