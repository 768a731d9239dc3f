//! The client side of the CIS-2 protocol.
//!
//! Talking to a token contract takes a call into the chain, which this
//! library does not make. Each operation therefore comes in two halves: one
//! that says which call to make, and one that says what its outcome means.
//! Whoever holds the host makes the call in between.

use crate::chain::{AccountAddress, Address, Amount, ContractAddress, ContractTokenAmount, ContractTokenId};
use crate::cis2_types::{
    BalanceOfQuery, OperatorOfQuery, Receiver, ReceiverView, SupportResult, SupportResultView,
    Transfer, TransferView,
};
use crate::cis2_wire::{
    amounts_are_short, balance_of_queries_encoding, balance_of_response_decoding,
    decode_balance_of_response, decode_operator_of_response, decode_supports_response,
    encode_balance_of_queries, encode_operator_of_queries, encode_supports_queries,
    encode_transfers, has_short_amounts, operator_of_queries_encoding,
    operator_of_response_decoding, supports_queries_encoding, supports_response_decoding,
    transfers_encoding,
};
use crate::errors::Cis2ClientError;
use vstd::prelude::*;

verus! {

/// The entrypoint that tells which standards a contract supports.
pub const SUPPORTS_ENTRYPOINT_NAME: &'static str = "supports";

/// The entrypoint that tells whether one address is an operator of another.
pub const OPERATOR_OF_ENTRYPOINT_NAME: &'static str = "operatorOf";

/// The entrypoint that tells how much of a token an address holds.
pub const BALANCE_OF_ENTRYPOINT_NAME: &'static str = "balanceOf";

/// The entrypoint that moves tokens.
pub const TRANSFER_ENTRYPOINT_NAME: &'static str = "transfer";

/// The identifier of the token standard that the marketplace asks for.
pub const CIS2_STANDARD_IDENTIFIER: &'static str = "CIS-2";

/// How much of a token an owner must hold to count as holding it.
pub const MINIMUM_BALANCE: ContractTokenAmount = 1;

/// A call to make on another contract.
#[derive(Clone, Debug, PartialEq, Eq)]
pub struct ContractCall {
    /// The contract to call.
    pub contract: ContractAddress,
    /// The entrypoint of that contract.
    pub entrypoint: &'static str,
    /// The serialized parameter.
    pub parameter: Vec<u8>,
    /// The CCD to send along.
    pub amount: Amount,
}

/// A [`ContractCall`] as a mathematical value.
pub struct ContractCallView {
    pub contract: ContractAddress,
    pub entrypoint: Seq<char>,
    pub parameter: Seq<u8>,
    pub amount: Amount,
}

impl View for ContractCall {
    type V = ContractCallView;

    open spec fn view(&self) -> ContractCallView {
        ContractCallView {
            contract: self.contract,
            entrypoint: self.entrypoint@,
            parameter: self.parameter@,
            amount: self.amount,
        }
    }
}

/// How a call on another contract ended.
#[derive(Clone, Debug, PartialEq, Eq)]
pub enum InvokeOutcome {
    /// The call was not carried out, or the callee rejected it or trapped.
    Failed,
    /// The call went through and the callee returned nothing.
    NoReturnValue,
    /// The call went through and the callee returned these bytes.
    ReturnValue(Vec<u8>),
}

/// An [`InvokeOutcome`] as a mathematical value.
pub enum InvokeOutcomeView {
    Failed,
    NoReturnValue,
    ReturnValue(Seq<u8>),
}

impl View for InvokeOutcome {
    type V = InvokeOutcomeView;

    open spec fn view(&self) -> InvokeOutcomeView {
        match self {
            InvokeOutcome::Failed => InvokeOutcomeView::Failed,
            InvokeOutcome::NoReturnValue => InvokeOutcomeView::NoReturnValue,
            InvokeOutcome::ReturnValue(bytes) => InvokeOutcomeView::ReturnValue(bytes@),
        }
    }
}

/// The client through which the marketplace talks to a token contract.
pub struct Cis2Client;

impl Cis2Client {
    /// The call that asks `nft_contract_address` whether it supports the
    /// token standard.
    pub fn supports_cis2_call(nft_contract_address: &ContractAddress) -> (call: ContractCall)
        ensures
            call@ == Self::read_only_call(
                *nft_contract_address,
                SUPPORTS_ENTRYPOINT_NAME@,
                supports_queries_encoding(seq![CIS2_STANDARD_IDENTIFIER@]),
            ),
    {
        let mut queries: Vec<String> = Vec::new();
        queries.push(CIS2_STANDARD_IDENTIFIER.to_owned());
        proof {
            reveal_strlit("CIS-2");
            assert(queries.deep_view() =~= seq![CIS2_STANDARD_IDENTIFIER@]);
        }
        let parameter = encode_supports_queries(&queries);
        Self::invoke_contract_read_only(nft_contract_address, SUPPORTS_ENTRYPOINT_NAME, parameter)
    }

    /// What a list of support results says: the first result counts, and
    /// only a contract that supports the standard itself passes. Support
    /// through other contracts does not.
    pub open spec fn spec_supports_from_results(results: Seq<SupportResultView>) -> Result<
        bool,
        Cis2ClientError,
    > {
        if results.len() == 0 {
            Err(Cis2ClientError::InvokeContractError)
        } else {
            Ok(results[0] == SupportResultView::Support)
        }
    }

    /// What the outcome of a `supports` call says.
    pub open spec fn spec_supports_cis2(outcome: InvokeOutcomeView) -> Result<bool, Cis2ClientError> {
        match outcome {
            InvokeOutcomeView::ReturnValue(bytes) => match supports_response_decoding(bytes) {
                Some(results) => Self::spec_supports_from_results(results),
                None => Err(Cis2ClientError::ParseResult),
            },
            _ => Err(Cis2ClientError::InvokeContractError),
        }
    }

    /// Whether the called contract supports the token standard, given the
    /// outcome of the call from [`Cis2Client::supports_cis2_call`].
    pub fn supports_cis2(outcome: &InvokeOutcome) -> (supported: Result<bool, Cis2ClientError>)
        ensures
            supported == Self::spec_supports_cis2(outcome@),
            outcome@ is Failed || outcome@ is NoReturnValue ==> supported == Err::<bool, Cis2ClientError>(
                Cis2ClientError::InvokeContractError,
            ),
    {
        let bytes = Self::return_value(outcome)?;
        match decode_supports_response(bytes) {
            Ok(results) => Self::supports_from_results(&results),
            Err(_) => Err(Cis2ClientError::ParseResult),
        }
    }

    /// Whether a decoded list of support results grants support.
    pub fn supports_from_results(results: &Vec<SupportResult>) -> (supported: Result<
        bool,
        Cis2ClientError,
    >)
        ensures
            supported == Self::spec_supports_from_results(results.deep_view()),
            results.len() == 0 <==> supported == Err::<bool, Cis2ClientError>(
                Cis2ClientError::InvokeContractError,
            ),
            supported == Ok::<bool, Cis2ClientError>(true) <==> results.len() > 0 && results[0]
                == SupportResult::Support,
            supported != Err::<bool, Cis2ClientError>(Cis2ClientError::ParseResult),
    {
        if results.len() == 0 {
            return Err(Cis2ClientError::InvokeContractError);
        }
        assert(results.deep_view()[0] == results[0]@);
        let supports_cis2: bool = match &results[0] {
            SupportResult::NoSupport => false,
            SupportResult::Support => true,
            SupportResult::SupportBy(_) => false,
        };
        Ok(supports_cis2)
    }

    /// The call that asks `nft_contract_address` whether the contract
    /// `current_contract_address` may move the tokens of `owner`.
    pub fn is_operator_of_call(
        owner: Address,
        current_contract_address: ContractAddress,
        nft_contract_address: &ContractAddress,
    ) -> (call: ContractCall)
        ensures
            call@ == Self::read_only_call(
                *nft_contract_address,
                OPERATOR_OF_ENTRYPOINT_NAME@,
                operator_of_queries_encoding(
                    seq![
                        OperatorOfQuery { owner, address: Address::Contract(current_contract_address) },
                    ],
                ),
            ),
    {
        let mut queries: Vec<OperatorOfQuery> = Vec::new();
        queries.push(OperatorOfQuery { owner, address: Address::Contract(current_contract_address) });
        proof {
            assert(queries@ =~= seq![
                OperatorOfQuery { owner, address: Address::Contract(current_contract_address) },
            ]);
        }
        let parameter = encode_operator_of_queries(&queries);
        Self::invoke_contract_read_only(nft_contract_address, OPERATOR_OF_ENTRYPOINT_NAME, parameter)
    }

    /// What a list of operator answers says: the first answer counts.
    pub open spec fn spec_operator_from_results(results: Seq<bool>) -> Result<bool, Cis2ClientError> {
        if results.len() == 0 {
            Err(Cis2ClientError::InvokeContractError)
        } else {
            Ok(results[0])
        }
    }

    /// What the outcome of an `operatorOf` call says.
    pub open spec fn spec_is_operator_of(outcome: InvokeOutcomeView) -> Result<bool, Cis2ClientError> {
        match outcome {
            InvokeOutcomeView::ReturnValue(bytes) => match operator_of_response_decoding(bytes) {
                Some(results) => Self::spec_operator_from_results(results),
                None => Err(Cis2ClientError::ParseResult),
            },
            _ => Err(Cis2ClientError::InvokeContractError),
        }
    }

    /// Whether the marketplace is an operator of the owner, given the
    /// outcome of the call from [`Cis2Client::is_operator_of_call`].
    pub fn is_operator_of(outcome: &InvokeOutcome) -> (operator: Result<bool, Cis2ClientError>)
        ensures
            operator == Self::spec_is_operator_of(outcome@),
            outcome@ is Failed || outcome@ is NoReturnValue ==> operator == Err::<bool, Cis2ClientError>(
                Cis2ClientError::InvokeContractError,
            ),
    {
        let bytes = Self::return_value(outcome)?;
        match decode_operator_of_response(bytes) {
            Ok(results) => Self::operator_from_results(&results),
            Err(_) => Err(Cis2ClientError::ParseResult),
        }
    }

    /// Whether a decoded list of operator answers names an operator.
    pub fn operator_from_results(results: &Vec<bool>) -> (operator: Result<bool, Cis2ClientError>)
        ensures
            operator == Self::spec_operator_from_results(results@),
            results.len() == 0 <==> operator == Err::<bool, Cis2ClientError>(
                Cis2ClientError::InvokeContractError,
            ),
            results.len() > 0 ==> operator == Ok::<bool, Cis2ClientError>(results[0]),
    {
        if results.len() == 0 {
            return Err(Cis2ClientError::InvokeContractError);
        }
        Ok(results[0])
    }

    /// The call that asks `nft_contract_address` how much of `token_id` the
    /// address `owner` holds.
    pub fn has_balance_call(
        token_id: ContractTokenId,
        nft_contract_address: &ContractAddress,
        owner: Address,
    ) -> (call: ContractCall)
        ensures
            call@ == Self::read_only_call(
                *nft_contract_address,
                BALANCE_OF_ENTRYPOINT_NAME@,
                balance_of_queries_encoding(seq![BalanceOfQuery { token_id, address: owner }]),
            ),
    {
        let mut queries: Vec<BalanceOfQuery> = Vec::new();
        queries.push(BalanceOfQuery { token_id, address: owner });
        proof {
            assert(queries@ =~= seq![BalanceOfQuery { token_id, address: owner }]);
        }
        let parameter = encode_balance_of_queries(&queries);
        Self::invoke_contract_read_only(nft_contract_address, BALANCE_OF_ENTRYPOINT_NAME, parameter)
    }

    /// What a list of balances says: the first balance counts, and it
    /// suffices when it reaches `threshold`.
    pub open spec fn spec_balance_from_results(
        amounts: Seq<ContractTokenAmount>,
        threshold: ContractTokenAmount,
    ) -> Result<bool, Cis2ClientError> {
        if amounts.len() == 0 {
            Err(Cis2ClientError::InvokeContractError)
        } else {
            Ok(amounts[0] >= threshold)
        }
    }

    /// What the outcome of a `balanceOf` call says. An amount spelt in more
    /// than two bytes is no amount of this client's range, and is a parse
    /// error like any other malformed return value.
    pub open spec fn spec_has_balance(outcome: InvokeOutcomeView, threshold: ContractTokenAmount) -> Result<
        bool,
        Cis2ClientError,
    > {
        match outcome {
            InvokeOutcomeView::ReturnValue(bytes) => if !amounts_are_short(bytes) {
                Err(Cis2ClientError::ParseResult)
            } else {
                match balance_of_response_decoding(bytes) {
                    Some(amounts) => Self::spec_balance_from_results(amounts, threshold),
                    None => Err(Cis2ClientError::ParseResult),
                }
            },
            _ => Err(Cis2ClientError::InvokeContractError),
        }
    }

    /// Whether the owner holds at least one unit of the token, given the
    /// outcome of the call from [`Cis2Client::has_balance_call`].
    pub fn has_balance(outcome: &InvokeOutcome) -> (sufficient: Result<bool, Cis2ClientError>)
        ensures
            sufficient == Self::spec_has_balance(outcome@, MINIMUM_BALANCE),
            outcome@ is Failed || outcome@ is NoReturnValue ==> sufficient == Err::<
                bool,
                Cis2ClientError,
            >(Cis2ClientError::InvokeContractError),
    {
        Self::has_balance_of(outcome, MINIMUM_BALANCE)
    }

    /// Whether the owner holds at least `threshold` units of the token,
    /// given the outcome of the call from [`Cis2Client::has_balance_call`].
    pub fn has_balance_of(outcome: &InvokeOutcome, threshold: ContractTokenAmount) -> (sufficient: Result<
        bool,
        Cis2ClientError,
    >)
        ensures
            sufficient == Self::spec_has_balance(outcome@, threshold),
            outcome@ is Failed || outcome@ is NoReturnValue ==> sufficient == Err::<
                bool,
                Cis2ClientError,
            >(Cis2ClientError::InvokeContractError),
    {
        let bytes = Self::return_value(outcome)?;
        if !has_short_amounts(bytes) {
            return Err(Cis2ClientError::ParseResult);
        }
        match decode_balance_of_response(bytes) {
            Ok(amounts) => Self::balance_from_results(&amounts, threshold),
            Err(_) => Err(Cis2ClientError::ParseResult),
        }
    }

    /// Whether a decoded list of balances holds enough.
    pub fn balance_from_results(amounts: &Vec<ContractTokenAmount>, threshold: ContractTokenAmount) -> (sufficient: Result<
        bool,
        Cis2ClientError,
    >)
        ensures
            sufficient == Self::spec_balance_from_results(amounts@, threshold),
            amounts.len() == 0 <==> sufficient == Err::<bool, Cis2ClientError>(
                Cis2ClientError::InvokeContractError,
            ),
            amounts.len() > 0 ==> sufficient == Ok::<bool, Cis2ClientError>(amounts[0] >= threshold),
    {
        if amounts.len() == 0 {
            return Err(Cis2ClientError::InvokeContractError);
        }
        Ok(amounts[0] >= threshold)
    }

    /// The one transfer that [`Cis2Client::transfer_call`] asks for: from an
    /// account, with no additional data.
    pub open spec fn spec_transfer_order(
        token_id: ContractTokenId,
        amount: ContractTokenAmount,
        from: AccountAddress,
        to: ReceiverView,
    ) -> TransferView {
        TransferView { token_id, amount, from: Address::Account(from), to, data: Seq::empty() }
    }

    /// The call that asks `nft_contract_address` to move `amount` of
    /// `token_id` from the account `from` to `to`.
    pub fn transfer_call(
        token_id: ContractTokenId,
        nft_contract_address: ContractAddress,
        amount: ContractTokenAmount,
        from: AccountAddress,
        to: Receiver,
    ) -> (call: ContractCall)
        ensures
            call@ == Self::read_only_call(
                nft_contract_address,
                TRANSFER_ENTRYPOINT_NAME@,
                transfers_encoding(seq![Self::spec_transfer_order(token_id, amount, from, to@)]),
            ),
    {
        let ghost order = Self::spec_transfer_order(token_id, amount, from, to@);
        let mut transfers: Vec<Transfer> = Vec::new();
        transfers.push(Transfer { token_id, amount, from: Address::Account(from), data: Vec::new(), to });
        proof {
            assert(transfers[0]@ == order);
            assert(transfers.deep_view() =~= seq![order]);
        }
        let parameter = encode_transfers(&transfers);
        Self::invoke_contract_read_only(&nft_contract_address, TRANSFER_ENTRYPOINT_NAME, parameter)
    }

    /// What the outcome of a `transfer` call says: a call that went through
    /// and returned anything at all has transferred.
    pub open spec fn spec_transfer(outcome: InvokeOutcomeView) -> Result<bool, Cis2ClientError> {
        match outcome {
            InvokeOutcomeView::ReturnValue(_) => Ok(true),
            _ => Err(Cis2ClientError::InvokeContractError),
        }
    }

    /// Whether the transfer was made, given the outcome of the call from
    /// [`Cis2Client::transfer_call`]. What the callee returned is not read.
    pub fn transfer(outcome: &InvokeOutcome) -> (transferred: Result<bool, Cis2ClientError>)
        ensures
            transferred == Self::spec_transfer(outcome@),
            outcome@ is ReturnValue <==> transferred == Ok::<bool, Cis2ClientError>(true),
            !(outcome@ is ReturnValue) <==> transferred == Err::<bool, Cis2ClientError>(
                Cis2ClientError::InvokeContractError,
            ),
    {
        let _ = Self::return_value(outcome)?;
        Ok(true)
    }

    /// The bytes that a call returned. A call that failed, or that returned
    /// nothing, is an invocation error.
    pub open spec fn spec_return_value(outcome: InvokeOutcomeView) -> Result<Seq<u8>, Cis2ClientError> {
        match outcome {
            InvokeOutcomeView::ReturnValue(bytes) => Ok(bytes),
            _ => Err(Cis2ClientError::InvokeContractError),
        }
    }

    /// The bytes that a call returned.
    fn return_value(outcome: &InvokeOutcome) -> (bytes: Result<&Vec<u8>, Cis2ClientError>)
        ensures
            bytes matches Ok(b) ==> Self::spec_return_value(outcome@) == Ok::<
                Seq<u8>,
                Cis2ClientError,
            >(b@),
            bytes matches Err(e) ==> Self::spec_return_value(outcome@) == Err::<
                Seq<u8>,
                Cis2ClientError,
            >(e),
    {
        match outcome {
            InvokeOutcome::ReturnValue(bytes) => Ok(bytes),
            _ => Err(Cis2ClientError::InvokeContractError),
        }
    }

    /// A call that sends no CCD along.
    pub open spec fn read_only_call(
        contract: ContractAddress,
        entrypoint: Seq<char>,
        parameter: Seq<u8>,
    ) -> ContractCallView {
        ContractCallView { contract, entrypoint, parameter, amount: Amount::zero() }
    }

    /// The call on `entrypoint_name` of `contract_address` with `parameter`.
    /// Every call of this client is made this way, with no CCD sent along.
    fn invoke_contract_read_only(
        contract_address: &ContractAddress,
        entrypoint_name: &'static str,
        parameter: Vec<u8>,
    ) -> (call: ContractCall)
        ensures
            call@ == Self::read_only_call(*contract_address, entrypoint_name@, parameter@),
    {
        ContractCall {
            contract: *contract_address,
            entrypoint: entrypoint_name,
            parameter,
            amount: Amount::zero(),
        }
    }
}

} // verus!
