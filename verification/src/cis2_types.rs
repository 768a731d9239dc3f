//! The values exchanged with a CIS-2 token contract.

use crate::chain::{AccountAddress, Address, ContractAddress, ContractTokenAmount, ContractTokenId};
use vstd::prelude::*;

verus! {

/// Who receives a transfer: an account, or a contract together with the
/// entrypoint to notify.
#[derive(Clone, Debug, PartialEq, Eq)]
pub enum Receiver {
    Account(AccountAddress),
    Contract(ContractAddress, String),
}

/// A [`Receiver`] as a mathematical value.
pub enum ReceiverView {
    Account(AccountAddress),
    Contract(ContractAddress, Seq<char>),
}

impl View for Receiver {
    type V = ReceiverView;

    open spec fn view(&self) -> ReceiverView {
        match self {
            Receiver::Account(account) => ReceiverView::Account(*account),
            Receiver::Contract(contract, entrypoint) => ReceiverView::Contract(*contract, entrypoint@),
        }
    }
}

/// One transfer of some amount of a token.
#[derive(Clone, Debug, PartialEq, Eq)]
pub struct Transfer {
    pub token_id: ContractTokenId,
    pub amount: ContractTokenAmount,
    pub from: Address,
    pub to: Receiver,
    pub data: Vec<u8>,
}

/// A [`Transfer`] as a mathematical value.
pub struct TransferView {
    pub token_id: ContractTokenId,
    pub amount: ContractTokenAmount,
    pub from: Address,
    pub to: ReceiverView,
    pub data: Seq<u8>,
}

impl View for Transfer {
    type V = TransferView;

    open spec fn view(&self) -> TransferView {
        TransferView {
            token_id: self.token_id,
            amount: self.amount,
            from: self.from,
            to: self.to@,
            data: self.data@,
        }
    }
}

impl DeepView for Transfer {
    type V = TransferView;

    open spec fn deep_view(&self) -> TransferView {
        self@
    }
}

/// Asks how much of a token an address holds.
#[derive(Clone, Copy, Debug, PartialEq, Eq)]
pub struct BalanceOfQuery {
    pub token_id: ContractTokenId,
    pub address: Address,
}

/// Asks whether `address` may move the tokens of `owner`.
#[derive(Clone, Copy, Debug, PartialEq, Eq)]
pub struct OperatorOfQuery {
    pub owner: Address,
    pub address: Address,
}

/// Whether a contract supports a standard.
#[derive(Clone, Debug, PartialEq, Eq)]
pub enum SupportResult {
    /// The standard is not supported.
    NoSupport,
    /// The contract itself supports the standard.
    Support,
    /// Other contracts support the standard on behalf of this one.
    SupportBy(Vec<ContractAddress>),
}

/// A [`SupportResult`] as a mathematical value.
pub enum SupportResultView {
    NoSupport,
    Support,
    SupportBy(Seq<ContractAddress>),
}

impl View for SupportResult {
    type V = SupportResultView;

    open spec fn view(&self) -> SupportResultView {
        match self {
            SupportResult::NoSupport => SupportResultView::NoSupport,
            SupportResult::Support => SupportResultView::Support,
            SupportResult::SupportBy(contracts) => SupportResultView::SupportBy(contracts@),
        }
    }
}

impl DeepView for SupportResult {
    type V = SupportResultView;

    open spec fn deep_view(&self) -> SupportResultView {
        self@
    }
}

} // verus!
