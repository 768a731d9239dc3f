//! What holds of a registry over any run of listings and delistings.

use crate::chain::{AccountAddress, Amount, ContractAddress, ContractTokenId};
use crate::state::{StateView, TokenInfo, TokenListState, TokenSaleState, TokenState};
use vstd::prelude::*;

verus! {

/// One change asked of the registry.
pub enum RegistryCall {
    List {
        token_id: ContractTokenId,
        nft_contract_address: ContractAddress,
        owner: AccountAddress,
        price: Amount,
        sale_type: u8,
        expiry: u64,
    },
    Delist { token_id: ContractTokenId, nft_contract_address: ContractAddress, owner: AccountAddress },
}

impl RegistryCall {
    /// The token that the call is about.
    pub open spec fn token(self) -> TokenInfo {
        match self {
            RegistryCall::List { token_id, nft_contract_address, .. } => TokenInfo {
                id: token_id,
                address: nft_contract_address,
            },
            RegistryCall::Delist { token_id, nft_contract_address, .. } => TokenInfo {
                id: token_id,
                address: nft_contract_address,
            },
        }
    }

    /// The call lists token `info`.
    pub open spec fn lists(self, info: TokenInfo) -> bool {
        self is List && self.token() == info
    }
}

impl StateView {
    /// The registry after one call.
    pub open spec fn after(self, call: RegistryCall) -> StateView {
        match call {
            RegistryCall::List { token_id, nft_contract_address, owner, price, sale_type, expiry } => self.list_token(
                token_id,
                nft_contract_address,
                owner,
                price,
                sale_type,
                expiry,
            ),
            RegistryCall::Delist { token_id, nft_contract_address, owner } => self.delist_token(
                token_id,
                nft_contract_address,
                owner,
            ),
        }
    }

    /// The registry after a run of calls, made in order.
    pub open spec fn after_all(self, calls: Seq<RegistryCall>) -> StateView
        decreases calls.len(),
    {
        if calls.len() == 0 {
            self
        } else {
            self.after(calls[0]).after_all(calls.drop_first())
        }
    }

    /// Every record is consistent.
    pub open spec fn consistent(self) -> bool {
        forall|info: TokenInfo| #[trigger] self.tokens.contains_key(info) ==> self.tokens[info].consistent()
    }
}

/// How many of the calls list token `info`.
pub open spec fn listings_of(calls: Seq<RegistryCall>, info: TokenInfo) -> nat
    decreases calls.len(),
{
    if calls.len() == 0 {
        0
    } else if calls[0].lists(info) {
        1 + listings_of(calls.drop_first(), info)
    } else {
        listings_of(calls.drop_first(), info)
    }
}

/// None of the calls is about token `info`.
pub open spec fn untouched(calls: Seq<RegistryCall>, info: TokenInfo) -> bool {
    forall|i: int| 0 <= i < calls.len() ==> (#[trigger] calls[i]).token() != info
}

/// The first call about token `info`, if there is one, lists it.
pub open spec fn listed_first(calls: Seq<RegistryCall>, info: TokenInfo) -> bool
    decreases calls.len(),
{
    if calls.len() == 0 {
        true
    } else if calls[0].token() == info {
        calls[0] is List
    } else {
        listed_first(calls.drop_first(), info)
    }
}

/// A call about one token leaves the record of every other token as it was.
pub proof fn lemma_call_keeps_other_tokens(state: StateView, call: RegistryCall, info: TokenInfo)
    requires
        call.token() != info,
    ensures
        state.after(call).get_token(info.id, info.address) == state.get_token(info.id, info.address),
{
}

/// No call changes the commission.
pub proof fn lemma_commission_is_fixed(state: StateView, calls: Seq<RegistryCall>)
    ensures
        state.after_all(calls).commission == state.commission,
    decreases calls.len(),
{
    if calls.len() > 0 {
        lemma_commission_is_fixed(state.after(calls[0]), calls.drop_first());
    }
}

/// No call removes a record: a token that the registry knows stays known.
pub proof fn lemma_known_token_stays_known(state: StateView, calls: Seq<RegistryCall>, info: TokenInfo)
    requires
        state.tokens.contains_key(info),
    ensures
        state.after_all(calls).tokens.contains_key(info),
    decreases calls.len(),
{
    if calls.len() > 0 {
        lemma_known_token_stays_known(state.after(calls[0]), calls.drop_first(), info);
    }
}

/// A token that no call is about keeps its record, or stays unknown: to a
/// registry that never heard of a token, the token has no record.
pub proof fn lemma_untouched_token_keeps_record(state: StateView, calls: Seq<RegistryCall>, info: TokenInfo)
    requires
        untouched(calls, info),
    ensures
        state.after_all(calls).get_token(info.id, info.address) == state.get_token(info.id, info.address),
    decreases calls.len(),
{
    if calls.len() > 0 {
        let rest = calls.drop_first();
        assert(calls[0].token() != info);
        assert forall|i: int| 0 <= i < rest.len() implies (#[trigger] rest[i]).token() != info by {
            assert(rest[i] == calls[i + 1]);
        }
        lemma_call_keeps_other_tokens(state, calls[0], info);
        lemma_untouched_token_keeps_record(state.after(calls[0]), rest, info);
    }
}

/// Delisting a token that the registry does not know gives it a record with
/// revision 0 that is not for sale.
pub proof fn lemma_delisting_unknown_token(
    state: StateView,
    token_id: ContractTokenId,
    nft_contract_address: ContractAddress,
    owner: AccountAddress,
)
    requires
        state.get_token(token_id, nft_contract_address) is None,
    ensures
        state.delist_token(token_id, nft_contract_address, owner).get_token(token_id, nft_contract_address)
            == Some(
            TokenState {
                counter: 0,
                curr_state: TokenListState::UnListed,
                owner,
                sale_state: TokenSaleState::unset(),
            },
        ),
{
}

/// Over any run of calls the revision of a known token grows by the number
/// of listings of that token in the run, whatever delistings lie between
/// them.
pub proof fn lemma_revision_grows_by_listings(state: StateView, calls: Seq<RegistryCall>, info: TokenInfo)
    requires
        state.tokens.contains_key(info),
        state.tokens[info].counter + listings_of(calls, info) <= u64::MAX,
    ensures
        state.after_all(calls).tokens.contains_key(info),
        state.after_all(calls).tokens[info].counter == state.tokens[info].counter + listings_of(
            calls,
            info,
        ),
    decreases calls.len(),
{
    if calls.len() > 0 {
        let next = state.after(calls[0]);
        if calls[0].token() != info {
            lemma_call_keeps_other_tokens(state, calls[0], info);
        }
        assert(next.tokens.contains_key(info));
        lemma_revision_grows_by_listings(next, calls.drop_first(), info);
    }
}

/// In a registry that did not know a token, the token's revision after a run
/// of calls is the number of listings of the token that came before the
/// last one: 0 after the first listing, 1 after the second, and so on. This
/// holds where the token was listed before it was ever delisted.
pub proof fn lemma_revision_counts_earlier_listings(
    state: StateView,
    calls: Seq<RegistryCall>,
    info: TokenInfo,
)
    requires
        !state.tokens.contains_key(info),
        listed_first(calls, info),
        1 <= listings_of(calls, info) <= u64::MAX + 1,
    ensures
        state.after_all(calls).tokens.contains_key(info),
        state.after_all(calls).tokens[info].counter == listings_of(calls, info) - 1,
    decreases calls.len(),
{
    let next = state.after(calls[0]);
    let rest = calls.drop_first();
    if calls[0].token() == info {
        assert(next.tokens[info].counter == 0);
        lemma_revision_grows_by_listings(next, rest, info);
    } else {
        lemma_call_keeps_other_tokens(state, calls[0], info);
        lemma_revision_counts_earlier_listings(next, rest, info);
    }
}

/// Whatever calls are made, a record that is not for sale carries no sale
/// metadata.
pub proof fn lemma_records_stay_consistent(state: StateView, calls: Seq<RegistryCall>)
    requires
        state.consistent(),
    ensures
        state.after_all(calls).consistent(),
    decreases calls.len(),
{
    if calls.len() > 0 {
        let next = state.after(calls[0]);
        assert forall|info: TokenInfo| #[trigger] next.tokens.contains_key(info) implies next.tokens[info].consistent() by {
            if calls[0].token() != info {
                assert(state.tokens.contains_key(info));
            }
        }
        lemma_records_stay_consistent(next, calls.drop_first());
    }
}

} // verus!
