//! The registry of token listings.

use crate::chain::{AccountAddress, Amount, ContractAddress, ContractTokenId};
use vstd::prelude::*;

verus! {

/// Identifies a listable token: its id and the contract that issued it.
#[derive(Clone, Copy, Debug, PartialEq, Eq, Structural)]
pub struct TokenInfo {
    pub id: ContractTokenId,
    pub address: ContractAddress,
}

impl TokenInfo {
    pub open spec fn spec_new(id: ContractTokenId, address: ContractAddress) -> TokenInfo {
        TokenInfo { id, address }
    }

    #[verifier::when_used_as_spec(spec_new)]
    pub fn new(id: ContractTokenId, address: ContractAddress) -> (info: TokenInfo)
        ensures
            info == (TokenInfo { id, address }),
    {
        TokenInfo { id, address }
    }
}

/// Whether a token is for sale, and at what price.
#[derive(Clone, Copy, Debug, PartialEq, Eq, Structural)]
pub enum TokenListState {
    UnListed,
    Listed(Amount),
}

/// How a listed token is sold.
#[derive(Clone, Copy, Debug, PartialEq, Eq, Structural)]
pub enum TokenSaleTypeState {
    Fixed,
    Auction,
}

/// Sale metadata of a token.
#[derive(Clone, Copy, Debug, PartialEq, Eq)]
pub struct TokenSaleState {
    pub sale_type: TokenSaleTypeState,
    pub expiry: u64,
    pub highest_bidder: AccountAddress,
}

impl TokenSaleState {
    /// Sale metadata of a token that is not for sale: fixed price, no expiry,
    /// no bidder.
    pub open spec fn spec_unset() -> TokenSaleState {
        TokenSaleState {
            sale_type: TokenSaleTypeState::Fixed,
            expiry: 0,
            highest_bidder: AccountAddress::zero(),
        }
    }

    /// Sale metadata of a fresh listing. Flag 0 asks for a fixed-price sale,
    /// which has no expiry; any other flag asks for an auction that runs
    /// until `expiry`. No bid has been made either way.
    pub open spec fn spec_for_listing(sale_type: u8, expiry: u64) -> TokenSaleState {
        if sale_type == 0 {
            Self::spec_unset()
        } else {
            TokenSaleState {
                sale_type: TokenSaleTypeState::Auction,
                expiry,
                highest_bidder: AccountAddress::zero(),
            }
        }
    }

    pub fn new(sale_type: TokenSaleTypeState, expiry: u64, highest_bidder: AccountAddress) -> (sale: TokenSaleState)
        ensures
            sale == (TokenSaleState { sale_type, expiry, highest_bidder }),
    {
        TokenSaleState { sale_type, expiry, highest_bidder }
    }

    #[verifier::when_used_as_spec(spec_unset)]
    pub fn unset() -> (sale: TokenSaleState)
        ensures
            sale == Self::spec_unset(),
    {
        TokenSaleState::new(TokenSaleTypeState::Fixed, 0, AccountAddress::zero())
    }

    #[verifier::when_used_as_spec(spec_for_listing)]
    pub fn for_listing(sale_type: u8, expiry: u64) -> (sale: TokenSaleState)
        ensures
            sale == Self::spec_for_listing(sale_type, expiry),
            sale.highest_bidder == AccountAddress::zero(),
            sale_type == 0 ==> sale.sale_type == TokenSaleTypeState::Fixed && sale.expiry == 0,
            sale_type != 0 ==> sale.sale_type == TokenSaleTypeState::Auction && sale.expiry == expiry,
    {
        if sale_type == 0 {
            TokenSaleState::unset()
        } else {
            TokenSaleState::new(TokenSaleTypeState::Auction, expiry, AccountAddress::zero())
        }
    }
}

/// What the registry records for one token.
#[derive(Clone, Copy, Debug, PartialEq, Eq)]
pub struct TokenState {
    pub counter: u64,
    pub curr_state: TokenListState,
    pub owner: AccountAddress,
    pub sale_state: TokenSaleState,
}

impl TokenState {
    /// The record that listing a token leaves behind. `prior` is the token's
    /// record so far, if it has one: the revision counter starts at 0 and
    /// grows by one with each later listing.
    pub open spec fn spec_listed(
        prior: Option<TokenState>,
        owner: AccountAddress,
        price: Amount,
        sale_type: u8,
        expiry: u64,
    ) -> TokenState {
        TokenState {
            counter: match prior {
                Some(record) => (record.counter + 1) as u64,
                None => 0,
            },
            curr_state: TokenListState::Listed(price),
            owner,
            sale_state: TokenSaleState::for_listing(sale_type, expiry),
        }
    }

    /// The record that delisting a token leaves behind. `prior` is the
    /// token's record so far, if it has one: the revision counter is kept,
    /// and is 0 for a token that never had a record.
    pub open spec fn spec_delisted(prior: Option<TokenState>, owner: AccountAddress) -> TokenState {
        TokenState {
            counter: match prior {
                Some(record) => record.counter,
                None => 0,
            },
            curr_state: TokenListState::UnListed,
            owner,
            sale_state: TokenSaleState::unset(),
        }
    }

    /// A record is consistent when a token that is not for sale carries no
    /// sale metadata.
    pub open spec fn consistent(&self) -> bool {
        self.curr_state == TokenListState::UnListed ==> self.sale_state == TokenSaleState::unset()
    }

    #[verifier::when_used_as_spec(spec_listed)]
    pub fn listed(
        prior: Option<TokenState>,
        owner: AccountAddress,
        price: Amount,
        sale_type: u8,
        expiry: u64,
    ) -> (record: TokenState)
        requires
            prior matches Some(p) ==> p.counter < u64::MAX,
        ensures
            record == Self::spec_listed(prior, owner, price, sale_type, expiry),
            record.consistent(),
    {
        let counter: u64 = match prior {
            Some(r) => r.counter + 1,
            None => 0,
        };
        TokenState {
            owner,
            counter,
            curr_state: TokenListState::Listed(price),
            sale_state: TokenSaleState::for_listing(sale_type, expiry),
        }
    }

    #[verifier::when_used_as_spec(spec_delisted)]
    pub fn delisted(prior: Option<TokenState>, owner: AccountAddress) -> (record: TokenState)
        ensures
            record == Self::spec_delisted(prior, owner),
            record.consistent(),
    {
        let counter: u64 = match prior {
            Some(r) => r.counter,
            None => 0,
        };
        TokenState {
            owner,
            counter,
            curr_state: TokenListState::UnListed,
            sale_state: TokenSaleState::unset(),
        }
    }

    pub fn get_curr_state(&self) -> (s: TokenListState)
        ensures
            s == self.curr_state,
    {
        self.curr_state
    }

    pub fn get_owner(&self) -> (o: AccountAddress)
        ensures
            o == self.owner,
    {
        self.owner
    }

    pub fn is_listed(&self) -> (listed: bool)
        ensures
            listed <==> self.curr_state != TokenListState::UnListed,
    {
        match self.curr_state {
            TokenListState::UnListed => false,
            TokenListState::Listed(_) => true,
        }
    }

    pub fn get_price(&self) -> (price: Option<Amount>)
        ensures
            price is None <==> self.curr_state == TokenListState::UnListed,
            forall|p: Amount| price == Some(p) <==> self.curr_state == TokenListState::Listed(p),
    {
        match self.get_curr_state() {
            TokenListState::UnListed => Option::None,
            TokenListState::Listed(price) => Option::Some(price),
        }
    }
}

/// The marketplace's cut of a sale, in hundredths of a percent.
#[derive(Clone, Copy, Debug, PartialEq, Eq, Structural)]
pub struct Commission {
    pub percentage_basis: u8,
}

/// The commission a new registry starts with: 2.5 %.
pub const DEFAULT_COMMISSION_BASIS: u8 = 250;

/// The registry as a mathematical value: its commission and the record of
/// every token it knows.
pub struct StateView {
    pub commission: Commission,
    pub tokens: Map<TokenInfo, TokenState>,
}

impl StateView {
    /// The record of a token, if the registry knows the token.
    pub open spec fn get_token(self, token_id: ContractTokenId, nft_contract_address: ContractAddress) -> Option<TokenState> {
        let info = TokenInfo { id: token_id, address: nft_contract_address };
        if self.tokens.contains_key(info) {
            Some(self.tokens[info])
        } else {
            None
        }
    }

    /// The registry after a token has been listed.
    pub open spec fn list_token(
        self,
        token_id: ContractTokenId,
        nft_contract_address: ContractAddress,
        owner: AccountAddress,
        price: Amount,
        sale_type: u8,
        expiry: u64,
    ) -> StateView {
        let info = TokenInfo { id: token_id, address: nft_contract_address };
        let prior = self.get_token(token_id, nft_contract_address);
        StateView {
            commission: self.commission,
            tokens: self.tokens.insert(info, TokenState::listed(prior, owner, price, sale_type, expiry)),
        }
    }

    /// The registry after a token has been delisted.
    pub open spec fn delist_token(
        self,
        token_id: ContractTokenId,
        nft_contract_address: ContractAddress,
        owner: AccountAddress,
    ) -> StateView {
        let info = TokenInfo { id: token_id, address: nft_contract_address };
        let prior = self.get_token(token_id, nft_contract_address);
        StateView {
            commission: self.commission,
            tokens: self.tokens.insert(info, TokenState::delisted(prior, owner)),
        }
    }
}

/// The registry of token listings: one record per token that was ever listed
/// or delisted, and the marketplace's commission.
pub struct State {
    commission: Commission,
    tokens: Vec<(TokenInfo, TokenState)>,
}

/// No token has two entries.
spec fn distinct_tokens(entries: Seq<(TokenInfo, TokenState)>) -> bool {
    forall|i: int, j: int|
        0 <= i < entries.len() && 0 <= j < entries.len() && i != j ==> (#[trigger] entries[i]).0 != (#[trigger] entries[j]).0
}

/// Some entry is for token `info`.
spec fn has_entry(entries: Seq<(TokenInfo, TokenState)>, info: TokenInfo) -> bool {
    exists|i: int| 0 <= i < entries.len() && (#[trigger] entries[i]).0 == info
}

/// The position of an entry for token `info`.
spec fn entry_index(entries: Seq<(TokenInfo, TokenState)>, info: TokenInfo) -> int {
    choose|i: int| 0 <= i < entries.len() && (#[trigger] entries[i]).0 == info
}

/// The map that a list of entries stands for.
spec fn entries_map(entries: Seq<(TokenInfo, TokenState)>) -> Map<TokenInfo, TokenState> {
    Map::new(
        |info: TokenInfo| has_entry(entries, info),
        |info: TokenInfo| entries[entry_index(entries, info)].1,
    )
}

/// Each entry is found under its own token.
proof fn lemma_entry_found(entries: Seq<(TokenInfo, TokenState)>, i: int)
    requires
        distinct_tokens(entries),
        0 <= i < entries.len(),
    ensures
        entries_map(entries).contains_key(entries[i].0),
        entries_map(entries)[entries[i].0] == entries[i].1,
{
    let info = entries[i].0;
    assert(has_entry(entries, info));
    let j = entry_index(entries, info);
    assert(entries[j].0 == info);
    assert(j == i);
}

/// Replacing the record of entry `i` replaces it in the map.
proof fn lemma_entry_replaced(entries: Seq<(TokenInfo, TokenState)>, i: int, record: TokenState)
    requires
        distinct_tokens(entries),
        0 <= i < entries.len(),
    ensures
        distinct_tokens(entries.update(i, (entries[i].0, record))),
        entries_map(entries.update(i, (entries[i].0, record))) == entries_map(entries).insert(
            entries[i].0,
            record,
        ),
{
    let info = entries[i].0;
    let after = entries.update(i, (info, record));
    assert forall|k: TokenInfo| has_entry(after, k) <==> has_entry(entries, k) by {
        if has_entry(after, k) {
            assert(entries[entry_index(after, k)].0 == k);
        }
        if has_entry(entries, k) {
            assert(after[entry_index(entries, k)].0 == k);
        }
    }
    assert forall|k: TokenInfo| has_entry(after, k) implies #[trigger] entries_map(after)[k]
        == entries_map(entries).insert(info, record)[k] by {
        let a = entry_index(after, k);
        lemma_entry_found(after, a);
        if k != info {
            lemma_entry_found(entries, a);
        }
    }
    assert(entries_map(after) =~= entries_map(entries).insert(info, record));
}

/// Appending an entry for a token that has none adds it to the map.
proof fn lemma_entry_added(entries: Seq<(TokenInfo, TokenState)>, info: TokenInfo, record: TokenState)
    requires
        distinct_tokens(entries),
        !has_entry(entries, info),
    ensures
        distinct_tokens(entries.push((info, record))),
        entries_map(entries.push((info, record))) == entries_map(entries).insert(info, record),
{
    let after = entries.push((info, record));
    assert forall|k: TokenInfo| has_entry(after, k) <==> (k == info || has_entry(entries, k)) by {
        if has_entry(after, k) {
            let a = entry_index(after, k);
            if a < entries.len() {
                assert(entries[a].0 == k);
            }
        }
        if has_entry(entries, k) {
            assert(after[entry_index(entries, k)].0 == k);
        }
        if k == info {
            assert(after[entries.len() as int].0 == k);
        }
    }
    assert forall|k: TokenInfo| has_entry(after, k) implies #[trigger] entries_map(after)[k]
        == entries_map(entries).insert(info, record)[k] by {
        let a = entry_index(after, k);
        lemma_entry_found(after, a);
        if a < entries.len() {
            lemma_entry_found(entries, a);
        }
    }
    assert(entries_map(after) =~= entries_map(entries).insert(info, record));
}

impl View for State {
    type V = StateView;

    closed spec fn view(&self) -> StateView {
        StateView { commission: self.commission, tokens: entries_map(self.tokens@) }
    }
}

impl State {
    /// The registry holds at most one record per token. Every operation
    /// keeps it so.
    pub closed spec fn wf(&self) -> bool {
        distinct_tokens(self.tokens@)
    }

    /// A registry that knows no token, with the default commission.
    pub fn new() -> (state: State)
        ensures
            state.wf(),
            state@.tokens == Map::<TokenInfo, TokenState>::empty(),
            state@.commission == (Commission { percentage_basis: DEFAULT_COMMISSION_BASIS }),
    {
        let state = State {
            commission: Commission { percentage_basis: DEFAULT_COMMISSION_BASIS },
            tokens: Vec::new(),
        };
        assert(state@.tokens =~= Map::<TokenInfo, TokenState>::empty());
        state
    }

    /// The marketplace's commission.
    pub fn commission(&self) -> (commission: Commission)
        ensures
            commission == self@.commission,
    {
        self.commission
    }

    /// Lists a token for sale, replacing whatever record it had. The token's
    /// revision counter grows by one, or starts at 0 for a token without a
    /// record; a counter that has reached `u64::MAX` cannot grow. Neither the
    /// price nor the expiry is judged, and no bidder is carried over from an
    /// earlier listing.
    pub fn list_token(
        &mut self,
        token_id: ContractTokenId,
        nft_contract_address: ContractAddress,
        owner: AccountAddress,
        price: Amount,
        sale_type: u8,
        expiry: u64,
    )
        requires
            old(self).wf(),
            old(self)@.get_token(token_id, nft_contract_address) matches Some(record)
                ==> record.counter < u64::MAX,
        ensures
            final(self).wf(),
            final(self)@ == old(self)@.list_token(
                token_id,
                nft_contract_address,
                owner,
                price,
                sale_type,
                expiry,
            ),
            final(self)@.get_token(token_id, nft_contract_address) matches Some(record) && {
                &&& record.curr_state == TokenListState::Listed(price)
                &&& record.owner == owner
                &&& record.sale_state.highest_bidder == AccountAddress::zero()
                &&& sale_type == 0 ==> record.sale_state.sale_type == TokenSaleTypeState::Fixed
                    && record.sale_state.expiry == 0
                &&& sale_type != 0 ==> record.sale_state.sale_type == TokenSaleTypeState::Auction
                    && record.sale_state.expiry == expiry
                &&& old(self)@.get_token(token_id, nft_contract_address) is None ==> record.counter == 0
                &&& old(self)@.get_token(token_id, nft_contract_address) matches Some(prior)
                    ==> record.counter == prior.counter + 1
            },
    {
        let info = TokenInfo::new(token_id, nft_contract_address);
        let prior = self.token(&info);
        let record = TokenState::listed(prior, owner, price, sale_type, expiry);
        self.insert(info, record);
    }

    /// Takes a token off sale. Its sale metadata is reset and its revision
    /// counter kept; a token without a record gets one, with counter 0.
    pub fn delist_token(
        &mut self,
        token_id: ContractTokenId,
        nft_contract_address: ContractAddress,
        owner: AccountAddress,
    )
        requires
            old(self).wf(),
        ensures
            final(self).wf(),
            final(self)@ == old(self)@.delist_token(token_id, nft_contract_address, owner),
            final(self)@.get_token(token_id, nft_contract_address) matches Some(record) && {
                &&& record.curr_state == TokenListState::UnListed
                &&& record.owner == owner
                &&& record.sale_state == TokenSaleState::unset()
                &&& old(self)@.get_token(token_id, nft_contract_address) is None ==> record.counter == 0
                &&& old(self)@.get_token(token_id, nft_contract_address) matches Some(prior)
                    ==> record.counter == prior.counter
            },
    {
        let info = TokenInfo::new(token_id, nft_contract_address);
        let prior = self.token(&info);
        let record = TokenState::delisted(prior, owner);
        self.insert(info, record);
    }

    /// The current record of a token, if the registry knows the token.
    pub fn get_token(&self, token_id: ContractTokenId, nft_contract_address: ContractAddress) -> (record: Option<TokenState>)
        requires
            self.wf(),
        ensures
            record == self@.get_token(token_id, nft_contract_address),
            record is None <==> !self@.tokens.contains_key(
                TokenInfo::spec_new(token_id, nft_contract_address),
            ),
    {
        let info = TokenInfo::new(token_id, nft_contract_address);
        self.token(&info)
    }

    fn token(&self, info: &TokenInfo) -> (record: Option<TokenState>)
        requires
            self.wf(),
        ensures
            record == self@.get_token(info.id, info.address),
    {
        match self.position(info) {
            Some(i) => {
                proof {
                    lemma_entry_found(self.tokens@, i as int);
                }
                Some(self.tokens[i].1)
            },
            None => None,
        }
    }

    /// Where the entry of a token stands, if it has one.
    fn position(&self, info: &TokenInfo) -> (found: Option<usize>)
        ensures
            found matches Some(i) ==> i < self.tokens@.len() && self.tokens@[i as int].0 == *info,
            found is None ==> !has_entry(self.tokens@, *info),
    {
        let mut i: usize = 0;
        while i < self.tokens.len()
            invariant
                i <= self.tokens@.len(),
                forall|j: int| 0 <= j < i ==> (#[trigger] self.tokens@[j]).0 != *info,
            decreases self.tokens@.len() - i,
        {
            if self.tokens[i].0 == *info {
                return Some(i);
            }
            i += 1;
        }
        None
    }

    /// Stores `record` as the record of `info`, in place of any earlier one.
    fn insert(&mut self, info: TokenInfo, record: TokenState)
        requires
            old(self).wf(),
        ensures
            final(self).wf(),
            final(self)@.commission == old(self)@.commission,
            final(self)@.tokens == old(self)@.tokens.insert(info, record),
    {
        match self.position(&info) {
            Some(i) => {
                proof {
                    lemma_entry_replaced(self.tokens@, i as int, record);
                }
                self.tokens.set(i, (info, record));
            },
            None => {
                proof {
                    lemma_entry_added(self.tokens@, info, record);
                }
                self.tokens.push((info, record));
            },
        }
    }
}

} // verus!
