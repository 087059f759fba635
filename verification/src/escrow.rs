use vstd::prelude::*;
use crate::assoc::{
    assoc_find, assoc_map, distinct_keys, lemma_assoc_contains, lemma_assoc_index,
    lemma_assoc_push, lemma_assoc_remove, lemma_assoc_update, lemma_disjoint_push_left,
    lemma_disjoint_remove_left, lemma_disjoint_sym, lemma_disjoint_update_left,
    lemma_distinct_push, lemma_distinct_remove, lemma_distinct_update, tables_disjoint,
};
use crate::errors::ErrorCode;
use crate::identity::{
    derive_offer_identity, derive_vault_identity, spec_offer_identity, spec_vault_identity,
    AccountId,
};
use crate::records::{
    ItemAccount, ItemAccountModel, MintAccount, MintAccountModel, Offer, OfferModel, TokenAccount,
    TokenAccountModel, POSSIBLE_NUM_OF_CHARS,
};

verus! {

/// The account context of a create-item submission: the three fresh
/// addresses to provision and the signing user.
#[derive(Clone, Copy, Debug)]
pub struct CreateItemAccount {
    pub item_account: AccountId,
    pub mint_account: AccountId,
    pub associated_token_account: AccountId,
    pub user: AccountId,
}

/// The account context of a create-offer submission.  The offer record and
/// custody addresses are not supplied: they are derived from the terms.
#[derive(Clone, Copy, Debug)]
pub struct CreateOffer {
    pub initializer: AccountId,
    pub initializer_token_account: AccountId,
    pub mint: AccountId,
    pub taker_token_account: AccountId,
}

/// The account context of an accept-offer submission.
#[derive(Clone, Copy, Debug)]
pub struct AcceptOffer {
    pub offer: AccountId,
    pub taker: AccountId,
    pub initializer: AccountId,
    pub taker_give_token_account: AccountId,
    pub vault_token_account: AccountId,
    pub taker_receive_token_account: AccountId,
    pub initializer_receive_token_account: AccountId,
}

/// The outcome of one ledger transfer of `amount` units from `from` to
/// `to`, authorized by `authority`: the error or success, paired with the
/// state after it.  On any error the state is unchanged; a transfer of an
/// account to itself is a no-op.
pub open spec fn spec_transfer(
    s: EscrowState,
    from: Seq<u8>,
    to: Seq<u8>,
    amount: u64,
    authority: Seq<u8>,
) -> (Result<(), ErrorCode>, EscrowState) {
    if !s.tokens.contains_key(from) {
        (Err(ErrorCode::UnknownAccount), s)
    } else if s.tokens[from].owner != authority {
        (Err(ErrorCode::UnauthorizedSource), s)
    } else if s.tokens[from].amount < amount {
        (Err(ErrorCode::InsufficientBalance), s)
    } else if !s.tokens.contains_key(to) {
        (Err(ErrorCode::UnknownAccount), s)
    } else if s.tokens[from].mint != s.tokens[to].mint {
        (Err(ErrorCode::MintMismatch), s)
    } else if from == to {
        (Ok(()), s)
    } else if s.tokens[to].amount + amount > u64::MAX {
        (Err(ErrorCode::AmountOverflow), s)
    } else {
        (
            Ok(()),
            EscrowState {
                tokens: s.tokens.insert(
                    from,
                    TokenAccountModel {
                        amount: (s.tokens[from].amount - amount) as u64,
                        ..s.tokens[from]
                    },
                ).insert(
                    to,
                    TokenAccountModel {
                        amount: (s.tokens[to].amount + amount) as u64,
                        ..s.tokens[to]
                    },
                ),
                ..s
            },
        )
    }
}

/// The slice of ledger and program state that one submission reads and
/// writes: balance-holding token accounts, open offer records, item
/// listings and asset mints, each table keyed by a 32-byte address that no
/// other entity shares.
pub struct Escrow {
    pub program_id: AccountId,
    pub tokens: Vec<(AccountId, TokenAccount)>,
    pub offers: Vec<(AccountId, Offer)>,
    pub items: Vec<(AccountId, ItemAccount)>,
    pub mints: Vec<(AccountId, MintAccount)>,
}

/// The mathematical model of the state: one map per table, keyed by address
/// bytes.
#[verifier::ext_equal]
pub struct EscrowState {
    pub program_id: Seq<u8>,
    pub tokens: Map<Seq<u8>, TokenAccountModel>,
    pub offers: Map<Seq<u8>, OfferModel>,
    pub items: Map<Seq<u8>, ItemAccountModel>,
    pub mints: Map<Seq<u8>, MintAccountModel>,
}

impl View for Escrow {
    type V = EscrowState;

    open spec fn view(&self) -> EscrowState {
        EscrowState {
            program_id: self.program_id@,
            tokens: assoc_map(self.tokens@),
            offers: assoc_map(self.offers@),
            items: assoc_map(self.items@),
            mints: assoc_map(self.mints@),
        }
    }
}

impl EscrowState {
    /// Some entity already lives at this address.
    pub open spec fn occupied(self, id: Seq<u8>) -> bool {
        self.tokens.contains_key(id) || self.offers.contains_key(id) || self.items.contains_key(
            id,
        ) || self.mints.contains_key(id)
    }
}

impl Escrow {
    /// Each table has distinct keys and no address names entities in two
    /// tables: the well-formedness that every operation preserves.
    pub open spec fn wf(&self) -> bool {
        &&& distinct_keys(self.tokens@)
        &&& distinct_keys(self.offers@)
        &&& distinct_keys(self.items@)
        &&& distinct_keys(self.mints@)
        &&& tables_disjoint(self.tokens@, self.offers@)
        &&& tables_disjoint(self.tokens@, self.items@)
        &&& tables_disjoint(self.tokens@, self.mints@)
        &&& tables_disjoint(self.offers@, self.items@)
        &&& tables_disjoint(self.offers@, self.mints@)
        &&& tables_disjoint(self.items@, self.mints@)
    }

    /// An empty ledger under the given program identity.
    pub fn new(program_id: AccountId) -> (r: Escrow)
        ensures
            r.wf(),
            r@.program_id == program_id@,
            r@.tokens == Map::<Seq<u8>, TokenAccountModel>::empty(),
            r@.offers == Map::<Seq<u8>, OfferModel>::empty(),
            r@.items == Map::<Seq<u8>, ItemAccountModel>::empty(),
            r@.mints == Map::<Seq<u8>, MintAccountModel>::empty(),
    {
        Escrow {
            program_id,
            tokens: Vec::new(),
            offers: Vec::new(),
            items: Vec::new(),
            mints: Vec::new(),
        }
    }

    /// The token account at an address, if one lives there.
    pub fn get_token(&self, id: &AccountId) -> (r: Option<TokenAccount>)
        requires
            self.wf(),
        ensures
            match r {
                Some(t) => self@.tokens.contains_key(id@) && t@ == self@.tokens[id@],
                None => !self@.tokens.contains_key(id@),
            },
    {
        let found = assoc_find(&self.tokens, id);
        proof {
            lemma_assoc_contains(self.tokens@, id@);
        }
        match found {
            Some(i) => {
                proof {
                    lemma_assoc_index(self.tokens@, i as int);
                }
                Some(self.tokens[i].1)
            },
            None => None,
        }
    }

    /// The offer record at an address, if one lives there.
    pub fn get_offer(&self, id: &AccountId) -> (r: Option<Offer>)
        requires
            self.wf(),
        ensures
            match r {
                Some(o) => self@.offers.contains_key(id@) && o@ == self@.offers[id@],
                None => !self@.offers.contains_key(id@),
            },
    {
        let found = assoc_find(&self.offers, id);
        proof {
            lemma_assoc_contains(self.offers@, id@);
        }
        match found {
            Some(i) => {
                proof {
                    lemma_assoc_index(self.offers@, i as int);
                }
                Some(self.offers[i].1)
            },
            None => None,
        }
    }

    /// The mint at an address, if one lives there.
    pub fn get_mint(&self, id: &AccountId) -> (r: Option<MintAccount>)
        requires
            self.wf(),
        ensures
            match r {
                Some(m) => self@.mints.contains_key(id@) && m@ == self@.mints[id@],
                None => !self@.mints.contains_key(id@),
            },
    {
        let found = assoc_find(&self.mints, id);
        proof {
            lemma_assoc_contains(self.mints@, id@);
        }
        match found {
            Some(i) => {
                proof {
                    lemma_assoc_index(self.mints@, i as int);
                }
                Some(self.mints[i].1)
            },
            None => None,
        }
    }

    /// The balance held at an address, if a token account lives there.
    pub fn balance_of(&self, id: &AccountId) -> (r: Option<u64>)
        requires
            self.wf(),
        ensures
            match r {
                Some(a) => self@.tokens.contains_key(id@) && a == self@.tokens[id@].amount,
                None => !self@.tokens.contains_key(id@),
            },
    {
        match self.get_token(id) {
            Some(t) => Some(t.amount),
            None => None,
        }
    }

    /// True when some entity already lives at this address.
    pub fn is_occupied(&self, id: &AccountId) -> (r: bool)
        requires
            self.wf(),
        ensures
            r == self@.occupied(id@),
    {
        proof {
            lemma_assoc_contains(self.tokens@, id@);
            lemma_assoc_contains(self.offers@, id@);
            lemma_assoc_contains(self.items@, id@);
            lemma_assoc_contains(self.mints@, id@);
        }
        assoc_find(&self.tokens, id).is_some() || assoc_find(&self.offers, id).is_some()
            || assoc_find(&self.items, id).is_some() || assoc_find(&self.mints, id).is_some()
    }

    /// Replaces the token account stored at an existing address.
    fn set_token(&mut self, id: &AccountId, t: TokenAccount)
        requires
            old(self).wf(),
            old(self)@.tokens.contains_key(id@),
        ensures
            final(self).wf(),
            final(self)@ == (EscrowState { tokens: old(self)@.tokens.insert(id@, t@), ..old(self)@ }),
    {
        let found = assoc_find(&self.tokens, id);
        proof {
            lemma_assoc_contains(self.tokens@, id@);
        }
        let i = found.unwrap();
        let key = self.tokens[i].0;
        self.tokens.set(i, (key, t));
        proof {
            lemma_assoc_update(old(self).tokens@, i as int, t);
            lemma_distinct_update(old(self).tokens@, i as int, t);
            lemma_disjoint_update_left(old(self).tokens@, old(self).offers@, i as int, t);
            lemma_disjoint_update_left(old(self).tokens@, old(self).items@, i as int, t);
            lemma_disjoint_update_left(old(self).tokens@, old(self).mints@, i as int, t);
            assert(self.tokens@ =~= old(self).tokens@.update(
                i as int,
                (old(self).tokens@[i as int].0, t),
            ));
            lemma_assoc_index(old(self).tokens@, i as int);
            assert(self@ =~= EscrowState {
                tokens: old(self)@.tokens.insert(id@, t@),
                ..old(self)@
            });
        }
    }

    /// Provisions a token account at a previously unoccupied address.
    fn push_token(&mut self, id: &AccountId, t: TokenAccount)
        requires
            old(self).wf(),
            !old(self)@.occupied(id@),
        ensures
            final(self).wf(),
            final(self)@ == (EscrowState { tokens: old(self)@.tokens.insert(id@, t@), ..old(self)@ }),
    {
        proof {
            lemma_assoc_contains(self.tokens@, id@);
            lemma_assoc_contains(self.offers@, id@);
            lemma_assoc_contains(self.items@, id@);
            lemma_assoc_contains(self.mints@, id@);
        }
        self.tokens.push((*id, t));
        proof {
            lemma_assoc_push(old(self).tokens@, *id, t);
            lemma_distinct_push(old(self).tokens@, *id, t);
            lemma_disjoint_push_left(old(self).tokens@, old(self).offers@, *id, t);
            lemma_disjoint_push_left(old(self).tokens@, old(self).items@, *id, t);
            lemma_disjoint_push_left(old(self).tokens@, old(self).mints@, *id, t);
            assert(self@ =~= EscrowState {
                tokens: old(self)@.tokens.insert(id@, t@),
                ..old(self)@
            });
        }
    }

    /// Persists an offer record at a previously unoccupied address.
    fn push_offer(&mut self, id: &AccountId, o: Offer)
        requires
            old(self).wf(),
            !old(self)@.occupied(id@),
        ensures
            final(self).wf(),
            final(self)@ == (EscrowState { offers: old(self)@.offers.insert(id@, o@), ..old(self)@ }),
    {
        proof {
            lemma_assoc_contains(self.tokens@, id@);
            lemma_assoc_contains(self.offers@, id@);
            lemma_assoc_contains(self.items@, id@);
            lemma_assoc_contains(self.mints@, id@);
        }
        self.offers.push((*id, o));
        proof {
            lemma_assoc_push(old(self).offers@, *id, o);
            lemma_distinct_push(old(self).offers@, *id, o);
            lemma_disjoint_sym(old(self).tokens@, old(self).offers@);
            lemma_disjoint_push_left(old(self).offers@, old(self).tokens@, *id, o);
            lemma_disjoint_sym(old(self).offers@.push((*id, o)), old(self).tokens@);
            lemma_disjoint_push_left(old(self).offers@, old(self).items@, *id, o);
            lemma_disjoint_push_left(old(self).offers@, old(self).mints@, *id, o);
            assert(self@ =~= EscrowState {
                offers: old(self)@.offers.insert(id@, o@),
                ..old(self)@
            });
        }
    }

    /// Persists an item listing at a previously unoccupied address.
    fn push_item(&mut self, id: &AccountId, it: ItemAccount)
        requires
            old(self).wf(),
            !old(self)@.occupied(id@),
        ensures
            final(self).wf(),
            final(self)@ == (EscrowState { items: old(self)@.items.insert(id@, it@), ..old(self)@ }),
    {
        proof {
            lemma_assoc_contains(self.tokens@, id@);
            lemma_assoc_contains(self.offers@, id@);
            lemma_assoc_contains(self.items@, id@);
            lemma_assoc_contains(self.mints@, id@);
        }
        let ghost it_ghost = it;
        self.items.push((*id, it));
        proof {
            lemma_assoc_push(old(self).items@, *id, it_ghost);
            lemma_distinct_push(old(self).items@, *id, it_ghost);
            lemma_disjoint_sym(old(self).tokens@, old(self).items@);
            lemma_disjoint_push_left(old(self).items@, old(self).tokens@, *id, it_ghost);
            lemma_disjoint_sym(old(self).items@.push((*id, it_ghost)), old(self).tokens@);
            lemma_disjoint_sym(old(self).offers@, old(self).items@);
            lemma_disjoint_push_left(old(self).items@, old(self).offers@, *id, it_ghost);
            lemma_disjoint_sym(old(self).items@.push((*id, it_ghost)), old(self).offers@);
            lemma_disjoint_push_left(old(self).items@, old(self).mints@, *id, it_ghost);
            assert(self@ =~= EscrowState {
                items: old(self)@.items.insert(id@, it_ghost@),
                ..old(self)@
            });
        }
    }

    /// Provisions a mint at a previously unoccupied address.
    fn push_mint(&mut self, id: &AccountId, m: MintAccount)
        requires
            old(self).wf(),
            !old(self)@.occupied(id@),
        ensures
            final(self).wf(),
            final(self)@ == (EscrowState { mints: old(self)@.mints.insert(id@, m@), ..old(self)@ }),
    {
        proof {
            lemma_assoc_contains(self.tokens@, id@);
            lemma_assoc_contains(self.offers@, id@);
            lemma_assoc_contains(self.items@, id@);
            lemma_assoc_contains(self.mints@, id@);
        }
        self.mints.push((*id, m));
        proof {
            lemma_assoc_push(old(self).mints@, *id, m);
            lemma_distinct_push(old(self).mints@, *id, m);
            lemma_disjoint_sym(old(self).tokens@, old(self).mints@);
            lemma_disjoint_push_left(old(self).mints@, old(self).tokens@, *id, m);
            lemma_disjoint_sym(old(self).mints@.push((*id, m)), old(self).tokens@);
            lemma_disjoint_sym(old(self).offers@, old(self).mints@);
            lemma_disjoint_push_left(old(self).mints@, old(self).offers@, *id, m);
            lemma_disjoint_sym(old(self).mints@.push((*id, m)), old(self).offers@);
            lemma_disjoint_sym(old(self).items@, old(self).mints@);
            lemma_disjoint_push_left(old(self).mints@, old(self).items@, *id, m);
            lemma_disjoint_sym(old(self).mints@.push((*id, m)), old(self).items@);
            assert(self@ =~= EscrowState {
                mints: old(self)@.mints.insert(id@, m@),
                ..old(self)@
            });
        }
    }

    /// Destroys the offer record at an address.
    fn remove_offer(&mut self, id: &AccountId)
        requires
            old(self).wf(),
            old(self)@.offers.contains_key(id@),
        ensures
            final(self).wf(),
            final(self)@ == (EscrowState { offers: old(self)@.offers.remove(id@), ..old(self)@ }),
    {
        let found = assoc_find(&self.offers, id);
        proof {
            lemma_assoc_contains(self.offers@, id@);
        }
        let i = found.unwrap();
        self.offers.remove(i);
        proof {
            lemma_assoc_remove(old(self).offers@, i as int);
            lemma_distinct_remove(old(self).offers@, i as int);
            lemma_disjoint_sym(old(self).tokens@, old(self).offers@);
            lemma_disjoint_remove_left(old(self).offers@, old(self).tokens@, i as int);
            lemma_disjoint_sym(old(self).offers@.remove(i as int), old(self).tokens@);
            lemma_disjoint_remove_left(old(self).offers@, old(self).items@, i as int);
            lemma_disjoint_remove_left(old(self).offers@, old(self).mints@, i as int);
            assert(self.offers@ =~= old(self).offers@.remove(i as int));
            assert(self@ =~= EscrowState {
                offers: old(self)@.offers.remove(id@),
                ..old(self)@
            });
        }
    }

    /// Registers an existing asset mint with the ledger model.
    pub fn register_mint(&mut self, id: AccountId, authority: AccountId) -> (r: Result<
        (),
        ErrorCode,
    >)
        requires
            old(self).wf(),
        ensures
            final(self).wf(),
            old(self)@.occupied(id@) ==> r == Err::<(), ErrorCode>(ErrorCode::AccountInUse)
                && final(self)@ == old(self)@,
            !old(self)@.occupied(id@) ==> r == Ok::<(), ErrorCode>(()) && final(self)@
                == (EscrowState {
                mints: old(self)@.mints.insert(
                    id@,
                    MintAccountModel { authority: authority@ },
                ),
                ..old(self)@
            }),
    {
        if self.is_occupied(&id) {
            return Err(ErrorCode::AccountInUse);
        }
        self.push_mint(&id, MintAccount { authority });
        Ok(())
    }

    /// Registers an existing token account with the ledger model.
    pub fn register_token_account(
        &mut self,
        id: AccountId,
        owner: AccountId,
        mint: AccountId,
        amount: u64,
    ) -> (r: Result<(), ErrorCode>)
        requires
            old(self).wf(),
        ensures
            final(self).wf(),
            old(self)@.occupied(id@) ==> r == Err::<(), ErrorCode>(ErrorCode::AccountInUse)
                && final(self)@ == old(self)@,
            !old(self)@.occupied(id@) && !old(self)@.mints.contains_key(mint@) ==> r == Err::<
                (),
                ErrorCode,
            >(ErrorCode::UnknownAccount) && final(self)@ == old(self)@,
            !old(self)@.occupied(id@) && old(self)@.mints.contains_key(mint@) ==> r == Ok::<
                (),
                ErrorCode,
            >(()) && final(self)@ == (EscrowState {
                tokens: old(self)@.tokens.insert(
                    id@,
                    TokenAccountModel { owner: owner@, mint: mint@, amount },
                ),
                ..old(self)@
            }),
    {
        if self.is_occupied(&id) {
            return Err(ErrorCode::AccountInUse);
        }
        if self.get_mint(&mint).is_none() {
            return Err(ErrorCode::UnknownAccount);
        }
        self.push_token(&id, TokenAccount { owner, mint, amount });
        Ok(())
    }

    /// One ledger transfer, the debit/credit primitive of the asset ledger:
    /// it moves `amount` units from `from` to `to` when `authority` owns
    /// `from`, the asset types agree and the balances allow it, and
    /// otherwise rejects without touching anything.
    pub fn transfer(
        &mut self,
        from: &AccountId,
        to: &AccountId,
        amount: u64,
        authority: &AccountId,
    ) -> (r: Result<(), ErrorCode>)
        requires
            old(self).wf(),
        ensures
            final(self).wf(),
            r == spec_transfer(old(self)@, from@, to@, amount, authority@).0,
            final(self)@ == spec_transfer(old(self)@, from@, to@, amount, authority@).1,
    {
        let from_acct = match self.get_token(from) {
            Some(t) => t,
            None => {
                return Err(ErrorCode::UnknownAccount);
            },
        };
        if !from_acct.owner.eq_id(authority) {
            return Err(ErrorCode::UnauthorizedSource);
        }
        if from_acct.amount < amount {
            return Err(ErrorCode::InsufficientBalance);
        }
        let to_acct = match self.get_token(to) {
            Some(t) => t,
            None => {
                return Err(ErrorCode::UnknownAccount);
            },
        };
        if !from_acct.mint.eq_id(&to_acct.mint) {
            return Err(ErrorCode::MintMismatch);
        }
        if from.eq_id(to) {
            return Ok(());
        }
        if amount > u64::MAX - to_acct.amount {
            return Err(ErrorCode::AmountOverflow);
        }
        self.set_token(from, TokenAccount { amount: from_acct.amount - amount, ..from_acct });
        self.set_token(to, TokenAccount { amount: to_acct.amount + amount, ..to_acct });
        proof {
            assert(self@ =~= spec_transfer(old(self)@, from@, to@, amount, authority@).1);
        }
        Ok(())
    }

    /// Validates the listing input, provisions the item record, its mint and
    /// the seller's token account, and mints the full supply into the latter.
    /// Overlong names are rejected before any account is touched.
    pub fn create_item_account(
        &mut self,
        ctx: CreateItemAccount,
        name: String,
        market: String,
        supply: u64,
    ) -> (r: Result<(), ErrorCode>)
        requires
            old(self).wf(),
        ensures
            final(self).wf(),
            r == spec_create_item_account(old(self)@, ctx, name@, market@, supply).0,
            final(self)@ == spec_create_item_account(old(self)@, ctx, name@, market@, supply).1,
    {
        if name.as_str().unicode_len() > POSSIBLE_NUM_OF_CHARS {
            return Err(ErrorCode::ItemNameTooLong);
        }
        if market.as_str().unicode_len() > POSSIBLE_NUM_OF_CHARS {
            return Err(ErrorCode::MarketNameTooLong);
        }
        if self.is_occupied(&ctx.item_account) {
            return Err(ErrorCode::AccountInUse);
        }
        if ctx.mint_account.eq_id(&ctx.item_account) || self.is_occupied(&ctx.mint_account) {
            return Err(ErrorCode::AccountInUse);
        }
        if ctx.associated_token_account.eq_id(&ctx.item_account)
            || ctx.associated_token_account.eq_id(&ctx.mint_account) || self.is_occupied(
            &ctx.associated_token_account,
        ) {
            return Err(ErrorCode::AccountInUse);
        }
        self.push_mint(&ctx.mint_account, MintAccount { authority: ctx.user });
        self.push_token(
            &ctx.associated_token_account,
            TokenAccount { owner: ctx.user, mint: ctx.mint_account, amount: supply },
        );
        self.push_item(
            &ctx.item_account,
            ItemAccount {
                mint_public_key: ctx.mint_account,
                token_account_public_key: ctx.associated_token_account,
                name,
                market,
                seller: ctx.user,
            },
        );
        proof {
            assert(self@ =~= spec_create_item_account(old(self)@, ctx, name@, market@, supply).1);
        }
        Ok(())
    }

    /// Records the offer's binding terms, provisions the custody account
    /// under the offer's own derived authority and locks the give amount
    /// into it, all checks ahead of any mutation: a rejected create leaves
    /// no trace.
    pub fn create_offer(&mut self, ctx: CreateOffer, give_amount: u64, receive_amount: u64) -> (r:
        Result<AccountId, ErrorCode>)
        requires
            old(self).wf(),
        ensures
            final(self).wf(),
            final(self)@ == spec_create_offer(old(self)@, ctx, give_amount, receive_amount).1,
            (match r {
                Ok(id) => spec_create_offer(old(self)@, ctx, give_amount, receive_amount).0
                    == Ok::<Seq<u8>, ErrorCode>(id@),
                Err(e) => spec_create_offer(old(self)@, ctx, give_amount, receive_amount).0
                    == Err::<Seq<u8>, ErrorCode>(e),
            }),
    {
        if give_amount == 0 || receive_amount == 0 {
            return Err(ErrorCode::ZeroAmount);
        }
        let src_acct = match self.get_token(&ctx.initializer_token_account) {
            Some(t) => t,
            None => {
                return Err(ErrorCode::UnknownAccount);
            },
        };
        if !src_acct.owner.eq_id(&ctx.initializer) {
            return Err(ErrorCode::UnauthorizedSource);
        }
        if !src_acct.mint.eq_id(&ctx.mint) {
            return Err(ErrorCode::MintMismatch);
        }
        if self.get_mint(&ctx.mint).is_none() {
            return Err(ErrorCode::UnknownAccount);
        }
        if self.get_token(&ctx.taker_token_account).is_none() {
            return Err(ErrorCode::UnknownAccount);
        }
        let (offer_id, _offer_bump) = match derive_offer_identity(
            &ctx.initializer_token_account,
            give_amount,
            &ctx.taker_token_account,
            receive_amount,
            &self.program_id,
        ) {
            Some(p) => p,
            None => {
                return Err(ErrorCode::DerivationFailed);
            },
        };
        if self.is_occupied(&offer_id) {
            return Err(ErrorCode::DuplicateOffer);
        }
        let (vault_id, _vault_bump) = match derive_vault_identity(
            &ctx.initializer_token_account,
            &ctx.taker_token_account,
            &self.program_id,
        ) {
            Some(p) => p,
            None => {
                return Err(ErrorCode::DerivationFailed);
            },
        };
        if vault_id.eq_id(&offer_id) || self.is_occupied(&vault_id) {
            return Err(ErrorCode::DuplicateOffer);
        }
        if src_acct.amount < give_amount {
            return Err(ErrorCode::InsufficientBalance);
        }
        self.set_token(
            &ctx.initializer_token_account,
            TokenAccount { amount: src_acct.amount - give_amount, ..src_acct },
        );
        self.push_token(
            &vault_id,
            TokenAccount { owner: offer_id, mint: ctx.mint, amount: give_amount },
        );
        self.push_offer(
            &offer_id,
            Offer {
                initializer: ctx.initializer,
                initializer_token_account: ctx.initializer_token_account,
                taker_token_account: ctx.taker_token_account,
                give_amount,
                receive_amount,
            },
        );
        proof {
            assert(self@ =~= spec_create_offer(old(self)@, ctx, give_amount, receive_amount).1);
        }
        Ok(offer_id)
    }

    /// The single indivisible operation that resolves an offer: the taker
    /// pays the initializer's receiving account, the custody account pays
    /// the taker under the re-derived program authority, and the offer
    /// record is retired.  Either all of that happens, or none of it: any
    /// failure, at whatever step, leaves the state exactly as it was.
    pub fn accept_offer(&mut self, ctx: AcceptOffer, taker_give_amount: u64) -> (r: Result<
        (),
        ErrorCode,
    >)
        requires
            old(self).wf(),
        ensures
            final(self).wf(),
            r == spec_accept_offer(old(self)@, ctx, taker_give_amount).0,
            final(self)@ == spec_accept_offer(old(self)@, ctx, taker_give_amount).1,
    {
        let offer = match self.get_offer(&ctx.offer) {
            Some(o) => o,
            None => {
                return Err(ErrorCode::OfferTermsMismatch);
            },
        };
        if !offer.initializer.eq_id(&ctx.initializer) {
            return Err(ErrorCode::OfferTermsMismatch);
        }
        if !offer.taker_token_account.eq_id(&ctx.taker_give_token_account) {
            return Err(ErrorCode::CounterpartyMismatch);
        }
        let vault_acct = match self.get_token(&ctx.vault_token_account) {
            Some(t) => t,
            None => {
                return Err(ErrorCode::UnknownAccount);
            },
        };
        if vault_acct.amount != offer.give_amount {
            return Err(ErrorCode::CustodyUnderfunded);
        }
        if taker_give_amount != offer.receive_amount {
            return Err(ErrorCode::AmountMismatch);
        }
        // the receiving accounts must belong to the parties they pay, as the
        // associated-token constraints of the submission surface demand
        let taker_receive_acct = match self.get_token(&ctx.taker_receive_token_account) {
            Some(t) => t,
            None => {
                return Err(ErrorCode::UnknownAccount);
            },
        };
        if !taker_receive_acct.owner.eq_id(&ctx.taker) {
            return Err(ErrorCode::UnauthorizedSource);
        }
        let initializer_receive_acct = match self.get_token(
            &ctx.initializer_receive_token_account,
        ) {
            Some(t) => t,
            None => {
                return Err(ErrorCode::UnknownAccount);
            },
        };
        if !initializer_receive_acct.owner.eq_id(&ctx.initializer) {
            return Err(ErrorCode::UnauthorizedSource);
        }
        let authority = match derive_offer_identity(
            &offer.initializer_token_account,
            offer.give_amount,
            &offer.taker_token_account,
            offer.receive_amount,
            &self.program_id,
        ) {
            Some(p) => p.0,
            None => {
                return Err(ErrorCode::DerivationFailed);
            },
        };
        let taker_give_before = self.get_token(&ctx.taker_give_token_account);
        let initializer_receive_before = self.get_token(&ctx.initializer_receive_token_account);
        match self.transfer(
            &ctx.taker_give_token_account,
            &ctx.initializer_receive_token_account,
            taker_give_amount,
            &ctx.taker,
        ) {
            Ok(()) => {},
            Err(e) => {
                return Err(e);
            },
        }
        match self.transfer(
            &ctx.vault_token_account,
            &ctx.taker_receive_token_account,
            offer.give_amount,
            &authority,
        ) {
            Ok(()) => {},
            Err(e) => {
                // the first leg must not survive alone: roll it back so the
                // whole submission aborts without observable effect
                self.set_token(&ctx.taker_give_token_account, taker_give_before.unwrap());
                self.set_token(
                    &ctx.initializer_receive_token_account,
                    initializer_receive_before.unwrap(),
                );
                proof {
                    assert(self@ =~= old(self)@);
                }
                return Err(e);
            },
        }
        self.remove_offer(&ctx.offer);
        proof {
            assert(self@ =~= spec_accept_offer(old(self)@, ctx, taker_give_amount).1);
        }
        Ok(())
    }
}

/// The outcome of an accept-offer submission: the recorded terms are
/// checked against the presented accounts and amount, the taker's payment
/// and the custody release are performed in order, and the offer record is
/// retired.  Every rejection, including one after the first transfer leg,
/// pairs with the unchanged starting state: the submission is atomic.
pub open spec fn spec_accept_offer(s: EscrowState, ctx: AcceptOffer, taker_give_amount: u64) -> (
    Result<(), ErrorCode>,
    EscrowState,
) {
    if !s.offers.contains_key(ctx.offer@) {
        (Err(ErrorCode::OfferTermsMismatch), s)
    } else {
        let offer = s.offers[ctx.offer@];
        if offer.initializer != ctx.initializer@ {
            (Err(ErrorCode::OfferTermsMismatch), s)
        } else if offer.taker_token_account != ctx.taker_give_token_account@ {
            (Err(ErrorCode::CounterpartyMismatch), s)
        } else if !s.tokens.contains_key(ctx.vault_token_account@) {
            (Err(ErrorCode::UnknownAccount), s)
        } else if s.tokens[ctx.vault_token_account@].amount != offer.give_amount {
            (Err(ErrorCode::CustodyUnderfunded), s)
        } else if taker_give_amount != offer.receive_amount {
            (Err(ErrorCode::AmountMismatch), s)
        } else if !s.tokens.contains_key(ctx.taker_receive_token_account@) {
            (Err(ErrorCode::UnknownAccount), s)
        } else if s.tokens[ctx.taker_receive_token_account@].owner != ctx.taker@ {
            (Err(ErrorCode::UnauthorizedSource), s)
        } else if !s.tokens.contains_key(ctx.initializer_receive_token_account@) {
            (Err(ErrorCode::UnknownAccount), s)
        } else if s.tokens[ctx.initializer_receive_token_account@].owner != ctx.initializer@ {
            (Err(ErrorCode::UnauthorizedSource), s)
        } else {
            match spec_offer_identity(
                offer.initializer_token_account,
                offer.give_amount,
                offer.taker_token_account,
                offer.receive_amount,
                s.program_id,
            ) {
                None => (Err(ErrorCode::DerivationFailed), s),
                Some(ap) => {
                    let leg_a = spec_transfer(
                        s,
                        ctx.taker_give_token_account@,
                        ctx.initializer_receive_token_account@,
                        taker_give_amount,
                        ctx.taker@,
                    );
                    if leg_a.0 is Err {
                        (leg_a.0, s)
                    } else {
                        let leg_b = spec_transfer(
                            leg_a.1,
                            ctx.vault_token_account@,
                            ctx.taker_receive_token_account@,
                            offer.give_amount,
                            ap.0,
                        );
                        if leg_b.0 is Err {
                            (leg_b.0, s)
                        } else {
                            (
                                Ok(()),
                                EscrowState { offers: leg_b.1.offers.remove(ctx.offer@), ..leg_b.1 },
                            )
                        }
                    }
                },
            }
        }
    }
}

/// The outcome of a create-item submission: name and market validated
/// against the fixed field capacity, then the three fresh accounts
/// provisioned and the supply minted to the seller.
pub open spec fn spec_create_item_account(
    s: EscrowState,
    ctx: CreateItemAccount,
    name: Seq<char>,
    market: Seq<char>,
    supply: u64,
) -> (Result<(), ErrorCode>, EscrowState) {
    if name.len() > POSSIBLE_NUM_OF_CHARS {
        (Err(ErrorCode::ItemNameTooLong), s)
    } else if market.len() > POSSIBLE_NUM_OF_CHARS {
        (Err(ErrorCode::MarketNameTooLong), s)
    } else if s.occupied(ctx.item_account@) {
        (Err(ErrorCode::AccountInUse), s)
    } else if ctx.mint_account@ == ctx.item_account@ || s.occupied(ctx.mint_account@) {
        (Err(ErrorCode::AccountInUse), s)
    } else if ctx.associated_token_account@ == ctx.item_account@ || ctx.associated_token_account@
        == ctx.mint_account@ || s.occupied(ctx.associated_token_account@) {
        (Err(ErrorCode::AccountInUse), s)
    } else {
        (
            Ok(()),
            EscrowState {
                mints: s.mints.insert(
                    ctx.mint_account@,
                    MintAccountModel { authority: ctx.user@ },
                ),
                tokens: s.tokens.insert(
                    ctx.associated_token_account@,
                    TokenAccountModel { owner: ctx.user@, mint: ctx.mint_account@, amount: supply },
                ),
                items: s.items.insert(
                    ctx.item_account@,
                    ItemAccountModel {
                        mint_public_key: ctx.mint_account@,
                        token_account_public_key: ctx.associated_token_account@,
                        name,
                        market,
                        seller: ctx.user@,
                    },
                ),
                ..s
            },
        )
    }
}

/// The outcome of a create-offer submission: the validated terms recorded
/// under the derived offer identity, the custody account provisioned under
/// the derived custody identity with the offer as its owner, and the give
/// amount moved from the initializer's source account into custody.  Any
/// rejection leaves the state unchanged.
pub open spec fn spec_create_offer(
    s: EscrowState,
    ctx: CreateOffer,
    give_amount: u64,
    receive_amount: u64,
) -> (Result<Seq<u8>, ErrorCode>, EscrowState) {
    let init = ctx.initializer@;
    let src = ctx.initializer_token_account@;
    let tgt = ctx.taker_token_account@;
    let mint = ctx.mint@;
    if give_amount == 0 || receive_amount == 0 {
        (Err(ErrorCode::ZeroAmount), s)
    } else if !s.tokens.contains_key(src) {
        (Err(ErrorCode::UnknownAccount), s)
    } else if s.tokens[src].owner != init {
        (Err(ErrorCode::UnauthorizedSource), s)
    } else if s.tokens[src].mint != mint {
        (Err(ErrorCode::MintMismatch), s)
    } else if !s.mints.contains_key(mint) {
        (Err(ErrorCode::UnknownAccount), s)
    } else if !s.tokens.contains_key(tgt) {
        (Err(ErrorCode::UnknownAccount), s)
    } else {
        match spec_offer_identity(src, give_amount, tgt, receive_amount, s.program_id) {
            None => (Err(ErrorCode::DerivationFailed), s),
            Some(op) => {
                if s.occupied(op.0) {
                    (Err(ErrorCode::DuplicateOffer), s)
                } else {
                    match spec_vault_identity(src, tgt, s.program_id) {
                        None => (Err(ErrorCode::DerivationFailed), s),
                        Some(vp) => {
                            if vp.0 == op.0 || s.occupied(vp.0) {
                                (Err(ErrorCode::DuplicateOffer), s)
                            } else if s.tokens[src].amount < give_amount {
                                (Err(ErrorCode::InsufficientBalance), s)
                            } else {
                                (
                                    Ok(op.0),
                                    EscrowState {
                                        tokens: s.tokens.insert(
                                            src,
                                            TokenAccountModel {
                                                amount: (s.tokens[src].amount - give_amount) as u64,
                                                ..s.tokens[src]
                                            },
                                        ).insert(
                                            vp.0,
                                            TokenAccountModel {
                                                owner: op.0,
                                                mint,
                                                amount: give_amount,
                                            },
                                        ),
                                        offers: s.offers.insert(
                                            op.0,
                                            OfferModel {
                                                initializer: init,
                                                initializer_token_account: src,
                                                taker_token_account: tgt,
                                                give_amount,
                                                receive_amount,
                                            },
                                        ),
                                        ..s
                                    },
                                )
                            }
                        },
                    }
                }
            },
        }
    }
}

} // verus!
