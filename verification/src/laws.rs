use vstd::prelude::*;
use crate::errors::ErrorCode;
use crate::escrow::{
    spec_accept_offer, spec_create_offer, spec_transfer, AcceptOffer, CreateOffer, EscrowState,
};
use crate::identity::{spec_offer_identity, spec_vault_identity};

verus! {

/// Uniqueness: for any terms, a create can succeed at most once.  Once a
/// create with some terms has gone through, a second create with the very
/// same terms is rejected as a duplicate: the derivation is deterministic,
/// so the second submission lands on the identity the first one occupied.
pub proof fn lemma_create_offer_unique(
    s: EscrowState,
    ctx: CreateOffer,
    give_amount: u64,
    receive_amount: u64,
)
    requires
        spec_create_offer(s, ctx, give_amount, receive_amount).0 is Ok,
    ensures
        spec_create_offer(
            spec_create_offer(s, ctx, give_amount, receive_amount).1,
            ctx,
            give_amount,
            receive_amount,
        ).0 == Err::<Seq<u8>, ErrorCode>(ErrorCode::DuplicateOffer),
{
    let s1 = spec_create_offer(s, ctx, give_amount, receive_amount).1;
    let src = ctx.initializer_token_account@;
    let tgt = ctx.taker_token_account@;
    let op = spec_offer_identity(src, give_amount, tgt, receive_amount, s.program_id);
    let offer_id = op->Some_0.0;
    assert(s1.program_id == s.program_id);
    assert(s1.tokens.contains_key(src));
    assert(s1.tokens[src].owner == ctx.initializer@);
    assert(s1.tokens[src].mint == ctx.mint@);
    assert(s1.offers.contains_key(offer_id));
    assert(s1.occupied(offer_id));
}

/// Custody conservation, creation half: a successful create leaves the
/// custody account, at its derived identity, holding exactly the give
/// amount, owned by the offer record rather than by any party.
pub proof fn lemma_custody_conservation_create(
    s: EscrowState,
    ctx: CreateOffer,
    give_amount: u64,
    receive_amount: u64,
)
    requires
        spec_create_offer(s, ctx, give_amount, receive_amount).0 is Ok,
    ensures
        ({
            let s1 = spec_create_offer(s, ctx, give_amount, receive_amount).1;
            let vp = spec_vault_identity(
                ctx.initializer_token_account@,
                ctx.taker_token_account@,
                s.program_id,
            );
            &&& vp is Some
            &&& s1.tokens.contains_key(vp->Some_0.0)
            &&& s1.tokens[vp->Some_0.0].amount == give_amount
            &&& s1.tokens[vp->Some_0.0].owner == spec_create_offer(
                s,
                ctx,
                give_amount,
                receive_amount,
            ).0->Ok_0
        }),
{
}

/// Custody conservation, acceptance half: a successful accept drains the
/// custody account to zero and the offer record no longer exists.  The
/// custody account must be none of the three party accounts; an account
/// cannot both hold custody and belong to a party.
pub proof fn lemma_custody_conservation_accept(
    s: EscrowState,
    ctx: AcceptOffer,
    taker_give_amount: u64,
)
    requires
        spec_accept_offer(s, ctx, taker_give_amount).0 is Ok,
        ctx.vault_token_account@ != ctx.taker_give_token_account@,
        ctx.vault_token_account@ != ctx.taker_receive_token_account@,
        ctx.vault_token_account@ != ctx.initializer_receive_token_account@,
    ensures
        ({
            let s1 = spec_accept_offer(s, ctx, taker_give_amount).1;
            &&& s1.tokens.contains_key(ctx.vault_token_account@)
            &&& s1.tokens[ctx.vault_token_account@].amount == 0
            &&& !s1.offers.contains_key(ctx.offer@)
        }),
{
}

/// Atomic swap, failure half: whatever the reason a submission is
/// rejected, and however far it came, the resulting state is exactly the
/// starting state.  Neither leg of the swap can survive alone.
pub proof fn lemma_accept_atomic_failure(s: EscrowState, ctx: AcceptOffer, taker_give_amount: u64)
    requires
        spec_accept_offer(s, ctx, taker_give_amount).0 is Err,
    ensures
        spec_accept_offer(s, ctx, taker_give_amount).1 == s,
{
}

/// Atomic swap, success half: with the five accounts pairwise distinct, a
/// successful accept performs both legs of the transfer and retires the
/// offer — the taker pays the recorded receive amount to the initializer's
/// receiving account, custody pays the recorded give amount to the taker's
/// receiving account, and no other balance moves.
pub proof fn lemma_accept_atomic_success(s: EscrowState, ctx: AcceptOffer, taker_give_amount: u64)
    requires
        spec_accept_offer(s, ctx, taker_give_amount).0 is Ok,
        ctx.taker_give_token_account@ != ctx.initializer_receive_token_account@,
        ctx.taker_give_token_account@ != ctx.taker_receive_token_account@,
        ctx.taker_give_token_account@ != ctx.vault_token_account@,
        ctx.initializer_receive_token_account@ != ctx.taker_receive_token_account@,
        ctx.initializer_receive_token_account@ != ctx.vault_token_account@,
        ctx.taker_receive_token_account@ != ctx.vault_token_account@,
    ensures
        ({
            let s1 = spec_accept_offer(s, ctx, taker_give_amount).1;
            let offer = s.offers[ctx.offer@];
            &&& s1.tokens[ctx.taker_give_token_account@].amount == s.tokens[
                ctx.taker_give_token_account@
            ].amount - taker_give_amount
            &&& s1.tokens[ctx.initializer_receive_token_account@].amount == s.tokens[
                ctx.initializer_receive_token_account@
            ].amount + taker_give_amount
            &&& s1.tokens[ctx.vault_token_account@].amount == 0
            &&& s1.tokens[ctx.taker_receive_token_account@].amount == s.tokens[
                ctx.taker_receive_token_account@
            ].amount + offer.give_amount
            &&& s1.offers == s.offers.remove(ctx.offer@)
            &&& !s1.offers.contains_key(ctx.offer@)
            &&& s1.items == s.items
            &&& s1.mints == s.mints
            &&& s1.program_id == s.program_id
        }),
{
}

/// Custody exclusivity: a ledger transfer debits only the account that its
/// presented authority owns.  Any account with a different owner — the
/// custody account under its derived authority above all — can only gain
/// from the transfer, never lose.
pub proof fn lemma_transfer_debits_only_the_authority(
    s: EscrowState,
    from: Seq<u8>,
    to: Seq<u8>,
    amount: u64,
    authority: Seq<u8>,
    other: Seq<u8>,
)
    requires
        s.tokens.contains_key(other),
        s.tokens[other].owner != authority,
    ensures
        ({
            let s1 = spec_transfer(s, from, to, amount, authority).1;
            &&& s1.tokens.contains_key(other)
            &&& s1.tokens[other].amount >= s.tokens[other].amount
            &&& s1.tokens[other].owner == s.tokens[other].owner
        }),
{
}

/// Binding: an accept that presents any paying account other than the one
/// recorded at creation is rejected as a counterparty mismatch, even if
/// every amount matches exactly, and the state is untouched.
pub proof fn lemma_accept_binding(s: EscrowState, ctx: AcceptOffer, taker_give_amount: u64)
    requires
        s.offers.contains_key(ctx.offer@),
        s.offers[ctx.offer@].initializer == ctx.initializer@,
        s.offers[ctx.offer@].taker_token_account != ctx.taker_give_token_account@,
    ensures
        spec_accept_offer(s, ctx, taker_give_amount).0 == Err::<(), ErrorCode>(
            ErrorCode::CounterpartyMismatch,
        ),
        spec_accept_offer(s, ctx, taker_give_amount).1 == s,
{
}

/// Amount exactness: an accept whose offered amount differs from the
/// recorded receive amount — by one or by any margin — is rejected as an
/// amount mismatch, and the state is untouched.
pub proof fn lemma_accept_amount_exactness(s: EscrowState, ctx: AcceptOffer, taker_give_amount: u64)
    requires
        s.offers.contains_key(ctx.offer@),
        s.offers[ctx.offer@].initializer == ctx.initializer@,
        s.offers[ctx.offer@].taker_token_account == ctx.taker_give_token_account@,
        s.tokens.contains_key(ctx.vault_token_account@),
        s.tokens[ctx.vault_token_account@].amount == s.offers[ctx.offer@].give_amount,
        taker_give_amount != s.offers[ctx.offer@].receive_amount,
    ensures
        spec_accept_offer(s, ctx, taker_give_amount).0 == Err::<(), ErrorCode>(
            ErrorCode::AmountMismatch,
        ),
        spec_accept_offer(s, ctx, taker_give_amount).1 == s,
{
}

} // verus!

