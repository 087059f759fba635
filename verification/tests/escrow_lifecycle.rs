use solana_escrow::errors::ErrorCode;
use solana_escrow::escrow::{AcceptOffer, CreateItemAccount, CreateOffer, Escrow};
use solana_escrow::identity::{derive_vault_identity, AccountId};

fn id(b: u8) -> AccountId {
    AccountId::new([b; 32])
}

/// A ledger with two mints and the four party accounts of one swap:
/// the initializer `a` holds 500 of mint `x`, the taker `k` holds 80 of
/// mint `y`, and both receiving accounts start empty.
fn setup() -> Escrow {
    let mut world = Escrow::new(id(1));
    world.register_mint(id(10), id(2)).unwrap();
    world.register_mint(id(11), id(3)).unwrap();
    // initializer a = 20, taker k = 21
    world.register_token_account(id(30), id(20), id(10), 500).unwrap();
    world.register_token_account(id(31), id(21), id(11), 80).unwrap();
    world.register_token_account(id(32), id(20), id(11), 0).unwrap();
    world.register_token_account(id(33), id(21), id(10), 0).unwrap();
    world
}

fn offer_ctx() -> CreateOffer {
    CreateOffer {
        initializer: id(20),
        initializer_token_account: id(30),
        mint: id(10),
        taker_token_account: id(31),
    }
}

fn accept_ctx(offer_id: AccountId, vault_id: AccountId) -> AcceptOffer {
    AcceptOffer {
        offer: offer_id,
        taker: id(21),
        initializer: id(20),
        taker_give_token_account: id(31),
        vault_token_account: vault_id,
        taker_receive_token_account: id(33),
        initializer_receive_token_account: id(32),
    }
}

#[test]
fn create_locks_give_amount_into_custody() {
    let mut world = setup();
    let offer_id = world.create_offer(offer_ctx(), 100, 50).unwrap();
    let (vault_id, _bump) = derive_vault_identity(&id(30), &id(31), &id(1)).unwrap();
    assert_eq!(world.balance_of(&vault_id), Some(100));
    assert_eq!(world.balance_of(&id(30)), Some(400));
    let offer = world.get_offer(&offer_id).unwrap();
    assert_eq!(offer.give_amount, 100);
    assert_eq!(offer.receive_amount, 50);
    assert!(offer.initializer.eq_id(&id(20)));
    assert!(offer.taker_token_account.eq_id(&id(31)));
}

#[test]
fn accept_swaps_both_legs_and_retires_offer() {
    let mut world = setup();
    let offer_id = world.create_offer(offer_ctx(), 100, 50).unwrap();
    let (vault_id, _bump) = derive_vault_identity(&id(30), &id(31), &id(1)).unwrap();
    world.accept_offer(accept_ctx(offer_id, vault_id), 50).unwrap();
    // the initializer's receiving account gained the receive amount
    assert_eq!(world.balance_of(&id(32)), Some(50));
    // the taker's receiving account gained the give amount
    assert_eq!(world.balance_of(&id(33)), Some(100));
    // custody is drained and the offer is gone
    assert_eq!(world.balance_of(&vault_id), Some(0));
    assert!(world.get_offer(&offer_id).is_none());
    // the taker's paying account was debited
    assert_eq!(world.balance_of(&id(31)), Some(30));
}

#[test]
fn accept_retried_after_success_is_rejected() {
    let mut world = setup();
    let offer_id = world.create_offer(offer_ctx(), 100, 50).unwrap();
    let (vault_id, _bump) = derive_vault_identity(&id(30), &id(31), &id(1)).unwrap();
    world.accept_offer(accept_ctx(offer_id, vault_id), 50).unwrap();
    let again = world.accept_offer(accept_ctx(offer_id, vault_id), 50);
    assert_eq!(again, Err(ErrorCode::OfferTermsMismatch));
}

#[test]
fn duplicate_create_with_identical_terms_is_rejected() {
    let mut world = setup();
    world.create_offer(offer_ctx(), 100, 50).unwrap();
    let again = world.create_offer(offer_ctx(), 100, 50);
    assert_eq!(again, Err(ErrorCode::DuplicateOffer));
}

#[test]
fn different_terms_make_a_different_offer() {
    let mut world = setup();
    let first = world.create_offer(offer_ctx(), 100, 50).unwrap();
    let second = world.create_offer(offer_ctx(), 200, 50);
    // the second offer derives a different record identity but the same
    // custody identity, which the first offer already occupies
    assert_eq!(second, Err(ErrorCode::DuplicateOffer));
    assert!(world.get_offer(&first).is_some());
}

#[test]
fn failed_accept_leaves_every_balance_untouched() {
    let mut world = setup();
    let offer_id = world.create_offer(offer_ctx(), 100, 50).unwrap();
    let (vault_id, _bump) = derive_vault_identity(&id(30), &id(31), &id(1)).unwrap();
    // wrong amount: rejected before any movement
    let r = world.accept_offer(accept_ctx(offer_id, vault_id), 49);
    assert_eq!(r, Err(ErrorCode::AmountMismatch));
    assert_eq!(world.balance_of(&id(31)), Some(80));
    assert_eq!(world.balance_of(&id(32)), Some(0));
    assert_eq!(world.balance_of(&id(33)), Some(0));
    assert_eq!(world.balance_of(&vault_id), Some(100));
    assert!(world.get_offer(&offer_id).is_some());
}

#[test]
fn accept_aborts_atomically_when_second_leg_cannot_pay() {
    let mut world = setup();
    let offer_id = world.create_offer(offer_ctx(), 100, 50).unwrap();
    let (vault_id, _bump) = derive_vault_identity(&id(30), &id(31), &id(1)).unwrap();
    // leg (a) alone would succeed, but the taker's receiving account is
    // filled to the brim, so leg (b)'s credit overflows and the whole
    // submission must abort with the first leg rolled back
    let mut ctx = accept_ctx(offer_id, vault_id);
    let mut world2 = Escrow::new(id(1));
    world2.register_mint(id(10), id(2)).unwrap();
    world2.register_mint(id(11), id(3)).unwrap();
    world2.register_token_account(id(30), id(20), id(10), 500).unwrap();
    world2.register_token_account(id(31), id(21), id(11), 80).unwrap();
    world2.register_token_account(id(32), id(20), id(11), 0).unwrap();
    world2.register_token_account(id(33), id(21), id(10), u64::MAX).unwrap();
    let offer_id2 = world2.create_offer(offer_ctx(), 100, 50).unwrap();
    ctx.offer = offer_id2;
    let r = world2.accept_offer(ctx, 50);
    assert_eq!(r, Err(ErrorCode::AmountOverflow));
    // the first leg did not survive: taker still holds 80, initializer 0
    assert_eq!(world2.balance_of(&id(31)), Some(80));
    assert_eq!(world2.balance_of(&id(32)), Some(0));
    assert_eq!(world2.balance_of(&vault_id), Some(100));
    assert!(world2.get_offer(&offer_id2).is_some());
}

#[test]
fn create_item_account_records_listing_and_mints_supply() {
    let mut world = setup();
    let ctx = CreateItemAccount {
        item_account: id(40),
        mint_account: id(41),
        associated_token_account: id(42),
        user: id(20),
    };
    world.create_item_account(ctx, "Sword".to_string(), "Bazaar".to_string(), 7).unwrap();
    assert_eq!(world.balance_of(&id(42)), Some(7));
}

#[test]
fn overlong_item_name_is_rejected_before_any_account_is_touched() {
    let mut world = setup();
    let ctx = CreateItemAccount {
        item_account: id(40),
        mint_account: id(41),
        associated_token_account: id(42),
        user: id(20),
    };
    let name: String = "x".repeat(51);
    let r = world.create_item_account(ctx, name, "Bazaar".to_string(), 7);
    assert_eq!(r, Err(ErrorCode::ItemNameTooLong));
    assert!(!world.is_occupied(&id(40)));
    assert!(!world.is_occupied(&id(41)));
    assert!(!world.is_occupied(&id(42)));
    // exactly fifty characters still fit
    let name50: String = "x".repeat(50);
    let r = world.create_item_account(ctx, name50, "Bazaar".to_string(), 7);
    assert_eq!(r, Ok(()));
}
