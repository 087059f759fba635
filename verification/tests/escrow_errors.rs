use solana_escrow::errors::ErrorCode;
use solana_escrow::escrow::{AcceptOffer, CreateItemAccount, CreateOffer, Escrow};
use solana_escrow::identity::{derive_offer_identity, derive_vault_identity, AccountId};
use solana_escrow::records::{ITEM_ACCOUNT_LEN, OFFER_LEN, POSSIBLE_NUM_OF_CHARS};

fn id(b: u8) -> AccountId {
    AccountId::new([b; 32])
}

fn setup() -> Escrow {
    let mut world = Escrow::new(id(1));
    world.register_mint(id(10), id(2)).unwrap();
    world.register_mint(id(11), id(3)).unwrap();
    world.register_token_account(id(30), id(20), id(10), 500).unwrap();
    world.register_token_account(id(31), id(21), id(11), 80).unwrap();
    world.register_token_account(id(32), id(20), id(11), 0).unwrap();
    world.register_token_account(id(33), id(21), id(10), 0).unwrap();
    world
}

fn offer_ctx() -> CreateOffer {
    CreateOffer {
        initializer: id(20),
        initializer_token_account: id(30),
        mint: id(10),
        taker_token_account: id(31),
    }
}

fn accept_ctx(offer_id: AccountId, vault_id: AccountId) -> AcceptOffer {
    AcceptOffer {
        offer: offer_id,
        taker: id(21),
        initializer: id(20),
        taker_give_token_account: id(31),
        vault_token_account: vault_id,
        taker_receive_token_account: id(33),
        initializer_receive_token_account: id(32),
    }
}

#[test]
fn overlong_market_name_is_rejected() {
    let mut world = setup();
    let ctx = CreateItemAccount {
        item_account: id(40),
        mint_account: id(41),
        associated_token_account: id(42),
        user: id(20),
    };
    let market: String = "m".repeat(51);
    let r = world.create_item_account(ctx, "Sword".to_string(), market, 7);
    assert_eq!(r, Err(ErrorCode::MarketNameTooLong));
}

#[test]
fn item_account_on_an_occupied_address_is_rejected() {
    let mut world = setup();
    let ctx = CreateItemAccount {
        item_account: id(30),  // already a token account
        mint_account: id(41),
        associated_token_account: id(42),
        user: id(20),
    };
    let r = world.create_item_account(ctx, "Sword".to_string(), "Bazaar".to_string(), 7);
    assert_eq!(r, Err(ErrorCode::AccountInUse));
}

#[test]
fn registering_twice_at_one_address_is_rejected() {
    let mut world = setup();
    let r = world.register_token_account(id(30), id(20), id(10), 1);
    assert_eq!(r, Err(ErrorCode::AccountInUse));
    let r = world.register_mint(id(10), id(2));
    assert_eq!(r, Err(ErrorCode::AccountInUse));
}

#[test]
fn zero_amounts_are_rejected() {
    let mut world = setup();
    assert_eq!(world.create_offer(offer_ctx(), 0, 50), Err(ErrorCode::ZeroAmount));
    assert_eq!(world.create_offer(offer_ctx(), 100, 0), Err(ErrorCode::ZeroAmount));
}

#[test]
fn create_from_a_source_the_initializer_does_not_own_is_rejected() {
    let mut world = setup();
    let ctx = CreateOffer {
        initializer: id(21),  // not the owner of account 30
        initializer_token_account: id(30),
        mint: id(10),
        taker_token_account: id(31),
    };
    assert_eq!(world.create_offer(ctx, 100, 50), Err(ErrorCode::UnauthorizedSource));
}

#[test]
fn create_with_a_mismatched_declared_mint_is_rejected() {
    let mut world = setup();
    let ctx = CreateOffer {
        initializer: id(20),
        initializer_token_account: id(30),
        mint: id(11),  // account 30 holds mint 10
        taker_token_account: id(31),
    };
    assert_eq!(world.create_offer(ctx, 100, 50), Err(ErrorCode::MintMismatch));
}

#[test]
fn create_from_a_missing_account_is_rejected() {
    let mut world = setup();
    let ctx = CreateOffer {
        initializer: id(20),
        initializer_token_account: id(77),
        mint: id(10),
        taker_token_account: id(31),
    };
    assert_eq!(world.create_offer(ctx, 100, 50), Err(ErrorCode::UnknownAccount));
}

#[test]
fn create_beyond_the_source_balance_is_rejected() {
    let mut world = setup();
    assert_eq!(world.create_offer(offer_ctx(), 501, 50), Err(ErrorCode::InsufficientBalance));
}

#[test]
fn accept_of_a_nonexistent_offer_is_rejected() {
    let mut world = setup();
    let r = world.accept_offer(accept_ctx(id(60), id(61)), 50);
    assert_eq!(r, Err(ErrorCode::OfferTermsMismatch));
}

#[test]
fn accept_with_a_forged_initializer_is_rejected() {
    let mut world = setup();
    let offer_id = world.create_offer(offer_ctx(), 100, 50).unwrap();
    let (vault_id, _bump) = derive_vault_identity(&id(30), &id(31), &id(1)).unwrap();
    let mut ctx = accept_ctx(offer_id, vault_id);
    ctx.initializer = id(21);
    assert_eq!(world.accept_offer(ctx, 50), Err(ErrorCode::OfferTermsMismatch));
}

#[test]
fn accept_from_any_other_account_is_a_counterparty_mismatch() {
    let mut world = setup();
    // a second account of the taker, same mint, amply funded: amounts match
    // exactly, yet only the account bound at creation may pay
    world.register_token_account(id(34), id(21), id(11), 500).unwrap();
    let offer_id = world.create_offer(offer_ctx(), 100, 50).unwrap();
    let (vault_id, _bump) = derive_vault_identity(&id(30), &id(31), &id(1)).unwrap();
    let mut ctx = accept_ctx(offer_id, vault_id);
    ctx.taker_give_token_account = id(34);
    assert_eq!(world.accept_offer(ctx, 50), Err(ErrorCode::CounterpartyMismatch));
}

#[test]
fn accept_with_underfunded_custody_is_rejected() {
    let mut world = setup();
    let offer_id = world.create_offer(offer_ctx(), 100, 50).unwrap();
    let (vault_id, _bump) = derive_vault_identity(&id(30), &id(31), &id(1)).unwrap();
    // drain custody out of band, authorized by the custody owner itself
    world.register_token_account(id(35), id(22), id(10), 0).unwrap();
    world.transfer(&vault_id, &id(35), 40, &offer_id).unwrap();
    let r = world.accept_offer(accept_ctx(offer_id, vault_id), 50);
    assert_eq!(r, Err(ErrorCode::CustodyUnderfunded));
}

#[test]
fn accept_amount_off_by_one_is_rejected() {
    let mut world = setup();
    let offer_id = world.create_offer(offer_ctx(), 100, 50).unwrap();
    let (vault_id, _bump) = derive_vault_identity(&id(30), &id(31), &id(1)).unwrap();
    assert_eq!(
        world.accept_offer(accept_ctx(offer_id, vault_id), 49),
        Err(ErrorCode::AmountMismatch)
    );
    assert_eq!(
        world.accept_offer(accept_ctx(offer_id, vault_id), 51),
        Err(ErrorCode::AmountMismatch)
    );
}

#[test]
fn accept_with_a_receiving_account_of_the_wrong_party_is_rejected() {
    let mut world = setup();
    let offer_id = world.create_offer(offer_ctx(), 100, 50).unwrap();
    let (vault_id, _bump) = derive_vault_identity(&id(30), &id(31), &id(1)).unwrap();
    let mut ctx = accept_ctx(offer_id, vault_id);
    ctx.taker_receive_token_account = id(32);  // belongs to the initializer
    assert_eq!(world.accept_offer(ctx, 50), Err(ErrorCode::UnauthorizedSource));
}

#[test]
fn transfer_between_different_mints_is_rejected() {
    let mut world = setup();
    // account 30 holds mint 10, account 32 holds mint 11
    let r = world.transfer(&id(30), &id(32), 5, &id(20));
    assert_eq!(r, Err(ErrorCode::MintMismatch));
}

#[test]
fn credit_overflow_is_rejected() {
    let mut world = setup();
    world.register_token_account(id(36), id(23), id(10), u64::MAX).unwrap();
    let r = world.transfer(&id(30), &id(36), 1, &id(20));
    assert_eq!(r, Err(ErrorCode::AmountOverflow));
}

#[test]
fn derived_identities_match_the_program_derivation() {
    let world_program = id(1);
    let src = id(30);
    let tgt = id(31);
    let (offer_id, offer_bump) =
        derive_offer_identity(&src, 100, &tgt, 50, &world_program).unwrap();
    let (vault_id, vault_bump) = derive_vault_identity(&src, &tgt, &world_program).unwrap();
    // cross-check against the underlying derivation, seed for seed
    let program_pk = solana_program::pubkey::Pubkey::new_from_array(world_program.bytes);
    let give_le: [u8; 8] = 100u64.to_le_bytes();
    let recv_le: [u8; 8] = 50u64.to_le_bytes();
    let expected_offer = solana_program::pubkey::Pubkey::try_find_program_address(
        &[&src.bytes, &give_le, &tgt.bytes, &recv_le],
        &program_pk,
    )
    .unwrap();
    assert_eq!(offer_id.bytes, expected_offer.0.to_bytes());
    assert_eq!(offer_bump, expected_offer.1);
    let expected_vault = solana_program::pubkey::Pubkey::try_find_program_address(
        &[&src.bytes, &tgt.bytes],
        &program_pk,
    )
    .unwrap();
    assert_eq!(vault_id.bytes, expected_vault.0.to_bytes());
    assert_eq!(vault_bump, expected_vault.1);
    // distinct seeds land on distinct identities
    assert_ne!(offer_id.bytes, vault_id.bytes);
    assert_ne!(offer_id.bytes, src.bytes);
}

#[test]
fn error_messages_name_the_rejection() {
    assert_eq!(ErrorCode::ItemNameTooLong.message(), "The item name is too long");
    assert_eq!(ErrorCode::MarketNameTooLong.message(), "The market name is too long");
    assert_eq!(ErrorCode::DuplicateOffer.message(), "An offer with these terms already exists");
}

#[test]
fn record_layouts_have_the_declared_sizes() {
    // type tag + two addresses + two bounded text fields + seller address
    assert_eq!(ITEM_ACCOUNT_LEN, 8 + 32 + 32 + (4 + 50 * 8) + (4 + 50 * 8) + 32);
    // type tag + three addresses + two amounts
    assert_eq!(OFFER_LEN, 8 + 32 + 32 + 32 + 8 + 8);
    assert_eq!(POSSIBLE_NUM_OF_CHARS, 50);
}
