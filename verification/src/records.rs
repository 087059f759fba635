use vstd::prelude::*;
use crate::identity::AccountId;

verus! {

/// Record-type tag that prefixes every persisted account, in bytes.
pub const DISCRIMINATOR: usize = 8;

/// Width of a stored address, in bytes.
pub const PUBLIC_KEY_BYTES: usize = 32;

/// Length prefix of a stored text field, in bytes.
pub const VEC_PREFIX: usize = 4;

/// The fixed capacity of the item and market name fields, in characters.
/// Longer input is rejected, never truncated.
pub const POSSIBLE_NUM_OF_CHARS: usize = 50;

/// Storage reserved per character, in bytes.
pub const CHAR_SIZE: usize = 8;

/// Storage reserved for one bounded text field, in bytes.
pub const TEXT_FIELD_BYTES: usize = VEC_PREFIX + POSSIBLE_NUM_OF_CHARS * CHAR_SIZE;

/// Backing storage of an item listing record, in bytes: the type tag, the
/// mint and token-account addresses, the two bounded text fields and the
/// seller's address.
pub const ITEM_ACCOUNT_LEN: usize = DISCRIMINATOR + PUBLIC_KEY_BYTES + PUBLIC_KEY_BYTES
    + TEXT_FIELD_BYTES + TEXT_FIELD_BYTES + PUBLIC_KEY_BYTES;

/// Width of a stored amount, in bytes.
pub const AMOUNT_BYTES: usize = 8;

/// Backing storage of an offer record, in bytes: the type tag, three
/// addresses and the two fixed amounts.
pub const OFFER_LEN: usize = DISCRIMINATOR + PUBLIC_KEY_BYTES + PUBLIC_KEY_BYTES
    + PUBLIC_KEY_BYTES + AMOUNT_BYTES + AMOUNT_BYTES;

/// An item listing: descriptive metadata beside the swap-safety core.
#[derive(Clone, Debug)]
pub struct ItemAccount {
    pub mint_public_key: AccountId,
    pub token_account_public_key: AccountId,
    pub name: String,
    pub market: String,
    pub seller: AccountId,
}

/// The mathematical model of an item listing.
#[verifier::ext_equal]
pub struct ItemAccountModel {
    pub mint_public_key: Seq<u8>,
    pub token_account_public_key: Seq<u8>,
    pub name: Seq<char>,
    pub market: Seq<char>,
    pub seller: Seq<u8>,
}

impl View for ItemAccount {
    type V = ItemAccountModel;

    open spec fn view(&self) -> ItemAccountModel {
        ItemAccountModel {
            mint_public_key: self.mint_public_key@,
            token_account_public_key: self.token_account_public_key@,
            name: self.name@,
            market: self.market@,
            seller: self.seller@,
        }
    }
}

/// A pending swap: the initializer has locked `give_amount` into custody and
/// will release it to whoever pays `receive_amount` from the bound
/// counterparty account.  Every field is fixed at creation; the record is
/// destroyed, never mutated.
#[derive(Clone, Copy, Debug)]
pub struct Offer {
    pub initializer: AccountId,
    pub initializer_token_account: AccountId,
    pub taker_token_account: AccountId,
    pub give_amount: u64,
    pub receive_amount: u64,
}

/// The mathematical model of an offer record.
#[verifier::ext_equal]
pub struct OfferModel {
    pub initializer: Seq<u8>,
    pub initializer_token_account: Seq<u8>,
    pub taker_token_account: Seq<u8>,
    pub give_amount: u64,
    pub receive_amount: u64,
}

impl View for Offer {
    type V = OfferModel;

    open spec fn view(&self) -> OfferModel {
        OfferModel {
            initializer: self.initializer@,
            initializer_token_account: self.initializer_token_account@,
            taker_token_account: self.taker_token_account@,
            give_amount: self.give_amount,
            receive_amount: self.receive_amount,
        }
    }
}

/// A balance-holding account on the asset ledger: owned by an authority,
/// tied to one asset type, holding a whole-number amount.
#[derive(Clone, Copy, Debug)]
pub struct TokenAccount {
    pub owner: AccountId,
    pub mint: AccountId,
    pub amount: u64,
}

/// The mathematical model of a token account.
#[verifier::ext_equal]
pub struct TokenAccountModel {
    pub owner: Seq<u8>,
    pub mint: Seq<u8>,
    pub amount: u64,
}

impl View for TokenAccount {
    type V = TokenAccountModel;

    open spec fn view(&self) -> TokenAccountModel {
        TokenAccountModel { owner: self.owner@, mint: self.mint@, amount: self.amount }
    }
}

/// An asset type: only its authority may mint new units.
#[derive(Clone, Copy, Debug)]
pub struct MintAccount {
    pub authority: AccountId,
}

/// The mathematical model of a mint.
#[verifier::ext_equal]
pub struct MintAccountModel {
    pub authority: Seq<u8>,
}

impl View for MintAccount {
    type V = MintAccountModel;

    open spec fn view(&self) -> MintAccountModel {
        MintAccountModel { authority: self.authority@ }
    }
}

} // verus!
