use vstd::prelude::*;

verus! {

/// Every way a submission can be rejected.  A rejection always leaves the
/// ledger exactly as it was: no operation of this crate applies a partial
/// effect.
#[derive(Clone, Copy, Debug, PartialEq, Eq, Structural)]
pub enum ErrorCode {
    /// The item name exceeds the fixed field capacity.
    ItemNameTooLong,
    /// The market name exceeds the fixed field capacity.
    MarketNameTooLong,
    /// An offer's give or receive amount is zero; terms must be positive.
    ZeroAmount,
    /// The storage identity derived for the offer or its custody account is
    /// already occupied; creating a duplicate fails rather than overwriting.
    DuplicateOffer,
    /// A freshly provisioned account's identity is already occupied.
    AccountInUse,
    /// A referenced account does not exist on the ledger.
    UnknownAccount,
    /// The presented authority does not own the account it tries to move
    /// funds from, or an existing receiving account belongs to someone else.
    UnauthorizedSource,
    /// The debited account holds less than the requested amount.
    InsufficientBalance,
    /// The asset types of the two sides of a transfer differ, or an account's
    /// asset type is not the one the caller declared.
    MintMismatch,
    /// Crediting the amount would overflow the receiving account's balance.
    AmountOverflow,
    /// No usable derived identity exists for the given seeds (statistically
    /// improbable; surfaced rather than guessed around).
    DerivationFailed,
    /// The referenced offer does not exist, or its recorded initializer is
    /// not the one presented.
    OfferTermsMismatch,
    /// The paying account is not the exact counterparty account that was
    /// bound to the offer at creation.
    CounterpartyMismatch,
    /// The custody account no longer holds exactly the promised give amount.
    CustodyUnderfunded,
    /// The taker offered an amount different from the recorded receive
    /// amount; there are no partial fills.
    AmountMismatch,
}

impl ErrorCode {
    /// A human-readable description of the rejection.
    pub fn message(&self) -> (r: &'static str)
        ensures
            *self is ItemNameTooLong ==> r@ == "The item name is too long"@,
            *self is MarketNameTooLong ==> r@ == "The market name is too long"@,
    {
        match self {
            ErrorCode::ItemNameTooLong => "The item name is too long",
            ErrorCode::MarketNameTooLong => "The market name is too long",
            ErrorCode::ZeroAmount => "Swap amounts must be positive",
            ErrorCode::DuplicateOffer => "An offer with these terms already exists",
            ErrorCode::AccountInUse => "The account identity is already in use",
            ErrorCode::UnknownAccount => "No such account on the ledger",
            ErrorCode::UnauthorizedSource => "The authority does not own this account",
            ErrorCode::InsufficientBalance => "The account balance is insufficient",
            ErrorCode::MintMismatch => "The asset types do not match",
            ErrorCode::AmountOverflow => "The credit would overflow the balance",
            ErrorCode::DerivationFailed => "No usable derived identity exists",
            ErrorCode::OfferTermsMismatch => "The offer does not exist as presented",
            ErrorCode::CounterpartyMismatch => "Not the counterparty account bound to the offer",
            ErrorCode::CustodyUnderfunded => "The custody account is underfunded",
            ErrorCode::AmountMismatch => "The amount differs from the agreed terms",
        }
    }
}

} // verus!
