//! The stable catalog of failure codes. Every rejected transition returns one
//! of these and leaves all records exactly as they were.

use vstd::prelude::*;

verus! {

/// Why a transition was rejected. Each operation's contract says exactly
/// which code comes back on which inputs.
#[derive(Clone, Copy, PartialEq, Eq, Structural, Debug)]
pub enum ErrorCode {
    AlreadyInitialized,
    PublicKeyMismatch,
    InvalidMintAuthority,
    UninitializedAccount,
    IncorrectAuthority,
    NotMutable,
    AuthorityDoesntExist,
    PayToDoesntExist,
    PriceIsGreaterThanPayment,
    NameIsTooLong,
    DescriptionIsTooLong,
    NotEnoughInventory,
    InsufficientFunds,
    UnableToDeductFromBuyerAccount,
    UnableToAddToPayToAccount,
    ProductIsNotActive,
    StoreIsNotActive,
    UnableToModifySnapshot,
    UnableToPurchaseSnapshot,
    InvalidTokenAccount,
    InvalidTicketTakerSigner,
    InvalidTicketTaker,
    InsufficientRemainingRedemptions,
    QuantityMustBeGreaterThanZero,
    InsufficientQuantity,
    IncorrectSeed,
    AlreadyProcessed,
    AlreadyRedeemed,
    ProductIsExpired,
    TicketIsExpired,
    AgreedExpirationDoesntMatch,
    AgreedExpirationAfterPurchaseDoesntMatch,
    AgreedExpirationAfterRedemptionDoesntMatch,
    TakeIsExpired,
}

} // verus!
