use vstd::prelude::*;

verus! {

/// Failures of the auction's operations.
#[derive(Clone, Copy, Debug, PartialEq, Eq, Structural)]
pub enum AuctionError {
    /// An account or address does not match the one derived for the bidder.
    ValidationError,
    /// The auction does not accept bids at this time.
    AuctionClosed,
    /// The bid does not improve on the bidder's own active bid.
    BidTooSmall,
    /// The bidder cannot pay the amount of the bid.
    InsufficientFunds,
    /// An amount left the range of its integer type.
    NumericalOverflow,
    /// A record could not be read, written or created.
    PersistenceError,
}

/// Failures of the auction-manager program, each with a numeric code.
#[derive(Clone, Copy, Debug, PartialEq, Eq, Structural)]
pub enum MetaplexError {
    /// Invalid instruction data passed in.
    InstructionUnpackError,
    /// Lamport balance below rent-exempt threshold.
    NotRentExempt,
    /// Already initialized
    AlreadyInitialized,
    /// Uninitialized
    Uninitialized,
    /// Account does not have correct owner
    IncorrectOwner,
    /// NumericalOverflowError
    NumericalOverflowError,
    /// Token transfer failed
    TokenTransferFailed,
    /// Token mint to failed
    TokenMintToFailed,
    /// Token burn failed
    TokenBurnFailed,
    /// Invalid program authority provided
    InvalidAuthority,
    /// Vault's authority does not match the expected pda with seed ['metaplex', auction_key]
    VaultAuthorityMismatch,
    /// Auction's authority does not match the expected pda with seed ['metaplex', auction_key]
    AuctionAuthorityMismatch,
    /// The authority passed to the call does not match the authority on the auction manager!
    AuctionManagerAuthorityMismatch,
    /// Auction Manager does not have the appropriate pda key with seed ['metaplex', auction_key]
    AuctionManagerKeyMismatch,
    /// External Price Account Owner must be this program
    ExternalPriceAccountOwnerMismatch,
    /// Vault's external pricing account needs to match the external pricing account given
    VaultExternalPricingMismatch,
    /// Auction is not auctioning off the vault given!
    AuctionVaultMismatch,
    /// Vault given does not match that on given auction manager!
    AuctionManagerVaultMismatch,
    /// The safety deposit box given does not belong to the given vault!
    SafetyDepositBoxVaultMismatch,
    /// The store given does not belong to the safety deposit box given!
    SafetyDepositBoxStoreMismatch,
    /// The metadata given does not match the mint on the safety deposit box given!
    SafetyDepositBoxMetadataMismatch,
    /// The mint given does not match the mint on the given safety deposit box!
    SafetyDepositBoxMintMismatch,
    /// The mint is owned by a different token program than the one used by this auction manager!
    TokenProgramMismatch,
    /// Only active vaults may be used in auction managers!
    VaultNotActive,
    /// Cannot auction off an empty vault!
    VaultCannotEmpty,
    /// Listed a safety deposit box index that does not exist in this vault
    InvalidSafetyDepositBox,
    /// Cant use a limited supply edition for an open edition as you may run out of editions to print
    CantUseLimitedSupplyEditionsWithOpenEditionAuction,
    /// This safety deposit box is not listed as a prize in this auction manager!
    SafetyDepositBoxNotUsedInAuction,
    /// Auction Manager Authority needs to be signer for this action!
    AuctionManagerAuthorityIsNotSigner,
    /// Either you have given a non-existent edition address or you have given the address to a different token-metadata program than was used to make this edition!
    InvalidEditionAddress,
    /// There are not enough editions available for this auction!
    NotEnoughEditionsAvailableForAuction,
    /// The store in the safety deposit is empty, so you have nothing to auction!
    StoreIsEmpty,
    /// Cannot auction off more than one of the master edition itself!
    CannotAuctionOffMoreThanOneOfMasterEditionItself,
    /// Cannot auction off more than one of a limited edition!
    CannotAuctionOffMoreThanOneOfLimitedEdition,
    /// Not enough tokens to supply winners!
    NotEnoughTokensToSupplyWinners,
}

/// The numeric code of an error: its position among the variants, from zero.
pub open spec fn metaplex_error_code(e: MetaplexError) -> u32 {
    match e {
        MetaplexError::InstructionUnpackError => 0,
        MetaplexError::NotRentExempt => 1,
        MetaplexError::AlreadyInitialized => 2,
        MetaplexError::Uninitialized => 3,
        MetaplexError::IncorrectOwner => 4,
        MetaplexError::NumericalOverflowError => 5,
        MetaplexError::TokenTransferFailed => 6,
        MetaplexError::TokenMintToFailed => 7,
        MetaplexError::TokenBurnFailed => 8,
        MetaplexError::InvalidAuthority => 9,
        MetaplexError::VaultAuthorityMismatch => 10,
        MetaplexError::AuctionAuthorityMismatch => 11,
        MetaplexError::AuctionManagerAuthorityMismatch => 12,
        MetaplexError::AuctionManagerKeyMismatch => 13,
        MetaplexError::ExternalPriceAccountOwnerMismatch => 14,
        MetaplexError::VaultExternalPricingMismatch => 15,
        MetaplexError::AuctionVaultMismatch => 16,
        MetaplexError::AuctionManagerVaultMismatch => 17,
        MetaplexError::SafetyDepositBoxVaultMismatch => 18,
        MetaplexError::SafetyDepositBoxStoreMismatch => 19,
        MetaplexError::SafetyDepositBoxMetadataMismatch => 20,
        MetaplexError::SafetyDepositBoxMintMismatch => 21,
        MetaplexError::TokenProgramMismatch => 22,
        MetaplexError::VaultNotActive => 23,
        MetaplexError::VaultCannotEmpty => 24,
        MetaplexError::InvalidSafetyDepositBox => 25,
        MetaplexError::CantUseLimitedSupplyEditionsWithOpenEditionAuction => 26,
        MetaplexError::SafetyDepositBoxNotUsedInAuction => 27,
        MetaplexError::AuctionManagerAuthorityIsNotSigner => 28,
        MetaplexError::InvalidEditionAddress => 29,
        MetaplexError::NotEnoughEditionsAvailableForAuction => 30,
        MetaplexError::StoreIsEmpty => 31,
        MetaplexError::CannotAuctionOffMoreThanOneOfMasterEditionItself => 32,
        MetaplexError::CannotAuctionOffMoreThanOneOfLimitedEdition => 33,
        MetaplexError::NotEnoughTokensToSupplyWinners => 34,
    }
}

impl MetaplexError {
    /// The numeric code that the host reports for this error.
    pub fn code(&self) -> (r: u32)
        ensures
            r == metaplex_error_code(*self),
    {
        match self {
            MetaplexError::InstructionUnpackError => 0,
            MetaplexError::NotRentExempt => 1,
            MetaplexError::AlreadyInitialized => 2,
            MetaplexError::Uninitialized => 3,
            MetaplexError::IncorrectOwner => 4,
            MetaplexError::NumericalOverflowError => 5,
            MetaplexError::TokenTransferFailed => 6,
            MetaplexError::TokenMintToFailed => 7,
            MetaplexError::TokenBurnFailed => 8,
            MetaplexError::InvalidAuthority => 9,
            MetaplexError::VaultAuthorityMismatch => 10,
            MetaplexError::AuctionAuthorityMismatch => 11,
            MetaplexError::AuctionManagerAuthorityMismatch => 12,
            MetaplexError::AuctionManagerKeyMismatch => 13,
            MetaplexError::ExternalPriceAccountOwnerMismatch => 14,
            MetaplexError::VaultExternalPricingMismatch => 15,
            MetaplexError::AuctionVaultMismatch => 16,
            MetaplexError::AuctionManagerVaultMismatch => 17,
            MetaplexError::SafetyDepositBoxVaultMismatch => 18,
            MetaplexError::SafetyDepositBoxStoreMismatch => 19,
            MetaplexError::SafetyDepositBoxMetadataMismatch => 20,
            MetaplexError::SafetyDepositBoxMintMismatch => 21,
            MetaplexError::TokenProgramMismatch => 22,
            MetaplexError::VaultNotActive => 23,
            MetaplexError::VaultCannotEmpty => 24,
            MetaplexError::InvalidSafetyDepositBox => 25,
            MetaplexError::CantUseLimitedSupplyEditionsWithOpenEditionAuction => 26,
            MetaplexError::SafetyDepositBoxNotUsedInAuction => 27,
            MetaplexError::AuctionManagerAuthorityIsNotSigner => 28,
            MetaplexError::InvalidEditionAddress => 29,
            MetaplexError::NotEnoughEditionsAvailableForAuction => 30,
            MetaplexError::StoreIsEmpty => 31,
            MetaplexError::CannotAuctionOffMoreThanOneOfMasterEditionItself => 32,
            MetaplexError::CannotAuctionOffMoreThanOneOfLimitedEdition => 33,
            MetaplexError::NotEnoughTokensToSupplyWinners => 34,
        }
    }

    /// The kind of error, as the host names it.
    pub fn type_of() -> (r: &'static str)
        ensures
            r@ == "Metaplex Error"@,
    {
        "Metaplex Error"
    }
}

} // verus!
