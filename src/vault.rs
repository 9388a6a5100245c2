//! The instructions of the token-vault program and their arguments.
use vstd::prelude::*;

verus! {

/// Arguments of `VaultInstruction::InitVault`.
#[derive(Clone, Copy, Debug, PartialEq, Eq, Structural)]
pub struct InitVaultArgs {
    pub allow_further_share_creation: bool,
}

/// Arguments of `VaultInstruction::AddTokenToInactiveVault`.
#[derive(Clone, Copy, Debug, PartialEq, Eq, Structural)]
pub struct AddTokenToInactiveVaultArgs {
    pub amount: u64,
}

/// Arguments of `VaultInstruction::ActivateVault`.
#[derive(Clone, Copy, Debug, PartialEq, Eq, Structural)]
pub struct ActivateVaultArgs {
    pub number_of_shares: u64,
}

/// Instructions supported by the fractional vault program.
#[derive(Clone, Copy, Debug, PartialEq, Eq, Structural)]
pub enum VaultInstruction {
    /// Initialize a token vault, which starts inactive: tokens are added by
    /// later instructions, then the vault is activated.
    InitVault(InitVaultArgs),
    /// Add a token to an inactive vault.
    AddTokenToInactiveVault(AddTokenToInactiveVaultArgs),
    /// Activate an inactive vault, minting its fractional shares.
    ActivateVault(ActivateVaultArgs),
    /// Combine an active vault: buy out the outstanding shares.
    CombineVault,
    /// Redeem fractional shares of a combined vault for their proceeds.
    RedeemShares,
}

} // verus!
