use crate::address::Address;
use vstd::prelude::*;

verus! {

/// The root authority: one per deployment, created once.
#[derive(Clone, Copy, Debug, PartialEq, Eq)]
pub struct GovernanceConfig {
    pub authority: Address,
    pub bump: u8,
    pub is_initialized: bool,
}

/// Binds a credit-token mint to the principal that created it and to the
/// transfer hook that guards it, if any. It signs every mint of that token.
#[derive(Clone, Copy, Debug, PartialEq, Eq)]
pub struct MintAuthority {
    pub authority: Address,
    pub mint: Address,
    pub transfer_hook: Option<Address>,
    pub bump: u8,
}

/// Binds a minter's certificate mint to the credit-token mint it works
/// against and to the principal that holds the certificate. It signs the
/// counter updates of that certificate.
#[derive(Clone, Copy, Debug, PartialEq, Eq)]
pub struct MinterController {
    pub rwa_mint: Address,
    pub mint: Address,
    pub user: Address,
    pub bump: u8,
}

/// Binds a consumer's certificate mint to the credit-token mint and to the
/// principal that holds the certificate.
#[derive(Clone, Copy, Debug, PartialEq, Eq)]
pub struct ConsumerController {
    pub rwa_mint: Address,
    pub mint: Address,
    pub user: Address,
    pub bump: u8,
}

} // verus!
