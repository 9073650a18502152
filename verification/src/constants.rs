use vstd::prelude::*;

verus! {

/// Role tag of the governance configuration record: `config`.
pub const GOVERNANCE_CONFIG_SEED: [u8; 6] = [99, 111, 110, 102, 105, 103];

/// Role tag of minter certificates and their controllers: `m`.
pub const MINTER_NFT_SEED: [u8; 1] = [109];

/// Role tag of consumer certificates and their controllers: `c`.
pub const CONSUMER_NFT_SEED: [u8; 1] = [99];

/// Role tag of mint authority records: `ma`.
pub const MINT_AUTHORITY_SEED: [u8; 2] = [109, 97];

/// Role tag of credit-token mints: `cct`.
pub const CARBON_CREDIT_TOKEN_SEED: [u8; 3] = [99, 99, 116];

/// Metadata key of the quota that is still open to minting.
pub const AVAILABLE_CREDITS_KEY: &'static str = "available_credits";

/// Metadata key of the running total of minted credits.
pub const MINTED_CREDITS_KEY: &'static str = "minted_credits";

/// Metadata key of the amount that a retirement certificate records.
pub const RETIRED_CREDITS_KEY: &'static str = "retired_credits";

/// Display name of every retirement certificate.
pub const RETIRED_CREDITS_CERT_NAME: &'static str = "Retired Credits Certificate";

/// Symbol of every retirement certificate.
pub const RETIRED_CREDITS_CERT_SYMBOL: &'static str = "RCC";

/// The three counter keys are pairwise different.
pub proof fn lemma_counter_keys_differ()
    ensures
        AVAILABLE_CREDITS_KEY@ != MINTED_CREDITS_KEY@,
        AVAILABLE_CREDITS_KEY@ != RETIRED_CREDITS_KEY@,
        MINTED_CREDITS_KEY@ != RETIRED_CREDITS_KEY@,
{
    reveal_strlit("available_credits");
    reveal_strlit("minted_credits");
    reveal_strlit("retired_credits");
    assert(AVAILABLE_CREDITS_KEY@.len() == 17);
    assert(MINTED_CREDITS_KEY@.len() == 14);
    assert(RETIRED_CREDITS_KEY@.len() == 15);
}

} // verus!
