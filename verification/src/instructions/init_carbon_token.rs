use crate::address::Address;
use crate::authority::{bump_of, check_derived, derives_to, seeds1};
use crate::constants::{CARBON_CREDIT_TOKEN_SEED, MINTER_NFT_SEED, MINT_AUTHORITY_SEED};
use crate::error::MyErrorCode;
use crate::instructions::init_rwa_token::{create_credit_mint, is_credit_mint};
use crate::state::MintAuthority;
use crate::token::{Mint, TokenAccount};
use vstd::prelude::*;

verus! {

/// What the creation of a credit token by a minter works on: the minter that
/// signs, its certificate, and the two slots that the creation fills.
#[derive(Clone, Debug, PartialEq, Eq)]
pub struct InitCarbonToken {
    pub program_id: Address,
    /// The principal that signs the creation: the holder of the minter
    /// certificate.
    pub creator: Address,
    /// Address of the authority record of the new mint.
    pub mint_authority_address: Address,
    /// Address of the new mint.
    pub mint_address: Address,
    /// The authority record, `None` while it does not exist.
    pub mint_authority: Option<MintAuthority>,
    /// The credit-token mint, `None` while it does not exist.
    pub mint: Option<Mint>,
    pub minter_nft_mint: Mint,
    pub minter_nft_token_account: TokenAccount,
    pub transfer_hook_program: Address,
}

impl InitCarbonToken {
    /// Every address is the one derived for its role: the certificate for
    /// the creator, the new mint for the certificate, and the authority
    /// record for the new mint.
    pub open spec fn addresses_agree(&self) -> bool {
        &&& derives_to(
            seeds1(MINTER_NFT_SEED@, self.creator@),
            self.program_id@,
            self.minter_nft_mint.address@,
        )
        &&& derives_to(
            seeds1(CARBON_CREDIT_TOKEN_SEED@, self.minter_nft_mint.address@),
            self.program_id@,
            self.mint_address@,
        )
        &&& derives_to(
            seeds1(MINT_AUTHORITY_SEED@, self.mint_address@),
            self.program_id@,
            self.mint_authority_address@,
        )
    }

    /// The bump of the authority record's address.
    pub open spec fn authority_bump(&self) -> u8 {
        bump_of(seeds1(MINT_AUTHORITY_SEED@, self.mint_address@), self.program_id@)
    }

    /// The creator holds the single unit of its minter certificate.
    pub open spec fn holds_certificate(&self) -> bool {
        &&& self.minter_nft_mint.decimals == 0
        &&& self.minter_nft_mint.supply == 1
        &&& self.minter_nft_token_account.mint@ == self.minter_nft_mint.address@
        &&& self.minter_nft_token_account.owner@ == self.creator@
        &&& self.minter_nft_token_account.amount == 1
    }

    /// Whether the creation goes through: the creator must hold its
    /// certificate, and neither slot may be taken.
    pub open spec fn outcome(&self) -> Result<(), MyErrorCode> {
        if !self.holds_certificate() {
            Err(MyErrorCode::Unauthorized)
        } else if self.mint_authority is Some || self.mint is Some {
            Err(MyErrorCode::AlreadyExists)
        } else {
            Ok(())
        }
    }

    /// The state after a creation out of `before`: the authority record
    /// binds the mint to the creator and to the hook, and the mint is a
    /// fresh indivisible credit token with hook and fee.
    pub open spec fn is_created_from(
        &self,
        before: InitCarbonToken,
        bump: u8,
        transfer_fee_basis_points: u16,
        maximum_fee: u64,
        name: Seq<char>,
        symbol: Seq<char>,
        uri: Seq<char>,
    ) -> bool {
        &&& self.mint_authority == Some(
            MintAuthority {
                authority: before.creator,
                mint: before.mint_address,
                transfer_hook: Some(before.transfer_hook_program),
                bump,
            },
        )
        &&& self.mint is Some
        &&& is_credit_mint(
            self.mint->Some_0,
            before.mint_address@,
            before.mint_authority_address,
            0,
            Some(before.transfer_hook_program),
            Some((transfer_fee_basis_points, maximum_fee)),
            name,
            symbol,
            uri,
        )
        &&& self.program_id == before.program_id
        &&& self.creator == before.creator
        &&& self.mint_authority_address == before.mint_authority_address
        &&& self.mint_address == before.mint_address
        &&& self.minter_nft_mint == before.minter_nft_mint
        &&& self.minter_nft_token_account == before.minter_nft_token_account
        &&& self.transfer_hook_program == before.transfer_hook_program
    }

    /// Creates the credit token of a minter. The three addresses are
    /// searched for again and compared before anything is created.
    pub fn handler(
        &mut self,
        name: String,
        symbol: String,
        uri: String,
        transfer_fee_basis_points: u16,
        maximum_fee: u64,
    ) -> (r: Result<(), MyErrorCode>)
        ensures
            r is Err ==> *final(self) == *old(self),
            !old(self).addresses_agree() ==> r == Err::<(), MyErrorCode>(
                MyErrorCode::Unauthorized,
            ),
            old(self).addresses_agree() ==> r == old(self).outcome(),
            r is Ok ==> final(self).is_created_from(
                *old(self),
                old(self).authority_bump(),
                transfer_fee_basis_points,
                maximum_fee,
                name@,
                symbol@,
                uri@,
            ),
    {
        if check_derived(
            MINTER_NFT_SEED.as_slice(),
            Some(&self.creator),
            None,
            &self.program_id,
            &self.minter_nft_mint.address,
        ).is_none() {
            return Err(MyErrorCode::Unauthorized);
        }
        if check_derived(
            CARBON_CREDIT_TOKEN_SEED.as_slice(),
            Some(&self.minter_nft_mint.address),
            None,
            &self.program_id,
            &self.mint_address,
        ).is_none() {
            return Err(MyErrorCode::Unauthorized);
        }
        match check_derived(
            MINT_AUTHORITY_SEED.as_slice(),
            Some(&self.mint_address),
            None,
            &self.program_id,
            &self.mint_authority_address,
        ) {
            None => Err(MyErrorCode::Unauthorized),
            Some(bump) => self.create(
                name,
                symbol,
                uri,
                transfer_fee_basis_points,
                maximum_fee,
                bump,
            ),
        }
    }

    /// Tests whether the creator holds the single unit of its certificate.
    pub fn check_certificate(&self) -> (r: bool)
        ensures
            r == self.holds_certificate(),
    {
        self.minter_nft_mint.decimals == 0 && self.minter_nft_mint.supply == 1
            && self.minter_nft_token_account.mint.same(&self.minter_nft_mint.address)
            && self.minter_nft_token_account.owner.same(&self.creator)
            && self.minter_nft_token_account.amount == 1
    }

    /// Creates the credit token of a minter, with `bump` as the bump of the
    /// authority record's address. Either every step takes effect or none.
    pub fn create(
        &mut self,
        name: String,
        symbol: String,
        uri: String,
        transfer_fee_basis_points: u16,
        maximum_fee: u64,
        bump: u8,
    ) -> (r: Result<(), MyErrorCode>)
        ensures
            r == old(self).outcome(),
            r is Err ==> *final(self) == *old(self),
            r is Ok ==> final(self).is_created_from(
                *old(self),
                bump,
                transfer_fee_basis_points,
                maximum_fee,
                name@,
                symbol@,
                uri@,
            ),
    {
        if !self.check_certificate() {
            return Err(MyErrorCode::Unauthorized);
        }
        if self.mint_authority.is_some() || self.mint.is_some() {
            return Err(MyErrorCode::AlreadyExists);
        }
        match create_credit_mint(
            self.mint_address,
            self.mint_authority_address,
            0,
            Some(self.transfer_hook_program),
            Some((transfer_fee_basis_points, maximum_fee)),
            name,
            symbol,
            uri,
        ) {
            Ok(mint) => {
                self.mint_authority = Some(
                    MintAuthority {
                        authority: self.creator,
                        mint: self.mint_address,
                        transfer_hook: Some(self.transfer_hook_program),
                        bump,
                    },
                );
                self.mint = Some(mint);
                Ok(())
            },
            Err(e) => Err(e),
        }
    }
}

} // verus!
