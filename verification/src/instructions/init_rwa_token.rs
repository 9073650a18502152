use crate::address::Address;
use crate::authority::{
    bump_of, byte_seeds, check_derived, check_derived_seeds, derives_to, seeds1,
};
use crate::constants::{CARBON_CREDIT_TOKEN_SEED, MINT_AUTHORITY_SEED};
use crate::error::MyErrorCode;
use crate::state::{GovernanceConfig, MintAuthority};
use crate::token::{Mint, TransferFee};
use vstd::prelude::*;
use vstd::string::*;

verus! {

/// `mint` is a credit-token mint right after its creation: no supply, every
/// authority with the record `authority`, the hook and the fee as asked
/// for, the metadata attached and no additional field.
pub open spec fn is_credit_mint(
    mint: Mint,
    address: Seq<u8>,
    authority: Address,
    decimals: u8,
    hook: Option<Address>,
    fee: Option<(u16, u64)>,
    name: Seq<char>,
    symbol: Seq<char>,
    uri: Seq<char>,
) -> bool {
    &&& mint.address@ == address
    &&& mint.decimals == decimals
    &&& mint.supply == 0
    &&& mint.mint_authority == Some(authority)
    &&& mint.update_authority == Some(authority)
    &&& mint.close_authority == Some(authority)
    &&& mint.permanent_delegate is None
    &&& mint.transfer_hook == hook
    &&& mint.transfer_fee == (match fee {
        Some((basis_points, maximum_fee)) => Some(
            TransferFee { authority, basis_points, maximum_fee },
        ),
        None => None,
    })
    &&& mint.has_metadata
    &&& mint.name@ == name
    &&& mint.symbol@ == symbol
    &&& mint.uri@ == uri
    &&& mint.fields() == Seq::<(Seq<char>, Seq<char>)>::empty()
}

/// Creates the mint of a credit token with its extensions: metadata pointer
/// and close authority always, the transfer hook and the transfer fee where
/// given. The extensions are set before the mint itself is initialised.
pub fn init_extensions_and_mint(
    address: Address,
    authority: Address,
    decimals: u8,
    hook: Option<Address>,
    fee: Option<(u16, u64)>,
) -> (mint: Mint)
    ensures
        mint.address == address,
        mint.decimals == decimals,
        mint.supply == 0,
        mint.mint_authority == Some(authority),
        mint.update_authority == Some(authority),
        mint.close_authority == Some(authority),
        mint.permanent_delegate is None,
        mint.transfer_hook == hook,
        mint.transfer_fee == (match fee {
            Some((basis_points, maximum_fee)) => Some(
                TransferFee { authority, basis_points, maximum_fee },
            ),
            None => None,
        }),
        !mint.has_metadata,
        mint.fields() == Seq::<(Seq<char>, Seq<char>)>::empty(),
{
    let mut mint = Mint::create(address, decimals, authority);
    mint.transfer_hook = hook;
    mint.transfer_fee = match fee {
        Some((basis_points, maximum_fee)) => Some(
            TransferFee { authority, basis_points, maximum_fee },
        ),
        None => None,
    };
    mint
}

/// Creates the mint of a credit token and attaches its metadata, all under
/// the authority record `authority`.
pub fn create_credit_mint(
    address: Address,
    authority: Address,
    decimals: u8,
    hook: Option<Address>,
    fee: Option<(u16, u64)>,
    name: String,
    symbol: String,
    uri: String,
) -> (r: Result<Mint, MyErrorCode>)
    ensures
        r matches Ok(mint) && is_credit_mint(
            mint,
            address@,
            authority,
            decimals,
            hook,
            fee,
            name@,
            symbol@,
            uri@,
        ),
{
    let mut mint = init_extensions_and_mint(address, authority, decimals, hook, fee);
    match mint.initialize_metadata(&authority, name, symbol, uri) {
        Ok(()) => Ok(mint),
        Err(e) => Err(e),
    }
}

/// What the creation of a credit token by governance works on: the
/// governance authority that signs, and the two slots that the creation
/// fills.
#[derive(Clone, Debug, PartialEq, Eq)]
pub struct InitRwaToken {
    pub program_id: Address,
    /// The principal that signs the creation.
    pub authority: Address,
    pub config_account: GovernanceConfig,
    /// Address of the authority record of the new mint.
    pub mint_authority_address: Address,
    /// Address of the new mint.
    pub mint_address: Address,
    /// The authority record, `None` while it does not exist.
    pub mint_authority: Option<MintAuthority>,
    /// The credit-token mint, `None` while it does not exist.
    pub mint: Option<Mint>,
    pub transfer_hook_program: Address,
}

impl InitRwaToken {
    /// The mint stands at the address derived for the symbol's bytes, and the
    /// authority record at the address derived for the mint.
    pub open spec fn addresses_agree(&self, symbol: Seq<char>) -> bool {
        &&& derives_to(
            seeds1(CARBON_CREDIT_TOKEN_SEED@, vstd::utf8::encode_utf8(symbol)),
            self.program_id@,
            self.mint_address@,
        )
        &&& derives_to(
            seeds1(MINT_AUTHORITY_SEED@, self.mint_address@),
            self.program_id@,
            self.mint_authority_address@,
        )
    }

    /// The bump of the authority record's address.
    pub open spec fn authority_bump(&self) -> u8 {
        bump_of(seeds1(MINT_AUTHORITY_SEED@, self.mint_address@), self.program_id@)
    }

    /// Whether the creation goes through: the signer must be the governance
    /// authority, and neither slot may be taken.
    pub open spec fn outcome(&self) -> Result<(), MyErrorCode> {
        if !self.config_account.is_initialized || self.config_account.authority@
            != self.authority@ {
            Err(MyErrorCode::Unauthorized)
        } else if self.mint_authority is Some || self.mint is Some {
            Err(MyErrorCode::AlreadyExists)
        } else {
            Ok(())
        }
    }

    /// The state after a creation out of `before`: the authority record
    /// binds the mint to the signer and to the hook of a closed token, and
    /// the mint is a fresh credit token.
    pub open spec fn is_created_from(
        &self,
        before: InitRwaToken,
        bump: u8,
        decimals: u8,
        is_close: bool,
        fee: Option<(u16, u64)>,
        name: Seq<char>,
        symbol: Seq<char>,
        uri: Seq<char>,
    ) -> bool {
        let hook = if is_close {
            Some(before.transfer_hook_program)
        } else {
            None
        };
        &&& self.mint_authority == Some(
            MintAuthority {
                authority: before.authority,
                mint: before.mint_address,
                transfer_hook: hook,
                bump,
            },
        )
        &&& self.mint is Some
        &&& is_credit_mint(
            self.mint->Some_0,
            before.mint_address@,
            before.mint_authority_address,
            decimals,
            hook,
            fee,
            name,
            symbol,
            uri,
        )
        &&& self.program_id == before.program_id
        &&& self.authority == before.authority
        &&& self.config_account == before.config_account
        &&& self.mint_authority_address == before.mint_authority_address
        &&& self.mint_address == before.mint_address
        &&& self.transfer_hook_program == before.transfer_hook_program
    }

    /// The fee settings that a creation uses: those given, for a token with
    /// fees.
    pub open spec fn fee_of(
        has_fee: bool,
        transfer_fee_basis_points: Option<u16>,
        maximum_fee: Option<u64>,
    ) -> Option<(u16, u64)> {
        if has_fee {
            Some((transfer_fee_basis_points->Some_0, maximum_fee->Some_0))
        } else {
            None
        }
    }

    /// Creates a credit token for governance. A closed token is guarded by
    /// the transfer hook; a token with fees needs both fee settings.
    pub fn handler(
        &mut self,
        name: String,
        symbol: String,
        decimals: u8,
        uri: String,
        is_close: bool,
        has_fee: bool,
        transfer_fee_basis_points: Option<u16>,
        maximum_fee: Option<u64>,
    ) -> (r: Result<(), MyErrorCode>)
        requires
            has_fee ==> transfer_fee_basis_points is Some && maximum_fee is Some,
        ensures
            r is Err ==> *final(self) == *old(self),
            !old(self).addresses_agree(symbol@) ==> r == Err::<(), MyErrorCode>(
                MyErrorCode::Unauthorized,
            ),
            old(self).addresses_agree(symbol@) ==> r == old(self).outcome(),
            r is Ok ==> final(self).is_created_from(
                *old(self),
                old(self).authority_bump(),
                decimals,
                is_close,
                Self::fee_of(has_fee, transfer_fee_basis_points, maximum_fee),
                name@,
                symbol@,
                uri@,
            ),
    {
        let seeds = byte_seeds(CARBON_CREDIT_TOKEN_SEED.as_slice(), symbol.as_str().as_bytes());
        if check_derived_seeds(&seeds, &self.program_id, &self.mint_address).is_none() {
            return Err(MyErrorCode::Unauthorized);
        }
        let bump = match check_derived(
            MINT_AUTHORITY_SEED.as_slice(),
            Some(&self.mint_address),
            None,
            &self.program_id,
            &self.mint_authority_address,
        ) {
            None => {
                return Err(MyErrorCode::Unauthorized);
            },
            Some(bump) => bump,
        };
        let fee = if has_fee {
            match (transfer_fee_basis_points, maximum_fee) {
                (Some(basis_points), Some(maximum)) => Some((basis_points, maximum)),
                _ => None,
            }
        } else {
            None
        };
        self.create(name, symbol, decimals, uri, is_close, fee, bump)
    }

    /// Creates a credit token for governance, with `bump` as the bump of the
    /// authority record's address. Either every step takes effect or none.
    pub fn create(
        &mut self,
        name: String,
        symbol: String,
        decimals: u8,
        uri: String,
        is_close: bool,
        fee: Option<(u16, u64)>,
        bump: u8,
    ) -> (r: Result<(), MyErrorCode>)
        ensures
            r == old(self).outcome(),
            r is Err ==> *final(self) == *old(self),
            r is Ok ==> final(self).is_created_from(
                *old(self),
                bump,
                decimals,
                is_close,
                fee,
                name@,
                symbol@,
                uri@,
            ),
    {
        if !self.config_account.is_initialized || !self.config_account.authority.same(
            &self.authority,
        ) {
            return Err(MyErrorCode::Unauthorized);
        }
        if self.mint_authority.is_some() || self.mint.is_some() {
            return Err(MyErrorCode::AlreadyExists);
        }
        let hook = if is_close {
            Some(self.transfer_hook_program)
        } else {
            None
        };
        match create_credit_mint(
            self.mint_address,
            self.mint_authority_address,
            decimals,
            hook,
            fee,
            name,
            symbol,
            uri,
        ) {
            Ok(mint) => {
                self.mint_authority = Some(
                    MintAuthority {
                        authority: self.authority,
                        mint: self.mint_address,
                        transfer_hook: hook,
                        bump,
                    },
                );
                self.mint = Some(mint);
                Ok(())
            },
            Err(e) => Err(e),
        }
    }
}

} // verus!
