use crate::address::Address;
use crate::authority::{check_derived, derives_to, seeds2};
use crate::constants::CONSUMER_NFT_SEED;
use crate::error::TokenTransferHookError;
use crate::token::{Mint, TokenAccount};
use anchor_lang::prelude::{ProgramError, Pubkey};
use anchor_spl::token_2022::spl_token_2022::extension::transfer_hook::TransferHookAccount;
use anchor_spl::token_2022::spl_token_2022::extension::{BaseStateWithExtensions, StateWithExtensions};
use anchor_spl::token_2022::spl_token_2022::state::Account;
use spl_tlv_account_resolution::account::ExtraAccountMeta as OutsideMeta;
use spl_tlv_account_resolution::seeds::Seed;
use vstd::prelude::*;

verus! {

/// Whether the data of a token account says that the account is in a
/// transfer, or `None` where the data is no token account with that flag.
pub uninterp spec fn transferring_flag(account_data: Seq<u8>) -> Option<bool>;

/// The flag, whatever the error.
pub open spec fn flag_of(r: Result<bool, ProgramError>) -> Option<bool> {
    match r {
        Ok(flag) => Some(flag),
        Err(_) => None,
    }
}

/// Reads the transfer flag out of the data of a token account:
/// `StateWithExtensions::unpack` for an account, then `get_extension` for
/// the transfer hook extension of accounts. What is read is a function of
/// the data alone.
#[verifier::external_body]
pub(crate) fn unpack_transferring(account_data: &[u8]) -> (r: Result<bool, ProgramError>)
    ensures
        flag_of(r) == transferring_flag(account_data@),
{
    let account = StateWithExtensions::<Account>::unpack(account_data)?;
    Ok(bool::from(account.get_extension::<TransferHookAccount>()?.transferring))
}

/// What the hook makes of the flag of one endpoint.
pub open spec fn transfer_check(flag: Option<bool>) -> Result<(), TokenTransferHookError> {
    match flag {
        Some(true) => Ok(()),
        Some(false) => Err(TokenTransferHookError::ProgramCalledOutsideOfTransfer),
        None => Err(TokenTransferHookError::InvalidAccountData),
    }
}

/// Accepts a token account only while the token service is moving tokens
/// through it.
pub fn check_token_account_is_transferring(account_data: &[u8]) -> (r: Result<
    (),
    TokenTransferHookError,
>)
    ensures
        r == transfer_check(transferring_flag(account_data@)),
{
    match unpack_transferring(account_data) {
        Ok(true) => Ok(()),
        Ok(false) => Err(TokenTransferHookError::ProgramCalledOutsideOfTransfer),
        Err(_) => Err(TokenTransferHookError::InvalidAccountData),
    }
}

/// One extra account that the token service adds to every transfer, in the
/// packed form that the account list keeps.
#[derive(Clone, Copy, Debug, PartialEq, Eq)]
pub struct ExtraAccountMeta {
    /// 0 for a plain key; 128 plus the index of the owning program for an
    /// address derived under another program of the transfer.
    pub discriminator: u8,
    /// The key, or the packed seeds, filled up with zeros.
    pub address_config: [u8; 32],
    pub is_signer: bool,
    pub is_writable: bool,
}

/// Position of the source account among the accounts of a transfer.
pub const SOURCE_ACCOUNT_INDEX: u8 = 0;

/// Position of the mint among the accounts of a transfer.
pub const MINT_ACCOUNT_INDEX: u8 = 1;

/// Position of the destination account among the accounts of a transfer.
pub const DESTINATION_ACCOUNT_INDEX: u8 = 2;

/// Position of the issuing program among the accounts of a transfer.
pub const ISSUER_PROGRAM_INDEX: u8 = 5;

/// Where the owner's key starts in the data of a token account.
pub const OWNER_DATA_INDEX: u8 = 32;

/// The length of a key.
pub const KEY_LENGTH: u8 = 32;

/// The packed seeds of an address derived from a literal tag, the key of
/// the account at `key_index`, and `length` bytes at `data_index` of the
/// data of the account at `account_index`; filled up with zeros to 32
/// bytes. A literal is packed as 1, its length and its bytes; an account
/// key as 3 and the index; account data as 4 and the three numbers.
pub open spec fn pda_config(
    tag: Seq<u8>,
    key_index: u8,
    account_index: u8,
    data_index: u8,
    length: u8,
) -> Seq<u8> {
    let packed = seq![1u8, tag.len() as u8] + tag + seq![3u8, key_index] + seq![
        4u8,
        account_index,
        data_index,
        length,
    ];
    packed + Seq::new((32 - packed.len()) as nat, |i: int| 0u8)
}

/// `r` is the entry for the plain key `key` with the two flags.
pub open spec fn is_key_entry(
    r: Result<ExtraAccountMeta, ProgramError>,
    key: Seq<u8>,
    is_signer: bool,
    is_writable: bool,
) -> bool {
    r matches Ok(meta) && meta.discriminator == 0 && meta.address_config@ == key && meta.is_signer
        == is_signer && meta.is_writable == is_writable
}

/// `r` is the entry for the address derived under the program at
/// `program_index` from the three seeds, or an error where the program
/// index is 128 or more or the tag is longer than 24 bytes.
pub open spec fn is_pda_entry(
    r: Result<ExtraAccountMeta, ProgramError>,
    program_index: u8,
    tag: Seq<u8>,
    key_index: u8,
    account_index: u8,
    data_index: u8,
    length: u8,
    is_signer: bool,
    is_writable: bool,
) -> bool {
    if program_index < 128 && tag.len() <= 24 {
        r matches Ok(meta) && meta.discriminator == program_index + 128 && meta.address_config@
            == pda_config(tag, key_index, account_index, data_index, length) && meta.is_signer
            == is_signer && meta.is_writable == is_writable
    } else {
        r is Err
    }
}

/// `ExtraAccountMeta::new_with_pubkey`: the entry for a plain key. It has
/// the discriminator 0 and the key as its configuration, and never fails.
#[verifier::external_body]
pub(crate) fn new_with_pubkey(key: &Address, is_signer: bool, is_writable: bool) -> (r: Result<
    ExtraAccountMeta,
    ProgramError,
>)
    ensures
        is_key_entry(r, key@, is_signer, is_writable),
{
    let key = Pubkey::new_from_array(key.bytes);
    let meta = OutsideMeta::new_with_pubkey(&key, is_signer, is_writable)?;
    Ok(ExtraAccountMeta {
        discriminator: meta.discriminator,
        address_config: meta.address_config,
        is_signer: meta.is_signer.into(),
        is_writable: meta.is_writable.into(),
    })
}

/// `ExtraAccountMeta::new_external_pda_with_seeds` on three seeds: the
/// literal `tag`, the key of the account at `key_index`, and `length` bytes
/// at `data_index` of the data of the account at `account_index`. The entry
/// has 128 plus the program index as discriminator and the packed seeds as
/// configuration. It fails where the program index is 128 or more, or where
/// the packed seeds, 8 bytes and the tag, take more than 32 bytes.
#[verifier::external_body]
pub(crate) fn new_external_pda_with_seeds(
    program_index: u8,
    tag: &[u8],
    key_index: u8,
    account_index: u8,
    data_index: u8,
    length: u8,
    is_signer: bool,
    is_writable: bool,
) -> (r: Result<ExtraAccountMeta, ProgramError>)
    requires
        tag@.len() <= 32,
    ensures
        is_pda_entry(
            r,
            program_index,
            tag@,
            key_index,
            account_index,
            data_index,
            length,
            is_signer,
            is_writable,
        ),
{
    let seeds = [
        Seed::Literal { bytes: tag.to_vec() },
        Seed::AccountKey { index: key_index },
        Seed::AccountData { account_index, data_index, length },
    ];
    let meta = OutsideMeta::new_external_pda_with_seeds(program_index, &seeds, is_signer, is_writable)?;
    Ok(ExtraAccountMeta {
        discriminator: meta.discriminator,
        address_config: meta.address_config,
        is_signer: meta.is_signer.into(),
        is_writable: meta.is_writable.into(),
    })
}

/// The entry for the consumer certificate of the owner of the token account
/// at `account_index`: an address derived under the issuing program from
/// the consumer tag, the mint's key and the owner's key.
pub open spec fn is_certificate_entry(meta: ExtraAccountMeta, account_index: u8) -> bool {
    &&& meta.discriminator == 133
    &&& meta.address_config@ == pda_config(
        CONSUMER_NFT_SEED@,
        MINT_ACCOUNT_INDEX,
        account_index,
        OWNER_DATA_INDEX,
        KEY_LENGTH,
    )
    &&& !meta.is_signer
    &&& !meta.is_writable
}

/// The extra accounts of a transfer: the issuing program, then the
/// consumer certificates of the owners of the source and of the
/// destination. None of them signs or is written.
pub fn extra_account_metas(rwa_program: &Address) -> (r: Result<
    Vec<ExtraAccountMeta>,
    TokenTransferHookError,
>)
    ensures
        r is Ok,
        r->Ok_0@.len() == 3,
        r->Ok_0@[0].discriminator == 0,
        r->Ok_0@[0].address_config@ == rwa_program@,
        !r->Ok_0@[0].is_signer && !r->Ok_0@[0].is_writable,
        is_certificate_entry(r->Ok_0@[1], SOURCE_ACCOUNT_INDEX),
        is_certificate_entry(r->Ok_0@[2], DESTINATION_ACCOUNT_INDEX),
{
    let program = match new_with_pubkey(rwa_program, false, false) {
        Ok(meta) => meta,
        Err(_) => {
            return Err(TokenTransferHookError::InvalidAccountData);
        },
    };
    let source = match new_external_pda_with_seeds(
        ISSUER_PROGRAM_INDEX,
        CONSUMER_NFT_SEED.as_slice(),
        MINT_ACCOUNT_INDEX,
        SOURCE_ACCOUNT_INDEX,
        OWNER_DATA_INDEX,
        KEY_LENGTH,
        false,
        false,
    ) {
        Ok(meta) => meta,
        Err(_) => {
            return Err(TokenTransferHookError::InvalidAccountData);
        },
    };
    let destination = match new_external_pda_with_seeds(
        ISSUER_PROGRAM_INDEX,
        CONSUMER_NFT_SEED.as_slice(),
        MINT_ACCOUNT_INDEX,
        DESTINATION_ACCOUNT_INDEX,
        OWNER_DATA_INDEX,
        KEY_LENGTH,
        false,
        false,
    ) {
        Ok(meta) => meta,
        Err(_) => {
            return Err(TokenTransferHookError::InvalidAccountData);
        },
    };
    let mut metas: Vec<ExtraAccountMeta> = Vec::new();
    metas.push(program);
    metas.push(source);
    metas.push(destination);
    Ok(metas)
}

/// What the hook is shown on a transfer: both endpoints, the mint, and the
/// consumer certificates of the two owners.
#[derive(Clone, Debug, PartialEq, Eq)]
pub struct TransferHook {
    pub source_token: TokenAccount,
    /// The mint whose tokens move.
    pub mint: Address,
    pub destination_token: TokenAccount,
    /// The owner of the source account.
    pub owner: Address,
    /// The program that issues the certificates.
    pub rwa_program: Address,
    pub source_mint_nft: Mint,
    pub destination_mint_nft: Mint,
}

impl TransferHook {
    /// Both endpoints hold the mint, and the source belongs to the owner.
    pub open spec fn accounts_agree(&self) -> bool {
        &&& self.source_token.mint@ == self.mint@
        &&& self.source_token.owner@ == self.owner@
        &&& self.destination_token.mint@ == self.mint@
    }

    /// Each certificate stands at the address derived for the mint and the
    /// owner of its endpoint, under the issuing program.
    pub open spec fn addresses_agree(&self) -> bool {
        &&& derives_to(
            seeds2(CONSUMER_NFT_SEED@, self.mint@, self.source_token.owner@),
            self.rwa_program@,
            self.source_mint_nft.address@,
        )
        &&& derives_to(
            seeds2(CONSUMER_NFT_SEED@, self.mint@, self.destination_token.owner@),
            self.rwa_program@,
            self.destination_mint_nft.address@,
        )
    }

    /// Both certificates are single indivisible units.
    pub open spec fn certificates_valid(&self) -> bool {
        &&& self.source_mint_nft.decimals == 0
        &&& self.source_mint_nft.supply == 1
        &&& self.destination_mint_nft.decimals == 0
        &&& self.destination_mint_nft.supply == 1
    }

    /// Whether both endpoints present a valid consumer certificate bound to
    /// the mint.
    pub fn check_certificates(&self) -> (r: Result<(), TokenTransferHookError>)
        ensures
            r is Ok <==> self.accounts_agree() && self.addresses_agree()
                && self.certificates_valid(),
            r is Err ==> r == Err::<(), TokenTransferHookError>(
                TokenTransferHookError::UnAuthorized,
            ),
    {
        if !self.source_token.mint.same(&self.mint) || !self.source_token.owner.same(&self.owner)
            || !self.destination_token.mint.same(&self.mint) {
            return Err(TokenTransferHookError::UnAuthorized);
        }
        if check_derived(
            CONSUMER_NFT_SEED.as_slice(),
            Some(&self.mint),
            Some(&self.source_token.owner),
            &self.rwa_program,
            &self.source_mint_nft.address,
        ).is_none() {
            return Err(TokenTransferHookError::UnAuthorized);
        }
        if check_derived(
            CONSUMER_NFT_SEED.as_slice(),
            Some(&self.mint),
            Some(&self.destination_token.owner),
            &self.rwa_program,
            &self.destination_mint_nft.address,
        ).is_none() {
            return Err(TokenTransferHookError::UnAuthorized);
        }
        if self.source_mint_nft.decimals != 0 || self.source_mint_nft.supply != 1
            || self.destination_mint_nft.decimals != 0 || self.destination_mint_nft.supply != 1 {
            return Err(TokenTransferHookError::UnAuthorized);
        }
        Ok(())
    }

    /// What the hook answers to a transfer: the certificates are tested
    /// first, then the source, then the destination.
    pub open spec fn outcome(&self, source: Option<bool>, destination: Option<bool>) -> Result<
        (),
        TokenTransferHookError,
    > {
        if !(self.accounts_agree() && self.addresses_agree() && self.certificates_valid()) {
            Err(TokenTransferHookError::UnAuthorized)
        } else if transfer_check(source) is Err {
            transfer_check(source)
        } else {
            transfer_check(destination)
        }
    }
}

/// Answers the token service on a transfer between the two endpoints whose
/// account data is given: both owners must hold a valid consumer
/// certificate, and both accounts must be in a transfer.
pub fn execute(ctx: &TransferHook, source_data: &[u8], destination_data: &[u8]) -> (r: Result<
    (),
    TokenTransferHookError,
>)
    ensures
        r == ctx.outcome(transferring_flag(source_data@), transferring_flag(destination_data@)),
{
    match ctx.check_certificates() {
        Ok(()) => {},
        Err(e) => {
            return Err(e);
        },
    }
    match check_token_account_is_transferring(source_data) {
        Ok(()) => {},
        Err(e) => {
            return Err(e);
        },
    }
    check_token_account_is_transferring(destination_data)
}

} // verus!
