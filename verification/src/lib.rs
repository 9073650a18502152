//! Credit issuance and capability certification: who may sign for what,
//! and how the credit counters of a certificate move.
//!
//! Governance issues minter certificates with a quota; a minter turns quota
//! into credit tokens; consumers hold credit tokens under a consumer
//! certificate and retire them for a retirement certificate. Every workflow
//! works on plain values that mirror the accounts it touches, and either
//! takes effect as a whole or leaves them as they were.

pub mod address;
pub mod authority;
pub mod certificate;
pub mod constants;
pub mod decimal;
pub mod error;
pub mod instructions;
pub mod ledger;
pub mod metadata;
pub mod space;
pub mod state;
pub mod token;
pub mod transfer_hook;

use crate::error::MyErrorCode;
use crate::instructions::init_carbon_token::InitCarbonToken;
use crate::instructions::init_rwa_token::InitRwaToken;
use crate::instructions::initialize::InitializeConfig;
use crate::instructions::issue_consumer_cert::IssueConsumerCert;
use crate::instructions::issue_minter_cert::IssueMinterCert;
use crate::instructions::mint_rwa_token::MintRwaToken;
use crate::instructions::retire_token::RetireToken;
use crate::instructions::update_quota_credit::UpdateQuotaCredit;
use vstd::prelude::*;

verus! {

/// Creates the governance configuration with the signer as authority.
pub fn initialize(ctx: &mut InitializeConfig) -> (r: Result<(), MyErrorCode>)
    ensures
        r is Err ==> *final(ctx) == *old(ctx),
        !old(ctx).addresses_agree() ==> r == Err::<(), MyErrorCode>(MyErrorCode::Unauthorized),
        old(ctx).addresses_agree() ==> r == old(ctx).outcome(),
        r is Ok ==> final(ctx).is_created_from(*old(ctx), old(ctx).config_bump()),
{
    ctx.handler()
}

/// Issues a minter certificate to the receiver of the context.
pub fn issue_minter_cert(ctx: &mut IssueMinterCert, name: String, symbol: String, uri: String) -> (r:
    Result<(), MyErrorCode>)
    ensures
        r is Err ==> *final(ctx) == *old(ctx),
        !old(ctx).addresses_agree() ==> r == Err::<(), MyErrorCode>(MyErrorCode::Unauthorized),
        old(ctx).addresses_agree() ==> r == old(ctx).outcome(),
        r is Ok ==> final(ctx).is_issued_from(
            *old(ctx),
            old(ctx).controller_bump(),
            name@,
            symbol@,
            uri@,
        ),
{
    ctx.handler(name, symbol, uri)
}

/// Overwrites the quota of the certificate of the context.
pub fn update_quota_credit(ctx: &mut UpdateQuotaCredit, new_credit: u64) -> (r: Result<
    (),
    MyErrorCode,
>)
    ensures
        r is Err ==> *final(ctx) == *old(ctx),
        !old(ctx).addresses_agree() ==> r == Err::<(), MyErrorCode>(MyErrorCode::Unauthorized),
        old(ctx).addresses_agree() ==> r == old(ctx).outcome(old(ctx).controller_signer()),
        r is Ok ==> final(ctx).is_updated_from(*old(ctx), new_credit),
{
    ctx.handler(new_credit)
}

/// Issues a consumer certificate to the receiver of the context.
pub fn issue_consumer_cert(
    ctx: &mut IssueConsumerCert,
    name: String,
    symbol: String,
    uri: String,
) -> (r: Result<(), MyErrorCode>)
    ensures
        r is Err ==> *final(ctx) == *old(ctx),
        !old(ctx).addresses_agree() ==> r == Err::<(), MyErrorCode>(MyErrorCode::Unauthorized),
        old(ctx).addresses_agree() ==> r == old(ctx).outcome(),
        r is Ok ==> final(ctx).is_issued_from(
            *old(ctx),
            old(ctx).controller_bump(),
            name@,
            symbol@,
            uri@,
        ),
{
    ctx.handler(name, symbol, uri)
}

/// Creates a credit token for governance. A token with fees needs both fee
/// settings.
pub fn init_rwa_token(
    ctx: &mut InitRwaToken,
    name: String,
    symbol: String,
    decimals: u8,
    uri: String,
    is_close: bool,
    has_fee: bool,
    transfer_fee_basis_points: Option<u16>,
    maximum_fee: Option<u64>,
) -> (r: Result<(), MyErrorCode>)
    requires
        has_fee ==> transfer_fee_basis_points is Some && maximum_fee is Some,
    ensures
        r is Err ==> *final(ctx) == *old(ctx),
        !old(ctx).addresses_agree(symbol@) ==> r == Err::<(), MyErrorCode>(
            MyErrorCode::Unauthorized,
        ),
        old(ctx).addresses_agree(symbol@) ==> r == old(ctx).outcome(),
        r is Ok ==> final(ctx).is_created_from(
            *old(ctx),
            old(ctx).authority_bump(),
            decimals,
            is_close,
            InitRwaToken::fee_of(has_fee, transfer_fee_basis_points, maximum_fee),
            name@,
            symbol@,
            uri@,
        ),
{
    ctx.handler(
        name,
        symbol,
        decimals,
        uri,
        is_close,
        has_fee,
        transfer_fee_basis_points,
        maximum_fee,
    )
}

/// Creates the credit token of the minter of the context.
pub fn init_carbon_token(
    ctx: &mut InitCarbonToken,
    name: String,
    symbol: String,
    uri: String,
    transfer_fee_basis_points: u16,
    maximum_fee: u64,
) -> (r: Result<(), MyErrorCode>)
    ensures
        r is Err ==> *final(ctx) == *old(ctx),
        !old(ctx).addresses_agree() ==> r == Err::<(), MyErrorCode>(MyErrorCode::Unauthorized),
        old(ctx).addresses_agree() ==> r == old(ctx).outcome(),
        r is Ok ==> final(ctx).is_created_from(
            *old(ctx),
            old(ctx).authority_bump(),
            transfer_fee_basis_points,
            maximum_fee,
            name@,
            symbol@,
            uri@,
        ),
{
    ctx.handler(name, symbol, uri, transfer_fee_basis_points, maximum_fee)
}

/// Mints `amount` credit tokens against the quota of the minter of the
/// context.
pub fn mint_rwa_token(ctx: &mut MintRwaToken, amount: u64) -> (r: Result<(), MyErrorCode>)
    ensures
        amount == 0 ==> r == Err::<(), MyErrorCode>(MyErrorCode::InvalidAmount),
        r is Err ==> *final(ctx) == *old(ctx),
        match old(ctx).outcome(amount, old(ctx).mint_signer(), old(ctx).controller_signer()) {
            Ok(ledger) => r is Ok && final(ctx).is_minted_from(*old(ctx), amount, ledger),
            Err(e) => r == Err::<(), MyErrorCode>(e),
        },
{
    ctx.handler(amount)
}

/// Mints `amount` credit tokens against the quota of the minter of the
/// context. The same workflow under the name it has for carbon credits.
pub fn mint_carbon_token(ctx: &mut MintRwaToken, amount: u64) -> (r: Result<(), MyErrorCode>)
    ensures
        amount == 0 ==> r == Err::<(), MyErrorCode>(MyErrorCode::InvalidAmount),
        r is Err ==> *final(ctx) == *old(ctx),
        match old(ctx).outcome(amount, old(ctx).mint_signer(), old(ctx).controller_signer()) {
            Ok(ledger) => r is Ok && final(ctx).is_minted_from(*old(ctx), amount, ledger),
            Err(e) => r == Err::<(), MyErrorCode>(e),
        },
{
    ctx.handler(amount)
}

/// Retires `amount` credit tokens of the consumer of the context.
pub fn retire_token(ctx: &mut RetireToken, amount: u64) -> (r: Result<(), MyErrorCode>)
    ensures
        r == old(ctx).outcome(amount, old(ctx).authority_signer()),
        r is Err ==> *final(ctx) == *old(ctx),
        r is Ok ==> final(ctx).is_retired_from(
            *old(ctx),
            amount,
            old(ctx).authority_signer()->Some_0,
        ),
{
    ctx.handler(amount)
}

} // verus!
