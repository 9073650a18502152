use rwa_tokenization::address::Address;
use rwa_tokenization::authority::derive_address;
use rwa_tokenization::constants::{
    CARBON_CREDIT_TOKEN_SEED, CONSUMER_NFT_SEED, GOVERNANCE_CONFIG_SEED, MINTER_NFT_SEED,
    MINT_AUTHORITY_SEED,
};
use rwa_tokenization::error::MyErrorCode;
use rwa_tokenization::instructions::init_carbon_token::InitCarbonToken;
use rwa_tokenization::instructions::init_rwa_token::InitRwaToken;
use rwa_tokenization::instructions::initialize::InitializeConfig;
use rwa_tokenization::instructions::issue_consumer_cert::IssueConsumerCert;
use rwa_tokenization::instructions::issue_minter_cert::IssueMinterCert;
use rwa_tokenization::instructions::mint_rwa_token::MintRwaToken;
use rwa_tokenization::instructions::retire_token::RetireToken;
use rwa_tokenization::instructions::update_quota_credit::UpdateQuotaCredit;
use rwa_tokenization::ledger::{read_ledger, CreditLedger};
use rwa_tokenization::state::{GovernanceConfig, MintAuthority, MinterController};
use rwa_tokenization::token::{Mint, TokenAccount, TransferFee};
use rwa_tokenization::{
    init_carbon_token, init_rwa_token, initialize, issue_consumer_cert, issue_minter_cert,
    mint_carbon_token, mint_rwa_token, retire_token, update_quota_credit,
};

fn program() -> Address {
    Address::new([
        0x12, 0x0c, 0x51, 0x9a, 0x33, 0x07, 0xe1, 0x5d, 0x44, 0x90, 0x2b, 0x6f, 0x01, 0xaa, 0x3c,
        0x77, 0x5e, 0x21, 0x08, 0xd4, 0x69, 0xb0, 0x0f, 0x13, 0xc8, 0x2d, 0x96, 0x4a, 0x7b, 0xe5,
        0x30, 0x02,
    ])
}

fn addr(n: u8) -> Address {
    Address::new([n; 32])
}

fn derive1(tag: &[u8], a: &Address) -> (Address, u8) {
    derive_address(tag, Some(a), None, &program()).unwrap()
}

fn derive2(tag: &[u8], a: &Address, b: &Address) -> (Address, u8) {
    derive_address(tag, Some(a), Some(b), &program()).unwrap()
}

fn fields(pairs: &[(&str, &str)]) -> Vec<(String, String)> {
    pairs.iter().map(|(k, v)| (k.to_string(), v.to_string())).collect()
}

const GOV: u8 = 1;
const MINTER: u8 = 2;
const CONSUMER: u8 = 3;
const HOOK: u8 = 9;

fn fresh_config() -> InitializeConfig {
    let (config_address, _) =
        derive_address(&GOVERNANCE_CONFIG_SEED, None, None, &program()).unwrap();
    InitializeConfig {
        program_id: program(),
        singer: addr(GOV),
        config_address,
        config_account: None,
    }
}

fn config() -> GovernanceConfig {
    let mut ctx = fresh_config();
    assert_eq!(initialize(&mut ctx), Ok(()));
    ctx.config_account.unwrap()
}

fn minter_issuance() -> IssueMinterCert {
    let (cert_mint, _) = derive1(&MINTER_NFT_SEED, &addr(MINTER));
    let (controller, _) = derive1(&MINTER_NFT_SEED, &cert_mint);
    let (credit_mint, _) = derive1(&CARBON_CREDIT_TOKEN_SEED, &cert_mint);
    IssueMinterCert {
        program_id: program(),
        authority: addr(GOV),
        config_account: config(),
        receiver: addr(MINTER),
        rwa_mint: credit_mint,
        controller_address: controller,
        mint_address: cert_mint,
        minter_controller: None,
        mint: None,
        receiver_token_account: None,
    }
}

fn issued_minter() -> IssueMinterCert {
    let mut ctx = minter_issuance();
    assert_eq!(
        issue_minter_cert(&mut ctx, "Minter".to_string(), "MNT".to_string(), "uri".to_string()),
        Ok(())
    );
    ctx
}

fn with_quota(issued: &IssueMinterCert, quota: u64) -> UpdateQuotaCredit {
    let mut ctx = UpdateQuotaCredit {
        program_id: program(),
        authority: addr(GOV),
        config_account: issued.config_account,
        minter_controller: issued.minter_controller.unwrap(),
        receiver: addr(MINTER),
        mint: issued.mint.clone().unwrap(),
    };
    assert_eq!(update_quota_credit(&mut ctx, quota), Ok(()));
    ctx
}

fn credit_token(issued: &IssueMinterCert, cert: &Mint) -> InitCarbonToken {
    let (ma, _) = derive1(&MINT_AUTHORITY_SEED, &issued.rwa_mint);
    let mut ctx = InitCarbonToken {
        program_id: program(),
        creator: addr(MINTER),
        mint_authority_address: ma,
        mint_address: issued.rwa_mint,
        mint_authority: None,
        mint: None,
        minter_nft_mint: cert.clone(),
        minter_nft_token_account: issued.receiver_token_account.unwrap(),
        transfer_hook_program: addr(HOOK),
    };
    assert_eq!(
        init_carbon_token(
            &mut ctx,
            "Carbon".to_string(),
            "CC".to_string(),
            "".to_string(),
            50,
            1000
        ),
        Ok(())
    );
    ctx
}

fn mint_context(quota: u64) -> MintRwaToken {
    let issued = issued_minter();
    let cert = with_quota(&issued, quota).mint;
    let token = credit_token(&issued, &cert);
    MintRwaToken {
        program_id: program(),
        minter: addr(MINTER),
        receiver: addr(CONSUMER),
        minter_controller: issued.minter_controller.unwrap(),
        mint_authority: token.mint_authority.unwrap(),
        rwa_mint: token.mint.clone().unwrap(),
        receiver_token_account: TokenAccount::open(issued.rwa_mint, addr(CONSUMER)),
        minter_nft_mint: cert,
        minter_nft_token_account: issued.receiver_token_account.unwrap(),
    }
}

fn retire_context(minted: &MintRwaToken) -> RetireToken {
    RetireToken {
        program_id: program(),
        consumer: addr(CONSUMER),
        mint_authority: minted.mint_authority,
        mint: minted.rwa_mint.clone(),
        consumer_token_account: minted.receiver_token_account,
        nft_mint_address: addr(77),
        nft_mint: None,
        consumer_nft_token_account: None,
        transfer_hook_program: addr(HOOK),
    }
}

#[test]
fn initialize_sets_signer_as_authority_once() {
    let mut ctx = fresh_config();
    let (_, bump) = derive_address(&GOVERNANCE_CONFIG_SEED, None, None, &program()).unwrap();
    assert_eq!(initialize(&mut ctx), Ok(()));
    assert_eq!(
        ctx.config_account,
        Some(GovernanceConfig { authority: addr(GOV), bump, is_initialized: true })
    );
    let before = ctx;
    ctx.singer = addr(8);
    let snapshot = ctx;
    assert_eq!(initialize(&mut ctx), Err(MyErrorCode::AlreadyExists));
    assert_eq!(ctx, snapshot);
    assert_eq!(ctx.config_account, before.config_account);
    assert_eq!(ctx.create(7), Err(MyErrorCode::AlreadyExists));
    // a record at another address is not the configuration
    let mut elsewhere = fresh_config();
    elsewhere.config_address = addr(60);
    let snapshot = elsewhere;
    assert_eq!(initialize(&mut elsewhere), Err(MyErrorCode::Unauthorized));
    assert_eq!(elsewhere, snapshot);
}

#[test]
fn certificate_bound_to_the_configuration_record() {
    // the configuration record itself can be the authority of a certificate
    let (config_address, bump) =
        derive_address(&GOVERNANCE_CONFIG_SEED, None, None, &program()).unwrap();
    let seeds = rwa_tokenization::authority::record_seeds(&GOVERNANCE_CONFIG_SEED, None, None);
    assert_eq!(
        rwa_tokenization::authority::check_address(&seeds, bump, &program(), &config_address),
        Ok(())
    );
    let (mint, account) = rwa_tokenization::certificate::issue_certificate(
        addr(70),
        config_address,
        addr(MINTER),
        "Minter".to_string(),
        "MNT".to_string(),
        "".to_string(),
        rwa_tokenization::certificate::CertificateKind::Minter,
    )
    .unwrap();
    assert_eq!(mint.update_authority, Some(config_address));
    assert_eq!(mint.mint_authority, None);
    assert_eq!(
        mint.additional_metadata,
        fields(&[("available_credits", "0"), ("minted_credits", "0")])
    );
    assert_eq!(account.amount, 1);
    let space = rwa_tokenization::space::certificate_account_space(
        &config_address,
        &addr(70),
        "Minter",
        "MNT",
        "",
        &mint.additional_metadata,
    );
    // 234 for the mint with its metadata pointer, and
    // 12 + 64 + (4 + 6) + (4 + 3) + (4 + 0) + 4 + (8 + 17 + 1) + (8 + 14 + 1)
    assert_eq!(space, Ok(234 + 150));
}

#[test]
fn issued_minter_certificate_is_fresh_and_frozen() {
    let ctx = issued_minter();
    let mint = ctx.mint.clone().unwrap();
    assert_eq!(
        mint.additional_metadata,
        fields(&[("available_credits", "0"), ("minted_credits", "0")])
    );
    assert_eq!(read_ledger(&mint.additional_metadata), Some(CreditLedger { available: 0, minted: 0 }));
    assert_eq!(mint.supply, 1);
    assert_eq!(mint.decimals, 0);
    assert_eq!(mint.mint_authority, None);
    assert_eq!(mint.update_authority, Some(ctx.controller_address));
    assert_eq!(mint.close_authority, Some(ctx.controller_address));
    assert_eq!(mint.permanent_delegate, Some(ctx.controller_address));
    assert_eq!(mint.address, ctx.mint_address);
    assert!(mint.has_metadata);
    assert_eq!((mint.name.as_str(), mint.symbol.as_str(), mint.uri.as_str()), ("Minter", "MNT", "uri"));
    assert_eq!(
        ctx.receiver_token_account,
        Some(TokenAccount { mint: ctx.mint_address, owner: addr(MINTER), amount: 1 })
    );
    let (_, bump) = derive1(&MINTER_NFT_SEED, &ctx.mint_address);
    assert_eq!(
        ctx.minter_controller,
        Some(MinterController {
            rwa_mint: ctx.rwa_mint,
            mint: ctx.mint_address,
            user: addr(MINTER),
            bump
        })
    );
    // nobody can mint a frozen certificate again
    let mut mint = mint;
    let mut account = ctx.receiver_token_account.unwrap();
    for signer in [ctx.controller_address, addr(GOV), addr(MINTER)] {
        let snapshot = (mint.clone(), account);
        assert_eq!(mint.mint_to(&signer, &mut account, 1), Err(MyErrorCode::Unauthorized));
        assert_eq!((mint.clone(), account), snapshot);
    }
}

#[test]
fn second_issuance_fails_already_exists_and_changes_nothing() {
    let mut ctx = issued_minter();
    let snapshot = ctx.clone();
    assert_eq!(
        issue_minter_cert(&mut ctx, "Other".to_string(), "O".to_string(), "".to_string()),
        Err(MyErrorCode::AlreadyExists)
    );
    assert_eq!(ctx, snapshot);
    // each taken slot alone refuses
    let mut only_account = minter_issuance();
    only_account.receiver_token_account = snapshot.receiver_token_account;
    let before = only_account.clone();
    assert_eq!(
        issue_minter_cert(&mut only_account, "N".to_string(), "S".to_string(), "".to_string()),
        Err(MyErrorCode::AlreadyExists)
    );
    assert_eq!(only_account, before);
}

#[test]
fn issuance_needs_the_governance_authority() {
    let mut ctx = minter_issuance();
    ctx.authority = addr(MINTER);
    let snapshot = ctx.clone();
    assert_eq!(
        issue_minter_cert(&mut ctx, "N".to_string(), "S".to_string(), "".to_string()),
        Err(MyErrorCode::Unauthorized)
    );
    assert_eq!(ctx, snapshot);
}

#[test]
fn issuance_needs_the_derived_addresses() {
    let mut ctx = minter_issuance();
    ctx.controller_address = addr(50);
    let snapshot = ctx.clone();
    assert_eq!(
        issue_minter_cert(&mut ctx, "N".to_string(), "S".to_string(), "".to_string()),
        Err(MyErrorCode::Unauthorized)
    );
    assert_eq!(ctx, snapshot);
    let mut ctx = minter_issuance();
    ctx.mint_address = addr(51);
    assert_eq!(
        issue_minter_cert(&mut ctx, "N".to_string(), "S".to_string(), "".to_string()),
        Err(MyErrorCode::Unauthorized)
    );
}

#[test]
fn quota_overwrite_is_a_plain_set() {
    let issued = issued_minter();
    let ctx = with_quota(&issued, 100);
    assert_eq!(
        ctx.mint.additional_metadata,
        fields(&[("available_credits", "100"), ("minted_credits", "0")])
    );
    let mut again = ctx;
    assert_eq!(update_quota_credit(&mut again, 5), Ok(()));
    assert_eq!(
        again.mint.additional_metadata,
        fields(&[("available_credits", "5"), ("minted_credits", "0")])
    );
    assert_eq!(update_quota_credit(&mut again, u64::MAX), Ok(()));
    assert_eq!(
        read_ledger(&again.mint.additional_metadata),
        Some(CreditLedger { available: u64::MAX, minted: 0 })
    );
}

#[test]
fn quota_overwrite_by_holder_or_governance_only() {
    let issued = issued_minter();
    let mut ctx = with_quota(&issued, 1);
    ctx.authority = addr(MINTER);
    assert_eq!(update_quota_credit(&mut ctx, 2), Ok(()));
    ctx.authority = addr(CONSUMER);
    let snapshot = ctx.clone();
    assert_eq!(update_quota_credit(&mut ctx, 3), Err(MyErrorCode::Unauthorized));
    assert_eq!(ctx, snapshot);
    // a wrong stored bump derives another signer
    let mut ctx = with_quota(&issued, 1);
    ctx.minter_controller.bump = ctx.minter_controller.bump.wrapping_sub(1);
    let snapshot = ctx.clone();
    assert_eq!(update_quota_credit(&mut ctx, 3), Err(MyErrorCode::Unauthorized));
    assert_eq!(ctx, snapshot);
}

#[test]
fn overwritten_quota_governs_the_next_mint() {
    let mut ctx = mint_context(100);
    assert_eq!(mint_rwa_token(&mut ctx, 60), Ok(()));
    // the running total is 60; the quota is set to 10 whatever was minted
    let mut quota = UpdateQuotaCredit {
        program_id: program(),
        authority: addr(GOV),
        config_account: config(),
        minter_controller: ctx.minter_controller,
        receiver: addr(MINTER),
        mint: ctx.minter_nft_mint.clone(),
    };
    assert_eq!(update_quota_credit(&mut quota, 10), Ok(()));
    ctx.minter_nft_mint = quota.mint;
    let snapshot = ctx.clone();
    assert_eq!(mint_rwa_token(&mut ctx, 11), Err(MyErrorCode::InsufficientCredits));
    assert_eq!(ctx, snapshot);
    assert_eq!(mint_rwa_token(&mut ctx, 10), Ok(()));
    assert_eq!(
        read_ledger(&ctx.minter_nft_mint.additional_metadata),
        Some(CreditLedger { available: 0, minted: 70 })
    );
}

#[test]
fn credit_token_of_a_minter_has_hook_and_fee() {
    let issued = issued_minter();
    let cert = issued.mint.clone().unwrap();
    let ctx = credit_token(&issued, &cert);
    let (ma, bump) = derive1(&MINT_AUTHORITY_SEED, &issued.rwa_mint);
    assert_eq!(
        ctx.mint_authority,
        Some(MintAuthority {
            authority: addr(MINTER),
            mint: issued.rwa_mint,
            transfer_hook: Some(addr(HOOK)),
            bump
        })
    );
    let mint = ctx.mint.clone().unwrap();
    assert_eq!(mint.address, issued.rwa_mint);
    assert_eq!((mint.decimals, mint.supply), (0, 0));
    assert_eq!(mint.mint_authority, Some(ma));
    assert_eq!(mint.update_authority, Some(ma));
    assert_eq!(mint.close_authority, Some(ma));
    assert_eq!(mint.transfer_hook, Some(addr(HOOK)));
    assert_eq!(
        mint.transfer_fee,
        Some(TransferFee { authority: ma, basis_points: 50, maximum_fee: 1000 })
    );
    assert_eq!((mint.name.as_str(), mint.symbol.as_str(), mint.uri.as_str()), ("Carbon", "CC", ""));
    assert!(mint.additional_metadata.is_empty());
    // a second creation is refused
    let mut again = ctx.clone();
    assert_eq!(
        init_carbon_token(&mut again, "C".to_string(), "C".to_string(), "".to_string(), 1, 1),
        Err(MyErrorCode::AlreadyExists)
    );
    assert_eq!(again, ctx);
}

#[test]
fn credit_token_needs_the_certificate_holder() {
    let issued = issued_minter();
    let cert = issued.mint.clone().unwrap();
    let (ma, _) = derive1(&MINT_AUTHORITY_SEED, &issued.rwa_mint);
    let mut ctx = InitCarbonToken {
        program_id: program(),
        creator: addr(MINTER),
        mint_authority_address: ma,
        mint_address: issued.rwa_mint,
        mint_authority: None,
        mint: None,
        minter_nft_mint: cert,
        minter_nft_token_account: TokenAccount {
            mint: issued.mint_address,
            owner: addr(MINTER),
            amount: 0,
        },
        transfer_hook_program: addr(HOOK),
    };
    let snapshot = ctx.clone();
    assert_eq!(
        init_carbon_token(&mut ctx, "C".to_string(), "C".to_string(), "".to_string(), 1, 1),
        Err(MyErrorCode::Unauthorized)
    );
    assert_eq!(ctx, snapshot);
}

#[test]
fn governance_credit_token_follows_the_flags() {
    let symbol = "RWA";
    let (key, _) = anchor_lang::prelude::Pubkey::find_program_address(
        &[b"cct", symbol.as_bytes()],
        &anchor_lang::prelude::Pubkey::new_from_array(program().bytes),
    );
    let mint_address = Address::new(key.to_bytes());
    let (ma, bump) = derive1(&MINT_AUTHORITY_SEED, &mint_address);
    let fresh = InitRwaToken {
        program_id: program(),
        authority: addr(GOV),
        config_account: config(),
        mint_authority_address: ma,
        mint_address,
        mint_authority: None,
        mint: None,
        transfer_hook_program: addr(HOOK),
    };
    let mut open = fresh.clone();
    assert_eq!(
        init_rwa_token(
            &mut open,
            "Real".to_string(),
            symbol.to_string(),
            2,
            "u".to_string(),
            false,
            false,
            None,
            None
        ),
        Ok(())
    );
    let mint = open.mint.clone().unwrap();
    assert_eq!((mint.decimals, mint.supply), (2, 0));
    assert_eq!(mint.transfer_hook, None);
    assert_eq!(mint.transfer_fee, None);
    assert_eq!(mint.mint_authority, Some(ma));
    assert_eq!(
        open.mint_authority,
        Some(MintAuthority { authority: addr(GOV), mint: mint_address, transfer_hook: None, bump })
    );
    let mut closed = fresh.clone();
    assert_eq!(
        init_rwa_token(
            &mut closed,
            "Real".to_string(),
            symbol.to_string(),
            0,
            "u".to_string(),
            true,
            true,
            Some(25),
            Some(9)
        ),
        Ok(())
    );
    let mint = closed.mint.clone().unwrap();
    assert_eq!(mint.transfer_hook, Some(addr(HOOK)));
    assert_eq!(
        mint.transfer_fee,
        Some(TransferFee { authority: ma, basis_points: 25, maximum_fee: 9 })
    );
    assert_eq!(closed.mint_authority.unwrap().transfer_hook, Some(addr(HOOK)));
    // another symbol derives another address
    let mut other = fresh.clone();
    assert_eq!(
        init_rwa_token(
            &mut other,
            "Real".to_string(),
            "XYZ".to_string(),
            0,
            "u".to_string(),
            false,
            false,
            None,
            None
        ),
        Err(MyErrorCode::Unauthorized)
    );
    assert_eq!(other, fresh);
    // only governance may create
    let mut stranger = fresh.clone();
    stranger.authority = addr(MINTER);
    assert_eq!(
        init_rwa_token(
            &mut stranger,
            "Real".to_string(),
            symbol.to_string(),
            0,
            "u".to_string(),
            false,
            false,
            None,
            None
        ),
        Err(MyErrorCode::Unauthorized)
    );
}

#[test]
fn consumer_certificate_is_issued_by_the_minter() {
    let issued = issued_minter();
    let cert = issued.mint.clone().unwrap();
    let token = credit_token(&issued, &cert);
    let (c_cert, _) = derive2(&CONSUMER_NFT_SEED, &issued.rwa_mint, &addr(CONSUMER));
    let (c_ctrl, bump) = derive1(&CONSUMER_NFT_SEED, &c_cert);
    let fresh = IssueConsumerCert {
        program_id: program(),
        minter: addr(MINTER),
        receiver: addr(CONSUMER),
        minter_nft_mint: cert,
        rwa_mint: token.mint.clone().unwrap(),
        controller_address: c_ctrl,
        mint_address: c_cert,
        consumer_controller: None,
        mint: None,
        receiver_token_account: None,
    };
    let mut ctx = fresh.clone();
    assert_eq!(
        issue_consumer_cert(&mut ctx, "Consumer".to_string(), "CON".to_string(), "".to_string()),
        Ok(())
    );
    let controller = ctx.consumer_controller.unwrap();
    assert_eq!(
        (controller.rwa_mint, controller.mint, controller.user, controller.bump),
        (issued.rwa_mint, c_cert, addr(CONSUMER), bump)
    );
    let mint = ctx.mint.clone().unwrap();
    assert_eq!((mint.supply, mint.decimals, mint.mint_authority), (1, 0, None));
    assert_eq!(read_ledger(&mint.additional_metadata), Some(CreditLedger { available: 0, minted: 0 }));
    assert_eq!(
        ctx.receiver_token_account,
        Some(TokenAccount { mint: c_cert, owner: addr(CONSUMER), amount: 1 })
    );
    let snapshot = ctx.clone();
    assert_eq!(
        issue_consumer_cert(&mut ctx, "Consumer".to_string(), "CON".to_string(), "".to_string()),
        Err(MyErrorCode::AlreadyExists)
    );
    assert_eq!(ctx, snapshot);
    // somebody who is not the minter of this credit token
    let mut stranger = fresh.clone();
    stranger.minter = addr(GOV);
    assert_eq!(
        issue_consumer_cert(&mut stranger, "C".to_string(), "C".to_string(), "".to_string()),
        Err(MyErrorCode::Unauthorized)
    );
    assert_eq!(stranger.mint, None);
}

#[test]
fn mint_moves_amount_and_pays_the_receiver() {
    let mut ctx = mint_context(100);
    let before = ctx.clone();
    assert_eq!(mint_rwa_token(&mut ctx, 30), Ok(()));
    assert_eq!(
        ctx.minter_nft_mint.additional_metadata,
        fields(&[("available_credits", "70"), ("minted_credits", "30")])
    );
    assert_eq!(ctx.receiver_token_account.amount, 30);
    assert_eq!(ctx.rwa_mint.supply, 30);
    assert_eq!(ctx.minter_nft_mint.supply, 1);
    assert_eq!(ctx.minter_nft_token_account, before.minter_nft_token_account);
    assert_eq!(mint_carbon_token(&mut ctx, 70), Ok(()));
    assert_eq!(
        read_ledger(&ctx.minter_nft_mint.additional_metadata),
        Some(CreditLedger { available: 0, minted: 100 })
    );
    assert_eq!(ctx.receiver_token_account.amount, 100);
}

#[test]
fn mint_of_zero_is_refused_whatever_the_state() {
    let mut ctx = mint_context(100);
    let snapshot = ctx.clone();
    assert_eq!(mint_rwa_token(&mut ctx, 0), Err(MyErrorCode::InvalidAmount));
    assert_eq!(ctx, snapshot);
    // even where nothing else is in order
    ctx.minter = addr(GOV);
    ctx.minter_nft_mint.additional_metadata = fields(&[("available_credits", "??")]);
    ctx.mint_authority.bump = 0;
    let snapshot = ctx.clone();
    assert_eq!(mint_rwa_token(&mut ctx, 0), Err(MyErrorCode::InvalidAmount));
    assert_eq!(ctx, snapshot);
}

#[test]
fn mint_over_quota_changes_nothing() {
    let mut ctx = mint_context(100);
    let snapshot = ctx.clone();
    assert_eq!(mint_rwa_token(&mut ctx, 101), Err(MyErrorCode::InsufficientCredits));
    assert_eq!(ctx, snapshot);
    let mut fresh = mint_context(0);
    let snapshot = fresh.clone();
    assert_eq!(mint_rwa_token(&mut fresh, 1), Err(MyErrorCode::InsufficientCredits));
    assert_eq!(fresh, snapshot);
}

#[test]
fn mint_errors_each_leave_the_state() {
    // quota field missing
    let mut ctx = mint_context(100);
    ctx.minter_nft_mint.additional_metadata = fields(&[("minted_credits", "0")]);
    let snapshot = ctx.clone();
    assert_eq!(mint_rwa_token(&mut ctx, 1), Err(MyErrorCode::InsufficientCredits));
    assert_eq!(ctx, snapshot);
    // quota unreadable
    let mut ctx = mint_context(100);
    ctx.minter_nft_mint.additional_metadata = fields(&[("available_credits", "1e3")]);
    let snapshot = ctx.clone();
    assert_eq!(mint_rwa_token(&mut ctx, 1), Err(MyErrorCode::NoCredits));
    assert_eq!(ctx, snapshot);
    // running total would overflow
    let mut ctx = mint_context(100);
    ctx.minter_nft_mint.additional_metadata =
        fields(&[("available_credits", "100"), ("minted_credits", "18446744073709551615")]);
    let snapshot = ctx.clone();
    assert_eq!(mint_rwa_token(&mut ctx, 1), Err(MyErrorCode::Overflow));
    assert_eq!(ctx, snapshot);
    // supply would overflow
    let mut ctx = mint_context(100);
    ctx.rwa_mint.supply = u64::MAX;
    let snapshot = ctx.clone();
    assert_eq!(mint_rwa_token(&mut ctx, 1), Err(MyErrorCode::Overflow));
    assert_eq!(ctx, snapshot);
    // somebody else's certificate
    let mut ctx = mint_context(100);
    ctx.minter = addr(CONSUMER);
    let snapshot = ctx.clone();
    assert_eq!(mint_rwa_token(&mut ctx, 1), Err(MyErrorCode::Unauthorized));
    assert_eq!(ctx, snapshot);
    // a wrong bump of the mint authority record derives no valid signer
    let mut ctx = mint_context(100);
    ctx.mint_authority.bump = ctx.mint_authority.bump.wrapping_sub(1);
    let snapshot = ctx.clone();
    assert_eq!(mint_rwa_token(&mut ctx, 1), Err(MyErrorCode::Unauthorized));
    assert_eq!(ctx, snapshot);
    // a wrong bump of the controller
    let mut ctx = mint_context(100);
    ctx.minter_controller.bump = ctx.minter_controller.bump.wrapping_sub(1);
    let snapshot = ctx.clone();
    assert_eq!(mint_rwa_token(&mut ctx, 1), Err(MyErrorCode::Unauthorized));
    assert_eq!(ctx, snapshot);
}

#[test]
fn execute_with_given_signers() {
    let ctx = mint_context(100);
    let (ma, _) = derive1(&MINT_AUTHORITY_SEED, &ctx.rwa_mint.address);
    let (controller, _) = derive1(&MINTER_NFT_SEED, &ctx.minter_nft_mint.address);
    let mut ok = ctx.clone();
    assert_eq!(ok.execute(5, Some(ma), Some(controller)), Ok(()));
    assert_eq!(
        read_ledger(&ok.minter_nft_mint.additional_metadata),
        Some(CreditLedger { available: 95, minted: 5 })
    );
    for (mint_signer, controller_signer) in [
        (None, Some(controller)),
        (Some(ma), None),
        (Some(controller), Some(controller)),
        (Some(ma), Some(ma)),
    ] {
        let mut refused = ctx.clone();
        assert_eq!(
            refused.execute(5, mint_signer, controller_signer),
            Err(MyErrorCode::Unauthorized)
        );
        assert_eq!(refused, ctx);
    }
}

#[test]
fn retirement_burns_and_certifies() {
    let mut minted = mint_context(100);
    assert_eq!(mint_rwa_token(&mut minted, 30), Ok(()));
    let mut ctx = retire_context(&minted);
    let (ma, _) = derive1(&MINT_AUTHORITY_SEED, &minted.rwa_mint.address);
    assert_eq!(retire_token(&mut ctx, 10), Ok(()));
    assert_eq!(ctx.consumer_token_account.amount, 20);
    assert_eq!(ctx.mint.supply, 20);
    assert_eq!(ctx.mint.additional_metadata, minted.rwa_mint.additional_metadata);
    let certificate = ctx.nft_mint.clone().unwrap();
    assert_eq!(certificate.additional_metadata, fields(&[("retired_credits", "10")]));
    assert_eq!((certificate.supply, certificate.decimals), (1, 0));
    assert_eq!(certificate.mint_authority, None);
    assert_eq!(certificate.update_authority, Some(ma));
    assert_eq!(certificate.address, addr(77));
    assert_eq!(
        (certificate.name.as_str(), certificate.symbol.as_str(), certificate.uri.as_str()),
        ("Retired Credits Certificate", "RCC", "")
    );
    assert_eq!(
        ctx.consumer_nft_token_account,
        Some(TokenAccount { mint: addr(77), owner: addr(CONSUMER), amount: 1 })
    );
    // the minter's counters are no part of a retirement
    assert_eq!(
        read_ledger(&minted.minter_nft_mint.additional_metadata),
        Some(CreditLedger { available: 70, minted: 30 })
    );
}

#[test]
fn retirement_errors_each_leave_the_state() {
    let mut minted = mint_context(100);
    assert_eq!(mint_rwa_token(&mut minted, 30), Ok(()));
    let fresh = retire_context(&minted);
    let mut ctx = fresh.clone();
    assert_eq!(retire_token(&mut ctx, 0), Err(MyErrorCode::InvalidAmount));
    assert_eq!(ctx, fresh);
    assert_eq!(retire_token(&mut ctx, 31), Err(MyErrorCode::InsufficientBalance));
    assert_eq!(ctx, fresh);
    let mut stranger = fresh.clone();
    stranger.consumer = addr(MINTER);
    let snapshot = stranger.clone();
    assert_eq!(retire_token(&mut stranger, 1), Err(MyErrorCode::Unauthorized));
    assert_eq!(stranger, snapshot);
    let mut wrong_hook = fresh.clone();
    wrong_hook.transfer_hook_program = addr(10);
    assert_eq!(retire_token(&mut wrong_hook, 1), Err(MyErrorCode::Unauthorized));
    let mut taken = fresh.clone();
    taken.consumer_nft_token_account = Some(TokenAccount::open(addr(77), addr(CONSUMER)));
    let snapshot = taken.clone();
    assert_eq!(retire_token(&mut taken, 1), Err(MyErrorCode::AlreadyExists));
    assert_eq!(taken, snapshot);
    let mut short = fresh.clone();
    short.mint.supply = 5;
    let snapshot = short.clone();
    assert_eq!(retire_token(&mut short, 6), Err(MyErrorCode::Overflow));
    assert_eq!(short, snapshot);
    // the whole balance may go
    let mut all = fresh.clone();
    assert_eq!(retire_token(&mut all, 30), Ok(()));
    assert_eq!(all.consumer_token_account.amount, 0);
    assert_eq!(
        all.nft_mint.unwrap().additional_metadata,
        fields(&[("retired_credits", "30")])
    );
}

#[test]
fn scenario_quota_mint_refusal_and_retirement() {
    // governance issues a minter certificate to the minter
    let issued = issued_minter();
    // the quota is set to 100
    let cert = with_quota(&issued, 100).mint;
    assert_eq!(
        cert.additional_metadata,
        fields(&[("available_credits", "100"), ("minted_credits", "0")])
    );
    let token = credit_token(&issued, &cert);
    let mut mint = MintRwaToken {
        program_id: program(),
        minter: addr(MINTER),
        receiver: addr(CONSUMER),
        minter_controller: issued.minter_controller.unwrap(),
        mint_authority: token.mint_authority.unwrap(),
        rwa_mint: token.mint.clone().unwrap(),
        receiver_token_account: TokenAccount::open(issued.rwa_mint, addr(CONSUMER)),
        minter_nft_mint: cert,
        minter_nft_token_account: issued.receiver_token_account.unwrap(),
    };
    // the minter mints 30
    assert_eq!(mint_rwa_token(&mut mint, 30), Ok(()));
    assert_eq!(
        read_ledger(&mint.minter_nft_mint.additional_metadata),
        Some(CreditLedger { available: 70, minted: 30 })
    );
    // the minter mints 80: refused, the ledger stays
    let snapshot = mint.clone();
    assert_eq!(mint_rwa_token(&mut mint, 80), Err(MyErrorCode::InsufficientCredits));
    assert_eq!(mint, snapshot);
    assert_eq!(
        mint.minter_nft_mint.additional_metadata,
        fields(&[("available_credits", "70"), ("minted_credits", "30")])
    );
    // the consumer holds 30 and retires 10
    assert_eq!(mint.receiver_token_account.amount, 30);
    let mut retire = retire_context(&mint);
    assert_eq!(retire_token(&mut retire, 10), Ok(()));
    assert_eq!(retire.consumer_token_account.amount, 20);
    assert_eq!(
        retire.nft_mint.unwrap().additional_metadata,
        fields(&[("retired_credits", "10")])
    );
}

#[test]
fn retirement_certificate_space_counts_the_digits() {
    let mut minted = mint_context(100);
    assert_eq!(mint_rwa_token(&mut minted, 30), Ok(()));
    let ctx = retire_context(&minted);
    let (ma, _) = derive1(&MINT_AUTHORITY_SEED, &minted.rwa_mint.address);
    // 234 for the mint with its metadata pointer, 145 for the metadata
    // without the amount, and one byte for each digit
    assert_eq!(ctx.update_account_lamports_by_extensions(1, &ma), Ok(234 + 145 + 1));
    assert_eq!(ctx.update_account_lamports_by_extensions(10, &ma), Ok(234 + 145 + 2));
    assert_eq!(ctx.update_account_lamports_by_extensions(u64::MAX, &ma), Ok(234 + 145 + 20));
    assert_eq!(ctx.update_account_lamports_by_extensions(0, &addr(1)), Ok(234 + 145 + 1));
}
