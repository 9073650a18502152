use anchor_lang::prelude::Pubkey;
use anchor_lang::solana_program::program_option::COption;
use anchor_spl::token_2022::spl_token_2022::extension::transfer_hook::TransferHookAccount;
use anchor_spl::token_2022::spl_token_2022::extension::{
    BaseStateWithExtensionsMut, ExtensionType, StateWithExtensionsMut,
};
use anchor_spl::token_2022::spl_token_2022::state::{Account, AccountState, Mint};
use anchor_spl::token_interface::spl_pod::optional_keys::OptionalNonZeroPubkey;
use anchor_spl::token_interface::spl_token_metadata_interface::state::TokenMetadata;
use rwa_tokenization::address::Address;
use rwa_tokenization::authority::derive_address;
use rwa_tokenization::constants::CONSUMER_NFT_SEED;
use rwa_tokenization::error::{MyErrorCode, TokenTransferHookError};
use rwa_tokenization::ledger::{decide_mint_for_account, CreditLedger};
use rwa_tokenization::metadata::{find_field, get_additional_metadata};
use rwa_tokenization::token::{Mint as MintState, TokenAccount};
use rwa_tokenization::transfer_hook::{
    check_token_account_is_transferring, execute, extra_account_metas, ExtraAccountMeta,
    TransferHook,
};
use spl_tlv_account_resolution::seeds::Seed;

fn fields(pairs: &[(&str, &str)]) -> Vec<(String, String)> {
    pairs.iter().map(|(k, v)| (k.to_string(), v.to_string())).collect()
}

fn mint_account_data(additional: Vec<(String, String)>) -> Vec<u8> {
    let record = TokenMetadata {
        update_authority: OptionalNonZeroPubkey(Pubkey::new_from_array([5; 32])),
        mint: Pubkey::new_from_array([6; 32]),
        name: "Minter".to_string(),
        symbol: "MNT".to_string(),
        uri: "uri".to_string(),
        additional_metadata: additional,
    };
    let base = ExtensionType::try_calculate_account_len::<Mint>(&[ExtensionType::MetadataPointer])
        .unwrap();
    let mut data = vec![0u8; base + record.tlv_size_of().unwrap() + 64];
    let mut state = StateWithExtensionsMut::<Mint>::unpack_uninitialized(&mut data).unwrap();
    state.base = Mint {
        mint_authority: COption::None,
        supply: 1,
        decimals: 0,
        is_initialized: true,
        freeze_authority: COption::None,
    };
    state.pack_base();
    state.init_account_type().unwrap();
    state.init_variable_len_extension(&record, false).unwrap();
    data
}

fn token_account_data(transferring: Option<bool>) -> Vec<u8> {
    let extensions: &[ExtensionType] = match transferring {
        Some(_) => &[ExtensionType::TransferHookAccount],
        None => &[ExtensionType::ImmutableOwner],
    };
    let len = ExtensionType::try_calculate_account_len::<Account>(extensions).unwrap();
    let mut data = vec![0u8; len];
    let mut state = StateWithExtensionsMut::<Account>::unpack_uninitialized(&mut data).unwrap();
    state.base = Account {
        mint: Pubkey::new_from_array([6; 32]),
        owner: Pubkey::new_from_array([7; 32]),
        amount: 30,
        delegate: COption::None,
        state: AccountState::Initialized,
        is_native: COption::None,
        delegated_amount: 0,
        close_authority: COption::None,
    };
    state.pack_base();
    state.init_account_type().unwrap();
    if let Some(flag) = transferring {
        let extension = state.init_extension::<TransferHookAccount>(true).unwrap();
        extension.transferring = flag.into();
    }
    data
}

#[test]
fn find_field_gives_the_first_position() {
    let f = fields(&[("a", "1"), ("b", "2"), ("a", "3")]);
    assert_eq!(find_field(&f, "a"), Some(0));
    assert_eq!(find_field(&f, "b"), Some(1));
    assert_eq!(find_field(&f, "c"), None);
    assert_eq!(find_field(&fields(&[]), "a"), None);
    assert_eq!(find_field(&f, ""), None);
}

#[test]
fn additional_metadata_is_read_from_account_data() {
    let stored = fields(&[("available_credits", "100"), ("minted_credits", "7")]);
    let data = mint_account_data(stored.clone());
    assert_eq!(get_additional_metadata(&data), Some(stored));
    assert_eq!(get_additional_metadata(&mint_account_data(vec![])), Some(vec![]));
}

#[test]
fn account_data_without_metadata_gives_none() {
    assert_eq!(get_additional_metadata(&[]), None);
    assert_eq!(get_additional_metadata(&[0u8; 40]), None);
    assert_eq!(get_additional_metadata(&[0u8; 300]), None);
    assert_eq!(get_additional_metadata(&token_account_data(Some(true))), None);
}

#[test]
fn mint_is_decided_from_account_data() {
    let data = mint_account_data(fields(&[("available_credits", "100"), ("minted_credits", "7")]));
    assert_eq!(
        decide_mint_for_account(&data, 30),
        Some(Ok(CreditLedger { available: 70, minted: 37 }))
    );
    assert_eq!(
        decide_mint_for_account(&data, 101),
        Some(Err(MyErrorCode::InsufficientCredits))
    );
    assert_eq!(decide_mint_for_account(&data, 0), Some(Err(MyErrorCode::InvalidAmount)));
    // the amount is tested before the data is read
    assert_eq!(decide_mint_for_account(&[1, 2, 3], 0), Some(Err(MyErrorCode::InvalidAmount)));
    assert_eq!(decide_mint_for_account(&[1, 2, 3], 1), None);
    let bare = mint_account_data(vec![]);
    assert_eq!(
        decide_mint_for_account(&bare, 1),
        Some(Err(MyErrorCode::InsufficientCredits))
    );
}

#[test]
fn transfer_flag_is_read_from_account_data() {
    assert_eq!(check_token_account_is_transferring(&token_account_data(Some(true))), Ok(()));
    assert_eq!(
        check_token_account_is_transferring(&token_account_data(Some(false))),
        Err(TokenTransferHookError::ProgramCalledOutsideOfTransfer)
    );
    assert_eq!(
        check_token_account_is_transferring(&token_account_data(None)),
        Err(TokenTransferHookError::InvalidAccountData)
    );
    assert_eq!(
        check_token_account_is_transferring(&[]),
        Err(TokenTransferHookError::InvalidAccountData)
    );
}

fn certificate(address: Address) -> MintState {
    let mut mint = MintState::create(address, 0, Address::new([40; 32]));
    mint.supply = 1;
    mint.mint_authority = None;
    mint
}

fn hook_context() -> TransferHook {
    let program = Address::new([21; 32]);
    let mint = Address::new([6; 32]);
    let source_owner = Address::new([7; 32]);
    let destination_owner = Address::new([8; 32]);
    let (source_cert, _) =
        derive_address(&CONSUMER_NFT_SEED, Some(&mint), Some(&source_owner), &program).unwrap();
    let (destination_cert, _) =
        derive_address(&CONSUMER_NFT_SEED, Some(&mint), Some(&destination_owner), &program)
            .unwrap();
    TransferHook {
        source_token: TokenAccount { mint, owner: source_owner, amount: 30 },
        mint,
        destination_token: TokenAccount { mint, owner: destination_owner, amount: 0 },
        owner: source_owner,
        rwa_program: program,
        source_mint_nft: certificate(source_cert),
        destination_mint_nft: certificate(destination_cert),
    }
}

#[test]
fn hook_accepts_two_certified_endpoints_in_transfer() {
    let ctx = hook_context();
    let moving = token_account_data(Some(true));
    let idle = token_account_data(Some(false));
    assert_eq!(ctx.check_certificates(), Ok(()));
    assert_eq!(execute(&ctx, &moving, &moving), Ok(()));
    assert_eq!(
        execute(&ctx, &idle, &moving),
        Err(TokenTransferHookError::ProgramCalledOutsideOfTransfer)
    );
    assert_eq!(
        execute(&ctx, &moving, &idle),
        Err(TokenTransferHookError::ProgramCalledOutsideOfTransfer)
    );
    assert_eq!(
        execute(&ctx, &moving, &[]),
        Err(TokenTransferHookError::InvalidAccountData)
    );
}

#[test]
fn hook_refuses_an_endpoint_without_valid_certificate() {
    let moving = token_account_data(Some(true));
    let mut ctx = hook_context();
    ctx.destination_mint_nft.supply = 0;
    assert_eq!(execute(&ctx, &moving, &moving), Err(TokenTransferHookError::UnAuthorized));
    let mut ctx = hook_context();
    ctx.source_mint_nft.supply = 2;
    assert_eq!(execute(&ctx, &moving, &moving), Err(TokenTransferHookError::UnAuthorized));
    let mut ctx = hook_context();
    ctx.source_mint_nft.decimals = 1;
    assert_eq!(ctx.check_certificates(), Err(TokenTransferHookError::UnAuthorized));
    // the certificate of somebody else
    let mut ctx = hook_context();
    ctx.destination_mint_nft.address = ctx.source_mint_nft.address;
    assert_eq!(ctx.check_certificates(), Err(TokenTransferHookError::UnAuthorized));
    // a certificate issued by another program
    let mut ctx = hook_context();
    ctx.rwa_program = Address::new([22; 32]);
    assert_eq!(ctx.check_certificates(), Err(TokenTransferHookError::UnAuthorized));
    // an endpoint of another mint
    let mut ctx = hook_context();
    ctx.destination_token.mint = Address::new([99; 32]);
    assert_eq!(ctx.check_certificates(), Err(TokenTransferHookError::UnAuthorized));
}

#[test]
fn extra_accounts_are_program_and_two_certificates() {
    let program = Address::new([21; 32]);
    let metas = extra_account_metas(&program).unwrap();
    let mut source = [0u8; 32];
    source[..9].copy_from_slice(&[1, 1, b'c', 3, 1, 4, 0, 32, 32]);
    let mut destination = [0u8; 32];
    destination[..9].copy_from_slice(&[1, 1, b'c', 3, 1, 4, 2, 32, 32]);
    assert_eq!(
        metas,
        vec![
            ExtraAccountMeta {
                discriminator: 0,
                address_config: [21; 32],
                is_signer: false,
                is_writable: false
            },
            ExtraAccountMeta {
                discriminator: 133,
                address_config: source,
                is_signer: false,
                is_writable: false
            },
            ExtraAccountMeta {
                discriminator: 133,
                address_config: destination,
                is_signer: false,
                is_writable: false
            },
        ]
    );
}

#[test]
fn extra_accounts_are_what_the_resolution_crate_builds() {
    let key = Pubkey::new_from_array([21; 32]);
    let direct = |account_index: u8| {
        spl_tlv_account_resolution::account::ExtraAccountMeta::new_external_pda_with_seeds(
            5,
            &[
                Seed::Literal { bytes: b"c".to_vec() },
                Seed::AccountKey { index: 1 },
                Seed::AccountData { account_index, data_index: 32, length: 32 },
            ],
            false,
            false,
        )
        .unwrap()
    };
    let plain =
        spl_tlv_account_resolution::account::ExtraAccountMeta::new_with_pubkey(&key, false, false)
            .unwrap();
    let metas = extra_account_metas(&Address::new([21; 32])).unwrap();
    let expected = [plain, direct(0), direct(2)];
    assert_eq!(metas.len(), 3);
    for (meta, want) in metas.iter().zip(expected.iter()) {
        assert_eq!(meta.discriminator, want.discriminator);
        assert_eq!(meta.address_config, want.address_config);
        assert_eq!(meta.is_signer, bool::from(want.is_signer));
        assert_eq!(meta.is_writable, bool::from(want.is_writable));
    }
}
