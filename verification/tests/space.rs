use anchor_lang::prelude::Pubkey;
use anchor_spl::token_2022::spl_token_2022::extension::ExtensionType;
use anchor_spl::token_2022::spl_token_2022::state::Mint;
use anchor_spl::token_interface::spl_pod::optional_keys::OptionalNonZeroPubkey;
use anchor_spl::token_interface::spl_token_metadata_interface::state::TokenMetadata;
use rwa_tokenization::address::Address;
use rwa_tokenization::space::{
    certificate_account_space, certificate_space, get_mint_space_with_extensions, metadata_space,
    mint_extensions, mint_with_metadata_space, update_account_lamports_to_minimum_balance,
    MintExtension, SpaceError,
};

fn fields(pairs: &[(&str, &str)]) -> Vec<(String, String)> {
    pairs.iter().map(|(k, v)| (k.to_string(), v.to_string())).collect()
}

#[test]
fn extension_numbers_are_those_of_the_token_service() {
    assert_eq!(MintExtension::MetadataPointer.code(), ExtensionType::MetadataPointer as u16);
    assert_eq!(MintExtension::MintCloseAuthority.code(), ExtensionType::MintCloseAuthority as u16);
    assert_eq!(MintExtension::TransferHook.code(), ExtensionType::TransferHook as u16);
    assert_eq!(MintExtension::TransferFeeConfig.code(), ExtensionType::TransferFeeConfig as u16);
}

#[test]
fn extensions_follow_the_two_flags() {
    assert_eq!(mint_extensions(false, false), vec![18, 3]);
    assert_eq!(mint_extensions(true, false), vec![18, 3, 14]);
    assert_eq!(mint_extensions(false, true), vec![18, 3, 1]);
    assert_eq!(mint_extensions(true, true), vec![18, 3, 14, 1]);
}

#[test]
fn mint_space_is_what_the_token_service_computes() {
    let base = [ExtensionType::MetadataPointer, ExtensionType::MintCloseAuthority];
    let hook = [
        ExtensionType::MetadataPointer,
        ExtensionType::MintCloseAuthority,
        ExtensionType::TransferHook,
    ];
    let fee = [
        ExtensionType::MetadataPointer,
        ExtensionType::MintCloseAuthority,
        ExtensionType::TransferFeeConfig,
    ];
    let both = [
        ExtensionType::MetadataPointer,
        ExtensionType::MintCloseAuthority,
        ExtensionType::TransferHook,
        ExtensionType::TransferFeeConfig,
    ];
    let len = |e: &[ExtensionType]| ExtensionType::try_calculate_account_len::<Mint>(e).unwrap();
    assert_eq!(get_mint_space_with_extensions(false, false), Ok(len(&base)));
    assert_eq!(get_mint_space_with_extensions(true, false), Ok(len(&hook)));
    assert_eq!(get_mint_space_with_extensions(false, true), Ok(len(&fee)));
    assert_eq!(get_mint_space_with_extensions(true, true), Ok(len(&both)));
}

#[test]
fn mint_space_exact_sizes() {
    assert_eq!(get_mint_space_with_extensions(false, false), Ok(270));
    assert_eq!(get_mint_space_with_extensions(true, false), Ok(338));
    assert_eq!(get_mint_space_with_extensions(false, true), Ok(382));
    assert_eq!(get_mint_space_with_extensions(true, true), Ok(450));
}

#[test]
fn metadata_space_counts_header_keys_texts_and_fields() {
    let authority = Address::new([1; 32]);
    let mint = Address::new([2; 32]);
    let f = fields(&[("available_credits", "0"), ("minted_credits", "0")]);
    // 12 + 32 + 32 + (4 + 1) + (4 + 1) + (4 + 0) + 4 + (8 + 17 + 1) + (8 + 14 + 1)
    assert_eq!(metadata_space(&authority, &mint, "A", "B", "", &f), Ok(143));
    // no field at all
    assert_eq!(metadata_space(&authority, &mint, "", "", "", &fields(&[])), Ok(92));
    // bytes, not characters
    assert_eq!(metadata_space(&authority, &mint, "é", "", "", &fields(&[])), Ok(94));
}

#[test]
fn metadata_space_is_what_the_metadata_interface_computes() {
    let authority = Address::new([1; 32]);
    let mint = Address::new([2; 32]);
    let f = fields(&[("retired_credits", "18446744073709551615")]);
    let record = TokenMetadata {
        update_authority: OptionalNonZeroPubkey(Pubkey::new_from_array([1; 32])),
        mint: Pubkey::new_from_array([2; 32]),
        name: "Retired Credits Certificate".to_string(),
        symbol: "RCC".to_string(),
        uri: "https://example.org/x.json".to_string(),
        additional_metadata: f.clone(),
    };
    assert_eq!(
        metadata_space(
            &authority,
            &mint,
            "Retired Credits Certificate",
            "RCC",
            "https://example.org/x.json",
            &f
        ),
        Ok(record.tlv_size_of().unwrap())
    );
}

#[test]
fn certificate_space_adds_or_refuses() {
    assert_eq!(certificate_space(Ok(234), Ok(100)), Ok(334));
    assert_eq!(certificate_space(Ok(usize::MAX), Ok(1)), Err(SpaceError::NoSize));
    assert_eq!(certificate_space(Err(SpaceError::NoSize), Ok(1)), Err(SpaceError::NoSize));
    assert_eq!(certificate_space(Ok(1), Err(SpaceError::NoSize)), Err(SpaceError::NoSize));
}

#[test]
fn top_up_is_the_shortfall_or_nothing() {
    assert_eq!(update_account_lamports_to_minimum_balance(1000, 400), 600);
    assert_eq!(update_account_lamports_to_minimum_balance(1000, 1000), 0);
    assert_eq!(update_account_lamports_to_minimum_balance(1000, 1001), 0);
    assert_eq!(update_account_lamports_to_minimum_balance(u64::MAX, 0), u64::MAX);
    assert_eq!(update_account_lamports_to_minimum_balance(0, u64::MAX), 0);
}

#[test]
fn account_space_is_mint_and_metadata() {
    let authority = Address::new([1; 32]);
    let mint = Address::new([2; 32]);
    let none = fields(&[]);
    // a certificate: the mint with its metadata pointer takes 234 bytes
    assert_eq!(certificate_account_space(&authority, &mint, "", "", "", &none), Ok(234 + 92));
    // a credit token with pointer and hook, and no additional field
    let hooked = vec![
        MintExtension::MetadataPointer.code(),
        MintExtension::TransferHook.code(),
    ];
    let direct = ExtensionType::try_calculate_account_len::<Mint>(&[
        ExtensionType::MetadataPointer,
        ExtensionType::TransferHook,
    ])
    .unwrap();
    assert_eq!(direct, 302);
    assert_eq!(
        mint_with_metadata_space(&hooked, &authority, &mint, "Carbon", "CC", "", &none),
        Ok(302 + 92 + 8)
    );
    // a number that names no extension, and one without a fixed size
    assert_eq!(
        mint_with_metadata_space(&vec![9999], &authority, &mint, "", "", "", &none),
        Err(SpaceError::NoSize)
    );
    assert_eq!(
        mint_with_metadata_space(&vec![19], &authority, &mint, "", "", "", &none),
        Err(SpaceError::NoSize)
    );
    // no extension at all: the bare mint
    assert_eq!(
        mint_with_metadata_space(&vec![], &authority, &mint, "", "", "", &none),
        Ok(82 + 92)
    );
}
