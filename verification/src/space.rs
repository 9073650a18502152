use crate::address::Address;
use anchor_lang::prelude::{ProgramError, Pubkey};
use anchor_spl::token_2022::spl_token_2022::extension::ExtensionType;
use anchor_spl::token_2022::spl_token_2022::state::Mint;
use anchor_spl::token_interface::spl_pod::optional_keys::OptionalNonZeroPubkey;
use anchor_spl::token_interface::spl_token_metadata_interface::state::TokenMetadata;
use vstd::prelude::*;

verus! {

/// The error type of the token programs.
#[verifier::external_type_specification]
#[verifier::external_body]
pub struct ExProgramError(ProgramError);

/// Why no account size could be computed.
#[derive(Clone, Copy, Debug, PartialEq, Eq, Structural)]
pub enum SpaceError {
    /// The token service gives no size for this set of extensions or for
    /// this metadata.
    NoSize,
}

/// An extension that a mint of this protocol may carry.
#[derive(Clone, Copy, Debug, PartialEq, Eq, Structural)]
pub enum MintExtension {
    MetadataPointer,
    MintCloseAuthority,
    TransferHook,
    TransferFeeConfig,
}

impl MintExtension {
    /// The number by which the token service knows the extension.
    pub open spec fn spec_code(self) -> u16 {
        match self {
            MintExtension::TransferFeeConfig => 1,
            MintExtension::MintCloseAuthority => 3,
            MintExtension::TransferHook => 14,
            MintExtension::MetadataPointer => 18,
        }
    }

    /// The number by which the token service knows the extension.
    pub fn code(self) -> (c: u16)
        ensures
            c == self.spec_code(),
    {
        match self {
            MintExtension::TransferFeeConfig => 1,
            MintExtension::MintCloseAuthority => 3,
            MintExtension::TransferHook => 14,
            MintExtension::MetadataPointer => 18,
        }
    }
}

/// The extensions of a credit-token mint: metadata pointer and close
/// authority always, the transfer hook for a closed token, the transfer fee
/// for a token with fees, in this order.
pub open spec fn extensions_for(is_close: bool, has_fee: bool) -> Seq<MintExtension> {
    let base = seq![MintExtension::MetadataPointer, MintExtension::MintCloseAuthority];
    let hooked = if is_close {
        base.push(MintExtension::TransferHook)
    } else {
        base
    };
    if has_fee {
        hooked.push(MintExtension::TransferFeeConfig)
    } else {
        hooked
    }
}

/// The extension numbers of a sequence of extensions.
pub open spec fn codes_of(extensions: Seq<MintExtension>) -> Seq<u16> {
    extensions.map_values(|e: MintExtension| e.spec_code())
}

/// The size in bytes of a mint account that carries the extensions with the
/// given numbers, as the token service computes it, or `None` where it
/// computes none.
pub uninterp spec fn mint_account_len(codes: Seq<u16>) -> Option<nat>;

/// The size as a number, whatever the error.
pub open spec fn len_of(r: Result<usize, ProgramError>) -> Option<nat> {
    match r {
        Ok(n) => Some(n as nat),
        Err(_) => None,
    }
}

/// `ExtensionType::try_calculate_account_len` for a mint, on the extension
/// types that the numbers name. The size is a function of the numbers alone;
/// a number that names no extension type is an error.
#[verifier::external_body]
pub(crate) fn try_calculate_account_len(codes: &Vec<u16>) -> (r: Result<usize, ProgramError>)
    ensures
        len_of(r) == mint_account_len(codes@),
{
    let mut kinds: Vec<ExtensionType> = Vec::new();
    for code in codes.iter() {
        kinds.push(ExtensionType::try_from(&code.to_le_bytes()[..])?);
    }
    ExtensionType::try_calculate_account_len::<Mint>(&kinds)
}

/// The extensions of a credit-token mint, by number.
pub fn mint_extensions(is_close: bool, has_fee: bool) -> (codes: Vec<u16>)
    ensures
        codes@ == codes_of(extensions_for(is_close, has_fee)),
{
    let mut codes: Vec<u16> = Vec::new();
    codes.push(MintExtension::MetadataPointer.code());
    codes.push(MintExtension::MintCloseAuthority.code());
    if is_close {
        codes.push(MintExtension::TransferHook.code());
    }
    if has_fee {
        codes.push(MintExtension::TransferFeeConfig.code());
    }
    assert(codes@ =~= codes_of(extensions_for(is_close, has_fee)));
    codes
}

/// What the size computation comes to for a size that the token service
/// gave or refused.
pub open spec fn space_outcome(len: Option<nat>) -> Result<usize, SpaceError> {
    match len {
        Some(n) => Ok(n as usize),
        None => Err(SpaceError::NoSize),
    }
}

/// Turns the answer of the token service into the library's result.
pub fn space_from(answer: Result<usize, ProgramError>) -> (r: Result<usize, SpaceError>)
    ensures
        r == space_outcome(len_of(answer)),
{
    match answer {
        Ok(n) => Ok(n),
        Err(_) => Err(SpaceError::NoSize),
    }
}

/// The size of the account of a credit-token mint: closed tokens carry the
/// transfer hook, tokens with fees the transfer fee configuration.
pub fn get_mint_space_with_extensions(is_close: bool, has_fee: bool) -> (r: Result<
    usize,
    SpaceError,
>)
    ensures
        r == space_outcome(mint_account_len(codes_of(extensions_for(is_close, has_fee)))),
{
    let codes = mint_extensions(is_close, has_fee);
    space_from(try_calculate_account_len(&codes))
}

/// The number of bytes of a text in UTF-8.
pub open spec fn text_len(s: Seq<char>) -> nat {
    vstd::utf8::encode_utf8(s).len()
}

/// The bytes that the additional fields take: for each pair two length
/// prefixes of four bytes and the two texts.
pub open spec fn fields_len(fields: Seq<(Seq<char>, Seq<char>)>) -> nat
    decreases fields.len(),
{
    if fields.len() == 0 {
        0
    } else {
        fields_len(fields.drop_last()) + 8 + text_len(fields.last().0) + text_len(fields.last().1)
    }
}

/// The size of a metadata record as a type-length-value entry: 12 bytes of
/// type and length, two keys of 32 bytes, three texts and the list of
/// additional fields, each with a length prefix of four bytes.
pub open spec fn metadata_tlv_len(
    name: Seq<char>,
    symbol: Seq<char>,
    uri: Seq<char>,
    fields: Seq<(Seq<char>, Seq<char>)>,
) -> nat {
    12 + 32 + 32 + 4 + text_len(name) + 4 + text_len(symbol) + 4 + text_len(uri) + 4 + fields_len(
        fields,
    )
}

/// `TokenMetadata::tlv_size_of` on a record with the given contents: the
/// length of the record in its serialised form, plus the length of the type
/// and length header. The keys take 32 bytes each whatever they hold. It
/// fails only where a length does not fit its prefix of four bytes.
#[verifier::external_body]
pub(crate) fn tlv_size_of(
    update_authority: &Address,
    mint: &Address,
    name: &str,
    symbol: &str,
    uri: &str,
    fields: &Vec<(String, String)>,
) -> (r: Result<usize, ProgramError>)
    ensures
        r matches Ok(n) ==> n == metadata_tlv_len(name@, symbol@, uri@, fields.deep_view()),
        metadata_tlv_len(name@, symbol@, uri@, fields.deep_view()) <= u32::MAX ==> r is Ok,
{
    let record = TokenMetadata {
        update_authority: OptionalNonZeroPubkey(Pubkey::new_from_array(update_authority.bytes)),
        mint: Pubkey::new_from_array(mint.bytes),
        name: name.to_string(),
        symbol: symbol.to_string(),
        uri: uri.to_string(),
        additional_metadata: fields.clone(),
    };
    record.tlv_size_of()
}

/// The size that the metadata of a token takes, for the storage that must
/// be paid before any field is written.
pub fn metadata_space(
    update_authority: &Address,
    mint: &Address,
    name: &str,
    symbol: &str,
    uri: &str,
    fields: &Vec<(String, String)>,
) -> (r: Result<usize, SpaceError>)
    ensures
        r matches Ok(n) ==> n == metadata_tlv_len(name@, symbol@, uri@, fields.deep_view()),
        r is Err ==> r == Err::<usize, SpaceError>(SpaceError::NoSize),
        metadata_tlv_len(name@, symbol@, uri@, fields.deep_view()) <= u32::MAX ==> r is Ok,
{
    space_from(tlv_size_of(update_authority, mint, name, symbol, uri, fields))
}

/// The size of a retirement certificate's account: the mint with its
/// metadata pointer, and the metadata itself. `NoSize` also where the sum
/// does not fit.
pub fn certificate_space(base: Result<usize, SpaceError>, metadata: Result<usize, SpaceError>) -> (r:
    Result<usize, SpaceError>)
    ensures
        r == (match (base, metadata) {
            (Ok(a), Ok(b)) => if a + b <= usize::MAX {
                Ok::<usize, SpaceError>((a + b) as usize)
            } else {
                Err(SpaceError::NoSize)
            },
            _ => Err(SpaceError::NoSize),
        }),
{
    match (base, metadata) {
        (Ok(a), Ok(b)) => match a.checked_add(b) {
            Some(n) => Ok(n),
            None => Err(SpaceError::NoSize),
        },
        _ => Err(SpaceError::NoSize),
    }
}

/// The size of the account of a mint that carries the extensions with the
/// given numbers and holds its own metadata with the given fields. It has
/// to be paid for before the first field is written.
pub fn mint_with_metadata_space(
    codes: &Vec<u16>,
    update_authority: &Address,
    mint: &Address,
    name: &str,
    symbol: &str,
    uri: &str,
    fields: &Vec<(String, String)>,
) -> (r: Result<usize, SpaceError>)
    ensures
        r matches Ok(n) ==> mint_account_len(codes@) matches Some(base) && n == base
            + metadata_tlv_len(name@, symbol@, uri@, fields.deep_view()),
        r is Err ==> r == Err::<usize, SpaceError>(SpaceError::NoSize),
        r is Err ==> mint_account_len(codes@) is None || metadata_tlv_len(
            name@,
            symbol@,
            uri@,
            fields.deep_view(),
        ) > u32::MAX || mint_account_len(codes@)->Some_0 + metadata_tlv_len(
            name@,
            symbol@,
            uri@,
            fields.deep_view(),
        ) > usize::MAX,
{
    let base = space_from(try_calculate_account_len(codes));
    let metadata = metadata_space(update_authority, mint, name, symbol, uri, fields);
    certificate_space(base, metadata)
}

/// The size of the account of a certificate: its mint with the metadata
/// pointer, and its metadata with the given fields.
pub fn certificate_account_space(
    update_authority: &Address,
    mint: &Address,
    name: &str,
    symbol: &str,
    uri: &str,
    fields: &Vec<(String, String)>,
) -> (r: Result<usize, SpaceError>)
    ensures
        r matches Ok(n) ==> mint_account_len(seq![MintExtension::MetadataPointer.spec_code()])
            matches Some(base) && n == base + metadata_tlv_len(
            name@,
            symbol@,
            uri@,
            fields.deep_view(),
        ),
        r is Err ==> r == Err::<usize, SpaceError>(SpaceError::NoSize),
        r is Err ==> mint_account_len(seq![MintExtension::MetadataPointer.spec_code()]) is None
            || metadata_tlv_len(name@, symbol@, uri@, fields.deep_view()) > u32::MAX
            || mint_account_len(seq![MintExtension::MetadataPointer.spec_code()])->Some_0
            + metadata_tlv_len(name@, symbol@, uri@, fields.deep_view()) > usize::MAX,
{
    let mut codes: Vec<u16> = Vec::new();
    codes.push(MintExtension::MetadataPointer.code());
    assert(codes@ =~= seq![MintExtension::MetadataPointer.spec_code()]);
    mint_with_metadata_space(&codes, update_authority, mint, name, symbol, uri, fields)
}

/// What has to be added to an account that holds `current` so that it
/// holds at least `required`: the difference, or nothing where it holds
/// enough.
pub fn update_account_lamports_to_minimum_balance(required: u64, current: u64) -> (extra: u64)
    ensures
        extra == (if required > current {
            required - current
        } else {
            0
        }),
        current + extra >= required,
        extra > 0 ==> current + extra == required,
{
    if required > current {
        required - current
    } else {
        0
    }
}

} // verus!
