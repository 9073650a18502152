use crate::address::Address;
use crate::authority::{program_address, with_bump, AuthorityRecord};
use crate::constants::{
    lemma_counter_keys_differ, AVAILABLE_CREDITS_KEY, MINTED_CREDITS_KEY, RETIRED_CREDITS_KEY,
};
use crate::decimal::{decimal_string, lemma_write_then_read, parse_u64, u64_to_string};
use crate::error::MyErrorCode;
use crate::ledger::{ledger_of, lemma_ledger_written_is_read, with_ledger, CreditLedger};
use crate::metadata::{field_value, lemma_read_after_write, with_field};
use crate::token::{Mint, TokenAccount};
use vstd::prelude::*;

verus! {

/// The role that a capability token grants or records.
#[derive(Clone, Copy, Debug, PartialEq, Eq, Structural)]
pub enum CertificateKind {
    /// The right to mint credits within a quota.
    Minter,
    /// The right to hold and receive credit tokens.
    Consumer,
    /// The proof that `amount` credits were retired.
    Retirement { amount: u64 },
}

/// The counters of a certificate that has just been issued.
pub open spec fn fresh_ledger() -> CreditLedger {
    CreditLedger { available: 0, minted: 0 }
}

/// The fields after the initial fields of a certificate of the kind are
/// written into `fields`: both counters at `0` for minters and consumers,
/// the retired amount for a retirement certificate.
pub open spec fn with_initial_fields(
    fields: Seq<(Seq<char>, Seq<char>)>,
    kind: CertificateKind,
) -> Seq<(Seq<char>, Seq<char>)> {
    match kind {
        CertificateKind::Retirement { amount } => with_field(
            fields,
            RETIRED_CREDITS_KEY@,
            decimal_string(amount as nat),
        ),
        _ => with_ledger(fields, fresh_ledger()),
    }
}

/// The additional metadata that a certificate of the kind starts with.
pub open spec fn initial_fields(kind: CertificateKind) -> Seq<(Seq<char>, Seq<char>)> {
    with_initial_fields(Seq::empty(), kind)
}

/// `mint` and `account` are a certificate right after issuance: one unit,
/// held by `holder`, minting revoked, the authority record `authority` in
/// charge of metadata, and the initial fields of its kind.
pub open spec fn is_certificate(
    mint: Mint,
    account: TokenAccount,
    mint_address: Seq<u8>,
    authority: Seq<u8>,
    holder: Seq<u8>,
    name: Seq<char>,
    symbol: Seq<char>,
    uri: Seq<char>,
    kind: CertificateKind,
) -> bool {
    &&& mint.address@ == mint_address
    &&& mint.decimals == 0
    &&& mint.supply == 1
    &&& mint.is_frozen()
    &&& mint.may_update(authority)
    &&& (mint.close_authority matches Some(a) && a@ == authority)
    &&& (mint.permanent_delegate matches Some(a) && a@ == authority)
    &&& mint.transfer_hook is None
    &&& mint.transfer_fee is None
    &&& mint.name@ == name
    &&& mint.symbol@ == symbol
    &&& mint.uri@ == uri
    &&& mint.fields() == initial_fields(kind)
    &&& account.mint@ == mint_address
    &&& account.owner@ == holder
    &&& account.amount == 1
}

/// The counters of a minter or consumer certificate read `0` and `0` right
/// after issuance, and the retired amount of a retirement certificate reads
/// the amount it was issued for.
pub proof fn lemma_initial_fields_read(kind: CertificateKind)
    ensures
        kind !is Retirement ==> ledger_of(initial_fields(kind)) == Some(fresh_ledger()),
        kind !is Retirement ==> field_value(initial_fields(kind), AVAILABLE_CREDITS_KEY@) == Some(
            "0"@,
        ),
        kind !is Retirement ==> field_value(initial_fields(kind), MINTED_CREDITS_KEY@) == Some(
            "0"@,
        ),
        kind matches CertificateKind::Retirement { amount } ==> initial_fields(kind) == seq![
            (RETIRED_CREDITS_KEY@, decimal_string(amount as nat)),
        ] && field_value(initial_fields(kind), RETIRED_CREDITS_KEY@) == Some(
            decimal_string(amount as nat),
        ) && parse_u64(decimal_string(amount as nat)) == Some(amount),
{
    lemma_counter_keys_differ();
    reveal_strlit("0");
    assert("0"@ =~= decimal_string(0));
    match kind {
        CertificateKind::Retirement { amount } => {
            let empty = Seq::<(Seq<char>, Seq<char>)>::empty();
            lemma_read_after_write(empty, RETIRED_CREDITS_KEY@, decimal_string(amount as nat));
            lemma_write_then_read(amount);
            assert(!crate::metadata::has_field(empty, RETIRED_CREDITS_KEY@));
            assert(initial_fields(kind) =~= seq![
                (RETIRED_CREDITS_KEY@, decimal_string(amount as nat)),
            ]);
        },
        _ => {
            let empty = Seq::<(Seq<char>, Seq<char>)>::empty();
            lemma_ledger_written_is_read(empty, fresh_ledger());
            let first = with_field(empty, AVAILABLE_CREDITS_KEY@, decimal_string(0));
            lemma_read_after_write(empty, AVAILABLE_CREDITS_KEY@, decimal_string(0));
            crate::metadata::lemma_write_keeps_others(
                first,
                MINTED_CREDITS_KEY@,
                decimal_string(0),
                AVAILABLE_CREDITS_KEY@,
            );
            lemma_read_after_write(first, MINTED_CREDITS_KEY@, decimal_string(0));
        },
    }
}

/// Right after issuance a certificate reads `0` in both counters, or holds
/// neither counter if it records a retirement; its supply is one, and its
/// mint is frozen: nobody may mint it any more.
pub proof fn lemma_fresh_certificate(
    mint: Mint,
    account: TokenAccount,
    mint_address: Seq<u8>,
    authority: Seq<u8>,
    holder: Seq<u8>,
    name: Seq<char>,
    symbol: Seq<char>,
    uri: Seq<char>,
    kind: CertificateKind,
)
    requires
        is_certificate(mint, account, mint_address, authority, holder, name, symbol, uri, kind),
    ensures
        kind !is Retirement ==> field_value(mint.fields(), AVAILABLE_CREDITS_KEY@) == Some("0"@),
        kind !is Retirement ==> field_value(mint.fields(), MINTED_CREDITS_KEY@) == Some("0"@),
        kind !is Retirement ==> ledger_of(mint.fields()) == Some(
            CreditLedger { available: 0, minted: 0 },
        ),
        kind is Retirement ==> field_value(mint.fields(), AVAILABLE_CREDITS_KEY@) is None,
        kind is Retirement ==> field_value(mint.fields(), MINTED_CREDITS_KEY@) is None,
        mint.supply == 1,
        account.amount == 1,
        forall|signer: Seq<u8>| !mint.may_mint(signer),
{
    lemma_initial_fields_read(kind);
    lemma_counter_keys_differ();
    if let CertificateKind::Retirement { amount } = kind {
        let empty = Seq::<(Seq<char>, Seq<char>)>::empty();
        assert(!crate::metadata::has_field(empty, AVAILABLE_CREDITS_KEY@));
        assert(!crate::metadata::has_field(empty, MINTED_CREDITS_KEY@));
        crate::metadata::lemma_write_keeps_others(
            empty,
            RETIRED_CREDITS_KEY@,
            decimal_string(amount as nat),
            AVAILABLE_CREDITS_KEY@,
        );
        crate::metadata::lemma_write_keeps_others(
            empty,
            RETIRED_CREDITS_KEY@,
            decimal_string(amount as nat),
            MINTED_CREDITS_KEY@,
        );
    }
}

/// Writes the initial fields of a certificate of the kind, signed by
/// `signer` for the authority record.
pub fn write_initial_fields(mint: &mut Mint, signer: &Address, kind: CertificateKind) -> (r: Result<
    (),
    MyErrorCode,
>)
    ensures
        r is Ok <==> old(mint).may_update(signer@),
        r is Err ==> r == Err::<(), MyErrorCode>(MyErrorCode::Unauthorized) && *final(mint) == *old(
            mint,
        ),
        r is Ok ==> final(mint).fields() == with_initial_fields(old(mint).fields(), kind),
        r is Ok ==> final(mint).same_but_fields(*old(mint)),
{
    match kind {
        CertificateKind::Retirement { amount } => mint.update_field(
            signer,
            String::from_str(RETIRED_CREDITS_KEY),
            u64_to_string(amount),
        ),
        _ => {
            proof {
                reveal_strlit("0");
                assert("0"@ =~= decimal_string(0));
            }
            match mint.update_field(
                signer,
                String::from_str(AVAILABLE_CREDITS_KEY),
                String::from_str("0"),
            ) {
                Ok(()) => {},
                Err(e) => {
                    return Err(e);
                },
            }
            mint.update_field(signer, String::from_str(MINTED_CREDITS_KEY), String::from_str("0"))
        },
    }
}

/// Mints the single unit of a certificate into `to` and revokes minting, so
/// that the supply stays at one for good. Either both take effect or neither.
pub fn mint_and_send_nft(mint: &mut Mint, signer: &Address, to: &mut TokenAccount) -> (r: Result<
    (),
    MyErrorCode,
>)
    ensures
        r == (if !old(mint).may_mint(signer@) || old(to).mint@ != old(mint).address@ {
            Err::<(), MyErrorCode>(MyErrorCode::Unauthorized)
        } else if old(mint).supply + 1 > u64::MAX || old(to).amount + 1 > u64::MAX {
            Err(MyErrorCode::Overflow)
        } else {
            Ok(())
        }),
        r is Err ==> *final(mint) == *old(mint) && *final(to) == *old(to),
        r is Ok ==> *final(mint) == (Mint {
            supply: (old(mint).supply + 1) as u64,
            mint_authority: None,
            ..*old(mint)
        }),
        r is Ok ==> *final(to) == (TokenAccount {
            amount: (old(to).amount + 1) as u64,
            ..*old(to)
        }),
{
    match mint.mint_to(signer, to, 1) {
        Ok(()) => {},
        Err(e) => {
            return Err(e);
        },
    }
    match mint.revoke_mint_authority(signer) {
        Ok(()) => Ok(()),
        Err(e) => Err(e),
    }
}

/// Issues a certificate of the kind to `holder`: creates its mint under the
/// authority record `authority`, attaches the metadata and the initial
/// fields, mints the single unit and freezes the mint. On a mint of its own
/// making no step can be refused, so the result is always `Ok`.
pub fn issue_certificate(
    mint_address: Address,
    authority: Address,
    holder: Address,
    name: String,
    symbol: String,
    uri: String,
    kind: CertificateKind,
) -> (r: Result<(Mint, TokenAccount), MyErrorCode>)
    ensures
        r matches Ok((mint, account)) && is_certificate(
            mint,
            account,
            mint_address@,
            authority@,
            holder@,
            name@,
            symbol@,
            uri@,
            kind,
        ),
{
    let mut mint = Mint::create(mint_address, 0, authority);
    mint.permanent_delegate = Some(authority);
    match mint.initialize_metadata(&authority, name, symbol, uri) {
        Ok(()) => {},
        Err(e) => {
            return Err(e);
        },
    }
    match write_initial_fields(&mut mint, &authority, kind) {
        Ok(()) => {},
        Err(e) => {
            return Err(e);
        },
    }
    let mut account = TokenAccount::open(mint_address, holder);
    match mint_and_send_nft(&mut mint, &authority, &mut account) {
        Ok(()) => {},
        Err(e) => {
            return Err(e);
        },
    }
    Ok((mint, account))
}

/// Issues a certificate of the kind to `holder` under the authority record
/// `record` with its stored `bump`. The signer is recomputed from the
/// record's seeds and the bump; where they derive no address, nothing is
/// issued.
pub fn issue_certificate_under(
    record: &AuthorityRecord,
    bump: u8,
    program_id: &Address,
    mint_address: Address,
    holder: Address,
    name: String,
    symbol: String,
    uri: String,
    kind: CertificateKind,
) -> (r: Result<(Mint, TokenAccount), MyErrorCode>)
    ensures
        r is Ok <==> program_address(with_bump(record.seeds(), bump), program_id@) is Some,
        r is Err ==> r == Err::<(Mint, TokenAccount), MyErrorCode>(MyErrorCode::Unauthorized),
        r matches Ok((mint, account)) ==> is_certificate(
            mint,
            account,
            mint_address@,
            program_address(with_bump(record.seeds(), bump), program_id@)->Some_0,
            holder@,
            name@,
            symbol@,
            uri@,
            kind,
        ),
{
    match record.signer(bump, program_id) {
        Some(signer) => issue_certificate(mint_address, signer, holder, name, symbol, uri, kind),
        None => Err(MyErrorCode::Unauthorized),
    }
}

} // verus!
