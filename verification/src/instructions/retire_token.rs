use crate::address::{is_address, Address};
use crate::authority::{opt_view, program_address, seeds1, signer_address, with_bump};
use crate::certificate::{is_certificate, issue_certificate, CertificateKind};
use crate::constants::{
    MINT_AUTHORITY_SEED, RETIRED_CREDITS_CERT_NAME, RETIRED_CREDITS_CERT_SYMBOL,
    RETIRED_CREDITS_KEY,
};
use crate::decimal::{decimal_string, u64_to_string};
use crate::error::MyErrorCode;
use crate::space::{
    certificate_account_space, fields_len, metadata_tlv_len, mint_account_len, MintExtension,
    SpaceError,
};
use crate::state::MintAuthority;
use crate::token::{Mint, TokenAccount};
use vstd::prelude::*;

verus! {

/// What a retirement works on: the consumer that signs, the credit token
/// with its authority record, the consumer's holding account, and the two
/// slots of the retirement certificate.
#[derive(Clone, Debug, PartialEq, Eq)]
pub struct RetireToken {
    pub program_id: Address,
    /// The principal that signs the burn and receives the certificate.
    pub consumer: Address,
    pub mint_authority: MintAuthority,
    /// The credit-token mint.
    pub mint: Mint,
    pub consumer_token_account: TokenAccount,
    /// Address of the mint of the retirement certificate.
    pub nft_mint_address: Address,
    /// The certificate mint, `None` while it does not exist.
    pub nft_mint: Option<Mint>,
    /// The consumer's holding account for the certificate, `None` while it
    /// does not exist.
    pub consumer_nft_token_account: Option<TokenAccount>,
    pub transfer_hook_program: Address,
}

impl RetireToken {
    /// The authority record is that of the credit token and names the hook
    /// presented, and the holding account holds the credit token for the
    /// consumer.
    pub open spec fn accounts_agree(&self) -> bool {
        &&& self.mint_authority.mint@ == self.mint.address@
        &&& (self.mint_authority.transfer_hook matches Some(h) && h@
            == self.transfer_hook_program@)
        &&& self.consumer_token_account.mint@ == self.mint.address@
        &&& self.consumer_token_account.owner@ == self.consumer@
    }

    /// The address that signs for the certificate: that of the authority
    /// record of the credit token, derived from the role tag of mint
    /// authorities, the mint and the stored bump.
    pub open spec fn authority_signer(&self) -> Option<Seq<u8>> {
        program_address(
            with_bump(seeds1(MINT_AUTHORITY_SEED@, self.mint.address@), self.mint_authority.bump),
            self.program_id@,
        )
    }

    /// Whether a retirement of `amount` goes through when `signer` signs for
    /// the certificate, or the first reason for refusing: the amount, the
    /// accounts, the balance, the supply, the slots, the signer.
    pub open spec fn outcome(&self, amount: u64, signer: Option<Seq<u8>>) -> Result<
        (),
        MyErrorCode,
    > {
        if amount == 0 {
            Err(MyErrorCode::InvalidAmount)
        } else if !self.accounts_agree() {
            Err(MyErrorCode::Unauthorized)
        } else if self.consumer_token_account.amount < amount {
            Err(MyErrorCode::InsufficientBalance)
        } else if self.mint.supply < amount {
            Err(MyErrorCode::Overflow)
        } else if self.nft_mint is Some || self.consumer_nft_token_account is Some {
            Err(MyErrorCode::AlreadyExists)
        } else if signer is None {
            Err(MyErrorCode::Unauthorized)
        } else {
            Ok(())
        }
    }

    /// The state after `amount` was retired out of `before`: balance and
    /// supply fell by `amount`, the credit token is otherwise as it was, and
    /// the two slots hold a fresh retirement certificate for `amount`.
    pub open spec fn is_retired_from(&self, before: RetireToken, amount: u64, signer: Seq<u8>) -> bool {
        &&& self.mint == (Mint { supply: (before.mint.supply - amount) as u64, ..before.mint })
        &&& self.consumer_token_account == (TokenAccount {
            amount: (before.consumer_token_account.amount - amount) as u64,
            ..before.consumer_token_account
        })
        &&& self.nft_mint is Some
        &&& self.consumer_nft_token_account is Some
        &&& is_certificate(
            self.nft_mint->Some_0,
            self.consumer_nft_token_account->Some_0,
            before.nft_mint_address@,
            signer,
            before.consumer@,
            RETIRED_CREDITS_CERT_NAME@,
            RETIRED_CREDITS_CERT_SYMBOL@,
            ""@,
            CertificateKind::Retirement { amount },
        )
        &&& self.program_id == before.program_id
        &&& self.consumer == before.consumer
        &&& self.mint_authority == before.mint_authority
        &&& self.nft_mint_address == before.nft_mint_address
        &&& self.transfer_hook_program == before.transfer_hook_program
    }

    /// Retires `amount` credit tokens of the consumer and issues the
    /// retirement certificate. The signing address of the authority record
    /// is recomputed from its role tag, the mint and the stored bump.
    pub fn handler(&mut self, amount: u64) -> (r: Result<(), MyErrorCode>)
        ensures
            r == old(self).outcome(amount, old(self).authority_signer()),
            r is Err ==> *final(self) == *old(self),
            r is Ok ==> final(self).is_retired_from(
                *old(self),
                amount,
                old(self).authority_signer()->Some_0,
            ),
    {
        if amount == 0 {
            return Err(MyErrorCode::InvalidAmount);
        }
        let signer = signer_address(
            MINT_AUTHORITY_SEED.as_slice(),
            &self.mint.address,
            self.mint_authority.bump,
            &self.program_id,
        );
        self.retire(amount, signer)
    }

    /// Tests whether the accounts belong together.
    pub fn check_accounts(&self) -> (r: bool)
        ensures
            r == self.accounts_agree(),
    {
        self.mint_authority.mint.same(&self.mint.address) && is_address(
            &self.mint_authority.transfer_hook,
            &self.transfer_hook_program,
        ) && self.consumer_token_account.mint.same(&self.mint.address)
            && self.consumer_token_account.owner.same(&self.consumer)
    }

    /// Retires `amount` credit tokens of the consumer and issues the
    /// retirement certificate under `signer`. Either every step takes effect
    /// or none.
    pub fn retire(&mut self, amount: u64, signer: Option<Address>) -> (r: Result<(), MyErrorCode>)
        ensures
            r == old(self).outcome(amount, opt_view(signer)),
            r is Err ==> *final(self) == *old(self),
            r is Ok ==> final(self).is_retired_from(*old(self), amount, opt_view(signer)->Some_0),
    {
        if amount == 0 {
            return Err(MyErrorCode::InvalidAmount);
        }
        if !self.check_accounts() {
            return Err(MyErrorCode::Unauthorized);
        }
        if self.consumer_token_account.amount < amount {
            return Err(MyErrorCode::InsufficientBalance);
        }
        if self.mint.supply < amount {
            return Err(MyErrorCode::Overflow);
        }
        if self.nft_mint.is_some() || self.consumer_nft_token_account.is_some() {
            return Err(MyErrorCode::AlreadyExists);
        }
        let signer = match signer {
            Some(s) => s,
            None => {
                return Err(MyErrorCode::Unauthorized);
            },
        };
        let (certificate, account) = match issue_certificate(
            self.nft_mint_address,
            signer,
            self.consumer,
            String::from_str(RETIRED_CREDITS_CERT_NAME),
            String::from_str(RETIRED_CREDITS_CERT_SYMBOL),
            String::from_str(""),
            CertificateKind::Retirement { amount },
        ) {
            Ok(pair) => pair,
            Err(e) => {
                return Err(e);
            },
        };
        match self.burn_token(amount) {
            Ok(()) => {},
            Err(e) => {
                return Err(e);
            },
        }
        self.nft_mint = Some(certificate);
        self.consumer_nft_token_account = Some(account);
        Ok(())
    }

    /// Burns `amount` credit tokens out of the consumer's holding account,
    /// signed by the consumer.
    pub fn burn_token(&mut self, amount: u64) -> (r: Result<(), MyErrorCode>)
        ensures
            r == (if old(self).consumer_token_account.owner@ != old(self).consumer@ || old(
                self,
            ).consumer_token_account.mint@ != old(self).mint.address@ {
                Err::<(), MyErrorCode>(MyErrorCode::Unauthorized)
            } else if old(self).consumer_token_account.amount < amount {
                Err(MyErrorCode::InsufficientBalance)
            } else if old(self).mint.supply < amount {
                Err(MyErrorCode::Overflow)
            } else {
                Ok(())
            }),
            r is Err ==> *final(self) == *old(self),
            r is Ok ==> *final(self) == (RetireToken {
                mint: Mint { supply: (old(self).mint.supply - amount) as u64, ..old(self).mint },
                consumer_token_account: TokenAccount {
                    amount: (old(self).consumer_token_account.amount - amount) as u64,
                    ..old(self).consumer_token_account
                },
                ..*old(self)
            }),
    {
        let consumer = self.consumer;
        self.mint.burn(&consumer, &mut self.consumer_token_account, amount)
    }

    /// The storage that the retirement certificate takes: its mint with the
    /// metadata pointer, and its metadata with the retired amount. It has to
    /// be paid for before the first field is written. The size is owed
    /// wherever the token service gives a size for the mint and the sum fits.
    pub fn update_account_lamports_by_extensions(&self, amount: u64, signer: &Address) -> (r:
        Result<usize, SpaceError>)
        ensures
            r == retirement_space(
                mint_account_len(seq![MintExtension::MetadataPointer.spec_code()]),
                amount,
            ),
    {
        let mut fields: Vec<(String, String)> = Vec::new();
        fields.push((String::from_str(RETIRED_CREDITS_KEY), u64_to_string(amount)));
        assert(fields.deep_view() =~= seq![
            (RETIRED_CREDITS_KEY@, decimal_string(amount as nat)),
        ]);
        proof {
            lemma_retirement_metadata_len(amount);
        }
        certificate_account_space(
            signer,
            &self.nft_mint_address,
            RETIRED_CREDITS_CERT_NAME,
            RETIRED_CREDITS_CERT_SYMBOL,
            "",
            &fields,
        )
    }
}

/// The size of the metadata of a retirement certificate for `amount`.
pub open spec fn retirement_metadata_len(amount: u64) -> nat {
    metadata_tlv_len(
        RETIRED_CREDITS_CERT_NAME@,
        RETIRED_CREDITS_CERT_SYMBOL@,
        ""@,
        seq![(RETIRED_CREDITS_KEY@, decimal_string(amount as nat))],
    )
}

/// The size of the account of a retirement certificate for `amount`, where
/// `base` is the size that the token service gives for a mint with the
/// metadata pointer: the sum of the two sizes, or no size where the token
/// service gives none or the sum does not fit.
pub open spec fn retirement_space(base: Option<nat>, amount: u64) -> Result<usize, SpaceError> {
    match base {
        Some(base) => if base + retirement_metadata_len(amount) <= usize::MAX {
            Ok((base + retirement_metadata_len(amount)) as usize)
        } else {
            Err(SpaceError::NoSize)
        },
        None => Err(SpaceError::NoSize),
    }
}

/// The metadata of a retirement certificate takes 145 bytes and one byte
/// for each decimal digit of the retired amount: between 146 and 165 bytes.
pub proof fn lemma_retirement_metadata_len(amount: u64)
    ensures
        retirement_metadata_len(amount) == 145 + decimal_string(amount as nat).len(),
        146 <= retirement_metadata_len(amount) <= 165,
{
    reveal_strlit("Retired Credits Certificate");
    reveal_strlit("RCC");
    reveal_strlit("");
    reveal_strlit("retired_credits");
    crate::decimal::lemma_counter_text(amount);
    let name = RETIRED_CREDITS_CERT_NAME@;
    let symbol = RETIRED_CREDITS_CERT_SYMBOL@;
    let key = RETIRED_CREDITS_KEY@;
    assert(name.len() == 27);
    assert(symbol.len() == 3);
    assert(key.len() == 15);
    assert(""@.len() == 0);
    assert(vstd::utf8::is_ascii_chars(name));
    assert(vstd::utf8::is_ascii_chars(symbol));
    assert(vstd::utf8::is_ascii_chars(key));
    assert(vstd::utf8::is_ascii_chars(""@));
    vstd::utf8::is_ascii_chars_encode_utf8(name);
    vstd::utf8::is_ascii_chars_encode_utf8(symbol);
    vstd::utf8::is_ascii_chars_encode_utf8(key);
    vstd::utf8::is_ascii_chars_encode_utf8(""@);
    let fields = seq![(key, decimal_string(amount as nat))];
    assert(fields.drop_last() =~= Seq::<(Seq<char>, Seq<char>)>::empty());
    assert(fields_len(fields.drop_last()) == 0);
    assert(fields.last() == (key, decimal_string(amount as nat)));
}

/// A retirement of `amount` out of a balance of at least `amount` leaves
/// the balance less `amount`, issues one frozen certificate of supply one
/// whose retired amount reads `amount`, and leaves the metadata of the
/// credit token as it was.
pub proof fn lemma_retirement_accounting(
    before: RetireToken,
    after: RetireToken,
    amount: u64,
    signer: Seq<u8>,
)
    requires
        before.outcome(amount, Some(signer)) is Ok,
        after.is_retired_from(before, amount, signer),
    ensures
        before.consumer_token_account.amount >= amount,
        after.consumer_token_account.amount == before.consumer_token_account.amount - amount,
        after.mint.supply == before.mint.supply - amount,
        after.mint.fields() == before.mint.fields(),
        before.nft_mint is None,
        after.nft_mint is Some,
        after.nft_mint->Some_0.supply == 1,
        after.nft_mint->Some_0.is_frozen(),
        after.consumer_nft_token_account->Some_0.amount == 1,
        after.consumer_nft_token_account->Some_0.owner@ == before.consumer@,
        crate::metadata::field_value(after.nft_mint->Some_0.fields(), RETIRED_CREDITS_KEY@)
            == Some(decimal_string(amount as nat)),
        crate::decimal::parse_u64(decimal_string(amount as nat)) == Some(amount),
{
    crate::certificate::lemma_initial_fields_read(CertificateKind::Retirement { amount });
}

} // verus!
