use crate::address::Address;
use crate::authority::{bump_of, check_derived, derives_to, seeds1};
use crate::certificate::{is_certificate, issue_certificate, CertificateKind};
use crate::constants::{AVAILABLE_CREDITS_KEY, MINTED_CREDITS_KEY, MINTER_NFT_SEED};
use crate::error::MyErrorCode;
use crate::space::{metadata_space, metadata_tlv_len, SpaceError};
use crate::state::{GovernanceConfig, MinterController};
use crate::token::{Mint, TokenAccount};
use vstd::prelude::*;

verus! {

/// What the issuance of a minter certificate works on: the governance
/// authority that signs, the receiver, and the three slots that the issuance
/// fills.
#[derive(Clone, Debug, PartialEq, Eq)]
pub struct IssueMinterCert {
    pub program_id: Address,
    /// The principal that signs the issuance.
    pub authority: Address,
    pub config_account: GovernanceConfig,
    pub receiver: Address,
    /// The credit-token mint that the minter is to work against.
    pub rwa_mint: Address,
    /// Address of the controller record of the new certificate.
    pub controller_address: Address,
    /// Address of the mint of the new certificate.
    pub mint_address: Address,
    /// The controller record, `None` while it does not exist.
    pub minter_controller: Option<MinterController>,
    /// The certificate mint, `None` while it does not exist.
    pub mint: Option<Mint>,
    /// The receiver's holding account, `None` while it does not exist.
    pub receiver_token_account: Option<TokenAccount>,
}

impl IssueMinterCert {
    /// The certificate mint stands at the address derived for the receiver,
    /// and the controller at the address derived for the certificate mint.
    pub open spec fn addresses_agree(&self) -> bool {
        &&& derives_to(
            seeds1(MINTER_NFT_SEED@, self.receiver@),
            self.program_id@,
            self.mint_address@,
        )
        &&& derives_to(
            seeds1(MINTER_NFT_SEED@, self.mint_address@),
            self.program_id@,
            self.controller_address@,
        )
    }

    /// The bump of the controller's address.
    pub open spec fn controller_bump(&self) -> u8 {
        bump_of(seeds1(MINTER_NFT_SEED@, self.mint_address@), self.program_id@)
    }

    /// Whether the issuance goes through: the signer must be the governance
    /// authority, and none of the three slots may be taken.
    pub open spec fn outcome(&self) -> Result<(), MyErrorCode> {
        if !self.config_account.is_initialized || self.config_account.authority@
            != self.authority@ {
            Err(MyErrorCode::Unauthorized)
        } else if self.minter_controller is Some || self.mint is Some
            || self.receiver_token_account is Some {
            Err(MyErrorCode::AlreadyExists)
        } else {
            Ok(())
        }
    }

    /// The state after an issuance out of `before`: the controller binds the
    /// certificate to the receiver, and the mint and the holding account are
    /// a fresh minter certificate.
    pub open spec fn is_issued_from(
        &self,
        before: IssueMinterCert,
        bump: u8,
        name: Seq<char>,
        symbol: Seq<char>,
        uri: Seq<char>,
    ) -> bool {
        &&& self.minter_controller == Some(
            MinterController {
                rwa_mint: before.rwa_mint,
                mint: before.mint_address,
                user: before.receiver,
                bump,
            },
        )
        &&& self.mint is Some
        &&& self.receiver_token_account is Some
        &&& is_certificate(
            self.mint->Some_0,
            self.receiver_token_account->Some_0,
            before.mint_address@,
            before.controller_address@,
            before.receiver@,
            name,
            symbol,
            uri,
            CertificateKind::Minter,
        )
        &&& self.program_id == before.program_id
        &&& self.authority == before.authority
        &&& self.config_account == before.config_account
        &&& self.receiver == before.receiver
        &&& self.rwa_mint == before.rwa_mint
        &&& self.controller_address == before.controller_address
        &&& self.mint_address == before.mint_address
    }

    /// Issues a minter certificate to the receiver. The two addresses are
    /// searched for again and compared before anything is created.
    pub fn handler(&mut self, name: String, symbol: String, uri: String) -> (r: Result<
        (),
        MyErrorCode,
    >)
        ensures
            r is Err ==> *final(self) == *old(self),
            !old(self).addresses_agree() ==> r == Err::<(), MyErrorCode>(
                MyErrorCode::Unauthorized,
            ),
            old(self).addresses_agree() ==> r == old(self).outcome(),
            r is Ok ==> final(self).is_issued_from(
                *old(self),
                old(self).controller_bump(),
                name@,
                symbol@,
                uri@,
            ),
    {
        if check_derived(
            MINTER_NFT_SEED.as_slice(),
            Some(&self.receiver),
            None,
            &self.program_id,
            &self.mint_address,
        ).is_none() {
            return Err(MyErrorCode::Unauthorized);
        }
        match check_derived(
            MINTER_NFT_SEED.as_slice(),
            Some(&self.mint_address),
            None,
            &self.program_id,
            &self.controller_address,
        ) {
            None => Err(MyErrorCode::Unauthorized),
            Some(bump) => self.issue(name, symbol, uri, bump),
        }
    }

    /// Issues a minter certificate to the receiver, with `bump` as the bump
    /// of the controller's address. Either every step takes effect or none.
    pub fn issue(&mut self, name: String, symbol: String, uri: String, bump: u8) -> (r: Result<
        (),
        MyErrorCode,
    >)
        ensures
            r == old(self).outcome(),
            r is Err ==> *final(self) == *old(self),
            r is Ok ==> final(self).is_issued_from(*old(self), bump, name@, symbol@, uri@),
    {
        if !self.config_account.is_initialized || !self.config_account.authority.same(
            &self.authority,
        ) {
            return Err(MyErrorCode::Unauthorized);
        }
        if self.minter_controller.is_some() || self.mint.is_some()
            || self.receiver_token_account.is_some() {
            return Err(MyErrorCode::AlreadyExists);
        }
        match issue_certificate(
            self.mint_address,
            self.controller_address,
            self.receiver,
            name,
            symbol,
            uri,
            CertificateKind::Minter,
        ) {
            Ok((mint, account)) => {
                self.minter_controller = Some(
                    MinterController {
                        rwa_mint: self.rwa_mint,
                        mint: self.mint_address,
                        user: self.receiver,
                        bump,
                    },
                );
                self.mint = Some(mint);
                self.receiver_token_account = Some(account);
                Ok(())
            },
            Err(e) => Err(e),
        }
    }

    /// The storage that the certificate's metadata takes with both counters
    /// at `0`. It has to be paid for before the first field is written.
    pub fn update_account_lamports_by_metadata(&self, name: &str, symbol: &str, uri: &str) -> (r:
        Result<usize, SpaceError>)
        ensures
            r matches Ok(n) ==> n == metadata_tlv_len(
                name@,
                symbol@,
                uri@,
                seq![(AVAILABLE_CREDITS_KEY@, "0"@), (MINTED_CREDITS_KEY@, "0"@)],
            ),
            r is Err ==> r == Err::<usize, SpaceError>(SpaceError::NoSize),
            metadata_tlv_len(
                name@,
                symbol@,
                uri@,
                seq![(AVAILABLE_CREDITS_KEY@, "0"@), (MINTED_CREDITS_KEY@, "0"@)],
            ) <= u32::MAX ==> r is Ok,
    {
        let mut fields: Vec<(String, String)> = Vec::new();
        fields.push((String::from_str(AVAILABLE_CREDITS_KEY), String::from_str("0")));
        fields.push((String::from_str(MINTED_CREDITS_KEY), String::from_str("0")));
        assert(fields.deep_view() =~= seq![
            (AVAILABLE_CREDITS_KEY@, "0"@),
            (MINTED_CREDITS_KEY@, "0"@),
        ]);
        metadata_space(&self.controller_address, &self.mint_address, name, symbol, uri, &fields)
    }
}

/// After an issuance, a second issuance at the same addresses is refused
/// because the certificate exists.
pub proof fn lemma_second_issuance_refused(
    before: IssueMinterCert,
    after: IssueMinterCert,
    bump: u8,
    name: Seq<char>,
    symbol: Seq<char>,
    uri: Seq<char>,
)
    requires
        before.outcome() is Ok,
        after.is_issued_from(before, bump, name, symbol, uri),
    ensures
        after.outcome() == Err::<(), MyErrorCode>(MyErrorCode::AlreadyExists),
{
}

} // verus!
