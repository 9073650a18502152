use crate::address::{is_address, Address};
use crate::authority::{opt_view, program_address, seeds1, signer_address, with_bump};
use crate::constants::{
    AVAILABLE_CREDITS_KEY, MINTED_CREDITS_KEY, MINTER_NFT_SEED, MINT_AUTHORITY_SEED,
};
use crate::decimal::u64_to_string;
use crate::error::MyErrorCode;
use crate::ledger::{
    admission, check_admission, decide_mint, ledger_of, lemma_ledger_written_is_read, mint_decision,
    with_ledger, CreditLedger,
};
use crate::state::{MintAuthority, MinterController};
use crate::token::{Mint, TokenAccount};
use vstd::prelude::*;

verus! {

/// What a credit mint works on: the minter and its certificate, the
/// credit-token mint with its authority record, and the receiving account.
#[derive(Clone, Debug, PartialEq, Eq)]
pub struct MintRwaToken {
    pub program_id: Address,
    /// The principal that asks for the mint and signs for it.
    pub minter: Address,
    pub receiver: Address,
    pub minter_controller: MinterController,
    pub mint_authority: MintAuthority,
    pub rwa_mint: Mint,
    pub receiver_token_account: TokenAccount,
    /// The minter's certificate, whose metadata holds the counters.
    pub minter_nft_mint: Mint,
    pub minter_nft_token_account: TokenAccount,
}

impl MintRwaToken {
    /// The records, mints and holding accounts belong together: the
    /// controller is that of the certificate and of the minter, the authority
    /// record is that of the credit token, the receiving account holds the
    /// credit token for the receiver, and the minter holds the single unit
    /// of its certificate.
    pub open spec fn accounts_agree(&self) -> bool {
        &&& self.minter_controller.mint@ == self.minter_nft_mint.address@
        &&& self.minter_controller.user@ == self.minter@
        &&& self.mint_authority.mint@ == self.rwa_mint.address@
        &&& self.rwa_mint.decimals == 0
        &&& self.receiver_token_account.mint@ == self.rwa_mint.address@
        &&& self.receiver_token_account.owner@ == self.receiver@
        &&& self.minter_nft_mint.decimals == 0
        &&& self.minter_nft_mint.supply == 1
        &&& self.minter_nft_token_account.mint@ == self.minter_nft_mint.address@
        &&& self.minter_nft_token_account.owner@ == self.minter@
        &&& self.minter_nft_token_account.amount == 1
    }

    /// Tests whether the accounts belong together.
    pub fn check_accounts(&self) -> (r: bool)
        ensures
            r == self.accounts_agree(),
    {
        self.minter_controller.mint.same(&self.minter_nft_mint.address)
            && self.minter_controller.user.same(&self.minter) && self.mint_authority.mint.same(
            &self.rwa_mint.address,
        ) && self.rwa_mint.decimals == 0 && self.receiver_token_account.mint.same(
            &self.rwa_mint.address,
        ) && self.receiver_token_account.owner.same(&self.receiver)
            && self.minter_nft_mint.decimals == 0 && self.minter_nft_mint.supply == 1
            && self.minter_nft_token_account.mint.same(&self.minter_nft_mint.address)
            && self.minter_nft_token_account.owner.same(&self.minter)
            && self.minter_nft_token_account.amount == 1
    }

    /// What a mint of `amount` comes to when `mint_signer` signs for the
    /// credit token and `controller_signer` for the certificate: the counters
    /// to write back, or the first reason for refusing. The order is: the
    /// amount; the accounts; admission against the quota; the right and the
    /// room to mint; the right to update the certificate; the running total.
    pub open spec fn outcome(
        &self,
        amount: u64,
        mint_signer: Option<Seq<u8>>,
        controller_signer: Option<Seq<u8>>,
    ) -> Result<CreditLedger, MyErrorCode> {
        if amount == 0 {
            Err(MyErrorCode::InvalidAmount)
        } else if !self.accounts_agree() {
            Err(MyErrorCode::Unauthorized)
        } else if admission(self.minter_nft_mint.fields(), amount) is Err {
            Err(admission(self.minter_nft_mint.fields(), amount)->Err_0)
        } else if !(mint_signer matches Some(s) && self.rwa_mint.may_mint(s)) {
            Err(MyErrorCode::Unauthorized)
        } else if self.rwa_mint.supply + amount > u64::MAX || self.receiver_token_account.amount
            + amount > u64::MAX {
            Err(MyErrorCode::Overflow)
        } else if !(controller_signer matches Some(c) && self.minter_nft_mint.may_update(c)) {
            Err(MyErrorCode::Unauthorized)
        } else {
            mint_decision(self.minter_nft_mint.fields(), amount)
        }
    }

    /// The state after a mint of `amount` out of `before` that wrote back
    /// `ledger`: supply and receiver balance grew by `amount`, the
    /// certificate holds the new counters, and nothing else changed.
    pub open spec fn is_minted_from(&self, before: MintRwaToken, amount: u64, ledger: CreditLedger) -> bool {
        &&& self.rwa_mint == (Mint {
            supply: (before.rwa_mint.supply + amount) as u64,
            ..before.rwa_mint
        })
        &&& self.receiver_token_account == (TokenAccount {
            amount: (before.receiver_token_account.amount + amount) as u64,
            ..before.receiver_token_account
        })
        &&& self.minter_nft_mint.fields() == with_ledger(before.minter_nft_mint.fields(), ledger)
        &&& self.minter_nft_mint.same_but_fields(before.minter_nft_mint)
        &&& ledger_of(self.minter_nft_mint.fields()) == Some(ledger)
        &&& self.program_id == before.program_id
        &&& self.minter == before.minter
        &&& self.receiver == before.receiver
        &&& self.minter_controller == before.minter_controller
        &&& self.mint_authority == before.mint_authority
        &&& self.minter_nft_token_account == before.minter_nft_token_account
    }

    /// Mints `amount` credit tokens to the receiver against the minter's
    /// quota. The signing addresses of the two authority records are
    /// recomputed from their role tags, resources and stored bumps.
    pub fn handler(&mut self, amount: u64) -> (r: Result<(), MyErrorCode>)
        ensures
            amount == 0 ==> r == Err::<(), MyErrorCode>(MyErrorCode::InvalidAmount),
            r is Err ==> *final(self) == *old(self),
            match old(self).outcome(
                amount,
                old(self).mint_signer(),
                old(self).controller_signer(),
            ) {
                Ok(ledger) => r is Ok && final(self).is_minted_from(*old(self), amount, ledger),
                Err(e) => r == Err::<(), MyErrorCode>(e),
            },
    {
        if amount == 0 {
            return Err(MyErrorCode::InvalidAmount);
        }
        let mint_signer = signer_address(
            MINT_AUTHORITY_SEED.as_slice(),
            &self.rwa_mint.address,
            self.mint_authority.bump,
            &self.program_id,
        );
        let controller_signer = signer_address(
            MINTER_NFT_SEED.as_slice(),
            &self.minter_nft_mint.address,
            self.minter_controller.bump,
            &self.program_id,
        );
        self.execute(amount, mint_signer, controller_signer)
    }

    /// The address that signs for the credit token: derived from the role
    /// tag of mint authorities, the mint and the stored bump.
    pub open spec fn mint_signer(&self) -> Option<Seq<u8>> {
        program_address(
            with_bump(seeds1(MINT_AUTHORITY_SEED@, self.rwa_mint.address@), self.mint_authority.bump),
            self.program_id@,
        )
    }

    /// The address that signs for the certificate: derived from the role tag
    /// of minters, the certificate mint and the stored bump.
    pub open spec fn controller_signer(&self) -> Option<Seq<u8>> {
        program_address(
            with_bump(
                seeds1(MINTER_NFT_SEED@, self.minter_nft_mint.address@),
                self.minter_controller.bump,
            ),
            self.program_id@,
        )
    }

    /// Mints `amount` credit tokens to the receiver against the minter's
    /// quota, with the given signers. Either every step takes effect or none.
    pub fn execute(
        &mut self,
        amount: u64,
        mint_signer: Option<Address>,
        controller_signer: Option<Address>,
    ) -> (r: Result<(), MyErrorCode>)
        ensures
            match old(self).outcome(amount, opt_view(mint_signer), opt_view(controller_signer)) {
                Ok(ledger) => r is Ok && final(self).is_minted_from(*old(self), amount, ledger),
                Err(e) => r == Err::<(), MyErrorCode>(e) && *final(self) == *old(self),
            },
    {
        if amount == 0 {
            return Err(MyErrorCode::InvalidAmount);
        }
        if !self.check_accounts() {
            return Err(MyErrorCode::Unauthorized);
        }
        match check_admission(&self.minter_nft_mint.additional_metadata, amount) {
            Err(e) => {
                return Err(e);
            },
            Ok(_) => {},
        }
        let mint_signer = match mint_signer {
            Some(s) => s,
            None => {
                return Err(MyErrorCode::Unauthorized);
            },
        };
        if !is_address(&self.rwa_mint.mint_authority, &mint_signer) {
            return Err(MyErrorCode::Unauthorized);
        }
        if self.rwa_mint.supply.checked_add(amount).is_none()
            || self.receiver_token_account.amount.checked_add(amount).is_none() {
            return Err(MyErrorCode::Overflow);
        }
        let controller_signer = match controller_signer {
            Some(c) => c,
            None => {
                return Err(MyErrorCode::Unauthorized);
            },
        };
        if !self.minter_nft_mint.has_metadata || !is_address(
            &self.minter_nft_mint.update_authority,
            &controller_signer,
        ) {
            return Err(MyErrorCode::Unauthorized);
        }
        let ledger = match decide_mint(&self.minter_nft_mint.additional_metadata, amount) {
            Ok(ledger) => ledger,
            Err(e) => {
                return Err(e);
            },
        };
        proof {
            lemma_ledger_written_is_read(self.minter_nft_mint.fields(), ledger);
        }
        match self.mint_to_recevier(amount, &mint_signer) {
            Ok(()) => {},
            Err(e) => {
                return Err(e);
            },
        }
        match self.minter_nft_mint.update_field(
            &controller_signer,
            String::from_str(AVAILABLE_CREDITS_KEY),
            u64_to_string(ledger.available),
        ) {
            Ok(()) => {},
            Err(e) => {
                return Err(e);
            },
        }
        match self.minter_nft_mint.update_field(
            &controller_signer,
            String::from_str(MINTED_CREDITS_KEY),
            u64_to_string(ledger.minted),
        ) {
            Ok(()) => {},
            Err(e) => {
                return Err(e);
            },
        }
        Ok(())
    }

    /// The additional metadata of the minter's certificate.
    pub fn get_additional_metadata(&self) -> (fields: &Vec<(String, String)>)
        ensures
            fields.deep_view() == self.minter_nft_mint.fields(),
    {
        &self.minter_nft_mint.additional_metadata
    }

    /// Mints `amount` credit tokens into the receiver's holding account,
    /// signed by `signer` for the mint authority record.
    pub fn mint_to_recevier(&mut self, amount: u64, signer: &Address) -> (r: Result<
        (),
        MyErrorCode,
    >)
        ensures
            r == (if !old(self).rwa_mint.may_mint(signer@) || old(
                self,
            ).receiver_token_account.mint@ != old(self).rwa_mint.address@ {
                Err::<(), MyErrorCode>(MyErrorCode::Unauthorized)
            } else if old(self).rwa_mint.supply + amount > u64::MAX || old(
                self,
            ).receiver_token_account.amount + amount > u64::MAX {
                Err(MyErrorCode::Overflow)
            } else {
                Ok(())
            }),
            r is Err ==> *final(self) == *old(self),
            r is Ok ==> *final(self) == (MintRwaToken {
                rwa_mint: Mint {
                    supply: (old(self).rwa_mint.supply + amount) as u64,
                    ..old(self).rwa_mint
                },
                receiver_token_account: TokenAccount {
                    amount: (old(self).receiver_token_account.amount + amount) as u64,
                    ..old(self).receiver_token_account
                },
                ..*old(self)
            }),
    {
        self.rwa_mint.mint_to(signer, &mut self.receiver_token_account, amount)
    }
}

/// A successful mint of `amount` against the counters `(available, minted)`
/// leaves exactly `(available - amount, minted + amount)`, and the
/// receiver's balance and the supply grow by exactly `amount`.
pub proof fn lemma_mint_accounting(
    before: MintRwaToken,
    after: MintRwaToken,
    amount: u64,
    mint_signer: Option<Seq<u8>>,
    controller_signer: Option<Seq<u8>>,
)
    requires
        before.outcome(amount, mint_signer, controller_signer) is Ok,
        after.is_minted_from(
            before,
            amount,
            before.outcome(amount, mint_signer, controller_signer)->Ok_0,
        ),
    ensures
        ledger_of(before.minter_nft_mint.fields()) is Some,
        ledger_of(after.minter_nft_mint.fields()) == Some(
            CreditLedger {
                available: (ledger_of(before.minter_nft_mint.fields())->Some_0.available
                    - amount) as u64,
                minted: (ledger_of(before.minter_nft_mint.fields())->Some_0.minted + amount) as u64,
            },
        ),
        amount <= ledger_of(before.minter_nft_mint.fields())->Some_0.available,
        ledger_of(before.minter_nft_mint.fields())->Some_0.minted + amount <= u64::MAX,
        after.receiver_token_account.amount == before.receiver_token_account.amount + amount,
        after.rwa_mint.supply == before.rwa_mint.supply + amount,
{
    crate::ledger::lemma_mint_moves_amount(before.minter_nft_mint.fields(), amount);
}

/// A mint of more than the quota is refused for want of credits, whoever
/// signs and whatever the running total holds.
pub proof fn lemma_mint_over_quota(
    before: MintRwaToken,
    amount: u64,
    mint_signer: Option<Seq<u8>>,
    controller_signer: Option<Seq<u8>>,
)
    requires
        before.accounts_agree(),
        ledger_of(before.minter_nft_mint.fields()) is Some,
        amount > ledger_of(before.minter_nft_mint.fields())->Some_0.available,
    ensures
        before.outcome(amount, mint_signer, controller_signer) == Err::<CreditLedger, MyErrorCode>(
            MyErrorCode::InsufficientCredits,
        ),
{
}

/// A mint of nothing is refused as an invalid amount, whatever the accounts
/// hold and whoever signs.
pub proof fn lemma_mint_of_zero(
    before: MintRwaToken,
    mint_signer: Option<Seq<u8>>,
    controller_signer: Option<Seq<u8>>,
)
    ensures
        before.outcome(0, mint_signer, controller_signer) == Err::<CreditLedger, MyErrorCode>(
            MyErrorCode::InvalidAmount,
        ),
{
}

} // verus!
