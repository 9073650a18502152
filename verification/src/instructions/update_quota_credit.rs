use crate::address::Address;
use crate::authority::{
    check_derived, derives_to, opt_view, program_address, seeds1, signer_address, with_bump,
};
use crate::constants::{AVAILABLE_CREDITS_KEY, MINTED_CREDITS_KEY, MINTER_NFT_SEED};
use crate::decimal::{decimal_string, u64_to_string};
use crate::error::MyErrorCode;
use crate::ledger::with_quota;
use crate::metadata::field_value;
use crate::state::{GovernanceConfig, MinterController};
use crate::token::Mint;
use vstd::prelude::*;

verus! {

/// What a quota overwrite works on: the signer, the governance record, the
/// minter's controller and the certificate whose quota is set.
#[derive(Clone, Debug, PartialEq, Eq)]
pub struct UpdateQuotaCredit {
    pub program_id: Address,
    /// The principal that signs the overwrite.
    pub authority: Address,
    pub config_account: GovernanceConfig,
    pub minter_controller: MinterController,
    /// The holder of the certificate.
    pub receiver: Address,
    /// The minter's certificate.
    pub mint: Mint,
}

impl UpdateQuotaCredit {
    /// The signer is the governance authority, or the holder of the
    /// certificate acting on its own quota; and the controller is that of
    /// the certificate and of its holder.
    pub open spec fn accounts_agree(&self) -> bool {
        &&& (self.config_account.is_initialized && self.config_account.authority@
            == self.authority@) || self.minter_controller.user@ == self.authority@
        &&& self.minter_controller.mint@ == self.mint.address@
        &&& self.minter_controller.user@ == self.receiver@
        &&& self.mint.decimals == 0
    }

    /// The address that signs for the certificate: derived from the role tag
    /// of minters, the certificate mint and the stored bump.
    pub open spec fn controller_signer(&self) -> Option<Seq<u8>> {
        program_address(
            with_bump(seeds1(MINTER_NFT_SEED@, self.mint.address@), self.minter_controller.bump),
            self.program_id@,
        )
    }

    /// The certificate stands at the address derived for its holder.
    pub open spec fn addresses_agree(&self) -> bool {
        derives_to(seeds1(MINTER_NFT_SEED@, self.receiver@), self.program_id@, self.mint.address@)
    }

    /// Whether the overwrite goes through when `signer` signs for the
    /// certificate.
    pub open spec fn outcome(&self, signer: Option<Seq<u8>>) -> Result<(), MyErrorCode> {
        if self.accounts_agree() && (signer matches Some(s) && self.mint.may_update(s)) {
            Ok(())
        } else {
            Err(MyErrorCode::Unauthorized)
        }
    }

    /// The state after the quota of `before` is overwritten with
    /// `new_credit`: the quota field holds the decimal text of `new_credit`,
    /// the running total is what it was, and nothing else changed.
    pub open spec fn is_updated_from(&self, before: UpdateQuotaCredit, new_credit: u64) -> bool {
        &&& self.mint.fields() == with_quota(before.mint.fields(), new_credit)
        &&& field_value(self.mint.fields(), AVAILABLE_CREDITS_KEY@) == Some(
            decimal_string(new_credit as nat),
        )
        &&& field_value(self.mint.fields(), MINTED_CREDITS_KEY@) == field_value(
            before.mint.fields(),
            MINTED_CREDITS_KEY@,
        )
        &&& self.mint.same_but_fields(before.mint)
        &&& self.program_id == before.program_id
        &&& self.authority == before.authority
        &&& self.config_account == before.config_account
        &&& self.minter_controller == before.minter_controller
        &&& self.receiver == before.receiver
    }

    /// Overwrites the quota of the certificate with `new_credit`. This is a
    /// plain set, whatever the quota was and whatever has been minted.
    pub fn handler(&mut self, new_credit: u64) -> (r: Result<(), MyErrorCode>)
        ensures
            r is Err ==> *final(self) == *old(self),
            !old(self).addresses_agree() ==> r == Err::<(), MyErrorCode>(
                MyErrorCode::Unauthorized,
            ),
            old(self).addresses_agree() ==> r == old(self).outcome(old(self).controller_signer()),
            r is Ok ==> final(self).is_updated_from(*old(self), new_credit),
    {
        if check_derived(
            MINTER_NFT_SEED.as_slice(),
            Some(&self.receiver),
            None,
            &self.program_id,
            &self.mint.address,
        ).is_none() {
            return Err(MyErrorCode::Unauthorized);
        }
        let signer = signer_address(
            MINTER_NFT_SEED.as_slice(),
            &self.mint.address,
            self.minter_controller.bump,
            &self.program_id,
        );
        self.set_quota(new_credit, signer)
    }

    /// Overwrites the quota of the certificate with `new_credit`, with the
    /// given signer for the certificate.
    pub fn set_quota(&mut self, new_credit: u64, signer: Option<Address>) -> (r: Result<
        (),
        MyErrorCode,
    >)
        ensures
            r == old(self).outcome(opt_view(signer)),
            r is Err ==> *final(self) == *old(self),
            r is Ok ==> final(self).is_updated_from(*old(self), new_credit),
    {
        let by_governance = self.config_account.is_initialized
            && self.config_account.authority.same(&self.authority);
        let by_holder = self.minter_controller.user.same(&self.authority);
        if !(by_governance || by_holder) || !self.minter_controller.mint.same(&self.mint.address)
            || !self.minter_controller.user.same(&self.receiver) || self.mint.decimals != 0 {
            return Err(MyErrorCode::Unauthorized);
        }
        let signer = match signer {
            Some(s) => s,
            None => {
                return Err(MyErrorCode::Unauthorized);
            },
        };
        proof {
            crate::constants::lemma_counter_keys_differ();
            crate::metadata::lemma_read_after_write(
                self.mint.fields(),
                AVAILABLE_CREDITS_KEY@,
                decimal_string(new_credit as nat),
            );
            crate::metadata::lemma_write_keeps_others(
                self.mint.fields(),
                AVAILABLE_CREDITS_KEY@,
                decimal_string(new_credit as nat),
                MINTED_CREDITS_KEY@,
            );
        }
        match self.mint.update_field(
            &signer,
            String::from_str(AVAILABLE_CREDITS_KEY),
            u64_to_string(new_credit),
        ) {
            Ok(()) => Ok(()),
            Err(e) => Err(e),
        }
    }
}

/// After the quota is overwritten with `new_credit`, the very next mint is
/// admitted against `new_credit` and nothing else: an amount of zero is
/// invalid, a larger amount wants credits, and any other amount is admitted,
/// whatever the running total holds.
pub proof fn lemma_overwritten_quota_admits(
    before: UpdateQuotaCredit,
    after: UpdateQuotaCredit,
    new_credit: u64,
    amount: u64,
)
    requires
        after.is_updated_from(before, new_credit),
    ensures
        crate::ledger::admission(after.mint.fields(), amount) == (if amount == 0 {
            Err::<u64, MyErrorCode>(MyErrorCode::InvalidAmount)
        } else if amount > new_credit {
            Err(MyErrorCode::InsufficientCredits)
        } else {
            Ok(new_credit)
        }),
        field_value(after.mint.fields(), MINTED_CREDITS_KEY@) == field_value(
            before.mint.fields(),
            MINTED_CREDITS_KEY@,
        ),
{
    crate::decimal::lemma_write_then_read(new_credit);
}

} // verus!
