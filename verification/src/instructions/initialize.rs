use crate::address::Address;
use crate::authority::{bump_of, check_derived, derives_to, seeds0};
use crate::constants::GOVERNANCE_CONFIG_SEED;
use crate::error::MyErrorCode;
use crate::state::GovernanceConfig;
use vstd::prelude::*;

verus! {

/// What the creation of the root authority works on: the signer and the
/// slot of the configuration record.
#[derive(Clone, Copy, Debug, PartialEq, Eq)]
pub struct InitializeConfig {
    pub program_id: Address,
    /// The principal that signs and becomes the authority.
    pub singer: Address,
    /// Address of the configuration record.
    pub config_address: Address,
    /// The configuration record, `None` while it does not exist.
    pub config_account: Option<GovernanceConfig>,
}

impl InitializeConfig {
    /// The record stands at the address derived for the configuration.
    pub open spec fn addresses_agree(&self) -> bool {
        derives_to(seeds0(GOVERNANCE_CONFIG_SEED@), self.program_id@, self.config_address@)
    }

    /// The bump of the record's address.
    pub open spec fn config_bump(&self) -> u8 {
        bump_of(seeds0(GOVERNANCE_CONFIG_SEED@), self.program_id@)
    }

    /// Whether the creation goes through: the slot must be free.
    pub open spec fn outcome(&self) -> Result<(), MyErrorCode> {
        if self.config_account is Some {
            Err(MyErrorCode::AlreadyExists)
        } else {
            Ok(())
        }
    }

    /// The state after a creation out of `before`: the record names the
    /// signer as authority.
    pub open spec fn is_created_from(&self, before: InitializeConfig, bump: u8) -> bool {
        *self == (InitializeConfig {
            config_account: Some(
                GovernanceConfig { authority: before.singer, bump, is_initialized: true },
            ),
            ..before
        })
    }

    /// Creates the configuration record with the signer as authority. The
    /// address is searched for again and compared before anything is
    /// created; a record that exists is neither replaced nor changed.
    pub fn handler(&mut self) -> (r: Result<(), MyErrorCode>)
        ensures
            r is Err ==> *final(self) == *old(self),
            !old(self).addresses_agree() ==> r == Err::<(), MyErrorCode>(
                MyErrorCode::Unauthorized,
            ),
            old(self).addresses_agree() ==> r == old(self).outcome(),
            r is Ok ==> final(self).is_created_from(*old(self), old(self).config_bump()),
    {
        match check_derived(
            GOVERNANCE_CONFIG_SEED.as_slice(),
            None,
            None,
            &self.program_id,
            &self.config_address,
        ) {
            None => Err(MyErrorCode::Unauthorized),
            Some(bump) => self.create(bump),
        }
    }

    /// Creates the configuration record with the signer as authority and
    /// `bump` as the bump of its address.
    pub fn create(&mut self, bump: u8) -> (r: Result<(), MyErrorCode>)
        ensures
            r == old(self).outcome(),
            r is Err ==> *final(self) == *old(self),
            r is Ok ==> final(self).is_created_from(*old(self), bump),
    {
        if self.config_account.is_some() {
            return Err(MyErrorCode::AlreadyExists);
        }
        self.config_account = Some(
            GovernanceConfig { authority: self.singer, is_initialized: true, bump },
        );
        Ok(())
    }
}

} // verus!
