use crate::address::{is_address, Address};
use crate::error::MyErrorCode;
use crate::metadata::{set_key_value, with_field};
use vstd::prelude::*;

verus! {

/// A holding account: the balance of one owner in one mint.
#[derive(Clone, Copy, Debug, PartialEq, Eq)]
pub struct TokenAccount {
    pub mint: Address,
    pub owner: Address,
    pub amount: u64,
}

/// Transfer fee settings of a mint.
#[derive(Clone, Copy, Debug, PartialEq, Eq)]
pub struct TransferFee {
    pub authority: Address,
    pub basis_points: u16,
    pub maximum_fee: u64,
}

/// A token mint as the token service keeps it: supply, the authorities that
/// may sign for it, and its metadata.
#[derive(Clone, Debug, PartialEq, Eq)]
pub struct Mint {
    pub address: Address,
    pub decimals: u8,
    pub supply: u64,
    /// Who may mint. `None` once minting is revoked: the mint is frozen.
    pub mint_authority: Option<Address>,
    /// Who may change metadata fields.
    pub update_authority: Option<Address>,
    pub close_authority: Option<Address>,
    pub permanent_delegate: Option<Address>,
    /// The program consulted on every transfer, if any.
    pub transfer_hook: Option<Address>,
    pub transfer_fee: Option<TransferFee>,
    pub has_metadata: bool,
    pub name: String,
    pub symbol: String,
    pub uri: String,
    pub additional_metadata: Vec<(String, String)>,
}

impl TokenAccount {
    /// An empty holding account of `owner` in `mint`.
    pub fn open(mint: Address, owner: Address) -> (account: TokenAccount)
        ensures
            account == (TokenAccount { mint, owner, amount: 0 }),
    {
        TokenAccount { mint, owner, amount: 0 }
    }
}

impl Mint {
    /// The additional metadata as key and value texts.
    pub open spec fn fields(&self) -> Seq<(Seq<char>, Seq<char>)> {
        self.additional_metadata.deep_view()
    }

    /// Minting is revoked for good.
    pub open spec fn is_frozen(&self) -> bool {
        self.mint_authority is None
    }

    /// `signer` is the mint authority.
    pub open spec fn may_mint(&self, signer: Seq<u8>) -> bool {
        self.mint_authority matches Some(a) && a@ == signer
    }

    /// `signer` may change metadata fields.
    pub open spec fn may_update(&self, signer: Seq<u8>) -> bool {
        self.has_metadata && (self.update_authority matches Some(a) && a@ == signer)
    }

    /// A new mint without supply or metadata. `authority` may mint, update
    /// metadata and close.
    pub fn create(address: Address, decimals: u8, authority: Address) -> (mint: Mint)
        ensures
            mint.address == address,
            mint.decimals == decimals,
            mint.supply == 0,
            mint.mint_authority == Some(authority),
            mint.update_authority == Some(authority),
            mint.close_authority == Some(authority),
            mint.permanent_delegate is None,
            mint.transfer_hook is None,
            mint.transfer_fee is None,
            !mint.has_metadata,
            mint.name@ == Seq::<char>::empty(),
            mint.symbol@ == Seq::<char>::empty(),
            mint.uri@ == Seq::<char>::empty(),
            mint.fields() == Seq::<(Seq<char>, Seq<char>)>::empty(),
    {
        let mint = Mint {
            address,
            decimals,
            supply: 0,
            mint_authority: Some(authority),
            update_authority: Some(authority),
            close_authority: Some(authority),
            permanent_delegate: None,
            transfer_hook: None,
            transfer_fee: None,
            has_metadata: false,
            name: String::new(),
            symbol: String::new(),
            uri: String::new(),
            additional_metadata: Vec::new(),
        };
        assert(mint.fields() =~= Seq::<(Seq<char>, Seq<char>)>::empty());
        mint
    }

    /// Attaches name, symbol and URI. Only the mint authority may do so, and
    /// only once.
    pub fn initialize_metadata(
        &mut self,
        signer: &Address,
        name: String,
        symbol: String,
        uri: String,
    ) -> (r: Result<(), MyErrorCode>)
        ensures
            r == (if !old(self).may_mint(signer@) {
                Err::<(), MyErrorCode>(MyErrorCode::Unauthorized)
            } else if old(self).has_metadata {
                Err(MyErrorCode::AlreadyExists)
            } else {
                Ok(())
            }),
            r is Err ==> *final(self) == *old(self),
            r is Ok ==> *final(self) == (Mint {
                has_metadata: true,
                name,
                symbol,
                uri,
                ..*old(self)
            }),
    {
        if !is_address(&self.mint_authority, signer) {
            return Err(MyErrorCode::Unauthorized);
        }
        if self.has_metadata {
            return Err(MyErrorCode::AlreadyExists);
        }
        self.has_metadata = true;
        self.name = name;
        self.symbol = symbol;
        self.uri = uri;
        Ok(())
    }

    /// Stores `value` under `key` in the additional metadata. Only the update
    /// authority may do so.
    pub fn update_field(&mut self, signer: &Address, key: String, value: String) -> (r: Result<
        (),
        MyErrorCode,
    >)
        ensures
            r is Ok <==> old(self).may_update(signer@),
            r is Err ==> r == Err::<(), MyErrorCode>(MyErrorCode::Unauthorized) && *final(self)
                == *old(self),
            r is Ok ==> final(self).fields() == with_field(old(self).fields(), key@, value@),
            r is Ok ==> final(self).same_but_fields(*old(self)),
    {
        if !self.has_metadata || !is_address(&self.update_authority, signer) {
            return Err(MyErrorCode::Unauthorized);
        }
        set_key_value(&mut self.additional_metadata, key, value);
        Ok(())
    }

    /// Everything but the additional metadata is as in `other`.
    pub open spec fn same_but_fields(&self, other: Mint) -> bool {
        *self == (Mint { additional_metadata: self.additional_metadata, ..other })
    }

    /// Mints `amount` units into `to`. Only the mint authority may do so, so a
    /// frozen mint refuses every attempt.
    pub fn mint_to(&mut self, signer: &Address, to: &mut TokenAccount, amount: u64) -> (r: Result<
        (),
        MyErrorCode,
    >)
        ensures
            r == (if !old(self).may_mint(signer@) || old(to).mint@ != old(self).address@ {
                Err::<(), MyErrorCode>(MyErrorCode::Unauthorized)
            } else if old(self).supply + amount > u64::MAX || old(to).amount + amount > u64::MAX {
                Err(MyErrorCode::Overflow)
            } else {
                Ok(())
            }),
            r is Err ==> *final(self) == *old(self) && *final(to) == *old(to),
            r is Ok ==> *final(self) == (Mint {
                supply: (old(self).supply + amount) as u64,
                ..*old(self)
            }),
            r is Ok ==> *final(to) == (TokenAccount {
                amount: (old(to).amount + amount) as u64,
                ..*old(to)
            }),
    {
        if !is_address(&self.mint_authority, signer) || !to.mint.same(&self.address) {
            return Err(MyErrorCode::Unauthorized);
        }
        let supply = match self.supply.checked_add(amount) {
            Some(n) => n,
            None => {
                return Err(MyErrorCode::Overflow);
            },
        };
        let balance = match to.amount.checked_add(amount) {
            Some(n) => n,
            None => {
                return Err(MyErrorCode::Overflow);
            },
        };
        self.supply = supply;
        to.amount = balance;
        Ok(())
    }

    /// Burns `amount` units out of `from`. The owner of the holding account
    /// signs; no authority record is needed.
    pub fn burn(&mut self, signer: &Address, from: &mut TokenAccount, amount: u64) -> (r: Result<
        (),
        MyErrorCode,
    >)
        ensures
            r == (if old(from).owner@ != signer@ || old(from).mint@ != old(self).address@ {
                Err::<(), MyErrorCode>(MyErrorCode::Unauthorized)
            } else if old(from).amount < amount {
                Err(MyErrorCode::InsufficientBalance)
            } else if old(self).supply < amount {
                Err(MyErrorCode::Overflow)
            } else {
                Ok(())
            }),
            r is Err ==> *final(self) == *old(self) && *final(from) == *old(from),
            r is Ok ==> *final(self) == (Mint {
                supply: (old(self).supply - amount) as u64,
                ..*old(self)
            }),
            r is Ok ==> *final(from) == (TokenAccount {
                amount: (old(from).amount - amount) as u64,
                ..*old(from)
            }),
    {
        if !from.owner.same(signer) || !from.mint.same(&self.address) {
            return Err(MyErrorCode::Unauthorized);
        }
        if from.amount < amount {
            return Err(MyErrorCode::InsufficientBalance);
        }
        if self.supply < amount {
            return Err(MyErrorCode::Overflow);
        }
        self.supply = self.supply - amount;
        from.amount = from.amount - amount;
        Ok(())
    }

    /// Gives up the right to mint, for good. Only the mint authority may do so.
    pub fn revoke_mint_authority(&mut self, signer: &Address) -> (r: Result<(), MyErrorCode>)
        ensures
            r is Ok <==> old(self).may_mint(signer@),
            r is Err ==> r == Err::<(), MyErrorCode>(MyErrorCode::Unauthorized) && *final(self)
                == *old(self),
            r is Ok ==> *final(self) == (Mint { mint_authority: None, ..*old(self) }),
    {
        if !is_address(&self.mint_authority, signer) {
            return Err(MyErrorCode::Unauthorized);
        }
        self.mint_authority = None;
        Ok(())
    }
}

/// A frozen mint refuses every mint attempt, whoever signs.
pub proof fn lemma_frozen_mint_refuses(mint: Mint, signer: Seq<u8>)
    requires
        mint.is_frozen(),
    ensures
        !mint.may_mint(signer),
{
}

} // verus!
