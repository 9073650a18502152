use crate::address::Address;
use crate::constants::{
    CONSUMER_NFT_SEED, GOVERNANCE_CONFIG_SEED, MINTER_NFT_SEED, MINT_AUTHORITY_SEED,
};
use crate::error::MyErrorCode;
use anchor_lang::prelude::Pubkey;
use vstd::prelude::*;

verus! {

/// The program-derived address of `seeds` under `program_id`, or `None`
/// where the seeds derive none: more than 16 seeds, a seed longer than 32
/// bytes, or a hash that is a point of the curve.
pub uninterp spec fn program_address(seeds: Seq<Seq<u8>>, program_id: Seq<u8>) -> Option<Seq<u8>>;

/// The view of an optional address.
pub open spec fn opt_view(a: Option<Address>) -> Option<Seq<u8>> {
    match a {
        Some(a) => Some(a@),
        None => None,
    }
}

/// The seeds of a record: the role tag, then the resource ids.
pub open spec fn with_bump(seeds: Seq<Seq<u8>>, bump: u8) -> Seq<Seq<u8>> {
    seeds.push(seq![bump])
}

/// `bump` is the bump that a search over `seeds` finds, and `address` the
/// address it finds: the largest bump from 255 down to 1 under which the
/// seeds derive an address.
pub open spec fn is_found(
    seeds: Seq<Seq<u8>>,
    program_id: Seq<u8>,
    address: Seq<u8>,
    bump: u8,
) -> bool {
    &&& bump >= 1
    &&& program_address(with_bump(seeds, bump), program_id) == Some(address)
    &&& forall|b: u8| bump < b ==> (#[trigger] program_address(with_bump(seeds, b), program_id)) is None
}

/// No bump from 255 down to 1 derives an address from `seeds`.
pub open spec fn none_found(seeds: Seq<Seq<u8>>, program_id: Seq<u8>) -> bool {
    forall|b: u8| 1 <= b ==> (#[trigger] program_address(with_bump(seeds, b), program_id)) is None
}

/// What a search over `seeds` finds: the address and its bump, or nothing.
pub open spec fn found_address(seeds: Seq<Seq<u8>>, program_id: Seq<u8>) -> Option<(Seq<u8>, u8)> {
    if exists|a: Seq<u8>, b: u8| is_found(seeds, program_id, a, b) {
        Some(choose|p: (Seq<u8>, u8)| is_found(seeds, program_id, p.0, p.1))
    } else {
        None
    }
}

/// The view of an optional address with its bump.
pub open spec fn found_view(r: Option<(Address, u8)>) -> Option<(Seq<u8>, u8)> {
    match r {
        Some((a, b)) => Some((a@, b)),
        None => None,
    }
}

/// `Pubkey::create_program_address`: the address that the seeds derive under
/// the program, `None` for each of its errors. The result is a function of
/// the seeds and the program id alone.
#[verifier::external_body]
pub(crate) fn create_program_address(seeds: &Vec<Vec<u8>>, program_id: &Address) -> (r: Option<
    Address,
>)
    ensures
        opt_view(r) == program_address(seeds.deep_view(), program_id@),
{
    let mut parts: Vec<&[u8]> = Vec::new();
    for seed in seeds.iter() {
        parts.push(seed.as_slice());
    }
    match Pubkey::create_program_address(&parts, &Pubkey::new_from_array(program_id.bytes)) {
        Ok(key) => Some(Address { bytes: key.to_bytes() }),
        Err(_) => None,
    }
}

/// `Pubkey::try_find_program_address`: it tries the bumps 255 down to 1,
/// each appended to the seeds as a last seed of one byte, and returns the
/// first address that `create_program_address` derives, with its bump. It
/// returns `None` where no bump derives one.
#[verifier::external_body]
pub(crate) fn try_find_program_address(seeds: &Vec<Vec<u8>>, program_id: &Address) -> (r: Option<
    (Address, u8),
>)
    ensures
        match r {
            Some((address, bump)) => is_found(seeds.deep_view(), program_id@, address@, bump),
            None => none_found(seeds.deep_view(), program_id@),
        },
{
    let mut parts: Vec<&[u8]> = Vec::new();
    for seed in seeds.iter() {
        parts.push(seed.as_slice());
    }
    match Pubkey::try_find_program_address(&parts, &Pubkey::new_from_array(program_id.bytes)) {
        Some((key, bump)) => Some((Address { bytes: key.to_bytes() }, bump)),
        None => None,
    }
}

/// Copies a slice of bytes into a vector.
pub fn bytes_of(tag: &[u8]) -> (v: Vec<u8>)
    ensures
        v@ == tag@,
{
    let mut v: Vec<u8> = Vec::new();
    let mut i: usize = 0;
    while i < tag.len()
        invariant
            i <= tag.len(),
            v@ == tag@.subrange(0, i as int),
        decreases tag.len() - i,
    {
        v.push(tag[i]);
        assert(v@ =~= tag@.subrange(0, i + 1));
        i += 1;
    }
    assert(v@ =~= tag@);
    v
}

/// The seeds of a record of role `tag` that no resource qualifies.
pub open spec fn seeds0(tag: Seq<u8>) -> Seq<Seq<u8>> {
    seq![tag]
}

/// The seeds of a record of role `tag` for one resource.
pub open spec fn seeds1(tag: Seq<u8>, resource: Seq<u8>) -> Seq<Seq<u8>> {
    seq![tag, resource]
}

/// The seeds of a record of role `tag` for a resource and a principal.
pub open spec fn seeds2(tag: Seq<u8>, resource: Seq<u8>, principal: Seq<u8>) -> Seq<Seq<u8>> {
    seq![tag, resource, principal]
}

/// The seeds of a record of role `tag` for whichever resources are given.
pub open spec fn role_seeds(tag: Seq<u8>, first: Option<&Address>, second: Option<&Address>) -> Seq<
    Seq<u8>,
> {
    match (first, second) {
        (None, None) => seeds0(tag),
        (Some(a), None) => seeds1(tag, a@),
        (None, Some(b)) => seeds1(tag, b@),
        (Some(a), Some(b)) => seeds2(tag, a@, b@),
    }
}

/// Builds the seed list of a role tag and up to two resource ids.
pub fn record_seeds(tag: &[u8], first: Option<&Address>, second: Option<&Address>) -> (seeds: Vec<
    Vec<u8>,
>)
    ensures
        seeds.deep_view() == role_seeds(tag@, first, second),
{
    let mut seeds: Vec<Vec<u8>> = Vec::new();
    seeds.push(bytes_of(tag));
    if let Some(a) = first {
        seeds.push(a.to_vec());
    }
    if let Some(b) = second {
        seeds.push(b.to_vec());
    }
    proof {
        let got = seeds.deep_view();
        let want = role_seeds(tag@, first, second);
        assert(got.len() == want.len());
        assert forall|i: int| 0 <= i < got.len() implies got[i] == want[i] by {
            assert(got[i] == seeds@[i]@);
        }
        assert(got =~= want);
    }
    seeds
}

/// Finds the address of the record of role `tag` for the given resources
/// under `program_id`, and the bump that completes its seeds. `None` where
/// the seeds derive no address.
pub fn derive_address(
    tag: &[u8],
    first: Option<&Address>,
    second: Option<&Address>,
    program_id: &Address,
) -> (r: Option<(Address, u8)>)
    ensures
        found_view(r) == found_address(role_seeds(tag@, first, second), program_id@),
        r matches Some((address, bump)) ==> is_found(
            role_seeds(tag@, first, second),
            program_id@,
            address@,
            bump,
        ),
{
    let seeds = record_seeds(tag, first, second);
    let r = try_find_program_address(&seeds, program_id);
    proof {
        match r {
            Some((address, bump)) => {
                lemma_found_is_the_one(seeds.deep_view(), program_id@, address@, bump);
            },
            None => {
                lemma_none_found(seeds.deep_view(), program_id@);
            },
        }
    }
    r
}

/// A search over `seeds` finds `address`.
pub open spec fn derives_to(seeds: Seq<Seq<u8>>, program_id: Seq<u8>, address: Seq<u8>) -> bool {
    found_address(seeds, program_id) matches Some((a, _)) && a == address
}

/// The bump that a search over `seeds` finds, where it finds an address.
pub open spec fn bump_of(seeds: Seq<Seq<u8>>, program_id: Seq<u8>) -> u8 {
    found_address(seeds, program_id)->Some_0.1
}

/// Checks that `presented` is the address of the record of role `tag` for
/// the given resources: the address is searched for again and compared. The
/// bump found with it is returned.
pub fn check_derived(
    tag: &[u8],
    first: Option<&Address>,
    second: Option<&Address>,
    program_id: &Address,
    presented: &Address,
) -> (r: Option<u8>)
    ensures
        r is Some <==> derives_to(role_seeds(tag@, first, second), program_id@, presented@),
        r matches Some(bump) ==> bump == bump_of(role_seeds(tag@, first, second), program_id@),
{
    match derive_address(tag, first, second, program_id) {
        Some((address, bump)) => if address.same(presented) {
            Some(bump)
        } else {
            None
        },
        None => None,
    }
}

/// Checks that `presented` is the address that a search over `seeds` finds,
/// and returns the bump found with it.
pub fn check_derived_seeds(seeds: &Vec<Vec<u8>>, program_id: &Address, presented: &Address) -> (r:
    Option<u8>)
    ensures
        r is Some <==> derives_to(seeds.deep_view(), program_id@, presented@),
        r matches Some(bump) ==> bump == bump_of(seeds.deep_view(), program_id@),
{
    let found = try_find_program_address(seeds, program_id);
    proof {
        match found {
            Some((address, bump)) => {
                lemma_found_is_the_one(seeds.deep_view(), program_id@, address@, bump);
            },
            None => {
                lemma_none_found(seeds.deep_view(), program_id@);
            },
        }
    }
    match found {
        Some((address, bump)) => if address.same(presented) {
            Some(bump)
        } else {
            None
        },
        None => None,
    }
}

/// Builds the seed list of a role tag and one resource given as bytes.
pub fn byte_seeds(tag: &[u8], resource: &[u8]) -> (seeds: Vec<Vec<u8>>)
    ensures
        seeds.deep_view() == seeds1(tag@, resource@),
{
    let mut seeds: Vec<Vec<u8>> = Vec::new();
    seeds.push(bytes_of(tag));
    seeds.push(bytes_of(resource));
    proof {
        let got = seeds.deep_view();
        let want = seeds1(tag@, resource@);
        assert(got.len() == want.len());
        assert forall|i: int| 0 <= i < got.len() implies got[i] == want[i] by {
            assert(got[i] == seeds@[i]@);
        }
        assert(got =~= want);
    }
    seeds
}

/// The address that signs for the record of role `tag` for `resource` with
/// the stored `bump`: the address is recomputed from the three on every use.
/// `None` where they derive no address.
pub fn signer_address(tag: &[u8], resource: &Address, bump: u8, program_id: &Address) -> (r: Option<
    Address,
>)
    ensures
        opt_view(r) == program_address(with_bump(seeds1(tag@, resource@), bump), program_id@),
{
    let seeds = record_seeds(tag, Some(resource), None);
    signer_of(&seeds, bump, program_id)
}

/// The address that `seeds` with the stored `bump` derive under
/// `program_id`, recomputed on every use. `None` where they derive none.
pub fn signer_of(seeds: &Vec<Vec<u8>>, bump: u8, program_id: &Address) -> (r: Option<Address>)
    ensures
        opt_view(r) == program_address(with_bump(seeds.deep_view(), bump), program_id@),
{
    let mut full: Vec<Vec<u8>> = Vec::new();
    let mut i: usize = 0;
    while i < seeds.len()
        invariant
            i <= seeds.len(),
            full.len() == i,
            forall|j: int| 0 <= j < i ==> (#[trigger] full@[j])@ == seeds@[j]@,
        decreases seeds.len() - i,
    {
        full.push(bytes_of(seeds[i].as_slice()));
        i += 1;
    }
    let mut last: Vec<u8> = Vec::new();
    last.push(bump);
    full.push(last);
    proof {
        let got = full.deep_view();
        let want = with_bump(seeds.deep_view(), bump);
        assert(got.len() == want.len());
        assert forall|j: int| 0 <= j < got.len() implies got[j] == want[j] by {
            assert(got[j] == full@[j]@);
            if j < seeds.len() {
                assert(want[j] == seeds@[j]@);
            } else {
                assert(full@[j]@ =~= seq![bump]);
            }
        }
        assert(got =~= want);
    }
    create_program_address(&full, program_id)
}

/// Checks that `presented` is the address that `seeds` with the stored
/// `bump` derive under `program_id`. The address is recomputed and compared;
/// any other address, bump or resource is refused as unauthorized.
pub fn check_address(seeds: &Vec<Vec<u8>>, bump: u8, program_id: &Address, presented: &Address) -> (r:
    Result<(), MyErrorCode>)
    ensures
        r is Ok <==> program_address(with_bump(seeds.deep_view(), bump), program_id@) == Some(
            presented@,
        ),
        r is Err ==> r == Err::<(), MyErrorCode>(MyErrorCode::Unauthorized),
{
    match signer_of(seeds, bump, program_id) {
        Some(derived) => if derived.same(presented) {
            Ok(())
        } else {
            Err(MyErrorCode::Unauthorized)
        },
        None => Err(MyErrorCode::Unauthorized),
    }
}

/// The four kinds of authority record, each with the resource it is
/// derived for. A record is the only valid signer for its resource.
#[derive(Clone, Copy, Debug, PartialEq, Eq)]
pub enum AuthorityRecord {
    /// The governance configuration: one per deployment.
    Root,
    /// The controller of a minter certificate.
    Minter { certificate: Address },
    /// The controller of a consumer certificate.
    Consumer { certificate: Address },
    /// The authority of a credit-token mint.
    Mint { mint: Address },
}

impl AuthorityRecord {
    /// The seeds of the record: its role tag, and its resource if it has one.
    pub open spec fn seeds(self) -> Seq<Seq<u8>> {
        match self {
            AuthorityRecord::Root => seeds0(GOVERNANCE_CONFIG_SEED@),
            AuthorityRecord::Minter { certificate } => seeds1(MINTER_NFT_SEED@, certificate@),
            AuthorityRecord::Consumer { certificate } => seeds1(CONSUMER_NFT_SEED@, certificate@),
            AuthorityRecord::Mint { mint } => seeds1(MINT_AUTHORITY_SEED@, mint@),
        }
    }

    /// Builds the seeds of the record.
    pub fn seed_list(&self) -> (seeds: Vec<Vec<u8>>)
        ensures
            seeds.deep_view() == self.seeds(),
    {
        match self {
            AuthorityRecord::Root => record_seeds(GOVERNANCE_CONFIG_SEED.as_slice(), None, None),
            AuthorityRecord::Minter { certificate } => record_seeds(
                MINTER_NFT_SEED.as_slice(),
                Some(certificate),
                None,
            ),
            AuthorityRecord::Consumer { certificate } => record_seeds(
                CONSUMER_NFT_SEED.as_slice(),
                Some(certificate),
                None,
            ),
            AuthorityRecord::Mint { mint } => record_seeds(
                MINT_AUTHORITY_SEED.as_slice(),
                Some(mint),
                None,
            ),
        }
    }

    /// Finds the address of the record and the bump that completes its
    /// seeds.
    pub fn find(&self, program_id: &Address) -> (r: Option<(Address, u8)>)
        ensures
            found_view(r) == found_address(self.seeds(), program_id@),
    {
        let seeds = self.seed_list();
        let r = try_find_program_address(&seeds, program_id);
        proof {
            match r {
                Some((address, bump)) => {
                    lemma_found_is_the_one(seeds.deep_view(), program_id@, address@, bump);
                },
                None => {
                    lemma_none_found(seeds.deep_view(), program_id@);
                },
            }
        }
        r
    }

    /// The address that signs for the record with the stored `bump`. `None`
    /// where the seeds and the bump derive no address.
    pub fn signer(&self, bump: u8, program_id: &Address) -> (r: Option<Address>)
        ensures
            opt_view(r) == program_address(with_bump(self.seeds(), bump), program_id@),
    {
        let seeds = self.seed_list();
        signer_of(&seeds, bump, program_id)
    }
}

/// What a search finds is what `found_address` names.
pub proof fn lemma_found_is_the_one(
    seeds: Seq<Seq<u8>>,
    program_id: Seq<u8>,
    address: Seq<u8>,
    bump: u8,
)
    requires
        is_found(seeds, program_id, address, bump),
    ensures
        found_address(seeds, program_id) == Some((address, bump)),
{
    let p = choose|p: (Seq<u8>, u8)| is_found(seeds, program_id, p.0, p.1);
    assert(is_found(seeds, program_id, (address, bump).0, (address, bump).1));
    lemma_found_address_unique(seeds, program_id, address, bump, p.0, p.1);
}

/// Where no bump derives an address, a search finds nothing.
pub proof fn lemma_none_found(seeds: Seq<Seq<u8>>, program_id: Seq<u8>)
    requires
        none_found(seeds, program_id),
    ensures
        found_address(seeds, program_id) is None,
{
    if exists|a: Seq<u8>, b: u8| is_found(seeds, program_id, a, b) {
        let (a, b) = choose|a: Seq<u8>, b: u8| is_found(seeds, program_id, a, b);
        assert(program_address(with_bump(seeds, b), program_id) is None);
    }
}

/// An address that a search finds passes the check under the bump found
/// with it, and under no larger bump.
pub proof fn lemma_found_address_checks(
    seeds: Seq<Seq<u8>>,
    program_id: Seq<u8>,
    address: Seq<u8>,
    bump: u8,
    other: u8,
)
    requires
        is_found(seeds, program_id, address, bump),
        other > bump,
    ensures
        program_address(with_bump(seeds, bump), program_id) == Some(address),
        program_address(with_bump(seeds, other), program_id) != Some(address),
{
}

/// A search has one answer: two results for the same seeds and program agree.
pub proof fn lemma_found_address_unique(
    seeds: Seq<Seq<u8>>,
    program_id: Seq<u8>,
    a: Seq<u8>,
    bump_a: u8,
    b: Seq<u8>,
    bump_b: u8,
)
    requires
        is_found(seeds, program_id, a, bump_a),
        is_found(seeds, program_id, b, bump_b),
    ensures
        a == b,
        bump_a == bump_b,
{
    if bump_a < bump_b {
        assert(program_address(with_bump(seeds, bump_b), program_id) is None);
    } else if bump_b < bump_a {
        assert(program_address(with_bump(seeds, bump_a), program_id) is None);
    }
}

} // verus!
