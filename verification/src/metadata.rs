use anchor_lang::prelude::ProgramError;
use anchor_spl::token_2022::spl_token_2022::extension::{BaseStateWithExtensions, StateWithExtensions};
use anchor_spl::token_2022::spl_token_2022::state::Mint;
use anchor_spl::token_interface::spl_token_metadata_interface::state::TokenMetadata;
use vstd::prelude::*;

verus! {

/// `i` is the position of the first entry of `fields` whose key is `key`.
pub open spec fn is_first_index(
    fields: Seq<(Seq<char>, Seq<char>)>,
    key: Seq<char>,
    i: int,
) -> bool {
    &&& 0 <= i < fields.len()
    &&& fields[i].0 == key
    &&& forall|j: int| 0 <= j < i ==> (#[trigger] fields[j]).0 != key
}

/// Some entry of `fields` has the key `key`.
pub open spec fn has_field(fields: Seq<(Seq<char>, Seq<char>)>, key: Seq<char>) -> bool {
    exists|i: int| is_first_index(fields, key, i)
}

/// The position of the first entry with the key `key`, where there is one.
pub open spec fn first_index(fields: Seq<(Seq<char>, Seq<char>)>, key: Seq<char>) -> int {
    choose|i: int| is_first_index(fields, key, i)
}

/// The value stored under `key`: that of the first entry with this key.
pub open spec fn field_value(fields: Seq<(Seq<char>, Seq<char>)>, key: Seq<char>) -> Option<
    Seq<char>,
> {
    if has_field(fields, key) {
        Some(fields[first_index(fields, key)].1)
    } else {
        None
    }
}

/// The fields after `value` is stored under `key`: the first entry with this
/// key takes the new value in place; without such an entry, a new one is
/// added at the end.
pub open spec fn with_field(
    fields: Seq<(Seq<char>, Seq<char>)>,
    key: Seq<char>,
    value: Seq<char>,
) -> Seq<(Seq<char>, Seq<char>)> {
    if has_field(fields, key) {
        fields.update(first_index(fields, key), (key, value))
    } else {
        fields.push((key, value))
    }
}

/// A key has at most one first position.
pub proof fn lemma_first_index_unique(
    fields: Seq<(Seq<char>, Seq<char>)>,
    key: Seq<char>,
    i: int,
    j: int,
)
    requires
        is_first_index(fields, key, i),
        is_first_index(fields, key, j),
    ensures
        i == j,
{
    if i < j {
        assert(fields[i].0 != key);
    } else if j < i {
        assert(fields[j].0 != key);
    }
}

/// Any entry with the key shows that the key has a first position, at or
/// before that entry.
pub proof fn lemma_entry_gives_first(fields: Seq<(Seq<char>, Seq<char>)>, key: Seq<char>, i: int)
    requires
        0 <= i < fields.len(),
        fields[i].0 == key,
    ensures
        has_field(fields, key),
        first_index(fields, key) <= i,
        is_first_index(fields, key, first_index(fields, key)),
    decreases i,
{
    if forall|j: int| 0 <= j < i ==> (#[trigger] fields[j]).0 != key {
        assert(is_first_index(fields, key, i));
    } else {
        let j = choose|j: int| 0 <= j < i && (#[trigger] fields[j]).0 == key;
        lemma_entry_gives_first(fields, key, j);
    }
}

/// A value that was stored under a key is the value read under that key.
pub proof fn lemma_read_after_write(
    fields: Seq<(Seq<char>, Seq<char>)>,
    key: Seq<char>,
    value: Seq<char>,
)
    ensures
        field_value(with_field(fields, key, value), key) == Some(value),
{
    let after = with_field(fields, key, value);
    if has_field(fields, key) {
        let i = first_index(fields, key);
        assert(is_first_index(fields, key, i));
        assert forall|j: int| 0 <= j < i implies (#[trigger] after[j]).0 != key by {
            assert(after[j] == fields[j]);
        }
        assert(is_first_index(after, key, i));
        lemma_first_index_unique(after, key, i, first_index(after, key));
    } else {
        let i = fields.len() as int;
        assert forall|j: int| 0 <= j < i implies (#[trigger] after[j]).0 != key by {
            assert(after[j] == fields[j]);
            if fields[j].0 == key {
                lemma_entry_gives_first(fields, key, j);
            }
        }
        assert(is_first_index(after, key, i));
        lemma_first_index_unique(after, key, i, first_index(after, key));
    }
}

/// Storing a value under one key leaves what is read under any other key.
pub proof fn lemma_write_keeps_others(
    fields: Seq<(Seq<char>, Seq<char>)>,
    key: Seq<char>,
    value: Seq<char>,
    other: Seq<char>,
)
    requires
        other != key,
    ensures
        field_value(with_field(fields, key, value), other) == field_value(fields, other),
{
    let after = with_field(fields, key, value);
    assert forall|j: int| 0 <= j < fields.len() implies ((#[trigger] after[j]).0 == other) == (
    fields[j].0 == other) && (after[j].0 == other ==> after[j].1 == fields[j].1) by {
        if has_field(fields, key) && j == first_index(fields, key) {
            assert(after[j].0 == key);
            assert(is_first_index(fields, key, j));
        } else {
            assert(after[j] == fields[j]);
        }
    }
    if has_field(fields, other) {
        let i = first_index(fields, other);
        assert(is_first_index(fields, other, i));
        assert(after[i].0 == other);
        assert forall|j: int| 0 <= j < i implies (#[trigger] after[j]).0 != other by {
            assert(fields[j].0 != other);
        }
        assert(is_first_index(after, other, i));
        lemma_first_index_unique(after, other, i, first_index(after, other));
    } else {
        if has_field(after, other) {
            let i = first_index(after, other);
            assert(is_first_index(after, other, i));
            if i < fields.len() {
                assert(fields[i].0 == other);
                lemma_entry_gives_first(fields, other, i);
            }
        }
    }
}

/// The position of the first entry of `fields` with the key `key`.
pub fn find_field(fields: &Vec<(String, String)>, key: &str) -> (r: Option<usize>)
    ensures
        match r {
            Some(i) => is_first_index(fields.deep_view(), key@, i as int),
            None => !has_field(fields.deep_view(), key@),
        },
{
    let wanted = String::from_str(key);
    let mut i: usize = 0;
    while i < fields.len()
        invariant
            i <= fields.len(),
            wanted@ == key@,
            forall|j: int| 0 <= j < i ==> (#[trigger] fields.deep_view()[j]).0 != key@,
        decreases fields.len() - i,
    {
        if fields[i].0 == wanted {
            assert(fields.deep_view()[i as int].0 == key@);
            return Some(i);
        }
        assert(fields.deep_view()[i as int].0 != key@);
        i += 1;
    }
    proof {
        if has_field(fields.deep_view(), key@) {
            let k = first_index(fields.deep_view(), key@);
            assert(is_first_index(fields.deep_view(), key@, k));
            assert(fields.deep_view()[k].0 != key@);
        }
    }
    None
}

/// Stores `value` under `key` by `TokenMetadata::set_key_value` of the token
/// metadata interface, on a metadata record that holds `fields` as its
/// additional metadata. That method overwrites the value of the first entry
/// whose key equals `key`, or appends the pair where no entry has the key.
#[verifier::external_body]
pub(crate) fn set_key_value(fields: &mut Vec<(String, String)>, key: String, value: String)
    ensures
        final(fields).deep_view() == with_field(old(fields).deep_view(), key@, value@),
{
    let mut record = TokenMetadata::default();
    record.additional_metadata = std::mem::take(fields);
    record.set_key_value(key, value);
    *fields = record.additional_metadata;
}

/// The additional metadata that the data of a mint account holds, or `None`
/// where the data is no mint with a metadata record.
pub uninterp spec fn stored_fields(account_data: Seq<u8>) -> Option<Seq<(Seq<char>, Seq<char>)>>;

/// The fields as texts, whatever the error.
pub open spec fn fields_of(r: Result<Vec<(String, String)>, ProgramError>) -> Option<
    Seq<(Seq<char>, Seq<char>)>,
> {
    match r {
        Ok(fields) => Some(fields.deep_view()),
        Err(_) => None,
    }
}

/// Reads the additional metadata out of the data of a mint account:
/// `StateWithExtensions::unpack` for a mint, then
/// `get_variable_len_extension` for the metadata record. What is read is a
/// function of the data alone.
#[verifier::external_body]
pub(crate) fn unpack_additional_metadata(account_data: &[u8]) -> (r: Result<
    Vec<(String, String)>,
    ProgramError,
>)
    ensures
        fields_of(r) == stored_fields(account_data@),
{
    let state = StateWithExtensions::<Mint>::unpack(account_data)?;
    Ok(state.get_variable_len_extension::<TokenMetadata>()?.additional_metadata)
}

/// The additional metadata of a mint account, or `None` where the data
/// holds none.
pub fn get_additional_metadata(account_data: &[u8]) -> (r: Option<Vec<(String, String)>>)
    ensures
        (match r {
            Some(fields) => Some(fields.deep_view()),
            None => None,
        }) == stored_fields(account_data@),
{
    match unpack_additional_metadata(account_data) {
        Ok(fields) => Some(fields),
        Err(_) => None,
    }
}

} // verus!
