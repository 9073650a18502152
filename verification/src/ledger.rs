use crate::constants::{lemma_counter_keys_differ, AVAILABLE_CREDITS_KEY, MINTED_CREDITS_KEY};
use crate::decimal::{decimal_string, lemma_write_then_read, parse_u64, str_parse_u64, u64_to_string};
use crate::error::MyErrorCode;
use crate::metadata::{
    field_value, find_field, get_additional_metadata, lemma_read_after_write,
    lemma_write_keeps_others, set_key_value, stored_fields, with_field,
};
use vstd::prelude::*;

verus! {

/// The two credit counters of a minter certificate, as numbers.
#[derive(Clone, Copy, Debug, PartialEq, Eq, Structural)]
pub struct CreditLedger {
    /// Quota that may still be minted.
    pub available: u64,
    /// Total minted against the quota so far.
    pub minted: u64,
}

/// The counters that the metadata fields denote. The quota must be present
/// and a number; a missing running total counts as 0.
pub open spec fn ledger_of(fields: Seq<(Seq<char>, Seq<char>)>) -> Option<CreditLedger> {
    match field_value(fields, AVAILABLE_CREDITS_KEY@) {
        None => None,
        Some(quota) => match parse_u64(quota) {
            None => None,
            Some(available) => match field_value(fields, MINTED_CREDITS_KEY@) {
                None => Some(CreditLedger { available, minted: 0 }),
                Some(total) => match parse_u64(total) {
                    None => None,
                    Some(minted) => Some(CreditLedger { available, minted }),
                },
            },
        },
    }
}

/// The admission check of a mint of `amount` credits: the quota it is
/// admitted against, or the reason for refusing. The amount is tested
/// first; then the quota must be present, be a number, and cover the amount.
pub open spec fn admission(fields: Seq<(Seq<char>, Seq<char>)>, amount: u64) -> Result<
    u64,
    MyErrorCode,
> {
    if amount == 0 {
        Err(MyErrorCode::InvalidAmount)
    } else {
        match field_value(fields, AVAILABLE_CREDITS_KEY@) {
            None => Err(MyErrorCode::InsufficientCredits),
            Some(quota) => match parse_u64(quota) {
                None => Err(MyErrorCode::NoCredits),
                Some(available) => if available < amount {
                    Err(MyErrorCode::InsufficientCredits)
                } else {
                    Ok(available)
                },
            },
        }
    }
}

/// What a mint of `amount` credits against the metadata fields comes to: the
/// counters to write back, or the reason for refusing. After admission the
/// running total must be absent or a number, and the new total must fit in
/// 64 bits.
pub open spec fn mint_decision(fields: Seq<(Seq<char>, Seq<char>)>, amount: u64) -> Result<
    CreditLedger,
    MyErrorCode,
> {
    match admission(fields, amount) {
        Err(e) => Err(e),
        Ok(available) => match field_value(fields, MINTED_CREDITS_KEY@) {
            None => Ok(CreditLedger { available: (available - amount) as u64, minted: amount }),
            Some(total) => match parse_u64(total) {
                None => Err(MyErrorCode::NoCredits),
                Some(minted) => if minted + amount > u64::MAX {
                    Err(MyErrorCode::Overflow)
                } else {
                    Ok(
                        CreditLedger {
                            available: (available - amount) as u64,
                            minted: (minted + amount) as u64,
                        },
                    )
                },
            },
        },
    }
}

/// The fields after both counters of `ledger` are written back, the quota
/// first.
pub open spec fn with_ledger(fields: Seq<(Seq<char>, Seq<char>)>, ledger: CreditLedger) -> Seq<
    (Seq<char>, Seq<char>),
> {
    with_field(
        with_field(fields, AVAILABLE_CREDITS_KEY@, decimal_string(ledger.available as nat)),
        MINTED_CREDITS_KEY@,
        decimal_string(ledger.minted as nat),
    )
}

/// The fields after the quota is overwritten with `new_credit`.
pub open spec fn with_quota(fields: Seq<(Seq<char>, Seq<char>)>, new_credit: u64) -> Seq<
    (Seq<char>, Seq<char>),
> {
    with_field(fields, AVAILABLE_CREDITS_KEY@, decimal_string(new_credit as nat))
}

/// Counters that were written back are the counters read afterwards.
pub proof fn lemma_ledger_written_is_read(fields: Seq<(Seq<char>, Seq<char>)>, ledger: CreditLedger)
    ensures
        ledger_of(with_ledger(fields, ledger)) == Some(ledger),
{
    lemma_counter_keys_differ();
    let quota = decimal_string(ledger.available as nat);
    let total = decimal_string(ledger.minted as nat);
    let first = with_field(fields, AVAILABLE_CREDITS_KEY@, quota);
    lemma_read_after_write(fields, AVAILABLE_CREDITS_KEY@, quota);
    lemma_write_keeps_others(first, MINTED_CREDITS_KEY@, total, AVAILABLE_CREDITS_KEY@);
    lemma_read_after_write(first, MINTED_CREDITS_KEY@, total);
    lemma_write_then_read(ledger.available);
    lemma_write_then_read(ledger.minted);
}

/// A successful mint of `amount` moves exactly `amount` from the quota to the
/// running total: the counters read after the write-back are the old quota
/// less `amount` and the old total plus `amount`.
pub proof fn lemma_mint_moves_amount(fields: Seq<(Seq<char>, Seq<char>)>, amount: u64)
    requires
        mint_decision(fields, amount) is Ok,
    ensures
        ledger_of(fields) is Some,
        amount > 0,
        amount <= ledger_of(fields)->Some_0.available,
        ledger_of(with_ledger(fields, mint_decision(fields, amount)->Ok_0)) == Some(
            CreditLedger {
                available: (ledger_of(fields)->Some_0.available - amount) as u64,
                minted: (ledger_of(fields)->Some_0.minted + amount) as u64,
            },
        ),
        ledger_of(fields)->Some_0.minted + amount <= u64::MAX,
{
    lemma_ledger_written_is_read(fields, mint_decision(fields, amount)->Ok_0);
}

/// A mint of more than the quota is refused for want of credits, whatever
/// the running total holds.
pub proof fn lemma_mint_over_quota_refused(fields: Seq<(Seq<char>, Seq<char>)>, amount: u64)
    requires
        ledger_of(fields) is Some,
        amount > ledger_of(fields)->Some_0.available,
    ensures
        mint_decision(fields, amount) == Err::<CreditLedger, MyErrorCode>(
            MyErrorCode::InsufficientCredits,
        ),
{
}

/// A mint of nothing is refused as an invalid amount, whatever the fields hold.
pub proof fn lemma_mint_of_zero_refused(fields: Seq<(Seq<char>, Seq<char>)>)
    ensures
        mint_decision(fields, 0) == Err::<CreditLedger, MyErrorCode>(MyErrorCode::InvalidAmount),
{
}

/// After the quota is overwritten with `new_credit`, the next mint is admitted
/// against `new_credit` alone: it is refused for want of credits exactly when
/// the amount is larger, and the running total stays as it was.
pub proof fn lemma_quota_overwrite_governs_next_mint(
    fields: Seq<(Seq<char>, Seq<char>)>,
    new_credit: u64,
    amount: u64,
)
    requires
        amount > 0,
    ensures
        field_value(with_quota(fields, new_credit), MINTED_CREDITS_KEY@) == field_value(
            fields,
            MINTED_CREDITS_KEY@,
        ),
        (mint_decision(with_quota(fields, new_credit), amount) == Err::<CreditLedger, MyErrorCode>(
            MyErrorCode::InsufficientCredits,
        )) <==> amount > new_credit,
        mint_decision(with_quota(fields, new_credit), amount) matches Ok(ledger)
            ==> ledger.available == new_credit - amount,
        field_value(fields, MINTED_CREDITS_KEY@) is None && amount <= new_credit
            ==> mint_decision(with_quota(fields, new_credit), amount) == Ok::<
            CreditLedger,
            MyErrorCode,
        >(CreditLedger { available: (new_credit - amount) as u64, minted: amount }),
{
    lemma_counter_keys_differ();
    let quota = decimal_string(new_credit as nat);
    lemma_read_after_write(fields, AVAILABLE_CREDITS_KEY@, quota);
    lemma_write_keeps_others(fields, AVAILABLE_CREDITS_KEY@, quota, MINTED_CREDITS_KEY@);
    lemma_write_then_read(new_credit);
}

/// Reads one counter: `Ok(None)` where the key is absent, the number where
/// the stored text is one, and `NoCredits` where it is not.
pub fn read_counter(fields: &Vec<(String, String)>, key: &str) -> (r: Result<
    Option<u64>,
    MyErrorCode,
>)
    ensures
        r == (match field_value(fields.deep_view(), key@) {
            None => Ok::<Option<u64>, MyErrorCode>(None),
            Some(text) => match parse_u64(text) {
                None => Err(MyErrorCode::NoCredits),
                Some(n) => Ok(Some(n)),
            },
        }),
{
    match find_field(fields, key) {
        None => Ok(None),
        Some(i) => {
            proof {
                crate::metadata::lemma_first_index_unique(
                    fields.deep_view(),
                    key@,
                    i as int,
                    crate::metadata::first_index(fields.deep_view(), key@),
                );
            }
            match str_parse_u64(fields[i].1.as_str()) {
                None => Err(MyErrorCode::NoCredits),
                Some(n) => Ok(Some(n)),
            }
        },
    }
}

/// Makes the admission check of a mint of `amount` credits. Nothing is read
/// before the amount is known to be positive.
pub fn check_admission(fields: &Vec<(String, String)>, amount: u64) -> (r: Result<u64, MyErrorCode>)
    ensures
        r == admission(fields.deep_view(), amount),
{
    if amount == 0 {
        return Err(MyErrorCode::InvalidAmount);
    }
    match read_counter(fields, AVAILABLE_CREDITS_KEY) {
        Err(e) => Err(e),
        Ok(None) => Err(MyErrorCode::InsufficientCredits),
        Ok(Some(available)) => if available < amount {
            Err(MyErrorCode::InsufficientCredits)
        } else {
            Ok(available)
        },
    }
}

/// Decides a mint of `amount` credits against the counters in `fields`:
/// the counters to write back, or the reason for refusing.
pub fn decide_mint(fields: &Vec<(String, String)>, amount: u64) -> (r: Result<
    CreditLedger,
    MyErrorCode,
>)
    ensures
        r == mint_decision(fields.deep_view(), amount),
{
    let available = match check_admission(fields, amount) {
        Err(e) => {
            return Err(e);
        },
        Ok(n) => n,
    };
    let new_available = match available.checked_sub(amount) {
        Some(n) => n,
        None => {
            return Err(MyErrorCode::Overflow);
        },
    };
    let minted = match read_counter(fields, MINTED_CREDITS_KEY) {
        Err(e) => {
            return Err(e);
        },
        Ok(None) => 0,
        Ok(Some(n)) => n,
    };
    match minted.checked_add(amount) {
        Some(new_minted) => Ok(CreditLedger { available: new_available, minted: new_minted }),
        None => Err(MyErrorCode::Overflow),
    }
}

/// What a mint of `amount` credits comes to for a certificate whose account
/// holds the given fields, or no fields at all. An amount of zero is refused
/// whatever the account holds; an account without a metadata record gives
/// `None`.
pub open spec fn account_mint_decision(
    stored: Option<Seq<(Seq<char>, Seq<char>)>>,
    amount: u64,
) -> Option<Result<CreditLedger, MyErrorCode>> {
    if amount == 0 {
        Some(Err(MyErrorCode::InvalidAmount))
    } else {
        match stored {
            None => None,
            Some(fields) => Some(mint_decision(fields, amount)),
        }
    }
}

/// Decides a mint of `amount` credits against the certificate whose account
/// data is given. The data is not read before the amount is known to be
/// positive.
pub fn decide_mint_for_account(account_data: &[u8], amount: u64) -> (r: Option<
    Result<CreditLedger, MyErrorCode>,
>)
    ensures
        r == account_mint_decision(stored_fields(account_data@), amount),
{
    if amount == 0 {
        return Some(Err(MyErrorCode::InvalidAmount));
    }
    match get_additional_metadata(account_data) {
        None => None,
        Some(fields) => Some(decide_mint(&fields, amount)),
    }
}

/// Reads both counters as numbers, or `None` where `ledger_of` has none.
pub fn read_ledger(fields: &Vec<(String, String)>) -> (r: Option<CreditLedger>)
    ensures
        r == ledger_of(fields.deep_view()),
{
    let available = match read_counter(fields, AVAILABLE_CREDITS_KEY) {
        Ok(Some(n)) => n,
        _ => {
            return None;
        },
    };
    match read_counter(fields, MINTED_CREDITS_KEY) {
        Ok(Some(minted)) => Some(CreditLedger { available, minted }),
        Ok(None) => Some(CreditLedger { available, minted: 0 }),
        Err(_) => None,
    }
}

/// Writes both counters back as decimal text, the quota first.
pub fn write_ledger(fields: &mut Vec<(String, String)>, ledger: CreditLedger)
    ensures
        final(fields).deep_view() == with_ledger(old(fields).deep_view(), ledger),
        ledger_of(final(fields).deep_view()) == Some(ledger),
{
    proof {
        lemma_ledger_written_is_read(fields.deep_view(), ledger);
    }
    set_key_value(fields, String::from_str(AVAILABLE_CREDITS_KEY), u64_to_string(ledger.available));
    set_key_value(fields, String::from_str(MINTED_CREDITS_KEY), u64_to_string(ledger.minted));
}

/// Overwrites the quota with `new_credit`, whatever it was and whatever has
/// been minted. The running total is not touched.
pub fn write_quota(fields: &mut Vec<(String, String)>, new_credit: u64)
    ensures
        final(fields).deep_view() == with_quota(old(fields).deep_view(), new_credit),
        field_value(final(fields).deep_view(), AVAILABLE_CREDITS_KEY@) == Some(
            decimal_string(new_credit as nat),
        ),
        field_value(final(fields).deep_view(), MINTED_CREDITS_KEY@) == field_value(
            old(fields).deep_view(),
            MINTED_CREDITS_KEY@,
        ),
{
    proof {
        lemma_counter_keys_differ();
        lemma_read_after_write(
            fields.deep_view(),
            AVAILABLE_CREDITS_KEY@,
            decimal_string(new_credit as nat),
        );
        lemma_write_keeps_others(
            fields.deep_view(),
            AVAILABLE_CREDITS_KEY@,
            decimal_string(new_credit as nat),
            MINTED_CREDITS_KEY@,
        );
    }
    set_key_value(fields, String::from_str(AVAILABLE_CREDITS_KEY), u64_to_string(new_credit));
}

} // verus!
