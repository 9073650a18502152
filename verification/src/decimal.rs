use vstd::prelude::*;

verus! {

/// The ten ASCII digits.
pub open spec fn is_digit(c: char) -> bool {
    c == '0' || c == '1' || c == '2' || c == '3' || c == '4' || c == '5' || c == '6' || c == '7'
        || c == '8' || c == '9'
}

/// The number a digit stands for; 0 for any other character.
pub open spec fn digit_value(c: char) -> nat {
    if c == '1' {
        1
    } else if c == '2' {
        2
    } else if c == '3' {
        3
    } else if c == '4' {
        4
    } else if c == '5' {
        5
    } else if c == '6' {
        6
    } else if c == '7' {
        7
    } else if c == '8' {
        8
    } else if c == '9' {
        9
    } else {
        0
    }
}

/// The digit that stands for `d`, for `d < 10`.
pub open spec fn digit_char(d: nat) -> char {
    if d == 0 {
        '0'
    } else if d == 1 {
        '1'
    } else if d == 2 {
        '2'
    } else if d == 3 {
        '3'
    } else if d == 4 {
        '4'
    } else if d == 5 {
        '5'
    } else if d == 6 {
        '6'
    } else if d == 7 {
        '7'
    } else if d == 8 {
        '8'
    } else {
        '9'
    }
}

/// Every character of `s` is a digit.
pub open spec fn all_digits(s: Seq<char>) -> bool {
    forall|i: int| 0 <= i < s.len() ==> is_digit(#[trigger] s[i])
}

/// The number that a run of digits denotes in base ten, most significant
/// digit first. The empty run denotes 0.
pub open spec fn digits_value(s: Seq<char>) -> nat
    decreases s.len(),
{
    if s.len() == 0 {
        0
    } else {
        digits_value(s.drop_last()) * 10 + digit_value(s.last())
    }
}

/// The text without one leading plus sign, if it has one.
pub open spec fn unsigned_part(s: Seq<char>) -> Seq<char> {
    if s.len() > 0 && s[0] == '+' {
        s.subrange(1, s.len() as int)
    } else {
        s
    }
}

/// The counter that a text denotes: an optional plus sign, then one or more
/// digits, whose value fits in 64 bits. Anything else denotes no counter.
pub open spec fn parse_u64(s: Seq<char>) -> Option<u64> {
    let body = unsigned_part(s);
    if body.len() > 0 && all_digits(body) && digits_value(body) <= u64::MAX {
        Some(digits_value(body) as u64)
    } else {
        None
    }
}

/// The shortest decimal text of `n`: no sign, no leading zero but for 0 itself.
pub open spec fn decimal_string(n: nat) -> Seq<char>
    decreases n,
{
    if n < 10 {
        seq![digit_char(n)]
    } else {
        decimal_string(n / 10).push(digit_char(n % 10))
    }
}

/// The decimal text of a number is a non-empty run of digits that denotes it.
pub proof fn lemma_decimal_string_denotes(n: nat)
    ensures
        decimal_string(n).len() > 0,
        all_digits(decimal_string(n)),
        digits_value(decimal_string(n)) == n,
    decreases n,
{
    let s = decimal_string(n);
    if n < 10 {
        assert(s.drop_last() =~= Seq::<char>::empty());
        assert(digits_value(s.drop_last()) == 0);
        assert(s.last() == digit_char(n));
    } else {
        lemma_decimal_string_denotes(n / 10);
        let t = decimal_string(n / 10);
        assert(s.drop_last() =~= t);
        assert(s.last() == digit_char(n % 10));
        assert forall|i: int| 0 <= i < s.len() implies is_digit(#[trigger] s[i]) by {
            if i < t.len() {
                assert(s[i] == t[i]);
            }
        }
    }
}

/// Writing a counter and reading the text back gives the counter again.
pub proof fn lemma_write_then_read(n: u64)
    ensures
        parse_u64(decimal_string(n as nat)) == Some(n),
{
    lemma_decimal_string_denotes(n as nat);
    let s = decimal_string(n as nat);
    assert(is_digit(s[0]));
    assert(unsigned_part(s) == s);
}

/// Ten to the power `k`.
pub open spec fn pow10(k: nat) -> nat
    decreases k,
{
    if k == 0 {
        1
    } else {
        10 * pow10((k - 1) as nat)
    }
}

/// A number below ten to the power `k` has at most `k` decimal digits.
pub proof fn lemma_decimal_string_len(n: nat, k: nat)
    requires
        k >= 1,
        n < pow10(k),
    ensures
        1 <= decimal_string(n).len() <= k,
    decreases n,
{
    if n >= 10 {
        assert(pow10(1) == 10) by {
            assert(pow10(0) == 1);
        }
        assert(pow10(k) == 10 * pow10((k - 1) as nat));
        lemma_decimal_string_len(n / 10, (k - 1) as nat);
    }
}

/// The text of a counter has between 1 and 20 characters, all of them
/// ASCII, so it takes as many bytes as it has digits.
pub proof fn lemma_counter_text(n: u64)
    ensures
        1 <= decimal_string(n as nat).len() <= 20,
        vstd::utf8::is_ascii_chars(decimal_string(n as nat)),
        vstd::utf8::encode_utf8(decimal_string(n as nat)).len() == decimal_string(n as nat).len(),
{
    reveal_with_fuel(pow10, 21);
    assert(pow10(20) == 100000000000000000000);
    lemma_decimal_string_len(n as nat, 20);
    lemma_decimal_string_denotes(n as nat);
    let s = decimal_string(n as nat);
    assert forall|i: int| 0 <= i < s.len() implies '\0' <= #[trigger] s[i] <= '\u{7f}' by {
        assert(is_digit(s[i]));
    }
    vstd::utf8::is_ascii_chars_encode_utf8(s);
}

/// The decimal text of `n`, as `u64`'s `to_string` of the standard library
/// writes it: the digits of `n` in base ten, most significant first, without
/// sign or padding.
#[verifier::external_body]
pub(crate) fn u64_to_string(n: u64) -> (s: String)
    ensures
        s@ == decimal_string(n as nat),
{
    n.to_string()
}

/// The number that `str::parse::<u64>` of the standard library reads from
/// `s`: it accepts an optional plus sign followed by at least one ASCII digit
/// and nothing else, and fails when the value does not fit in 64 bits.
#[verifier::external_body]
pub(crate) fn str_parse_u64(s: &str) -> (r: Option<u64>)
    ensures
        r == parse_u64(s@),
{
    s.parse::<u64>().ok()
}

} // verus!
