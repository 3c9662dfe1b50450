//! Settings that are read from text, with their defaults.

use crate::address::{address_bytes, Address};
use crate::digits::{
    all_digits, decimal, is_digit, law_decimal_reads_back, lemma_decimal_digits, numeral,
};
use vstd::prelude::*;
use vstd::string::*;

verus! {

/// The seconds between two detections where nothing else is set.
pub const DEFAULT_POLL_SECS: u64 = 5;

/// The digits of an unsigned integer, which a plus sign may precede.
pub open spec fn unsigned_digits(s: Seq<char>) -> Seq<char> {
    if s.len() > 0 && s[0] == '+' {
        s.drop_first()
    } else {
        s
    }
}

/// The unsigned 64-bit integer that a text denotes, where it denotes one.
pub open spec fn u64_of_text(s: Seq<char>) -> Option<u64> {
    let digits = unsigned_digits(s);
    if digits.len() > 0 && all_digits(digits) && numeral(digits) <= u64::MAX {
        Some(numeral(digits) as u64)
    } else {
        None
    }
}

/// A numeral is at least as large as what its first digits denote.
proof fn lemma_numeral_grows(s: Seq<char>, k: int)
    requires
        0 <= k <= s.len(),
        all_digits(s),
    ensures
        numeral(s.take(k)) <= numeral(s),
    decreases s.len(),
{
    if k == s.len() {
        assert(s.take(k) =~= s);
    } else {
        assert(all_digits(s.drop_last()));
        lemma_numeral_grows(s.drop_last(), k);
        assert(s.drop_last().take(k) =~= s.take(k));
        assert(is_digit(s.last()));
    }
}

/// Reads an unsigned 64-bit integer: digits, which a plus sign may precede.
pub fn parse_u64(text: &str) -> (r: Option<u64>)
    ensures
        r == u64_of_text(text@),
{
    let len: usize = text.unicode_len();
    if len == 0 {
        return None;
    }
    let start: usize = if text.get_char(0) == '+' {
        1
    } else {
        0
    };
    let ghost digits = unsigned_digits(text@);
    assert(digits =~= text@.skip(start as int));
    if start == len {
        return None;
    }
    let mut value: u64 = 0;
    let mut i: usize = start;
    assert(digits.take(0) =~= Seq::<char>::empty());
    while i < len
        invariant
            len == text@.len(),
            start <= i <= len,
            digits == text@.skip(start as int),
            digits == unsigned_digits(text@),
            all_digits(digits.take(i - start)),
            value == numeral(digits.take(i - start)),
        decreases len - i,
    {
        let c = text.get_char(i);
        let ghost done = digits.take(i - start);
        let ghost more = digits.take(i - start + 1);
        assert(c == digits[i - start]);
        assert(more.drop_last() =~= done);
        assert(more.last() == c);
        if !('0' <= c && c <= '9') {
            assert(!is_digit(digits[i - start]));
            return None;
        }
        let d: u64 = (c as u32 - 48) as u64;
        assert(all_digits(more)) by {
            assert forall|j: int| 0 <= j < more.len() implies is_digit(#[trigger] more[j]) by {
                if j < done.len() {
                    assert(more[j] == done[j]);
                }
            }
        }
        assert(numeral(more) == 10 * value + d);
        if value > (u64::MAX - d) / 10 {
            proof {
                if all_digits(digits) {
                    lemma_numeral_grows(digits, i - start + 1);
                }
            }
            return None;
        }
        value = value * 10 + d;
        i = i + 1;
    }
    assert(digits.take(i - start) =~= digits);
    Some(value)
}

/// The seconds between two detections: what is set, or the default.
pub fn poll_interval_seconds(setting: Option<&str>) -> (r: u64)
    ensures
        match setting {
            Some(s) => r == (match u64_of_text(s@) {
                Some(n) => n,
                None => DEFAULT_POLL_SECS,
            }),
            None => r == DEFAULT_POLL_SECS,
        },
        setting is None ==> r == 5,
        setting matches Some(s) ==> (u64_of_text(s@) is None ==> r == 5),
{
    match setting {
        Some(s) => match parse_u64(s) {
            Some(n) => n,
            None => DEFAULT_POLL_SECS,
        },
        None => DEFAULT_POLL_SECS,
    }
}

/// After how many detections to stop: what is set, where it is above zero.
pub fn max_iterations(setting: Option<&str>) -> (r: Option<u64>)
    ensures
        match setting {
            Some(s) => r == (match u64_of_text(s@) {
                Some(n) => if n > 0 {
                    Some(n)
                } else {
                    None
                },
                None => None,
            }),
            None => r is None,
        },
{
    match setting {
        Some(s) => match parse_u64(s) {
            Some(n) => if n > 0 {
                Some(n)
            } else {
                None
            },
            None => None,
        },
        None => None,
    }
}

/// Whether quotes are made up: where exactly `true` is set.
pub fn test_mode(setting: Option<&str>) -> (r: bool)
    ensures
        r <==> (setting matches Some(s) && s@ == "true"@),
{
    match setting {
        Some(s) => String::from_str(s) == String::from_str("true"),
        None => false,
    }
}

/// The account in whose name gas is estimated: what is set, or the address of all zeros.
pub fn estimate_from(setting: Option<&str>) -> (r: Address)
    ensures
        match setting {
            Some(s) => match address_bytes(s@) {
                Some(bytes) => r.bytes@ == bytes,
                None => r.is_zero(),
            },
            None => r.is_zero(),
        },
{
    match setting {
        Some(s) => address_or_zero(Address::parse(s)),
        None => Address::zero(),
    }
}

/// The address that was read, or the address of all zeros where none was.
pub fn address_or_zero(read: Result<Address, String>) -> (r: Address)
    ensures
        match read {
            Ok(a) => r == a,
            Err(_) => r.is_zero(),
        },
{
    match read {
        Ok(a) => a,
        Err(_) => Address::zero(),
    }
}

/// The file of the database: what is set, or the default.
pub fn db_file(setting: Option<String>) -> (r: String)
    ensures
        match setting {
            Some(s) => r@ == s@,
            None => r@ == "opportunities.sqlite3"@,
        },
{
    match setting {
        Some(s) => s,
        None => String::from_str("opportunities.sqlite3"),
    }
}

/// A number that is written as a numeral is read as that number, with a plus sign in front of it
/// and without.
pub proof fn law_written_numbers_are_read(n: nat)
    ensures
        n <= u64::MAX ==> u64_of_text(decimal(n)) == Some(n as u64),
        n <= u64::MAX ==> u64_of_text(seq!['+'] + decimal(n)) == Some(n as u64),
        n > u64::MAX ==> u64_of_text(decimal(n)) is None,
        n > u64::MAX ==> u64_of_text(seq!['+'] + decimal(n)) is None,
{
    let s = decimal(n);
    lemma_decimal_digits(n);
    law_decimal_reads_back(n);
    assert(is_digit(s[0]));
    assert((seq!['+'] + s).drop_first() =~= s);
}

/// A zero in front of a number changes nothing.
pub proof fn law_leading_zeros_do_not_count(s: Seq<char>)
    requires
        s.len() > 0,
        s[0] != '+',
    ensures
        u64_of_text(seq!['0'] + s) == u64_of_text(s),
{
    let t = seq!['0'] + s;
    lemma_leading_zero(s);
    if all_digits(s) {
        assert forall|i: int| 0 <= i < t.len() implies is_digit(#[trigger] t[i]) by {
            if i > 0 {
                assert(t[i] == s[i - 1]);
            }
        }
    }
    if all_digits(t) {
        assert forall|i: int| 0 <= i < s.len() implies is_digit(#[trigger] s[i]) by {
            assert(is_digit(t[i + 1]));
        }
    }
}

proof fn lemma_leading_zero(s: Seq<char>)
    ensures
        numeral(seq!['0'] + s) == numeral(s),
    decreases s.len(),
{
    let t = seq!['0'] + s;
    if s.len() == 0 {
        reveal_with_fuel(numeral, 2);
        assert(t.drop_last() =~= Seq::<char>::empty());
    } else {
        lemma_leading_zero(s.drop_last());
        assert(t.drop_last() =~= seq!['0'] + s.drop_last());
    }
}

/// A text that holds anything but digits, a plus sign at its start left aside, is no number, and
/// neither is one without digits.
pub proof fn law_only_digits_make_numbers(s: Seq<char>, i: int)
    requires
        0 <= i < s.len(),
        !('0' <= s[i] <= '9'),
        i > 0 || s[0] != '+',
    ensures
        u64_of_text(s) is None,
        u64_of_text(Seq::<char>::empty()) is None,
        u64_of_text(seq!['+']) is None,
{
    let d = unsigned_digits(s);
    if s[0] == '+' {
        assert(d[i - 1] == s[i]);
    } else {
        assert(d[i] == s[i]);
    }
    assert(!all_digits(d));
    assert(seq!['+'].drop_first() =~= Seq::<char>::empty());
}

/// A number that is read is the value of the digits of its text: one more digit at the end makes
/// it ten times as large, and the digit larger.
pub proof fn law_one_more_digit(s: Seq<char>, c: char, n: u64)
    requires
        u64_of_text(s) == Some(n),
        '0' <= c <= '9',
    ensures
        10 * n + (c as int - '0' as int) <= u64::MAX ==> u64_of_text(s.push(c)) == Some(
            (10 * n + (c as int - '0' as int)) as u64,
        ),
        10 * n + (c as int - '0' as int) > u64::MAX ==> u64_of_text(s.push(c)) is None,
{
    let d = unsigned_digits(s);
    let e = unsigned_digits(s.push(c));
    assert(e =~= d.push(c));
    assert(e.drop_last() =~= d);
    assert forall|i: int| 0 <= i < e.len() implies is_digit(#[trigger] e[i]) by {
        if i < d.len() {
            assert(is_digit(d[i]));
        }
    }
}

/// A plus sign in front of a text that has none changes nothing.
pub proof fn law_a_plus_sign_does_not_count(s: Seq<char>)
    requires
        s.len() > 0,
        s[0] != '+',
    ensures
        u64_of_text(seq!['+'] + s) == u64_of_text(s),
{
    assert((seq!['+'] + s).drop_first() =~= s);
}

/// What is no number does not become one by what is written behind it, unless nothing but a plus
/// sign was there: neither a wrong character nor a number that is too large is made good.
pub proof fn law_nothing_is_made_good(s: Seq<char>, c: char)
    requires
        u64_of_text(s) is None,
        s.len() > 1 || (s.len() == 1 && s[0] != '+'),
    ensures
        u64_of_text(s.push(c)) is None,
{
    let d = unsigned_digits(s);
    let e = unsigned_digits(s.push(c));
    assert(e =~= d.push(c));
    if all_digits(e) {
        assert forall|i: int| 0 <= i < d.len() implies is_digit(#[trigger] d[i]) by {
            assert(is_digit(e[i]));
        }
        lemma_numeral_grows(e, d.len() as int);
        assert(e.take(d.len() as int) =~= d);
    }
}

} // verus!
