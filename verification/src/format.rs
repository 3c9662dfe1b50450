//! Amounts as decimal text, and token units from whole and fractional parts.

use crate::amount::{
    amount_limit, u256_add, u256_exp10, u256_from_u128, u256_mul, u256_to_string, Amount,
};
use crate::digits::{
    all_digits, decimal, digit_at, ends_in_digits, is_digit, law_decimal_is_positional,
    law_decimal_reads_back, law_padded_is_positional, law_padded_reads_back, law_powers_of_ten,
    lemma_decimal_digits, lemma_decimal_len, lemma_decimal_split, lemma_padded_len,
    lemma_padded_mod, lemma_padded_short, lemma_pow10_increases, lemma_pow10_positive, numeral,
    padded, pow10, zeros,
};
use vstd::arithmetic::div_mod::*;
use vstd::arithmetic::power::*;
use vstd::prelude::*;
use vstd::string::*;

verus! {

/// The text of `n / 10^places`, all `places` fractional digits written out.
pub open spec fn fixed_text(n: nat, places: nat) -> Seq<char> {
    if places == 0 {
        decimal(n)
    } else {
        decimal(n / pow10(places)) + seq!['.'] + padded(n % pow10(places), places)
    }
}

/// `s` without the zeros at its end.
pub open spec fn trimmed(s: Seq<char>) -> Seq<char>
    decreases s.len(),
{
    if s.len() > 0 && s.last() == '0' {
        trimmed(s.drop_last())
    } else {
        s
    }
}

/// The text of `n / 10^places` in its shortest form: no zeros at the end of the fraction, and
/// no point without a fraction behind it.
pub open spec fn shortest_text(n: nat, places: nat) -> Seq<char> {
    let fraction = trimmed(padded(n % pow10(places), places));
    if fraction.len() == 0 {
        decimal(n / pow10(places))
    } else {
        decimal(n / pow10(places)) + seq!['.'] + fraction
    }
}

/// Appends `count` zeros to `s`.
fn append_zeros(s: &mut String, count: usize)
    ensures
        final(s)@ == old(s)@ + zeros(count as nat),
{
    let mut i: usize = 0;
    assert(s@ =~= old(s)@ + zeros(0));
    while i < count
        invariant
            i <= count,
            s@ == old(s)@ + zeros(i as nat),
        decreases count - i,
    {
        proof {
            reveal_strlit("0");
        }
        s.append("0");
        i = i + 1;
        assert(s@ =~= old(s)@ + zeros(i as nat));
    }
}

/// `s` without the zeros at its end.
fn trim_zeros(s: &str) -> (r: &str)
    ensures
        r@ == trimmed(s@),
{
    let len: usize = s.unicode_len();
    let mut end: usize = len;
    assert(s@.take(len as int) =~= s@);
    while end > 0 && s.get_char(end - 1) == '0'
        invariant
            len == s@.len(),
            end <= len,
            trimmed(s@) == trimmed(s@.take(end as int)),
        decreases end,
    {
        assert(s@.take(end as int).drop_last() =~= s@.take(end - 1));
        end = end - 1;
    }
    assert(s@.take(end as int) =~= s@.subrange(0, end as int));
    s.substring_char(0, end)
}

/// A number with at most `places` digits is all fraction.
proof fn lemma_all_fraction(n: nat, places: nat)
    requires
        places >= 1,
        decimal(n).len() <= places,
    ensures
        n / pow10(places) == 0,
        n % pow10(places) == n,
        decimal(0) == seq!['0'],
        padded(n, places) == zeros((places - decimal(n).len()) as nat) + decimal(n),
{
    lemma_pow10_positive(places);
    lemma_decimal_len(n, places);
    lemma_small_mod(n, pow10(places));
    lemma_basic_div(n as int, pow10(places) as int);
    lemma_padded_short(n, places);
}

/// A number with more than `places` digits is written as its whole part and its fraction, one
/// behind the other.
proof fn lemma_whole_and_fraction(n: nat, places: nat)
    requires
        places >= 1,
        decimal(n).len() > places,
    ensures
        decimal(n).take(decimal(n).len() - places) == decimal(n / pow10(places)),
        decimal(n).skip(decimal(n).len() - places) == padded(n % pow10(places), places),
{
    lemma_decimal_len(n, places);
    lemma_decimal_split(n, places);
    lemma_padded_len(n, places);
    lemma_padded_mod(n, places);
    let whole = decimal(n / pow10(places));
    assert(decimal(n).take(decimal(n).len() - places) =~= whole);
    assert(decimal(n).skip(decimal(n).len() - places) =~= padded(n, places));
}

/// The text of `amount / 10^decimals` with every fractional digit written out: what is read as
/// a number when an amount enters price arithmetic.
pub fn u256_to_decimal(amount: Amount, decimals: usize) -> (r: String)
    ensures
        r@ == fixed_text(amount@, decimals as nat),
{
    let s = u256_to_string(&amount);
    if decimals == 0 {
        return s;
    }
    let len: usize = s.as_str().unicode_len();
    proof {
        reveal_strlit("0.");
        reveal_strlit(".");
    }
    if len <= decimals {
        proof {
            lemma_all_fraction(amount@, decimals as nat);
        }
        let mut text = String::from_str("0.");
        append_zeros(&mut text, decimals - len);
        text.append(s.as_str());
        assert(text@ =~= fixed_text(amount@, decimals as nat));
        text
    } else {
        proof {
            lemma_whole_and_fraction(amount@, decimals as nat);
        }
        let mut text = String::from_str(s.as_str().substring_char(0, len - decimals));
        text.append(".");
        text.append(s.as_str().substring_char(len - decimals, len));
        assert(text@ =~= fixed_text(amount@, decimals as nat)) by {
            assert(s@.subrange(0, len - decimals) =~= s@.take(len - decimals));
            assert(s@.subrange(len - decimals, len as int) =~= s@.skip(len - decimals));
        }
        text
    }
}

/// The text of `amount / 10^decimals` in its shortest form.
pub fn format_amount(amount: Amount, decimals: usize) -> (r: String)
    ensures
        r@ == shortest_text(amount@, decimals as nat),
{
    let s = u256_to_string(&amount);
    if decimals == 0 {
        assert(amount@ / pow10(0) == amount@);
        return s;
    }
    let len: usize = s.as_str().unicode_len();
    proof {
        reveal_strlit("0");
        reveal_strlit("0.");
        reveal_strlit(".");
    }
    if len <= decimals {
        proof {
            lemma_all_fraction(amount@, decimals as nat);
        }
        let mut frac = String::new();
        append_zeros(&mut frac, decimals - len);
        frac.append(s.as_str());
        assert(frac@ =~= padded(amount@, decimals as nat));
        let frac_trimmed = trim_zeros(frac.as_str());
        let text = if frac_trimmed.unicode_len() == 0 {
            String::from_str("0")
        } else {
            String::from_str("0.").concat(frac_trimmed)
        };
        assert(text@ =~= shortest_text(amount@, decimals as nat));
        text
    } else {
        proof {
            lemma_whole_and_fraction(amount@, decimals as nat);
        }
        let int_part = s.as_str().substring_char(0, len - decimals);
        let frac_part = s.as_str().substring_char(len - decimals, len);
        assert(int_part@ =~= s@.take(len - decimals));
        assert(frac_part@ =~= s@.skip(len - decimals));
        let frac_trimmed = trim_zeros(frac_part);
        let text = if frac_trimmed.unicode_len() == 0 {
            String::from_str(int_part)
        } else {
            String::from_str(int_part).concat(".").concat(frac_trimmed)
        };
        assert(text@ =~= shortest_text(amount@, decimals as nat));
        text
    }
}

/// Any number of whole tokens and any further units make an amount, for a token of up to 38
/// decimals.
pub proof fn law_common_tokens_fit(whole: u128, frac_units: u128, decimals: nat)
    requires
        decimals <= 38,
    ensures
        pow10(decimals) < amount_limit(),
        whole * pow10(decimals) + frac_units < amount_limit(),
{
    reveal_with_fuel(pow10, 39);
    lemma_pow10_increases(decimals, 38);
    let p = pow10(decimals);
    assert(whole * p <= u128::MAX * pow10(38)) by (nonlinear_arith)
        requires
            whole <= u128::MAX,
            p <= pow10(38),
    ;
}

/// The token units of `whole` tokens and `frac_units` further units, a token being
/// `10^decimals` units.
pub fn build_token_u256(whole: u128, frac_units: u128, decimals: usize) -> (r: Amount)
    requires
        pow10(decimals as nat) < amount_limit(),
        whole * pow10(decimals as nat) + frac_units < amount_limit(),
    ensures
        r@ == whole * pow10(decimals as nat) + frac_units,
{
    proof {
        lemma_pow10_positive(decimals as nat);
        assert(whole * pow10(decimals as nat) >= 0) by (nonlinear_arith);
    }
    let whole_part = u256_mul(&u256_from_u128(whole), &u256_exp10(decimals));
    let frac_part = u256_from_u128(frac_units);
    u256_add(&whole_part, &frac_part)
}

/// Where the first point of `s` stands; the length of `s` where there is none.
pub open spec fn point(s: Seq<char>) -> nat
    decreases s.len(),
{
    if s.len() == 0 || s[0] == '.' {
        0
    } else {
        1 + point(s.drop_first())
    }
}

/// How many units the text `s` denotes, read as a decimal fraction of a token of `10^places`
/// units.
pub open spec fn read_units(s: Seq<char>, places: nat) -> nat {
    let whole = s.take(point(s) as int);
    let fraction = if point(s) < s.len() {
        s.skip(point(s) as int + 1)
    } else {
        Seq::empty()
    };
    numeral(whole) * pow10(places) + numeral(fraction) * pow10((places - fraction.len()) as nat)
}

/// Digits hold no point, so the first point is where one was put.
proof fn lemma_point(whole: Seq<char>, rest: Seq<char>)
    requires
        all_digits(whole),
        rest.len() > 0 ==> rest[0] == '.',
    ensures
        point(whole + rest) == whole.len(),
    decreases whole.len(),
{
    let s = whole + rest;
    if whole.len() == 0 {
        assert(s =~= rest);
    } else {
        assert(is_digit(whole[0]));
        assert(s[0] == whole[0]);
        assert(all_digits(whole.drop_first())) by {
            assert forall|i: int| 0 <= i < whole.drop_first().len() implies is_digit(
                #[trigger] whole.drop_first()[i],
            ) by {
                assert(is_digit(whole[i + 1]));
            }
        }
        lemma_point(whole.drop_first(), rest);
        assert(s.drop_first() =~= whole.drop_first() + rest);
    }
}

proof fn lemma_times_one(v: nat)
    ensures
        v * pow10(0) == v,
{
    assert(pow10(0) == 1);
    assert(v * 1 == v);
}

/// Each zero cut from the end of a numeral divides it by ten.
proof fn lemma_trimmed(s: Seq<char>)
    requires
        all_digits(s),
    ensures
        trimmed(s).len() <= s.len(),
        all_digits(trimmed(s)),
        numeral(s) == numeral(trimmed(s)) * pow10((s.len() - trimmed(s).len()) as nat),
        trimmed(s).len() > 0 ==> trimmed(s).last() != '0',
    decreases s.len(),
{
    if s.len() > 0 && s.last() == '0' {
        let t = s.drop_last();
        lemma_trimmed(t);
        let k = (t.len() - trimmed(t).len()) as nat;
        assert(pow10(k + 1) == 10 * pow10(k));
        let v = numeral(trimmed(t)) as int;
        let p = pow10(k) as int;
        assert(10 * (v * p) == v * (10 * p)) by (nonlinear_arith);
        assert((s.len() - trimmed(s).len()) as nat == k + 1);
    } else {
        lemma_times_one(numeral(s));
    }
}

/// The text with all fractional digits denotes the amount exactly: nothing is lost by it.
pub proof fn law_fixed_text_is_exact(n: nat, places: nat)
    ensures
        read_units(fixed_text(n, places), places) == n,
{
    let p = pow10(places);
    let whole = decimal(n / p);
    let fraction = padded(n % p, places);
    lemma_pow10_positive(places);
    lemma_decimal_digits(n / p);
    lemma_padded_len(n % p, places);
    law_decimal_reads_back(n / p);
    law_padded_reads_back(n % p, places);
    lemma_mod_twice(n as int, p as int);
    lemma_fundamental_div_mod(n as int, p as int);
    let text = fixed_text(n, places);
    lemma_times_one(numeral(fraction));
    if places == 0 {
        assert(n / 1 == n);
        assert(text =~= whole + Seq::<char>::empty());
        lemma_point(whole, Seq::<char>::empty());
        assert(text.take(point(text) as int) =~= whole);
    } else {
        assert(text =~= whole + (seq!['.'] + fraction));
        lemma_point(whole, seq!['.'] + fraction);
        assert(text.take(point(text) as int) =~= whole);
        assert(text.skip(point(text) as int + 1) =~= fraction);
    }
    assert(numeral(whole) * p == p * (n / p)) by (nonlinear_arith)
        requires
            numeral(whole) == n / p,
    ;
}

/// The shortest text denotes the amount exactly: trimming drops no value.
pub proof fn law_shortest_text_is_exact(n: nat, places: nat)
    ensures
        read_units(shortest_text(n, places), places) == n,
{
    let p = pow10(places);
    let whole = decimal(n / p);
    let full = padded(n % p, places);
    let fraction = trimmed(full);
    lemma_pow10_positive(places);
    lemma_decimal_digits(n / p);
    lemma_padded_len(n % p, places);
    lemma_trimmed(full);
    law_decimal_reads_back(n / p);
    law_padded_reads_back(n % p, places);
    lemma_mod_twice(n as int, p as int);
    lemma_fundamental_div_mod(n as int, p as int);
    let text = shortest_text(n, places);
    if fraction.len() == 0 {
        assert(text =~= whole + Seq::<char>::empty());
        lemma_point(whole, Seq::<char>::empty());
        assert(text.take(point(text) as int) =~= whole);
        assert(fraction =~= Seq::<char>::empty());
    } else {
        assert(text =~= whole + (seq!['.'] + fraction));
        lemma_point(whole, seq!['.'] + fraction);
        assert(text.take(point(text) as int) =~= whole);
        assert(text.skip(point(text) as int + 1) =~= fraction);
    }
    assert(numeral(whole) * p == p * (n / p)) by (nonlinear_arith)
        requires
            numeral(whole) == n / p,
    ;
}

/// The text with all fractional digits is a decimal literal: digits, and behind them, where the
/// token has decimals, a point and exactly that many digits.
pub proof fn law_fixed_text_is_a_literal(n: nat, places: nat)
    ensures
        ({
            let s = fixed_text(n, places);
            &&& point(s) > 0
            &&& all_digits(s.take(point(s) as int))
            &&& places == 0 ==> point(s) == s.len()
            &&& places > 0 ==> s.len() == point(s) + 1 + places && all_digits(
                s.skip(point(s) as int + 1),
            )
        }),
{
    let p = pow10(places);
    let fraction = padded(n % p, places);
    lemma_pow10_positive(places);
    lemma_padded_len(n % p, places);
    let s = fixed_text(n, places);
    if places == 0 {
        lemma_decimal_digits(n);
        lemma_point(s, Seq::<char>::empty());
        assert(s + Seq::<char>::empty() =~= s);
        assert(s.take(point(s) as int) =~= s);
    } else {
        let whole = decimal(n / p);
        lemma_decimal_digits(n / p);
        assert(s =~= whole + (seq!['.'] + fraction));
        lemma_point(whole, seq!['.'] + fraction);
        assert(s.take(point(s) as int) =~= whole);
        assert(s.skip(point(s) as int + 1) =~= fraction);
    }
}

/// Two amounts of one token with the same text, in either form, are the same amount.
pub proof fn law_texts_are_unambiguous(a: nat, b: nat, places: nat)
    ensures
        fixed_text(a, places) == fixed_text(b, places) ==> a == b,
        shortest_text(a, places) == shortest_text(b, places) ==> a == b,
{
    law_fixed_text_is_exact(a, places);
    law_fixed_text_is_exact(b, places);
    law_shortest_text_is_exact(a, places);
    law_shortest_text_is_exact(b, places);
}

/// The shortest text never ends in a point, nor in a zero behind a point.
pub proof fn law_shortest_text_is_trimmed(n: nat, places: nat)
    ensures
        ({
            let s = shortest_text(n, places);
            &&& s.len() > 0
            &&& s.last() != '.'
            &&& point(s) < s.len() ==> s.last() != '0'
        }),
{
    let p = pow10(places);
    let whole = decimal(n / p);
    let fraction = trimmed(padded(n % p, places));
    lemma_pow10_positive(places);
    lemma_decimal_digits(n / p);
    lemma_padded_len(n % p, places);
    lemma_trimmed(padded(n % p, places));
    let s = shortest_text(n, places);
    if fraction.len() == 0 {
        assert(s =~= whole + Seq::<char>::empty());
        lemma_point(whole, Seq::<char>::empty());
        assert(is_digit(whole.last()));
    } else {
        assert(is_digit(fraction.last()));
        assert(s.last() == fraction.last());
    }
}

/// The parts that a token amount is built from show in its text: the whole tokens before the
/// point, the further units behind it.
pub proof fn law_built_amount_shows_its_parts(whole: nat, frac_units: nat, places: nat)
    requires
        frac_units < pow10(places),
        places > 0,
    ensures
        fixed_text(whole * pow10(places) + frac_units, places) == decimal(whole) + seq!['.']
            + padded(frac_units, places),
{
    let p = pow10(places);
    let n = whole * p + frac_units;
    lemma_fundamental_div_mod_converse(n as int, p as int, whole as int, frac_units as int);
}

/// The digits of the whole part are the higher digits of the amount.
proof fn lemma_digit_of_whole(n: nat, places: nat, k: nat)
    ensures
        digit_at(n / pow10(places), k) == digit_at(n, places + k),
{
    law_powers_of_ten(places);
    lemma_pow_positive(10, places);
    lemma_pow_positive(10, k);
    lemma_div_denominator(n as int, pow(10, places), pow(10, k));
    lemma_pow_adds(10, places, k);
}

/// The full text is positional: the point stands in front of the last `places` characters, each
/// character behind it and before it is the digit of its place, and there is a place for every
/// digit of the amount. A whole part of more than one digit does not start with a zero.
pub proof fn law_fixed_text_is_positional(n: nat, places: nat)
    requires
        places > 0,
    ensures
        ({
            let s = fixed_text(n, places);
            let whole = s.take(s.len() - places - 1);
            &&& s.len() >= places + 2
            &&& s[s.len() - places - 1] == '.'
            &&& ends_in_digits(s, n, places)
            &&& forall|k: int|
                0 <= k < whole.len() ==> (#[trigger] whole[whole.len() - 1 - k]) as int
                    == '0' as int + digit_at(n, (places + k) as nat)
            &&& n < pow(10, (s.len() - 1) as nat)
            &&& whole.len() == 1 || whole[0] != '0'
        }),
{
    let p = pow10(places);
    let high = n / p;
    let front = decimal(high);
    let back = padded(n % p, places);
    let s = fixed_text(n, places);
    lemma_pow10_positive(places);
    law_powers_of_ten(places);
    law_decimal_is_positional(high);
    law_padded_is_positional(n, places);
    lemma_padded_mod(n, places);
    let whole = s.take(s.len() - places - 1);
    assert(whole =~= front);
    assert forall|i: int| 0 <= i < places implies (#[trigger] s[s.len() - 1 - i]) as int
        == '0' as int + digit_at(n, i as nat) by {
        assert(s[s.len() - 1 - i] == back[back.len() - 1 - i]);
    }
    assert forall|k: int| 0 <= k < whole.len() implies (#[trigger] whole[whole.len() - 1
        - k]) as int == '0' as int + digit_at(n, (places + k) as nat) by {
        lemma_digit_of_whole(n, places, k as nat);
        assert(front[front.len() - 1 - k] as int == '0' as int + digit_at(high, k as nat));
    }
    assert(n < pow(10, (s.len() - 1) as nat)) by {
        lemma_pow_adds(10, front.len(), places);
        lemma_fundamental_div_mod(n as int, p as int);
        assert(high + 1 <= pow(10, front.len()));
        assert(p * (high + 1) <= p * pow(10, front.len())) by (nonlinear_arith)
            requires
                high + 1 <= pow(10, front.len()),
                p > 0,
        ;
        assert(p * (high + 1) == p * high + p) by (nonlinear_arith);
        assert(p * pow(10, front.len()) == pow(10, front.len()) * p) by (nonlinear_arith);
        assert(s.len() - 1 == front.len() + places);
    }
}

/// Without decimals both texts are the numeral of the amount.
pub proof fn law_texts_without_decimals(n: nat)
    ensures
        fixed_text(n, 0) == decimal(n),
        shortest_text(n, 0) == decimal(n),
{
    assert(pow10(0) == 1);
    assert(n / 1 == n);
}

/// A trimmed string is the start of the string; what it lost is zeros.
proof fn lemma_trimmed_is_a_start(s: Seq<char>)
    ensures
        trimmed(s).len() <= s.len(),
        trimmed(s) == s.take(trimmed(s).len() as int),
        forall|i: int| trimmed(s).len() <= i < s.len() ==> s[i] == '0',
    decreases s.len(),
{
    if s.len() > 0 && s.last() == '0' {
        let t = s.drop_last();
        lemma_trimmed_is_a_start(t);
        assert(trimmed(s) =~= s.take(trimmed(s).len() as int));
        assert forall|i: int| trimmed(s).len() <= i < s.len() implies s[i] == '0' by {
            if i < t.len() {
                assert(t[i] == '0');
            }
        }
    } else {
        assert(s.take(s.len() as int) =~= s);
    }
}

/// The shortest text is a start of the full text. What it leaves out is zeros, and the point in
/// front of them where no other digit follows it.
pub proof fn law_shortest_text_starts_the_full_text(n: nat, places: nat)
    ensures
        ({
            let short = shortest_text(n, places);
            let full = fixed_text(n, places);
            &&& short.len() <= full.len()
            &&& short == full.take(short.len() as int)
            &&& forall|i: int|
                short.len() <= i < full.len() ==> full[i] == '0' || (full[i] == '.' && i
                    == short.len())
        }),
{
    let short = shortest_text(n, places);
    let full = fixed_text(n, places);
    if places == 0 {
        law_texts_without_decimals(n);
        assert(full.take(full.len() as int) =~= full);
    } else {
        let whole = decimal(n / pow10(places));
        let back = padded(n % pow10(places), places);
        lemma_trimmed_is_a_start(back);
        let kept = trimmed(back);
        assert(short =~= full.take(short.len() as int));
        assert forall|i: int| short.len() <= i < full.len() implies full[i] == '0' || (full[i]
            == '.' && i == short.len()) by {
            if i > whole.len() {
                assert(full[i] == back[i - whole.len() - 1]);
            }
        }
    }
}

} // verus!
