//! Decimal numerals: how a number is written in base ten, and how a numeral is read back.

use vstd::arithmetic::div_mod::*;
use vstd::arithmetic::power::*;
use vstd::prelude::*;
use vstd::string::*;

verus! {

/// Ten to the power `e`.
pub open spec fn pow10(e: nat) -> nat
    decreases e,
{
    if e == 0 {
        1
    } else {
        10 * pow10((e - 1) as nat)
    }
}

/// The character that stands for the digit `d`.
pub open spec fn digit_char(d: nat) -> char {
    (48 + d) as char
}

/// The numeral of `n` without leading zeros.
pub open spec fn decimal(n: nat) -> Seq<char>
    decreases n,
{
    if n < 10 {
        seq![digit_char(n)]
    } else {
        decimal(n / 10).push(digit_char(n % 10))
    }
}

/// The lowest `width` digits of `n`, leading zeros kept.
pub open spec fn padded(n: nat, width: nat) -> Seq<char>
    decreases width,
{
    if width == 0 {
        Seq::empty()
    } else {
        padded(n / 10, (width - 1) as nat).push(digit_char(n % 10))
    }
}

/// A run of `count` zeros.
pub open spec fn zeros(count: nat) -> Seq<char> {
    Seq::new(count, |i: int| '0')
}

/// Whether `c` is one of the ten digits.
pub open spec fn is_digit(c: char) -> bool {
    '0' <= c <= '9'
}

/// Whether `s` holds nothing but digits.
pub open spec fn all_digits(s: Seq<char>) -> bool {
    forall|i: int| 0 <= i < s.len() ==> is_digit(#[trigger] s[i])
}

/// The number that a string of digits denotes.
pub open spec fn numeral(s: Seq<char>) -> nat
    decreases s.len(),
{
    if s.len() == 0 {
        0
    } else {
        (10 * numeral(s.drop_last()) + (s.last() as int - 48)) as nat
    }
}

pub(crate) proof fn lemma_pow10_positive(e: nat)
    ensures
        pow10(e) > 0,
    decreases e,
{
    if e > 0 {
        lemma_pow10_positive((e - 1) as nat);
    }
}

pub(crate) proof fn lemma_pow10_increases(a: nat, b: nat)
    requires
        a <= b,
    ensures
        pow10(a) <= pow10(b),
    decreases b,
{
    if a < b {
        lemma_pow10_increases(a, (b - 1) as nat);
    }
}

/// Dividing by ten and then by `10^e` is dividing by `10^(e+1)`.
proof fn lemma_shift(n: nat, e: nat)
    ensures
        (n / 10) / pow10(e) == n / pow10(e + 1),
        (n / 10) % pow10(e) == (n % pow10(e + 1)) / 10,
        n % 10 == (n % pow10(e + 1)) % 10,
{
    lemma_pow10_positive(e);
    let p = pow10(e) as int;
    assert(pow10(e + 1) == 10 * p);
    lemma_div_denominator(n as int, 10, p);
    lemma_mod_breakdown(n as int, 10, p);
    let m = (n as int) % (10 * p);
    let q = ((n / 10) as int) % p;
    assert(m == 10 * q + (n % 10) as int);
}

pub(crate) proof fn lemma_padded_len(n: nat, width: nat)
    ensures
        padded(n, width).len() == width,
        all_digits(padded(n, width)),
    decreases width,
{
    if width > 0 {
        lemma_padded_len(n / 10, (width - 1) as nat);
    }
}

pub(crate) proof fn lemma_decimal_digits(n: nat)
    ensures
        decimal(n).len() >= 1,
        all_digits(decimal(n)),
    decreases n,
{
    if n >= 10 {
        lemma_decimal_digits(n / 10);
    }
}

/// Only the lowest digits of a number show in its padded form.
pub(crate) proof fn lemma_padded_mod(n: nat, width: nat)
    ensures
        padded(n % pow10(width), width) == padded(n, width),
    decreases width,
{
    if width > 0 {
        let w = (width - 1) as nat;
        lemma_shift(n, w);
        lemma_padded_mod(n / 10, w);
        lemma_pow10_positive(width);
    }
}

/// A numeral has more than `width` digits exactly when the number is at least `10^width`.
pub(crate) proof fn lemma_decimal_len(n: nat, width: nat)
    requires
        width >= 1,
    ensures
        decimal(n).len() > width <==> n >= pow10(width),
    decreases width,
{
    reveal_with_fuel(pow10, 2);
    if n < 10 {
        lemma_pow10_increases(1, width);
    } else if width == 1 {
        lemma_decimal_digits(n / 10);
    } else {
        lemma_decimal_len(n / 10, (width - 1) as nat);
        let p = pow10((width - 1) as nat);
        assert(n / 10 >= p <==> n >= 10 * p);
    }
}

/// The numeral of a number with more than `width` digits splits into the numeral of its high
/// part and its `width` lowest digits.
pub(crate) proof fn lemma_decimal_split(n: nat, width: nat)
    requires
        n >= pow10(width),
    ensures
        decimal(n) == decimal(n / pow10(width)) + padded(n, width),
    decreases width,
{
    lemma_pow10_positive(width);
    if width == 0 {
        assert(n / 1 == n);
        assert(decimal(n) + padded(n, 0) =~= decimal(n));
    } else {
        let w = (width - 1) as nat;
        lemma_pow10_positive(w);
        lemma_shift(n, w);
        assert(n / 10 >= pow10(w));
        lemma_decimal_split(n / 10, w);
        assert(decimal(n) =~= decimal(n / pow10(width)) + padded(n, width));
    }
}

/// The padded form of a short number is its numeral behind zeros.
pub(crate) proof fn lemma_padded_short(n: nat, width: nat)
    requires
        width >= 1,
        n < pow10(width),
    ensures
        decimal(n).len() <= width,
        padded(n, width) == zeros((width - decimal(n).len()) as nat) + decimal(n),
    decreases width,
{
    lemma_decimal_len(n, width);
    let w = (width - 1) as nat;
    if n < 10 {
        lemma_padded_zero(w);
        assert(padded(n, width) =~= zeros(w) + decimal(n));
    } else {
        reveal_with_fuel(pow10, 2);
        assert(w >= 1);
        assert(n / 10 < pow10(w));
        lemma_padded_short(n / 10, w);
        assert(padded(n, width) =~= zeros((width - decimal(n).len()) as nat) + decimal(n));
    }
}

pub(crate) proof fn lemma_padded_zero(width: nat)
    ensures
        padded(0, width) == zeros(width),
    decreases width,
{
    if width > 0 {
        lemma_padded_zero((width - 1) as nat);
    }
    assert(padded(0, width) =~= zeros(width));
}

/// Reading a numeral back gives the number it was written from.
pub proof fn law_decimal_reads_back(n: nat)
    ensures
        numeral(decimal(n)) == n,
    decreases n,
{
    if n < 10 {
        reveal_with_fuel(numeral, 2);
        assert(decimal(n).drop_last() =~= Seq::<char>::empty());
    } else {
        law_decimal_reads_back(n / 10);
        assert(decimal(n).drop_last() =~= decimal(n / 10));
    }
}

/// Reading a padded number back gives its lowest digits.
pub proof fn law_padded_reads_back(n: nat, width: nat)
    ensures
        numeral(padded(n, width)) == n % pow10(width),
    decreases width,
{
    if width > 0 {
        let w = (width - 1) as nat;
        law_padded_reads_back(n / 10, w);
        lemma_shift(n, w);
        assert(padded(n, width).drop_last() =~= padded(n / 10, w));
    }
}

/// The string of the single digit `d`.
fn digit_text(d: u64) -> (r: &'static str)
    requires
        d < 10,
    ensures
        r@ == seq![digit_char(d as nat)],
{
    proof {
        reveal_strlit("0");
        reveal_strlit("1");
        reveal_strlit("2");
        reveal_strlit("3");
        reveal_strlit("4");
        reveal_strlit("5");
        reveal_strlit("6");
        reveal_strlit("7");
        reveal_strlit("8");
        reveal_strlit("9");
    }
    let r = match d {
        0 => "0",
        1 => "1",
        2 => "2",
        3 => "3",
        4 => "4",
        5 => "5",
        6 => "6",
        7 => "7",
        8 => "8",
        _ => "9",
    };
    assert(r@ =~= seq![digit_char(d as nat)]);
    r
}

/// Writes `n` as a decimal numeral.
pub fn decimal_u64(n: u64) -> (r: String)
    ensures
        r@ == decimal(n as nat),
    decreases n,
{
    if n < 10 {
        String::from_str(digit_text(n))
    } else {
        let mut s = decimal_u64(n / 10);
        s.append(digit_text(n % 10));
        assert(s@ =~= decimal(n as nat));
        s
    }
}

/// Powers of ten are what exponentiation gives.
pub proof fn law_powers_of_ten(e: nat)
    ensures
        pow10(e) as int == pow(10, e),
    decreases e,
{
    reveal(pow);
    if e > 0 {
        law_powers_of_ten((e - 1) as nat);
    }
}

/// The digit of `n` at the place of `10^i`.
pub open spec fn digit_at(n: nat, i: nat) -> int {
    (n as int / pow(10, i)) % 10
}

/// Moving a number one place down moves its digits one place down.
proof fn lemma_digit_at_shift(n: nat, i: nat)
    ensures
        digit_at(n / 10, i) == digit_at(n, i + 1),
{
    lemma_pow_positive(10, i);
    lemma_div_denominator(n as int, 10, pow(10, i));
    lemma_pow_adds(10, 1, i);
    lemma_pow1(10);
    assert(10 * pow(10, i) == pow(10, i + 1));
}

/// Whether the last `width` characters of `s` are the lowest `width` digits of `n`, each at its
/// place and each as the character that lies as far behind `0` as the digit is large.
pub open spec fn ends_in_digits(s: Seq<char>, n: nat, width: nat) -> bool {
    &&& s.len() >= width
    &&& forall|i: int|
        0 <= i < width ==> (#[trigger] s[s.len() - 1 - i]) as int == '0' as int + digit_at(
            n,
            i as nat,
        )
}

proof fn lemma_ends_in_digits(front: Seq<char>, n: nat, width: nat)
    requires
        ends_in_digits(front, n / 10, width),
    ensures
        ends_in_digits(front.push(digit_char(n % 10)), n, width + 1),
{
    let s = front.push(digit_char(n % 10));
    assert forall|i: int| 0 <= i < width + 1 implies (#[trigger] s[s.len() - 1 - i]) as int
        == '0' as int + digit_at(n, i as nat) by {
        if i == 0 {
            lemma_pow0(10);
            assert(n as int / 1 == n);
        } else {
            assert(s[s.len() - 1 - i] == front[front.len() - 1 - (i - 1)]);
            lemma_digit_at_shift(n, (i - 1) as nat);
        }
    }
}

/// A numeral is positional: each character is the digit of its place. It has a place for every
/// digit of the number and, but for zero itself, no zero in front.
pub proof fn law_decimal_is_positional(n: nat)
    ensures
        decimal(n).len() >= 1,
        ends_in_digits(decimal(n), n, decimal(n).len()),
        n < pow(10, decimal(n).len()),
        decimal(n).len() == 1 || decimal(n)[0] != '0',
    decreases n,
{
    let s = decimal(n);
    if n < 10 {
        lemma_pow0(10);
        lemma_pow1(10);
        assert(n as int / 1 == n);
        assert(ends_in_digits(s, n, 1));
    } else {
        law_decimal_is_positional(n / 10);
        let front = decimal(n / 10);
        lemma_ends_in_digits(front, n, front.len());
        lemma_pow_adds(10, 1, front.len());
        lemma_pow1(10);
        assert(s[0] == front[0]);
        if front.len() == 1 {
            lemma_pow0(10);
            lemma_pow1(10);
            assert(ends_in_digits(front, n / 10, 1));
            assert(front[front.len() - 1 - 0] as int == 48 + digit_at(n / 10, 0));
            assert((n / 10) as int / 1 == n / 10);
            assert(n / 10 < 10);
        }
    }
}

/// The padded form of a number is positional too, and has as many characters as asked for.
pub proof fn law_padded_is_positional(n: nat, width: nat)
    ensures
        padded(n, width).len() == width,
        ends_in_digits(padded(n, width), n, width),
    decreases width,
{
    if width > 0 {
        let w = (width - 1) as nat;
        law_padded_is_positional(n / 10, w);
        lemma_ends_in_digits(padded(n / 10, w), n, w);
    }
}

/// Reading a numeral digit by digit: each further digit multiplies by ten what came before it.
pub proof fn law_numerals_are_read_digit_by_digit(s: Seq<char>, d: char)
    requires
        '0' <= d <= '9',
    ensures
        numeral(Seq::<char>::empty()) == 0,
        numeral(s.push(d)) == 10 * numeral(s) + (d as int - '0' as int),
{
    assert(s.push(d).drop_last() =~= s);
}

/// Two numbers with the same numeral are the same number.
pub proof fn law_numerals_are_unambiguous(a: nat, b: nat)
    requires
        decimal(a) == decimal(b),
    ensures
        a == b,
{
    law_decimal_reads_back(a);
    law_decimal_reads_back(b);
}

/// Only the ten digits count as digits.
pub proof fn law_digits_are_the_ten(c: char, s: Seq<char>, i: int)
    ensures
        is_digit(c) <==> 48 <= c as int <= 57,
        all_digits(s) && 0 <= i < s.len() ==> 48 <= s[i] as int <= 57,
        all_digits(s.push(c)) <==> all_digits(s) && is_digit(c),
{
    if all_digits(s) && 0 <= i < s.len() {
        assert(is_digit(s[i]));
    }
    if all_digits(s.push(c)) {
        assert(is_digit(s.push(c)[s.len() as int]));
        assert forall|j: int| 0 <= j < s.len() implies is_digit(#[trigger] s[j]) by {
            assert(is_digit(s.push(c)[j]));
        }
    }
}

} // verus!
