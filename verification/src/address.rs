//! Addresses of contracts and accounts, and the paths that swaps take.

use vstd::prelude::*;

verus! {

/// A twenty-byte address.
#[derive(Clone, Copy, Debug, PartialEq, Eq)]
pub struct Address {
    pub bytes: [u8; 20],
}

/// Whether `c` is a blank that an address may hold anywhere behind its prefix.
pub open spec fn is_blank(c: char) -> bool {
    c == ' ' || c == '\t' || c == '\r' || c == '\n'
}

/// The value of a hexadecimal digit, in either case.
pub open spec fn hex_value(c: char) -> Option<int> {
    if '0' <= c <= '9' {
        Some(c as int - '0' as int)
    } else if 'a' <= c <= 'f' {
        Some(c as int - 'a' as int + 10)
    } else if 'A' <= c <= 'F' {
        Some(c as int - 'A' as int + 10)
    } else {
        None
    }
}

/// The characters of an address in hexadecimal: without the prefix `0x`, which may be missing,
/// and without blanks.
pub open spec fn address_digits(text: Seq<char>) -> Seq<char> {
    let body = if text.len() >= 2 && text[0] == '0' && text[1] == 'x' {
        text.skip(2)
    } else {
        text
    };
    body.filter(|c: char| !is_blank(c))
}

/// The bytes that a text denotes as an address: two hexadecimal digits each, the higher one
/// first. A text that holds anything but forty digits denotes none.
pub open spec fn address_bytes(text: Seq<char>) -> Option<Seq<u8>> {
    let digits = address_digits(text);
    if digits.len() == 40 && (forall|i: int|
        0 <= i < 40 ==> hex_value(#[trigger] digits[i]) is Some) {
        Some(
            Seq::new(
                20,
                |i: int|
                    (16 * hex_value(digits[2 * i]).unwrap() + hex_value(
                        digits[2 * i + 1],
                    ).unwrap()) as u8,
            ),
        )
    } else {
        None
    }
}

/// The message about a text that denotes no address.
pub uninterp spec fn address_error(text: Seq<char>) -> Seq<char>;

/// `Address::from_str`: the address that the text denotes in hexadecimal, or the message of its
/// error. What the message says is left unsaid; it depends on the text alone.
#[verifier::external_body]
pub(crate) fn h160_from_str(text: &str) -> (r: Result<[u8; 20], String>)
    ensures
        match r {
            Ok(bytes) => address_bytes(text@) == Some(bytes@),
            Err(message) => address_bytes(text@) is None && message@ == address_error(text@),
        },
{
    match text.parse::<ethers::types::Address>() {
        Ok(address) => Ok(address.0),
        Err(e) => Err(e.to_string()),
    }
}

impl Address {
    /// Whether every byte is zero.
    pub open spec fn is_zero(self) -> bool {
        self.bytes@ == Seq::new(20, |i: int| 0u8)
    }

    /// The address of all zeros.
    pub fn zero() -> (r: Address)
        ensures
            r.is_zero(),
            forall|i: int| 0 <= i < 20 ==> r.bytes@[i] == 0,
    {
        let r = Address { bytes: [0; 20] };
        assert(r.bytes@ =~= Seq::new(20, |i: int| 0u8));
        r
    }

    /// The address that a text denotes, or the message of the error.
    pub fn parse(text: &str) -> (r: Result<Address, String>)
        ensures
            match r {
                Ok(a) => address_bytes(text@) == Some(a.bytes@),
                Err(message) => address_bytes(text@) is None && message@ == address_error(text@),
            },
    {
        match h160_from_str(text) {
            Ok(bytes) => Ok(Address { bytes }),
            Err(message) => Err(message),
        }
    }
}

/// The path of a swap of one token for another.
pub fn swap_path(from: Address, to: Address) -> (r: Vec<Address>)
    ensures
        r@ == seq![from, to],
{
    let mut path: Vec<Address> = Vec::new();
    path.push(from);
    path.push(to);
    assert(path@ =~= seq![from, to]);
    path
}

/// The address of all zeros is the one whose twenty bytes are all zero.
pub proof fn law_zero_address(a: Address)
    ensures
        a.is_zero() <==> forall|i: int| 0 <= i < 20 ==> a.bytes@[i] == 0,
{
    if forall|i: int| 0 <= i < 20 ==> a.bytes@[i] == 0 {
        assert(a.bytes@ =~= Seq::new(20, |i: int| 0u8));
    }
    if a.is_zero() {
        assert forall|i: int| 0 <= i < 20 implies a.bytes@[i] == 0 by {
            assert(a.bytes@[i] == Seq::new(20, |i: int| 0u8)[i]);
        }
    }
}

/// The sixteen hexadecimal digits stand for the numbers from 0 to 15, letters in either case, and
/// nothing else is a digit.
pub proof fn law_hexadecimal_digits(c: char)
    ensures
        hex_value(c) is Some <==> 48 <= c as int <= 57 || 65 <= c as int <= 70 || 97 <= c as int
            <= 102,
        hex_value(c) matches Some(v) ==> 0 <= v < 16,
        48 <= c as int <= 57 ==> hex_value(c) == Some(c as int - 48),
        65 <= c as int <= 70 ==> hex_value(c) == Some(c as int - 55),
        97 <= c as int <= 102 ==> hex_value(c) == Some(c as int - 87),
{
}

/// A string without blanks is left as it is.
proof fn lemma_nothing_filtered(s: Seq<char>)
    requires
        forall|i: int| 0 <= i < s.len() ==> !is_blank(#[trigger] s[i]),
    ensures
        s.filter(|c: char| !is_blank(c)) == s,
    decreases s.len(),
{
    reveal(Seq::filter);
    if s.len() > 0 {
        lemma_nothing_filtered(s.drop_last());
        assert(s =~= s.drop_last().push(s.last()));
    }
}

/// Forty hexadecimal digits are an address, with the prefix `0x` and without: each byte is made
/// of two digits, the first of which counts sixteen times as much.
pub proof fn law_forty_digits_are_an_address(digits: Seq<char>)
    requires
        digits.len() == 40,
        forall|i: int| 0 <= i < 40 ==> hex_value(#[trigger] digits[i]) is Some,
    ensures
        address_bytes(digits) == address_bytes(seq!['0', 'x'] + digits),
        address_bytes(digits) matches Some(bytes) && bytes.len() == 20 && forall|i: int|
            0 <= i < 20 ==> #[trigger] bytes[i] == 16 * hex_value(digits[2 * i]).unwrap()
                + hex_value(digits[2 * i + 1]).unwrap(),
{
    assert forall|i: int| 0 <= i < digits.len() implies !is_blank(#[trigger] digits[i]) by {
        assert(hex_value(digits[i]) is Some);
    }
    lemma_nothing_filtered(digits);
    assert(hex_value(digits[1]) is Some);
    assert((seq!['0', 'x'] + digits).skip(2) =~= digits);
    let bytes = address_bytes(digits).unwrap();
    assert forall|i: int| 0 <= i < 20 implies #[trigger] bytes[i] == 16 * hex_value(
        digits[2 * i],
    ).unwrap() + hex_value(digits[2 * i + 1]).unwrap() by {
        law_hexadecimal_digits(digits[2 * i]);
        law_hexadecimal_digits(digits[2 * i + 1]);
        assert(hex_value(digits[2 * i]) is Some);
        assert(hex_value(digits[2 * i + 1]) is Some);
    }
}

/// A blank behind the first two characters of a text changes nothing.
pub proof fn law_blanks_do_not_count(front: Seq<char>, blank: char, rest: Seq<char>)
    requires
        front.len() >= 2,
        blank == ' ' || blank == '\t' || blank == '\r' || blank == '\n',
    ensures
        address_bytes(front + seq![blank] + rest) == address_bytes(front + rest),
{
    let keep = |c: char| !is_blank(c);
    let a = front + seq![blank] + rest;
    let b = front + rest;
    let body = if front[0] == '0' && front[1] == 'x' {
        front.skip(2)
    } else {
        front
    };
    Seq::filter_distributes_over_add(body, seq![blank], keep);
    Seq::filter_distributes_over_add(body + seq![blank], rest, keep);
    Seq::filter_distributes_over_add(body, rest, keep);
    assert(seq![blank].filter(keep) =~= Seq::<char>::empty()) by {
        reveal(Seq::filter);
        reveal_with_fuel(Seq::filter, 2);
        assert(seq![blank].drop_last() =~= Seq::<char>::empty());
    }
    assert(body.filter(keep) + Seq::<char>::empty() =~= body.filter(keep));
    if front[0] == '0' && front[1] == 'x' {
        assert(a.skip(2) =~= body + seq![blank] + rest);
        assert(b.skip(2) =~= body + rest);
    }
}

/// A text without blanks that does not have forty characters behind its prefix, or that holds
/// one that is no digit, is no address.
pub proof fn law_anything_else_is_no_address(text: Seq<char>, i: int)
    requires
        forall|j: int| 0 <= j < text.len() ==> !is_blank(#[trigger] text[j]),
        text.len() < 2 || text[1] != 'x',
        text.len() != 40 || (0 <= i < 40 && hex_value(text[i]) is None),
    ensures
        address_bytes(text) is None,
        address_bytes(seq!['0', 'x'] + text) is None,
{
    lemma_nothing_filtered(text);
    assert((seq!['0', 'x'] + text).skip(2) =~= text);
}

} // verus!
