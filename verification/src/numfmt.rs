//! Decimal text for unsigned integers: formatting a `u64` into its usual
//! base-ten text, and parsing such text back.  The transaction wire format
//! writes nonces bare, and the balance endpoint returns an integer string,
//! so both directions carry exact contracts.

use vstd::prelude::*;

verus! {

/// The character for a single decimal digit value.
pub open spec fn digit_char(d: nat) -> char
    recommends
        d < 10,
{
    if d == 0 {
        '0'
    } else if d == 1 {
        '1'
    } else if d == 2 {
        '2'
    } else if d == 3 {
        '3'
    } else if d == 4 {
        '4'
    } else if d == 5 {
        '5'
    } else if d == 6 {
        '6'
    } else if d == 7 {
        '7'
    } else if d == 8 {
        '8'
    } else {
        '9'
    }
}

/// The usual base-ten text of `n`: no sign, no leading zero except for the
/// single digit of zero itself.
pub open spec fn dec_digits(n: nat) -> Seq<char>
    decreases n,
{
    if n < 10 {
        seq![digit_char(n)]
    } else {
        dec_digits(n / 10) + seq![digit_char(n % 10)]
    }
}

/// Whether `c` is a decimal digit.
pub open spec fn is_digit_char(c: char) -> bool {
    '0' <= c && c <= '9'
}

/// Whether every character of `s` is a decimal digit.
pub open spec fn all_digits(s: Seq<char>) -> bool {
    forall|i: int| 0 <= i < s.len() ==> is_digit_char(#[trigger] s[i])
}

/// The numeric value of a digit character.
pub open spec fn digit_val(c: char) -> nat
    recommends
        is_digit_char(c),
{
    ((c as int) - ('0' as int)) as nat
}

/// The number denoted by a digit string, most significant digit first.
pub open spec fn str_to_nat(s: Seq<char>) -> nat
    decreases s.len(),
{
    if s.len() == 0 {
        0
    } else {
        str_to_nat(s.drop_last()) * 10 + digit_val(s.last())
    }
}

/// Every character that `dec_digits` produces is a decimal digit.
pub proof fn lemma_dec_digits_are_digits(n: nat)
    ensures
        dec_digits(n).len() >= 1,
        all_digits(dec_digits(n)),
    decreases n,
{
    if n >= 10 {
        lemma_dec_digits_are_digits(n / 10);
    }
}

/// Parsing undoes formatting: `dec_digits` is a faithful encoding.
pub proof fn lemma_str_to_nat_of_dec_digits(n: nat)
    ensures
        str_to_nat(dec_digits(n)) == n,
    decreases n,
{
    if n < 10 {
        assert(dec_digits(n).drop_last() =~= Seq::<char>::empty());
        assert(dec_digits(n).last() == digit_char(n));
        assert(digit_val(digit_char(n)) == n);
        assert(str_to_nat(dec_digits(n)) == str_to_nat(dec_digits(n).drop_last()) * 10
            + digit_val(dec_digits(n).last()));
    } else {
        lemma_str_to_nat_of_dec_digits(n / 10);
        assert(dec_digits(n).drop_last() =~= dec_digits(n / 10));
        assert(dec_digits(n).last() == digit_char(n % 10));
        assert(digit_val(digit_char(n % 10)) == n % 10);
        assert(str_to_nat(dec_digits(n)) == str_to_nat(dec_digits(n).drop_last()) * 10
            + digit_val(dec_digits(n).last()));
    }
}

/// Two numbers with the same decimal text are equal.
pub proof fn lemma_dec_digits_injective(a: nat, b: nat)
    requires
        dec_digits(a) == dec_digits(b),
    ensures
        a == b,
{
    lemma_str_to_nat_of_dec_digits(a);
    lemma_str_to_nat_of_dec_digits(b);
}

/// A one-character string for a single digit value.
pub fn digit_str(d: u64) -> (r: &'static str)
    requires
        d < 10,
    ensures
        r@ =~= seq![digit_char(d as nat)],
{
    proof {
        reveal_strlit("0");
        reveal_strlit("1");
        reveal_strlit("2");
        reveal_strlit("3");
        reveal_strlit("4");
        reveal_strlit("5");
        reveal_strlit("6");
        reveal_strlit("7");
        reveal_strlit("8");
        reveal_strlit("9");
    }
    if d == 0 {
        "0"
    } else if d == 1 {
        "1"
    } else if d == 2 {
        "2"
    } else if d == 3 {
        "3"
    } else if d == 4 {
        "4"
    } else if d == 5 {
        "5"
    } else if d == 6 {
        "6"
    } else if d == 7 {
        "7"
    } else if d == 8 {
        "8"
    } else {
        "9"
    }
}

/// Formats `n` in base ten.
pub fn u64_to_string(n: u64) -> (r: String)
    ensures
        r@ == dec_digits(n as nat),
    decreases n,
{
    if n < 10 {
        String::from_str(digit_str(n))
    } else {
        let mut s = u64_to_string(n / 10);
        s.append(digit_str(n % 10));
        s
    }
}

/// Parses a base-ten digit string into a `u64`.  Returns `None` exactly when
/// the text is empty, holds a non-digit, or denotes a number above `u64::MAX`.
/// Leading zeros are accepted, as the node's balance field may carry them.
pub fn parse_u64_decimal(s: &str) -> (r: Option<u64>)
    ensures
        r is Some <==> s@.len() > 0 && all_digits(s@) && str_to_nat(s@) <= u64::MAX,
        r is Some ==> r->0 == str_to_nat(s@),
{
    let n = s.unicode_len();
    if n == 0 {
        return None;
    }
    let mut value: u64 = 0;
    let mut overflow: bool = false;
    let mut i: usize = 0;
    while i < n
        invariant
            n == s@.len(),
            0 <= i <= n,
            all_digits(s@.subrange(0, i as int)),
            overflow <==> str_to_nat(s@.subrange(0, i as int)) > u64::MAX,
            !overflow ==> value == str_to_nat(s@.subrange(0, i as int)),
        decreases n - i,
    {
        let c = s.get_char(i);
        if !('0' <= c && c <= '9') {
            return None;
        }
        let d: u64 = (c as u32 - 48) as u64;
        proof {
            assert(s@.subrange(0, i + 1).drop_last() =~= s@.subrange(0, i as int));
            assert(s@.subrange(0, i + 1).last() == c);
            assert(digit_val(c) == d);
        }
        if overflow {
            // A longer digit string only denotes a larger number.
        } else if value > (u64::MAX - d) / 10 {
            overflow = true;
        } else {
            value = value * 10 + d;
        }
        i = i + 1;
    }
    proof {
        assert(s@.subrange(0, n as int) =~= s@);
    }
    if overflow {
        None
    } else {
        Some(value)
    }
}

} // verus!
