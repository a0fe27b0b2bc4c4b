//! Account state as the client observes it: the raw balance in micro-units
//! (the chain reports a fixed-point integer scaled by 1,000,000) and the
//! account's current nonce.  Resolution parses the balance endpoint's fields
//! into this form; display renders the balance with six decimal places.

use vstd::prelude::*;
use crate::errors::ClientError;
use crate::numfmt::{all_digits, str_to_nat, dec_digits, digit_char, parse_u64_decimal,
    u64_to_string, digit_str};

verus! {

/// A snapshot of an account: balance in micro-units and current nonce.
pub struct AccountState {
    pub balance_micro: u64,
    pub nonce: u64,
}

/// Turns the balance endpoint's fields into an account snapshot.  Succeeds
/// exactly when `balance_raw` is a non-empty decimal digit string whose value
/// fits a `u64`; anything else is a shape mismatch.
pub fn resolve_account_state(balance_raw: &str, nonce: u64) -> (r: Result<
    AccountState,
    ClientError,
>)
    ensures
        r is Ok <==> balance_raw@.len() > 0 && all_digits(balance_raw@) && str_to_nat(
            balance_raw@,
        ) <= u64::MAX,
        r is Ok ==> r->Ok_0.balance_micro == str_to_nat(balance_raw@) && r->Ok_0.nonce == nonce,
        r is Err ==> r->Err_0 is Decode,
{
    match parse_u64_decimal(balance_raw) {
        Some(v) => Ok(AccountState { balance_micro: v, nonce }),
        None => Err(
            ClientError::Decode {
                msg: String::from_str("balance_raw is not an unsigned integer"),
            },
        ),
    }
}

/// The display text of a micro-unit balance: the whole part in base ten, a
/// dot, then exactly six fractional digits.
pub open spec fn balance_display(micro: nat) -> Seq<char> {
    dec_digits(micro / 1000000) + seq!['.'] + seq![
        digit_char(micro / 100000 % 10),
        digit_char(micro / 10000 % 10),
        digit_char(micro / 1000 % 10),
        digit_char(micro / 100 % 10),
        digit_char(micro / 10 % 10),
        digit_char(micro % 10),
    ]
}

/// Renders a micro-unit balance as its decimal amount, six places after the
/// dot: 2500000 displays as 2.500000.
pub fn format_balance(micro: u64) -> (r: String)
    ensures
        r@ == balance_display(micro as nat),
{
    let mut s = u64_to_string(micro / 1000000);
    s.append(".");
    s.append(digit_str(micro / 100000 % 10));
    s.append(digit_str(micro / 10000 % 10));
    s.append(digit_str(micro / 1000 % 10));
    s.append(digit_str(micro / 100 % 10));
    s.append(digit_str(micro / 10 % 10));
    s.append(digit_str(micro % 10));
    proof {
        reveal_strlit(".");
        assert(s@ =~= balance_display(micro as nat));
    }
    s
}

} // verus!
