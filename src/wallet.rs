//! Balances, fees and amounts.
use vstd::prelude::*;

verus! {

/// A source of a confirmed balance.
pub trait Wallet {
    /// The balance that `balance` reports.
    spec fn spec_balance(&self) -> u64;

    /// Reports the confirmed balance.
    fn balance(&self) -> (r: u64)
        ensures
            r == self.spec_balance(),
    ;
}

/// A wallet that holds a fixed confirmed balance.
pub struct TestWallet {
    pub confirmed: u64,
}

impl Wallet for TestWallet {
    open spec fn spec_balance(&self) -> u64 {
        self.confirmed
    }

    fn balance(&self) -> (r: u64) {
        self.confirmed
    }
}

/// Subtracts a fee from a balance that covers it.
pub fn apply_fee(balance: &mut u64, fee: u64)
    requires
        fee <= *old(balance),
    ensures
        *final(balance) == *old(balance) - fee,
{
    *balance -= fee
}

/// Whether `c` is a decimal digit.
pub open spec fn is_decimal_digit(c: char) -> bool {
    '0' <= c && c <= '9'
}

/// The number that a string of decimal digits stands for.
pub open spec fn decimal_value(s: Seq<char>) -> int
    decreases s.len(),
{
    if s.len() == 0 {
        0
    } else {
        decimal_value(s.drop_last()) * 10 + (s.last() as int - '0' as int)
    }
}

/// The digits of a number's text: the text without one leading `+`.
pub open spec fn unsigned_digits(s: Seq<char>) -> Seq<char> {
    if s.len() > 0 && s[0] == '+' {
        s.drop_first()
    } else {
        s
    }
}

/// Text that reads as a `u64`: an optional `+`, then at least one decimal digit and
/// nothing else, of a value that fits.
pub open spec fn is_u64_text(s: Seq<char>) -> bool {
    let d = unsigned_digits(s);
    &&& d.len() > 0
    &&& forall|i: int| 0 <= i < d.len() ==> is_decimal_digit(#[trigger] d[i])
    &&& decimal_value(d) <= u64::MAX
}

/// Relies on `u64::from_str`: it accepts an optional `+` followed by decimal digits
/// only, of a value that fits in a `u64`, and returns that value.
#[verifier::external_body]
fn parse_u64(s: &str) -> (r: Option<u64>)
    ensures
        r == (if is_u64_text(s@) {
            Some(decimal_value(unsigned_digits(s@)) as u64)
        } else {
            None
        }),
{
    <u64 as std::str::FromStr>::from_str(s).ok()
}

/// Parses an amount in the smallest unit of currency.
pub fn parse_satoshis(input: &str) -> (r: Result<u64, String>)
    ensures
        is_u64_text(input@) ==> r == Ok::<u64, String>(
            decimal_value(unsigned_digits(input@)) as u64,
        ),
        !is_u64_text(input@) ==> (r matches Err(m) && m@ == "Invalid satoshi amount"@),
{
    match parse_u64(input) {
        Some(n) => Ok(n),
        None => Err(String::from_str("Invalid satoshi amount")),
    }
}

} // verus!
