//! Decimal rendering of the summary that a ranged ledger query produces:
//! a fixed-shape JSON object with per-provider request counts and total
//! amounts, amounts formatted with exactly two decimal digits.

use vstd::prelude::*;
use vstd::string::StringExecFns;

verus! {

/// The character for one decimal digit value.
pub open spec fn digit_char(d: nat) -> char {
    if d == 0 {
        '0'
    } else if d == 1 {
        '1'
    } else if d == 2 {
        '2'
    } else if d == 3 {
        '3'
    } else if d == 4 {
        '4'
    } else if d == 5 {
        '5'
    } else if d == 6 {
        '6'
    } else if d == 7 {
        '7'
    } else if d == 8 {
        '8'
    } else {
        '9'
    }
}

/// The decimal digits of n, most significant first, without leading zeros
/// (a single '0' for n == 0).
pub open spec fn spec_decimal(n: nat) -> Seq<char>
    decreases n,
{
    if n < 10 {
        seq![digit_char(n)]
    } else {
        spec_decimal(n / 10).push(digit_char(n % 10))
    }
}

/// An amount of c hundredths rendered with exactly two decimal digits:
/// the whole part in decimal, a dot, then the two fractional digits.
pub open spec fn spec_cents(c: nat) -> Seq<char> {
    spec_decimal(c / 100) + seq!['.', digit_char(c / 10 % 10), digit_char(c % 10)]
}

/// Appends the character for the decimal digit d.
fn push_digit(s: &mut String, d: u128)
    requires
        d < 10,
    ensures
        final(s)@ == old(s)@.push(digit_char(d as nat)),
{
    let lit: &str = if d == 0 {
        "0"
    } else if d == 1 {
        "1"
    } else if d == 2 {
        "2"
    } else if d == 3 {
        "3"
    } else if d == 4 {
        "4"
    } else if d == 5 {
        "5"
    } else if d == 6 {
        "6"
    } else if d == 7 {
        "7"
    } else if d == 8 {
        "8"
    } else {
        "9"
    };
    proof {
        reveal_strlit("0");
        reveal_strlit("1");
        reveal_strlit("2");
        reveal_strlit("3");
        reveal_strlit("4");
        reveal_strlit("5");
        reveal_strlit("6");
        reveal_strlit("7");
        reveal_strlit("8");
        reveal_strlit("9");
        assert(lit@ =~= seq![digit_char(d as nat)]);
    }
    s.append(lit);
    proof {
        assert(s@ =~= old(s)@.push(digit_char(d as nat)));
    }
}

/// Renders n in decimal, most significant digit first.
pub fn format_u128(n: u128) -> (s: String)
    ensures
        s@ == spec_decimal(n as nat),
    decreases n,
{
    if n < 10 {
        let mut s = String::new();
        push_digit(&mut s, n);
        proof {
            assert(Seq::<char>::empty().push(digit_char(n as nat)) =~= seq![
                digit_char(n as nat),
            ]);
        }
        s
    } else {
        let mut s = format_u128(n / 10);
        push_digit(&mut s, n % 10);
        s
    }
}

/// Renders an amount of c hundredths with exactly two decimal digits.
pub fn format_cents(c: u128) -> (s: String)
    ensures
        s@ == spec_cents(c as nat),
{
    let mut s = format_u128(c / 100);
    s.append(".");
    push_digit(&mut s, c / 10 % 10);
    push_digit(&mut s, c % 10);
    proof {
        reveal_strlit(".");
        assert(s@ =~= spec_cents(c as nat));
    }
    s
}

/// The fixed-shape JSON summary body: per provider, the count of matching
/// records and the sum of the absolute values of their amounts.
pub open spec fn spec_summary_json(
    default_requests: nat,
    default_amount_cents: nat,
    fallback_requests: nat,
    fallback_amount_cents: nat,
) -> Seq<char> {
    "{\"default\":{\"totalRequests\":"@ + spec_decimal(default_requests)
        + ",\"totalAmount\":"@ + spec_cents(default_amount_cents)
        + "},\"fallback\":{\"totalRequests\":"@ + spec_decimal(fallback_requests)
        + ",\"totalAmount\":"@ + spec_cents(fallback_amount_cents) + "}}"@
}

/// Renders the JSON summary body.
pub fn format_summary_json(
    default_requests: u64,
    default_amount_cents: u128,
    fallback_requests: u64,
    fallback_amount_cents: u128,
) -> (s: String)
    ensures
        s@ == spec_summary_json(
            default_requests as nat,
            default_amount_cents as nat,
            fallback_requests as nat,
            fallback_amount_cents as nat,
        ),
{
    let mut s = String::from_str("{\"default\":{\"totalRequests\":");
    let part = format_u128(default_requests as u128);
    s.append(part.as_str());
    s.append(",\"totalAmount\":");
    let part = format_cents(default_amount_cents);
    s.append(part.as_str());
    s.append("},\"fallback\":{\"totalRequests\":");
    let part = format_u128(fallback_requests as u128);
    s.append(part.as_str());
    s.append(",\"totalAmount\":");
    let part = format_cents(fallback_amount_cents);
    s.append(part.as_str());
    s.append("}}");
    s
}

} // verus!
