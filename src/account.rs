use vstd::prelude::*;

use crate::hexcode::digit_char;

verus! {

/// Exchange rate reported until a pricing feed is wired in.
pub const FIAT_RATE: u64 = 420;

/// A wallet balance in the denominations the consumer displays.
#[derive(Debug)]
pub struct AccountSummary {
    pub satoshi: String,
    pub bits: String,
    pub ubts: String,
    pub mbtc: String,
    pub btc: String,
    pub fiat_rate: String,
    pub fiat_currency: String,
    pub fiat: String,
}

pub open spec fn pow10(d: nat) -> nat
    decreases d,
{
    if d == 0 {
        1
    } else {
        10 * pow10((d - 1) as nat)
    }
}

/// Decimal digits of `n`, without leading zeros.
pub open spec fn decimal_spec(n: nat) -> Seq<char>
    decreases n,
{
    if n < 10 {
        seq![digit_char(n as int)]
    } else {
        decimal_spec(n / 10).push(digit_char((n % 10) as int))
    }
}

/// The last `w` decimal digits of `f`, leading zeros included.
pub open spec fn padded_spec(f: nat, w: nat) -> Seq<char>
    decreases w,
{
    if w == 0 {
        Seq::empty()
    } else {
        padded_spec(f / 10, (w - 1) as nat).push(digit_char((f % 10) as int))
    }
}

/// `padded_spec(f, w)` with its trailing zeros removed.
pub open spec fn trimmed_spec(f: nat, w: nat) -> Seq<char>
    decreases w,
{
    if w == 0 {
        Seq::empty()
    } else if f % 10 == 0 {
        trimmed_spec(f / 10, (w - 1) as nat)
    } else {
        padded_spec(f, w)
    }
}

/// `n` divided by ten to the `d`, written exactly in decimal: no trailing zeros after
/// the point, and no point for a whole number.
pub open spec fn scaled_spec(n: nat, d: nat) -> Seq<char> {
    let frac = n % pow10(d);
    decimal_spec(n / pow10(d)) + if frac == 0 {
        Seq::empty()
    } else {
        seq!['.'] + trimmed_spec(frac, d)
    }
}

fn digit_text(d: u64) -> (r: &'static str)
    requires
        d < 10,
    ensures
        r@ == seq![digit_char(d as int)],
{
    proof {
        reveal_strlit("0");
        reveal_strlit("1");
        reveal_strlit("2");
        reveal_strlit("3");
        reveal_strlit("4");
        reveal_strlit("5");
        reveal_strlit("6");
        reveal_strlit("7");
        reveal_strlit("8");
        reveal_strlit("9");
    }
    let r = if d == 0 {
        "0"
    } else if d == 1 {
        "1"
    } else if d == 2 {
        "2"
    } else if d == 3 {
        "3"
    } else if d == 4 {
        "4"
    } else if d == 5 {
        "5"
    } else if d == 6 {
        "6"
    } else if d == 7 {
        "7"
    } else if d == 8 {
        "8"
    } else {
        "9"
    };
    assert(r@ =~= seq![digit_char(d as int)]);
    r
}

/// `n` in decimal.
pub fn decimal(n: u128) -> (r: String)
    ensures
        r@ == decimal_spec(n as nat),
    decreases n,
{
    if n < 10 {
        digit_text(n as u64).to_owned()
    } else {
        let mut s = decimal(n / 10);
        s.append(digit_text((n % 10) as u64));
        s
    }
}

fn padded(f: u128, w: u64) -> (r: String)
    ensures
        r@ == padded_spec(f as nat, w as nat),
    decreases w,
{
    if w == 0 {
        String::new()
    } else {
        let mut s = padded(f / 10, w - 1);
        s.append(digit_text((f % 10) as u64));
        s
    }
}

fn trimmed(f: u128, w: u64) -> (r: String)
    ensures
        r@ == trimmed_spec(f as nat, w as nat),
    decreases w,
{
    if w == 0 {
        String::new()
    } else if f % 10 == 0 {
        trimmed(f / 10, w - 1)
    } else {
        padded(f, w)
    }
}

/// `n` divided by `unit`, ten to the `d`, in exact decimal.
pub fn scaled(n: u128, d: u64, unit: u128) -> (r: String)
    requires
        unit == pow10(d as nat),
    ensures
        r@ == scaled_spec(n as nat, d as nat),
{
    assert(pow10(d as nat) > 0) by {
        lemma_pow10_positive(d as nat);
    }
    let mut s = decimal(n / unit);
    let frac = n % unit;
    if frac != 0 {
        s.append(".");
        let t = trimmed(frac, d);
        s.append(t.as_str());
        proof {
            reveal_strlit(".");
        }
        assert(s@ =~= scaled_spec(n as nat, d as nat));
    } else {
        assert(s@ =~= scaled_spec(n as nat, d as nat));
    }
    s
}

proof fn lemma_pow10_positive(d: nat)
    ensures
        pow10(d) > 0,
    decreases d,
{
    if d > 0 {
        lemma_pow10_positive((d - 1) as nat);
    }
}

/// The summary of a balance of `balance` satoshi. The fiat figure is the whole-coin
/// balance times the fixed exchange rate.
pub fn account_summary(balance: u64) -> (r: AccountSummary)
    ensures
        r.satoshi@ == decimal_spec(balance as nat),
        r.bits@ == scaled_spec(balance as nat, 2),
        r.ubts@ == scaled_spec(balance as nat, 2),
        r.mbtc@ == scaled_spec(balance as nat, 5),
        r.btc@ == scaled_spec(balance as nat, 8),
        r.fiat_rate@ == decimal_spec(FIAT_RATE as nat),
        r.fiat_currency@ == "USD"@,
        r.fiat@ == scaled_spec(balance as nat * FIAT_RATE as nat, 8),
{
    proof {
        reveal_with_fuel(pow10, 9);
    }
    AccountSummary {
        satoshi: decimal(balance as u128),
        bits: scaled(balance as u128, 2, 100),
        ubts: scaled(balance as u128, 2, 100),
        mbtc: scaled(balance as u128, 5, 100000),
        btc: scaled(balance as u128, 8, 100000000),
        fiat_rate: decimal(FIAT_RATE as u128),
        fiat_currency: "USD".to_owned(),
        fiat: scaled(balance as u128 * FIAT_RATE as u128, 8, 100000000),
    }
}

} // verus!
