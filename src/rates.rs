use vstd::prelude::*;
use crate::fmt::{append_natural, append_padded, digits_of, padded_digits};
use crate::services::{currency_symbol, currency_symbol_spec};

verus! {

/// An exchange rate against the rouble, in ten-thousandths of a rouble per
/// unit of the currency.
#[derive(Clone, Debug)]
pub struct ExchangeRate {
    pub currency: String,
    pub rate_ten_thousandths: u64,
}

/// A rate rounded half up to hundredths of a rouble.
pub open spec fn rounded_hundredths(v: nat) -> nat {
    v / 100 + if v % 100 >= 50 { 1nat } else { 0nat }
}

/// A rate with two decimals, rounded half up.
pub open spec fn two_places(v: nat) -> Seq<char> {
    let r = rounded_hundredths(v);
    digits_of(r / 100) + "."@ + padded_digits(r % 100, 2)
}

/// A rate with four decimals.
pub open spec fn four_places(v: nat) -> Seq<char> {
    digits_of(v / 10000) + "."@ + padded_digits(v % 10000, 4)
}

/// Appends a rate with two decimals, rounded half up.
pub fn append_two_places(out: &mut String, v: u64)
    ensures
        final(out)@ == old(out)@ + two_places(v as nat),
{
    let r = v / 100 + if v % 100 >= 50 { 1 } else { 0 };
    append_natural(out, r / 100);
    out.append(".");
    append_padded(out, r % 100, 2);
    assert(final(out)@ =~= old(out)@ + two_places(v as nat));
}

/// Appends a rate with four decimals.
pub fn append_four_places(out: &mut String, v: u64)
    ensures
        final(out)@ == old(out)@ + four_places(v as nat),
{
    append_natural(out, v / 10000);
    out.append(".");
    append_padded(out, v % 10000, 4);
    assert(final(out)@ =~= old(out)@ + four_places(v as nat));
}

/// What a currency widget shows for a rate.
pub open spec fn rate_label(v: nat) -> Seq<char> {
    two_places(v) + " ₽"@
}

/// The widget text for a rate: two decimals and the rouble sign.
pub fn rate_text(v: u64) -> (r: String)
    ensures
        r@ == rate_label(v as nat),
{
    let mut s = String::new();
    append_two_places(&mut s, v);
    s.append(" ₽");
    assert(s@ =~= rate_label(v as nat));
    s
}

/// One line of the rates report: rates under one rouble get four decimals,
/// others two.
pub open spec fn rate_line(r: ExchangeRate) -> Seq<char> {
    "• "@ + currency_symbol_spec(r.currency@)@ + " "@ + r.currency@ + ": "@ + (if r.rate_ten_thousandths
        < 10000 {
        four_places(r.rate_ten_thousandths as nat)
    } else {
        two_places(r.rate_ten_thousandths as nat)
    }) + " ₽\n"@
}

pub const RATES_HEADER: &'static str = "💱 Курсы валют к рублю (RUB):\n";

/// The header followed by the lines of the first `n` rates.
pub open spec fn rates_report(rates: Seq<ExchangeRate>, n: int) -> Seq<char>
    decreases n,
{
    if n <= 0 {
        RATES_HEADER@
    } else {
        rates_report(rates, n - 1) + rate_line(rates[n - 1])
    }
}

/// The rates report shown in replies, one line per rate in order.
pub fn format_rates_info(rates: &Vec<ExchangeRate>) -> (r: String)
    ensures
        r@ == rates_report(rates@, rates@.len() as int),
{
    let mut s = String::from_str(RATES_HEADER);
    let mut i: usize = 0;
    while i < rates.len()
        invariant
            i <= rates@.len(),
            s@ == rates_report(rates@, i as int),
        decreases rates@.len() - i,
    {
        let rate = &rates[i];
        let ghost before = s@;
        s.append("• ");
        s.append(currency_symbol(rate.currency.as_str()));
        s.append(" ");
        s.append(rate.currency.as_str());
        s.append(": ");
        if rate.rate_ten_thousandths < 10000 {
            append_four_places(&mut s, rate.rate_ten_thousandths);
        } else {
            append_two_places(&mut s, rate.rate_ten_thousandths);
        }
        s.append(" ₽\n");
        assert(s@ =~= before + rate_line(rates@[i as int]));
        i = i + 1;
    }
    s
}

/// Approximate rates used when the rates service answers with an error.
pub fn fallback_rates() -> (r: Vec<ExchangeRate>)
    ensures
        r@.len() == 4,
        r@[0].currency@ == "USD"@ && r@[0].rate_ten_thousandths == 900000,
        r@[1].currency@ == "EUR"@ && r@[1].rate_ten_thousandths == 980000,
        r@[2].currency@ == "GBP"@ && r@[2].rate_ten_thousandths == 1130000,
        r@[3].currency@ == "JPY"@ && r@[3].rate_ten_thousandths == 6000,
{
    let mut v: Vec<ExchangeRate> = Vec::new();
    v.push(ExchangeRate { currency: String::from_str("USD"), rate_ten_thousandths: 900000 });
    v.push(ExchangeRate { currency: String::from_str("EUR"), rate_ten_thousandths: 980000 });
    v.push(ExchangeRate { currency: String::from_str("GBP"), rate_ten_thousandths: 1130000 });
    v.push(ExchangeRate { currency: String::from_str("JPY"), rate_ten_thousandths: 6000 });
    v
}

/// A rate's plain value: its currency code and its rate.
pub open spec fn rate_view(r: ExchangeRate) -> (Seq<char>, u64) {
    (r.currency@, r.rate_ten_thousandths)
}

/// The rate the first entry for `code` in `avail` gives, if any.
pub open spec fn rate_for(avail: Seq<ExchangeRate>, code: Seq<char>) -> Option<u64>
    decreases avail.len(),
{
    if avail.len() == 0 {
        None
    } else if avail[0].currency@ == code {
        Some(avail[0].rate_ten_thousandths)
    } else {
        rate_for(avail.drop_first(), code)
    }
}

/// `acc` extended by `code`'s rate when `avail` has one.
pub open spec fn with_rate(acc: Seq<(Seq<char>, u64)>, avail: Seq<ExchangeRate>, code: Seq<char>) -> Seq<(Seq<char>, u64)> {
    match rate_for(avail, code) {
        Some(v) => acc.push((code, v)),
        None => acc,
    }
}

/// The currencies reported, in this order.
pub open spec fn target_codes() -> Seq<Seq<char>> {
    seq!["USD"@, "EUR"@, "GBP"@, "JPY"@, "CNY"@, "CHF"@]
}

/// The rates of the first `n` reported currencies that `avail` has, in the
/// reported order.
pub open spec fn selected_rates(avail: Seq<ExchangeRate>, n: int) -> Seq<(Seq<char>, u64)>
    decreases n,
{
    if n <= 0 {
        Seq::empty()
    } else {
        with_rate(selected_rates(avail, n - 1), avail, target_codes()[n - 1])
    }
}

fn find_rate(avail: &Vec<ExchangeRate>, code: &str) -> (r: Option<u64>)
    ensures
        r == rate_for(avail@, code@),
{
    let wanted = String::from_str(code);
    let mut i: usize = 0;
    assert(avail@.subrange(0, avail@.len() as int) =~= avail@);
    while i < avail.len()
        invariant
            i <= avail@.len(),
            wanted@ == code@,
            rate_for(avail@, code@) == rate_for(avail@.subrange(i as int, avail@.len() as int), code@),
        decreases avail@.len() - i,
    {
        let ghost rest = avail@.subrange(i as int, avail@.len() as int);
        assert(rest.drop_first() =~= avail@.subrange(i + 1, avail@.len() as int));
        assert(rest[0] == avail@[i as int]);
        if avail[i].currency == wanted {
            return Some(avail[i].rate_ten_thousandths);
        }
        i = i + 1;
    }
    assert(avail@.subrange(i as int, avail@.len() as int).len() == 0);
    None
}

fn push_rate(out: &mut Vec<ExchangeRate>, avail: &Vec<ExchangeRate>, code: &str)
    ensures
        final(out)@.map_values(|r: ExchangeRate| rate_view(r)) == with_rate(
            old(out)@.map_values(|r: ExchangeRate| rate_view(r)),
            avail@,
            code@,
        ),
{
    match find_rate(avail, code) {
        Some(v) => {
            let ghost before = out@;
            out.push(ExchangeRate { currency: String::from_str(code), rate_ten_thousandths: v });
            assert(out@.map_values(|r: ExchangeRate| rate_view(r)) =~= before.map_values(
                |r: ExchangeRate| rate_view(r),
            ).push((code@, v)));
        },
        None => {},
    }
}

/// Picks, in the reported order, the rate of each reported currency that the
/// service's answer has; the others are left out.
pub fn select_rates(avail: &Vec<ExchangeRate>) -> (r: Vec<ExchangeRate>)
    ensures
        r@.map_values(|r: ExchangeRate| rate_view(r)) == selected_rates(avail@, 6),
{
    let mut out: Vec<ExchangeRate> = Vec::new();
    proof {
        reveal_with_fuel(selected_rates, 7);
        assert(out@.map_values(|r: ExchangeRate| rate_view(r)) =~= selected_rates(avail@, 0));
    }
    push_rate(&mut out, avail, "USD");
    push_rate(&mut out, avail, "EUR");
    push_rate(&mut out, avail, "GBP");
    push_rate(&mut out, avail, "JPY");
    push_rate(&mut out, avail, "CNY");
    push_rate(&mut out, avail, "CHF");
    proof {
        reveal_with_fuel(selected_rates, 7);
    }
    out
}

} // verus!
