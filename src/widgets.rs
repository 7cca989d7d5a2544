use vstd::prelude::*;
use crate::fmt::{append_decimal, decimal_text};
use crate::rates::{rate_label, rate_text, ExchangeRate};
use crate::services::WeatherInfo;

verus! {

/// What the weather widget shows.
#[derive(Clone, Debug)]
pub struct WeatherWidget {
    pub temperature: String,
    pub condition: String,
    pub humidity: String,
}

impl Default for WeatherWidget {
    /// Placeholders shown before any weather has arrived.
    fn default() -> (r: Self)
        ensures
            r.temperature@ == "-- °C"@,
            r.condition@ == "..."@,
            r.humidity@ == "-- %"@,
    {
        WeatherWidget {
            temperature: String::from_str("-- °C"),
            condition: String::from_str("..."),
            humidity: String::from_str("-- %"),
        }
    }
}

impl View for WeatherWidget {
    type V = (Seq<char>, Seq<char>, Seq<char>);

    open spec fn view(&self) -> (Seq<char>, Seq<char>, Seq<char>) {
        (self.temperature@, self.condition@, self.humidity@)
    }
}

/// The weather widget's texts (temperature, condition, humidity) for a report.
pub open spec fn weather_widget_texts(info: WeatherInfo) -> (Seq<char>, Seq<char>, Seq<char>) {
    (
        decimal_text(info.temperature as int) + " °C"@,
        info.description@,
        decimal_text(info.humidity as int) + " %"@,
    )
}

impl WeatherWidget {
    /// The widget's texts for a weather report.
    pub fn from_info(info: &WeatherInfo) -> (r: WeatherWidget)
        ensures
            r@ == weather_widget_texts(*info),
    {
        let mut temperature = String::new();
        append_decimal(&mut temperature, info.temperature as i64);
        temperature.append(" °C");
        let mut humidity = String::new();
        append_decimal(&mut humidity, info.humidity as i64);
        humidity.append(" %");
        proof {
            assert(temperature@ =~= decimal_text(info.temperature as int) + " °C"@);
            assert(humidity@ =~= decimal_text(info.humidity as int) + " %"@);
        }
        WeatherWidget { temperature, condition: info.description.clone(), humidity }
    }
}

/// What a currency widget shows.
#[derive(Clone, Debug)]
pub struct CurrencyWidget {
    pub code: String,
    pub symbol: String,
    pub rate: String,
}

impl View for CurrencyWidget {
    type V = (Seq<char>, Seq<char>, Seq<char>);

    open spec fn view(&self) -> (Seq<char>, Seq<char>, Seq<char>) {
        (self.code@, self.symbol@, self.rate@)
    }
}

impl CurrencyWidget {
    pub fn new(code: &str, symbol: &str, rate: &str) -> (r: CurrencyWidget)
        ensures
            r.code@ == code@,
            r.symbol@ == symbol@,
            r.rate@ == rate@,
    {
        CurrencyWidget { code: code.to_owned(), symbol: symbol.to_owned(), rate: rate.to_owned() }
    }
}

/// Fresh widget data, sent from background tasks; each part is optional.
#[derive(Clone, Debug)]
pub struct WidgetUpdate {
    pub weather: Option<WeatherInfo>,
    pub rates: Option<Vec<ExchangeRate>>,
}

/// Applies an update: a weather report replaces the weather widget's texts;
/// rates, in order, replace the rate texts of the first currency widgets
/// (extra rates, and widgets without a rate, are left alone).
pub fn apply_widget_update(
    weather: &mut WeatherWidget,
    currencies: &mut Vec<CurrencyWidget>,
    update: WidgetUpdate,
)
    ensures
        final(weather)@ == (match update.weather {
            Some(w) => weather_widget_texts(w),
            None => old(weather)@,
        }),
        final(currencies)@.len() == old(currencies)@.len(),
        forall|i: int|
            0 <= i < old(currencies)@.len() ==> (#[trigger] final(currencies)@[i])@ == {
                let c = old(currencies)@[i]@;
                match update.rates {
                    Some(rs) => if i < rs@.len() {
                        (c.0, c.1, rate_label(rs@[i].rate_ten_thousandths as nat))
                    } else {
                        c
                    },
                    None => c,
                }
            },
{
    match &update.weather {
        Some(w) => {
            *weather = WeatherWidget::from_info(w);
        },
        None => {},
    }
    match &update.rates {
        Some(rs) => {
            let mut i: usize = 0;
            while i < currencies.len() && i < rs.len()
                invariant
                    i <= currencies@.len(),
                    i <= rs@.len(),
                    update.rates == Some(*rs),
                    currencies@.len() == old(currencies)@.len(),
                    forall|j: int|
                        0 <= j < currencies@.len() ==> (#[trigger] currencies@[j])@ == if j < i {
                            let c = old(currencies)@[j]@;
                            (c.0, c.1, rate_label(rs@[j].rate_ten_thousandths as nat))
                        } else {
                            old(currencies)@[j]@
                        },
                decreases currencies@.len() - i,
            {
                let updated = CurrencyWidget {
                    code: currencies[i].code.clone(),
                    symbol: currencies[i].symbol.clone(),
                    rate: rate_text(rs[i].rate_ten_thousandths),
                };
                currencies.set(i, updated);
                i = i + 1;
            }
        },
        None => {},
    }
}

} // verus!
