use vstd::prelude::*;
use crate::fmt::{append_decimal, decimal_text, digit_char};
use crate::text::{is_blank, trimmed_of};
use vstd::string::StringSliceAdditionalSpecFns;

verus! {

/// Current weather in a city, as the widgets and replies show it.
#[derive(Clone, Debug)]
pub struct WeatherInfo {
    pub city: String,
    /// Degrees Celsius.
    pub temperature: i32,
    pub description: String,
    /// Relative humidity in percent.
    pub humidity: i32,
}

/// One message as the durable log keeps it.
#[derive(Clone, Debug)]
pub struct StoredMessage {
    pub id: i32,
    pub session_id: String,
    pub role: String,
    pub content: String,
    pub model: String,
    pub timestamp: String,
}

/// The city asked about when none is named.
pub const DEFAULT_CITY: &'static str = "Москва";

/// The description of a WMO weather code.
pub open spec fn weather_description(code: i32) -> &'static str {
    if code == 0 {
        "Ясно"
    } else if code == 1 || code == 2 {
        "Облачно"
    } else if code == 3 {
        "Пасмурно"
    } else if code == 45 || code == 48 {
        "Туман"
    } else if code == 51 || code == 53 || code == 55 {
        "Морось"
    } else if code == 61 || code == 63 || code == 65 {
        "Дождь"
    } else if code == 71 || code == 73 || code == 75 || code == 77 {
        "Снег"
    } else if code == 80 || code == 81 || code == 82 {
        "Ливень"
    } else if code == 85 || code == 86 {
        "Снегопад"
    } else if code == 95 || code == 96 || code == 99 {
        "Гроза"
    } else {
        "Неизвестно"
    }
}

/// Describes a WMO weather code in words.
pub fn weather_code_to_description(code: i32) -> (r: String)
    ensures
        r@ == weather_description(code)@,
{
    let d = if code == 0 {
        "Ясно"
    } else if code == 1 || code == 2 {
        "Облачно"
    } else if code == 3 {
        "Пасмурно"
    } else if code == 45 || code == 48 {
        "Туман"
    } else if code == 51 || code == 53 || code == 55 {
        "Морось"
    } else if code == 61 || code == 63 || code == 65 {
        "Дождь"
    } else if code == 71 || code == 73 || code == 75 || code == 77 {
        "Снег"
    } else if code == 80 || code == 81 || code == 82 {
        "Ливень"
    } else if code == 85 || code == 86 {
        "Снегопад"
    } else if code == 95 || code == 96 || code == 99 {
        "Гроза"
    } else {
        "Неизвестно"
    };
    d.to_owned()
}

/// The city a weather request is for: the default when the given name is
/// blank.
pub fn weather_city(city: &str) -> (r: String)
    ensures
        r@ == (if trimmed_of(city@).len() == 0 { DEFAULT_CITY@ } else { city@ }),
{
    if is_blank(city) {
        DEFAULT_CITY.to_owned()
    } else {
        city.to_owned()
    }
}

/// The weather report text for `w`.
pub open spec fn weather_report(w: WeatherInfo) -> Seq<char> {
    "🌍 Погода в городе "@ + w.city@ + ":\n• 🌡️ Температура: "@ + decimal_text(w.temperature as int)
        + "°C\n• ☁️ Условия: "@ + w.description@ + "\n• 💧 Влажность: "@ + decimal_text(
        w.humidity as int,
    ) + "%"@
}

/// Writes the weather report shown in replies.
pub fn format_weather_info(weather: &WeatherInfo) -> (r: String)
    ensures
        r@ == weather_report(*weather),
{
    let mut s = String::from_str("🌍 Погода в городе ");
    s.append(weather.city.as_str());
    s.append(":\n• 🌡️ Температура: ");
    append_decimal(&mut s, weather.temperature as i64);
    s.append("°C\n• ☁️ Условия: ");
    s.append(weather.description.as_str());
    s.append("\n• 💧 Влажность: ");
    append_decimal(&mut s, weather.humidity as i64);
    s.append("%");
    s
}

/// The display symbol of a currency code; empty for codes not listed.
pub open spec fn currency_symbol_spec(code: Seq<char>) -> &'static str {
    if code == "USD"@ {
        "$"
    } else if code == "EUR"@ {
        "€"
    } else if code == "GBP"@ {
        "£"
    } else if code == "JPY"@ || code == "CNY"@ {
        "¥"
    } else if code == "CHF"@ {
        "₣"
    } else {
        ""
    }
}

/// The display symbol of a currency code.
pub fn currency_symbol(code: &str) -> (r: &'static str)
    ensures
        r@ == currency_symbol_spec(code@)@,
{
    let c = String::from_str(code);
    if c == String::from_str("USD") {
        "$"
    } else if c == String::from_str("EUR") {
        "€"
    } else if c == String::from_str("GBP") {
        "£"
    } else if c == String::from_str("JPY") || c == String::from_str("CNY") {
        "¥"
    } else if c == String::from_str("CHF") {
        "₣"
    } else {
        ""
    }
}

/// A byte that URL encoding leaves as it is: ASCII letters and digits and
/// `-`, `.`, `_`, `~`.
pub open spec fn url_safe(b: u8) -> bool {
    (48 <= b <= 57) || (65 <= b <= 90) || (97 <= b <= 122) || b == 45 || b == 46 || b == 95
        || b == 126
}

/// The uppercase hexadecimal digit for `d < 16`.
pub open spec fn hex_upper(d: nat) -> char {
    if d < 10 {
        digit_char(d)
    } else if d == 10 {
        'A'
    } else if d == 11 {
        'B'
    } else if d == 12 {
        'C'
    } else if d == 13 {
        'D'
    } else if d == 14 {
        'E'
    } else {
        'F'
    }
}

/// Percent-encoding of a byte string: safe bytes stay, every other byte
/// becomes `%` and two uppercase hexadecimal digits.
pub open spec fn percent_encoded(bytes: Seq<u8>) -> Seq<char>
    decreases bytes.len(),
{
    if bytes.len() == 0 {
        Seq::empty()
    } else {
        let b = bytes.last();
        percent_encoded(bytes.drop_last()) + if url_safe(b) {
            seq![b as char]
        } else {
            seq!['%', hex_upper(b as nat / 16), hex_upper(b as nat % 16)]
        }
    }
}

/// Relies on `urlencoding::encode`: percent-encodes every UTF-8 byte of the
/// text except ASCII alphanumerics and `-`, `_`, `.`, `~`, with uppercase hex.
#[verifier::external_body]
fn url_encode(s: &str) -> (r: String)
    ensures
        r@ == percent_encoded(s.spec_bytes()),
{
    urlencoding::encode(s).into_owned()
}

pub const GEOCODING_PREFIX: &'static str = "https://geocoding-api.open-meteo.com/v1/search?name=";

pub const GEOCODING_SUFFIX: &'static str = "&count=1&language=ru&format=json";

/// The geocoding query that looks up one city by name.
pub fn geocoding_url(city: &str) -> (r: String)
    ensures
        r@ == GEOCODING_PREFIX@ + percent_encoded(city.spec_bytes()) + GEOCODING_SUFFIX@,
{
    let mut url = String::from_str(GEOCODING_PREFIX);
    let encoded = url_encode(city);
    url.append(encoded.as_str());
    url.append(GEOCODING_SUFFIX);
    url
}

} // verus!
