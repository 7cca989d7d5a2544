use clippy_assistant::background::{clear_background, modal_color, remove_background, sample_border};
use clippy_assistant::fmt::decimal;
use clippy_assistant::history::{Message, Role};
use clippy_assistant::interaction::{UiState, ANIMATION_FULL};
use clippy_assistant::remote::{Choice, GigaChatClient, GigaChatResponse, OpenAIClient, Usage};
use clippy_assistant::responder::BackendError;
use clippy_assistant::services::{
    currency_symbol, format_weather_info, geocoding_url, weather_city, weather_code_to_description, WeatherInfo,
};
use clippy_assistant::speech::{decode_audio_content, speech_route, synthesis_url, SpeechError, SpeechRoute};
use clippy_assistant::rates::{fallback_rates, format_rates_info, rate_text, select_rates, ExchangeRate};
use clippy_assistant::widgets::{apply_widget_update, CurrencyWidget, WeatherWidget, WidgetUpdate};

#[test]
fn submit_then_receive() {
    let mut ui = UiState::new();
    assert_eq!(ui.submit("hello"), Some("hello".to_string()));
    assert!(ui.is_thinking());
    assert_eq!(ui.submit("again"), None);
    assert_eq!(ui.message_count(), 1);
    ui.receive_response("hi there");
    assert!(!ui.is_thinking());
    assert_eq!(ui.bubble_text(), Some("hi there".to_string()));
    let m = ui.messages();
    assert_eq!(m[0].role, Role::User);
    assert_eq!(m[1].content, "hi there");
}

#[test]
fn blank_submission_is_ignored() {
    let mut ui = UiState::new();
    assert_eq!(ui.submit("  "), None);
    assert_eq!(ui.message_count(), 0);
    assert!(!ui.is_thinking());
    assert_eq!(ui.bubble_text(), None);
}

#[test]
fn panel_animation_and_escape() {
    let mut ui = UiState::new();
    assert!(!ui.advance_animation());
    ui.show_panel();
    assert_eq!(ui.animation_progress(), 0);
    let mut passes = 0;
    while ui.advance_animation() {
        passes += 1;
    }
    assert_eq!(passes, 7);
    assert_eq!(ui.animation_progress(), ANIMATION_FULL);
    assert!(ui.press_escape());
    assert!(!ui.panel_visible());
    assert_eq!(ui.animation_progress(), ANIMATION_FULL);
    assert!(!ui.press_escape());
    ui.toggle_panel();
    assert!(ui.panel_visible());
    assert_eq!(ui.animation_progress(), 0);
    ui.hide_panel();
    assert!(!ui.panel_visible());
}

#[test]
fn announce_and_clear() {
    let mut ui = UiState::new();
    ui.announce("greetings");
    assert_eq!(ui.bubble_text(), Some("greetings".to_string()));
    assert!(!ui.is_thinking());
    ui.clear_transcript();
    assert_eq!(ui.message_count(), 0);
}

fn response_with(text: &str) -> GigaChatResponse {
    GigaChatResponse {
        choices: vec![Choice { message: Message::new(Role::Assistant, text), finish_reason: "stop".to_string() }],
        usage: Some(Usage { prompt_tokens: 1, completion_tokens: 2, total_tokens: 3 }),
    }
}

#[test]
fn gigachat_exchange() {
    let mut c = GigaChatClient::new("key".to_string(), None, None);
    assert!(c.is_configured());
    assert_eq!(c.model(), "GigaChat:latest");
    assert_eq!(c.max_tokens(), 200);
    assert_eq!(c.endpoint(), "https://gigachat.devices.sberbank.ru/api/v1/chat/completions");
    let req = c.begin_request("q");
    assert_eq!(req.len(), 1);
    assert_eq!(c.finish_request(503, None), Err(BackendError::Status(503)));
    assert_eq!(c.finish_request(200, None), Err(BackendError::Decode));
    let empty = GigaChatResponse { choices: vec![], usage: None };
    assert_eq!(c.finish_request(200, Some(empty)), Err(BackendError::Decode));
    assert_eq!(c.get_history().len(), 1);
    assert_eq!(c.finish_request(200, Some(response_with("a"))), Ok("a".to_string()));
    let h = c.get_history();
    assert_eq!(h.len(), 2);
    assert_eq!(h[1].role, Role::Assistant);
    c.set_max_tokens(-5);
    assert_eq!(c.max_tokens(), 1);
    c.set_model("Pro".to_string());
    assert_eq!(c.model(), "Pro");
    c.clear_history();
    assert!(c.get_history().is_empty());
}

#[test]
fn gigachat_placeholder_key_is_not_configured() {
    assert!(!GigaChatClient::new("not-configured".to_string(), None, None).is_configured());
    assert!(!GigaChatClient::new(String::new(), None, None).is_configured());
}

#[test]
fn openai_exchange_records_only_on_success() {
    let mut c = OpenAIClient::new("k".to_string(), Some("m".to_string()), Some(50));
    assert_eq!(c.model(), "m");
    assert_eq!(c.max_tokens(), 50);
    assert_eq!(c.request_messages("q").len(), 1);
    assert_eq!(c.finish_request("q", 401, Some(response_with("x"))), Err(BackendError::Status(401)));
    assert!(c.request_messages("q").len() == 1);
    assert_eq!(c.finish_request("q", 200, Some(response_with("x"))), Ok("x".to_string()));
    assert_eq!(c.request_messages("next").len(), 3);
    assert!(c.is_configured());
}

#[test]
fn weather_codes() {
    assert_eq!(weather_code_to_description(0), "Ясно");
    assert_eq!(weather_code_to_description(2), "Облачно");
    assert_eq!(weather_code_to_description(48), "Туман");
    assert_eq!(weather_code_to_description(77), "Снег");
    assert_eq!(weather_code_to_description(81), "Ливень");
    assert_eq!(weather_code_to_description(99), "Гроза");
    assert_eq!(weather_code_to_description(4), "Неизвестно");
}

#[test]
fn weather_report_text() {
    let w = WeatherInfo { city: "Москва".to_string(), temperature: -3, description: "Снег".to_string(), humidity: 80 };
    assert_eq!(
        format_weather_info(&w),
        "🌍 Погода в городе Москва:\n• 🌡️ Температура: -3°C\n• ☁️ Условия: Снег\n• 💧 Влажность: 80%"
    );
    let widget = WeatherWidget::from_info(&w);
    assert_eq!(widget.temperature, "-3 °C");
    assert_eq!(widget.condition, "Снег");
    assert_eq!(widget.humidity, "80 %");
    let d = WeatherWidget::default();
    assert_eq!(d.temperature, "-- °C");
    assert_eq!(d.condition, "...");
    assert_eq!(d.humidity, "-- %");
}

#[test]
fn decimal_numbers() {
    assert_eq!(decimal(0), "0");
    assert_eq!(decimal(1234), "1234");
    assert_eq!(decimal(-7), "-7");
    assert_eq!(decimal(i64::MIN), i64::MIN.to_string());
    assert_eq!(decimal(i64::MAX), i64::MAX.to_string());
}

#[test]
fn default_city_for_blank_name() {
    assert_eq!(weather_city(" "), "Москва");
    assert_eq!(weather_city("Казань"), "Казань");
}

#[test]
fn geocoding_query_encodes_the_city() {
    assert_eq!(
        geocoding_url("Нью Йорк"),
        "https://geocoding-api.open-meteo.com/v1/search?name=%D0%9D%D1%8C%D1%8E%20%D0%99%D0%BE%D1%80%D0%BA&count=1&language=ru&format=json"
    );
    assert_eq!(
        geocoding_url("Oslo-1.x_~"),
        "https://geocoding-api.open-meteo.com/v1/search?name=Oslo-1.x_~&count=1&language=ru&format=json"
    );
}

#[test]
fn currency_symbols_and_widget() {
    assert_eq!(currency_symbol("USD"), "$");
    assert_eq!(currency_symbol("EUR"), "€");
    assert_eq!(currency_symbol("CNY"), "¥");
    assert_eq!(currency_symbol("CHF"), "₣");
    assert_eq!(currency_symbol("XYZ"), "");
    let w = CurrencyWidget::new("USD", "$", "0.00 ₽");
    assert_eq!(w.code, "USD");
    assert_eq!(w.symbol, "$");
    assert_eq!(w.rate, "0.00 ₽");
}

#[test]
fn audio_content_decoding() {
    assert_eq!(decode_audio_content("aGVsbG8="), Ok(b"hello".to_vec()));
    assert_eq!(decode_audio_content("@@@"), Err(SpeechError::AudioDecode));
    assert_eq!(speech_route(&Some("k".to_string())), SpeechRoute::Cloud);
    assert_eq!(speech_route(&None), SpeechRoute::System);
    assert_eq!(
        synthesis_url(&None),
        "https://texttospeech.googleapis.com/v1/projects/clippy-tts/locations/global:synthesize"
    );
    assert_eq!(
        synthesis_url(&Some("p1".to_string())),
        "https://texttospeech.googleapis.com/v1/projects/p1/locations/global:synthesize"
    );
}

fn image(w: usize, h: usize, fill: [u8; 4]) -> Vec<u8> {
    let mut v = Vec::new();
    for _ in 0..w * h {
        v.extend_from_slice(&fill);
    }
    v
}

fn set_px(px: &mut [u8], w: usize, x: usize, y: usize, c: [u8; 4]) {
    let i = 4 * (y * w + x);
    px[i..i + 4].copy_from_slice(&c);
}

#[test]
fn background_is_removed() {
    let w = 4;
    let h = 3;
    let mut px = image(w, h, [12, 104, 55, 255]);
    set_px(&mut px, w, 1, 1, [200, 10, 10, 255]);
    set_px(&mut px, w, 2, 1, [250, 250, 250, 255]);
    set_px(&mut px, w, 3, 2, [200, 10, 10, 100]);
    let samples = sample_border(&px, w as u32, h as u32);
    assert_eq!(samples.len(), 2 * 4 + 2 * 3);
    let bg = remove_background(&mut px, w as u32, h as u32);
    assert_eq!(bg, (10, 100, 50));
    // background pixel: distance to (10,100,50) is small
    assert_eq!(px[3], 0);
    assert_eq!(px[0], 12);
    // red pixel stays opaque
    assert_eq!(px[4 * (1 * w + 1) + 3], 255);
    // bright pixel cleared
    assert_eq!(px[4 * (1 * w + 2) + 3], 0);
    // low alpha cleared
    assert_eq!(px[4 * (2 * w + 3) + 3], 0);
}

#[test]
fn modal_color_of_nothing_is_white() {
    assert_eq!(modal_color(&vec![]), (255, 255, 255));
    assert_eq!(modal_color(&vec![(1, 2, 3), (15, 15, 15), (19, 11, 12)]), (10, 10, 10));
}

#[test]
fn clear_background_keeps_colors() {
    let mut px = vec![0, 0, 0, 255, 100, 100, 100, 255];
    clear_background(&mut px, (0, 0, 0), 50);
    assert_eq!(px, vec![0, 0, 0, 0, 100, 100, 100, 255]);
}

fn rate(code: &str, v: u64) -> ExchangeRate {
    ExchangeRate { currency: code.to_string(), rate_ten_thousandths: v }
}

#[test]
fn rate_texts_round_half_up() {
    assert_eq!(rate_text(955000), "95.50 ₽");
    assert_eq!(rate_text(1042549), "104.25 ₽");
    assert_eq!(rate_text(1042550), "104.26 ₽");
    assert_eq!(rate_text(0), "0.00 ₽");
    assert_eq!(rate_text(999950), "100.00 ₽");
}

#[test]
fn rates_report_lines() {
    let report = format_rates_info(&vec![rate("USD", 905012), rate("JPY", 6012), rate("XYZ", 10000)]);
    assert_eq!(
        report,
        "💱 Курсы валют к рублю (RUB):\n• $ USD: 90.50 ₽\n• ¥ JPY: 0.6012 ₽\n•  XYZ: 1.00 ₽\n"
    );
    assert_eq!(format_rates_info(&vec![]), "💱 Курсы валют к рублю (RUB):\n");
}

#[test]
fn rates_selected_in_reported_order() {
    let avail = vec![rate("CHF", 1), rate("AAA", 2), rate("USD", 3), rate("CNY", 4)];
    let picked = select_rates(&avail);
    let codes: Vec<(String, u64)> = picked.iter().map(|r| (r.currency.clone(), r.rate_ten_thousandths)).collect();
    assert_eq!(codes, vec![("USD".to_string(), 3), ("CNY".to_string(), 4), ("CHF".to_string(), 1)]);
    assert!(select_rates(&vec![]).is_empty());
}

#[test]
fn fallback_rates_are_fixed() {
    let f = fallback_rates();
    assert_eq!(f.len(), 4);
    assert_eq!(f[0].currency, "USD");
    assert_eq!(f[0].rate_ten_thousandths, 900000);
    assert_eq!(f[3].currency, "JPY");
    assert_eq!(f[3].rate_ten_thousandths, 6000);
}

#[test]
fn widget_update_applies_in_order() {
    let mut weather = WeatherWidget::default();
    let mut currencies = vec![
        CurrencyWidget::new("USD", "$", "0.00 ₽"),
        CurrencyWidget::new("EUR", "€", "0.00 ₽"),
        CurrencyWidget::new("CNY", "¥", "0.00 ₽"),
    ];
    let update = WidgetUpdate {
        weather: Some(WeatherInfo { city: "Москва".to_string(), temperature: 18, description: "Облачно".to_string(), humidity: 62 }),
        rates: Some(vec![rate("USD", 955000), rate("EUR", 1042500)]),
    };
    apply_widget_update(&mut weather, &mut currencies, update);
    assert_eq!(weather.temperature, "18 °C");
    assert_eq!(weather.condition, "Облачно");
    assert_eq!(weather.humidity, "62 %");
    assert_eq!(currencies[0].rate, "95.50 ₽");
    assert_eq!(currencies[1].rate, "104.25 ₽");
    assert_eq!(currencies[2].rate, "0.00 ₽");
    assert_eq!(currencies[1].code, "EUR");
    let none = WidgetUpdate { weather: None, rates: None };
    apply_widget_update(&mut weather, &mut currencies, none);
    assert_eq!(weather.temperature, "18 °C");
    assert_eq!(currencies[0].rate, "95.50 ₽");
}
