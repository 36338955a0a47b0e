use unirate_api::endpoints::{
    ApiRequest, CONVERT_PATH, CURRENCIES_PATH, HISTORICAL_LIMITS_PATH, HISTORICAL_RATES_PATH,
    RATES_PATH, TIME_SERIES_PATH, VAT_RATES_PATH,
};
use unirate_api::{upper, UniRateClient};

fn client() -> UniRateClient {
    UniRateClient::builder("test-key")
        .base_url("http://127.0.0.1:9")
        .build()
        .expect("client builds")
}

fn pairs(list: &[(&str, &str)]) -> Vec<(String, String)> {
    list.iter()
        .map(|(k, v)| (k.to_string(), v.to_string()))
        .collect()
}

fn check(req: &ApiRequest, url: &str, query: &[(&str, &str)]) {
    assert_eq!(req.url, url);
    assert_eq!(req.query, pairs(query));
    assert_eq!(
        req.headers,
        pairs(&[("accept", "application/json"), ("user-agent", "unirate-rust/0.1.0")])
    );
}

#[test]
fn upper_uppercases_ascii_letters_only() {
    assert_eq!(upper("usd"), "USD");
    assert_eq!(upper("Eur"), "EUR");
    assert_eq!(upper("btc-1.x"), "BTC-1.X");
    assert_eq!(upper(""), "");
    assert_eq!(upper("zürich"), "ZüRICH");
}

#[test]
fn upper_is_idempotent_on_examples() {
    for s in ["usd", "GbP", "a1b2", "ßz"] {
        assert_eq!(upper(&upper(s)), upper(s));
    }
}

#[test]
fn rate_request_uppercases_codes_and_appends_key() {
    let req = client().rate_request("usd", "eur");
    check(
        &req,
        "http://127.0.0.1:9/api/rates",
        &[("from", "USD"), ("to", "EUR"), ("api_key", "test-key")],
    );
}

#[test]
fn all_rates_request_sends_base() {
    let req = client().all_rates_request("usd");
    check(&req, "http://127.0.0.1:9/api/rates", &[("from", "USD"), ("api_key", "test-key")]);
}

#[test]
fn convert_request_sends_amount_text() {
    let amount = 100.0f64.to_string();
    let req = client().convert_request(&amount, "USD", "eur");
    check(
        &req,
        "http://127.0.0.1:9/api/convert",
        &[("from", "USD"), ("to", "EUR"), ("amount", "100"), ("api_key", "test-key")],
    );
}

#[test]
fn supported_currencies_request_has_only_key() {
    let req = client().supported_currencies_request();
    check(&req, "http://127.0.0.1:9/api/currencies", &[("api_key", "test-key")]);
}

#[test]
fn historical_rate_request_sends_date_and_amount_one() {
    let req = client().historical_rate_request("2024-01-01", "usd", "eur");
    check(
        &req,
        "http://127.0.0.1:9/api/historical/rates",
        &[
            ("date", "2024-01-01"),
            ("amount", "1"),
            ("from", "USD"),
            ("to", "EUR"),
            ("api_key", "test-key"),
        ],
    );
}

#[test]
fn historical_rates_request_sends_date_and_amount_one() {
    let req = client().historical_rates_request("2024-01-01", "usd");
    check(
        &req,
        "http://127.0.0.1:9/api/historical/rates",
        &[("date", "2024-01-01"), ("amount", "1"), ("from", "USD"), ("api_key", "test-key")],
    );
}

#[test]
fn convert_historical_request_sends_amount_and_date() {
    let amount = 100.0f64.to_string();
    let req = client().convert_historical_request(&amount, "usd", "eur", "2024-01-01");
    check(
        &req,
        "http://127.0.0.1:9/api/historical/rates",
        &[
            ("date", "2024-01-01"),
            ("amount", "100"),
            ("from", "USD"),
            ("to", "EUR"),
            ("api_key", "test-key"),
        ],
    );
}

#[test]
fn time_series_request_joins_uppercased_currencies() {
    let amount = 1.0f64.to_string();
    let req = client().time_series_request("2024-01-01", "2024-01-02", "usd", Some(&["eur", "gbp"]), &amount);
    check(
        &req,
        "http://127.0.0.1:9/api/historical/timeseries",
        &[
            ("start_date", "2024-01-01"),
            ("end_date", "2024-01-02"),
            ("amount", "1"),
            ("base", "USD"),
            ("currencies", "EUR,GBP"),
            ("api_key", "test-key"),
        ],
    );
}

#[test]
fn time_series_request_omits_empty_or_missing_currencies() {
    let c = client();
    let expected = [
        ("start_date", "2024-01-01"),
        ("end_date", "2024-01-07"),
        ("amount", "2.5"),
        ("base", "USD"),
        ("api_key", "test-key"),
    ];
    let none = c.time_series_request("2024-01-01", "2024-01-07", "USD", None, "2.5");
    check(&none, "http://127.0.0.1:9/api/historical/timeseries", &expected);
    let empty: &[&str] = &[];
    let req = c.time_series_request("2024-01-01", "2024-01-07", "USD", Some(empty), "2.5");
    check(&req, "http://127.0.0.1:9/api/historical/timeseries", &expected);
}

#[test]
fn time_series_request_single_currency_has_no_comma() {
    let req = client().time_series_request("a", "b", "usd", Some(&["btc"]), "1");
    assert_eq!(req.query[4], ("currencies".to_string(), "BTC".to_string()));
}

#[test]
fn historical_limits_request_has_only_key() {
    let req = client().historical_limits_request();
    check(&req, "http://127.0.0.1:9/api/historical/limits", &[("api_key", "test-key")]);
}

#[test]
fn vat_requests() {
    let c = client();
    check(&c.vat_rates_request(), "http://127.0.0.1:9/api/vat/rates", &[("api_key", "test-key")]);
    check(
        &c.vat_rate_request("de"),
        "http://127.0.0.1:9/api/vat/rates",
        &[("country", "DE"), ("api_key", "test-key")],
    );
}

#[test]
fn api_key_is_last_query_parameter_of_every_request() {
    let c = client();
    let requests = vec![
        c.rate_request("usd", "eur"),
        c.all_rates_request("usd"),
        c.convert_request("5", "usd", "eur"),
        c.supported_currencies_request(),
        c.historical_rate_request("2024-01-01", "usd", "eur"),
        c.historical_rates_request("2024-01-01", "usd"),
        c.convert_historical_request("5", "usd", "eur", "2024-01-01"),
        c.time_series_request("2024-01-01", "2024-01-02", "usd", Some(&["eur"]), "1"),
        c.historical_limits_request(),
        c.vat_rates_request(),
        c.vat_rate_request("fr"),
    ];
    for req in requests {
        assert_eq!(
            req.query.last(),
            Some(&("api_key".to_string(), "test-key".to_string()))
        );
        assert_eq!(
            req.headers[0],
            ("accept".to_string(), "application/json".to_string())
        );
    }
}

#[test]
fn paths_are_the_api_paths() {
    assert_eq!(RATES_PATH, "/api/rates");
    assert_eq!(CONVERT_PATH, "/api/convert");
    assert_eq!(CURRENCIES_PATH, "/api/currencies");
    assert_eq!(HISTORICAL_RATES_PATH, "/api/historical/rates");
    assert_eq!(TIME_SERIES_PATH, "/api/historical/timeseries");
    assert_eq!(HISTORICAL_LIMITS_PATH, "/api/historical/limits");
    assert_eq!(VAT_RATES_PATH, "/api/vat/rates");
}
