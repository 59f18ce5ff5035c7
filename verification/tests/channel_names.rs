use kline_stream::ascii::to_lowercase;
use kline_stream::kline::KlineStream;
use kline_stream::klines::KlineInterval;
use kline_stream::websocket::Stream;

#[test]
fn btcusdt_one_minute() {
    let stream = KlineStream::new("BTCUSDT", KlineInterval::Minutes1, None);
    let name = Stream::from(stream);
    assert_eq!(name.as_str(), "btcusdt@kline_1m");
}

#[test]
fn ethusdt_one_hour() {
    let stream = KlineStream::new("ethusdt", KlineInterval::Hours1, None);
    let name = Stream::from(stream);
    assert_eq!(name.as_str(), "ethusdt@kline_1h");
}

#[test]
fn bnbusdt_one_day_with_timezone() {
    let stream = KlineStream::new(
        "BNBUSDT",
        KlineInterval::Days1,
        Some(String::from("+03:00")),
    );
    let name = Stream::from(stream);
    assert_eq!(name.as_str(), "bnbusdt@kline_1d@+03:00");
}

#[test]
fn empty_symbol_is_accepted() {
    let stream = KlineStream::new("", KlineInterval::Minutes1, None);
    let name = Stream::from(stream);
    assert_eq!(name.as_str(), "@kline_1m");
}

#[test]
fn symbol_case_does_not_matter() {
    let upper = Stream::from(KlineStream::new("BTCUSDT", KlineInterval::Minutes5, None));
    let lower = Stream::from(KlineStream::new("btcusdt", KlineInterval::Minutes5, None));
    let mixed = Stream::from(KlineStream::new("BtCuSdT", KlineInterval::Minutes5, None));
    assert_eq!(upper.as_str(), lower.as_str());
    assert_eq!(upper, lower);
    assert_eq!(upper, mixed);
}

#[test]
fn timezone_is_stored_unchanged() {
    let stream = KlineStream::new(
        "btcusdt",
        KlineInterval::Minutes1,
        Some(String::from("UTC")),
    );
    let name = Stream::from(stream);
    assert_eq!(name.as_str(), "btcusdt@kline_1m@UTC");
}

#[test]
fn every_interval_text() {
    let cases: Vec<(KlineInterval, &str)> = vec![
        (KlineInterval::Minutes1, "1m"),
        (KlineInterval::Minutes3, "3m"),
        (KlineInterval::Minutes5, "5m"),
        (KlineInterval::Minutes15, "15m"),
        (KlineInterval::Minutes30, "30m"),
        (KlineInterval::Hours1, "1h"),
        (KlineInterval::Hours2, "2h"),
        (KlineInterval::Hours4, "4h"),
        (KlineInterval::Hours6, "6h"),
        (KlineInterval::Hours8, "8h"),
        (KlineInterval::Hours12, "12h"),
        (KlineInterval::Days1, "1d"),
        (KlineInterval::Days3, "3d"),
        (KlineInterval::Weeks1, "1w"),
        (KlineInterval::Months1, "1M"),
    ];
    for (interval, text) in cases {
        assert_eq!(interval.as_str(), text);
        let name = Stream::from(KlineStream::new("xyz", interval, None));
        assert_eq!(name.as_str(), format!("xyz@kline_{}", text));
    }
}

#[test]
fn lowercase_maps_uppercase_ascii_only() {
    assert_eq!(to_lowercase("ABC"), "abc");
    assert_eq!(to_lowercase("BtC-Usd_123"), "btc-usd_123");
    assert_eq!(to_lowercase(""), "");
    assert_eq!(to_lowercase("@kline_[]{}"), "@kline_[]{}");
    // Lowering is ASCII-only: a non-ASCII uppercase letter is kept as it is.
    assert_eq!(to_lowercase("\u{c9}xY"), "\u{c9}xy");
}

#[test]
fn lowercase_is_idempotent() {
    let once = to_lowercase("EthUsdt");
    let twice = to_lowercase(once.as_str());
    assert_eq!(once, twice);
    assert_eq!(to_lowercase("btcusdt"), "btcusdt");
}

#[test]
fn stream_equality_is_value_based() {
    assert_eq!(Stream::new("btcusdt@kline_1m"), Stream::new("btcusdt@kline_1m"));
    assert_ne!(Stream::new("btcusdt@kline_1m"), Stream::new("btcusdt@kline_1h"));
    assert_eq!(Stream::new("abc").as_str(), "abc");
}
