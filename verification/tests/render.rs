use cryptoticker::error::TickerError;
use cryptoticker::record::Currency;
use cryptoticker::render::{same_text, short_name, token};

fn priced(id: &str, price: Option<&str>) -> Currency {
    Currency {
        id: id.to_string(),
        name: id.to_string(),
        symbol: id.to_string(),
        rank: "1".to_string(),
        price_usd: price.map(String::from),
        price_btc: None,
        volume_usd_24h: None,
        market_cap_usd: None,
        available_supply: None,
        total_supply: None,
        percent_change_1: None,
        percent_change_24: None,
        percent_change_7: None,
        last_updated: None,
    }
}

#[test]
fn texts_are_compared_by_content() {
    assert!(same_text("", ""));
    assert!(same_text("abc", "abc"));
    assert!(!same_text("abc", "abd"));
    assert!(!same_text("abc", "ab"));
}

#[test]
fn well_known_assets_have_short_names() {
    assert_eq!(short_name("bitcoin"), "btc");
    assert_eq!(short_name("ethereum"), "eth");
    assert_eq!(short_name("litecoin"), "litecoin");
    assert_eq!(short_name("Bitcoin"), "Bitcoin");
    assert_eq!(short_name(""), "");
}

#[test]
fn token_is_short_name_colon_price_space() {
    assert_eq!(token("bitcoin", &Ok(priced("bitcoin", Some("50000.0"))), false), "btc:50000.0 ");
    assert_eq!(token("ethereum", &Ok(priced("ethereum", Some("12.1844"))), true), "eth:12.1844 ");
    assert_eq!(token("ripple", &Ok(priced("ripple", Some("0.006"))), false), "ripple:0.006 ");
}

#[test]
fn token_goes_by_the_asset_that_was_asked_for() {
    assert_eq!(token("bitcoin", &Ok(priced("other", Some("1"))), false), "btc:1 ");
}

#[test]
fn missing_price_is_shown_as_null() {
    assert_eq!(token("bitcoin", &Ok(priced("bitcoin", None)), false), "btc:null ");
}

#[test]
fn error_is_shown_as_a_placeholder() {
    let error = TickerError::NotFound { asset_id: "unknowncoin123".to_string() };
    assert_eq!(token("unknowncoin123", &Err(error), false), "unknowncoin123:error ");
    let error = TickerError::Decode { asset_id: "bitcoin".to_string(), message: "m".to_string() };
    assert_eq!(token("bitcoin", &Err(error), false), "bitcoin:error ");
}

#[test]
fn error_is_shown_in_detail_when_verbose() {
    let error = TickerError::NotFound { asset_id: "unknowncoin123".to_string() };
    assert_eq!(token("unknowncoin123", &Err(error), true), "Ticker ID unknowncoin123 not valid.\n");
    let error = TickerError::TransportFailure { asset_id: "a".to_string(), message: "refused".to_string() };
    assert_eq!(token("a", &Err(error), true), "refused\n");
}

#[test]
fn every_error_has_its_detail_and_its_asset() {
    let id = || "a".to_string();
    let m = || "text".to_string();
    let all = vec![
        (TickerError::TransportFailure { asset_id: id(), message: m() }, "text"),
        (TickerError::NotFound { asset_id: id() }, "Ticker ID a not valid."),
        (TickerError::Decode { asset_id: id(), message: m() }, "text"),
        (TickerError::IOFailure { asset_id: id(), message: m() }, "text"),
        (TickerError::ClockAnomaly { asset_id: id(), message: m() }, "text"),
        (TickerError::Missing { asset_id: id() }, "No cache entry for a."),
    ];
    for (error, detail) in all {
        assert_eq!(error.asset_id(), "a");
        assert_eq!(error.detail(), detail);
    }
}
