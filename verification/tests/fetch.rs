use cryptoticker::error::TickerError;
use cryptoticker::fetch::{interpret_reply, is_success, record_of_answer, request_url, HttpReply};
use cryptoticker::json::{JsonObject, JsonScalar};

fn answered(body: &str) -> HttpReply {
    HttpReply::Answered { status: 200, body: body.to_string() }
}

fn decode_message(reply: HttpReply) -> String {
    match interpret_reply("bitcoin", reply) {
        Err(TickerError::Decode { asset_id, message }) => {
            assert_eq!(asset_id, "bitcoin");
            message
        }
        other => panic!("unexpected outcome: {:?}", other),
    }
}

#[test]
fn url_is_base_followed_by_the_identifier() {
    assert_eq!(request_url("bitcoin"), "https://api.coinmarketcap.com/v1/ticker/bitcoin");
    assert_eq!(request_url(""), "https://api.coinmarketcap.com/v1/ticker/");
    assert_eq!(request_url("a b/c"), "https://api.coinmarketcap.com/v1/ticker/a b/c");
}

#[test]
fn success_is_200_to_299() {
    assert!(!is_success(0));
    assert!(!is_success(199));
    assert!(is_success(200));
    assert!(is_success(204));
    assert!(is_success(299));
    assert!(!is_success(300));
    assert!(!is_success(404));
    assert!(!is_success(u16::MAX));
}

#[test]
fn answer_with_one_record_decodes() {
    let body = "[{\"id\":\"bitcoin\",\"name\":\"Bitcoin\",\"symbol\":\"BTC\",\"rank\":\"1\",\"price_usd\":\"50000.0\",\"max_supply\":21000000}]";
    let record = interpret_reply("bitcoin", answered(body)).unwrap();
    assert_eq!(record.id, "bitcoin");
    assert_eq!(record.name, "Bitcoin");
    assert_eq!(record.symbol, "BTC");
    assert_eq!(record.rank, "1");
    assert_eq!(record.price_usd.as_deref(), Some("50000.0"));
    assert_eq!(record.price_btc, None);
    assert_eq!(record.last_updated, None);
}

#[test]
fn answer_as_the_service_sends_it_decodes() {
    let body = "[\n    {\n        \"id\": \"ethereum\", \n        \"name\": \"Ethereum\", \n        \"symbol\": \"ETH\", \n        \"rank\": \"2\", \n        \"price_usd\": \"12.1844\", \n        \"price_btc\": \"0.021262\", \n        \"24h_volume_usd\": \"24085900.0\", \n        \"market_cap_usd\": \"1018098455.0\", \n        \"available_supply\": \"83557537.0\", \n        \"total_supply\": \"83557537.0\", \n        \"max_supply\": null, \n        \"percent_change_1h\": \"-0.58\", \n        \"percent_change_24h\": \"6.34\", \n        \"percent_change_7d\": \"8.59\", \n        \"last_updated\": \"1472762062\"\n    }\n]";
    let record = interpret_reply("ethereum", answered(body)).unwrap();
    assert_eq!(record.id, "ethereum");
    assert_eq!(record.volume_usd_24h.as_deref(), Some("24085900.0"));
    assert_eq!(record.market_cap_usd.as_deref(), Some("1018098455.0"));
    assert_eq!(record.available_supply.as_deref(), Some("83557537.0"));
    assert_eq!(record.total_supply.as_deref(), Some("83557537.0"));
    assert_eq!(record.percent_change_1, None);
    assert_eq!(record.percent_change_24, None);
    assert_eq!(record.percent_change_7, None);
    assert_eq!(record.last_updated.as_deref(), Some("1472762062"));
}

#[test]
fn escapes_in_texts_are_resolved() {
    let body = "[{\"id\":\"a\\u0041\\n\",\"name\":\"\\\"q\\\"\",\"symbol\":\"\",\"rank\":\"\\\\\"}]";
    let record = interpret_reply("x", answered(body)).unwrap();
    assert_eq!(record.id, "aA\n");
    assert_eq!(record.name, "\"q\"");
    assert_eq!(record.symbol, "");
    assert_eq!(record.rank, "\\");
}

#[test]
fn null_price_is_no_price() {
    let body = "[{\"id\":\"bitcoin\",\"name\":\"Bitcoin\",\"symbol\":\"BTC\",\"rank\":\"1\",\"price_usd\":null}]";
    let record = interpret_reply("bitcoin", answered(body)).unwrap();
    assert_eq!(record.price_usd, None);
    assert_eq!(record.price_or_null(), "null");
}

#[test]
fn status_404_is_not_found() {
    let reply = HttpReply::Answered { status: 404, body: String::new() };
    match interpret_reply("unknowncoin123", reply) {
        Err(TickerError::NotFound { asset_id }) => assert_eq!(asset_id, "unknowncoin123"),
        other => panic!("unexpected outcome: {:?}", other),
    }
}

#[test]
fn status_is_looked_at_before_the_body() {
    let body = "[{\"id\":\"bitcoin\",\"name\":\"Bitcoin\",\"symbol\":\"BTC\",\"rank\":\"1\"}]";
    let reply = HttpReply::Answered { status: 500, body: body.to_string() };
    assert!(matches!(interpret_reply("bitcoin", reply), Err(TickerError::NotFound { .. })));
}

#[test]
fn failed_request_is_a_transport_failure() {
    match interpret_reply("bitcoin", HttpReply::Failed { message: "no route".to_string() }) {
        Err(TickerError::TransportFailure { asset_id, message }) => {
            assert_eq!(asset_id, "bitcoin");
            assert_eq!(message, "no route");
        }
        other => panic!("unexpected outcome: {:?}", other),
    }
}

#[test]
fn empty_array_is_a_decode_error() {
    assert_eq!(decode_message(answered("[]")), "the array holds no record");
    assert_eq!(decode_message(answered(" [ ] ")), "the array holds no record");
}

#[test]
fn body_that_is_no_json_is_a_decode_error() {
    for body in ["", "[", "[{]", "not json", "[{\"id\":\"a\"}] trailing", "[{\"id\":\"a\",}]"] {
        assert!(!decode_message(answered(body)).is_empty());
    }
}

#[test]
fn body_that_is_no_array_of_objects_is_a_decode_error() {
    for body in ["{}", "null", "\"text\"", "5", "[1]", "[null]", "[[\"a\",\"b\",\"c\",\"d\"]]", "[{},5]"] {
        assert!(!decode_message(answered(body)).is_empty());
    }
}

#[test]
fn record_with_a_missing_identifying_field_is_a_decode_error() {
    let body = "[{\"id\":\"bitcoin\",\"name\":\"Bitcoin\",\"rank\":\"1\"}]";
    assert_eq!(decode_message(answered(body)), "missing field `symbol`");
}

#[test]
fn record_with_a_number_for_a_text_is_a_decode_error() {
    let body = "[{\"id\":\"bitcoin\",\"name\":\"Bitcoin\",\"symbol\":\"BTC\",\"rank\":\"1\",\"price_usd\":50000.0}]";
    assert_eq!(decode_message(answered(body)), "invalid type for field `price_usd`, expected a string");
    let body = "[{\"id\":null,\"name\":\"Bitcoin\",\"symbol\":\"BTC\",\"rank\":\"1\"}]";
    assert_eq!(decode_message(answered(body)), "invalid type for field `id`, expected a string");
}

#[test]
fn later_objects_of_the_array_have_to_be_records_too() {
    let body = "[{\"id\":\"bitcoin\",\"name\":\"Bitcoin\",\"symbol\":\"BTC\",\"rank\":\"1\"},{\"id\":\"x\"}]";
    assert_eq!(decode_message(answered(body)), "missing field `name`");
}

#[test]
fn parsed_answer_is_turned_into_its_record() {
    let members = vec![
        ("id".to_string(), JsonScalar::Text("a".to_string())),
        ("name".to_string(), JsonScalar::Text("b".to_string())),
        ("symbol".to_string(), JsonScalar::Text("c".to_string())),
        ("rank".to_string(), JsonScalar::Text("d".to_string())),
    ];
    let record = record_of_answer("a", Ok(vec![JsonObject { members }])).unwrap();
    assert_eq!(record.rank, "d");
    match record_of_answer("a", Err("broken".to_string())) {
        Err(TickerError::Decode { asset_id, message }) => {
            assert_eq!(asset_id, "a");
            assert_eq!(message, "broken");
        }
        other => panic!("unexpected outcome: {:?}", other),
    }
    assert!(matches!(record_of_answer("a", Ok(vec![])), Err(TickerError::Decode { .. })));
}
