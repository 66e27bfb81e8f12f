use cryptoticker::cache::{
    cache_file_name, checked_content, is_fresh, read_entry, seconds_left, write_entry, Age,
    CacheReply, CACHE_TTL_SECS,
};
use cryptoticker::json::{JsonObject, JsonScalar};
use cryptoticker::error::TickerError;
use cryptoticker::record::Currency;

fn sample() -> Currency {
    Currency {
        id: "bitcoin".to_string(),
        name: "Bitcoin".to_string(),
        symbol: "BTC".to_string(),
        rank: "1".to_string(),
        price_usd: Some("50000.0".to_string()),
        price_btc: None,
        volume_usd_24h: None,
        market_cap_usd: None,
        available_supply: None,
        total_supply: None,
        percent_change_1: None,
        percent_change_24: None,
        percent_change_7: None,
        last_updated: Some("1472762067".to_string()),
    }
}

fn age(secs: u64) -> Age {
    Age { secs, nanos: 0 }
}

#[test]
fn ttl_is_thirty_minutes() {
    assert_eq!(CACHE_TTL_SECS, 30 * 60);
}

#[test]
fn file_is_named_after_the_asset() {
    assert_eq!(cache_file_name("bitcoin"), "bitcoin.json");
    assert_eq!(cache_file_name(""), ".json");
}

#[test]
fn fresh_means_strictly_younger_than_the_ttl() {
    assert!(is_fresh(age(0), 1800));
    assert!(is_fresh(age(1799), 1800));
    assert!(is_fresh(Age { secs: 1799, nanos: 999_999_999 }, 1800));
    assert!(!is_fresh(age(1800), 1800));
    assert!(!is_fresh(Age { secs: 1800, nanos: 1 }, 1800));
    assert!(!is_fresh(age(1801), 1800));
    assert!(!is_fresh(age(0), 0));
    assert!(is_fresh(Age { secs: u64::MAX - 1, nanos: 999_999_999 }, u64::MAX));
    assert!(!is_fresh(Age { secs: u64::MAX - 1, nanos: 1_000_000_000 }, u64::MAX));
    assert!(!is_fresh(Age { secs: 1797, nanos: u32::MAX }, 1800));
    assert!(is_fresh(Age { secs: 1795, nanos: u32::MAX }, 1800));
    assert!(!is_fresh(Age { secs: u64::MAX, nanos: 0 }, u64::MAX));
}

#[test]
fn seconds_left_are_whole_seconds_of_the_rest() {
    assert_eq!(seconds_left(age(0), 1800), Some(1800));
    assert_eq!(seconds_left(age(1799), 1800), Some(1));
    assert_eq!(seconds_left(Age { secs: 1799, nanos: 1 }, 1800), Some(0));
    assert_eq!(seconds_left(Age { secs: 10, nanos: 500_000_000 }, 1800), Some(1789));
    assert_eq!(seconds_left(age(1800), 1800), None);
    assert_eq!(seconds_left(age(5000), 1800), None);
}

#[test]
fn record_is_written_as_one_json_object() {
    let content = write_entry("bitcoin", &sample()).unwrap();
    let expected = concat_all(&[
        "{\"24h_volume_usd\":null,\"available_supply\":null,\"id\":\"bitcoin\",",
        "\"last_updated\":\"1472762067\",\"market_cap_usd\":null,\"name\":\"Bitcoin\",",
        "\"percent_change_1\":null,\"percent_change_24\":null,\"percent_change_7\":null,",
        "\"price_btc\":null,\"price_usd\":\"50000.0\",\"rank\":\"1\",\"symbol\":\"BTC\",",
        "\"total_supply\":null}",
    ]);
    assert_eq!(String::from_utf8(content).unwrap(), expected);
}

fn concat_all(parts: &[&str]) -> String {
    let mut all = String::new();
    for part in parts {
        all.push_str(part);
    }
    all
}

#[test]
fn written_entry_reads_back_equal_in_all_fields() {
    let mut record = sample();
    record.name = "quote \" backslash \\ newline \n tab \t unicode \u{1F680} \u{0}".to_string();
    record.price_btc = Some(String::new());
    let content = write_entry("bitcoin", &record).unwrap();
    let entry = read_entry("bitcoin", CacheReply::Found { age: age(7), content }).unwrap();
    assert_eq!(format!("{:?}", entry.record), format!("{:?}", record));
    assert_eq!(entry.age.secs, 7);
    assert_eq!(entry.age.nanos, 0);
}

#[test]
fn entry_in_the_shape_of_the_service_reads() {
    let content = b"{\"id\":\"bitcoin\",\"name\":\"Bitcoin\",\"symbol\":\"BTC\",\"rank\":\"1\",\"price_usd\":\"1.0\",\"price_btc\":null}".to_vec();
    let entry = read_entry("bitcoin", CacheReply::Found { age: Age { secs: 3, nanos: 4 }, content }).unwrap();
    assert_eq!(entry.record.id, "bitcoin");
    assert_eq!(entry.record.price_usd.as_deref(), Some("1.0"));
    assert_eq!(entry.record.price_btc, None);
    assert_eq!(entry.age.secs, 3);
    assert_eq!(entry.age.nanos, 4);
}

#[test]
fn missing_file_is_missing() {
    match read_entry("bitcoin", CacheReply::Missing) {
        Err(TickerError::Missing { asset_id }) => assert_eq!(asset_id, "bitcoin"),
        other => panic!("unexpected outcome: {:?}", other),
    }
}

#[test]
fn unreadable_file_is_an_io_failure() {
    match read_entry("bitcoin", CacheReply::Unreadable { message: "denied".to_string() }) {
        Err(TickerError::IOFailure { asset_id, message }) => {
            assert_eq!(asset_id, "bitcoin");
            assert_eq!(message, "denied");
        }
        other => panic!("unexpected outcome: {:?}", other),
    }
}

#[test]
fn file_from_the_future_is_a_clock_anomaly() {
    match read_entry("bitcoin", CacheReply::FromFuture { message: "later".to_string() }) {
        Err(TickerError::ClockAnomaly { asset_id, message }) => {
            assert_eq!(asset_id, "bitcoin");
            assert_eq!(message, "later");
        }
        other => panic!("unexpected outcome: {:?}", other),
    }
}

#[test]
fn corrupt_file_is_a_decode_error() {
    for content in [&b"{\"id\":"[..], &b""[..], &b"[]"[..], &b"null"[..], &b"{} x"[..], &b"\xff"[..]] {
        match read_entry("bitcoin", CacheReply::Found { age: age(1), content: content.to_vec() }) {
            Err(TickerError::Decode { asset_id, message }) => {
                assert_eq!(asset_id, "bitcoin");
                assert!(!message.is_empty());
            }
            other => panic!("unexpected outcome: {:?}", other),
        }
    }
}

#[test]
fn object_that_is_no_record_is_a_decode_error() {
    let content = b"{\"id\":\"bitcoin\",\"name\":\"Bitcoin\",\"symbol\":\"BTC\",\"rank\":1}".to_vec();
    match read_entry("bitcoin", CacheReply::Found { age: age(1), content }) {
        Err(TickerError::Decode { asset_id, message }) => {
            assert_eq!(asset_id, "bitcoin");
            assert_eq!(message, "invalid type for field `rank`, expected a string");
        }
        other => panic!("unexpected outcome: {:?}", other),
    }
}

fn members_of(record: &Currency) -> Vec<(String, JsonScalar)> {
    vec![
        ("id".to_string(), JsonScalar::Text(record.id.clone())),
        ("name".to_string(), JsonScalar::Text(record.name.clone())),
        ("symbol".to_string(), JsonScalar::Text(record.symbol.clone())),
        ("rank".to_string(), JsonScalar::Text(record.rank.clone())),
        ("price_usd".to_string(), JsonScalar::Text("50000.0".to_string())),
        ("last_updated".to_string(), JsonScalar::Text("1472762067".to_string())),
        ("price_btc".to_string(), JsonScalar::Null),
    ]
}

#[test]
fn content_that_reads_back_as_the_record_is_handed_out() {
    let record = sample();
    let parsed = Ok(JsonObject { members: members_of(&record) });
    assert_eq!(checked_content("bitcoin", &record, vec![1, 2, 3], parsed).unwrap(), vec![1, 2, 3]);
}

#[test]
fn content_that_does_not_read_back_as_the_record_is_refused() {
    let record = sample();
    let mut other = members_of(&record);
    other[4].1 = JsonScalar::Text("50000.1".to_string());
    let mut short = members_of(&record);
    short.remove(0);
    let attempts = vec![
        Ok(JsonObject { members: other }),
        Ok(JsonObject { members: short }),
        Ok(JsonObject { members: Vec::new() }),
        Err("no json".to_string()),
    ];
    for parsed in attempts {
        match checked_content("bitcoin", &record, vec![1, 2, 3], parsed) {
            Err(TickerError::Decode { asset_id, message }) => {
                assert_eq!(asset_id, "bitcoin");
                assert_eq!(message, "the entry does not read back as its record");
            }
            other => panic!("unexpected outcome: {:?}", other),
        }
    }
}

#[test]
fn records_are_compared_field_by_field() {
    let record = sample();
    assert!(record.same_as(&sample()));
    let changes: Vec<fn(&mut Currency)> = vec![
        |r| r.id.push('x'),
        |r| r.name.push('x'),
        |r| r.symbol.push('x'),
        |r| r.rank.push('x'),
        |r| r.price_usd = None,
        |r| r.price_btc = Some(String::new()),
        |r| r.volume_usd_24h = Some("1".to_string()),
        |r| r.market_cap_usd = Some("1".to_string()),
        |r| r.available_supply = Some("1".to_string()),
        |r| r.total_supply = Some("1".to_string()),
        |r| r.percent_change_1 = Some("1".to_string()),
        |r| r.percent_change_24 = Some("1".to_string()),
        |r| r.percent_change_7 = Some("1".to_string()),
        |r| r.last_updated = Some("1".to_string()),
    ];
    for change in changes {
        let mut other = sample();
        change(&mut other);
        assert!(!record.same_as(&other));
        assert!(!other.same_as(&record));
        assert!(other.same_as(&other));
    }
}
