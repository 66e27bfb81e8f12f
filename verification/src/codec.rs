//! How a market snapshot is written as a JSON object and read back from one.
//!
//! A record is an object with four members that must be texts (`id`, `name`,
//! `symbol`, `rank`) and ten that may be texts, may be `null` and may be
//! missing. Members under other keys are ignored.

use crate::error::{ErrorModel, TickerError};
use crate::json::{JsonObject, JsonScalar, ObjectModel, ScalarModel};
use crate::record::{copy_field, Currency, CurrencyModel};
use vstd::prelude::*;

verus! {

/// The value of the first member with the given key, where there is one.
pub open spec fn member(members: ObjectModel, key: Seq<char>) -> Option<ScalarModel>
    decreases members.len(),
{
    if members.len() == 0 {
        None
    } else if members[0].0 == key {
        Some(members[0].1)
    } else {
        member(members.drop_first(), key)
    }
}

/// What is said of an object that lacks a member it must have.
pub open spec fn missing_message(key: Seq<char>) -> Seq<char> {
    "missing field `"@ + key + "`"@
}

/// What is said of an object with a member that is neither a text nor, where
/// that is allowed, `null`.
pub open spec fn mistyped_message(key: Seq<char>) -> Seq<char> {
    "invalid type for field `"@ + key + "`, expected a string"@
}

/// The text under a key that must hold one, or what is wrong with the member.
pub open spec fn required_field(members: ObjectModel, key: Seq<char>) -> Result<
    Seq<char>,
    Seq<char>,
> {
    match member(members, key) {
        Some(ScalarModel::Text(text)) => Ok(text),
        Some(_) => Err(mistyped_message(key)),
        None => Err(missing_message(key)),
    }
}

/// The text under a key that may hold one: none where the member is missing
/// or `null`; or what is wrong with the member.
pub open spec fn optional_field(members: ObjectModel, key: Seq<char>) -> Result<
    Option<Seq<char>>,
    Seq<char>,
> {
    match member(members, key) {
        Some(ScalarModel::Text(text)) => Ok(Some(text)),
        Some(ScalarModel::Null) => Ok(None),
        Some(ScalarModel::Other) => Err(mistyped_message(key)),
        None => Ok(None),
    }
}

/// The complaint of a field, if it has one.
pub open spec fn fault<T>(field: Result<T, Seq<char>>) -> Option<Seq<char>> {
    match field {
        Ok(_) => None,
        Err(message) => Some(message),
    }
}

/// The first of two complaints.
pub open spec fn or_else(first: Option<Seq<char>>, second: Option<Seq<char>>) -> Option<
    Seq<char>,
> {
    match first {
        Some(_) => first,
        None => second,
    }
}

/// The complaint of the first identifying field that has one.
pub open spec fn required_fault(members: ObjectModel) -> Option<Seq<char>> {
    or_else(
        fault(required_field(members, "id"@)),
        or_else(
            fault(required_field(members, "name"@)),
            or_else(
                fault(required_field(members, "symbol"@)),
                fault(required_field(members, "rank"@)),
            ),
        ),
    )
}

/// The complaint of the first optional field that has one.
pub open spec fn optional_fault(members: ObjectModel) -> Option<Seq<char>> {
    or_else(
        fault(optional_field(members, "price_usd"@)),
        or_else(
            fault(optional_field(members, "price_btc"@)),
            or_else(
                fault(optional_field(members, "24h_volume_usd"@)),
                or_else(
                    fault(optional_field(members, "market_cap_usd"@)),
                    or_else(
                        fault(optional_field(members, "available_supply"@)),
                        or_else(
                            fault(optional_field(members, "total_supply"@)),
                            or_else(
                                fault(optional_field(members, "percent_change_1"@)),
                                or_else(
                                    fault(optional_field(members, "percent_change_24"@)),
                                    or_else(
                                        fault(optional_field(members, "percent_change_7"@)),
                                        fault(optional_field(members, "last_updated"@)),
                                    ),
                                ),
                            ),
                        ),
                    ),
                ),
            ),
        ),
    )
}

/// The record that an object without complaints stands for.
pub open spec fn record_of(members: ObjectModel) -> CurrencyModel {
    CurrencyModel {
        id: required_field(members, "id"@)->Ok_0,
        name: required_field(members, "name"@)->Ok_0,
        symbol: required_field(members, "symbol"@)->Ok_0,
        rank: required_field(members, "rank"@)->Ok_0,
        price_usd: optional_field(members, "price_usd"@)->Ok_0,
        price_btc: optional_field(members, "price_btc"@)->Ok_0,
        volume_usd_24h: optional_field(members, "24h_volume_usd"@)->Ok_0,
        market_cap_usd: optional_field(members, "market_cap_usd"@)->Ok_0,
        available_supply: optional_field(members, "available_supply"@)->Ok_0,
        total_supply: optional_field(members, "total_supply"@)->Ok_0,
        percent_change_1: optional_field(members, "percent_change_1"@)->Ok_0,
        percent_change_24: optional_field(members, "percent_change_24"@)->Ok_0,
        percent_change_7: optional_field(members, "percent_change_7"@)->Ok_0,
        last_updated: optional_field(members, "last_updated"@)->Ok_0,
    }
}

/// What an object decodes to: the record it stands for, or the complaint of
/// the first field that has one, the identifying fields first and each group
/// in the order of the record's fields.
pub open spec fn decoded(members: ObjectModel) -> Result<CurrencyModel, Seq<char>> {
    match or_else(required_fault(members), optional_fault(members)) {
        Some(message) => Err(message),
        None => Ok(record_of(members)),
    }
}

/// A decoding result as a mathematical value.
pub open spec fn decoding_model(outcome: Result<Currency, String>) -> Result<
    CurrencyModel,
    Seq<char>,
> {
    match outcome {
        Ok(record) => Ok(record@),
        Err(message) => Err(message@),
    }
}

/// A result of resolving an asset as a mathematical value.
pub open spec fn outcome_model(outcome: Result<Currency, TickerError>) -> Result<
    CurrencyModel,
    ErrorModel,
> {
    match outcome {
        Ok(record) => Ok(record@),
        Err(error) => Err(error@),
    }
}

proof fn lemma_member_skip(members: ObjectModel, key: Seq<char>, i: int)
    requires
        0 <= i < members.len(),
        members[i].0 != key,
    ensures
        member(members.skip(i), key) == member(members.skip(i + 1), key),
{
    assert(members.skip(i).drop_first() == members.skip(i + 1));
}

/// Looks a member up by its key: the value of the first member with that key.
pub fn find<'a>(object: &'a JsonObject, key: &str) -> (found: Option<&'a JsonScalar>)
    ensures
        match found {
            Some(value) => member(object@, key@) == Some(value@),
            None => member(object@, key@) is None,
        },
{
    let wanted = String::from_str(key);
    let mut i: usize = 0;
    assert(object@.skip(0) == object@);
    while i < object.members.len()
        invariant
            i <= object.members.len(),
            wanted@ == key@,
            member(object@, key@) == member(object@.skip(i as int), key@),
        decreases object.members.len() - i,
    {
        if object.members[i].0 == wanted {
            return Some(&object.members[i].1);
        }
        proof {
            lemma_member_skip(object@, key@, i as int);
        }
        i = i + 1;
    }
    None
}

fn missing(key: &str) -> (message: String)
    ensures
        message@ == missing_message(key@),
{
    String::from_str("missing field `").concat(key).concat("`")
}

fn mistyped(key: &str) -> (message: String)
    ensures
        message@ == mistyped_message(key@),
{
    String::from_str("invalid type for field `").concat(key).concat("`, expected a string")
}

/// Reads a member that must be a text.
pub fn required(object: &JsonObject, key: &str) -> (field: Result<String, String>)
    ensures
        match field {
            Ok(text) => required_field(object@, key@) == Ok::<Seq<char>, Seq<char>>(text@),
            Err(message) => required_field(object@, key@) == Err::<Seq<char>, Seq<char>>(
                message@,
            ),
        },
{
    match find(object, key) {
        Some(JsonScalar::Text(text)) => Ok(text.clone()),
        Some(_) => Err(mistyped(key)),
        None => Err(missing(key)),
    }
}

/// Reads a member that may be a text, may be `null` and may be missing.
pub fn optional(object: &JsonObject, key: &str) -> (field: Result<Option<String>, String>)
    ensures
        match field {
            Ok(Some(text)) => optional_field(object@, key@) == Ok::<Option<Seq<char>>, Seq<char>>(
                Some(text@),
            ),
            Ok(None) => optional_field(object@, key@) == Ok::<Option<Seq<char>>, Seq<char>>(None),
            Err(message) => optional_field(object@, key@) == Err::<Option<Seq<char>>, Seq<char>>(
                message@,
            ),
        },
{
    match find(object, key) {
        Some(JsonScalar::Text(text)) => Ok(Some(text.clone())),
        Some(JsonScalar::Null) => Ok(None),
        Some(JsonScalar::Other) => Err(mistyped(key)),
        None => Ok(None),
    }
}

/// Reads a record from a JSON object.
///
/// The four identifying members must be texts; each of the other ten is a
/// text, or absent from the record where the member is `null` or missing.
/// The first field that is not so is reported.
pub fn decode_object(object: &JsonObject) -> (outcome: Result<Currency, String>)
    ensures
        decoding_model(outcome) == decoded(object@),
{
    let id = match required(object, "id") {
        Ok(text) => text,
        Err(message) => return Err(message),
    };
    let name = match required(object, "name") {
        Ok(text) => text,
        Err(message) => return Err(message),
    };
    let symbol = match required(object, "symbol") {
        Ok(text) => text,
        Err(message) => return Err(message),
    };
    let rank = match required(object, "rank") {
        Ok(text) => text,
        Err(message) => return Err(message),
    };
    let price_usd = match optional(object, "price_usd") {
        Ok(field) => field,
        Err(message) => return Err(message),
    };
    let price_btc = match optional(object, "price_btc") {
        Ok(field) => field,
        Err(message) => return Err(message),
    };
    let volume_usd_24h = match optional(object, "24h_volume_usd") {
        Ok(field) => field,
        Err(message) => return Err(message),
    };
    let market_cap_usd = match optional(object, "market_cap_usd") {
        Ok(field) => field,
        Err(message) => return Err(message),
    };
    let available_supply = match optional(object, "available_supply") {
        Ok(field) => field,
        Err(message) => return Err(message),
    };
    let total_supply = match optional(object, "total_supply") {
        Ok(field) => field,
        Err(message) => return Err(message),
    };
    let percent_change_1 = match optional(object, "percent_change_1") {
        Ok(field) => field,
        Err(message) => return Err(message),
    };
    let percent_change_24 = match optional(object, "percent_change_24") {
        Ok(field) => field,
        Err(message) => return Err(message),
    };
    let percent_change_7 = match optional(object, "percent_change_7") {
        Ok(field) => field,
        Err(message) => return Err(message),
    };
    let last_updated = match optional(object, "last_updated") {
        Ok(field) => field,
        Err(message) => return Err(message),
    };
    Ok(
        Currency {
            id,
            name,
            symbol,
            rank,
            price_usd,
            price_btc,
            volume_usd_24h,
            market_cap_usd,
            available_supply,
            total_supply,
            percent_change_1,
            percent_change_24,
            percent_change_7,
            last_updated,
        },
    )
}

/// The complaint of the first object, in order, that does not decode.
pub open spec fn first_fault(items: Seq<ObjectModel>) -> Option<Seq<char>>
    decreases items.len(),
{
    if items.len() == 0 {
        None
    } else {
        match decoded(items[0]) {
            Err(message) => Some(message),
            Ok(_) => first_fault(items.drop_first()),
        }
    }
}

/// What is said of an answer that holds no record at all.
pub open spec fn empty_message() -> Seq<char> {
    "the array holds no record"@
}

/// What an array of objects decodes to: the record of its first object,
/// provided that every object in it decodes. An empty array is a complaint
/// of its own.
pub open spec fn decoded_first(items: Seq<ObjectModel>) -> Result<CurrencyModel, Seq<char>> {
    match first_fault(items) {
        Some(message) => Err(message),
        None => if items.len() == 0 {
            Err(empty_message())
        } else {
            decoded(items[0])
        },
    }
}

proof fn lemma_first_fault_skip(items: Seq<ObjectModel>, i: int)
    requires
        0 <= i < items.len(),
        decoded(items[i]) is Ok,
    ensures
        first_fault(items.skip(i)) == first_fault(items.skip(i + 1)),
{
    assert(items.skip(i).drop_first() == items.skip(i + 1));
}

/// Reads the first record of an array of JSON objects. Every object of the
/// array has to decode, though only the first is used.
pub fn decode_first(items: &Vec<JsonObject>) -> (outcome: Result<Currency, String>)
    ensures
        decoding_model(outcome) == decoded_first(crate::json::objects_model(items@)),
{
    let ghost all = crate::json::objects_model(items@);
    let mut kept: Option<Currency> = None;
    let mut i: usize = 0;
    assert(all.skip(0) == all);
    while i < items.len()
        invariant
            i <= items.len(),
            all == crate::json::objects_model(items@),
            first_fault(all) == first_fault(all.skip(i as int)),
            i == 0 ==> kept is None,
            i > 0 ==> kept is Some && decoded(all[0]) == Ok::<CurrencyModel, Seq<char>>(
                kept->Some_0@,
            ),
        decreases items.len() - i,
    {
        match decode_object(&items[i]) {
            Err(message) => {
                return Err(message);
            },
            Ok(record) => {
                proof {
                    lemma_first_fault_skip(all, i as int);
                }
                if i == 0 {
                    kept = Some(record);
                }
            },
        }
        i = i + 1;
    }
    match kept {
        Some(record) => Ok(record),
        None => Err(String::from_str("the array holds no record")),
    }
}

/// The members that a record is written with: every field under its key, in
/// the order of the record's fields.
pub open spec fn record_fields(record: CurrencyModel) -> Seq<(Seq<char>, Option<Seq<char>>)> {
    seq![
        ("id"@, Some(record.id)),
        ("name"@, Some(record.name)),
        ("symbol"@, Some(record.symbol)),
        ("rank"@, Some(record.rank)),
        ("price_usd"@, record.price_usd),
        ("price_btc"@, record.price_btc),
        ("24h_volume_usd"@, record.volume_usd_24h),
        ("market_cap_usd"@, record.market_cap_usd),
        ("available_supply"@, record.available_supply),
        ("total_supply"@, record.total_supply),
        ("percent_change_1"@, record.percent_change_1),
        ("percent_change_24"@, record.percent_change_24),
        ("percent_change_7"@, record.percent_change_7),
        ("last_updated"@, record.last_updated),
    ]
}

/// Lays a record out as the members of a JSON object.
pub fn encode_fields(record: &Currency) -> (fields: Vec<(String, Option<String>)>)
    ensures
        crate::json::fields_model(fields@) == record_fields(record@),
{
    let mut fields: Vec<(String, Option<String>)> = Vec::new();
    fields.push((String::from_str("id"), Some(record.id.clone())));
    fields.push((String::from_str("name"), Some(record.name.clone())));
    fields.push((String::from_str("symbol"), Some(record.symbol.clone())));
    fields.push((String::from_str("rank"), Some(record.rank.clone())));
    fields.push((String::from_str("price_usd"), copy_field(&record.price_usd)));
    fields.push((String::from_str("price_btc"), copy_field(&record.price_btc)));
    fields.push((String::from_str("24h_volume_usd"), copy_field(&record.volume_usd_24h)));
    fields.push((String::from_str("market_cap_usd"), copy_field(&record.market_cap_usd)));
    fields.push((String::from_str("available_supply"), copy_field(&record.available_supply)));
    fields.push((String::from_str("total_supply"), copy_field(&record.total_supply)));
    fields.push((String::from_str("percent_change_1"), copy_field(&record.percent_change_1)));
    fields.push((String::from_str("percent_change_24"), copy_field(&record.percent_change_24)));
    fields.push((String::from_str("percent_change_7"), copy_field(&record.percent_change_7)));
    fields.push((String::from_str("last_updated"), copy_field(&record.last_updated)));
    fields
}

/// The members of a printed object as a reader of JSON hands them out: a
/// text for a field that is present, `null` for one that is absent.
pub open spec fn as_read(fields: Seq<(Seq<char>, Option<Seq<char>>)>) -> ObjectModel {
    Seq::new(
        fields.len(),
        |i: int|
            (
                fields[i].0,
                match fields[i].1 {
                    Some(text) => ScalarModel::Text(text),
                    None => ScalarModel::Null,
                },
            ),
    )
}

/// Whether an object holds every field of a record under its key: a text
/// for a field that is present, `null` for one that is absent.
pub open spec fn holds_record(members: ObjectModel, record: CurrencyModel) -> bool {
    forall|i: int|
        0 <= i < 14 ==> member(members, #[trigger] record_fields(record)[i].0) == Some(
            as_read(record_fields(record))[i].1,
        )
}

/// Whether a key is that of one of the ten fields a record may lack.
pub open spec fn is_optional_key(key: Seq<char>) -> bool {
    ||| key == "price_usd"@
    ||| key == "price_btc"@
    ||| key == "24h_volume_usd"@
    ||| key == "market_cap_usd"@
    ||| key == "available_supply"@
    ||| key == "total_supply"@
    ||| key == "percent_change_1"@
    ||| key == "percent_change_24"@
    ||| key == "percent_change_7"@
    ||| key == "last_updated"@
}

/// An object without its members under one key.
pub open spec fn without(members: ObjectModel, key: Seq<char>) -> ObjectModel
    decreases members.len(),
{
    if members.len() == 0 {
        members
    } else if members[0].0 == key {
        without(members.drop_first(), key)
    } else {
        seq![members[0]] + without(members.drop_first(), key)
    }
}

/// A record without the optional field that is written under a key.
pub open spec fn cleared(record: CurrencyModel, key: Seq<char>) -> CurrencyModel {
    CurrencyModel {
        price_usd: if key == "price_usd"@ { None } else { record.price_usd },
        price_btc: if key == "price_btc"@ { None } else { record.price_btc },
        volume_usd_24h: if key == "24h_volume_usd"@ { None } else { record.volume_usd_24h },
        market_cap_usd: if key == "market_cap_usd"@ { None } else { record.market_cap_usd },
        available_supply: if key == "available_supply"@ { None } else { record.available_supply },
        total_supply: if key == "total_supply"@ { None } else { record.total_supply },
        percent_change_1: if key == "percent_change_1"@ { None } else { record.percent_change_1 },
        percent_change_24: if key == "percent_change_24"@ {
            None
        } else {
            record.percent_change_24
        },
        percent_change_7: if key == "percent_change_7"@ { None } else { record.percent_change_7 },
        last_updated: if key == "last_updated"@ { None } else { record.last_updated },
        ..record
    }
}

/// The place of a key among the fourteen fields of a record, and 14 for
/// any other text.
pub open spec fn key_place(key: Seq<char>) -> int {
    if key == "id"@ {
        0
    } else if key == "name"@ {
        1
    } else if key == "symbol"@ {
        2
    } else if key == "rank"@ {
        3
    } else if key == "price_usd"@ {
        4
    } else if key == "price_btc"@ {
        5
    } else if key == "24h_volume_usd"@ {
        6
    } else if key == "market_cap_usd"@ {
        7
    } else if key == "available_supply"@ {
        8
    } else if key == "total_supply"@ {
        9
    } else if key == "percent_change_1"@ {
        10
    } else if key == "percent_change_24"@ {
        11
    } else if key == "percent_change_7"@ {
        12
    } else if key == "last_updated"@ {
        13
    } else {
        14
    }
}

/// The fourteen keys are fourteen different texts: each has a place of its
/// own.
pub proof fn lemma_keys_differ()
    ensures
        key_place("id"@) == 0,
        key_place("name"@) == 1,
        key_place("symbol"@) == 2,
        key_place("rank"@) == 3,
        key_place("price_usd"@) == 4,
        key_place("price_btc"@) == 5,
        key_place("24h_volume_usd"@) == 6,
        key_place("market_cap_usd"@) == 7,
        key_place("available_supply"@) == 8,
        key_place("total_supply"@) == 9,
        key_place("percent_change_1"@) == 10,
        key_place("percent_change_24"@) == 11,
        key_place("percent_change_7"@) == 12,
        key_place("last_updated"@) == 13,
{
    reveal_strlit("id");
    reveal_strlit("name");
    reveal_strlit("symbol");
    reveal_strlit("rank");
    reveal_strlit("price_usd");
    reveal_strlit("price_btc");
    reveal_strlit("24h_volume_usd");
    reveal_strlit("market_cap_usd");
    reveal_strlit("available_supply");
    reveal_strlit("total_supply");
    reveal_strlit("percent_change_1");
    reveal_strlit("percent_change_24");
    reveal_strlit("percent_change_7");
    reveal_strlit("last_updated");
    assert("id"@.len() == 2);
    assert("name"@.len() == 4 && "name"@[0] == 'n');
    assert("symbol"@.len() == 6);
    assert("rank"@.len() == 4 && "rank"@[0] == 'r');
    assert("price_usd"@.len() == 9 && "price_usd"@[6] == 'u');
    assert("price_btc"@.len() == 9 && "price_btc"@[6] == 'b');
    assert("24h_volume_usd"@.len() == 14 && "24h_volume_usd"@[0] == '2');
    assert("market_cap_usd"@.len() == 14 && "market_cap_usd"@[0] == 'm');
    assert("available_supply"@.len() == 16 && "available_supply"@[0] == 'a');
    assert("total_supply"@.len() == 12 && "total_supply"@[0] == 't');
    assert("percent_change_1"@.len() == 16 && "percent_change_1"@[0] == 'p'
        && "percent_change_1"@[15] == '1');
    assert("percent_change_24"@.len() == 17);
    assert("percent_change_7"@.len() == 16 && "percent_change_7"@[0] == 'p'
        && "percent_change_7"@[15] == '7');
    assert("last_updated"@.len() == 12 && "last_updated"@[0] == 'l');
}

proof fn lemma_member_at(members: ObjectModel, key: Seq<char>, i: int)
    requires
        0 <= i < members.len(),
        members[i].0 == key,
        forall|j: int| 0 <= j < i ==> members[j].0 != key,
    ensures
        member(members, key) == Some(members[i].1),
    decreases i,
{
    if i > 0 {
        lemma_member_at(members.drop_first(), key, i - 1);
    }
}

proof fn lemma_member_without(members: ObjectModel, key: Seq<char>, other: Seq<char>)
    ensures
        member(without(members, key), other) == if other == key {
            None
        } else {
            member(members, other)
        },
    decreases members.len(),
{
    if members.len() > 0 {
        lemma_member_without(members.drop_first(), key, other);
        if members[0].0 != key {
            let kept = seq![members[0]] + without(members.drop_first(), key);
            assert(kept.drop_first() == without(members.drop_first(), key));
        }
    }
}

/// An object that holds every field of a record under its key decodes to
/// that record, whatever the order of its members and whatever else it
/// holds.
pub proof fn law_object_decodes_to_its_record(members: ObjectModel, record: CurrencyModel)
    requires
        holds_record(members, record),
    ensures
        decoded(members) == Ok::<CurrencyModel, Seq<char>>(record),
{
    let fields = record_fields(record);
    assert(member(members, fields[0].0) == Some(as_read(fields)[0].1));
    assert(member(members, fields[1].0) == Some(as_read(fields)[1].1));
    assert(member(members, fields[2].0) == Some(as_read(fields)[2].1));
    assert(member(members, fields[3].0) == Some(as_read(fields)[3].1));
    assert(member(members, fields[4].0) == Some(as_read(fields)[4].1));
    assert(member(members, fields[5].0) == Some(as_read(fields)[5].1));
    assert(member(members, fields[6].0) == Some(as_read(fields)[6].1));
    assert(member(members, fields[7].0) == Some(as_read(fields)[7].1));
    assert(member(members, fields[8].0) == Some(as_read(fields)[8].1));
    assert(member(members, fields[9].0) == Some(as_read(fields)[9].1));
    assert(member(members, fields[10].0) == Some(as_read(fields)[10].1));
    assert(member(members, fields[11].0) == Some(as_read(fields)[11].1));
    assert(member(members, fields[12].0) == Some(as_read(fields)[12].1));
    assert(member(members, fields[13].0) == Some(as_read(fields)[13].1));
}

/// Writing and reading back: the members that a record is written with,
/// handed out by a reader of JSON in that order, decode to a record equal to
/// it in every field.
pub proof fn law_round_trip(record: CurrencyModel)
    ensures
        holds_record(as_read(record_fields(record)), record),
        decoded(as_read(record_fields(record))) == Ok::<CurrencyModel, Seq<char>>(record),
{
    let fields = record_fields(record);
    let members = as_read(fields);
    lemma_keys_differ();
    assert forall|i: int| 0 <= i < 14 implies member(members, #[trigger] fields[i].0) == Some(
        members[i].1,
    ) by {
        lemma_member_at(members, fields[i].0, i);
    }
    law_object_decodes_to_its_record(members, record);
}

proof fn lemma_field_without(members: ObjectModel, key: Seq<char>, other: Seq<char>)
    ensures
        other != key ==> required_field(without(members, key), other) == required_field(
            members,
            other,
        ),
        other != key ==> optional_field(without(members, key), other) == optional_field(
            members,
            other,
        ),
        optional_field(without(members, key), key) == Ok::<Option<Seq<char>>, Seq<char>>(None),
{
    lemma_member_without(members, key, other);
    lemma_member_without(members, key, key);
}

/// A missing optional field is no error: an object that decodes still
/// decodes when its members under the key of an optional field are taken
/// out, to the same record without that field. Such a record without a
/// dollar price is displayed with the word `null`.
pub proof fn law_optional_field_may_be_missing(members: ObjectModel, key: Seq<char>)
    requires
        is_optional_key(key),
        decoded(members) is Ok,
    ensures
        decoded(without(members, key)) == Ok::<CurrencyModel, Seq<char>>(
            cleared(decoded(members)->Ok_0, key),
        ),
        key == "price_usd"@ ==> crate::record::price_text(decoded(without(members, key))->Ok_0)
            == "null"@,
{
    lemma_keys_differ();
    lemma_field_without(members, key, "id"@);
    lemma_field_without(members, key, "name"@);
    lemma_field_without(members, key, "symbol"@);
    lemma_field_without(members, key, "rank"@);
    lemma_field_without(members, key, "price_usd"@);
    lemma_field_without(members, key, "price_btc"@);
    lemma_field_without(members, key, "24h_volume_usd"@);
    lemma_field_without(members, key, "market_cap_usd"@);
    lemma_field_without(members, key, "available_supply"@);
    lemma_field_without(members, key, "total_supply"@);
    lemma_field_without(members, key, "percent_change_1"@);
    lemma_field_without(members, key, "percent_change_24"@);
    lemma_field_without(members, key, "percent_change_7"@);
    lemma_field_without(members, key, "last_updated"@);
}

/// Whether an object has no member under the key of any optional field.
pub open spec fn lacks_optional_fields(members: ObjectModel) -> bool {
    forall|key: Seq<char>| is_optional_key(key) ==> (#[trigger] member(members, key)) is None
}

/// The identifying fields suffice: an object whose `id`, `name`, `symbol`
/// and `rank` are texts, and which has none of the optional fields, decodes
/// to the record of these four texts without any optional field, which is
/// displayed with the word `null` for its price.
pub proof fn law_identifying_fields_suffice(members: ObjectModel)
    requires
        required_fault(members) is None,
        lacks_optional_fields(members),
    ensures
        decoded(members) == Ok::<CurrencyModel, Seq<char>>(
            CurrencyModel {
                id: required_field(members, "id"@)->Ok_0,
                name: required_field(members, "name"@)->Ok_0,
                symbol: required_field(members, "symbol"@)->Ok_0,
                rank: required_field(members, "rank"@)->Ok_0,
                price_usd: None,
                price_btc: None,
                volume_usd_24h: None,
                market_cap_usd: None,
                available_supply: None,
                total_supply: None,
                percent_change_1: None,
                percent_change_24: None,
                percent_change_7: None,
                last_updated: None,
            },
        ),
        crate::record::price_text(decoded(members)->Ok_0) == "null"@,
{
}

} // verus!
