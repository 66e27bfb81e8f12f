//! The cache store's part of the work that needs no file system: how a
//! cache file is named, what is written to it, what to make of what was
//! read from it, and how long an entry stays fresh.

use crate::codec::{decode_object, decoded, encode_fields, record_fields};
use crate::error::{ErrorModel, TickerError};
use crate::json::{parsed_object, printed_object, read_object, write_object, JsonObject, ObjectModel};
use crate::record::{Currency, CurrencyModel};
use vstd::prelude::*;

verus! {

/// The time an entry stays fresh, in seconds: thirty minutes.
pub const CACHE_TTL_SECS: u64 = 1800;

/// How long ago a cache file was last modified: whole seconds, and the
/// billionths of a second beyond them.
#[derive(Debug, Clone, Copy)]
pub struct Age {
    pub secs: u64,
    pub nanos: u32,
}

/// An age in billionths of a second.
pub open spec fn age_nanos(age: Age) -> nat {
    (age.secs * 1_000_000_000 + age.nanos) as nat
}

/// Whether an entry of this age is fresh: its age is strictly less than
/// the time to live.
pub open spec fn fresh(age: Age, ttl_secs: u64) -> bool {
    age_nanos(age) < ttl_secs * 1_000_000_000
}

/// What came of reading an asset's cache file.
#[derive(Debug, Clone)]
pub enum CacheReply {
    /// There is no such file.
    Missing,
    /// The file is there, but it could not be read.
    Unreadable { message: String },
    /// The file claims to have been modified after the present moment.
    FromFuture { message: String },
    /// The file's content, and how long ago it was last modified.
    Found { age: Age, content: Vec<u8> },
}

/// The mathematical value of a [`CacheReply`].
pub ghost enum CacheReplyModel {
    Missing,
    Unreadable { message: Seq<char> },
    FromFuture { message: Seq<char> },
    Found { age: Age, content: Seq<u8> },
}

impl View for CacheReply {
    type V = CacheReplyModel;

    open spec fn view(&self) -> CacheReplyModel {
        match self {
            CacheReply::Missing => CacheReplyModel::Missing,
            CacheReply::Unreadable { message } => CacheReplyModel::Unreadable {
                message: message@,
            },
            CacheReply::FromFuture { message } => CacheReplyModel::FromFuture {
                message: message@,
            },
            CacheReply::Found { age, content } => CacheReplyModel::Found {
                age: *age,
                content: content@,
            },
        }
    }
}

/// A record as it was found in the cache, with the age of its file.
#[derive(Debug, Clone)]
pub struct CacheEntry {
    pub record: Currency,
    pub age: Age,
}

/// The mathematical value of a [`CacheEntry`].
pub ghost struct CacheEntryModel {
    pub record: CurrencyModel,
    pub age: Age,
}

impl View for CacheEntry {
    type V = CacheEntryModel;

    open spec fn view(&self) -> CacheEntryModel {
        CacheEntryModel { record: self.record@, age: self.age }
    }
}

/// The result of reading the cache as a mathematical value.
pub open spec fn entry_model(outcome: Result<CacheEntry, TickerError>) -> Result<
    CacheEntryModel,
    ErrorModel,
> {
    match outcome {
        Ok(entry) => Ok(entry@),
        Err(error) => Err(error@),
    }
}

/// A parsing result as a mathematical value.
pub open spec fn parsing_model(parsed: Result<JsonObject, String>) -> Result<
    ObjectModel,
    Seq<char>,
> {
    match parsed {
        Ok(object) => Ok(object@),
        Err(message) => Err(message@),
    }
}

/// The name of an asset's cache file: the identifier, followed by `.json`.
pub open spec fn file_name_of(asset_id: Seq<char>) -> Seq<char> {
    asset_id + ".json"@
}

/// What a parsed cache file comes to: the record it holds, with the age of
/// the file, or a decoding error that names the asset.
pub open spec fn content_outcome(
    asset_id: Seq<char>,
    age: Age,
    parsed: Result<ObjectModel, Seq<char>>,
) -> Result<CacheEntryModel, ErrorModel> {
    match parsed {
        Err(message) => Err(ErrorModel::Decode { asset_id, message }),
        Ok(members) => match decoded(members) {
            Err(message) => Err(ErrorModel::Decode { asset_id, message }),
            Ok(record) => Ok(CacheEntryModel { record, age }),
        },
    }
}

/// What reading the cache comes to: the record in the file and the file's
/// age, or the error that stands for what went wrong.
pub open spec fn lookup_outcome(asset_id: Seq<char>, reply: CacheReplyModel) -> Result<
    CacheEntryModel,
    ErrorModel,
> {
    match reply {
        CacheReplyModel::Missing => Err(ErrorModel::Missing { asset_id }),
        CacheReplyModel::Unreadable { message } => Err(ErrorModel::IOFailure { asset_id, message }),
        CacheReplyModel::FromFuture { message } => Err(
            ErrorModel::ClockAnomaly { asset_id, message },
        ),
        CacheReplyModel::Found { age, content } => content_outcome(
            asset_id,
            age,
            parsed_object(content),
        ),
    }
}

/// Whether what reading a content came to is the given record.
pub open spec fn read_as(parsed: Result<ObjectModel, Seq<char>>, record: CurrencyModel) -> bool {
    match parsed {
        Ok(members) => decoded(members) == Ok::<CurrencyModel, Seq<char>>(record),
        Err(_) => false,
    }
}

/// The error for a content that does not read back as the record it was
/// printed for.
pub open spec fn refusal(asset_id: Seq<char>) -> ErrorModel {
    ErrorModel::Decode { asset_id, message: "the entry does not read back as its record"@ }
}

/// What is written to the cache for a record: the JSON object that is
/// printed for its fields, provided that it reads back as the record.
pub open spec fn entry_content(asset_id: Seq<char>, record: CurrencyModel) -> Result<
    Seq<u8>,
    ErrorModel,
> {
    let content = printed_object(record_fields(record));
    if read_as(parsed_object(content), record) {
        Ok(content)
    } else {
        Err(refusal(asset_id))
    }
}

/// A content to write, or the refusal to write it, as a mathematical value.
pub open spec fn content_model(outcome: Result<Vec<u8>, TickerError>) -> Result<
    Seq<u8>,
    ErrorModel,
> {
    match outcome {
        Ok(content) => Ok(content@),
        Err(error) => Err(error@),
    }
}

/// The whole seconds for which an entry of this age stays fresh, where it
/// is fresh.
pub open spec fn time_left(age: Age, ttl_secs: u64) -> Option<u64> {
    if fresh(age, ttl_secs) {
        Some(((ttl_secs * 1_000_000_000 - age_nanos(age)) / 1_000_000_000) as u64)
    } else {
        None
    }
}

/// The name of an asset's cache file.
pub fn cache_file_name(asset_id: &str) -> (name: String)
    ensures
        name@ == file_name_of(asset_id@),
{
    String::from_str(asset_id).concat(".json")
}

/// Whether an entry of this age may still be used.
pub fn is_fresh(age: Age, ttl_secs: u64) -> (yes: bool)
    ensures
        yes == fresh(age, ttl_secs),
{
    let age_total: u128 = (age.secs as u128) * 1_000_000_000 + (age.nanos as u128);
    let ttl_total: u128 = (ttl_secs as u128) * 1_000_000_000;
    age_total < ttl_total
}

/// The whole seconds left until an entry of this age goes stale, or nothing
/// where it is stale already.
pub fn seconds_left(age: Age, ttl_secs: u64) -> (left: Option<u64>)
    ensures
        left == time_left(age, ttl_secs),
{
    let age_total: u128 = (age.secs as u128) * 1_000_000_000 + (age.nanos as u128);
    let ttl_total: u128 = (ttl_secs as u128) * 1_000_000_000;
    if age_total < ttl_total {
        let left: u128 = (ttl_total - age_total) / 1_000_000_000;
        Some(left as u64)
    } else {
        None
    }
}

/// Turns a parsed cache file into the entry it holds, or into a decoding
/// error: the parser's own, or that the object is no record.
pub fn entry_of_content(asset_id: &str, age: Age, parsed: Result<JsonObject, String>) -> (outcome:
    Result<CacheEntry, TickerError>)
    ensures
        entry_model(outcome) == content_outcome(asset_id@, age, parsing_model(parsed)),
{
    match parsed {
        Err(message) => Err(TickerError::Decode { asset_id: String::from_str(asset_id), message }),
        Ok(object) => match decode_object(&object) {
            Err(message) => Err(
                TickerError::Decode { asset_id: String::from_str(asset_id), message },
            ),
            Ok(record) => Ok(CacheEntry { record, age }),
        },
    }
}

/// Decides what reading the cache comes to: the record and the age of its
/// file; or that the file is missing, unreadable, from the future or
/// corrupt.
pub fn read_entry(asset_id: &str, reply: CacheReply) -> (outcome: Result<CacheEntry, TickerError>)
    ensures
        entry_model(outcome) == lookup_outcome(asset_id@, reply@),
{
    match reply {
        CacheReply::Missing => Err(TickerError::Missing { asset_id: String::from_str(asset_id) }),
        CacheReply::Unreadable { message } => Err(
            TickerError::IOFailure { asset_id: String::from_str(asset_id), message },
        ),
        CacheReply::FromFuture { message } => Err(
            TickerError::ClockAnomaly { asset_id: String::from_str(asset_id), message },
        ),
        CacheReply::Found { age, content } => {
            let parsed = read_object(content.as_slice());
            entry_of_content(asset_id, age, parsed)
        },
    }
}

/// Tells whether the content that was printed for a record may be written,
/// given what reading it back came to: it may where it reads back as that
/// very record, and is refused otherwise.
pub fn checked_content(
    asset_id: &str,
    record: &Currency,
    content: Vec<u8>,
    parsed: Result<JsonObject, String>,
) -> (outcome: Result<Vec<u8>, TickerError>)
    ensures
        content_model(outcome) == if read_as(parsing_model(parsed), record@) {
            Ok::<Seq<u8>, ErrorModel>(content@)
        } else {
            Err(refusal(asset_id@))
        },
{
    let same = match parsed {
        Ok(object) => match decode_object(&object) {
            Ok(back) => back.same_as(record),
            Err(_) => false,
        },
        Err(_) => false,
    };
    if same {
        Ok(content)
    } else {
        Err(
            TickerError::Decode {
                asset_id: String::from_str(asset_id),
                message: String::from_str("the entry does not read back as its record"),
            },
        )
    }
}

/// The bytes to write to an asset's cache file: the record as one JSON
/// object, every field under its key. The bytes are read back before they
/// are handed out, so that whatever is written reads back as the record it
/// was written from; bytes that do not are refused.
pub fn write_entry(asset_id: &str, record: &Currency) -> (outcome: Result<Vec<u8>, TickerError>)
    ensures
        content_model(outcome) == entry_content(asset_id@, record@),
{
    let fields = encode_fields(record);
    let content = write_object(&fields);
    let parsed = read_object(content.as_slice());
    checked_content(asset_id, record, content, parsed)
}

/// Writing and reading back: whatever is written to the cache for a record
/// is read from the cache as a record equal to it in every field, with the
/// age of the file.
pub proof fn law_written_entry_reads_back(asset_id: Seq<char>, record: CurrencyModel, age: Age)
    ensures
        entry_content(asset_id, record) matches Ok(content) ==> lookup_outcome(
            asset_id,
            CacheReplyModel::Found { age, content },
        ) == Ok::<CacheEntryModel, ErrorModel>(CacheEntryModel { record, age }),
{
}

} // verus!
