//! The fetcher's part of the work that needs no network: where to ask for
//! an asset, and what to make of the answer.

use crate::codec::{decode_first, decoded_first, outcome_model};
use crate::error::{ErrorModel, TickerError};
use crate::json::{parsed_array, read_array, JsonObject, ObjectModel};
use crate::record::{Currency, CurrencyModel};
use vstd::prelude::*;

verus! {

/// What came of one request to the price service.
#[derive(Debug, Clone)]
pub enum HttpReply {
    /// No answer came, or it could not be read to its end.
    Failed { message: String },
    /// The service answered with this status. The body is read only where
    /// the status is a success, and is empty otherwise.
    Answered { status: u16, body: String },
}

/// The mathematical value of an [`HttpReply`].
pub ghost enum HttpReplyModel {
    Failed { message: Seq<char> },
    Answered { status: u16, body: Seq<char> },
}

impl View for HttpReply {
    type V = HttpReplyModel;

    open spec fn view(&self) -> HttpReplyModel {
        match self {
            HttpReply::Failed { message } => HttpReplyModel::Failed { message: message@ },
            HttpReply::Answered { status, body } => HttpReplyModel::Answered {
                status: *status,
                body: body@,
            },
        }
    }
}

/// The address that is asked for an asset: the service's address for
/// tickers, followed by the identifier as it is.
pub open spec fn url_of(asset_id: Seq<char>) -> Seq<char> {
    "https://api.coinmarketcap.com/v1/ticker/"@ + asset_id
}

/// Whether a status stands for success: the statuses from 200 to 299.
pub open spec fn success(status: u16) -> bool {
    200 <= status < 300
}

/// What a parsed answer comes to: the record of its first object, or a
/// decoding error that names the asset.
pub open spec fn answer_outcome(
    asset_id: Seq<char>,
    parsed: Result<Seq<ObjectModel>, Seq<char>>,
) -> Result<CurrencyModel, ErrorModel> {
    match parsed {
        Err(message) => Err(ErrorModel::Decode { asset_id, message }),
        Ok(items) => match decoded_first(items) {
            Err(message) => Err(ErrorModel::Decode { asset_id, message }),
            Ok(record) => Ok(record),
        },
    }
}

/// What a reply of the service comes to. A failed request is a transport
/// failure. A status outside 200 to 299 means that the service does not know
/// the asset. Otherwise the body is read as a JSON array of records, and its
/// first record is the result.
pub open spec fn reply_outcome(asset_id: Seq<char>, reply: HttpReplyModel) -> Result<
    CurrencyModel,
    ErrorModel,
> {
    match reply {
        HttpReplyModel::Failed { message } => Err(
            ErrorModel::TransportFailure { asset_id, message },
        ),
        HttpReplyModel::Answered { status, body } => if success(status) {
            answer_outcome(asset_id, parsed_array(body))
        } else {
            Err(ErrorModel::NotFound { asset_id })
        },
    }
}

/// A parsing result as a mathematical value.
pub open spec fn parsing_model(parsed: Result<Vec<JsonObject>, String>) -> Result<
    Seq<ObjectModel>,
    Seq<char>,
> {
    match parsed {
        Ok(items) => Ok(crate::json::objects_model(items@)),
        Err(message) => Err(message@),
    }
}

/// The address to ask for an asset.
pub fn request_url(asset_id: &str) -> (url: String)
    ensures
        url@ == url_of(asset_id@),
{
    String::from_str("https://api.coinmarketcap.com/v1/ticker/").concat(asset_id)
}

/// Whether a status stands for success.
pub fn is_success(status: u16) -> (yes: bool)
    ensures
        yes == success(status),
{
    200 <= status && status < 300
}

/// Turns a parsed answer into the record it carries, or into a decoding
/// error: the parser's own, that the array is empty, or that one of its
/// objects is no record.
pub fn record_of_answer(asset_id: &str, parsed: Result<Vec<JsonObject>, String>) -> (outcome:
    Result<Currency, TickerError>)
    ensures
        outcome_model(outcome) == answer_outcome(asset_id@, parsing_model(parsed)),
{
    match parsed {
        Err(message) => Err(TickerError::Decode { asset_id: String::from_str(asset_id), message }),
        Ok(items) => match decode_first(&items) {
            Err(message) => Err(
                TickerError::Decode { asset_id: String::from_str(asset_id), message },
            ),
            Ok(record) => Ok(record),
        },
    }
}

/// Decides what a reply of the service comes to: the record it carries, or
/// the error it stands for.
pub fn interpret_reply(asset_id: &str, reply: HttpReply) -> (outcome: Result<
    Currency,
    TickerError,
>)
    ensures
        outcome_model(outcome) == reply_outcome(asset_id@, reply@),
{
    match reply {
        HttpReply::Failed { message } => Err(
            TickerError::TransportFailure { asset_id: String::from_str(asset_id), message },
        ),
        HttpReply::Answered { status, body } => {
            if is_success(status) {
                let parsed = read_array(body.as_str());
                record_of_answer(asset_id, parsed)
            } else {
                Err(TickerError::NotFound { asset_id: String::from_str(asset_id) })
            }
        },
    }
}

} // verus!
