//! The failures a ticker can meet, as a closed set of variants.

use vstd::prelude::*;

verus! {

/// Why an asset could not be resolved.
#[derive(Debug, Clone)]
pub enum TickerError {
    /// The request never produced an answer.
    TransportFailure { asset_id: String, message: String },
    /// The service answered with a status outside the successful range.
    NotFound { asset_id: String },
    /// An answer or a cache entry is not the expected JSON.
    Decode { asset_id: String, message: String },
    /// The cache file could not be read or written.
    IOFailure { asset_id: String, message: String },
    /// The cache file claims to have been modified after the present moment.
    ClockAnomaly { asset_id: String, message: String },
    /// There is no cache file for the asset.
    Missing { asset_id: String },
}

/// The mathematical value of a [`TickerError`].
pub ghost enum ErrorModel {
    TransportFailure { asset_id: Seq<char>, message: Seq<char> },
    NotFound { asset_id: Seq<char> },
    Decode { asset_id: Seq<char>, message: Seq<char> },
    IOFailure { asset_id: Seq<char>, message: Seq<char> },
    ClockAnomaly { asset_id: Seq<char>, message: Seq<char> },
    Missing { asset_id: Seq<char> },
}

impl View for TickerError {
    type V = ErrorModel;

    open spec fn view(&self) -> ErrorModel {
        match self {
            TickerError::TransportFailure { asset_id, message } => ErrorModel::TransportFailure {
                asset_id: asset_id@,
                message: message@,
            },
            TickerError::NotFound { asset_id } => ErrorModel::NotFound { asset_id: asset_id@ },
            TickerError::Decode { asset_id, message } => ErrorModel::Decode {
                asset_id: asset_id@,
                message: message@,
            },
            TickerError::IOFailure { asset_id, message } => ErrorModel::IOFailure {
                asset_id: asset_id@,
                message: message@,
            },
            TickerError::ClockAnomaly { asset_id, message } => ErrorModel::ClockAnomaly {
                asset_id: asset_id@,
                message: message@,
            },
            TickerError::Missing { asset_id } => ErrorModel::Missing { asset_id: asset_id@ },
        }
    }
}

/// The asset an error is about.
pub open spec fn error_asset(e: ErrorModel) -> Seq<char> {
    match e {
        ErrorModel::TransportFailure { asset_id, .. } => asset_id,
        ErrorModel::NotFound { asset_id } => asset_id,
        ErrorModel::Decode { asset_id, .. } => asset_id,
        ErrorModel::IOFailure { asset_id, .. } => asset_id,
        ErrorModel::ClockAnomaly { asset_id, .. } => asset_id,
        ErrorModel::Missing { asset_id } => asset_id,
    }
}

/// The text shown for an error when verbose reporting is on.
pub open spec fn error_detail(e: ErrorModel) -> Seq<char> {
    match e {
        ErrorModel::TransportFailure { message, .. } => message,
        ErrorModel::NotFound { asset_id } => "Ticker ID "@ + asset_id + " not valid."@,
        ErrorModel::Decode { message, .. } => message,
        ErrorModel::IOFailure { message, .. } => message,
        ErrorModel::ClockAnomaly { message, .. } => message,
        ErrorModel::Missing { asset_id } => "No cache entry for "@ + asset_id + "."@,
    }
}

impl TickerError {
    /// The asset this error is about.
    pub fn asset_id(&self) -> (id: &String)
        ensures
            id@ == error_asset(self@),
    {
        match self {
            TickerError::TransportFailure { asset_id, .. } => asset_id,
            TickerError::NotFound { asset_id } => asset_id,
            TickerError::Decode { asset_id, .. } => asset_id,
            TickerError::IOFailure { asset_id, .. } => asset_id,
            TickerError::ClockAnomaly { asset_id, .. } => asset_id,
            TickerError::Missing { asset_id } => asset_id,
        }
    }

    /// The text to show for this error when verbose reporting is on: the
    /// underlying message where there is one, a sentence naming the asset
    /// where there is none.
    pub fn detail(&self) -> (text: String)
        ensures
            text@ == error_detail(self@),
    {
        match self {
            TickerError::TransportFailure { message, .. } => message.clone(),
            TickerError::NotFound { asset_id } => {
                String::from_str("Ticker ID ").concat(asset_id.as_str()).concat(" not valid.")
            },
            TickerError::Decode { message, .. } => message.clone(),
            TickerError::IOFailure { message, .. } => message.clone(),
            TickerError::ClockAnomaly { message, .. } => message.clone(),
            TickerError::Missing { asset_id } => {
                String::from_str("No cache entry for ").concat(asset_id.as_str()).concat(".")
            },
        }
    }
}

} // verus!
