//! What the ticker shows for one asset: a short name, a colon, the price and
//! a space; or a placeholder of the same shape where the asset could not be
//! resolved.

use crate::error::{error_detail, ErrorModel, TickerError};
use crate::record::{price_text, Currency, CurrencyModel};
use vstd::prelude::*;

verus! {

/// The name an asset is shown under: `eth` for ethereum, `btc` for bitcoin,
/// and the identifier as it was given for every other asset.
pub open spec fn short_name_of(asset_id: Seq<char>) -> Seq<char> {
    if asset_id == "ethereum"@ {
        "eth"@
    } else if asset_id == "bitcoin"@ {
        "btc"@
    } else {
        asset_id
    }
}

/// What is shown for an asset with its record: the short name, a colon, the
/// dollar price or the word `null`, and a space.
pub open spec fn price_token(asset_id: Seq<char>, record: CurrencyModel) -> Seq<char> {
    short_name_of(asset_id) + ":"@ + price_text(record) + " "@
}

/// What is shown for an asset that could not be resolved: with verbose
/// reporting the detail of the error on a line of its own, without it the
/// identifier, a colon, the word `error` and a space.
pub open spec fn error_token(asset_id: Seq<char>, error: ErrorModel, debug: bool) -> Seq<char> {
    if debug {
        error_detail(error) + "\n"@
    } else {
        asset_id + ":error "@
    }
}

/// What is shown for an asset, given what resolving it came to.
pub open spec fn token_of(
    asset_id: Seq<char>,
    outcome: Result<CurrencyModel, ErrorModel>,
    debug: bool,
) -> Seq<char> {
    match outcome {
        Ok(record) => price_token(asset_id, record),
        Err(error) => error_token(asset_id, error, debug),
    }
}

/// Whether two texts are the same.
pub fn same_text(left: &str, right: &str) -> (same: bool)
    ensures
        same == (left@ == right@),
{
    String::from_str(left) == String::from_str(right)
}

/// The name an asset is shown under.
pub fn short_name(asset_id: &str) -> (name: String)
    ensures
        name@ == short_name_of(asset_id@),
{
    if same_text(asset_id, "ethereum") {
        String::from_str("eth")
    } else if same_text(asset_id, "bitcoin") {
        String::from_str("btc")
    } else {
        String::from_str(asset_id)
    }
}

/// What the ticker shows for an asset, given what resolving it came to.
pub fn token(asset_id: &str, outcome: &Result<Currency, TickerError>, debug: bool) -> (text:
    String)
    ensures
        text@ == token_of(asset_id@, crate::codec::outcome_model(*outcome), debug),
{
    match outcome {
        Ok(record) => {
            let price = record.price_or_null();
            short_name(asset_id).concat(":").concat(price.as_str()).concat(" ")
        },
        Err(error) => {
            if debug {
                error.detail().concat("\n")
            } else {
                String::from_str(asset_id).concat(":error ")
            }
        },
    }
}

} // verus!
