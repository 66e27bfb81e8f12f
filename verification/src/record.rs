//! The market snapshot of one asset, as the price service reports it.

use vstd::prelude::*;

verus! {

/// The latest known market snapshot of one asset. Every figure is carried as
/// the text the service sent: nothing here is ever read as a number.
#[derive(Debug, Clone)]
pub struct Currency {
    /// The identifier used in requests and in cache file names.
    pub id: String,
    /// The display name.
    pub name: String,
    /// The trading symbol.
    pub symbol: String,
    /// The rank, kept as text because the service may send a placeholder.
    pub rank: String,
    /// The price in US dollars.
    pub price_usd: Option<String>,
    /// The price in bitcoin.
    pub price_btc: Option<String>,
    /// The volume of the last 24 hours in US dollars.
    pub volume_usd_24h: Option<String>,
    /// The market capitalisation in US dollars.
    pub market_cap_usd: Option<String>,
    /// The supply in circulation.
    pub available_supply: Option<String>,
    /// The total supply.
    pub total_supply: Option<String>,
    /// The change over the last hour, in percent.
    pub percent_change_1: Option<String>,
    /// The change over the last 24 hours, in percent.
    pub percent_change_24: Option<String>,
    /// The change over the last 7 days, in percent.
    pub percent_change_7: Option<String>,
    /// The moment of the service's last update, as it sent it.
    pub last_updated: Option<String>,
}

/// The mathematical value of a [`Currency`].
pub ghost struct CurrencyModel {
    pub id: Seq<char>,
    pub name: Seq<char>,
    pub symbol: Seq<char>,
    pub rank: Seq<char>,
    pub price_usd: Option<Seq<char>>,
    pub price_btc: Option<Seq<char>>,
    pub volume_usd_24h: Option<Seq<char>>,
    pub market_cap_usd: Option<Seq<char>>,
    pub available_supply: Option<Seq<char>>,
    pub total_supply: Option<Seq<char>>,
    pub percent_change_1: Option<Seq<char>>,
    pub percent_change_24: Option<Seq<char>>,
    pub percent_change_7: Option<Seq<char>>,
    pub last_updated: Option<Seq<char>>,
}

/// The text of an optional field, where there is one.
pub open spec fn text_of(field: Option<String>) -> Option<Seq<char>> {
    match field {
        Some(s) => Some(s@),
        None => None,
    }
}

impl View for Currency {
    type V = CurrencyModel;

    open spec fn view(&self) -> CurrencyModel {
        CurrencyModel {
            id: self.id@,
            name: self.name@,
            symbol: self.symbol@,
            rank: self.rank@,
            price_usd: text_of(self.price_usd),
            price_btc: text_of(self.price_btc),
            volume_usd_24h: text_of(self.volume_usd_24h),
            market_cap_usd: text_of(self.market_cap_usd),
            available_supply: text_of(self.available_supply),
            total_supply: text_of(self.total_supply),
            percent_change_1: text_of(self.percent_change_1),
            percent_change_24: text_of(self.percent_change_24),
            percent_change_7: text_of(self.percent_change_7),
            last_updated: text_of(self.last_updated),
        }
    }
}

/// The price to display for a record: its dollar price, or the word `null`
/// where the service sent none.
pub open spec fn price_text(record: CurrencyModel) -> Seq<char> {
    match record.price_usd {
        Some(price) => price,
        None => "null"@,
    }
}

/// A copy of an optional text.
pub fn copy_field(field: &Option<String>) -> (copy: Option<String>)
    ensures
        text_of(copy) == text_of(*field),
{
    match field {
        Some(s) => Some(s.clone()),
        None => None,
    }
}

/// Whether two optional texts are the same.
pub fn same_field(left: &Option<String>, right: &Option<String>) -> (same: bool)
    ensures
        same == (text_of(*left) == text_of(*right)),
{
    match (left, right) {
        (Some(l), Some(r)) => *l == *r,
        (None, None) => true,
        _ => false,
    }
}

impl Currency {
    /// Whether this record and another are equal in every field.
    pub fn same_as(&self, other: &Currency) -> (same: bool)
        ensures
            same == (self@ == other@),
    {
        self.id == other.id
            && self.name == other.name
            && self.symbol == other.symbol
            && self.rank == other.rank
            && same_field(&self.price_usd, &other.price_usd)
            && same_field(&self.price_btc, &other.price_btc)
            && same_field(&self.volume_usd_24h, &other.volume_usd_24h)
            && same_field(&self.market_cap_usd, &other.market_cap_usd)
            && same_field(&self.available_supply, &other.available_supply)
            && same_field(&self.total_supply, &other.total_supply)
            && same_field(&self.percent_change_1, &other.percent_change_1)
            && same_field(&self.percent_change_24, &other.percent_change_24)
            && same_field(&self.percent_change_7, &other.percent_change_7)
            && same_field(&self.last_updated, &other.last_updated)
    }

    /// The price to display: the dollar price as the service sent it, or the
    /// word `null`.
    pub fn price_or_null(&self) -> (text: String)
        ensures
            text@ == price_text(self@),
    {
        match &self.price_usd {
            Some(price) => price.clone(),
            None => String::from_str("null"),
        }
    }
}

} // verus!
