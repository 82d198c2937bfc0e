//! Plain values that a client and its caller hand to each other.

use vstd::prelude::*;

verus! {

/// Symbols of the coins that stand for one US dollar.
pub const USD_COINS: [&'static str; 5] = ["USD", "USDC", "USDT", "BUSD", "ZUSD"];

/// The identifier that an exchange gave to an order. It is carried as it
/// came and never looked into.
pub type OrderId = String;

/// The direction of an order.
#[derive(Debug, Clone, Copy, PartialEq, Eq, Structural)]
pub enum OrderSide {
    Buy,
    Sell,
}

impl OrderSide {
    /// The name of the variant, which is the text form of a side.
    pub open spec fn name(self) -> Seq<char> {
        match self {
            OrderSide::Buy => "Buy"@,
            OrderSide::Sell => "Sell"@,
        }
    }

    /// The text that this side displays as.
    pub fn to_string(&self) -> (text: String)
        ensures
            text@ == self.name(),
    {
        match self {
            OrderSide::Buy => "Buy".to_owned(),
            OrderSide::Sell => "Sell".to_owned(),
        }
    }
}

/// The shape in which a market report is asked for.
#[derive(Debug, Clone, Copy, PartialEq, Eq, Structural)]
pub enum MarketInfoFormat {
    All,
    Ask,
    Weighted24hAveragePrice,
    Hourly,
}

/// `chrono::NaiveDate`, a calendar date, made known to the verifier so that
/// it can stand in a field. Nothing is claimed of it: the library carries
/// dates through and does not look into them.
#[verifier::external_type_specification]
#[verifier::external_body]
pub struct ExNaiveDate(chrono::NaiveDate);

/// Which part of the lending-rate history is asked for: the days between
/// two dates, or the last days up to now.
pub enum LendingHistory {
    Range { start_date: chrono::NaiveDate, end_date: chrono::NaiveDate },
    Previous { days: usize },
}

} // verus!
