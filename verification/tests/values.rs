use chrono::NaiveDate;
use exchange_core::{LendingHistory, MarketInfoFormat, OrderId, OrderSide, USD_COINS};

#[test]
fn order_side_displays_as_the_variant_name() {
    assert_eq!(OrderSide::Buy.to_string(), "Buy");
    assert_eq!(OrderSide::Sell.to_string(), "Sell");
}

#[test]
fn order_sides_are_two_distinct_values() {
    assert_eq!(OrderSide::Buy, OrderSide::Buy);
    assert_eq!(OrderSide::Sell, OrderSide::Sell);
    assert_ne!(OrderSide::Buy, OrderSide::Sell);
    let side = OrderSide::Sell;
    let copy = side;
    assert_eq!(side, copy);
}

#[test]
fn usd_coins_are_the_five_symbols() {
    assert_eq!(USD_COINS, ["USD", "USDC", "USDT", "BUSD", "ZUSD"]);
    assert!(USD_COINS.contains(&"USDC"));
    assert!(!USD_COINS.contains(&"SOL"));
    assert!(!USD_COINS.contains(&"usd"));
}

#[test]
fn market_info_formats_are_four_distinct_values() {
    let all = [
        MarketInfoFormat::All,
        MarketInfoFormat::Ask,
        MarketInfoFormat::Weighted24hAveragePrice,
        MarketInfoFormat::Hourly,
    ];
    for (i, a) in all.iter().enumerate() {
        for (j, b) in all.iter().enumerate() {
            assert_eq!(a == b, i == j);
        }
    }
}

#[test]
fn lending_history_is_a_range_or_a_number_of_days() {
    let start = NaiveDate::from_ymd_opt(2022, 1, 31).unwrap();
    let end = NaiveDate::from_ymd_opt(2022, 3, 1).unwrap();
    let range = LendingHistory::Range {
        start_date: start,
        end_date: end,
    };
    match range {
        LendingHistory::Range {
            start_date,
            end_date,
        } => {
            assert_eq!(start_date, start);
            assert_eq!(end_date, end);
        }
        LendingHistory::Previous { .. } => panic!("a range was made"),
    }
    let previous = LendingHistory::Previous { days: 7 };
    assert!(matches!(previous, LendingHistory::Previous { days: 7 }));
}

#[test]
fn order_id_is_plain_text() {
    let id: OrderId = String::from("7f3a-0001");
    assert_eq!(id, "7f3a-0001");
}
