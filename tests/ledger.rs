use autotrade::{Date, LedgerError, Order, OrderSide, OverviewRow, Timestamp, Trading, TradingResult};

fn stamp(day: u32, h: u32, m: u32) -> Timestamp {
    Timestamp::at(Date::from_ymd(2025, 7, day).unwrap(), h, m, 0).unwrap()
}

fn trading(buy: bool, quantity: u32, price: i64, fee: i64) -> Trading {
    Trading::new(stamp(16, 10, 0), "005930".to_string(), buy, quantity, price, fee, "momentum".to_string())
}

fn result_on(day: u32, quantity: u32, price: i64, fee: i64) -> TradingResult {
    let t = Trading::new(stamp(day, 10, 0), "005930".to_string(), false, quantity, price, fee, "s".to_string());
    t.to_trading_result(price).unwrap()
}

#[test]
fn buy_profit_is_minus_fee() {
    for avg in [100_000, 55_000, 1] {
        let r = trading(true, 10, 110_000, 1_500).to_trading_result(avg).unwrap();
        assert_eq!(r.profit, -1_500);
    }
    let r = trading(true, 10, 110_000, 1_500).to_trading_result(100_000).unwrap();
    // -1.5 / 1000 * 100 = -0.15 %
    assert_eq!(r.roi, -150);
}

#[test]
fn sell_profit_and_roi() {
    let r = trading(false, 10, 110_000, 2_000).to_trading_result(100_000).unwrap();
    assert_eq!(r.profit, 98_000);
    assert_eq!(r.roi, 9_800);
    assert_eq!(r.avg_price, 100_000);
    assert_eq!(r.date, Date::from_ymd(2025, 7, 16).unwrap());
    assert_eq!(r.time, 36_000);
    assert_eq!(r.stockcode, "005930");
    assert_eq!(r.strategy, "momentum");
    assert!(!r.buy_or_sell);
}

#[test]
fn sell_at_a_loss_rounds_toward_zero() {
    // (97 - 100) * 3 - 0 = -9; -9 / 300 * 100 = -3 %
    let r = trading(false, 3, 97_000, 0).to_trading_result(100_000).unwrap();
    assert_eq!(r.profit, -9_000);
    assert_eq!(r.roi, -3_000);
    // 1 / 3 * 100 = 33.333... %
    let r = trading(false, 1, 4_000, 0).to_trading_result(3_000).unwrap();
    assert_eq!(r.roi, 33_333);
    let r = trading(false, 1, 2_000, 0).to_trading_result(3_000).unwrap();
    assert_eq!(r.roi, -33_333);
}

#[test]
fn zero_average_price_is_an_error() {
    let r = trading(false, 10, 110_000, 2_000).to_trading_result(0);
    assert!(matches!(r, Err(LedgerError::DivisionByZero)));
    let r = trading(true, 10, 110_000, 2_000).to_trading_result(0);
    assert!(matches!(r, Err(LedgerError::DivisionByZero)));
}

#[test]
fn profit_overflow_is_an_error() {
    let r = trading(false, u32::MAX, i64::MAX, 0).to_trading_result(0);
    assert!(matches!(r, Err(LedgerError::Overflow)));
    let r = trading(true, 1, 0, i64::MIN).to_trading_result(1);
    assert!(matches!(r, Err(LedgerError::Overflow)));
    let r = trading(true, 1, 0, i64::MAX).to_trading_result(1);
    assert!(matches!(r, Err(LedgerError::Overflow)));
}

#[test]
fn order_becomes_trading() {
    let order = Order {
        date: stamp(16, 9, 30),
        stockcode: "000660".to_string(),
        side: OrderSide::Buy,
        quantity: 7,
        price: 123_500,
        fee: 250,
        strategy: "grid".to_string(),
    };
    let t = order.to_trading();
    assert!(t.buy_or_sell);
    assert_eq!(t.quantity, 7);
    assert_eq!(t.price, 123_500);
    assert_eq!(t.fee, 250);
    assert_eq!(t.stockcode, "000660");
    assert_eq!(t.strategy, "grid");
    assert_eq!(t.date, stamp(16, 9, 30));
    let sell = Order { side: OrderSide::Sell, ..order };
    assert!(!sell.to_trading().buy_or_sell);
}

#[test]
fn overview_ratchet() {
    let d = Date::from_ymd(2025, 7, 16).unwrap();
    let mut row = OverviewRow::open_day(d, 100_000);
    assert_eq!((row.open, row.high, row.low), (100_000, 100_000, 100_000));
    for v in [95_000, 110_000, 105_000] {
        row.update(v);
    }
    assert_eq!(row.high, 110_000);
    assert_eq!(row.low, 95_000);
    assert_eq!(row.open, 100_000);
}

#[test]
fn finish_sums_today_trades_only() {
    let d = Date::from_ymd(2025, 7, 16).unwrap();
    let mut row = OverviewRow::open_day(d, 100_000);
    row.update(120_000);
    let trades = vec![result_on(16, 10, 50_000, 1_500), result_on(15, 3, 10_000, 9_000), result_on(16, 2, 7_000, 500)];
    let done = row.finish(110_000, &trades).unwrap();
    assert_eq!(done.close, 110_000);
    assert_eq!(done.profit, 10_000);
    assert_eq!(done.roi, 10_000);
    assert_eq!(done.fee, 2_000);
    assert_eq!(done.turnover, 514_000);
    assert_eq!(done.high, 120_000);
    assert_eq!(done.low, 100_000);
    assert_eq!(done.open, 100_000);
}

#[test]
fn finish_widens_high_and_low_to_the_close() {
    let d = Date::from_ymd(2025, 7, 16).unwrap();
    let row = OverviewRow::open_day(d, 100_000);
    let up = row.finish(130_000, &Vec::new()).unwrap();
    assert_eq!((up.high, up.low), (130_000, 100_000));
    let down = row.finish(80_000, &Vec::new()).unwrap();
    assert_eq!((down.high, down.low), (100_000, 80_000));
    assert_eq!(down.roi, -20_000);
    assert_eq!((down.fee, down.turnover), (0, 0));
}

#[test]
fn finish_is_idempotent() {
    let d = Date::from_ymd(2025, 7, 16).unwrap();
    let mut row = OverviewRow::open_day(d, 100_000);
    row.update(90_000);
    let trades = vec![result_on(16, 4, 25_000, 300)];
    let once = row.finish(104_000, &trades).unwrap();
    let twice = once.finish(104_000, &trades).unwrap();
    assert_eq!(once, twice);
}

#[test]
fn finish_errors() {
    let d = Date::from_ymd(2025, 7, 16).unwrap();
    let zero = OverviewRow::open_day(d, 0);
    assert!(matches!(zero.finish(10, &Vec::new()), Err(LedgerError::DivisionByZero)));
    let row = OverviewRow::open_day(d, -1);
    assert!(matches!(row.finish(i64::MAX, &Vec::new()), Err(LedgerError::Overflow)));
    let row = OverviewRow::open_day(d, 1_000);
    let big = vec![result_on(16, u32::MAX, i64::MAX / 2, 0)];
    assert!(matches!(row.finish(1_000, &big), Err(LedgerError::Overflow)));
    let other_day = vec![result_on(15, u32::MAX, i64::MAX / 2, 0)];
    assert!(row.finish(1_000, &other_day).is_ok());
}

#[test]
fn db_tuple_of_a_trade() {
    let r = trading(false, 10, 110_000, 2_000).to_trading_result(100_000).unwrap();
    let t = r.to_db_tuple().unwrap();
    assert_eq!(t.0, "2025-07-16");
    assert_eq!(t.1, "10:00:00");
    assert_eq!(t.2, "005930");
    assert_eq!(t.3, "sell");
    assert_eq!((t.4, t.5, t.6), (10, 110_000, 2_000));
    assert_eq!(t.7, "momentum");
    assert_eq!((t.8, t.9, t.10), (100_000, 98_000, 9_800));
    let buy = trading(true, 1, 5_000, 10).to_trading_result(5_000).unwrap();
    assert_eq!(buy.get_buy_or_sell_string(), "buy");
    assert_eq!(buy.get_stockcode_string(), "005930");
    let late = TradingResult::new(r.get_date(), 86_400, "x".to_string(), true, 1, 1, 0, "s".to_string(), 1, 0, 0);
    assert!(late.to_db_tuple().is_none());
    let far = TradingResult::new(Date::from_day_number(200_000_000), 0, "x".to_string(), true, 1, 1, 0, "s".to_string(), 1, 0, 0);
    assert!(far.to_db_tuple().is_none());
}

#[test]
fn getters_return_fields() {
    let t = trading(false, 3, 7_000, 40);
    assert_eq!((t.get_quantity(), t.get_price(), t.get_fee()), (3, 7_000, 40));
    assert_eq!((t.get_stockcode(), t.get_strategy()), ("005930", "momentum"));
    assert!(!t.get_buy_or_sell());
    assert_eq!(t.get_date(), stamp(16, 10, 0));
    let r = t.to_trading_result(6_000).unwrap();
    assert_eq!((r.get_quantity(), r.get_price(), r.get_fee(), r.get_avg_price()), (3, 7_000, 40, 6_000));
    assert_eq!((r.get_profit(), r.get_roi(), r.get_time()), (2_960, 16_444, 36_000));
    assert_eq!((r.get_stockcode(), r.get_strategy()), ("005930", "momentum"));
    let info = autotrade::AssetInfo::new(stamp(16, 9, 0), 5);
    assert_eq!((info.get_date(), info.get_asset()), (stamp(16, 9, 0), 5));
}
