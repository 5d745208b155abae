use vstd::prelude::*;

use crate::calendar::Date;
use crate::clock::Timestamp;

verus! {

/// Thousandths in one unit: amounts and percentages are fixed-point integers
/// at this scale.
pub const SCALE: i64 = 1000;

/// Why a ledger computation has no result.
#[derive(Clone, Copy, Debug, PartialEq, Eq, Structural)]
pub enum LedgerError {
    /// A return on investment over a capital of zero.
    DivisionByZero,
    /// A result that does not fit in 64 bits.
    Overflow,
}

/// `x` fits in an `i64`.
pub open spec fn fits_i64(x: int) -> bool {
    i64::MIN <= x <= i64::MAX
}

pub open spec fn abs_int(x: int) -> int {
    if x < 0 {
        -x
    } else {
        x
    }
}

/// `a / b` rounded toward zero.
pub open spec fn div_trunc(a: int, b: int) -> int {
    let q = abs_int(a) / abs_int(b);
    if (a < 0) != (b < 0) {
        -q
    } else {
        q
    }
}

/// `num / den` rounded toward zero, for a nonzero `den`.
pub fn div_toward_zero(num: i128, den: i128) -> (r: i128)
    requires
        den != 0,
        num > i128::MIN,
        den > i128::MIN,
    ensures
        r == div_trunc(num as int, den as int),
{
    let na: u128 = if num < 0 {
        (-num) as u128
    } else {
        num as u128
    };
    let nd: u128 = if den < 0 {
        (-den) as u128
    } else {
        den as u128
    };
    let q: u128 = na / nd;
    assert(q <= na) by (nonlinear_arith)
        requires
            q == na / nd,
            nd >= 1,
    ;
    if (num < 0) != (den < 0) {
        -(q as i128)
    } else {
        q as i128
    }
}

/// Profit of a trade in thousandths: a purchase costs its fee; a sale earns
/// the gap between its price and the average purchase price on each share,
/// less its fee.
pub open spec fn trade_profit(buy: bool, price: int, avg_price: int, quantity: int, fee: int) -> int {
    if buy {
        -fee
    } else {
        (price - avg_price) * quantity - fee
    }
}

/// Return on investment in thousandths of a percent: the profit over the
/// capital committed (`avg_price * quantity`), times a hundred.
pub open spec fn trade_roi(profit: int, avg_price: int, quantity: int) -> int {
    div_trunc(profit * 100 * SCALE, avg_price * quantity)
}

/// How chrono writes the date with day number `days` (`YYYY-MM-DD`), none
/// where the day lies beyond chrono's range.
pub uninterp spec fn iso_date_of(days: i32) -> Option<Seq<char>>;

/// The decimal digit `d`, for `0 <= d < 10`.
pub open spec fn digit_char(d: int) -> char {
    ('0' as u32 + d) as char
}

/// `n` written with two digits, for `0 <= n < 100`.
pub open spec fn two_digits(n: int) -> Seq<char> {
    seq![digit_char(n / 10), digit_char(n % 10)]
}

/// The time of day `secs` seconds after midnight as `HH:MM:SS`.
pub open spec fn clock_time_of(secs: u32) -> Seq<char> {
    let t = secs as int;
    two_digits(t / 3600) + seq![':'] + two_digits((t / 60) % 60) + seq![':'] + two_digits(t % 60)
}

/// Relies on chrono's `NaiveDate::from_num_days_from_ce_opt` and the `Display`
/// of `NaiveDate`: the date of a day number as text, none out of chrono's range.
#[verifier::external_body]
fn iso_date(days: i32) -> (r: Option<String>)
    ensures
        match r {
            Some(s) => iso_date_of(days) == Some(s@),
            None => iso_date_of(days) is None,
        },
{
    match chrono::NaiveDate::from_num_days_from_ce_opt(days) {
        Some(d) => Some(d.to_string()),
        None => None,
    }
}

/// Relies on chrono's `NaiveTime::from_num_seconds_from_midnight_opt` and the
/// `Display` of `NaiveTime`: a time of day as text, none from 86400 seconds on.
/// With no fraction of a second, chrono writes hour, minute and second with
/// two digits each, separated by colons.
#[verifier::external_body]
fn clock_time(secs: u32) -> (r: Option<String>)
    ensures
        r is Some <==> secs < 86400,
        r matches Some(s) ==> s@ == clock_time_of(secs),
{
    match chrono::NaiveTime::from_num_seconds_from_midnight_opt(secs, 0) {
        Some(t) => Some(t.to_string()),
        None => None,
    }
}

/// Side of an order.
#[derive(Clone, Copy, Debug, PartialEq, Eq, Structural)]
pub enum OrderSide {
    Buy,
    Sell,
}

/// An order as its caller builds it. Prices and fees are in thousandths.
pub struct Order {
    pub date: Timestamp,
    pub stockcode: String,
    pub side: OrderSide,
    pub quantity: u32,
    pub price: i64,
    pub fee: i64,
    pub strategy: String,
}

/// A filled order, as the ledger records it. Prices and fees are in thousandths.
pub struct Trading {
    pub date: Timestamp,
    pub stockcode: String,
    pub buy_or_sell: bool,
    pub quantity: u32,
    pub price: i64,
    pub fee: i64,
    pub strategy: String,
}

/// A recorded trade with its realized average price, profit (thousandths)
/// and return on investment (thousandths of a percent).
pub struct TradingResult {
    pub date: Date,
    pub time: u32,
    pub stockcode: String,
    pub buy_or_sell: bool,
    pub quantity: u32,
    pub price: i64,
    pub fee: i64,
    pub strategy: String,
    pub avg_price: i64,
    pub profit: i64,
    pub roi: i64,
}

/// The total asset value at a moment, in thousandths.
#[derive(Clone, Copy, Debug, PartialEq, Eq, Structural)]
pub struct AssetInfo {
    pub date: Timestamp,
    pub asset: i64,
}

impl Order {
    /// The trade that this order becomes once filled; `buy_or_sell` is true
    /// for a purchase.
    pub fn to_trading(&self) -> (r: Trading)
        ensures
            r.date == self.date,
            r.stockcode == self.stockcode,
            r.buy_or_sell == (self.side == OrderSide::Buy),
            r.quantity == self.quantity,
            r.price == self.price,
            r.fee == self.fee,
            r.strategy == self.strategy,
    {
        Trading {
            date: self.date,
            stockcode: self.stockcode.clone(),
            buy_or_sell: match self.side {
                OrderSide::Buy => true,
                OrderSide::Sell => false,
            },
            quantity: self.quantity,
            price: self.price,
            fee: self.fee,
            strategy: self.strategy.clone(),
        }
    }
}

impl Trading {
    /// A trade from its fields.
    pub fn new(
        date: Timestamp,
        stockcode: String,
        buy_or_sell: bool,
        quantity: u32,
        price: i64,
        fee: i64,
        strategy: String,
    ) -> (r: Trading)
        ensures
            r == (Trading { date, stockcode, buy_or_sell, quantity, price, fee, strategy }),
    {
        Trading { date, stockcode, buy_or_sell, quantity, price, fee, strategy }
    }

    pub fn get_date(&self) -> (r: Timestamp)
        ensures
            r == self.date,
    {
        self.date
    }

    pub fn get_stockcode(&self) -> (r: &str)
        ensures
            r@ == self.stockcode@,
    {
        self.stockcode.as_str()
    }

    /// True for a purchase.
    pub fn get_buy_or_sell(&self) -> (r: bool)
        ensures
            r == self.buy_or_sell,
    {
        self.buy_or_sell
    }

    pub fn get_quantity(&self) -> (r: u32)
        ensures
            r == self.quantity,
    {
        self.quantity
    }

    pub fn get_price(&self) -> (r: i64)
        ensures
            r == self.price,
    {
        self.price
    }

    pub fn get_fee(&self) -> (r: i64)
        ensures
            r == self.fee,
    {
        self.fee
    }

    pub fn get_strategy(&self) -> (r: &str)
        ensures
            r@ == self.strategy@,
    {
        self.strategy.as_str()
    }

    /// The profit of this trade against the average purchase price `avg_price`.
    pub open spec fn profit_spec(&self, avg_price: i64) -> int {
        trade_profit(self.buy_or_sell, self.price as int, avg_price as int, self.quantity as int, self.fee as int)
    }

    /// The trade as the ledger records it, with its profit and return on
    /// investment against the average purchase price `avg_price`. A profit
    /// or return that does not fit in 64 bits is an overflow; a capital of
    /// zero (`avg_price * quantity`) leaves the return undefined.
    pub fn to_trading_result(&self, avg_price: i64) -> (r: Result<TradingResult, LedgerError>)
        ensures
            !fits_i64(self.profit_spec(avg_price)) ==> r == Err::<TradingResult, LedgerError>(
                LedgerError::Overflow,
            ),
            fits_i64(self.profit_spec(avg_price)) && avg_price * self.quantity == 0 ==> r == Err::<
                TradingResult,
                LedgerError,
            >(LedgerError::DivisionByZero),
            fits_i64(self.profit_spec(avg_price)) && avg_price * self.quantity != 0 && !fits_i64(
                trade_roi(self.profit_spec(avg_price), avg_price as int, self.quantity as int),
            ) ==> r == Err::<TradingResult, LedgerError>(LedgerError::Overflow),
            fits_i64(self.profit_spec(avg_price)) && avg_price * self.quantity != 0 && fits_i64(
                trade_roi(self.profit_spec(avg_price), avg_price as int, self.quantity as int),
            ) ==> r == Ok::<TradingResult, LedgerError>(
                TradingResult {
                    date: self.date.date,
                    time: self.date.second,
                    stockcode: self.stockcode,
                    buy_or_sell: self.buy_or_sell,
                    quantity: self.quantity,
                    price: self.price,
                    fee: self.fee,
                    strategy: self.strategy,
                    avg_price,
                    profit: self.profit_spec(avg_price) as i64,
                    roi: trade_roi(
                        self.profit_spec(avg_price),
                        avg_price as int,
                        self.quantity as int,
                    ) as i64,
                },
            ),
    {
        let profit: i128 = if self.buy_or_sell {
            -(self.fee as i128)
        } else {
            let gap: i128 = self.price as i128 - avg_price as i128;
            assert(-0x1_0000_0000_0000_0000 * 0x1_0000_0000 <= gap * self.quantity <= 0x1_0000_0000_0000_0000 * 0x1_0000_0000) by (nonlinear_arith)
                requires
                    -0x1_0000_0000_0000_0000 <= gap <= 0x1_0000_0000_0000_0000,
                    0 <= self.quantity <= 0x1_0000_0000,
            ;
            gap * self.quantity as i128 - self.fee as i128
        };
        if profit < i64::MIN as i128 || profit > i64::MAX as i128 {
            return Err(LedgerError::Overflow);
        }
        let avg: i128 = avg_price as i128;
        let qty: i128 = self.quantity as i128;
        assert(-0x1_0000_0000_0000_0000 * 0x1_0000_0000 <= avg * qty <= 0x1_0000_0000_0000_0000 * 0x1_0000_0000) by (nonlinear_arith)
            requires
                -0x1_0000_0000_0000_0000 <= avg <= 0x1_0000_0000_0000_0000,
                0 <= qty <= 0x1_0000_0000,
        ;
        let capital: i128 = avg * qty;
        if capital == 0 {
            return Err(LedgerError::DivisionByZero);
        }
        let roi = div_toward_zero(profit * 100000, capital);
        if roi < i64::MIN as i128 || roi > i64::MAX as i128 {
            return Err(LedgerError::Overflow);
        }
        Ok(
            TradingResult {
                date: self.date.date,
                time: self.date.second,
                stockcode: self.stockcode.clone(),
                buy_or_sell: self.buy_or_sell,
                quantity: self.quantity,
                price: self.price,
                fee: self.fee,
                strategy: self.strategy.clone(),
                avg_price,
                profit: profit as i64,
                roi: roi as i64,
            },
        )
    }
}

impl AssetInfo {
    /// The asset value `asset` (thousandths) at `date`.
    pub fn new(date: Timestamp, asset: i64) -> (r: AssetInfo)
        ensures
            r == (AssetInfo { date, asset }),
    {
        AssetInfo { date, asset }
    }

    pub fn get_date(&self) -> (r: Timestamp)
        ensures
            r == self.date,
    {
        self.date
    }

    pub fn get_asset(&self) -> (r: i64)
        ensures
            r == self.asset,
    {
        self.asset
    }
}

/// The text that the ledger store keeps for a trade's side.
pub open spec fn side_text(buy: bool) -> Seq<char> {
    if buy {
        "buy"@
    } else {
        "sell"@
    }
}

impl TradingResult {
    /// A recorded trade from its fields.
    pub fn new(
        date: Date,
        time: u32,
        stockcode: String,
        buy_or_sell: bool,
        quantity: u32,
        price: i64,
        fee: i64,
        strategy: String,
        avg_price: i64,
        profit: i64,
        roi: i64,
    ) -> (r: TradingResult)
        ensures
            r == (TradingResult {
                date,
                time,
                stockcode,
                buy_or_sell,
                quantity,
                price,
                fee,
                strategy,
                avg_price,
                profit,
                roi,
            }),
    {
        TradingResult {
            date,
            time,
            stockcode,
            buy_or_sell,
            quantity,
            price,
            fee,
            strategy,
            avg_price,
            profit,
            roi,
        }
    }

    pub fn get_date(&self) -> (r: Date)
        ensures
            r == self.date,
    {
        self.date
    }

    /// Seconds after midnight.
    pub fn get_time(&self) -> (r: u32)
        ensures
            r == self.time,
    {
        self.time
    }

    pub fn get_stockcode(&self) -> (r: &str)
        ensures
            r@ == self.stockcode@,
    {
        self.stockcode.as_str()
    }

    pub fn get_buy_or_sell(&self) -> (r: bool)
        ensures
            r == self.buy_or_sell,
    {
        self.buy_or_sell
    }

    pub fn get_quantity(&self) -> (r: u32)
        ensures
            r == self.quantity,
    {
        self.quantity
    }

    pub fn get_price(&self) -> (r: i64)
        ensures
            r == self.price,
    {
        self.price
    }

    pub fn get_fee(&self) -> (r: i64)
        ensures
            r == self.fee,
    {
        self.fee
    }

    pub fn get_strategy(&self) -> (r: &str)
        ensures
            r@ == self.strategy@,
    {
        self.strategy.as_str()
    }

    pub fn get_avg_price(&self) -> (r: i64)
        ensures
            r == self.avg_price,
    {
        self.avg_price
    }

    pub fn get_profit(&self) -> (r: i64)
        ensures
            r == self.profit,
    {
        self.profit
    }

    pub fn get_roi(&self) -> (r: i64)
        ensures
            r == self.roi,
    {
        self.roi
    }

    /// The instrument code as an owned string.
    pub fn get_stockcode_string(&self) -> (r: String)
        ensures
            r@ == self.stockcode@,
    {
        self.stockcode.clone()
    }

    /// `buy` for a purchase, `sell` for a sale.
    pub fn get_buy_or_sell_string(&self) -> (r: String)
        ensures
            r@ == side_text(self.buy_or_sell),
    {
        if self.buy_or_sell {
            "buy".to_owned()
        } else {
            "sell".to_owned()
        }
    }

    /// The trade as a row of the ledger store's trade table: date, time,
    /// instrument, side, quantity, price, fee, strategy, average price,
    /// profit and return. None where the date or time cannot be written.
    pub fn to_db_tuple(&self) -> (r: Option<
        (String, String, String, String, u32, i64, i64, String, i64, i64, i64),
    >)
        ensures
            (iso_date_of(self.date.days) is Some && self.time < 86400) <==> r is Some,
            r matches Some(t) ==> {
                &&& iso_date_of(self.date.days) == Some(t.0@)
                &&& t.1@ == clock_time_of(self.time)
                &&& t.2@ == self.stockcode@
                &&& t.3@ == side_text(self.buy_or_sell)
                &&& t.4 == self.quantity
                &&& t.5 == self.price
                &&& t.6 == self.fee
                &&& t.7@ == self.strategy@
                &&& t.8 == self.avg_price
                &&& t.9 == self.profit
                &&& t.10 == self.roi
            },
    {
        let date = match iso_date(self.date.days) {
            Some(d) => d,
            None => {
                return None;
            },
        };
        let time = match clock_time(self.time) {
            Some(t) => t,
            None => {
                return None;
            },
        };
        Some(
            (
                date,
                time,
                self.get_stockcode_string(),
                self.get_buy_or_sell_string(),
                self.quantity,
                self.price,
                self.fee,
                self.strategy.clone(),
                self.avg_price,
                self.profit,
                self.roi,
            ),
        )
    }
}

} // verus!
