use vstd::prelude::*;

use crate::calendar::Date;
use crate::trading::{div_toward_zero, div_trunc, fits_i64, LedgerError, TradingResult, SCALE};

verus! {

/// One day's portfolio summary. Amounts are in thousandths and the return in
/// thousandths of a percent; `close`, `volume`, `turnover`, `profit`, `roi`
/// and `fee` stay zero until the day is finished.
#[derive(Clone, Copy, Debug, PartialEq, Eq, Structural)]
pub struct OverviewRow {
    pub date: Date,
    pub open: i64,
    pub high: i64,
    pub low: i64,
    pub close: i64,
    pub volume: i64,
    pub turnover: i64,
    pub profit: i64,
    pub roi: i64,
    pub fee: i64,
}

pub open spec fn max_int(a: int, b: int) -> int {
    if a >= b {
        a
    } else {
        b
    }
}

pub open spec fn min_int(a: int, b: int) -> int {
    if a <= b {
        a
    } else {
        b
    }
}

/// The row of `date` as the session opens with asset value `asset`.
pub open spec fn opening_row(date: Date, asset: i64) -> OverviewRow {
    OverviewRow {
        date,
        open: asset,
        high: asset,
        low: asset,
        close: 0,
        volume: 0,
        turnover: 0,
        profit: 0,
        roi: 0,
        fee: 0,
    }
}

/// `row` after an intraday asset value `asset`: the high and low ratchet.
pub open spec fn updated_row(row: OverviewRow, asset: i64) -> OverviewRow {
    OverviewRow {
        high: max_int(row.high as int, asset as int) as i64,
        low: min_int(row.low as int, asset as int) as i64,
        ..row
    }
}

/// `row` after the intraday asset values `values`, in order.
pub open spec fn updated_row_all(row: OverviewRow, values: Seq<i64>) -> OverviewRow
    decreases values.len(),
{
    if values.len() == 0 {
        row
    } else {
        updated_row(updated_row_all(row, values.drop_last()), values.last())
    }
}

/// The largest of `start` and `values`.
pub open spec fn max_of(start: int, values: Seq<i64>) -> int
    decreases values.len(),
{
    if values.len() == 0 {
        start
    } else {
        max_int(max_of(start, values.drop_last()), values.last() as int)
    }
}

/// The smallest of `start` and `values`.
pub open spec fn min_of(start: int, values: Seq<i64>) -> int
    decreases values.len(),
{
    if values.len() == 0 {
        start
    } else {
        min_int(min_of(start, values.drop_last()), values.last() as int)
    }
}

/// Sum of the fees of the trades made on `date`.
pub open spec fn day_fee(trades: Seq<TradingResult>, date: Date) -> int
    decreases trades.len(),
{
    if trades.len() == 0 {
        0
    } else {
        day_fee(trades.drop_last(), date) + if trades.last().date == date {
            trades.last().fee as int
        } else {
            0
        }
    }
}

/// Sum of `price * quantity` over the trades made on `date`.
pub open spec fn day_turnover(trades: Seq<TradingResult>, date: Date) -> int
    decreases trades.len(),
{
    if trades.len() == 0 {
        0
    } else {
        day_turnover(trades.drop_last(), date) + if trades.last().date == date {
            trades.last().price as int * trades.last().quantity as int
        } else {
            0
        }
    }
}

/// Both running sums over `trades` fit in an `i64` at every step.
pub open spec fn day_sums_fit(trades: Seq<TradingResult>, date: Date) -> bool {
    forall|k: int|
        0 <= k <= trades.len() ==> fits_i64(day_fee(#[trigger] trades.subrange(0, k), date))
            && fits_i64(day_turnover(trades.subrange(0, k), date))
}

/// The daily profit and return of a day that opened at `open` and closed at `close`.
pub open spec fn day_roi(open: i64, close: i64) -> int {
    div_trunc((close - open) * 100 * SCALE, open as int)
}

/// `row` finished with closing asset value `close` and the trades `trades`,
/// of which those made on the row's date count.
pub open spec fn finished_row(row: OverviewRow, close: i64, trades: Seq<TradingResult>) -> Result<
    OverviewRow,
    LedgerError,
> {
    if row.open == 0 {
        Err(LedgerError::DivisionByZero)
    } else if !fits_i64(close - row.open) || !fits_i64(day_roi(row.open, close)) {
        Err(LedgerError::Overflow)
    } else if !day_sums_fit(trades, row.date) {
        Err(LedgerError::Overflow)
    } else {
        Ok(
            OverviewRow {
                high: max_int(row.high as int, close as int) as i64,
                low: min_int(row.low as int, close as int) as i64,
                close,
                profit: (close - row.open) as i64,
                roi: day_roi(row.open, close) as i64,
                fee: day_fee(trades, row.date) as i64,
                turnover: day_turnover(trades, row.date) as i64,
                ..row
            },
        )
    }
}

impl OverviewRow {
    /// The high and low bracket the opening value.
    pub open spec fn wf(&self) -> bool {
        self.low <= self.open <= self.high
    }

    /// The row of `date` as the session opens with asset value `asset`:
    /// open, high and low all start there.
    pub fn open_day(date: Date, asset: i64) -> (r: OverviewRow)
        ensures
            r == opening_row(date, asset),
            r.wf(),
    {
        OverviewRow {
            date,
            open: asset,
            high: asset,
            low: asset,
            close: 0,
            volume: 0,
            turnover: 0,
            profit: 0,
            roi: 0,
            fee: 0,
        }
    }

    /// Takes in an intraday asset value: the high rises to it, the low falls to it.
    pub fn update(&mut self, asset: i64)
        ensures
            *final(self) == updated_row(*old(self), asset),
            old(self).wf() ==> final(self).wf(),
    {
        if asset > self.high {
            self.high = asset;
        }
        if asset < self.low {
            self.low = asset;
        }
    }

    /// The row finished with closing asset value `close`: the daily profit
    /// and return against the open, the high and low widened to the close,
    /// and the fee and turnover summed over the trades of the row's date. An
    /// open of zero leaves the return undefined; a result or running sum
    /// beyond 64 bits is an overflow.
    pub fn finish(&self, close: i64, trades: &Vec<TradingResult>) -> (r: Result<OverviewRow, LedgerError>)
        ensures
            r == finished_row(*self, close, trades@),
            r matches Ok(n) ==> (self.wf() ==> n.low <= n.open <= n.high && n.low <= n.close
                <= n.high),
    {
        if self.open == 0 {
            return Err(LedgerError::DivisionByZero);
        }
        let profit: i128 = close as i128 - self.open as i128;
        if profit < i64::MIN as i128 || profit > i64::MAX as i128 {
            return Err(LedgerError::Overflow);
        }
        let roi = div_toward_zero(profit * 100000, self.open as i128);
        if roi < i64::MIN as i128 || roi > i64::MAX as i128 {
            return Err(LedgerError::Overflow);
        }
        let mut fee: i64 = 0;
        let mut turnover: i64 = 0;
        let mut i: usize = 0;
        proof {
            assert(trades@.subrange(0, 0) =~= Seq::<TradingResult>::empty());
        }
        while i < trades.len()
            invariant
                0 <= i <= trades@.len(),
                self.open != 0,
                fits_i64(close - self.open),
                fits_i64(day_roi(self.open, close)),
                fee == day_fee(trades@.subrange(0, i as int), self.date),
                turnover == day_turnover(trades@.subrange(0, i as int), self.date),
                forall|k: int|
                    0 <= k <= i ==> fits_i64(day_fee(#[trigger] trades@.subrange(0, k), self.date))
                        && fits_i64(day_turnover(trades@.subrange(0, k), self.date)),
            decreases trades@.len() - i,
        {
            let t = &trades[i];
            let ghost next = trades@.subrange(0, i + 1);
            proof {
                assert(next.drop_last() =~= trades@.subrange(0, i as int));
                assert(next.last() == trades@[i as int]);
                assert(day_fee(next, self.date) == day_fee(trades@.subrange(0, i as int), self.date)
                    + if trades@[i as int].date == self.date {
                    trades@[i as int].fee as int
                } else {
                    0
                });
                assert(day_turnover(next, self.date) == day_turnover(
                    trades@.subrange(0, i as int),
                    self.date,
                ) + if trades@[i as int].date == self.date {
                    trades@[i as int].price as int * trades@[i as int].quantity as int
                } else {
                    0
                });
            }
            if t.date == self.date {
                let f: i128 = fee as i128 + t.fee as i128;
                let p: i128 = t.price as i128;
                let q: i128 = t.quantity as i128;
                assert(-0x1_0000_0000_0000_0000 * 0x1_0000_0000 <= p * q <= 0x1_0000_0000_0000_0000
                    * 0x1_0000_0000) by (nonlinear_arith)
                    requires
                        -0x1_0000_0000_0000_0000 <= p <= 0x1_0000_0000_0000_0000,
                        0 <= q <= 0x1_0000_0000,
                ;
                let v: i128 = turnover as i128 + p * q;
                if f < i64::MIN as i128 || f > i64::MAX as i128 || v < i64::MIN as i128 || v
                    > i64::MAX as i128 {
                    proof {
                        assert(!(fits_i64(day_fee(trades@.subrange(0, i + 1), self.date))
                            && fits_i64(day_turnover(trades@.subrange(0, i + 1), self.date))));
                        assert(!day_sums_fit(trades@, self.date));
                    }
                    return Err(LedgerError::Overflow);
                }
                fee = f as i64;
                turnover = v as i64;
            }
            assert(fits_i64(day_fee(trades@.subrange(0, i + 1), self.date)) && fits_i64(
                day_turnover(trades@.subrange(0, i + 1), self.date),
            ));
            i = i + 1;
        }
        proof {
            assert(trades@.subrange(0, trades@.len() as int) =~= trades@);
        }
        let high = if close > self.high {
            close
        } else {
            self.high
        };
        let low = if close < self.low {
            close
        } else {
            self.low
        };
        Ok(
            OverviewRow {
                date: self.date,
                open: self.open,
                high,
                low,
                close,
                volume: self.volume,
                turnover,
                profit: profit as i64,
                roi: roi as i64,
                fee,
            },
        )
    }
}

/// Ratchet: after a run of intraday asset values, the high is the largest
/// and the low the smallest of the row's previous high or low and those values.
pub proof fn lemma_ratchet(row: OverviewRow, values: Seq<i64>)
    ensures
        updated_row_all(row, values).high == max_of(row.high as int, values),
        updated_row_all(row, values).low == min_of(row.low as int, values),
        updated_row_all(row, values).open == row.open,
        updated_row_all(row, values).date == row.date,
    decreases values.len(),
{
    if values.len() > 0 {
        lemma_ratchet(row, values.drop_last());
    }
}

/// Ratchet from the open: a day that opened at `open` and then saw the
/// intraday values `values` has as high the largest and as low the smallest
/// of `open` and `values`.
pub proof fn lemma_ratchet_from_open(date: Date, open: i64, values: Seq<i64>)
    ensures
        updated_row_all(opening_row(date, open), values).high == max_of(open as int, values),
        updated_row_all(opening_row(date, open), values).low == min_of(open as int, values),
{
    lemma_ratchet(opening_row(date, open), values);
}

/// Finishing a day again with the same closing value and the same trades
/// changes nothing: the result is recomputed from its sources.
pub proof fn lemma_finish_idempotent(row: OverviewRow, close: i64, trades: Seq<TradingResult>)
    requires
        finished_row(row, close, trades) is Ok,
    ensures
        finished_row(finished_row(row, close, trades)->Ok_0, close, trades) == finished_row(
            row,
            close,
            trades,
        ),
{
}

/// Finishing ignores what an earlier, interrupted finish left in the row:
/// two rows that agree on date, open, high, low and volume finish alike,
/// whatever their close, profit, return, fee and turnover.
pub proof fn lemma_finish_ignores_leftovers(
    a: OverviewRow,
    b: OverviewRow,
    close: i64,
    trades: Seq<TradingResult>,
)
    requires
        a.date == b.date,
        a.open == b.open,
        a.high == b.high,
        a.low == b.low,
        a.volume == b.volume,
    ensures
        finished_row(a, close, trades) == finished_row(b, close, trades),
{
}

} // verus!
