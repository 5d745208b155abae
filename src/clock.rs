use vstd::prelude::*;

use crate::calendar::{Calendar, Date, LAST_DAY};

verus! {

/// Seconds in a day.
pub const SECONDS_PER_DAY: u32 = 86400;

/// 08:30, when data for the session is prepared.
pub const PREP_SECOND: u32 = 30600;

/// 09:00, when the market opens.
pub const OPEN_SECOND: u32 = 32400;

/// 15:29, the last minute that starts an intraday update.
pub const LAST_UPDATE_SECOND: u32 = 55740;

/// 15:30, when the market closes.
pub const CLOSE_SECOND: u32 = 55800;

/// Seconds between two intraday updates.
pub const UPDATE_STEP: u32 = 60;

/// A moment in the local time zone: a date and the second of that day.
#[derive(Clone, Copy, Debug, PartialEq, Eq, Structural)]
pub struct Timestamp {
    pub date: Date,
    pub second: u32,
}

impl Timestamp {
    /// The second lies within the day.
    pub open spec fn wf(&self) -> bool {
        self.second < SECONDS_PER_DAY
    }

    /// Seconds since the start of day zero.
    pub open spec fn instant(&self) -> int {
        self.date.days * SECONDS_PER_DAY + self.second
    }

    /// The moment `hour:minute:second` on `date`, or none when the time of
    /// day is out of range.
    pub fn at(date: Date, hour: u32, minute: u32, second: u32) -> (r: Option<Timestamp>)
        ensures
            (hour < 24 && minute < 60 && second < 60) ==> r == Some(
                Timestamp { date, second: (hour * 3600 + minute * 60 + second) as u32 },
            ),
            !(hour < 24 && minute < 60 && second < 60) ==> r is None,
            r matches Some(t) ==> t.wf(),
    {
        if hour < 24 && minute < 60 && second < 60 {
            Some(Timestamp { date, second: hour * 3600 + minute * 60 + second })
        } else {
            None
        }
    }

    /// The hour of the day, 0 to 23.
    pub fn hour(&self) -> (r: u32)
        requires
            self.wf(),
        ensures
            r == self.second / 3600,
            r < 24,
    {
        self.second / 3600
    }

    /// The minute of the hour, 0 to 59.
    pub fn minute(&self) -> (r: u32)
        ensures
            r == (self.second % 3600) / 60,
            r < 60,
    {
        (self.second % 3600) / 60
    }
}

/// The signal that marks a moment of the trading day.
#[derive(Clone, Copy, Debug, PartialEq, Eq, Structural)]
pub enum TimeSignal {
    /// 08:30: prepare the session's data.
    DataPrep,
    /// 09:00: the market opens.
    MarketOpen,
    /// Every minute from 09:01 to 15:29.
    Update,
    /// 15:30: the market closes.
    MarketClose,
    /// 08:30 of the next trading day, after the close.
    Overnight,
}

/// `next` is the event that follows `cur`: the session's transition table,
/// with half-open boundaries.
pub open spec fn is_next_event(cal: &Calendar, cur: Timestamp, next: (Timestamp, TimeSignal)) -> bool {
    let s = cur.second;
    if s < PREP_SECOND {
        next == (Timestamp { date: cur.date, second: PREP_SECOND }, TimeSignal::DataPrep)
    } else if s < OPEN_SECOND {
        next == (Timestamp { date: cur.date, second: OPEN_SECOND }, TimeSignal::MarketOpen)
    } else if s < LAST_UPDATE_SECOND {
        next == (Timestamp { date: cur.date, second: (s + UPDATE_STEP) as u32 }, TimeSignal::Update)
    } else if s < CLOSE_SECOND {
        next == (Timestamp { date: cur.date, second: CLOSE_SECOND }, TimeSignal::MarketClose)
    } else {
        &&& next.1 == TimeSignal::Overnight
        &&& next.0.second == PREP_SECOND
        &&& cal.is_next_trading_spec(cur.date, next.0.date)
    }
}

/// The seconds to wait at `now` until `target`: zero once `target` has passed.
pub open spec fn wait_spec(now: Timestamp, target: Timestamp) -> int {
    if target.instant() > now.instant() {
        target.instant() - now.instant()
    } else {
        0
    }
}

/// Relies on chrono's `Local::now`, `DateTime::naive_local`,
/// `Datelike::num_days_from_ce` and `Timelike::num_seconds_from_midnight`: the
/// wall-clock time in the local zone. The second of the day counts non-leap
/// seconds, so it stays below a day; chrono's years stay within 262143 of year
/// zero, so the day number is well within a hundred million.
#[verifier::external_body]
fn local_now() -> (r: Timestamp)
    ensures
        r.wf(),
        -100_000_000 < r.date.days < 100_000_000,
{
    let now = chrono::Local::now().naive_local();
    Timestamp {
        date: Date { days: chrono::Datelike::num_days_from_ce(&now) },
        second: chrono::Timelike::num_seconds_from_midnight(&now),
    }
}

/// The clock of the trading session: the moment of the current event and its signal.
pub struct TimeService {
    pub current: Timestamp,
    pub current_signal: TimeSignal,
}

impl TimeService {
    /// A clock set to the first event after the wall-clock time now.
    pub fn new(cal: &Calendar) -> (r: TimeService)
        requires
            cal.wf(),
        ensures
            exists|now: Timestamp|
                now.wf() && now.date.days <= LAST_DAY && #[trigger] is_next_event(
                    cal,
                    now,
                    (r.current, r.current_signal),
                ),
            r.current.wf(),
    {
        let now = local_now();
        let r = TimeService::start_from(now, cal);
        assert(is_next_event(cal, now, (r.current, r.current_signal)));
        r
    }

    /// A clock set to the first event after `now`.
    pub fn start_from(now: Timestamp, cal: &Calendar) -> (r: TimeService)
        requires
            now.wf(),
            now.date.days <= LAST_DAY,
            cal.wf(),
        ensures
            is_next_event(cal, now, (r.current, r.current_signal)),
            r.current.wf(),
            r.current.instant() > now.instant(),
    {
        let probe = TimeService { current: now, current_signal: TimeSignal::DataPrep };
        let (t, s) = probe.compute_next_time(cal);
        TimeService { current: t, current_signal: s }
    }

    /// The moment of the current event.
    pub fn now(&self) -> (r: Timestamp)
        ensures
            r == self.current,
    {
        self.current
    }

    /// The signal of the current event.
    pub fn now_signal(&self) -> (r: TimeSignal)
        ensures
            r == self.current_signal,
    {
        self.current_signal
    }

    /// Moves the clock to the next event and returns it. The next event
    /// always lies strictly later than the current one.
    pub fn advance(&mut self, cal: &Calendar) -> (r: (Timestamp, TimeSignal))
        requires
            old(self).current.wf(),
            old(self).current.date.days <= LAST_DAY,
            cal.wf(),
        ensures
            is_next_event(cal, old(self).current, r),
            final(self).current == r.0,
            final(self).current_signal == r.1,
            r.0.wf(),
            r.0.instant() > old(self).current.instant(),
    {
        let (t, s) = self.compute_next_time(cal);
        self.current = t;
        self.current_signal = s;
        (t, s)
    }

    /// The event that follows the current moment, by the session's
    /// transition table.
    pub fn compute_next_time(&self, cal: &Calendar) -> (r: (Timestamp, TimeSignal))
        requires
            self.current.wf(),
            self.current.date.days <= LAST_DAY,
            cal.wf(),
        ensures
            is_next_event(cal, self.current, r),
            r.0.wf(),
            r.0.instant() > self.current.instant(),
    {
        let today = self.current.date;
        let s = self.current.second;
        if s < PREP_SECOND {
            (Timestamp { date: today, second: PREP_SECOND }, TimeSignal::DataPrep)
        } else if s < OPEN_SECOND {
            (Timestamp { date: today, second: OPEN_SECOND }, TimeSignal::MarketOpen)
        } else if s < LAST_UPDATE_SECOND {
            (Timestamp { date: today, second: s + UPDATE_STEP }, TimeSignal::Update)
        } else if s < CLOSE_SECOND {
            (Timestamp { date: today, second: CLOSE_SECOND }, TimeSignal::MarketClose)
        } else {
            let next_date = cal.next_trading_day(today);
            let r = (Timestamp { date: next_date, second: PREP_SECOND }, TimeSignal::Overnight);
            assert(r.0.instant() > self.current.instant()) by (nonlinear_arith)
                requires
                    next_date.days >= today.days + 1,
                    s < SECONDS_PER_DAY,
                    r.0.instant() == next_date.days * SECONDS_PER_DAY + PREP_SECOND,
                    self.current.instant() == today.days * SECONDS_PER_DAY + s,
            ;
            r
        }
    }
}

/// The seconds to wait at `now` until `target`; zero when `target` is not
/// later than `now`.
pub fn seconds_until(now: Timestamp, target: Timestamp) -> (r: u64)
    requires
        now.wf(),
        target.wf(),
    ensures
        r == wait_spec(now, target),
{
    let a: i64 = now.date.days as i64 * 86400 + now.second as i64;
    let b: i64 = target.date.days as i64 * 86400 + target.second as i64;
    if b > a {
        (b - a) as u64
    } else {
        0
    }
}

} // verus!
