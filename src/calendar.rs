use vstd::prelude::*;

verus! {

/// The latest day number from which the next trading day can still be
/// represented: three days of slack below `i32::MAX`.
pub const LAST_DAY: i32 = 2147483644;

/// The day number that chrono gives the calendar date `year-month-day`
/// (0001-01-01 being day 1), or none when the date does not exist.
pub uninterp spec fn day_number_of(year: i32, month: u32, day: u32) -> Option<i32>;

/// Relies on chrono's `NaiveDate::from_ymd_opt` and `Datelike::num_days_from_ce`:
/// the day number of a valid date, none for an invalid one. chrono's years stay
/// within 262143 of year zero, so every day number is well within a hundred million.
#[verifier::external_body]
fn ce_day_number(year: i32, month: u32, day: u32) -> (r: Option<i32>)
    ensures
        r == day_number_of(year, month, day),
        r matches Some(n) ==> -100_000_000 < n < 100_000_000,
{
    match chrono::NaiveDate::from_ymd_opt(year, month, day) {
        Some(d) => Some(chrono::Datelike::num_days_from_ce(&d)),
        None => None,
    }
}

/// A calendar day in the local time zone, as a day number: 0001-01-01 of the
/// proleptic Gregorian calendar is day 1, a Monday.
#[derive(Clone, Copy, Debug, PartialEq, Eq, Structural)]
pub struct Date {
    pub days: i32,
}

/// Day of the week of `d`: 0 for Monday up to 6 for Sunday.
pub open spec fn weekday(d: Date) -> int {
    (d.days - 1) % 7
}

/// Saturday or Sunday.
pub open spec fn is_weekend_day(d: Date) -> bool {
    weekday(d) >= 5
}

/// Of three consecutive days, at least one is a weekday.
proof fn lemma_no_three_weekend_days(n: int)
    ensures
        !(is_weekend_day(Date { days: n as i32 }) && is_weekend_day(Date { days: (n + 1) as i32 })
            && is_weekend_day(Date { days: (n + 2) as i32 })) || n + 2 > i32::MAX || n
            < i32::MIN,
{
    if i32::MIN <= n && n + 2 <= i32::MAX {
        let r = (n - 1) % 7;
        assert((n - 1) == 7 * ((n - 1) / 7) + r);
        if r == 5 {
            assert((n + 1 - 1) % 7 == 6) by {
                assert(n + 1 - 1 == 7 * ((n - 1) / 7) + 6);
            }
            assert((n + 2 - 1) % 7 == 0) by {
                assert(n + 2 - 1 == 7 * ((n - 1) / 7 + 1) + 0);
            }
        } else if r == 6 {
            assert((n + 1 - 1) % 7 == 0) by {
                assert(n + 1 - 1 == 7 * ((n - 1) / 7 + 1) + 0);
            }
        }
    }
}

impl Date {
    /// The date `year-month-day`, or none when no such date exists.
    pub fn from_ymd(year: i32, month: u32, day: u32) -> (r: Option<Date>)
        ensures
            r == (match day_number_of(year, month, day) {
                Some(n) => Some(Date { days: n }),
                None => None,
            }),
            r matches Some(d) ==> d.days <= LAST_DAY,
    {
        match ce_day_number(year, month, day) {
            Some(n) => Some(Date { days: n }),
            None => None,
        }
    }

    /// The date with day number `days`.
    pub fn from_day_number(days: i32) -> (r: Date)
        ensures
            r.days == days,
    {
        Date { days }
    }

    /// The day number of this date.
    pub fn day_number(&self) -> (r: i32)
        ensures
            r == self.days,
    {
        self.days
    }

    /// Day of the week: 0 for Monday up to 6 for Sunday.
    pub fn weekday(&self) -> (r: u32)
        ensures
            r == weekday(*self),
    {
        // 2147483653 is a multiple of seven that lifts every day number above zero.
        let shifted: u64 = (self.days as i64 - 1 + 2147483653i64) as u64;
        let r = (shifted % 7) as u32;
        assert(shifted as int == (self.days - 1) + 7 * 306783379);
        assert(r == (self.days - 1) % 7) by {
            let k = (self.days - 1) / 7;
            let m = (self.days - 1) % 7;
            assert(shifted as int == 7 * (k + 306783379) + m);
        }
        r
    }

    /// Whether this date falls on a Saturday or a Sunday.
    pub fn is_weekend(&self) -> (r: bool)
        ensures
            r == is_weekend_day(*self),
    {
        self.weekday() >= 5
    }
}

/// The market's calendar: weekends and a list of holidays on which it is closed.
pub struct Calendar {
    pub holidays: Vec<Date>,
}

impl Calendar {
    /// Every holiday lies at or before `LAST_DAY`.
    pub open spec fn wf(&self) -> bool {
        forall|i: int| 0 <= i < self.holidays@.len() ==> self.holidays@[i].days <= LAST_DAY
    }

    pub open spec fn is_holiday_spec(&self, d: Date) -> bool {
        self.holidays@.contains(d)
    }

    /// A trading day is neither a weekend day nor a listed holiday.
    pub open spec fn is_trading_spec(&self, d: Date) -> bool {
        !is_weekend_day(d) && !self.is_holiday_spec(d)
    }

    /// `r` is the first trading day after `d`.
    pub open spec fn is_next_trading_spec(&self, d: Date, r: Date) -> bool {
        &&& r.days > d.days
        &&& self.is_trading_spec(r)
        &&& forall|x: Date| d.days < x.days < r.days ==> !self.is_trading_spec(x)
    }

    /// A calendar with no holidays.
    pub fn new() -> (r: Calendar)
        ensures
            r.holidays@ == Seq::<Date>::empty(),
            r.wf(),
    {
        Calendar { holidays: Vec::new() }
    }

    /// Lists `d` as a holiday.
    pub fn add_holiday(&mut self, d: Date)
        requires
            old(self).wf(),
            d.days <= LAST_DAY,
        ensures
            final(self).holidays@ == old(self).holidays@.push(d),
            final(self).wf(),
    {
        self.holidays.push(d);
    }

    /// Lists as holidays the dates that the holiday list `content` names.
    /// A list with a line that is neither blank nor a date is refused whole,
    /// and the calendar stays as it was.
    pub fn load_holiday_text(&mut self, content: &str) -> (r: Result<(), HolidayError>)
        requires
            old(self).wf(),
        ensures
            r is Err <==> has_bad_holiday_line(lines_of(content@)),
            r matches Err(e) ==> {
                &&& e.line < lines_of(content@).len()
                &&& is_bad_holiday_line(lines_of(content@)[e.line as int])
                &&& forall|j: int|
                    0 <= j < e.line ==> !is_bad_holiday_line(lines_of(content@)[j])
            },
            r is Ok ==> final(self).holidays@ == old(self).holidays@ + holidays_of_lines(
                lines_of(content@),
            ),
            r is Err ==> final(self).holidays@ == old(self).holidays@,
            final(self).wf(),
    {
        let dates = match parse_holidays(content) {
            Ok(v) => v,
            Err(e) => {
                return Err(e);
            },
        };
        let mut i: usize = 0;
        while i < dates.len()
            invariant
                0 <= i <= dates@.len(),
                self.wf(),
                self.holidays@ == old(self).holidays@ + dates@.subrange(0, i as int),
                forall|k: int| 0 <= k < dates@.len() ==> dates@[k].days <= LAST_DAY,
            decreases dates@.len() - i,
        {
            self.holidays.push(dates[i]);
            proof {
                assert(dates@.subrange(0, i + 1) =~= dates@.subrange(0, i as int).push(dates@[i as int]));
            }
            i = i + 1;
        }
        proof {
            assert(dates@.subrange(0, dates@.len() as int) =~= dates@);
        }
        Ok(())
    }

    /// Whether `d` is a listed holiday.
    pub fn is_holiday(&self, d: Date) -> (r: bool)
        ensures
            r == self.is_holiday_spec(d),
    {
        let mut i: usize = 0;
        while i < self.holidays.len()
            invariant
                0 <= i <= self.holidays@.len(),
                forall|j: int| 0 <= j < i ==> self.holidays@[j] != d,
            decreases self.holidays@.len() - i,
        {
            if self.holidays[i] == d {
                return true;
            }
            i = i + 1;
        }
        false
    }

    /// Whether the market trades on `d`: false on weekends and on holidays.
    pub fn is_trading_day(&self, d: Date) -> (r: bool)
        ensures
            r == self.is_trading_spec(d),
    {
        !d.is_weekend() && !self.is_holiday(d)
    }

    /// The first trading day strictly after `d`.
    pub fn next_trading_day(&self, d: Date) -> (r: Date)
        requires
            self.wf(),
            d.days <= LAST_DAY,
        ensures
            self.is_next_trading_spec(d, r),
    {
        let mut next = Date { days: d.days + 1 };
        while !self.is_trading_day(next)
            invariant
                self.wf(),
                d.days <= LAST_DAY,
                d.days < next.days,
                forall|x: Date| d.days < x.days < next.days ==> !self.is_trading_spec(x),
            decreases i32::MAX - next.days,
        {
            if next.days == i32::MAX {
                // Past the last holiday only weekends close the market, and no
                // three days in a row are all weekend days.
                let ghost n = next.days - 2;
                proof {
                    lemma_no_three_weekend_days(n);
                    let a = Date { days: n as i32 };
                    let b = Date { days: (n + 1) as i32 };
                    assert(!self.is_trading_spec(a));
                    assert(!self.is_trading_spec(b));
                    assert(!self.is_holiday_spec(a));
                    assert(!self.is_holiday_spec(b));
                    assert(!self.is_holiday_spec(next));
                    assert(false);
                }
            }
            next = Date { days: next.days + 1 };
        }
        next
    }
}

/// The lines of a text, without their line terminators.
pub uninterp spec fn lines_of(s: Seq<char>) -> Seq<Seq<char>>;

/// A text with its leading and trailing whitespace removed.
pub uninterp spec fn trimmed(s: Seq<char>) -> Seq<char>;

/// The day number of the date that chrono reads from `s` in the format `fmt`.
pub uninterp spec fn parsed_day_number(s: Seq<char>, fmt: Seq<char>) -> Option<i32>;

/// Relies on `str::lines`: the lines of `s`, split at each line feed, with a
/// trailing carriage return dropped.
#[verifier::external_body]
fn split_lines(s: &str) -> (r: Vec<String>)
    ensures
        r@.map_values(|l: String| l@) == lines_of(s@),
{
    s.lines().map(String::from).collect()
}

/// Relies on `str::trim`: `s` without leading and trailing whitespace.
#[verifier::external_body]
fn trim_text(s: &str) -> (r: String)
    ensures
        r@ == trimmed(s@),
{
    String::from(s.trim())
}

/// Relies on chrono's `NaiveDate::parse_from_str` and `Datelike::num_days_from_ce`:
/// the day number of the date written in `s` in the format `fmt`, none where
/// `s` holds no valid date in that format. chrono's years stay within 262143
/// of year zero, so every day number is well within a hundred million.
#[verifier::external_body]
fn parse_day_number(s: &str, fmt: &str) -> (r: Option<i32>)
    ensures
        r == parsed_day_number(s@, fmt@),
        r matches Some(n) ==> -100_000_000 < n < 100_000_000,
{
    match chrono::NaiveDate::parse_from_str(s, fmt) {
        Ok(d) => Some(chrono::Datelike::num_days_from_ce(&d)),
        Err(_) => None,
    }
}

/// A holiday list whose line `line` (counting from zero) is neither blank
/// nor a `YYYY-MM-DD` date.
#[derive(Clone, Copy, Debug, PartialEq, Eq, Structural)]
pub struct HolidayError {
    pub line: usize,
}

/// A line of a holiday list that is not blank and holds no `YYYY-MM-DD` date.
pub open spec fn is_bad_holiday_line(line: Seq<char>) -> bool {
    let t = trimmed(line);
    t.len() != 0 && parsed_day_number(t, "%Y-%m-%d"@) is None
}

/// The date that one line of a holiday list names: a blank line names none.
pub open spec fn holiday_of_line(line: Seq<char>) -> Option<Date> {
    let t = trimmed(line);
    if t.len() == 0 {
        None
    } else {
        match parsed_day_number(t, "%Y-%m-%d"@) {
            Some(n) => Some(Date { days: n }),
            None => None,
        }
    }
}

/// The dates that a holiday list names, in the order of its lines.
pub open spec fn holidays_of_lines(lines: Seq<Seq<char>>) -> Seq<Date>
    decreases lines.len(),
{
    if lines.len() == 0 {
        Seq::empty()
    } else {
        let rest = holidays_of_lines(lines.drop_last());
        match holiday_of_line(lines.last()) {
            Some(d) => rest.push(d),
            None => rest,
        }
    }
}

/// Some line of `lines` is neither blank nor a date.
pub open spec fn has_bad_holiday_line(lines: Seq<Seq<char>>) -> bool {
    exists|i: int| 0 <= i < lines.len() && #[trigger] is_bad_holiday_line(lines[i])
}

/// The dates named by a holiday list: one `YYYY-MM-DD` date per line, blank
/// lines ignored. A line that is neither blank nor a date is an error, which
/// names the first such line.
pub fn parse_holidays(content: &str) -> (r: Result<Vec<Date>, HolidayError>)
    ensures
        r is Err <==> has_bad_holiday_line(lines_of(content@)),
        r matches Err(e) ==> {
            &&& e.line < lines_of(content@).len()
            &&& is_bad_holiday_line(lines_of(content@)[e.line as int])
            &&& forall|j: int| 0 <= j < e.line ==> !is_bad_holiday_line(lines_of(content@)[j])
        },
        r matches Ok(v) ==> v@ == holidays_of_lines(lines_of(content@)),
        r matches Ok(v) ==> forall|i: int| 0 <= i < v@.len() ==> v@[i].days <= LAST_DAY,
{
    let lines = split_lines(content);
    let ghost views = lines@.map_values(|l: String| l@);
    let mut out: Vec<Date> = Vec::new();
    let mut i: usize = 0;
    while i < lines.len()
        invariant
            0 <= i <= lines@.len(),
            views == lines@.map_values(|l: String| l@),
            views == lines_of(content@),
            out@ == holidays_of_lines(views.subrange(0, i as int)),
            forall|k: int| 0 <= k < out@.len() ==> out@[k].days <= LAST_DAY,
            forall|k: int| 0 <= k < i ==> !is_bad_holiday_line(#[trigger] views[k]),
        decreases lines@.len() - i,
    {
        let t = trim_text(lines[i].as_str());
        proof {
            assert(views.subrange(0, i + 1).drop_last() =~= views.subrange(0, i as int));
            assert(views[i as int] == lines@[i as int]@);
        }
        if !t.as_str().is_empty() {
            match parse_day_number(t.as_str(), "%Y-%m-%d") {
                Some(n) => {
                    out.push(Date { days: n });
                },
                None => {
                    proof {
                        assert(is_bad_holiday_line(views[i as int]));
                    }
                    return Err(HolidayError { line: i });
                },
            }
        }
        i = i + 1;
    }
    proof {
        assert(views.subrange(0, lines@.len() as int) =~= views);
    }
    Ok(out)
}

/// Weekends are never trading days.
pub proof fn lemma_weekend_is_not_trading(cal: &Calendar, d: Date)
    requires
        is_weekend_day(d),
    ensures
        !cal.is_trading_spec(d),
{
}

} // verus!
