use autotrade::{seconds_until, Calendar, Date, TimeService, TimeSignal, Timestamp};

fn at(y: i32, m: u32, d: u32, h: u32, min: u32) -> Timestamp {
    Timestamp::at(Date::from_ymd(y, m, d).unwrap(), h, min, 0).unwrap()
}

fn key(t: Timestamp) -> (i32, u32) {
    (t.date.day_number(), t.second)
}

#[test]
fn test_compute_next_time_signals() {
    let cal = Calendar::new();

    let now = at(2025, 7, 16, 7, 30);
    let service = TimeService { current: now, current_signal: TimeSignal::DataPrep };
    let (next, sig) = service.compute_next_time(&cal);
    assert_eq!(sig, TimeSignal::DataPrep);
    assert_eq!(next.hour(), 8);
    assert_eq!(next.minute(), 30);

    let now = at(2025, 7, 16, 10, 0);
    let service = TimeService { current: now, current_signal: TimeSignal::Update };
    let (next, sig) = service.compute_next_time(&cal);
    assert_eq!(sig, TimeSignal::Update);
    assert_eq!(next.minute(), 1);

    let friday = at(2025, 7, 18, 16, 0);
    let service = TimeService { current: friday, current_signal: TimeSignal::Overnight };
    let (next, sig) = service.compute_next_time(&cal);
    assert_eq!(sig, TimeSignal::Overnight);
    assert_eq!(next.date.weekday(), 0);
}

#[test]
fn test_time_service_flow() {
    let cal = Calendar::new();
    let mut svc = TimeService::new(&cal);
    let (t1, s1) = svc.advance(&cal);
    assert!(key(t1) >= key(svc.now()));
    let (t2, s2) = svc.advance(&cal);
    assert!(key(t2) >= key(t1));
    assert!(matches!(
        s1,
        TimeSignal::DataPrep | TimeSignal::MarketOpen | TimeSignal::Update | TimeSignal::MarketClose | TimeSignal::Overnight
    ));
    assert!(matches!(
        s2,
        TimeSignal::DataPrep | TimeSignal::MarketOpen | TimeSignal::Update | TimeSignal::MarketClose | TimeSignal::Overnight
    ));
    assert_eq!(svc.now_signal(), s2);
}

#[test]
fn advance_follows_the_transition_table() {
    let cal = Calendar::new();
    let cases = [
        ((7, 30), (16, 8, 30), TimeSignal::DataPrep),
        ((8, 30), (16, 9, 0), TimeSignal::MarketOpen),
        ((8, 59), (16, 9, 0), TimeSignal::MarketOpen),
        ((9, 0), (16, 9, 1), TimeSignal::Update),
        ((10, 0), (16, 10, 1), TimeSignal::Update),
        ((15, 28), (16, 15, 29), TimeSignal::Update),
        ((15, 29), (16, 15, 30), TimeSignal::MarketClose),
        ((15, 30), (17, 8, 30), TimeSignal::Overnight),
        ((23, 59), (17, 8, 30), TimeSignal::Overnight),
    ];
    for ((h, m), (nd, nh, nm), sig) in cases {
        let mut svc = TimeService { current: at(2025, 7, 16, h, m), current_signal: TimeSignal::DataPrep };
        let (t, s) = svc.advance(&cal);
        assert_eq!(s, sig);
        assert_eq!(t, at(2025, 7, nd, nh, nm));
        assert_eq!(svc.now(), t);
        assert_eq!(svc.now_signal(), sig);
    }
}

#[test]
fn overnight_skips_weekend_and_holidays() {
    let mut cal = Calendar::new();
    cal.load_holiday_text("2025-01-27\n2025-01-28\n2025-01-29\n2025-01-30\n").unwrap();
    let mut svc = TimeService { current: at(2025, 1, 24, 16, 0), current_signal: TimeSignal::MarketClose };
    let (t, s) = svc.advance(&cal);
    assert_eq!(s, TimeSignal::Overnight);
    assert_eq!(t, at(2025, 1, 31, 8, 30));

    let mut svc = TimeService { current: at(2025, 7, 18, 16, 0), current_signal: TimeSignal::MarketClose };
    let (t, _) = svc.advance(&cal);
    assert_eq!(t, at(2025, 7, 21, 8, 30));
}

#[test]
fn a_day_of_events_is_strictly_increasing() {
    let cal = Calendar::new();
    let mut svc = TimeService::start_from(at(2025, 7, 16, 0, 0), &cal);
    assert_eq!(svc.now(), at(2025, 7, 16, 8, 30));
    let mut prev = key(svc.now());
    let mut updates = 0;
    loop {
        let (t, s) = svc.advance(&cal);
        assert!(key(t) > prev);
        prev = key(t);
        if s == TimeSignal::Update {
            updates += 1;
        }
        if s == TimeSignal::Overnight {
            break;
        }
    }
    // 09:01 through 15:29.
    assert_eq!(updates, 389);
}

#[test]
fn wait_is_zero_for_past_targets() {
    let a = at(2025, 7, 16, 9, 0);
    let b = at(2025, 7, 16, 9, 5);
    assert_eq!(seconds_until(a, b), 300);
    assert_eq!(seconds_until(b, a), 0);
    assert_eq!(seconds_until(a, a), 0);
    assert_eq!(seconds_until(at(2025, 7, 16, 23, 59), at(2025, 7, 17, 0, 1)), 120);
}

#[test]
fn timestamp_rejects_out_of_range_times() {
    let d = Date::from_ymd(2025, 7, 16).unwrap();
    assert!(Timestamp::at(d, 24, 0, 0).is_none());
    assert!(Timestamp::at(d, 10, 60, 0).is_none());
    assert_eq!(Timestamp::at(d, 15, 29, 0).unwrap().second, 55740);
}
