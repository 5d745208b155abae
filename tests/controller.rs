use autotrade::{
    broker_venue, cancel_order, cancel_order_from_db, check_fill, check_fill_from_db, make_broker, ApiEnv, BrokerType, Event,
    OrderError, OrderLifecycle, Request, ValidationError, Venue, GRACE_SECONDS,
};

fn run(venue: Venue, events: Vec<Event>) -> Vec<Request> {
    let (mut lc, first) = OrderLifecycle::start(venue, Ok(()));
    let mut requests = vec![first];
    for e in events {
        let (next, req) = lc.step(e);
        lc = next;
        requests.push(req);
    }
    requests
}

#[test]
fn unfilled_order_is_cancelled_after_grace_without_trade() {
    let reqs = run(
        Venue::Api(ApiEnv::Paper),
        vec![Event::Submitted(Ok("A1".to_string())), Event::Polled(Ok(false)), Event::Waited, Event::Cancelled(Ok(()))],
    );
    assert!(matches!(reqs[0], Request::Submit { venue: Venue::Api(ApiEnv::Paper) }));
    assert!(matches!(&reqs[1], Request::PollFilled { venue: Venue::Api(ApiEnv::Paper), id } if id == "A1"));
    assert!(matches!(reqs[2], Request::Wait { seconds: 300 }));
    assert!(matches!(&reqs[3], Request::Cancel { venue: Venue::Api(ApiEnv::Paper), id } if id == "A1"));
    assert!(matches!(reqs[4], Request::Finish(Ok(()))));
    assert!(!reqs.iter().any(|r| matches!(r, Request::SaveTrade)));
}

#[test]
fn filled_order_is_saved_then_cancelled() {
    let reqs = run(
        Venue::Db,
        vec![
            Event::Submitted(Ok("7".to_string())),
            Event::Polled(Ok(true)),
            Event::Saved(Ok(())),
            Event::Waited,
            Event::Cancelled(Ok(())),
        ],
    );
    assert!(matches!(&reqs[1], Request::PollFilled { venue: Venue::Db, id } if id == "7"));
    assert!(matches!(reqs[2], Request::SaveTrade));
    assert!(matches!(reqs[3], Request::Wait { seconds } if seconds == GRACE_SECONDS));
    assert!(matches!(&reqs[4], Request::Cancel { venue: Venue::Db, id } if id == "7"));
    assert!(matches!(reqs[5], Request::Finish(Ok(()))));
}

#[test]
fn failures_end_the_lifecycle() {
    let reqs = run(Venue::Db, vec![Event::Submitted(Err("down".to_string()))]);
    assert!(matches!(&reqs[1], Request::Finish(Err(OrderError::Execution(m))) if m == "down"));

    let reqs = run(Venue::Db, vec![Event::Submitted(Ok("1".to_string())), Event::Polled(Err("timeout".to_string()))]);
    assert!(matches!(&reqs[2], Request::Finish(Err(OrderError::Execution(m))) if m == "timeout"));

    let reqs = run(
        Venue::Db,
        vec![Event::Submitted(Ok("1".to_string())), Event::Polled(Ok(true)), Event::Saved(Err("disk".to_string()))],
    );
    assert!(matches!(&reqs[3], Request::Finish(Err(OrderError::Persistence(m))) if m == "disk"));

    let reqs = run(
        Venue::Db,
        vec![
            Event::Submitted(Ok("1".to_string())),
            Event::Polled(Ok(false)),
            Event::Waited,
            Event::Cancelled(Err("gone".to_string())),
        ],
    );
    assert!(matches!(&reqs[4], Request::Finish(Err(OrderError::Execution(m))) if m == "gone"));

    let reqs = run(Venue::Db, vec![Event::Waited]);
    assert!(matches!(reqs[1], Request::Finish(Err(OrderError::OutOfOrder))));
}

#[test]
fn refused_order_is_never_submitted() {
    let (lc, req) = OrderLifecycle::start(Venue::Db, Err(ValidationError { reason: "size".to_string() }));
    assert!(lc.is_finished());
    assert!(matches!(req, Request::Finish(Err(OrderError::Validation(ValidationError { ref reason }))) if reason == "size"));
}

#[test]
fn request_builders_name_venue_and_id() {
    assert!(matches!(check_fill("X9", ApiEnv::Real), Request::PollFilled { venue: Venue::Api(ApiEnv::Real), ref id } if id == "X9"));
    assert!(matches!(cancel_order("X9", ApiEnv::Paper), Request::Cancel { venue: Venue::Api(ApiEnv::Paper), ref id } if id == "X9"));
    assert!(matches!(check_fill_from_db("42"), Request::PollFilled { venue: Venue::Db, ref id } if id == "42"));
    assert!(matches!(cancel_order_from_db("42"), Request::Cancel { venue: Venue::Db, ref id } if id == "42"));
}

#[test]
fn brokers_pass_validation_and_name_their_venue() {
    for (kind, venue) in [
        (BrokerType::REAL, Venue::Api(ApiEnv::Real)),
        (BrokerType::PAPER, Venue::Api(ApiEnv::Paper)),
        (BrokerType::DB, Venue::Db),
    ] {
        let b = make_broker(kind);
        assert_eq!(broker_venue(kind), venue);
        assert_eq!(b.venue(), broker_venue(kind));
    }
}
