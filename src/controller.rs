use vstd::prelude::*;

use crate::broker::{ApiEnv, ValidationError, Venue};

verus! {

/// Seconds that an order is left to fill after its fill check, before the
/// rest of it is cancelled.
pub const GRACE_SECONDS: u64 = 300;

/// Why an order's lifecycle ended without success.
pub enum OrderError {
    /// The order was refused before submission.
    Validation(ValidationError),
    /// The venue failed to submit, poll or cancel it.
    Execution(String),
    /// The ledger store failed to record the trade.
    Persistence(String),
    /// An event came that the lifecycle was not waiting for.
    OutOfOrder,
}

/// What an `OrderError` holds, as plain text.
pub ghost enum OrderErrorView {
    Validation(Seq<char>),
    Execution(Seq<char>),
    Persistence(Seq<char>),
    OutOfOrder,
}

impl View for OrderError {
    type V = OrderErrorView;

    open spec fn view(&self) -> OrderErrorView {
        match self {
            OrderError::Validation(e) => OrderErrorView::Validation(e.reason@),
            OrderError::Execution(m) => OrderErrorView::Execution(m@),
            OrderError::Persistence(m) => OrderErrorView::Persistence(m@),
            OrderError::OutOfOrder => OrderErrorView::OutOfOrder,
        }
    }
}

/// What the runner of a lifecycle is asked to do next.
pub enum Request {
    /// Submit the order at the venue; answer with `Event::Submitted`.
    Submit { venue: Venue },
    /// Ask the venue once whether order `id` has filled; answer with `Event::Polled`.
    PollFilled { venue: Venue, id: String },
    /// Record the filled order as a trade; answer with `Event::Saved`.
    SaveTrade,
    /// Block for `seconds`; answer with `Event::Waited`.
    Wait { seconds: u64 },
    /// Cancel what is left of order `id` at the venue; answer with `Event::Cancelled`.
    Cancel { venue: Venue, id: String },
    /// The lifecycle is over, with this outcome.
    Finish(Result<(), OrderError>),
}

/// What the runner reports back after carrying out a request. Errors of the
/// venue and of the store come as their messages.
pub enum Event {
    Submitted(Result<String, String>),
    Polled(Result<bool, String>),
    Saved(Result<(), String>),
    Waited,
    Cancelled(Result<(), String>),
}

/// Where an order's lifecycle stands: which event it waits for.
pub enum Phase {
    AwaitSubmit,
    AwaitPoll(String),
    AwaitSave(String),
    AwaitWait(String),
    AwaitCancel(String),
    Finished,
}

pub ghost enum RequestView {
    Submit(Venue),
    PollFilled(Venue, Seq<char>),
    SaveTrade,
    Wait(u64),
    Cancel(Venue, Seq<char>),
    Finish(Result<(), OrderErrorView>),
}

pub ghost enum EventView {
    Submitted(Result<Seq<char>, Seq<char>>),
    Polled(Result<bool, Seq<char>>),
    Saved(Result<(), Seq<char>>),
    Waited,
    Cancelled(Result<(), Seq<char>>),
}

pub ghost enum PhaseView {
    AwaitSubmit,
    AwaitPoll(Seq<char>),
    AwaitSave(Seq<char>),
    AwaitWait(Seq<char>),
    AwaitCancel(Seq<char>),
    Finished,
}

pub open spec fn unit_result_view(r: Result<(), OrderError>) -> Result<(), OrderErrorView> {
    match r {
        Ok(()) => Ok(()),
        Err(e) => Err(e@),
    }
}

impl View for Request {
    type V = RequestView;

    open spec fn view(&self) -> RequestView {
        match self {
            Request::Submit { venue } => RequestView::Submit(*venue),
            Request::PollFilled { venue, id } => RequestView::PollFilled(*venue, id@),
            Request::SaveTrade => RequestView::SaveTrade,
            Request::Wait { seconds } => RequestView::Wait(*seconds),
            Request::Cancel { venue, id } => RequestView::Cancel(*venue, id@),
            Request::Finish(r) => RequestView::Finish(unit_result_view(*r)),
        }
    }
}

impl View for Event {
    type V = EventView;

    open spec fn view(&self) -> EventView {
        match self {
            Event::Submitted(Ok(id)) => EventView::Submitted(Ok(id@)),
            Event::Submitted(Err(m)) => EventView::Submitted(Err(m@)),
            Event::Polled(Ok(b)) => EventView::Polled(Ok(*b)),
            Event::Polled(Err(m)) => EventView::Polled(Err(m@)),
            Event::Saved(Ok(())) => EventView::Saved(Ok(())),
            Event::Saved(Err(m)) => EventView::Saved(Err(m@)),
            Event::Waited => EventView::Waited,
            Event::Cancelled(Ok(())) => EventView::Cancelled(Ok(())),
            Event::Cancelled(Err(m)) => EventView::Cancelled(Err(m@)),
        }
    }
}

impl View for Phase {
    type V = PhaseView;

    open spec fn view(&self) -> PhaseView {
        match self {
            Phase::AwaitSubmit => PhaseView::AwaitSubmit,
            Phase::AwaitPoll(id) => PhaseView::AwaitPoll(id@),
            Phase::AwaitSave(id) => PhaseView::AwaitSave(id@),
            Phase::AwaitWait(id) => PhaseView::AwaitWait(id@),
            Phase::AwaitCancel(id) => PhaseView::AwaitCancel(id@),
            Phase::Finished => PhaseView::Finished,
        }
    }
}

/// The lifecycle's transition: from `phase` at `venue`, on `event`, the next
/// phase and the next request. Submit, one fill check, a trade record only on
/// a fill, the grace wait whether or not it filled, then the cancel. Any
/// failure ends the lifecycle at once, and so does an event out of turn.
pub open spec fn next_step(venue: Venue, phase: PhaseView, event: EventView) -> (PhaseView, RequestView) {
    match (phase, event) {
        (PhaseView::AwaitSubmit, EventView::Submitted(Ok(id))) => (
            PhaseView::AwaitPoll(id),
            RequestView::PollFilled(venue, id),
        ),
        (PhaseView::AwaitSubmit, EventView::Submitted(Err(m))) => (
            PhaseView::Finished,
            RequestView::Finish(Err(OrderErrorView::Execution(m))),
        ),
        (PhaseView::AwaitPoll(id), EventView::Polled(Ok(true))) => (
            PhaseView::AwaitSave(id),
            RequestView::SaveTrade,
        ),
        (PhaseView::AwaitPoll(id), EventView::Polled(Ok(false))) => (
            PhaseView::AwaitWait(id),
            RequestView::Wait(GRACE_SECONDS),
        ),
        (PhaseView::AwaitPoll(id), EventView::Polled(Err(m))) => (
            PhaseView::Finished,
            RequestView::Finish(Err(OrderErrorView::Execution(m))),
        ),
        (PhaseView::AwaitSave(id), EventView::Saved(Ok(()))) => (
            PhaseView::AwaitWait(id),
            RequestView::Wait(GRACE_SECONDS),
        ),
        (PhaseView::AwaitSave(id), EventView::Saved(Err(m))) => (
            PhaseView::Finished,
            RequestView::Finish(Err(OrderErrorView::Persistence(m))),
        ),
        (PhaseView::AwaitWait(id), EventView::Waited) => (
            PhaseView::AwaitCancel(id),
            RequestView::Cancel(venue, id),
        ),
        (PhaseView::AwaitCancel(id), EventView::Cancelled(Ok(()))) => (
            PhaseView::Finished,
            RequestView::Finish(Ok(())),
        ),
        (PhaseView::AwaitCancel(id), EventView::Cancelled(Err(m))) => (
            PhaseView::Finished,
            RequestView::Finish(Err(OrderErrorView::Execution(m))),
        ),
        _ => (PhaseView::Finished, RequestView::Finish(Err(OrderErrorView::OutOfOrder))),
    }
}

/// The request that asks the brokerage API in `env` whether order `order_id` has filled.
pub fn check_fill(order_id: &str, env: ApiEnv) -> (r: Request)
    ensures
        r@ == RequestView::PollFilled(Venue::Api(env), order_id@),
{
    Request::PollFilled { venue: Venue::Api(env), id: order_id.to_owned() }
}

/// The request that cancels what is left of order `order_id` through the
/// brokerage API in `env`.
pub fn cancel_order(order_id: &str, env: ApiEnv) -> (r: Request)
    ensures
        r@ == RequestView::Cancel(Venue::Api(env), order_id@),
{
    Request::Cancel { venue: Venue::Api(env), id: order_id.to_owned() }
}

/// The request that asks the ledger store whether order `order_id` has filled.
pub fn check_fill_from_db(order_id: &str) -> (r: Request)
    ensures
        r@ == RequestView::PollFilled(Venue::Db, order_id@),
{
    Request::PollFilled { venue: Venue::Db, id: order_id.to_owned() }
}

/// The request that cancels what is left of order `order_id` in the ledger store.
pub fn cancel_order_from_db(order_id: &str) -> (r: Request)
    ensures
        r@ == RequestView::Cancel(Venue::Db, order_id@),
{
    Request::Cancel { venue: Venue::Db, id: order_id.to_owned() }
}

/// The fill check of order `id` at `venue`.
fn poll_request(venue: Venue, id: &str) -> (r: Request)
    ensures
        r@ == RequestView::PollFilled(venue, id@),
{
    match venue {
        Venue::Api(env) => check_fill(id, env),
        Venue::Db => check_fill_from_db(id),
    }
}

/// The cancellation of order `id` at `venue`.
fn cancel_request(venue: Venue, id: &str) -> (r: Request)
    ensures
        r@ == RequestView::Cancel(venue, id@),
{
    match venue {
        Venue::Api(env) => cancel_order(id, env),
        Venue::Db => cancel_order_from_db(id),
    }
}

/// The lifecycle of one order at one venue.
pub struct OrderLifecycle {
    pub venue: Venue,
    pub phase: Phase,
}

impl OrderLifecycle {
    /// Starts the lifecycle of an order at `venue` once its validation has
    /// given `validation`: a refused order ends at once, with no side effect;
    /// an accepted one is to be submitted.
    pub fn start(venue: Venue, validation: Result<(), ValidationError>) -> (r: (
        OrderLifecycle,
        Request,
    ))
        ensures
            r.0.venue == venue,
            validation is Ok ==> r.0.phase@ == PhaseView::AwaitSubmit && r.1@
                == RequestView::Submit(venue),
            validation matches Err(e) ==> r.0.phase@ == PhaseView::Finished && r.1@
                == RequestView::Finish(Err(OrderErrorView::Validation(e.reason@))),
    {
        match validation {
            Ok(()) => (OrderLifecycle { venue, phase: Phase::AwaitSubmit }, Request::Submit { venue }),
            Err(e) => (
                OrderLifecycle { venue, phase: Phase::Finished },
                Request::Finish(Err(OrderError::Validation(e))),
            ),
        }
    }

    /// Whether the lifecycle is over.
    pub fn is_finished(&self) -> (r: bool)
        ensures
            r == (self.phase@ == PhaseView::Finished),
    {
        match self.phase {
            Phase::Finished => true,
            _ => false,
        }
    }

    /// Takes in the outcome of the last request and gives the next one.
    pub fn step(self, event: Event) -> (r: (OrderLifecycle, Request))
        ensures
            r.0.venue == self.venue,
            (r.0.phase@, r.1@) == next_step(self.venue, self.phase@, event@),
    {
        let venue = self.venue;
        match (self.phase, event) {
            (Phase::AwaitSubmit, Event::Submitted(Ok(id))) => {
                let req = poll_request(venue, id.as_str());
                (OrderLifecycle { venue, phase: Phase::AwaitPoll(id) }, req)
            },
            (Phase::AwaitSubmit, Event::Submitted(Err(m))) => (
                OrderLifecycle { venue, phase: Phase::Finished },
                Request::Finish(Err(OrderError::Execution(m))),
            ),
            (Phase::AwaitPoll(id), Event::Polled(Ok(filled))) => {
                if filled {
                    (OrderLifecycle { venue, phase: Phase::AwaitSave(id) }, Request::SaveTrade)
                } else {
                    (
                        OrderLifecycle { venue, phase: Phase::AwaitWait(id) },
                        Request::Wait { seconds: GRACE_SECONDS },
                    )
                }
            },
            (Phase::AwaitPoll(_), Event::Polled(Err(m))) => (
                OrderLifecycle { venue, phase: Phase::Finished },
                Request::Finish(Err(OrderError::Execution(m))),
            ),
            (Phase::AwaitSave(id), Event::Saved(Ok(()))) => (
                OrderLifecycle { venue, phase: Phase::AwaitWait(id) },
                Request::Wait { seconds: GRACE_SECONDS },
            ),
            (Phase::AwaitSave(_), Event::Saved(Err(m))) => (
                OrderLifecycle { venue, phase: Phase::Finished },
                Request::Finish(Err(OrderError::Persistence(m))),
            ),
            (Phase::AwaitWait(id), Event::Waited) => {
                let req = cancel_request(venue, id.as_str());
                (OrderLifecycle { venue, phase: Phase::AwaitCancel(id) }, req)
            },
            (Phase::AwaitCancel(_), Event::Cancelled(Ok(()))) => (
                OrderLifecycle { venue, phase: Phase::Finished },
                Request::Finish(Ok(())),
            ),
            (Phase::AwaitCancel(_), Event::Cancelled(Err(m))) => (
                OrderLifecycle { venue, phase: Phase::Finished },
                Request::Finish(Err(OrderError::Execution(m))),
            ),
            _ => (
                OrderLifecycle { venue, phase: Phase::Finished },
                Request::Finish(Err(OrderError::OutOfOrder)),
            ),
        }
    }
}

/// An order found unfilled is still cancelled: after a fill check that
/// reports no fill, the lifecycle waits the grace window and then cancels the
/// order at its venue, and records no trade on the way.
pub proof fn lemma_unfilled_order_is_cancelled(venue: Venue, id: Seq<char>)
    ensures
        next_step(venue, PhaseView::AwaitPoll(id), EventView::Polled(Ok(false))) == (
            PhaseView::AwaitWait(id),
            RequestView::Wait(GRACE_SECONDS),
        ),
        next_step(venue, PhaseView::AwaitWait(id), EventView::Waited) == (
            PhaseView::AwaitCancel(id),
            RequestView::Cancel(venue, id),
        ),
{
}

/// A trade is recorded only on a fill: the only step that asks to save a
/// trade is the one that takes in a fill check reporting a fill.
pub proof fn lemma_trade_saved_only_on_fill(venue: Venue, phase: PhaseView, event: EventView)
    ensures
        next_step(venue, phase, event).1 == RequestView::SaveTrade ==> event == EventView::Polled(
            Ok(true),
        ),
{
}

} // verus!
