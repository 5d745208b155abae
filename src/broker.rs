use vstd::prelude::*;

use crate::trading::Order;

verus! {

/// Which execution backend a session uses.
#[derive(Clone, Copy, Debug, PartialEq, Eq, Structural)]
pub enum BrokerType {
    REAL,
    PAPER,
    DB,
}

/// Which environment of the brokerage API a request goes to.
#[derive(Clone, Copy, Debug, PartialEq, Eq, Structural)]
pub enum ApiEnv {
    Real,
    Paper,
}

/// Where an order is placed, polled and cancelled: the brokerage API in one
/// of its environments, or the ledger store itself.
#[derive(Clone, Copy, Debug, PartialEq, Eq, Structural)]
pub enum Venue {
    Api(ApiEnv),
    Db,
}

/// An order refused before submission.
pub struct ValidationError {
    pub reason: String,
}

/// The checks shared by the brokers that trade through the brokerage API:
/// none is defined yet, so every order passes.
pub fn validate_common(_order: &Order) -> (r: Result<(), ValidationError>)
    ensures
        r is Ok,
{
    Ok(())
}

/// An execution backend: it validates an order and names the venue that
/// submits, polls and cancels it.
pub trait Broker {
    spec fn venue_spec(&self) -> Venue;

    /// Whether `order` may be submitted.
    fn validate(&self, order: &Order) -> (r: Result<(), ValidationError>)
        ensures
            r is Ok,
    ;

    /// The venue of this backend.
    fn venue(&self) -> (r: Venue)
        ensures
            r == self.venue_spec(),
    ;
}

/// Trades through the brokerage API's live environment.
pub struct RealBroker;

/// Trades through the brokerage API's paper-trading environment.
pub struct PaperBroker;

/// Trades against the ledger store alone.
pub struct DbBroker;

impl Broker for RealBroker {
    open spec fn venue_spec(&self) -> Venue {
        Venue::Api(ApiEnv::Real)
    }

    fn validate(&self, order: &Order) -> (r: Result<(), ValidationError>) {
        validate_common(order)
    }

    fn venue(&self) -> (r: Venue) {
        Venue::Api(ApiEnv::Real)
    }
}

impl Broker for PaperBroker {
    open spec fn venue_spec(&self) -> Venue {
        Venue::Api(ApiEnv::Paper)
    }

    fn validate(&self, order: &Order) -> (r: Result<(), ValidationError>) {
        validate_common(order)
    }

    fn venue(&self) -> (r: Venue) {
        Venue::Api(ApiEnv::Paper)
    }
}

impl Broker for DbBroker {
    open spec fn venue_spec(&self) -> Venue {
        Venue::Db
    }

    fn validate(&self, _order: &Order) -> (r: Result<(), ValidationError>) {
        Ok(())
    }

    fn venue(&self) -> (r: Venue) {
        Venue::Db
    }
}

/// The venue that the backend of kind `kind` trades at: the brokerage API's
/// live or paper-trading environment, or the ledger store.
pub fn broker_venue(kind: BrokerType) -> (r: Venue)
    ensures
        kind == BrokerType::REAL ==> r == Venue::Api(ApiEnv::Real),
        kind == BrokerType::PAPER ==> r == Venue::Api(ApiEnv::Paper),
        kind == BrokerType::DB ==> r == Venue::Db,
{
    match kind {
        BrokerType::REAL => Venue::Api(ApiEnv::Real),
        BrokerType::PAPER => Venue::Api(ApiEnv::Paper),
        BrokerType::DB => Venue::Db,
    }
}

/// The backend of kind `kind`; its `venue()` is `broker_venue(kind)`.
pub fn make_broker(kind: BrokerType) -> Box<dyn Broker> {
    match kind {
        BrokerType::REAL => Box::new(RealBroker),
        BrokerType::PAPER => Box::new(PaperBroker),
        BrokerType::DB => Box::new(DbBroker),
    }
}

} // verus!
