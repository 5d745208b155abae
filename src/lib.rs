//! Session clock, trading calendar, order lifecycle and daily ledger for an
//! automated equity trading loop.
//!
//! Amounts of money are fixed-point integers in thousandths of a currency unit,
//! and percentages are fixed-point integers in thousandths of a percent.
pub mod calendar;
pub mod clock;
pub mod trading;
pub mod ledger;
pub mod broker;
pub mod controller;
pub mod data_reader;

pub use calendar::{parse_holidays, Calendar, Date, HolidayError, LAST_DAY};
pub use clock::{seconds_until, TimeService, TimeSignal, Timestamp};
pub use trading::{AssetInfo, LedgerError, Order, OrderSide, Trading, TradingResult, SCALE};
pub use ledger::OverviewRow;
pub use broker::{broker_venue, make_broker, validate_common, ApiEnv, Broker, BrokerType, DbBroker, PaperBroker, RealBroker, ValidationError, Venue};
pub use controller::{cancel_order, cancel_order_from_db, check_fill, check_fill_from_db, Event, OrderError, OrderLifecycle, Phase, Request, GRACE_SECONDS};
pub use data_reader::{make_data_reader, parse_amount, DataReaderType, DataSource, DbDataReader, Domestic006Output1, Domestic006Output2, Domestic006Result, KiDataReader, PaperDataReader, ReaderError, RealDataReader};
