//! Transactional persistence of ledger categories, with the configuration
//! types of the surrounding service.
//!
//! The category operations are written without any I/O of their own: each
//! one is a small protocol machine that names the next store action and
//! consumes the store's answer. A caller drives the machine against a real
//! database; the in-memory store of this crate drives it too, and gives every
//! operation a contract over the abstract table.

pub mod categories;
pub mod config;
pub mod connection;
pub mod domain;
pub mod error;
pub mod identity;
pub mod ledger;
pub mod rpc;
pub mod telemetry;
pub mod text;

pub use categories::model::Categories;
pub use categories::protocol::{Action, Event, Operation, Outcome, Plan, Script, Step};
pub use categories::statement::{Key, Selection, Statement};
pub use categories::store::MemoryStore;
pub use config::DatabaseConfig;
pub use connection::PoolSettings;
pub use domain::{CategoryTypes, HexColor, RowID, Timestamp, UrlSlug};
pub use error::{Constraint, DatabaseError, DatabaseResult, StoreFault};
pub use ledger::LedgerConfig;
pub use rpc::{activate_category, MyUtilitiesService, WireStatus};
pub use telemetry::{TelemetryConfig, TelemetryError, TelemetryLevels, TelemetryResult};
