//! Core of an edge telemetry agent: periodic sampling gates, a table of the
//! latest sensor readings, a tick scheduler, and the decision logic of a
//! resilient publish/subscribe uplink (connection state machine, bounded
//! inbound queue, topic and message construction).
//!
//! Time is carried as milliseconds on a monotonic clock supplied by the
//! caller, and physical quantities as fixed-point thousandths of their unit
//! (milli-degrees Celsius, milli-percent relative humidity, milli-kilopascal),
//! so that every rule here is checked by the verifier. The transport, the
//! wire codec and the sensor hardware are collaborators that live outside
//! this crate and exchange plain values with it.

pub mod channel;
pub mod connector;
pub mod engine;
pub mod gate;
pub mod parse;
pub mod table;
pub mod telemetry;

pub use connector::NetConnector;
pub use connector::NetConnectorSettings;
pub use engine::Engine;
pub use engine::ProgramArgs;
pub use gate::EnterTimerGuard;
pub use table::Quantity;
pub use table::ResultTable;
