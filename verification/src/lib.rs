//! Register-level driver for the HTS221 humidity and temperature sensor.
//!
//! The chip is reached over a two-wire addressed bus through the [`I2C`]
//! transport trait.  One wrapper type exists per register (or per group of
//! registers the chip reads in a single auto-increment transfer); each wrapper
//! caches the result of one blocking read, offers bit-level accessors on that
//! snapshot, and — for writable registers — commits the whole snapshot byte
//! back to the chip in one blocking write.
//!
//! Contracts are stated over a ghost history of completed bus transactions
//! (see [`transport::Transaction`]), which pins down, for every operation,
//! exactly which bytes cross the bus: reads extend the history by one
//! write-then-read transaction and never by a write, and a `modify` commits
//! exactly one write transaction carrying the full register byte.

pub mod bits;
pub mod transport;

pub mod avg;
pub mod calibration;
pub mod control;
pub mod ident;
pub mod output;
pub mod status;

pub use avg::AvConf;
pub use avg::AvgH;
pub use avg::AvgT;
pub use control::CtrlReg1;
pub use control::CtrlReg2;
pub use control::CtrlReg3;
pub use control::DataRate;
pub use calibration::Calibration;
pub use ident::WhoAmI;
pub use output::HumidityOut;
pub use output::TemperatureOut;
pub use status::StatusReg;
pub use transport::I2C;
pub use transport::Transaction;
