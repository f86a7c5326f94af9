//! Protocol core for the Texas Instruments DAC5578 family of eight-channel
//! digital-to-analog converters on an I2C bus.
//!
//! The crate turns logical operations (set a channel, update a channel, reset
//! the device, wake every device on the bus) into the exact bytes the device
//! expects, and turns the two bytes of a read-back into the value they carry.
//! It performs no bus traffic itself: every operation of [`DAC5578`] yields the
//! one [`Transaction`] that the owner of the bus has to run.
//!
//! ```
//! use dac5578::{Address, Channel, DataResolution, DAC5578};
//!
//! # let i2c = ();
//! let dac = DAC5578::new(i2c, Address::PinLow, DataResolution::EightBit);
//! let transaction = dac.write(Channel::A, 128);
//! assert_eq!(transaction.address(), 0x48);
//! assert_eq!(transaction.bytes(), &[0x00, 0x80, 0x00][..]);
//! ```
#![allow(unused_imports)]

pub mod address;
pub mod channel;
pub mod command;
pub mod driver;
pub mod error;
pub mod frame;
pub mod laws;
pub mod transaction;

pub use address::Address;
pub use channel::Channel;
pub use command::{DataResolution, GeneralCall, ReadCommandType, ResetMode, WriteCommandType};
pub use driver::DAC5578;
pub use error::Error;
pub use transaction::{Transaction, Transfer};
