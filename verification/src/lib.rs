//! Driver for the TCA62724FMG, an RGB LED controller on an I2C bus.
//!
//! A [`TCA62724FMG`] owns a bus and holds the address of one chip. It sets
//! the brightness of the three channels, turns the light output on and off,
//! and asks the chip whether the output is on. Every command is one or a few
//! blocking transactions. The first transaction that fails ends the command,
//! and its error comes back in [`Error::Comm`].
//!
//! The crate is verified with Verus. What a command does is stated over the
//! history of the handle, the sequence of the exchanges it has made on its
//! bus: each command adds a run of its plan to the history, and its result
//! is the outcome of that run.
//!
//! - [`registers`] holds the register map and the bytes of each frame.
//! - [`bus`] holds the interface of the bus and the recorder that keeps the
//!   history.
//! - [`history`] holds requests, exchanges, plans and runs.
//! - [`device`] holds the handle and its commands.
//! - [`laws`] holds what follows from the contracts of the commands.

pub mod bus;
pub mod device;
pub mod history;
pub mod laws;
pub mod registers;

pub use bus::I2cBus;
pub use device::{Error, TCA62724FMG};
pub use registers::{BRIGHTNESS_HALF, BRIGHTNESS_LOW, BRIGHTNESS_MAX, BRIGHTNESS_OFF};
