//! The transport the driver talks through.

use crate::history::{fetched, sent, Exchange};
use vstd::prelude::*;

verus! {

/// A blocking I2C master that addresses its targets by 7-bit address.
///
/// Each call is one transaction on the wire and returns when the
/// transaction is over or has failed. Nothing is asked of an implementation
/// beyond that: what a transaction does is the business of the hardware
/// behind it. The three methods are what a bus offers; the driver in this
/// crate makes plain writes and reads only.
pub trait I2cBus {
    /// What the transport reports when a transaction fails.
    type Error;

    /// Sends `bytes` to the device at `address`.
    fn write(&mut self, address: u8, bytes: &[u8]) -> Result<(), Self::Error>;

    /// Fills `buffer` with bytes fetched from the device at `address`.
    fn read(&mut self, address: u8, buffer: &mut [u8]) -> Result<(), Self::Error>;

    /// Sends `bytes` to the device at `address`, then fills `buffer` with
    /// bytes fetched from it, in a single transaction.
    fn write_read(&mut self, address: u8, bytes: &[u8], buffer: &mut [u8]) -> Result<
        (),
        Self::Error,
    >;
}

/// A bus together with the history of the exchanges made through it.
///
/// The bus can be reached only through [`Recorder::write`] and
/// [`Recorder::read`], and each of them makes one call on the bus and adds
/// that call, with its arguments and its result, to the history. So the
/// history of a recorder is what its owner asked of the bus, in order.
pub struct Recorder<B: I2cBus> {
    bus: B,
    log: Ghost<Seq<Exchange<B::Error>>>,
}

impl<B: I2cBus> Recorder<B> {
    /// Every exchange made through this recorder so far, oldest first.
    pub closed spec fn history(&self) -> Seq<Exchange<B::Error>> {
        self.log@
    }

    /// Takes the bus, with an empty history.
    pub fn new(bus: B) -> (recorder: Self)
        ensures
            recorder.history() == Seq::<Exchange<B::Error>>::empty(),
    {
        Recorder { bus, log: Ghost(Seq::empty()) }
    }

    /// Sends `bytes` to the device at `address`.
    pub fn write(&mut self, address: u8, bytes: &[u8]) -> (result: Result<(), B::Error>)
        ensures
            final(self).history() == old(self).history().push(sent(address, bytes@, result)),
    {
        let result = self.bus.write(address, bytes);
        proof {
            self.log@ = self.log@.push(sent(address, bytes@, result));
        }
        result
    }

    /// Fills `buffer` with bytes fetched from the device at `address`.
    pub fn read<const N: usize>(&mut self, address: u8, buffer: &mut [u8; N]) -> (result: Result<
        (),
        B::Error,
    >)
        ensures
            final(self).history() == old(self).history().push(
                fetched(address, N as nat, final(buffer)@, result),
            ),
    {
        let result = self.bus.read(address, buffer);
        proof {
            self.log@ = self.log@.push(fetched(address, N as nat, buffer@, result));
        }
        result
    }
}

} // verus!
