//! The device handle: lighting commands turned into I2C transactions.
//!
//! Each command has a plan, the requests it makes of the bus in order. A
//! command runs its plan until the plan is done or a request fails, and
//! reports the error of the request that failed. The contracts below say, for
//! each command, what its plan is and that the history of the handle grows by
//! a run of that plan.

use crate::bus::{I2cBus, Recorder};
use crate::history::{added, completed, continues, follows};
use crate::history::{target, Exchange, Request};
use crate::registers::{color_frame, level, settings_frame, status_enabled};
use crate::registers::{decode_enabled, encode_color, encode_settings};
use crate::registers::{BRIGHTNESS_MAX, BRIGHTNESS_OFF, DEFAULT_I2C_ADDRESS, SUBADDR_NAA_SETTINGS};
use vstd::prelude::*;

verus! {

/// What a command reports when it fails.
#[derive(Debug)]
pub enum Error<CommE> {
    /// A transaction on the bus failed. Holds the error of the bus, as the
    /// bus gave it.
    Comm(CommE),
}

/// A TCA62724FMG on an I2C bus.
///
/// The handle owns the bus and keeps the address it was made with; the
/// address never changes. It holds no copy of the chip's state: what it
/// reports, it reads from the chip.
pub struct TCA62724FMG<I2C: I2cBus> {
    i2c_port: Recorder<I2C>,
    address: u8,
}

/// The plan of a state query: one read of two bytes, of which the first
/// holds the settings bits.
pub open spec fn probe_plan(address: u8) -> Seq<Request> {
    seq![Request::Read { address, len: 2 }]
}

/// The plan of a register write: one write of the sub-address and the value.
pub open spec fn register_plan(address: u8, subaddr: u8, val: u8) -> Seq<Request> {
    seq![Request::Write { address, bytes: seq![subaddr, val] }]
}

/// The plan of turning the light output on or off: one write of the settings
/// register.
pub open spec fn settings_plan(address: u8, enable: bool) -> Seq<Request> {
    seq![Request::Write { address, bytes: settings_frame(enable) }]
}

/// The plan of setting the three channels: one burst write.
pub open spec fn color_plan(address: u8, red: u8, green: u8, blue: u8) -> Seq<Request> {
    seq![Request::Write { address, bytes: color_frame(red, green, blue) }]
}

/// The plan of a reset: read the state, turn the output off, set all
/// channels to zero.
pub open spec fn reset_plan(address: u8) -> Seq<Request> {
    seq![
        Request::Read { address, len: 2 },
        Request::Write { address, bytes: settings_frame(false) },
        Request::Write { address, bytes: color_frame(0, 0, 0) },
    ]
}

/// The plan of a toggle that finds the output in state `enabled`: read the
/// state, then write the opposite one.
pub open spec fn toggle_plan(address: u8, enabled: bool) -> Seq<Request> {
    seq![
        Request::Read { address, len: 2 },
        Request::Write { address, bytes: settings_frame(!enabled) },
    ]
}

/// The output state that a state read shows. A read that failed shows
/// nothing, and counts as off.
pub open spec fn observed<E>(probe: Exchange<E>) -> bool {
    probe.outcome matches Ok(data) && status_enabled(data[0])
}

/// What a command reports for its run: success when the last exchange
/// succeeded, else the error of the last exchange.
pub open spec fn verdict<E>(done: Seq<Exchange<E>>) -> Result<(), Error<E>> {
    match done.last().outcome {
        Ok(_) => Ok(()),
        Err(e) => Err(Error::Comm(e)),
    }
}

/// What a state query reports for its run: the output state that the read
/// shows, else the error of the read.
pub open spec fn reading<E>(done: Seq<Exchange<E>>) -> Result<bool, Error<E>> {
    match done.last().outcome {
        Ok(_) => Ok(observed(done.last())),
        Err(e) => Err(Error::Comm(e)),
    }
}

/// Whether a reset of the chip at `address` can end with `error`: some run
/// of the reset plan stops at an exchange that failed with it.
pub open spec fn reset_fails_with<E>(address: u8, error: Error<E>) -> bool {
    exists|done: Seq<Exchange<E>>|
        #[trigger] follows(done, reset_plan(address)) && verdict(done) == Err::<(), Error<E>>(
            error,
        )
}

impl<I2C: I2cBus> TCA62724FMG<I2C> {
    /// The address the handle was made with.
    pub closed spec fn address(&self) -> u8 {
        self.address
    }

    /// Every exchange this handle has made on its bus, oldest first.
    pub closed spec fn history(&self) -> Seq<Exchange<I2C::Error>> {
        self.i2c_port.history()
    }

    /// Whether every exchange the handle has made was with the device at
    /// its address. A new handle starts out so, and every command keeps it
    /// so.
    pub open spec fn keeps_to_its_address(&self) -> bool {
        forall|i: int|
            0 <= i < self.history().len() ==> target((#[trigger] self.history()[i]).request)
                == self.address()
    }

    /// The exchanges made since the handle was in state `before`.
    pub open spec fn run_since(&self, before: &Self) -> Seq<Exchange<I2C::Error>> {
        added(before.history(), self.history())
    }

    /// What holds of the handle after a command that found it in state
    /// `before`: the address is the same, nothing of the history is lost,
    /// and the history has grown by a run of `plan`.
    pub open spec fn ran(&self, before: &Self, plan: Seq<Request>) -> bool {
        &&& self.address() == before.address()
        &&& before.keeps_to_its_address() ==> self.keeps_to_its_address()
        &&& continues(before.history(), self.history())
        &&& follows(self.run_since(before), plan)
    }

    /// Makes a handle for the chip at its factory address, 0x55, and resets
    /// the chip. The handle is returned only when the reset went through;
    /// otherwise the error of the transaction that failed is returned and
    /// the bus is dropped.
    pub fn default(i2c_port: I2C) -> (result: Result<Self, Error<I2C::Error>>)
        ensures
            match result {
                Ok(device) => {
                    &&& device.address() == DEFAULT_I2C_ADDRESS
                    &&& device.keeps_to_its_address()
                    &&& follows(device.history(), reset_plan(DEFAULT_I2C_ADDRESS))
                    &&& completed(device.history())
                },
                Err(error) => reset_fails_with(DEFAULT_I2C_ADDRESS, error),
            },
    {
        Self::new(i2c_port, DEFAULT_I2C_ADDRESS)
    }

    /// Makes a handle for the chip at `address` and resets the chip. The
    /// handle is returned only when the reset went through, so the history
    /// of a new handle is a reset in which every request succeeded;
    /// otherwise the error of the transaction that failed is returned and
    /// the bus is dropped.
    ///
    /// The address is not checked. It goes to the bus with every
    /// transaction as it was given.
    pub fn new(i2c_port: I2C, address: u8) -> (result: Result<Self, Error<I2C::Error>>)
        ensures
            match result {
                Ok(device) => {
                    &&& device.address() == address
                    &&& device.keeps_to_its_address()
                    &&& follows(device.history(), reset_plan(address))
                    &&& completed(device.history())
                },
                Err(error) => reset_fails_with(address, error),
            },
    {
        let mut inst = Self { i2c_port: Recorder::new(i2c_port), address };
        let outcome = inst.reset();
        assert(inst.history() =~= added(Seq::empty(), inst.history()));
        match outcome {
            Ok(()) => Ok(inst),
            Err(error) => Err(error),
        }
    }

    /// Brings the chip to a known state: dark and with the output off.
    ///
    /// Reads the state to see that the chip answers, turns the light output
    /// off and sets all channels to zero. Stops at the first transaction
    /// that fails and reports its error.
    pub fn reset(&mut self) -> (result: Result<(), Error<I2C::Error>>)
        ensures
            final(self).ran(old(self), reset_plan(old(self).address())),
            result == verdict(final(self).run_since(old(self))),
    {
        // see that the chip answers
        self.get_enabled()?;
        // output off; SHDN stays high
        self.set_enabled(false)?;
        self.set_white_brightness(BRIGHTNESS_OFF)
    }

    /// Sets white light: the three channels at one brightness. The
    /// `BRIGHTNESS_` constants are levels to pass here.
    ///
    /// Only the low four bits of `brightness` count; the high four are
    /// dropped, not refused.
    pub fn set_white_brightness(&mut self, brightness: u8) -> (result: Result<
        (),
        Error<I2C::Error>,
    >)
        ensures
            final(self).ran(
                old(self),
                color_plan(old(self).address(), brightness, brightness, brightness),
            ),
            result == verdict(final(self).run_since(old(self))),
    {
        let bright = BRIGHTNESS_MAX & brightness;
        assert(level(bright) == level(brightness)) by (bit_vector)
            requires
                bright == BRIGHTNESS_MAX & brightness,
        ;
        self.set_color_brightness(bright, bright, bright)
    }

    /// Sets the brightness of each channel on its own. The `BRIGHTNESS_`
    /// constants are levels to pass here.
    ///
    /// Only the low four bits of each value count; the high four are
    /// dropped, not refused. The three levels go out in one burst, blue
    /// first, then green, then red.
    pub fn set_color_brightness(&mut self, red: u8, green: u8, blue: u8) -> (result: Result<
        (),
        Error<I2C::Error>,
    >)
        ensures
            final(self).ran(old(self), color_plan(old(self).address(), red, green, blue)),
            result == verdict(final(self).run_since(old(self))),
    {
        // PWM0 with auto-increment on: one burst loads PWM0, PWM1 and PWM2
        let write_buf = encode_color(red, green, blue);
        let sent = self.i2c_port.write(self.address, &write_buf);
        match sent {
            Ok(()) => Ok(()),
            Err(e) => Err(Error::Comm(e)),
        }
    }

    /// Asks the chip whether its light output is enabled.
    ///
    /// Reads two bytes from the chip, each time anew. The output counts as
    /// enabled when SHDN and ENABLE are both high in the high nibble of the
    /// first byte.
    pub fn get_enabled(&mut self) -> (result: Result<bool, Error<I2C::Error>>)
        ensures
            final(self).ran(old(self), probe_plan(old(self).address())),
            result == reading(final(self).run_since(old(self))),
    {
        let mut read_buf = [0u8; 2];
        let fetched = self.i2c_port.read(self.address, &mut read_buf);
        match fetched {
            Ok(()) => Ok(decode_enabled(read_buf[0])),
            Err(e) => Err(Error::Comm(e)),
        }
    }

    /// Turns the light output on or off.
    ///
    /// Turning it on sets SHDN and ENABLE. Turning it off clears ENABLE and
    /// leaves SHDN high: the output goes dark and the chip stays out of
    /// power-saving mode. The brightness registers are not touched.
    pub fn set_enabled(&mut self, enable: bool) -> (result: Result<(), Error<I2C::Error>>)
        ensures
            final(self).ran(old(self), settings_plan(old(self).address(), enable)),
            result == verdict(final(self).run_since(old(self))),
    {
        let settings = encode_settings(enable);
        self.write_sub_address(SUBADDR_NAA_SETTINGS, settings)
    }

    /// Turns the light output off when it is on, and on when it is off. Call
    /// it in a loop to blink.
    ///
    /// The state is read and then written in two transactions. They are
    /// not atomic: a change made to the chip by another party between the
    /// two is overwritten.
    pub fn toggle(&mut self) -> (result: Result<(), Error<I2C::Error>>)
        ensures
            final(self).ran(
                old(self),
                toggle_plan(old(self).address(), observed(final(self).run_since(old(self)).first())),
            ),
            result == verdict(final(self).run_since(old(self))),
    {
        let enabled = self.get_enabled()?;
        self.set_enabled(!enabled)
    }

    /// Writes `val` to the register at sub-address `subaddr`.
    fn write_sub_address(&mut self, subaddr: u8, val: u8) -> (result: Result<
        (),
        Error<I2C::Error>,
    >)
        ensures
            final(self).ran(old(self), register_plan(old(self).address(), subaddr, val)),
            result == verdict(final(self).run_since(old(self))),
    {
        let write_buf = [subaddr, val];
        let sent = self.i2c_port.write(self.address, &write_buf);
        match sent {
            Ok(()) => Ok(()),
            Err(e) => Err(Error::Comm(e)),
        }
    }
}

} // verus!
