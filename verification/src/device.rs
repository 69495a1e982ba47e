//! The handle for one sensor on one bus.

use vstd::prelude::*;
use crate::command::Command;
use crate::config::{timing_byte, Gain, IntegrationTime};
use crate::register::Register;
use crate::transfer::{Write, WriteRead};

verus! {

/// One sensor, known by the bus address it answers to.
///
/// The handle keeps nothing but that address, which is set when the handle is
/// made and never changes. It holds no copy of any register: the sensor alone
/// knows its power state, its settings and its readings.
///
/// Each operation yields the one transfer that carries it out. Nothing
/// reaches the sensor until the caller performs that transfer.
pub struct Tsl2561 {
    address: u8,
}

impl Tsl2561 {
    /// The bus address every transfer of this handle goes to.
    pub closed spec fn spec_address(&self) -> u8 {
        self.address
    }

    /// A handle for the sensor at `address`.
    ///
    /// Making a handle sends nothing and so cannot fail. In particular it does
    /// not power the sensor up: that takes the transfer of `power_on`.
    pub fn new(address: u8) -> (device: Self)
        ensures
            device.address() == address,
    {
        Tsl2561 { address }
    }

    /// The bus address every transfer of this handle goes to.
    #[verifier::when_used_as_spec(spec_address)]
    pub fn address(&self) -> (address: u8)
        ensures
            address == self.spec_address(),
    {
        self.address
    }

    /// Powers the sensor up: writes 0x03 to the control register.
    ///
    /// The sensor then starts integrating from zero. A reading means
    /// something only after one full integration time has passed (402 ms
    /// unless configured otherwise); waiting that long is up to the caller.
    pub fn power_on(&self) -> (request: Write)
        ensures
            request.address == self.address(),
            request.bytes@ == seq![0x80u8, 0x03u8],
    {
        let command: u8 = Command::new(Register::CONTROL).value();
        Write { address: self.address, bytes: [command, 0x03] }
    }

    /// Powers the sensor down: writes 0x00 to the control register.
    ///
    /// The sensor resets its readings and its settings when it powers down.
    pub fn power_off(&self) -> (request: Write)
        ensures
            request.address == self.address(),
            request.bytes@ == seq![0x80u8, 0x00u8],
    {
        let command: u8 = Command::new(Register::CONTROL).value();
        Write { address: self.address, bytes: [command, 0x00] }
    }

    /// Reads the raw count of channel 0, which sees visible and infrared
    /// light: a word read that starts at the channel's low register.
    pub fn visible_and_ir_raw(&self) -> (request: WriteRead)
        ensures
            request.address == self.address(),
            request.bytes@ == seq![0xACu8],
            request.read_len == 2,
    {
        let command: u8 = Command::new(Register::DATA0LOW).enable_word_protocol().value();
        WriteRead { address: self.address, bytes: [command], read_len: 2 }
    }

    /// Reads the raw count of channel 1, which sees infrared light only: a
    /// word read that starts at the channel's low register.
    pub fn ir_raw(&self) -> (request: WriteRead)
        ensures
            request.address == self.address(),
            request.bytes@ == seq![0xAEu8],
            request.read_len == 2,
    {
        let command: u8 = Command::new(Register::DATA1LOW).enable_word_protocol().value();
        WriteRead { address: self.address, bytes: [command], read_len: 2 }
    }

    /// Sets integration time and gain together: writes their byte to the
    /// timing register, replacing whatever was there.
    ///
    /// The sensor applies the new settings from its next integration cycle
    /// on.
    pub fn config_time_gain(&self, integration_time: IntegrationTime, gain: Gain) -> (request:
        Write)
        ensures
            request.address == self.address(),
            request.bytes@ == seq![0x81u8, timing_byte(integration_time, gain)],
    {
        let command: u8 = Command::new(Register::TIMING).value();
        let setting: u8 = timing_byte(integration_time, gain);
        Write { address: self.address, bytes: [command, setting] }
    }
}

} // verus!
