//! The sensor's register map and the command byte that opens every transfer.

use vstd::prelude::*;

verus! {

/// The registers of the sensor.
#[allow(non_camel_case_types)]
#[derive(Copy, Clone, PartialEq, Eq, Structural, Debug)]
pub enum Register {
    /// Power control.
    CONTROL,
    /// Integration time and gain.
    TIMING,
    /// Low byte of the lower interrupt threshold.
    THRESHLOWLOW,
    /// High byte of the lower interrupt threshold.
    THRESHLOWHIGH,
    /// Low byte of the upper interrupt threshold.
    THRESHHIGHLOW,
    /// High byte of the upper interrupt threshold.
    THRESHHIGHHIGH,
    /// Interrupt control.
    INTERRUPT,
    /// Factory test.
    CRC,
    /// Part number and revision.
    ID,
    /// Low byte of channel 0 (visible and infrared).
    DATA0LOW,
    /// High byte of channel 0 (visible and infrared).
    DATA0HIGH,
    /// Low byte of channel 1 (infrared only).
    DATA1LOW,
    /// High byte of channel 1 (infrared only).
    DATA1HIGH,
}

impl Register {
    /// The register's address on the device: a 4-bit number.
    pub open spec fn spec_addr(&self) -> u8 {
        match *self {
            Register::CONTROL => 0x0,
            Register::TIMING => 0x1,
            Register::THRESHLOWLOW => 0x2,
            Register::THRESHLOWHIGH => 0x3,
            Register::THRESHHIGHLOW => 0x4,
            Register::THRESHHIGHHIGH => 0x5,
            Register::INTERRUPT => 0x6,
            Register::CRC => 0x8,
            Register::ID => 0xA,
            Register::DATA0LOW => 0xC,
            Register::DATA0HIGH => 0xD,
            Register::DATA1LOW => 0xE,
            Register::DATA1HIGH => 0xF,
        }
    }

    /// The register's address on the device.
    #[verifier::when_used_as_spec(spec_addr)]
    pub fn addr(&self) -> (a: u8)
        ensures
            a == self.spec_addr(),
            a <= 0x0F,
    {
        match *self {
            Register::CONTROL => 0x0,
            Register::TIMING => 0x1,
            Register::THRESHLOWLOW => 0x2,
            Register::THRESHLOWHIGH => 0x3,
            Register::THRESHHIGHLOW => 0x4,
            Register::THRESHHIGHHIGH => 0x5,
            Register::INTERRUPT => 0x6,
            Register::CRC => 0x8,
            Register::ID => 0xA,
            Register::DATA0LOW => 0xC,
            Register::DATA0HIGH => 0xD,
            Register::DATA1LOW => 0xE,
            Register::DATA1HIGH => 0xF,
        }
    }
}

/// No two registers share an address.
pub proof fn lemma_addr_injective(a: Register, b: Register)
    requires
        a.addr() == b.addr(),
    ensures
        a == b,
{
}

} // verus!
