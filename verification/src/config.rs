//! The choices a caller makes: which bus address the sensor answers to, how
//! long it integrates, and with what gain.

use vstd::prelude::*;

verus! {

/// The bus addresses the sensor can be strapped to.
#[allow(non_camel_case_types)]
#[derive(Copy, Clone, PartialEq, Eq, Structural, Debug)]
pub enum SlaveAddr {
    /// Address pin left floating: the default.
    ADDR_0x39,
    /// Address pin tied to ground.
    ADDR_0x29,
    /// Address pin tied to the supply.
    ADDR_0x49,
}

impl SlaveAddr {
    /// The 7-bit bus address.
    pub open spec fn spec_addr(&self) -> u8 {
        match *self {
            SlaveAddr::ADDR_0x39 => 0x39,
            SlaveAddr::ADDR_0x29 => 0x29,
            SlaveAddr::ADDR_0x49 => 0x49,
        }
    }

    /// The 7-bit bus address.
    #[verifier::when_used_as_spec(spec_addr)]
    pub fn addr(&self) -> (a: u8)
        ensures
            a == self.spec_addr(),
            a < 0x80,
    {
        match *self {
            SlaveAddr::ADDR_0x39 => 0x39,
            SlaveAddr::ADDR_0x29 => 0x29,
            SlaveAddr::ADDR_0x49 => 0x49,
        }
    }
}

impl Default for SlaveAddr {
    fn default() -> (address: Self)
        ensures
            address == SlaveAddr::ADDR_0x39,
    {
        SlaveAddr::ADDR_0x39
    }
}

/// How long the sensor accumulates light for one reading.
#[allow(non_camel_case_types)]
#[derive(Copy, Clone, PartialEq, Eq, Structural, Debug)]
pub enum IntegrationTime {
    /// 13.7 milliseconds.
    ms_13,
    /// 101 milliseconds.
    ms_101,
    /// 402 milliseconds: what the sensor uses after power-up.
    ms_402,
}

impl IntegrationTime {
    /// The setting's code: a 2-bit number.
    pub open spec fn spec_bits(&self) -> u8 {
        match *self {
            IntegrationTime::ms_13 => 0,
            IntegrationTime::ms_101 => 1,
            IntegrationTime::ms_402 => 2,
        }
    }

    /// The setting's code in the timing register.
    #[verifier::when_used_as_spec(spec_bits)]
    pub fn bits(&self) -> (code: u8)
        ensures
            code == self.spec_bits(),
            code <= 2,
    {
        match *self {
            IntegrationTime::ms_13 => 0,
            IntegrationTime::ms_101 => 1,
            IntegrationTime::ms_402 => 2,
        }
    }
}

/// The analog gain applied to both channels.
#[derive(Copy, Clone, PartialEq, Eq, Structural, Debug)]
pub enum Gain {
    /// 1x: what the sensor uses after power-up.
    Low,
    /// 16x.
    High,
}

impl Gain {
    /// The setting's code: a single bit.
    pub open spec fn spec_bits(&self) -> u8 {
        match *self {
            Gain::Low => 0,
            Gain::High => 1,
        }
    }

    /// The setting's code in the timing register.
    #[verifier::when_used_as_spec(spec_bits)]
    pub fn bits(&self) -> (code: u8)
        ensures
            code == self.spec_bits(),
            code <= 1,
    {
        match *self {
            Gain::Low => 0,
            Gain::High => 1,
        }
    }
}

/// The timing register's content for a pair of settings, as a number: the
/// integration time's code plus sixteen times the gain's.
pub open spec fn spec_timing_byte(integration_time: IntegrationTime, gain: Gain) -> u8 {
    (16 * gain.bits() + integration_time.bits()) as u8
}

/// Packs both settings into the one byte of the timing register: the
/// integration time in bits 0 and 1, the gain in bit 4, every other bit clear.
#[verifier::when_used_as_spec(spec_timing_byte)]
pub fn timing_byte(integration_time: IntegrationTime, gain: Gain) -> (byte: u8)
    ensures
        byte == spec_timing_byte(integration_time, gain),
{
    let time: u8 = integration_time.bits();
    let gain: u8 = gain.bits();
    let byte: u8 = time | (gain << 4);
    assert(byte == 16 * gain + time) by (bit_vector)
        requires
            byte == time | (gain << 4),
            time <= 2,
            gain <= 1,
    ;
    byte
}

/// Where each setting sits in the timing byte: the integration time in bits 0
/// and 1, the gain in bit 4, and nothing anywhere else.
pub proof fn lemma_timing_byte_layout(integration_time: IntegrationTime, gain: Gain)
    ensures
        timing_byte(integration_time, gain) & 0x03 == integration_time.bits(),
        (timing_byte(integration_time, gain) & 0x10 == 0x10) == (gain == Gain::High),
        timing_byte(integration_time, gain) & 0xEC == 0,
{
    let byte: u8 = timing_byte(integration_time, gain);
    let time: u8 = integration_time.bits();
    let high: u8 = gain.bits();
    assert(byte & 0x03 == time && (byte & 0x10 == 0x10) == (high == 1) && byte & 0xEC == 0)
        by (bit_vector)
        requires
            byte == 16 * high + time,
            time <= 2,
            high <= 1,
    ;
}

/// Both settings can be read back from the timing byte: two pairs of settings
/// with the same byte are the same pair.
pub proof fn lemma_timing_byte_injective(
    time_a: IntegrationTime,
    gain_a: Gain,
    time_b: IntegrationTime,
    gain_b: Gain,
)
    requires
        timing_byte(time_a, gain_a) == timing_byte(time_b, gain_b),
    ensures
        time_a == time_b,
        gain_a == gain_b,
{
}

} // verus!
