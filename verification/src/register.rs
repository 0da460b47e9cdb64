use vstd::prelude::*;

verus! {

/// The named registers of the sensor's register space that this driver
/// touches through the register-address byte of a bus transaction.
#[allow(non_camel_case_types)]
#[derive(Clone, Copy)]
pub enum Register {
    /// Identity register holding the fixed chip-id byte.
    ID,
    /// First byte of the factory calibration block.
    CALIB,
    /// First byte of the three-byte raw temperature reading.
    TEMPERATURE,
}

impl Register {
    /// The fixed one-byte address of each register on the device.
    pub open spec fn spec_addr(self) -> u8 {
        match self {
            Register::ID => 0xD0,
            Register::CALIB => 0x88,
            Register::TEMPERATURE => 0xFA,
        }
    }

    /// Address lookup: pure and total, returns exactly the table value.
    pub fn addr(&self) -> (a: u8)
        ensures
            a == self.spec_addr(),
    {
        match self {
            Register::ID => 0xD0,
            Register::CALIB => 0x88,
            Register::TEMPERATURE => 0xFA,
        }
    }
}

} // verus!
