//! Bus addresses selected by the ADDR0 pin.
use vstd::prelude::*;

verus! {

/// State of the ADDR0 pin, which selects the 7-bit bus address of the device.
#[derive(Clone, Copy, Debug, PartialEq, Eq, Structural)]
pub enum Address {
    /// ADDR0 is tied low.
    PinLow,
    /// ADDR0 is tied high.
    PinHigh,
    /// ADDR0 is left floating.
    PinFloat,
}

impl Address {
    /// The bus address that belongs to each pin state.
    pub open spec fn spec_value(self) -> u8 {
        match self {
            Address::PinLow => 0x48,
            Address::PinHigh => 0x4a,
            Address::PinFloat => 0x4c,
        }
    }

    /// The 7-bit bus address the device answers to.
    #[verifier::when_used_as_spec(spec_value)]
    pub fn value(self) -> (address: u8)
        ensures
            address == self.spec_value(),
            address < 0x80,
    {
        match self {
            Address::PinLow => 0x48,
            Address::PinHigh => 0x4a,
            Address::PinFloat => 0x4c,
        }
    }
}

} // verus!
