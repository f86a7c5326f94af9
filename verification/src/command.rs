//! The enumerated protocol values and the byte each one stands for.
use crate::error::Error;
use vstd::prelude::*;
use vstd::std_specs::convert::TryFromSpecImpl;

verus! {

/// The kind of write command, carried in the upper nibble of the command byte.
#[derive(Clone, Copy, Debug, PartialEq, Eq, Structural)]
pub enum WriteCommandType {
    /// Write to the input register of a channel.
    WriteToChannel,
    /// Copy the input register of a channel to its output register.
    UpdateChannel,
    /// Write to the input register of a channel and update its output register.
    WriteToChannelAndUpdate,
    /// Write to the input register of a channel and update every output
    /// register (global software LDAC).
    WriteToChannelAndUpdateAll,
}

impl WriteCommandType {
    /// The command code of each kind of write.
    pub open spec fn spec_code(self) -> u8 {
        match self {
            WriteCommandType::WriteToChannel => 0x00,
            WriteCommandType::UpdateChannel => 0x10,
            WriteCommandType::WriteToChannelAndUpdate => 0x30,
            WriteCommandType::WriteToChannelAndUpdateAll => 0x20,
        }
    }

    /// The kind of write a command code names, if it names one.
    pub open spec fn of_code(code: u8) -> Option<WriteCommandType> {
        match code {
            0x00 => Some(WriteCommandType::WriteToChannel),
            0x10 => Some(WriteCommandType::UpdateChannel),
            0x30 => Some(WriteCommandType::WriteToChannelAndUpdate),
            0x20 => Some(WriteCommandType::WriteToChannelAndUpdateAll),
            _ => None,
        }
    }

    /// The command code, with the lower nibble left clear for the selector.
    #[verifier::when_used_as_spec(spec_code)]
    pub fn code(self) -> (code: u8)
        ensures
            code == self.spec_code(),
            code % 16 == 0,
            WriteCommandType::of_code(code) == Some(self),
    {
        match self {
            WriteCommandType::WriteToChannel => 0x00,
            WriteCommandType::UpdateChannel => 0x10,
            WriteCommandType::WriteToChannelAndUpdate => 0x30,
            WriteCommandType::WriteToChannelAndUpdateAll => 0x20,
        }
    }
}

/// The kind of read command, carried in the upper nibble of the request byte.
///
/// The code of `ReadFromChannel` is also the code of
/// [`WriteCommandType::UpdateChannel`]: on the wire the two are told apart by
/// the direction of the transaction, never by the byte.
#[derive(Clone, Copy, Debug, PartialEq, Eq, Structural)]
pub enum ReadCommandType {
    /// Read the output register of a channel (not its input register).
    ReadFromChannel,
}

impl ReadCommandType {
    /// The command code of each kind of read.
    pub open spec fn spec_code(self) -> u8 {
        match self {
            ReadCommandType::ReadFromChannel => 0x10,
        }
    }

    /// The command code, with the lower nibble left clear for the selector.
    #[verifier::when_used_as_spec(spec_code)]
    pub fn code(self) -> (code: u8)
        ensures
            code == self.spec_code(),
            code % 16 == 0,
    {
        match self {
            ReadCommandType::ReadFromChannel => 0x10,
        }
    }
}

/// The two-bit flag that selects how a software reset treats high-speed mode.
#[derive(Clone, Copy, Debug, PartialEq, Eq, Structural)]
pub enum ResetMode {
    /// Reset as at power-on.
    Por,
    /// Reset and enter high-speed mode.
    SetHighSpeed,
    /// Reset and keep the current high-speed mode state.
    MaintainHighSpeed,
}

impl ResetMode {
    /// The flag value of each mode.
    pub open spec fn spec_bits(self) -> u8 {
        match self {
            ResetMode::Por => 0b00,
            ResetMode::SetHighSpeed => 0b01,
            ResetMode::MaintainHighSpeed => 0b10,
        }
    }

    /// The mode a flag value names, if it names one.
    pub open spec fn of_bits(bits: u8) -> Option<ResetMode> {
        match bits {
            0b00 => Some(ResetMode::Por),
            0b01 => Some(ResetMode::SetHighSpeed),
            0b10 => Some(ResetMode::MaintainHighSpeed),
            _ => None,
        }
    }

    /// The flag value sent in the second byte of a reset frame.
    #[verifier::when_used_as_spec(spec_bits)]
    pub fn bits(self) -> (bits: u8)
        ensures
            bits == self.spec_bits(),
            bits <= 0b10,
            ResetMode::of_bits(bits) == Some(self),
    {
        match self {
            ResetMode::Por => 0b00,
            ResetMode::SetHighSpeed => 0b01,
            ResetMode::MaintainHighSpeed => 0b10,
        }
    }
}

impl TryFrom<u8> for ResetMode {
    type Error = Error;

    /// Turns a flag value into the mode it names. The reserved value `0b11`
    /// and every number that does not fit in two bits are refused and handed
    /// back in the error.
    fn try_from(bits: u8) -> (converted: Result<ResetMode, Error>)
        ensures
            bits <= 0b10 <==> converted is Ok,
            converted matches Ok(mode) ==> mode.bits() == bits,
            converted matches Err(error) ==> error == Error::InvalidResetMode(bits),
    {
        match bits {
            0b00 => Ok(ResetMode::Por),
            0b01 => Ok(ResetMode::SetHighSpeed),
            0b10 => Ok(ResetMode::MaintainHighSpeed),
            _ => Err(Error::InvalidResetMode(bits)),
        }
    }
}

impl TryFromSpecImpl<u8> for ResetMode {
    open spec fn obeys_try_from_spec() -> bool {
        true
    }

    open spec fn try_from_spec(bits: u8) -> Result<ResetMode, Error> {
        match ResetMode::of_bits(bits) {
            Some(mode) => Ok(mode),
            None => Err(Error::InvalidResetMode(bits)),
        }
    }
}

/// A command addressed to every device on the bus at once.
#[derive(Clone, Copy, Debug, PartialEq, Eq, Structural)]
pub enum GeneralCall {
    /// Wake every device from power-down.
    WakeUp,
    /// Reset every device.
    Reset,
}

impl GeneralCall {
    /// The byte of each general call.
    pub open spec fn spec_code(self) -> u8 {
        match self {
            GeneralCall::WakeUp => 0x06,
            GeneralCall::Reset => 0x09,
        }
    }

    /// The single byte sent for this general call.
    #[verifier::when_used_as_spec(spec_code)]
    pub fn code(self) -> (code: u8)
        ensures
            code == self.spec_code(),
    {
        match self {
            GeneralCall::WakeUp => 0x06,
            GeneralCall::Reset => 0x09,
        }
    }
}

/// Width of the value that is sent to a device variant.
///
/// The payload field of a write command is always two bytes long. The
/// resolution, chosen once when the driver is made, decides how a value fills
/// it.
#[derive(Clone, Copy, Debug, PartialEq, Eq, Structural)]
pub enum DataResolution {
    /// The value is one byte: it fills the first payload byte and the second
    /// is zero. This is the layout for the DAC5578 itself, which converts
    /// eight bits.
    EightBit,
    /// The value is two bytes: it fills the payload field, high byte first.
    /// This is the layout for the variants that convert more than eight bits
    /// (the ten-bit DAC6578 and the twelve-bit DAC7578). The value is sent as
    /// it is given, so the caller aligns it as the device expects.
    SixteenBit,
}

} // verus!
