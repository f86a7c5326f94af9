//! Output channels and the selector nibble that names them on the wire.
use crate::error::Error;
use vstd::prelude::*;
use vstd::std_specs::convert::TryFromSpecImpl;

verus! {

/// Number of individually addressable output channels.
pub const CHANNEL_COUNT: u8 = 8;

/// The output channel a command applies to.
///
/// `All` is the broadcast selector. It has no index: it can only be named
/// directly, never reached by converting a number. The encoders accept it with
/// every command and pack its selector like any other, so a caller that wants
/// to keep it to the commands that act on all channels has to do so itself.
#[derive(Clone, Copy, Debug, PartialEq, Eq, Structural)]
pub enum Channel {
    /// Output channel A.
    A,
    /// Output channel B.
    B,
    /// Output channel C.
    C,
    /// Output channel D.
    D,
    /// Output channel E.
    E,
    /// Output channel F.
    F,
    /// Output channel G.
    G,
    /// Output channel H.
    H,
    /// Every output channel at once.
    All,
}

impl Channel {
    /// The selector nibble of each channel.
    pub open spec fn spec_selector(self) -> u8 {
        match self {
            Channel::A => 0x0,
            Channel::B => 0x1,
            Channel::C => 0x2,
            Channel::D => 0x3,
            Channel::E => 0x4,
            Channel::F => 0x5,
            Channel::G => 0x6,
            Channel::H => 0x7,
            Channel::All => 0xf,
        }
    }

    /// The channel a selector nibble names, if it names one.
    pub open spec fn of_selector(selector: u8) -> Option<Channel> {
        match selector {
            0x0 => Some(Channel::A),
            0x1 => Some(Channel::B),
            0x2 => Some(Channel::C),
            0x3 => Some(Channel::D),
            0x4 => Some(Channel::E),
            0x5 => Some(Channel::F),
            0x6 => Some(Channel::G),
            0x7 => Some(Channel::H),
            0xf => Some(Channel::All),
            _ => None,
        }
    }

    /// The single channel with the given index, if the index is below
    /// [`CHANNEL_COUNT`].
    pub open spec fn of_index(index: u8) -> Option<Channel> {
        if index < CHANNEL_COUNT {
            Channel::of_selector(index)
        } else {
            None
        }
    }

    /// The four-bit selector that names this channel in a command byte.
    #[verifier::when_used_as_spec(spec_selector)]
    pub fn selector(self) -> (nibble: u8)
        ensures
            nibble == self.spec_selector(),
            nibble <= 0x0f,
            Channel::of_selector(nibble) == Some(self),
    {
        match self {
            Channel::A => 0x0,
            Channel::B => 0x1,
            Channel::C => 0x2,
            Channel::D => 0x3,
            Channel::E => 0x4,
            Channel::F => 0x5,
            Channel::G => 0x6,
            Channel::H => 0x7,
            Channel::All => 0xf,
        }
    }
}

impl TryFrom<u8> for Channel {
    type Error = Error;

    /// Turns the index of a single channel, 0 for A up to 7 for H, into that
    /// channel. Every other number is refused and handed back in the error.
    fn try_from(index: u8) -> (converted: Result<Channel, Error>)
        ensures
            index < CHANNEL_COUNT <==> converted is Ok,
            converted matches Ok(channel) ==> channel.selector() == index && channel != Channel::All,
            converted matches Err(error) ==> error == Error::InvalidChannelIndex(index),
    {
        match index {
            0 => Ok(Channel::A),
            1 => Ok(Channel::B),
            2 => Ok(Channel::C),
            3 => Ok(Channel::D),
            4 => Ok(Channel::E),
            5 => Ok(Channel::F),
            6 => Ok(Channel::G),
            7 => Ok(Channel::H),
            _ => Err(Error::InvalidChannelIndex(index)),
        }
    }
}

impl TryFromSpecImpl<u8> for Channel {
    open spec fn obeys_try_from_spec() -> bool {
        true
    }

    open spec fn try_from_spec(index: u8) -> Result<Channel, Error> {
        match Channel::of_index(index) {
            Some(channel) => Ok(channel),
            None => Err(Error::InvalidChannelIndex(index)),
        }
    }
}

} // verus!
