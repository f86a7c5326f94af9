//! Errors raised when a raw number does not name a protocol value.
use vstd::prelude::*;

verus! {

/// A raw number that could not be turned into a protocol value.
///
/// Bus failures are not part of this type: they belong to the bus
/// implementation and are handed through unchanged wherever they occur.
#[derive(Clone, Copy, Debug, PartialEq, Eq, Structural)]
pub enum Error {
    /// The number is not the index of one of the eight output channels.
    InvalidChannelIndex(u8),
    /// The number is not one of the defined two-bit reset modes.
    InvalidResetMode(u8),
}

} // verus!
