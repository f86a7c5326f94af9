//! The byte frames of the device protocol: how each command is laid out on
//! the wire and how a read-back is turned into a value.
use crate::channel::Channel;
use crate::command::{DataResolution, GeneralCall, ReadCommandType, ResetMode, WriteCommandType};
use vstd::prelude::*;

verus! {

/// First byte of a software reset frame.
pub const RESET_COMMAND: u8 = 0x70;

/// The command byte: a command code, which fills the upper nibble, joined
/// with a channel selector, which fills the lower nibble.
///
/// The two never overlap, so their sum is their bitwise OR.
pub open spec fn command_byte(code: u8, selector: u8) -> u8
    recommends
        code % 16 == 0,
        selector < 16,
{
    (code + selector) as u8
}

/// A byte with a clear lower nibble and a byte with a clear upper nibble add
/// up to their bitwise OR, from which each is recovered by masking.
pub proof fn lemma_nibbles(code: u8, selector: u8)
    requires
        code % 16 == 0,
        selector < 16,
    ensures
        code | selector == code + selector,
        (code | selector) & 0xf0 == code,
        (code | selector) & 0x0f == selector,
{
    assert(code % 16 == 0 && selector < 16 ==> (code | selector) == code + selector && (code
        | selector) & 0xf0 == code && (code | selector) & 0x0f == selector) by (bit_vector);
}

/// The two bytes of a 16-bit value, most significant byte first.
pub open spec fn be_bytes(value: u16) -> Seq<u8> {
    seq![(value / 256) as u8, (value % 256) as u8]
}

/// The number that two bytes spell, most significant byte first.
pub open spec fn big_endian(bytes: Seq<u8>) -> int
    recommends
        bytes.len() == 2,
{
    bytes[0] * 256 + bytes[1]
}

/// The two-byte payload field that carries `value` at the given resolution.
///
/// At sixteen bits the field holds the value, high byte first. At eight bits
/// the first byte holds the low eight bits of the value and the second byte is
/// zero; higher bits of the value are not sent.
pub open spec fn payload(value: u16, resolution: DataResolution) -> Seq<u8> {
    match resolution {
        DataResolution::SixteenBit => be_bytes(value),
        DataResolution::EightBit => seq![(value % 256) as u8, 0u8],
    }
}

/// The three bytes of a write command.
pub open spec fn write_frame(
    command: WriteCommandType,
    channel: Channel,
    value: u16,
    resolution: DataResolution,
) -> Seq<u8> {
    seq![command_byte(command.code(), channel.selector())] + payload(value, resolution)
}

/// The single byte that asks for the value of a channel.
pub open spec fn read_request_frame(command: ReadCommandType, channel: Channel) -> Seq<u8> {
    seq![command_byte(command.code(), channel.selector())]
}

/// The three bytes of a software reset.
pub open spec fn reset_frame(mode: ResetMode) -> Seq<u8> {
    seq![RESET_COMMAND, mode.bits(), 0u8]
}

/// The single byte of a general call.
pub open spec fn general_call_frame(kind: GeneralCall) -> Seq<u8> {
    seq![kind.code()]
}

/// Joins a command code and a channel selector into a command byte.
fn join(code: u8, selector: u8) -> (byte: u8)
    requires
        code % 16 == 0,
        selector < 16,
    ensures
        byte == command_byte(code, selector),
{
    proof {
        lemma_nibbles(code, selector);
    }
    code | selector
}

/// Encodes a write command for one channel into its three-byte frame.
///
/// The broadcast selector [`Channel::All`] is accepted with every command.
pub fn encode_write_command(
    command: WriteCommandType,
    channel: Channel,
    value: u16,
    resolution: DataResolution,
) -> (frame: [u8; 3])
    ensures
        frame@ == write_frame(command, channel, value, resolution),
{
    let first: u8 = join(command.code(), channel.selector());
    match resolution {
        DataResolution::SixteenBit => [first, (value / 256) as u8, (value % 256) as u8],
        DataResolution::EightBit => [first, (value % 256) as u8, 0],
    }
}

/// Encodes the request for the value of a channel into its one-byte frame.
pub fn encode_read_command(command: ReadCommandType, channel: Channel) -> (frame: [u8; 1])
    ensures
        frame@ == read_request_frame(command, channel),
{
    [join(command.code(), channel.selector())]
}

/// Encodes a software reset into its three-byte frame.
pub fn encode_reset(mode: ResetMode) -> (frame: [u8; 3])
    ensures
        frame@ == reset_frame(mode),
{
    [RESET_COMMAND, mode.bits(), 0]
}

/// Encodes a general call into its one-byte frame.
pub fn encode_general_call(kind: GeneralCall) -> (frame: [u8; 1])
    ensures
        frame@ == general_call_frame(kind),
{
    [kind.code()]
}

/// Reads the two bytes of a read-back as a value, most significant byte first.
pub fn decode(bytes: [u8; 2]) -> (value: u16)
    ensures
        value == big_endian(bytes@),
{
    let high: u16 = bytes[0] as u16;
    let low: u16 = bytes[1] as u16;
    high * 256 + low
}

/// Turns the outcome of a read transaction into the outcome of the read.
///
/// Two received bytes become the value they spell. A bus failure is handed
/// back as it came, whatever its type.
pub fn decode_response<E>(outcome: Result<[u8; 2], E>) -> (value: Result<u16, E>)
    ensures
        outcome matches Ok(bytes) ==> value matches Ok(decoded) && decoded == big_endian(bytes@),
        outcome matches Err(failure) ==> value matches Err(passed) && passed == failure,
{
    match outcome {
        Ok(bytes) => Ok(decode(bytes)),
        Err(failure) => Err(failure),
    }
}

} // verus!
