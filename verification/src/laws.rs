//! What holds of the protocol for every input, proved once and for all.
use crate::channel::Channel;
use crate::command::{DataResolution, GeneralCall, ReadCommandType, ResetMode, WriteCommandType};
use crate::driver::{general_call_transfer, DAC5578};
use crate::frame::{
    be_bytes, big_endian, command_byte, lemma_nibbles, payload, read_request_frame, reset_frame,
    write_frame,
};
use vstd::prelude::*;

verus! {

/// The first byte of every write frame is the bitwise OR of the command code
/// and the channel selector. Its upper nibble is the code and its lower nibble
/// is the selector, so the byte names exactly the command and the channel it
/// was made from.
pub proof fn lemma_write_command_byte(
    command: WriteCommandType,
    channel: Channel,
    value: u16,
    resolution: DataResolution,
)
    ensures
        write_frame(command, channel, value, resolution).len() == 3,
        write_frame(command, channel, value, resolution)[0] == command.code() | channel.selector(),
        write_frame(command, channel, value, resolution)[0] & 0xf0 == command.code(),
        write_frame(command, channel, value, resolution)[0] & 0x0f == channel.selector(),
        WriteCommandType::of_code(write_frame(command, channel, value, resolution)[0] & 0xf0)
            == Some(command),
        Channel::of_selector(write_frame(command, channel, value, resolution)[0] & 0x0f) == Some(
            channel,
        ),
{
    lemma_nibbles(command.code(), channel.selector());
}

/// Two write frames that start with the same byte were made for the same
/// command and the same channel.
pub proof fn lemma_write_command_byte_unique(
    command: WriteCommandType,
    channel: Channel,
    other_command: WriteCommandType,
    other_channel: Channel,
)
    requires
        command_byte(command.code(), channel.selector()) == command_byte(
            other_command.code(),
            other_channel.selector(),
        ),
    ensures
        command == other_command,
        channel == other_channel,
{
}

/// The single byte of every read request is the bitwise OR of the command
/// code and the channel selector. Its upper nibble is the code and its lower
/// nibble is the selector, which names exactly the channel asked for.
pub proof fn lemma_read_command_byte(command: ReadCommandType, channel: Channel)
    ensures
        read_request_frame(command, channel).len() == 1,
        read_request_frame(command, channel)[0] == command.code() | channel.selector(),
        read_request_frame(command, channel)[0] & 0xf0 == command.code(),
        read_request_frame(command, channel)[0] & 0x0f == channel.selector(),
        Channel::of_selector(read_request_frame(command, channel)[0] & 0x0f) == Some(channel),
{
    lemma_nibbles(command.code(), channel.selector());
}

/// A read request and an update of the same channel start with the same
/// byte. They are told apart by the direction of the transaction alone: the
/// read request reads two bytes back, the update none.
pub proof fn lemma_read_and_update_differ_by_direction<I2C>(
    dac: DAC5578<I2C>,
    channel: Channel,
    data: u16,
)
    ensures
        dac.read_transfer(channel).outgoing[0] == dac.write_transfer(
            WriteCommandType::UpdateChannel,
            channel,
            data,
        ).outgoing[0],
        dac.read_transfer(channel).address == dac.write_transfer(
            WriteCommandType::UpdateChannel,
            channel,
            data,
        ).address,
        dac.read_transfer(channel).incoming == 2,
        dac.write_transfer(WriteCommandType::UpdateChannel, channel, data).incoming == 0,
{
}

/// Decoding undoes encoding: the two bytes of any 16-bit value, most
/// significant first, spell that value again.
pub proof fn lemma_decode_round_trip(value: u16)
    ensures
        be_bytes(value).len() == 2,
        big_endian(be_bytes(value)) == value,
{
}

/// Encoding undoes decoding: the value that two bytes spell is laid out as
/// those two bytes again.
pub proof fn lemma_encode_round_trip(bytes: Seq<u8>)
    requires
        bytes.len() == 2,
    ensures
        0 <= big_endian(bytes) <= u16::MAX,
        be_bytes(big_endian(bytes) as u16) == bytes,
{
    assert(be_bytes(big_endian(bytes) as u16) =~= bytes);
}

/// At sixteen bits the payload field of a write frame, read back as a
/// response would be, gives the value that was written.
pub proof fn lemma_payload_round_trip(command: WriteCommandType, channel: Channel, value: u16)
    ensures
        big_endian(
            write_frame(command, channel, value, DataResolution::SixteenBit).subrange(1, 3),
        ) == value,
{
    assert(write_frame(command, channel, value, DataResolution::SixteenBit).subrange(1, 3)
        =~= be_bytes(value));
}

/// At eight bits the payload field carries the low eight bits of the value in
/// its first byte and nothing else: it is the sixteen-bit payload of that byte
/// moved to the high position.
pub proof fn lemma_eight_bit_payload(value: u16)
    ensures
        payload(value, DataResolution::EightBit).len() == 2,
        payload(value, DataResolution::EightBit)[0] == value % 256,
        payload(value, DataResolution::EightBit)[1] == 0,
        value < 256 ==> payload(value, DataResolution::EightBit)[0] == value,
        payload(value, DataResolution::EightBit) == payload(
            ((value % 256) * 256) as u16,
            DataResolution::SixteenBit,
        ),
{
    assert(payload(value, DataResolution::EightBit) =~= payload(
        ((value % 256) * 256) as u16,
        DataResolution::SixteenBit,
    ));
}

/// The broadcast selector is `0xf`. No index converts to it, and the encoder
/// takes it with every command: the frame then carries the command code in
/// the upper nibble and `0xf` in the lower.
pub proof fn lemma_broadcast_selector(
    command: WriteCommandType,
    value: u16,
    resolution: DataResolution,
)
    ensures
        Channel::All.selector() == 0x0f,
        forall|index: u8| Channel::of_index(index) != Some(Channel::All),
        forall|channel: Channel| channel.selector() == 0x0f ==> channel == Channel::All,
        write_frame(command, Channel::All, value, resolution)[0] == command.code() | 0x0f,
        write_frame(command, Channel::All, value, resolution)[0] & 0x0f == 0x0f,
{
    lemma_nibbles(command.code(), Channel::All.selector());
}

/// A general call targets the reserved address `0x00` with its single byte,
/// whatever driver issues it: the address the driver was made for plays no
/// part and is never the target.
pub proof fn lemma_general_call_target<I2C>(dac: DAC5578<I2C>, kind: GeneralCall)
    ensures
        general_call_transfer(kind).address == 0x00,
        general_call_transfer(kind).address != dac.address().value(),
        general_call_transfer(kind).outgoing == seq![kind.code()],
        general_call_transfer(kind).incoming == 0,
{
}

/// A reset frame is `0x70`, the flag value of the mode, and zero. The three
/// modes have the flag values 0, 1 and 2, each its own, and the reserved value
/// `0b11` names no mode.
pub proof fn lemma_reset_modes(mode: ResetMode, other: ResetMode)
    ensures
        reset_frame(mode) == seq![0x70u8, mode.bits(), 0x00u8],
        mode.bits() <= 0b10,
        ResetMode::of_bits(mode.bits()) == Some(mode),
        mode.bits() == other.bits() ==> mode == other,
        ResetMode::of_bits(0b11) is None,
        forall|bits: u8| bits > 0b10 ==> ResetMode::of_bits(bits) is None,
{
}

} // verus!
