use dac5578::frame::{
    decode, decode_response, encode_general_call, encode_read_command, encode_reset,
    encode_write_command, RESET_COMMAND,
};
use dac5578::{
    Address, Channel, DataResolution, Error, GeneralCall, ReadCommandType, ResetMode,
    WriteCommandType,
};

const CHANNELS: [Channel; 9] = [
    Channel::A,
    Channel::B,
    Channel::C,
    Channel::D,
    Channel::E,
    Channel::F,
    Channel::G,
    Channel::H,
    Channel::All,
];

const COMMANDS: [WriteCommandType; 4] = [
    WriteCommandType::WriteToChannel,
    WriteCommandType::UpdateChannel,
    WriteCommandType::WriteToChannelAndUpdate,
    WriteCommandType::WriteToChannelAndUpdateAll,
];

#[test]
fn address_of_each_pin_state() {
    assert_eq!(Address::PinLow.value(), 0x48);
    assert_eq!(Address::PinHigh.value(), 0x4a);
    assert_eq!(Address::PinFloat.value(), 0x4c);
}

#[test]
fn addresses_fit_in_seven_bits() {
    for address in [Address::PinLow, Address::PinHigh, Address::PinFloat] {
        assert!(address.value() < 0x80);
    }
}

#[test]
fn selector_of_each_channel() {
    let expected: [u8; 9] = [0, 1, 2, 3, 4, 5, 6, 7, 0x0f];
    for (channel, selector) in CHANNELS.iter().zip(expected.iter()) {
        assert_eq!(channel.selector(), *selector);
    }
}

#[test]
fn code_of_each_write_command() {
    assert_eq!(WriteCommandType::WriteToChannel.code(), 0x00);
    assert_eq!(WriteCommandType::UpdateChannel.code(), 0x10);
    assert_eq!(WriteCommandType::WriteToChannelAndUpdate.code(), 0x30);
    assert_eq!(WriteCommandType::WriteToChannelAndUpdateAll.code(), 0x20);
}

#[test]
fn code_of_the_read_command() {
    assert_eq!(ReadCommandType::ReadFromChannel.code(), 0x10);
}

#[test]
fn read_code_is_shared_with_update() {
    assert_eq!(ReadCommandType::ReadFromChannel.code(), WriteCommandType::UpdateChannel.code());
}

#[test]
fn bits_of_each_reset_mode() {
    assert_eq!(ResetMode::Por.bits(), 0b00);
    assert_eq!(ResetMode::SetHighSpeed.bits(), 0b01);
    assert_eq!(ResetMode::MaintainHighSpeed.bits(), 0b10);
}

#[test]
fn code_of_each_general_call() {
    assert_eq!(GeneralCall::WakeUp.code(), 0x06);
    assert_eq!(GeneralCall::Reset.code(), 0x09);
}

#[test]
fn channel_from_each_valid_index() {
    assert_eq!(Channel::try_from(0u8), Ok(Channel::A));
    assert_eq!(Channel::try_from(1u8), Ok(Channel::B));
    assert_eq!(Channel::try_from(2u8), Ok(Channel::C));
    assert_eq!(Channel::try_from(3u8), Ok(Channel::D));
    assert_eq!(Channel::try_from(4u8), Ok(Channel::E));
    assert_eq!(Channel::try_from(5u8), Ok(Channel::F));
    assert_eq!(Channel::try_from(6u8), Ok(Channel::G));
    assert_eq!(Channel::try_from(7u8), Ok(Channel::H));
}

#[test]
fn channel_from_index_nine_is_an_error() {
    assert_eq!(Channel::try_from(9u8), Err(Error::InvalidChannelIndex(9)));
}

#[test]
fn channel_from_index_eight_is_an_error() {
    assert_eq!(Channel::try_from(8u8), Err(Error::InvalidChannelIndex(8)));
}

#[test]
fn channel_from_the_broadcast_selector_is_an_error() {
    assert_eq!(Channel::try_from(0x0fu8), Err(Error::InvalidChannelIndex(0x0f)));
}

#[test]
fn channel_from_every_index() {
    for index in 0..=u8::MAX {
        match Channel::try_from(index) {
            Ok(channel) => {
                assert!(index < 8);
                assert_eq!(channel.selector(), index);
                assert_ne!(channel, Channel::All);
            }
            Err(error) => {
                assert!(index >= 8);
                assert_eq!(error, Error::InvalidChannelIndex(index));
            }
        }
    }
}

#[test]
fn reset_mode_from_each_defined_value() {
    assert_eq!(ResetMode::try_from(0b00u8), Ok(ResetMode::Por));
    assert_eq!(ResetMode::try_from(0b01u8), Ok(ResetMode::SetHighSpeed));
    assert_eq!(ResetMode::try_from(0b10u8), Ok(ResetMode::MaintainHighSpeed));
}

#[test]
fn reset_mode_from_the_reserved_value_is_an_error() {
    assert_eq!(ResetMode::try_from(0b11u8), Err(Error::InvalidResetMode(0b11)));
}

#[test]
fn reset_mode_from_every_value() {
    for bits in 0..=u8::MAX {
        match ResetMode::try_from(bits) {
            Ok(mode) => {
                assert!(bits <= 0b10);
                assert_eq!(mode.bits(), bits);
            }
            Err(error) => {
                assert!(bits > 0b10);
                assert_eq!(error, Error::InvalidResetMode(bits));
            }
        }
    }
}

#[test]
fn command_byte_of_every_command_and_channel() {
    for command in COMMANDS {
        for channel in CHANNELS {
            for resolution in [DataResolution::EightBit, DataResolution::SixteenBit] {
                let frame = encode_write_command(command, channel, 0xa5c3, resolution);
                assert_eq!(frame[0], command.code() | channel.selector());
                assert_eq!(frame[0] & 0xf0, command.code());
                assert_eq!(frame[0] & 0x0f, channel.selector());
            }
        }
    }
}

#[test]
fn command_byte_names_one_command_and_channel() {
    let mut seen: Vec<u8> = Vec::new();
    for command in COMMANDS {
        for channel in CHANNELS {
            let frame = encode_write_command(command, channel, 0, DataResolution::SixteenBit);
            assert!(!seen.contains(&frame[0]));
            seen.push(frame[0]);
        }
    }
    assert_eq!(seen.len(), 36);
}

#[test]
fn write_frame_at_sixteen_bits() {
    let frame = encode_write_command(
        WriteCommandType::WriteToChannelAndUpdate,
        Channel::F,
        0x1234,
        DataResolution::SixteenBit,
    );
    assert_eq!(frame, [0x35, 0x12, 0x34]);
}

#[test]
fn write_frame_at_eight_bits() {
    let frame = encode_write_command(
        WriteCommandType::UpdateChannel,
        Channel::H,
        0x7f,
        DataResolution::EightBit,
    );
    assert_eq!(frame, [0x17, 0x7f, 0x00]);
}

#[test]
fn write_frame_at_eight_bits_sends_the_low_byte_only() {
    let frame = encode_write_command(
        WriteCommandType::WriteToChannel,
        Channel::B,
        0x1234,
        DataResolution::EightBit,
    );
    assert_eq!(frame, [0x01, 0x34, 0x00]);
}

#[test]
fn write_frame_extremes() {
    let low = encode_write_command(
        WriteCommandType::WriteToChannel,
        Channel::A,
        0,
        DataResolution::SixteenBit,
    );
    assert_eq!(low, [0x00, 0x00, 0x00]);
    let high = encode_write_command(
        WriteCommandType::WriteToChannel,
        Channel::A,
        u16::MAX,
        DataResolution::SixteenBit,
    );
    assert_eq!(high, [0x00, 0xff, 0xff]);
    let narrow = encode_write_command(
        WriteCommandType::WriteToChannel,
        Channel::A,
        255,
        DataResolution::EightBit,
    );
    assert_eq!(narrow, [0x00, 0xff, 0x00]);
}

#[test]
fn broadcast_selector_is_taken_with_every_command() {
    let expected: [u8; 4] = [0x0f, 0x1f, 0x3f, 0x2f];
    for (command, first) in COMMANDS.iter().zip(expected.iter()) {
        let frame = encode_write_command(*command, Channel::All, 0x0102, DataResolution::SixteenBit);
        assert_eq!(frame, [*first, 0x01, 0x02]);
    }
}

#[test]
fn read_request_of_every_channel() {
    let expected: [u8; 9] = [0x10, 0x11, 0x12, 0x13, 0x14, 0x15, 0x16, 0x17, 0x1f];
    for (channel, byte) in CHANNELS.iter().zip(expected.iter()) {
        assert_eq!(encode_read_command(ReadCommandType::ReadFromChannel, *channel), [*byte]);
    }
}

#[test]
fn reset_frame_of_each_mode() {
    assert_eq!(RESET_COMMAND, 0x70);
    assert_eq!(encode_reset(ResetMode::Por), [0x70, 0x00, 0x00]);
    assert_eq!(encode_reset(ResetMode::SetHighSpeed), [0x70, 0x01, 0x00]);
    assert_eq!(encode_reset(ResetMode::MaintainHighSpeed), [0x70, 0x02, 0x00]);
}

#[test]
fn general_call_frames() {
    assert_eq!(encode_general_call(GeneralCall::WakeUp), [0x06]);
    assert_eq!(encode_general_call(GeneralCall::Reset), [0x09]);
}

#[test]
fn decode_is_big_endian() {
    assert_eq!(decode([0x12, 0x34]), 0x1234);
    assert_eq!(decode([0x00, 0x01]), 1);
    assert_eq!(decode([0x01, 0x00]), 256);
    assert_eq!(decode([0x00, 0x00]), 0);
    assert_eq!(decode([0xff, 0xff]), u16::MAX);
}

#[test]
fn decode_round_trip_of_every_value() {
    for value in 0..=u16::MAX {
        assert_eq!(decode(value.to_be_bytes()), value);
    }
}

#[test]
fn payload_round_trip_of_every_value() {
    for value in 0..=u16::MAX {
        let frame = encode_write_command(
            WriteCommandType::WriteToChannel,
            Channel::D,
            value,
            DataResolution::SixteenBit,
        );
        assert_eq!([frame[1], frame[2]], value.to_be_bytes());
        assert_eq!(decode([frame[1], frame[2]]), value);
    }
}

#[test]
fn eight_bit_payload_of_every_value() {
    for value in 0..=u16::MAX {
        let frame = encode_write_command(
            WriteCommandType::WriteToChannel,
            Channel::D,
            value,
            DataResolution::EightBit,
        );
        assert_eq!(frame[1], value.to_be_bytes()[1]);
        assert_eq!(frame[2], 0);
    }
}

#[test]
fn decode_response_of_received_bytes() {
    let outcome: Result<[u8; 2], &str> = Ok([0xab, 0xcd]);
    assert_eq!(decode_response(outcome), Ok(0xabcd));
}

#[test]
fn decode_response_hands_a_failure_through() {
    let outcome: Result<[u8; 2], &str> = Err("no acknowledge");
    assert_eq!(decode_response(outcome), Err("no acknowledge"));
    let numbered: Result<[u8; 2], (u8, u32)> = Err((3, 77));
    assert_eq!(decode_response(numbered), Err((3, 77)));
}
