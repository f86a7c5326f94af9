//! The driver: the public operations of the device, each one bus transaction.
use crate::address::Address;
use crate::channel::Channel;
use crate::command::{DataResolution, GeneralCall, ReadCommandType, ResetMode, WriteCommandType};
use crate::frame::{
    encode_general_call, encode_read_command, encode_reset, encode_write_command,
    general_call_frame, read_request_frame, reset_frame, write_frame,
};
use crate::transaction::{Transaction, Transfer, GENERAL_CALL_ADDRESS, RESPONSE_LEN};
use vstd::prelude::*;

verus! {

/// What a general call of the given kind does on the bus: the single byte
/// goes to the reserved address and nothing is read back. No driver and no
/// device address has a part in it.
pub open spec fn general_call_transfer(kind: GeneralCall) -> Transfer {
    Transfer { address: GENERAL_CALL_ADDRESS, outgoing: general_call_frame(kind), incoming: 0 }
}

/// Driver for one DAC5578 on an I2C bus.
///
/// The driver owns the handle of the bus from [`new`](DAC5578::new) until
/// [`destroy`](DAC5578::destroy) gives it back, together with the bus address
/// and the data resolution of the device, which never change. It asks nothing
/// of the handle's type and never runs a transaction itself: each operation
/// yields the one [`Transaction`] that has to be run on the bus, and
/// [`i2c`](DAC5578::i2c) lends the handle out to run it.
///
/// Every operation that takes a channel accepts the broadcast selector
/// [`Channel::All`] and sends it as it is.
#[derive(Debug)]
pub struct DAC5578<I2C> {
    i2c: I2C,
    address: Address,
    resolution: DataResolution,
}

impl<I2C> DAC5578<I2C> {
    /// The bus handle the driver owns.
    pub closed spec fn bus(&self) -> I2C {
        self.i2c
    }

    /// The pin state that selects the bus address of the device.
    pub closed spec fn address(&self) -> Address {
        self.address
    }

    /// The data resolution of the device.
    pub closed spec fn resolution(&self) -> DataResolution {
        self.resolution
    }

    /// What a write of `command` for `channel` and `data` does on the bus:
    /// the frame goes to this device and nothing is read back.
    pub open spec fn write_transfer(
        &self,
        command: WriteCommandType,
        channel: Channel,
        data: u16,
    ) -> Transfer {
        Transfer {
            address: self.address().value(),
            outgoing: write_frame(command, channel, data, self.resolution()),
            incoming: 0,
        }
    }

    /// What a read of `channel` does on the bus: the request goes to this
    /// device and two bytes are read back.
    pub open spec fn read_transfer(&self, channel: Channel) -> Transfer {
        Transfer {
            address: self.address().value(),
            outgoing: read_request_frame(ReadCommandType::ReadFromChannel, channel),
            incoming: RESPONSE_LEN as nat,
        }
    }

    /// What a software reset in the given mode does on the bus: the frame
    /// goes to this device and nothing is read back.
    pub open spec fn reset_transfer(&self, mode: ResetMode) -> Transfer {
        Transfer { address: self.address().value(), outgoing: reset_frame(mode), incoming: 0 }
    }

    /// Makes a driver for the device that answers at `address` and converts
    /// values of the given resolution. `i2c` is the handle of the bus the
    /// device sits on.
    pub fn new(i2c: I2C, address: Address, resolution: DataResolution) -> (dac: Self)
        ensures
            dac.bus() == i2c,
            dac.address() == address,
            dac.resolution() == resolution,
    {
        DAC5578 { i2c, address, resolution }
    }

    /// Lends out the bus handle, to run a transaction on it. The address and
    /// the resolution of the driver stay as they are.
    pub fn i2c(&mut self) -> (i2c: &mut I2C)
        ensures
            *i2c == old(self).bus(),
            final(self).bus() == *final(i2c),
            final(self).address() == old(self).address(),
            final(self).resolution() == old(self).resolution(),
    {
        &mut self.i2c
    }

    /// Writes `data` to the input register of `channel`.
    pub fn write(&self, channel: Channel, data: u16) -> (transaction: Transaction)
        ensures
            transaction is Command,
            transaction@ == self.write_transfer(WriteCommandType::WriteToChannel, channel, data),
    {
        self.write_command(WriteCommandType::WriteToChannel, channel, data)
    }

    /// Reads the output register of `channel` (not its input register). The
    /// two bytes that the transaction reads back are turned into the value by
    /// [`decode_response`](crate::frame::decode_response).
    pub fn read(&self, channel: Channel) -> (transaction: Transaction)
        ensures
            transaction is ReadRequest,
            transaction@ == self.read_transfer(channel),
    {
        Transaction::ReadRequest {
            address: self.address.value(),
            request: encode_read_command(ReadCommandType::ReadFromChannel, channel),
        }
    }

    /// Selects `channel` to be updated: its output register takes the value
    /// of its input register.
    pub fn update(&self, channel: Channel, data: u16) -> (transaction: Transaction)
        ensures
            transaction is Command,
            transaction@ == self.write_transfer(WriteCommandType::UpdateChannel, channel, data),
    {
        self.write_command(WriteCommandType::UpdateChannel, channel, data)
    }

    /// Writes `data` to the input register of `channel` and updates its output
    /// register.
    pub fn write_and_update(&self, channel: Channel, data: u16) -> (transaction: Transaction)
        ensures
            transaction is Command,
            transaction@ == self.write_transfer(
                WriteCommandType::WriteToChannelAndUpdate,
                channel,
                data,
            ),
    {
        self.write_command(WriteCommandType::WriteToChannelAndUpdate, channel, data)
    }

    /// Writes `data` to the input register of `channel` and updates every
    /// output register (global software LDAC). `channel` is usually
    /// [`Channel::All`], but a single channel is accepted as well.
    pub fn write_and_update_all(&self, channel: Channel, data: u16) -> (transaction: Transaction)
        ensures
            transaction is Command,
            transaction@ == self.write_transfer(
                WriteCommandType::WriteToChannelAndUpdateAll,
                channel,
                data,
            ),
    {
        self.write_command(WriteCommandType::WriteToChannelAndUpdateAll, channel, data)
    }

    /// Performs a software reset of this device in the given mode.
    pub fn reset(&self, mode: ResetMode) -> (transaction: Transaction)
        ensures
            transaction is Command,
            transaction@ == self.reset_transfer(mode),
    {
        Transaction::Command { address: self.address.value(), frame: encode_reset(mode) }
    }

    /// Wakes every device on the bus.
    ///
    /// This is a general call: it goes to the reserved address, whatever the
    /// address of this device, and other devices on the bus act on it too.
    pub fn wake_up_all(&self) -> (transaction: Transaction)
        ensures
            transaction is GeneralCall,
            transaction@ == general_call_transfer(GeneralCall::WakeUp),
            transaction@.address == GENERAL_CALL_ADDRESS,
    {
        Transaction::GeneralCall { call: encode_general_call(GeneralCall::WakeUp) }
    }

    /// Resets every device on the bus.
    ///
    /// This is a general call: it goes to the reserved address, whatever the
    /// address of this device, and other devices on the bus act on it too.
    pub fn reset_all(&self) -> (transaction: Transaction)
        ensures
            transaction is GeneralCall,
            transaction@ == general_call_transfer(GeneralCall::Reset),
            transaction@.address == GENERAL_CALL_ADDRESS,
    {
        Transaction::GeneralCall { call: encode_general_call(GeneralCall::Reset) }
    }

    /// Destroys the driver and gives back the bus handle it owned.
    pub fn destroy(self) -> (i2c: I2C)
        ensures
            i2c == self.bus(),
    {
        self.i2c
    }

    /// The transaction that writes `command` for `channel` and `data` to this
    /// device.
    fn write_command(
        &self,
        command: WriteCommandType,
        channel: Channel,
        data: u16,
    ) -> (transaction: Transaction)
        ensures
            transaction is Command,
            transaction@ == self.write_transfer(command, channel, data),
    {
        Transaction::Command {
            address: self.address.value(),
            frame: encode_write_command(command, channel, data, self.resolution),
        }
    }
}

} // verus!
