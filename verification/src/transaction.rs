//! The bus transactions that the operations of the driver ask for.
use vstd::prelude::*;

verus! {

/// The reserved bus address that every device listens to.
pub const GENERAL_CALL_ADDRESS: u8 = 0x00;

/// Number of bytes the device sends back for a read request.
pub const RESPONSE_LEN: usize = 2;

/// What a transaction does on the bus: the address it targets, the bytes it
/// sends there, and the number of bytes it then reads back in the same
/// transaction.
pub struct Transfer {
    /// The bus address the transaction targets.
    pub address: u8,
    /// The bytes that are sent, in order.
    pub outgoing: Seq<u8>,
    /// The number of bytes that are read back after sending; zero for a plain
    /// write.
    pub incoming: nat,
}

/// One transaction on the bus.
///
/// Each operation of the driver yields exactly one of these. The owner of the
/// bus runs it: a plain write of [`bytes`](Transaction::bytes) to
/// [`address`](Transaction::address) where
/// [`response_len`](Transaction::response_len) is zero, and otherwise a write
/// followed by a read of that many bytes.
#[derive(Clone, Copy, Debug, PartialEq, Eq)]
pub enum Transaction {
    /// A three-byte command written to one device.
    Command { address: u8, frame: [u8; 3] },
    /// A one-byte general call written to the reserved address. It reaches
    /// every device on the bus, not only the one the driver was made for.
    GeneralCall { call: [u8; 1] },
    /// A one-byte request written to one device, which answers with two bytes.
    ReadRequest { address: u8, request: [u8; 1] },
}

impl View for Transaction {
    type V = Transfer;

    open spec fn view(&self) -> Transfer {
        match *self {
            Transaction::Command { address, frame } => Transfer {
                address,
                outgoing: frame@,
                incoming: 0,
            },
            Transaction::GeneralCall { call } => Transfer {
                address: GENERAL_CALL_ADDRESS,
                outgoing: call@,
                incoming: 0,
            },
            Transaction::ReadRequest { address, request } => Transfer {
                address,
                outgoing: request@,
                incoming: RESPONSE_LEN as nat,
            },
        }
    }
}

impl Transaction {
    /// The bus address the transaction targets.
    pub fn address(&self) -> (address: u8)
        ensures
            address == self@.address,
    {
        match self {
            Transaction::Command { address, .. } => *address,
            Transaction::GeneralCall { .. } => GENERAL_CALL_ADDRESS,
            Transaction::ReadRequest { address, .. } => *address,
        }
    }

    /// The bytes the transaction sends.
    pub fn bytes(&self) -> (bytes: &[u8])
        ensures
            bytes@ == self@.outgoing,
    {
        match self {
            Transaction::Command { frame, .. } => frame.as_slice(),
            Transaction::GeneralCall { call } => call.as_slice(),
            Transaction::ReadRequest { request, .. } => request.as_slice(),
        }
    }

    /// The number of bytes the transaction reads back after sending.
    pub fn response_len(&self) -> (len: usize)
        ensures
            len == self@.incoming,
    {
        match self {
            Transaction::Command { .. } => 0,
            Transaction::GeneralCall { .. } => 0,
            Transaction::ReadRequest { .. } => RESPONSE_LEN,
        }
    }
}

} // verus!
