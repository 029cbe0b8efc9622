//! The bus that the driver talks to the chip through, and the record that a
//! session keeps of what it asked of that bus.

use vstd::prelude::*;

verus! {

/// A two-wire serial bus that can address a device, write bytes to it, and
/// write bytes then read the device's answer in one transaction.
///
/// The driver never looks inside `Error`: it hands every failure back to its
/// own caller unchanged.
pub trait Transport {
    type Error;

    /// Writes `bytes` to the device at `address`.
    fn write(&mut self, address: u8, bytes: &[u8]) -> Result<(), Self::Error>;

    /// Writes `bytes` to the device at `address`, then fills `buffer` with
    /// what the device sends back.
    fn write_read(&mut self, address: u8, bytes: &[u8], buffer: &mut [u8]) -> Result<
        (),
        Self::Error,
    >;
}

/// One transaction issued on the bus, with what came of it.
pub enum BusOp<E> {
    /// `bytes` written to the device at `address`.
    Write { address: u8, bytes: Seq<u8>, result: Result<(), E> },
    /// `bytes` written to the device at `address`, then a read whose bytes
    /// are in `reply`.
    WriteRead { address: u8, bytes: Seq<u8>, reply: Result<Seq<u8>, E> },
}

/// The reply of a write-then-read: the buffer's contents when the transport
/// succeeded, its error otherwise.
pub open spec fn reply_of<E>(result: Result<(), E>, buffer: Seq<u8>) -> Result<Seq<u8>, E> {
    match result {
        Ok(_) => Ok(buffer),
        Err(e) => Err(e),
    }
}

} // verus!
