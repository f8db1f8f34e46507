//! The byte-level transport that a channel drives.

use vstd::prelude::*;
use crate::error::TransportFault;

verus! {

/// A full-duplex byte stream to the servomotors: a UART, a USB-serial
/// bridge or a loopback.  The channel assumes nothing of an implementation
/// beyond the types of these two methods; baud rate and time bounds are the
/// implementation's own configuration.
pub trait HerkulexCommunication {
    /// Writes `bytes` to the bus.
    fn send(&mut self, bytes: &[u8]) -> Result<(), TransportFault>;

    /// Reads at most `max_len` bytes from the bus.
    fn receive(&mut self, max_len: usize) -> Result<Vec<u8>, TransportFault>;
}

} // verus!
