//! The failures that a bus operation can report.

use vstd::prelude::*;

verus! {

/// A fault reported by the transport underneath the channel.
#[derive(Clone, Copy, Debug, PartialEq, Eq, Structural)]
pub enum TransportFault {
    /// A byte arrived with a broken frame.
    Framing,
    /// A byte was lost because the receiver was not read in time.
    Overrun,
    /// A byte arrived with a wrong parity bit.
    Parity,
    /// The line is not connected.
    Disconnected,
    /// The operation did not complete within the transport's time bound.
    TimedOut,
}

/// Why a channel or motor operation failed.
#[derive(Clone, Copy, Debug, PartialEq, Eq, Structural)]
pub enum Error {
    /// A transaction was requested while another one was active.
    ResourceBusy,
    /// The physical layer failed; the fault is the transport's own.
    TransportError(TransportFault),
    /// The bytes asked for did not arrive, or did not leave, in time.
    Timeout,
    /// The response could not be read as the acknowledgment that was
    /// expected, or it reports a servo fault.
    ProtocolError,
    /// An argument lies outside the range that the protocol documents.
    InvalidParameter,
}

/// The error under which a transport fault is reported: a timeout as
/// [`Error::Timeout`], every other fault unchanged inside
/// [`Error::TransportError`].
pub open spec fn fault_error(fault: TransportFault) -> Error {
    match fault {
        TransportFault::TimedOut => Error::Timeout,
        _ => Error::TransportError(fault),
    }
}

/// Whether `error` is one that a transport fault can be reported as.
pub open spec fn from_transport(error: Error) -> bool {
    match error {
        Error::Timeout => true,
        Error::TransportError(fault) => fault != TransportFault::TimedOut,
        _ => false,
    }
}

/// Reports a transport fault as a bus error.
pub fn classify(fault: TransportFault) -> (error: Error)
    ensures
        error == fault_error(fault),
        from_transport(error),
{
    match fault {
        TransportFault::TimedOut => Error::Timeout,
        _ => Error::TransportError(fault),
    }
}

} // verus!
