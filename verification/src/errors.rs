//! The failure taxonomy of the reader.
//!
//! Two kinds of failure reach a caller of the read operations: an interrupt,
//! raised only by this crate when an `Interruptor` fired, and a source error,
//! passed through unchanged from the underlying reader. A dedicated predicate
//! tells them apart so that callers can special-case graceful shutdown.
use vstd::prelude::*;

verus! {

/// Marker payload carried by every interrupt-originated failure: it records
/// that an `Interruptor` interrupted a read operation.
#[derive(Debug, Clone, Copy, PartialEq, Eq, Structural)]
pub struct InterruptReceived;

/// Failure of `Interruptor::interrupt`: the receiving reader has been
/// dropped, so there is nothing left to interrupt.
#[derive(Debug, Clone, Copy, PartialEq, Eq, Structural)]
pub struct InterruptSendError;

/// Declares `std::io::Error` so that a source error can be carried through
/// and handed back to the caller unchanged; the value stays opaque here.
#[verifier::external_type_specification]
#[verifier::external_body]
pub struct ExIoError(std::io::Error);

/// A failure surfaced by a read operation: either an interrupt raised by an
/// `Interruptor`, or an error of the underlying source, passed through
/// unchanged.
#[derive(Debug)]
pub enum ReadError {
    /// The read was interrupted; the marker identifies the failure as
    /// interrupt-originated.
    Interrupted(InterruptReceived),
    /// The underlying source failed; the payload is its error, untouched.
    Source(std::io::Error),
}

/// Whether a failure is interrupt-originated rather than a source error.
pub open spec fn is_interrupt_spec(err: ReadError) -> bool {
    err is Interrupted
}

/// Whether the error in question originated from an `Interruptor`
/// interrupting a read, rather than from the underlying source.
pub fn is_interrupt(err: &ReadError) -> (r: bool)
    ensures
        r == is_interrupt_spec(*err),
{
    match err {
        ReadError::Interrupted(_) => true,
        ReadError::Source(_) => false,
    }
}

/// The failure a read operation returns when it observes an interrupt.
pub fn interrupt_error() -> (r: ReadError)
    ensures
        is_interrupt_spec(r),
{
    ReadError::Interrupted(InterruptReceived)
}

} // verus!
