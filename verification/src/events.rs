//! The event protocol between the producer and the reader.
use vstd::prelude::*;

verus! {

/// One message on the event channel, producer (or interruptor) to reader.
///
/// The producer sends `Data` for every successful read of the source — a
/// zero-length chunk is passed through faithfully, never turned into an
/// end-of-stream — and `SourceError` for every failed one. `Interrupt` is
/// injected only by an `Interruptor` and races with the producer's traffic
/// on the same channel, which is what gives interrupts their ordering
/// guarantee.
#[derive(Debug)]
pub enum Event {
    /// A chunk of bytes: the buffer and the number of bytes the source put
    /// into it, `0 <= len <= buffer capacity` when the producer made it.
    Data(Vec<u8>, usize),
    /// The underlying source failed; its error is passed through untouched.
    SourceError(std::io::Error),
    /// An `Interruptor` asked for the next delivery to fail.
    Interrupt,
}

} // verus!
