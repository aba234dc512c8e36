//! An interruptible byte reader.
//!
//! A blocking byte source is driven by a dedicated producer thread (run by the
//! host application); this crate holds the verified protocol around it: the
//! consumer-side lookahead window, the event taxonomy, the producer's
//! per-read step, and the interrupt handle. Reads served from the window are
//! proved to deliver the source's bytes in order, without loss or
//! duplication, and an interrupt is proved to be surfaced before any
//! buffered byte and to leave the buffered bytes in place.
use vstd::prelude::*;

mod channel;
mod errors;
mod events;
mod interruptor;
mod producer;
mod reader;
mod window;

verus! {

pub use events::Event;
pub use interruptor::Interruptor;
pub use interruptor::interrupt_event;
pub use interruptor::interrupt_outcome;
pub use producer::ProducerLink;
pub use producer::ProducerStatus;
pub use producer::event_of;
pub use producer::loop_status;
pub use producer::producer_step;
pub use reader::InterruptReader;
pub use reader::bytes_left;
pub use reader::bytes_served;
pub use reader::classify_pending;
pub use reader::deal_with_interrupt;
pub use reader::lemma_reads_reproduce_stream;
pub use window::Window;

pub use errors::InterruptReceived;
pub use errors::InterruptSendError;
pub use errors::ReadError;
pub use errors::interrupt_error;
pub use errors::is_interrupt;

/// Wires a fresh reader, interruptor and producer link over one event
/// channel and one buffer-return channel.
///
/// The host hands the `ProducerLink` to the dedicated thread that owns the
/// blocking source and drives `producer_step`; the reader and the
/// interruptor stay with the consumer. The reader starts with nothing
/// buffered.
pub fn pair_core() -> (r: (InterruptReader, Interruptor, ProducerLink))
    ensures
        r.0.wf(),
        r.0.lookahead() == Seq::<u8>::empty(),
{
    let (event_tx, event_rx) = channel::make_channel::<Event>();
    let (buffer_tx, buffer_rx) = channel::make_channel::<Vec<u8>>();
    let interruptor = Interruptor::from_sender(channel::clone_sender(&event_tx));
    let reader = InterruptReader::attach(event_rx, buffer_tx);
    (reader, interruptor, ProducerLink::assemble(event_tx, buffer_rx))
}

} // verus!
