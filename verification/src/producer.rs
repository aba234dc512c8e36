//! The producer side of the protocol.
//!
//! A dedicated thread, run by the host application, owns the real blocking
//! source exclusively and loops: one blocking read into its buffer, then one
//! `producer_step`. The step forwards the outcome to the reader and, after a
//! successful read, blocks until the reader recycles the buffer, so exactly
//! one chunk is ever in flight. The loop stops only when its peer is gone;
//! the thread then returns the source to whoever joins it.
use vstd::prelude::*;
use crate::channel::recv_from;
use crate::channel::send_to;
use crate::events::Event;

verus! {

/// The producer's two channel endpoints: events out, recycled buffers in.
#[derive(Debug)]
pub struct ProducerLink {
    event_tx: std::sync::mpsc::Sender<Event>,
    buffer_rx: std::sync::mpsc::Receiver<Vec<u8>>,
}

/// What one producer step decided: keep going with this buffer, or stop
/// because the reader is gone.
#[derive(Debug)]
pub enum ProducerStatus {
    /// Keep reading, into this buffer.
    Continue(Vec<u8>),
    /// The peer vanished: stop the loop and release the source.
    Stop,
}

impl ProducerLink {
    /// Assembles the link from its two endpoints.
    pub(crate) fn assemble(
        event_tx: std::sync::mpsc::Sender<Event>,
        buffer_rx: std::sync::mpsc::Receiver<Vec<u8>>,
    ) -> ProducerLink {
        ProducerLink { event_tx, buffer_rx }
    }

    /// Sends one event to the reader; reports whether the reader side of the
    /// channel still exists. Nothing more can be said of the outcome: it is
    /// decided by the other endpoint alone.
    pub fn send_event(&self, ev: Event) -> bool {
        send_to(&self.event_tx, ev)
    }

    /// Blocks until the reader recycles a buffer; `None` when the reader is
    /// gone.
    pub fn await_buffer(&self) -> Option<Vec<u8>> {
        recv_from(&self.buffer_rx)
    }
}

/// The event one source outcome is forwarded as, and the buffer kept back
/// when no data was produced: a successful read of `len` bytes becomes
/// `Data(buf, len)` — a zero-length one faithfully, never as an end of
/// stream — and hands the buffer over with it; a read error becomes
/// `SourceError(e)`, the error untouched, and keeps the same buffer for the
/// retried read.
pub fn event_of(buf: Vec<u8>, outcome: Result<usize, std::io::Error>) -> (r: (
    Event,
    Option<Vec<u8>>,
))
    ensures
        match outcome {
            Ok(len) => r.0 == Event::Data(buf, len) && r.1 is None,
            Err(e) => r.0 == Event::SourceError(e) && r.1 == Option::Some(buf),
        },
{
    match outcome {
        Ok(len) => (Event::Data(buf, len), None),
        Err(e) => (Event::SourceError(e), Some(buf)),
    }
}

/// The loop decision over the channel outcomes of one step: the producer
/// goes on exactly while its peer is there — with the next buffer when the
/// event was received, and `Stop` the moment the send failed or no buffer
/// came back, which both mean the reader is gone.
pub fn loop_status(sent: bool, next_buf: Option<Vec<u8>>) -> (r: ProducerStatus)
    ensures
        !sent ==> r is Stop,
        sent ==> match next_buf {
            Option::Some(b) => r == ProducerStatus::Continue(b),
            Option::None => r is Stop,
        },
{
    if !sent {
        return ProducerStatus::Stop;
    }
    match next_buf {
        Option::Some(b) => ProducerStatus::Continue(b),
        Option::None => ProducerStatus::Stop,
    }
}

/// One turn of the producer loop, given the outcome of one blocking read of
/// the source into `buf`.
///
/// What is forwarded is fixed by `event_of`; the continue/stop decision over
/// the channel outcomes by `loop_status`. After a successful read the step
/// blocks until the reader hands the buffer back for reuse, so exactly one
/// chunk is ever in flight; after a read error the same buffer is reused at
/// once, so the loop never terminates on source errors, only when the
/// reader is gone.
pub fn producer_step(link: &ProducerLink, buf: Vec<u8>, outcome: Result<usize, std::io::Error>) -> (r:
    ProducerStatus)
    ensures
        outcome matches Err(_) ==> match r {
            ProducerStatus::Continue(b) => b == buf,
            ProducerStatus::Stop => true,
        },
{
    let (ev, kept) = event_of(buf, outcome);
    let sent = link.send_event(ev);
    let next_buf = match kept {
        Option::Some(b) => Option::Some(b),
        Option::None => if sent {
            link.await_buffer()
        } else {
            Option::None
        },
    };
    loop_status(sent, next_buf)
}

} // verus!
