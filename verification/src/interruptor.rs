//! The interrupt signal handle.
use vstd::prelude::*;
use crate::channel::clone_sender;
use crate::channel::send_to;
use crate::errors::InterruptSendError;
use crate::events::Event;

verus! {

/// The event an interrupt request enqueues: always `Interrupt`, nothing
/// else, so the reader can only ever observe it as an interrupt.
pub fn interrupt_event() -> (ev: Event)
    ensures
        ev is Interrupt,
{
    Event::Interrupt
}

/// The decision over the send outcome of an interrupt request: success
/// exactly when the reader was still there to receive it, and the
/// nothing-left-to-interrupt failure exactly when it was not.
pub fn interrupt_outcome(sent: bool) -> (r: Result<(), InterruptSendError>)
    ensures
        sent <==> r is Ok,
        r matches Err(e) ==> e == InterruptSendError,
{
    if sent {
        Ok(())
    } else {
        Err(InterruptSendError)
    }
}

/// A cloneable handle that injects an interrupt into the event channel.
///
/// Its lifetime is independent of the reader's: it may outlive or be
/// outlived by it, and any number of clones may fire from any thread. If it
/// is dropped, the reader simply can no longer be interrupted.
#[derive(Debug)]
pub struct Interruptor {
    event_tx: std::sync::mpsc::Sender<Event>,
}

impl Interruptor {
    /// Wraps a handle to the event channel.
    pub(crate) fn from_sender(event_tx: std::sync::mpsc::Sender<Event>) -> Interruptor {
        Interruptor { event_tx }
    }

    /// Asks for the reader's next delivery to fail with an
    /// interrupt-classified error; further reads then proceed as normal.
    ///
    /// What goes onto the channel is fixed by `interrupt_event`, and the
    /// result by `interrupt_outcome` over the send's success; whether the
    /// send succeeds is decided by the other endpoint alone, so no more can
    /// be promised here: it fails exactly when the reader has been dropped,
    /// reporting that there is nothing left to interrupt — never by
    /// panicking. Interrupts not yet observed may coalesce, but every
    /// successful call contributes at least one deliverable interrupt.
    pub fn interrupt(&self) -> (r: Result<(), InterruptSendError>)
        ensures
            r matches Err(e) ==> e == InterruptSendError,
    {
        interrupt_outcome(send_to(&self.event_tx, interrupt_event()))
    }
}

impl Clone for Interruptor {
    /// A second handle that injects into the same channel.
    fn clone(&self) -> Interruptor {
        Interruptor { event_tx: clone_sender(&self.event_tx) }
    }
}

} // verus!
