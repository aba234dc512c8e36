//! The consumer side of the protocol: a cancellable byte reader.
//!
//! The reader serves callers from a local lookahead window over the most
//! recently delivered chunk and otherwise blocks for the next event. Before
//! any buffered byte is served — whether it was buffered on an earlier call
//! or arrived as a fresh chunk on this one — the reader polls, without
//! blocking, for a pending interrupt: interruption takes priority over
//! already-buffered data, and the buffered bytes are held, not discarded, so
//! the call after an interrupt resumes from the same position. A vanished
//! producer is never an error: it is delivered as an empty successful read.
use vstd::prelude::*;
use vstd::math::min;
use crate::channel::recv_from;
use crate::channel::send_to;
use crate::channel::try_recv_from;
use crate::errors::ReadError;
use crate::errors::interrupt_error;
use crate::errors::is_interrupt_spec;
use crate::events::Event;
use crate::window::Window;

verus! {

/// The cancellable reading facade over the channel pair.
///
/// `window` is the active lookahead; `pending` holds an event that the
/// interrupt poll pulled off the channel ahead of time, so that nothing the
/// producer sent can be lost: it is delivered, in order, once the window is
/// drained.
#[derive(Debug)]
pub struct InterruptReader {
    window: Option<Window>,
    pending: Option<Event>,
    buffer_tx: std::sync::mpsc::Sender<Vec<u8>>,
    event_rx: std::sync::mpsc::Receiver<Event>,
}

/// The priority check on one polled event, the decision alone: a pending
/// interrupt fails the read at once; any other event is kept, to be
/// delivered in order after the buffered bytes; nothing pending lets the
/// read proceed.
pub fn classify_pending(ev: Option<Event>) -> (r: Result<Option<Event>, ReadError>)
    ensures
        match ev {
            Option::Some(Event::Interrupt) => r matches Err(e) && is_interrupt_spec(e),
            Option::Some(other) => r matches Ok(p) && p == Option::Some(other),
            Option::None => r matches Ok(p) && p is None,
        },
{
    match ev {
        Option::Some(Event::Interrupt) => Err(interrupt_error()),
        Option::Some(other) => Ok(Some(other)),
        Option::None => Ok(None),
    }
}

/// Polls the event channel without blocking and classifies what it finds: an
/// interrupt pending there fails the read before any buffered byte is
/// served; any other event is handed back for in-order delivery later.
pub fn deal_with_interrupt(event_rx: &std::sync::mpsc::Receiver<Event>) -> (r: Result<
    Option<Event>,
    ReadError,
>)
    ensures
        r matches Err(e) ==> is_interrupt_spec(e),
        r matches Ok(Some(ev)) ==> !(ev is Interrupt),
{
    classify_pending(try_recv_from(event_rx))
}

impl InterruptReader {
    /// Well-formed: the active window, if any, is.
    pub closed spec fn wf(self) -> bool {
        match self.window {
            Option::Some(w) => w.wf(),
            Option::None => true,
        }
    }

    /// The bytes already delivered by the producer but not yet handed to a
    /// caller.
    pub closed spec fn lookahead(self) -> Seq<u8> {
        match self.window {
            Option::Some(w) => w.unread(),
            Option::None => Seq::empty(),
        }
    }

    /// Attaches a fresh reader to its two channel endpoints.
    pub(crate) fn attach(
        event_rx: std::sync::mpsc::Receiver<Event>,
        buffer_tx: std::sync::mpsc::Sender<Vec<u8>>,
    ) -> (r: InterruptReader)
        ensures
            r.wf(),
            r.lookahead() == Seq::<u8>::empty(),
    {
        let r = InterruptReader { window: None, pending: None, buffer_tx, event_rx };
        proof {
            assert(r.lookahead() =~= Seq::<u8>::empty());
        }
        r
    }

    /// Resolves the outcome of one receive for a caller with nothing
    /// buffered: the reader's per-event decision, verified for every value
    /// the channel can hand over.
    ///
    /// A data chunk becomes the new window, whole — nothing is served here,
    /// so the mandatory interrupt poll still precedes its bytes — and the
    /// call reports that a window is installed. A source error is surfaced
    /// to the caller unchanged, an interrupt as an interrupt-classified
    /// error; neither touches the window. `None` — the producer and every
    /// interruptor are gone, or the producer stopped listening for recycled
    /// buffers — is a graceful end, never an error and never a panic.
    pub fn install_event(&mut self, ev: Option<Event>) -> (r: Result<bool, ReadError>)
        requires
            old(self).wf(),
            old(self).lookahead().len() == 0,
        ensures
            final(self).wf(),
            match ev {
                Option::None => r matches Ok(installed) && !installed && final(self).lookahead()
                    == old(self).lookahead(),
                Option::Some(Event::Data(buf, len)) => r matches Ok(installed) && installed
                    && final(self).lookahead() == buf@.take(min(len as int, buf@.len() as int)),
                Option::Some(Event::SourceError(e)) => r matches Err(re) && re
                    == ReadError::Source(e) && final(self).lookahead() == old(self).lookahead(),
                Option::Some(Event::Interrupt) => r matches Err(re) && is_interrupt_spec(re)
                    && final(self).lookahead() == old(self).lookahead(),
            },
    {
        match ev {
            Option::None => Ok(false),
            Option::Some(Event::Interrupt) => Err(interrupt_error()),
            Option::Some(Event::SourceError(e)) => Err(ReadError::Source(e)),
            Option::Some(Event::Data(buf, len)) => {
                self.window = Some(Window::new(buf, len));
                Ok(true)
            },
        }
    }

    /// Reads up to `want` bytes.
    ///
    /// With bytes buffered, the call never blocks: it either fails with an
    /// interrupt-classified error, leaving every buffered byte in place, or
    /// returns the next `min(want, buffered)` bytes, in order. With nothing
    /// buffered it blocks for the next event: a source error or an interrupt
    /// is surfaced to the caller, a vanished producer is an empty successful
    /// read, and a chunk is installed first and polled against a pending
    /// interrupt before any of its bytes are served — so an interrupt
    /// enqueued behind the chunk still fails this call, and the chunk is
    /// held intact for the next one. A zero-length chunk is an empty
    /// successful read, not an end of stream.
    pub fn read(&mut self, want: usize) -> (r: Result<Vec<u8>, ReadError>)
        requires
            old(self).wf(),
        ensures
            final(self).wf(),
            old(self).lookahead().len() > 0 ==> match r {
                Ok(v) => {
                    &&& v@.len() == min(want as int, old(self).lookahead().len() as int)
                    &&& v@ == old(self).lookahead().take(v@.len() as int)
                    &&& final(self).lookahead() == old(self).lookahead().skip(v@.len() as int)
                },
                Err(e) => is_interrupt_spec(e) && final(self).lookahead() == old(
                    self,
                ).lookahead(),
            },
            r matches Ok(v) ==> v@.len() <= want,
    {
        let win = self.window.take();
        let producer_alive: bool;
        match win {
            Option::Some(mut w) => {
                if self.pending.is_none() {
                    match deal_with_interrupt(&self.event_rx) {
                        Err(e) => {
                            self.window = Some(w);
                            return Err(e);
                        },
                        Ok(p) => {
                            self.pending = p;
                        },
                    }
                }
                if w.available() > 0 {
                    let v = w.take_bytes(want);
                    self.window = Some(w);
                    return Ok(v);
                }
                // The window is drained: recycle its buffer to the producer.
                producer_alive = send_to(&self.buffer_tx, w.into_buf());
                proof {
                    assert(old(self).lookahead() =~= Seq::<u8>::empty());
                }
            },
            Option::None => {
                producer_alive = true;
                proof {
                    assert(old(self).lookahead() =~= Seq::<u8>::empty());
                }
            },
        }
        // No active window: resolve the event the poll already pulled off the
        // channel, or block for the next one. A producer that stopped
        // listening for recycled buffers counts as gone.
        let ev = if !producer_alive {
            Option::None
        } else {
            match self.pending.take() {
                Option::Some(event) => Option::Some(event),
                Option::None => recv_from(&self.event_rx),
            }
        };
        match self.install_event(ev) {
            Err(e) => {
                return Err(e);
            },
            Ok(installed) => {
                if !installed {
                    return Ok(Vec::new());
                }
            },
        }
        // A fresh chunk is installed. Before serving its first byte, the
        // mandatory non-blocking poll: an interrupt enqueued behind the
        // chunk outranks it, and the whole chunk is held for the next call.
        let fresh = self.window.take();
        match fresh {
            Option::Some(mut w) => {
                if w.available() == 0 {
                    // A zero-length chunk: an empty successful read, not an
                    // end of stream and nothing to outrank.
                    self.window = Some(w);
                    return Ok(Vec::new());
                }
                if self.pending.is_none() {
                    match deal_with_interrupt(&self.event_rx) {
                        Err(e) => {
                            self.window = Some(w);
                            return Err(e);
                        },
                        Ok(p) => {
                            self.pending = p;
                        },
                    }
                }
                let v = w.take_bytes(want);
                self.window = Some(w);
                Ok(v)
            },
            Option::None => Ok(Vec::new()),
        }
    }

    /// Exposes the buffered lookahead without consuming it, pulling one new
    /// chunk from the producer when nothing is buffered.
    ///
    /// The same priority rule as `read` applies: a pending interrupt fails
    /// the call before any byte is exposed, fresh chunks included, and
    /// leaves the buffered bytes in place. The returned bytes are exactly
    /// the lookahead as the call leaves it; `consume` advances past them.
    pub fn fill_buf(&mut self) -> (r: Result<Vec<u8>, ReadError>)
        requires
            old(self).wf(),
        ensures
            final(self).wf(),
            r matches Ok(v) ==> v@ == final(self).lookahead(),
            old(self).lookahead().len() > 0 ==> match r {
                Ok(v) => v@ == old(self).lookahead(),
                Err(e) => is_interrupt_spec(e) && final(self).lookahead() == old(
                    self,
                ).lookahead(),
            },
    {
        let win = self.window.take();
        let producer_alive: bool;
        match win {
            Option::Some(mut w) => {
                if self.pending.is_none() {
                    match deal_with_interrupt(&self.event_rx) {
                        Err(e) => {
                            self.window = Some(w);
                            return Err(e);
                        },
                        Ok(p) => {
                            self.pending = p;
                        },
                    }
                }
                if w.available() > 0 {
                    let v = w.peek_all();
                    self.window = Some(w);
                    return Ok(v);
                }
                producer_alive = send_to(&self.buffer_tx, w.into_buf());
                proof {
                    assert(old(self).lookahead() =~= Seq::<u8>::empty());
                }
            },
            Option::None => {
                producer_alive = true;
                proof {
                    assert(old(self).lookahead() =~= Seq::<u8>::empty());
                }
            },
        }
        let ev = if !producer_alive {
            Option::None
        } else {
            match self.pending.take() {
                Option::Some(event) => Option::Some(event),
                Option::None => recv_from(&self.event_rx),
            }
        };
        match self.install_event(ev) {
            Err(e) => {
                return Err(e);
            },
            Ok(installed) => {
                if !installed {
                    return Ok(Vec::new());
                }
            },
        }
        // A fresh chunk is installed: poll before exposing its first byte,
        // as with bytes buffered on an earlier call.
        let fresh = self.window.take();
        match fresh {
            Option::Some(mut w) => {
                if w.available() == 0 {
                    self.window = Some(w);
                    return Ok(Vec::new());
                }
                if self.pending.is_none() {
                    match deal_with_interrupt(&self.event_rx) {
                        Err(e) => {
                            self.window = Some(w);
                            return Err(e);
                        },
                        Ok(p) => {
                            self.pending = p;
                        },
                    }
                }
                let v = w.peek_all();
                self.window = Some(w);
                Ok(v)
            },
            Option::None => Ok(Vec::new()),
        }
    }

    /// Consumes `amount` bytes of the lookahead, saturating at what is
    /// buffered, without touching the channels.
    pub fn consume(&mut self, amount: usize)
        requires
            old(self).wf(),
        ensures
            final(self).wf(),
            final(self).lookahead() == old(self).lookahead().skip(
                min(amount as int, old(self).lookahead().len() as int),
            ),
    {
        let win = self.window.take();
        match win {
            Option::Some(mut w) => {
                w.advance(amount);
                self.window = Some(w);
            },
            Option::None => {
                proof {
                    assert(old(self).lookahead() =~= Seq::<u8>::empty());
                    assert(old(self).lookahead().skip(0) =~= old(self).lookahead());
                }
            },
        }
    }
}

/// The bytes that a run of successive reads hands out when the `i`-th read
/// requests `counts[i]` of the bytes buffered in `s`, each read serving a
/// prefix of what the previous ones left.
pub open spec fn bytes_served(s: Seq<u8>, counts: Seq<int>) -> Seq<u8>
    decreases counts.len(),
{
    if counts.len() == 0 {
        Seq::empty()
    } else {
        let k = min(counts[0], s.len() as int);
        s.take(k) + bytes_served(s.skip(k), counts.skip(1))
    }
}

/// The bytes such a run leaves buffered.
pub open spec fn bytes_left(s: Seq<u8>, counts: Seq<int>) -> Seq<u8>
    decreases counts.len(),
{
    if counts.len() == 0 {
        s
    } else {
        let k = min(counts[0], s.len() as int);
        bytes_left(s.skip(k), counts.skip(1))
    }
}

/// However successive reads carve up buffered bytes — each serving
/// `min(requested, remaining)` of them, as `read`'s contract states — the
/// bytes handed out, in order, followed by the bytes still buffered are
/// exactly the original sequence: in the absence of interrupts the reader
/// reproduces the delivered stream, losing, duplicating and reordering
/// nothing.
pub proof fn lemma_reads_reproduce_stream(s: Seq<u8>, counts: Seq<int>)
    requires
        forall|i: int| 0 <= i < counts.len() ==> counts[i] >= 0,
    ensures
        bytes_served(s, counts) + bytes_left(s, counts) == s,
    decreases counts.len(),
{
    if counts.len() == 0 {
        assert(bytes_served(s, counts) + bytes_left(s, counts) =~= s);
    } else {
        let k = min(counts[0], s.len() as int);
        assert(forall|i: int| 0 <= i < counts.skip(1).len() ==> counts.skip(1)[i] >= 0);
        lemma_reads_reproduce_stream(s.skip(k), counts.skip(1));
        let served_rest = bytes_served(s.skip(k), counts.skip(1));
        let left_rest = bytes_left(s.skip(k), counts.skip(1));
        assert((s.take(k) + served_rest) + left_rest =~= s.take(k) + (served_rest + left_rest));
        assert(s.take(k) + s.skip(k) =~= s);
    }
}

} // verus!
