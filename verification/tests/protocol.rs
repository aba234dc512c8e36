use interrupt_read::{
    classify_pending, event_of, interrupt_error, interrupt_event, interrupt_outcome, is_interrupt,
    loop_status, pair_core, producer_step, Event, InterruptSendError, ProducerStatus, ReadError,
    Window,
};

fn data(bytes: &[u8]) -> Event {
    Event::Data(bytes.to_vec(), bytes.len())
}

fn source_error(kind: std::io::ErrorKind) -> Event {
    Event::SourceError(std::io::Error::new(kind, "source failed"))
}

#[test]
fn reproduces_bytes_and_errors_in_order() {
    let (mut reader, interruptor, link) = pair_core();
    assert!(link.send_event(data(b"ab")));
    assert!(link.send_event(source_error(std::io::ErrorKind::PermissionDenied)));
    assert!(link.send_event(data(b"")));
    assert!(link.send_event(data(b"cd")));

    assert_eq!(reader.read(16).unwrap(), b"ab".to_vec());

    let err = reader.read(16).unwrap_err();
    assert!(!is_interrupt(&err));
    match err {
        ReadError::Source(io_err) => {
            assert_eq!(io_err.kind(), std::io::ErrorKind::PermissionDenied);
        }
        ReadError::Interrupted(_) => panic!("source error misclassified"),
    }

    // A zero-length chunk is an empty successful read, not an end of stream.
    assert_eq!(reader.read(16).unwrap(), Vec::<u8>::new());
    assert_eq!(reader.read(16).unwrap(), b"cd".to_vec());

    // Once every sender is gone, reads end gracefully with empty results.
    drop(link);
    drop(interruptor);
    assert_eq!(reader.read(16).unwrap(), Vec::<u8>::new());
    assert_eq!(reader.read(16).unwrap(), Vec::<u8>::new());
}

#[test]
fn interrupt_before_first_read() {
    let (mut reader, interruptor, link) = pair_core();
    interruptor.interrupt().unwrap();
    assert!(link.send_event(data(b"ab")));

    let err = reader.read(16).unwrap_err();
    assert!(is_interrupt(&err));

    // The call after the interrupt behaves as if none had occurred.
    assert_eq!(reader.read(16).unwrap(), b"ab".to_vec());
}

#[test]
fn interrupt_outranks_buffered_bytes_and_keeps_them() {
    let (mut reader, interruptor, link) = pair_core();
    assert!(link.send_event(data(b"abcd")));
    assert_eq!(reader.read(2).unwrap(), b"ab".to_vec());

    interruptor.interrupt().unwrap();
    let err = reader.read(16).unwrap_err();
    assert!(is_interrupt(&err));

    // The buffered remainder is served before anything new is requested:
    // no further event was enqueued, yet the bytes are all there.
    assert_eq!(reader.read(16).unwrap(), b"cd".to_vec());
}

#[test]
fn split_reads_lose_nothing() {
    let (mut reader, _interruptor, link) = pair_core();
    assert!(link.send_event(data(b"He")));
    assert!(link.send_event(data(b"llo")));

    assert_eq!(reader.read(1).unwrap(), b"H".to_vec());
    assert_eq!(reader.read(1).unwrap(), b"e".to_vec());
    assert_eq!(reader.read(10).unwrap(), b"llo".to_vec());
}

#[test]
fn interrupted_then_full_chunk() {
    let (mut reader, interruptor, link) = pair_core();
    interruptor.interrupt().unwrap();
    assert!(link.send_event(data(b"ab")));

    assert!(is_interrupt(&reader.read(4).unwrap_err()));
    assert_eq!(reader.read(4).unwrap(), b"ab".to_vec());
}

#[test]
fn zero_length_request_keeps_buffered_bytes() {
    let (mut reader, _interruptor, link) = pair_core();
    assert!(link.send_event(data(b"ab")));
    assert_eq!(reader.read(2).unwrap(), b"ab".to_vec());
    assert!(link.send_event(data(b"cd")));
    assert_eq!(reader.read(2).unwrap(), b"cd".to_vec());

    // Asking for nothing returns nothing and must not discard the window.
    assert!(link.send_event(data(b"ef")));
    assert_eq!(reader.read(0).unwrap(), Vec::<u8>::new());
    assert_eq!(reader.read(0).unwrap(), Vec::<u8>::new());
    assert_eq!(reader.read(2).unwrap(), b"ef".to_vec());
}

#[test]
fn fill_buf_exposes_without_consuming() {
    let (mut reader, _interruptor, link) = pair_core();
    assert!(link.send_event(data(b"hello")));

    assert_eq!(reader.fill_buf().unwrap(), b"hello".to_vec());
    // Nothing was consumed: the same bytes are exposed again.
    assert_eq!(reader.fill_buf().unwrap(), b"hello".to_vec());

    reader.consume(2);
    assert_eq!(reader.fill_buf().unwrap(), b"llo".to_vec());

    reader.consume(999); // saturates at what is buffered
    assert!(link.send_event(data(b"z")));
    assert_eq!(reader.fill_buf().unwrap(), b"z".to_vec());
}

#[test]
fn consume_on_empty_reader_is_harmless() {
    let (mut reader, _interruptor, link) = pair_core();
    reader.consume(5);
    assert!(link.send_event(data(b"ok")));
    assert_eq!(reader.read(16).unwrap(), b"ok".to_vec());
}

#[test]
fn line_oriented_loop_observes_interrupt() {
    // A read_until-style loop built on fill_buf/consume must see the
    // interrupt as a distinguishable failure, not silently lose it.
    let (mut reader, interruptor, link) = pair_core();
    assert!(link.send_event(data(b"par")));

    let mut line = Vec::new();
    let chunk = reader.fill_buf().unwrap();
    line.extend_from_slice(&chunk);
    let taken = chunk.len();
    reader.consume(taken);

    interruptor.interrupt().unwrap();
    let err = reader.fill_buf().unwrap_err();
    assert!(is_interrupt(&err));

    // The partial line survives and the loop can go on afterwards.
    assert!(link.send_event(data(b"tial\n")));
    let rest = reader.fill_buf().unwrap();
    line.extend_from_slice(&rest);
    let taken = rest.len();
    reader.consume(taken);
    assert_eq!(line, b"partial\n".to_vec());
}

#[test]
fn interrupt_after_reader_disposed_fails_cleanly() {
    let (reader, interruptor, link) = pair_core();
    let second = interruptor.clone();
    drop(reader);
    drop(link); // the link holds no receiver for events; dropping it changes nothing there

    assert!(interruptor.interrupt().is_err());
    assert!(second.interrupt().is_err());
    assert!(interruptor.interrupt().is_err());
}

#[test]
fn buffers_are_recycled_with_capacity_kept() {
    let (mut reader, _interruptor, link) = pair_core();
    assert!(link.send_event(data(b"He")));
    assert_eq!(reader.read(16).unwrap(), b"He".to_vec());
    assert!(link.send_event(data(b"x")));
    assert_eq!(reader.read(16).unwrap(), b"x".to_vec());

    // Draining the first chunk handed its buffer back for reuse.
    let recycled = link.await_buffer().expect("reader is alive");
    assert_eq!(recycled.len(), 2);
}

#[test]
fn producer_step_forwards_errors_and_keeps_buffer() {
    let (mut reader, _interruptor, link) = pair_core();
    let buf = vec![0u8; 4];
    let outcome = Err(std::io::Error::new(std::io::ErrorKind::BrokenPipe, "boom"));
    match producer_step(&link, buf, outcome) {
        ProducerStatus::Continue(b) => assert_eq!(b, vec![0u8; 4]),
        ProducerStatus::Stop => panic!("reader is alive"),
    }
    let err = reader.read(16).unwrap_err();
    assert!(!is_interrupt(&err));
}

#[test]
fn producer_step_delivers_data_and_takes_recycled_buffer() {
    let (mut reader, _interruptor, link) = pair_core();
    assert!(link.send_event(data(b"ab")));
    assert_eq!(reader.read(16).unwrap(), b"ab".to_vec());
    assert!(link.send_event(data(b"c")));
    assert_eq!(reader.read(16).unwrap(), b"c".to_vec());
    // The drained two-byte buffer now sits in the return channel, so the
    // step's wait for a recycled buffer returns at once.
    let mut chunk = b"de".to_vec();
    chunk.push(0);
    match producer_step(&link, chunk, Ok(2)) {
        ProducerStatus::Continue(recycled) => assert_eq!(recycled.len(), 2),
        ProducerStatus::Stop => panic!("reader is alive"),
    }
    assert_eq!(reader.read(16).unwrap(), b"de".to_vec());
}

#[test]
fn producer_step_stops_when_reader_is_gone() {
    let (reader, _interruptor, link) = pair_core();
    drop(reader);
    match producer_step(&link, vec![1u8, 2u8], Ok(2)) {
        ProducerStatus::Stop => {}
        ProducerStatus::Continue(_) => panic!("no reader is left"),
    }
    let outcome = Err(std::io::Error::new(std::io::ErrorKind::BrokenPipe, "boom"));
    match producer_step(&link, vec![1u8, 2u8], outcome) {
        ProducerStatus::Stop => {}
        ProducerStatus::Continue(_) => panic!("no reader is left"),
    }
}

#[test]
fn classifier_tells_failures_apart() {
    assert!(is_interrupt(&interrupt_error()));
    let io_err = std::io::Error::new(std::io::ErrorKind::NotFound, "gone");
    assert!(!is_interrupt(&ReadError::Source(io_err)));
}

#[test]
fn pending_event_classification() {
    assert!(is_interrupt(&classify_pending(Some(Event::Interrupt)).unwrap_err()));
    assert!(classify_pending(None).unwrap().is_none());
    match classify_pending(Some(data(b"ab"))).unwrap() {
        Some(Event::Data(buf, len)) => {
            assert_eq!(buf, b"ab".to_vec());
            assert_eq!(len, 2);
        }
        _ => panic!("a data event must be kept for in-order delivery"),
    }
}

#[test]
fn window_cursor_arithmetic() {
    let mut w = Window::new(vec![1u8, 2, 3, 4, 5], 4);
    assert_eq!(w.available(), 4); // the fifth byte is past the chunk's length
    assert_eq!(w.peek_all(), vec![1u8, 2, 3, 4]);
    assert_eq!(w.take_bytes(2), vec![1u8, 2]);
    assert_eq!(w.available(), 2);
    w.advance(1);
    assert_eq!(w.peek_all(), vec![4u8]);
    assert_eq!(w.take_bytes(9), vec![4u8]);
    assert_eq!(w.available(), 0);
    // The buffer keeps its full capacity for recycling.
    assert_eq!(w.into_buf().len(), 5);
}

#[test]
fn window_clamps_an_oversized_length() {
    let w = Window::new(vec![9u8, 8], 7);
    assert_eq!(w.available(), 2);
    assert_eq!(w.peek_all(), vec![9u8, 8]);
}

#[test]
fn event_installation_decision() {
    let (mut reader, _interruptor, _link) = pair_core();

    // A vanished producer is a graceful end, never an error.
    assert_eq!(reader.install_event(None).unwrap(), false);

    match reader.install_event(Some(source_error(std::io::ErrorKind::TimedOut))) {
        Err(ReadError::Source(io_err)) => assert_eq!(io_err.kind(), std::io::ErrorKind::TimedOut),
        _ => panic!("a source error must pass through unchanged"),
    }

    assert!(is_interrupt(&reader.install_event(Some(Event::Interrupt)).unwrap_err()));

    // A chunk is installed whole; its bytes are served by the read that polls.
    assert_eq!(reader.install_event(Some(data(b"xyz"))).unwrap(), true);
    assert_eq!(reader.read(2).unwrap(), b"xy".to_vec());
    assert_eq!(reader.read(9).unwrap(), b"z".to_vec());
}

#[test]
fn producer_event_construction() {
    match event_of(b"ab".to_vec(), Ok(2)) {
        (Event::Data(buf, len), None) => {
            assert_eq!(buf, b"ab".to_vec());
            assert_eq!(len, 2);
        }
        _ => panic!("a successful read must forward its chunk and hand the buffer over"),
    }
    let io_err = std::io::Error::new(std::io::ErrorKind::BrokenPipe, "boom");
    match event_of(b"ab".to_vec(), Err(io_err)) {
        (Event::SourceError(err), Some(kept)) => {
            assert_eq!(err.kind(), std::io::ErrorKind::BrokenPipe);
            assert_eq!(kept, b"ab".to_vec());
        }
        _ => panic!("a read error must forward the error and keep the buffer"),
    }
}

#[test]
fn producer_loop_decision() {
    assert!(matches!(loop_status(false, Some(vec![1u8])), ProducerStatus::Stop));
    assert!(matches!(loop_status(true, None), ProducerStatus::Stop));
    match loop_status(true, Some(vec![1u8, 2])) {
        ProducerStatus::Continue(b) => assert_eq!(b, vec![1u8, 2]),
        ProducerStatus::Stop => panic!("a received buffer means the reader is alive"),
    }
}

#[test]
fn interrupt_request_pieces() {
    assert!(matches!(interrupt_event(), Event::Interrupt));
    assert!(interrupt_outcome(true).is_ok());
    assert!(matches!(interrupt_outcome(false), Err(InterruptSendError)));
}

#[test]
fn interrupt_queued_behind_data_still_wins() {
    // The producer's chunk entered the queue before the interrupt: the very
    // next read must still fail interrupt-classified, and the chunk must
    // survive intact for the call after.
    let (mut reader, interruptor, link) = pair_core();
    assert!(link.send_event(data(b"ab")));
    interruptor.interrupt().unwrap();

    assert!(is_interrupt(&reader.read(16).unwrap_err()));
    assert_eq!(reader.read(16).unwrap(), b"ab".to_vec());
}

#[test]
fn fill_buf_sees_interrupt_behind_fresh_chunk() {
    let (mut reader, interruptor, link) = pair_core();
    assert!(link.send_event(data(b"ab")));
    interruptor.interrupt().unwrap();

    assert!(is_interrupt(&reader.fill_buf().unwrap_err()));
    assert_eq!(reader.fill_buf().unwrap(), b"ab".to_vec());
}
