use funhou::pty::reader::{on_read, ReaderStep, READ_CHUNK_SIZE};
use funhou::pty::reap::{ReapLatch, ReapState};

fn emitted(step: ReaderStep) -> String {
    match step {
        ReaderStep::Emit(text) => text,
        ReaderStep::Stop => panic!("the reader loop stopped"),
    }
}

#[test]
fn chunk_size_is_one_kibibyte() {
    assert_eq!(READ_CHUNK_SIZE, 1024);
}

#[test]
fn data_is_handed_on_as_text() {
    let mut buffer = [0u8; READ_CHUNK_SIZE];
    buffer[..5].copy_from_slice(b"hello");
    assert_eq!(emitted(on_read(&buffer, Ok(5))), "hello");
}

#[test]
fn only_the_bytes_read_are_handed_on() {
    let buffer = *b"abcdefgh";
    assert_eq!(emitted(on_read(&buffer, Ok(3))), "abc");
    assert_eq!(emitted(on_read(&buffer, Ok(8))), "abcdefgh");
}

#[test]
fn end_of_stream_stops_the_loop() {
    let buffer = [b'x'; 16];
    assert!(matches!(on_read(&buffer, Ok(0)), ReaderStep::Stop));
}

#[test]
fn failed_read_stops_the_loop() {
    let buffer = [b'x'; 16];
    assert!(matches!(on_read(&buffer, Err("input/output error".to_string())), ReaderStep::Stop));
}

#[test]
fn count_beyond_the_buffer_stops_the_loop() {
    let buffer = [b'x'; 16];
    assert!(matches!(on_read(&buffer, Ok(17)), ReaderStep::Stop));
    assert!(matches!(on_read(&[], Ok(1)), ReaderStep::Stop));
}

#[test]
fn multibyte_text_is_decoded() {
    let bytes = "音声 ✓".as_bytes();
    assert_eq!(emitted(on_read(bytes, Ok(bytes.len()))), "音声 ✓");
}

#[test]
fn invalid_bytes_become_replacement_characters() {
    let bytes = [b'a', 0xff, b'b', 0xc3];
    assert_eq!(emitted(on_read(&bytes, Ok(4))), "a\u{fffd}b\u{fffd}");
}

#[test]
fn character_cut_by_the_chunk_is_replaced() {
    let bytes = "é".as_bytes();
    assert_eq!(emitted(on_read(bytes, Ok(1))), "\u{fffd}");
}

#[test]
fn first_claim_is_granted() {
    let mut latch = ReapLatch::new();
    assert_eq!(latch.state(), ReapState::Pending);
    assert!(!latch.is_done());
    let ticket = latch.claim();
    assert!(ticket.is_some());
    assert_eq!(latch.state(), ReapState::Claimed);
    assert!(!latch.is_done());
    latch.complete(ticket.unwrap());
    assert_eq!(latch.state(), ReapState::Done);
    assert!(latch.is_done());
}

#[test]
fn later_claims_are_refused() {
    let mut latch = ReapLatch::new();
    let ticket = latch.claim().unwrap();
    assert!(latch.claim().is_none());
    assert_eq!(latch.state(), ReapState::Claimed);
    latch.complete(ticket);
    assert!(latch.claim().is_none());
    assert_eq!(latch.state(), ReapState::Done);
}

#[test]
fn ticket_of_another_latch_completes_nothing_unclaimed() {
    let mut first = ReapLatch::new();
    let mut second = ReapLatch::new();
    let ticket = first.claim().unwrap();
    second.complete(ticket);
    assert_eq!(second.state(), ReapState::Pending);
    assert!(second.claim().is_some());
}

#[test]
fn exactly_one_of_two_paths_waits() {
    // reader loop and kill path in both orders
    for reader_first in [true, false] {
        let mut latch = ReapLatch::new();
        let mut waits = 0;
        let order = if reader_first { ["reader", "kill"] } else { ["kill", "reader"] };
        let mut tickets = Vec::new();
        for _path in order {
            if let Some(ticket) = latch.claim() {
                waits += 1;
                tickets.push(ticket);
            }
        }
        for ticket in tickets {
            latch.complete(ticket);
        }
        assert_eq!(waits, 1);
        assert!(latch.is_done());
    }
}
