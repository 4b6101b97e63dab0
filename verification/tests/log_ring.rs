use embassy_zynq7000::log::rb::{Logger, DISCARD_CHUNK, RING_CAPACITY};
use embassy_zynq7000::log::uart_blocking::skips_record;
use embassy_zynq7000::log::LoggerInit;
use ringbuf::traits::{Consumer, Observer, Producer};
use ringbuf::StaticRb;

#[test]
fn push_slice_reports_truncated_frame_length() {
    let mut rb = StaticRb::<u8, 4>::default();

    assert_eq!(rb.push_slice(b"abcdef"), 4);
}

#[test]
fn frame_tail_is_discarded_when_destination_is_too_small() {
    let mut rb = StaticRb::<u8, 8>::default();
    rb.push_slice(b"abcd");

    let mut buf = [0u8; 2];
    rb.pop_slice(&mut buf);

    let mut discard = [0u8; DISCARD_CHUNK];
    rb.pop_slice(&mut discard[..2]);

    assert_eq!(&buf, b"ab");
    assert_eq!(rb.occupied_len(), 0);

    let mut logger = Logger::new();
    assert!(logger.log(b"abcd", true));
    let mut buf = vec![0u8; 2];
    logger.read_next_frame(4, &mut buf);
    assert_eq!(&buf[..], b"ab");
    assert_eq!(logger.pending_bytes(), 0);
}

#[test]
fn truncated_frame_is_dropped_before_queueing() {
    let mut rb = StaticRb::<u8, 4>::default();
    assert_eq!(rb.vacant_len(), 4);
    assert!(rb.vacant_len() < 6);
    rb.clear();

    let mut logger = Logger::new();
    let frame = vec![7u8; RING_CAPACITY + 1];
    assert!(!logger.accepts(frame.len()));
    assert!(!logger.log(&frame, true));
    assert_eq!(logger.pending_bytes(), 0);
}

#[test]
fn frames_come_out_in_the_order_they_were_logged() {
    let mut logger = Logger::new();
    assert!(logger.log(b"first", true));
    assert!(logger.log(b"second", true));
    assert_eq!(logger.pending_bytes(), 11);
    assert!(!logger.is_flushed(true));
    let mut buf = vec![0u8; 8];
    logger.read_next_frame(5, &mut buf);
    assert_eq!(&buf[..5], b"first");
    logger.read_next_frame(6, &mut buf);
    assert_eq!(&buf[..6], b"second");
    assert!(logger.is_flushed(true));
    assert!(!logger.is_flushed(false));
}

#[test]
fn long_tails_are_discarded_in_chunks() {
    let mut logger = Logger::new();
    let frame: Vec<u8> = (0..200u32).map(|i| i as u8).collect();
    assert!(logger.log(&frame, true));
    assert!(logger.log(b"next", true));
    let mut buf = vec![0u8; 3];
    logger.read_next_frame(200, &mut buf);
    assert_eq!(buf, vec![0, 1, 2]);
    assert_eq!(logger.pending_bytes(), 4);
    let mut buf = vec![0u8; 4];
    logger.read_next_frame(4, &mut buf);
    assert_eq!(&buf[..], b"next");
}

#[test]
fn logger_is_claimed_once() {
    let mut init = LoggerInit::new();
    assert!(init.claim());
    assert!(!init.claim());
    assert!(skips_record(true, 0b10010));
    assert!(skips_record(true, 0b10001));
    assert!(!skips_record(true, 0b11111));
    assert!(!skips_record(false, 0b10010));
}
