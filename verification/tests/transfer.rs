use netbench::stats::Stats;
use netbench::transfer::{transmit_stats, Transfer};

/// Drives a whole transfer the way the stream transport does, with the
/// transport accepting `accept` bytes per offered chunk (a partial write),
/// and returns the number of send operations performed.
fn drive(total: usize, chunk_size: usize, accept: impl Fn(usize) -> usize) -> usize {
    let mut t = Transfer::new(total);
    let mut sends = 0usize;
    while !t.is_done() {
        let len = t.next_chunk_len(chunk_size);
        let written = accept(len);
        assert!(written <= len);
        t.advance(written);
        sends += 1;
    }
    assert_eq!(t.remaining(), 0);
    sends
}

#[test]
fn transmit_reports_all_bytes_and_floored_operations() {
    // bytes == S and operations == S / C, integer division: the final
    // partial chunk is not counted as an extra operation.
    let s = transmit_stats(1000, 512, 7);
    assert_eq!(s.bytes, 1000);
    assert_eq!(s.operations, 1);
    assert_eq!(s.period_nanos, 7);
    assert!(!s.summary);

    let exact = transmit_stats(4096, 512, 1);
    assert_eq!(exact.bytes, 4096);
    assert_eq!(exact.operations, 8);

    let empty = transmit_stats(0, 512, 1);
    assert_eq!(empty.bytes, 0);
    assert_eq!(empty.operations, 0);
}

#[test]
fn transmit_twice_reports_equal_counts() {
    // Two runs over the same inputs report the same bytes and operations,
    // even though the measured periods differ.
    let first: Stats = transmit_stats(10 * 1024 * 1024, 4096, 123);
    let second: Stats = transmit_stats(10 * 1024 * 1024, 4096, 456_789);
    assert_eq!(first.bytes, second.bytes);
    assert_eq!(first.operations, second.operations);
    assert_ne!(first.period_nanos, second.period_nanos);
}

#[test]
fn chunking_covers_payload_with_full_writes() {
    // A message transport accepts every offered chunk whole: a 1000-byte
    // payload in chunks of 512 takes a 512-byte send and a 488-byte send.
    let sends = drive(1000, 512, |len| len);
    assert_eq!(sends, 2);
}

#[test]
fn chunking_retries_partial_writes() {
    // A stream socket that accepts at most 100 bytes per write still
    // drains the payload; the chunk restarts at the new offset each time.
    let sends = drive(1000, 512, |len| len.min(100));
    assert_eq!(sends, 10);
}

#[test]
fn chunk_lengths_never_overrun() {
    let mut t = Transfer::new(700);
    assert!(!t.is_done());
    assert_eq!(t.next_chunk_len(512), 512);
    t.advance(512);
    assert_eq!(t.remaining(), 188);
    assert_eq!(t.next_chunk_len(512), 188);
    t.advance(188);
    assert!(t.is_done());
}
