use time_cache::handle::{after_read, parse_frame, ReadOutcome};

#[test]
fn incomplete_frames() {
    assert!(parse_frame(&[]).is_none());
    assert!(parse_frame(&[0, 101, 0, 0, 0]).is_none());
    assert!(parse_frame(&[0, 101, 0, 0, 0, 3, 1, 2]).is_none());
}

#[test]
fn complete_frame() {
    let f = parse_frame(&[0x01, 0x2d, 0, 0, 0, 3, 7, 8, 9, 42]).unwrap();
    assert_eq!(f.action, 301);
    assert_eq!(f.payload, vec![7, 8, 9]);
    assert_eq!(f.consumed, 9);
}

#[test]
fn empty_payload_frame() {
    let f = parse_frame(&[0, 201, 0, 0, 0, 0]).unwrap();
    assert_eq!(f.action, 201);
    assert!(f.payload.is_empty());
    assert_eq!(f.consumed, 6);
}

#[test]
fn large_announced_length() {
    assert!(parse_frame(&[0, 101, 0xff, 0xff, 0xff, 0xff, 1]).is_none());
    let mut buf = vec![0u8, 101, 0, 0, 1, 0];
    buf.extend(std::iter::repeat(5u8).take(256));
    let f = parse_frame(&buf).unwrap();
    assert_eq!(f.payload.len(), 256);
}

#[test]
fn read_outcomes() {
    assert_eq!(after_read(0, 4), ReadOutcome::Continue);
    assert_eq!(after_read(0, 0), ReadOutcome::Closed);
    assert_eq!(after_read(3, 0), ReadOutcome::Reset);
}
