use macrodeck::serial::{left_after, text_len, WriteOutcome};

#[test]
fn text_ends_at_the_first_zero() {
    assert_eq!(text_len(b"hello\0\0\0"), 5);
    assert_eq!(text_len(b"hello"), 5);
    assert_eq!(text_len(b"\0hello"), 0);
    assert_eq!(text_len(b""), 0);
    assert_eq!(text_len(b"a\0b\0"), 1);
}

#[test]
fn written_bytes_leave_the_rest() {
    assert_eq!(left_after(10, WriteOutcome::Written(4), true), Some(6));
    assert_eq!(left_after(10, WriteOutcome::Written(4), false), Some(6));
    assert_eq!(left_after(10, WriteOutcome::Written(10), false), Some(0));
    assert_eq!(left_after(10, WriteOutcome::Written(0), false), Some(10));
    assert_eq!(left_after(10, WriteOutcome::Written(11), false), Some(0));
}

#[test]
fn full_port_is_waited_for_only_when_blocking() {
    assert_eq!(left_after(10, WriteOutcome::WouldBlock, true), Some(10));
    assert_eq!(left_after(10, WriteOutcome::WouldBlock, false), None);
}

#[test]
fn failed_port_drops_the_rest() {
    assert_eq!(left_after(10, WriteOutcome::Failed, true), None);
    assert_eq!(left_after(10, WriteOutcome::Failed, false), None);
}
