//! Line framing and error classification on concrete values.

use serialguard::line::strip_line_terminator;
use serialguard::listener::should_invoke;
use serialguard::{
    errors::{classify_failure, classify_outcome},
    IoFailure, ReadResult, SerialError,
};

#[test]
fn strip_plain_newline() {
    assert_eq!(strip_line_terminator(b"abc\n"), b"abc".to_vec());
}

#[test]
fn strip_carriage_return_newline() {
    assert_eq!(strip_line_terminator(b"abc\r\n"), b"abc".to_vec());
}

#[test]
fn strip_unterminated_line() {
    assert_eq!(strip_line_terminator(b"abc"), b"abc".to_vec());
}

#[test]
fn strip_keeps_interior_carriage_return() {
    assert_eq!(strip_line_terminator(b"a\rb\n"), b"a\rb".to_vec());
}

#[test]
fn strip_empty_terminated_line() {
    assert_eq!(strip_line_terminator(b"\n"), Vec::<u8>::new());
    assert_eq!(strip_line_terminator(b"\r\n"), Vec::<u8>::new());
}

#[test]
fn strip_lone_carriage_return_is_content() {
    assert_eq!(strip_line_terminator(b"\r"), b"\r".to_vec());
}

#[test]
fn strip_empty_input() {
    assert_eq!(strip_line_terminator(b""), Vec::<u8>::new());
}

#[test]
fn classify_interrupted_is_retryable_class() {
    assert_eq!(
        classify_failure(IoFailure::Interrupted),
        SerialError::Interrupted
    );
}

#[test]
fn classify_timed_out() {
    assert_eq!(classify_failure(IoFailure::TimedOut), SerialError::Timeout);
}

#[test]
fn classify_other() {
    assert_eq!(classify_failure(IoFailure::Other), SerialError::Other);
}

#[test]
fn classify_success() {
    assert_eq!(classify_outcome(Ok(())), SerialError::NoErr);
    assert_eq!(
        classify_outcome(Err(IoFailure::TimedOut)),
        SerialError::Timeout
    );
}

#[test]
fn listener_invokes_only_on_nonempty_success() {
    assert!(should_invoke(ReadResult {
        error: SerialError::NoErr,
        bytes_read: 4,
    }));
    assert!(!should_invoke(ReadResult {
        error: SerialError::NoErr,
        bytes_read: 0,
    }));
    assert!(!should_invoke(ReadResult {
        error: SerialError::Timeout,
        bytes_read: 0,
    }));
    assert!(!should_invoke(ReadResult {
        error: SerialError::Other,
        bytes_read: 0,
    }));
}
