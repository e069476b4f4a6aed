use mqtt_subscriber::poll_error::{classify_poll_error, contains_bytes, PollFailure};

#[test]
fn message_that_mentions_disconnected_is_a_lost_connection() {
    assert_eq!(
        classify_poll_error("I/O: peer disconnected"),
        PollFailure::ConnectionLost
    );
    assert_eq!(classify_poll_error("disconnected"), PollFailure::ConnectionLost);
    assert_eq!(
        classify_poll_error("channel is empty and disconnected."),
        PollFailure::ConnectionLost
    );
}

#[test]
fn other_messages_are_other_failures() {
    assert_eq!(classify_poll_error("Network timeout"), PollFailure::Other);
    assert_eq!(classify_poll_error(""), PollFailure::Other);
    assert_eq!(classify_poll_error("Disconnected"), PollFailure::Other);
    assert_eq!(classify_poll_error("disconnecte"), PollFailure::Other);
    assert_eq!(classify_poll_error("disconnect ed"), PollFailure::Other);
}

#[test]
fn search_finds_a_word_at_either_end_and_inside() {
    assert!(contains_bytes(b"abcdef", b"abc"));
    assert!(contains_bytes(b"abcdef", b"def"));
    assert!(contains_bytes(b"abcdef", b"cd"));
    assert!(contains_bytes(b"abcdef", b"abcdef"));
    assert!(contains_bytes(b"aaab", b"aab"));
}

#[test]
fn search_rejects_what_is_not_there() {
    assert!(!contains_bytes(b"abcdef", b"abd"));
    assert!(!contains_bytes(b"abc", b"abcd"));
    assert!(!contains_bytes(b"", b"a"));
    assert!(!contains_bytes(b"abab", b"ba b"));
}

#[test]
fn empty_word_occurs_everywhere() {
    assert!(contains_bytes(b"abc", b""));
    assert!(contains_bytes(b"", b""));
}
