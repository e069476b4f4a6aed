//! Telling a lost connection from other failures of a poll.

use vstd::prelude::*;
use vstd::string::StringSliceAdditionalSpecFns;

verus! {

/// What a failed poll means for the connection.
#[derive(Clone, Copy, Debug, PartialEq, Eq, Structural)]
pub enum PollFailure {
    /// The connection is gone.
    ConnectionLost,
    /// Anything else; the poll is retried after a short pause.
    Other,
}

/// `word` occurs in `text` at position `at`.
pub open spec fn occurs_at(text: Seq<u8>, word: Seq<u8>, at: int) -> bool {
    0 <= at && at + word.len() <= text.len() && text.subrange(at, at + word.len()) == word
}

/// `word` occurs somewhere in `text`.
pub open spec fn occurs_in(text: Seq<u8>, word: Seq<u8>) -> bool {
    exists|at: int| occurs_at(text, word, at)
}

/// Whether `word` occurs at position `at` of `text`.
fn matches_at(text: &[u8], word: &[u8], at: usize) -> (r: bool)
    requires
        at + word@.len() <= text@.len(),
    ensures
        r == occurs_at(text@, word@, at as int),
{
    let length = text.len();
    let mut k: usize = 0;
    while k < word.len()
        invariant
            k <= word@.len(),
            at + word@.len() <= text@.len(),
            length == text@.len(),
            forall|j: int| 0 <= j < k ==> text@[at + j] == word@[j],
        decreases word@.len() - k,
    {
        if text[at + k] != word[k] {
            assert(text@.subrange(at as int, at + word@.len())[k as int] != word@[k as int]);
            return false;
        }
        k += 1;
    }
    assert(text@.subrange(at as int, at + word@.len()) =~= word@);
    true
}

/// Whether the bytes of `word` occur, in a row, among those of `text`.
pub fn contains_bytes(text: &[u8], word: &[u8]) -> (r: bool)
    ensures
        r == occurs_in(text@, word@),
{
    if word.len() > text.len() {
        return false;
    }
    let last = text.len() - word.len();
    let mut at: usize = 0;
    while at < last
        invariant
            at <= last,
            last == text@.len() - word@.len(),
            forall|j: int| 0 <= j < at ==> !occurs_at(text@, word@, j),
        decreases last - at,
    {
        if matches_at(text, word, at) {
            return true;
        }
        at += 1;
    }
    matches_at(text, word, last)
}

/// The text that marks the message of a lost connection.
pub open spec fn lost_marker() -> Seq<u8> {
    "disconnected".spec_bytes()
}

/// Reads the message of a failed poll: one that mentions `disconnected` reports a lost
/// connection, any other a failure that a later poll may get over.
pub fn classify_poll_error(message: &str) -> (r: PollFailure)
    ensures
        r == if occurs_in(message.spec_bytes(), lost_marker()) {
            PollFailure::ConnectionLost
        } else {
            PollFailure::Other
        },
{
    if contains_bytes(message.as_bytes(), "disconnected".as_bytes()) {
        PollFailure::ConnectionLost
    } else {
        PollFailure::Other
    }
}

} // verus!
