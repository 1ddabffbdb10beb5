//! A single entry of the board, and the clock that stamps it.

use std::time::SystemTime;
use vstd::prelude::*;

verus! {

/// `std::time::SystemTime`, a point in time as the system clock measures it.
/// Nothing inside a value is visible to proofs: a timestamp is carried, never
/// inspected.
#[verifier::external_type_specification]
#[verifier::external_body]
pub struct ExSystemTime(SystemTime);

/// `SystemTime::now`, the current reading of the system clock. The reading
/// depends on when the call is made, so nothing is claimed of it.
pub assume_specification[ SystemTime::now ]() -> (now: SystemTime);

/// Single message on a message board.
#[derive(Debug)]
pub struct Message {
    /// The time the message was sent.
    pub timestamp: SystemTime,
    /// The message.
    pub message: String,
}

impl Clone for Message {
    /// A copy with the same timestamp and the same text.
    fn clone(&self) -> (copy: Message)
        ensures
            copy.timestamp == self.timestamp,
            copy.message@ == self.message@,
    {
        Message { timestamp: self.timestamp, message: self.message.clone() }
    }
}

} // verus!
