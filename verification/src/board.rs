//! The message log: an ordered sequence of messages that only ever grows.

use crate::message::Message;
use crate::pagination::{effective_offset, spec_effective_offset};
use std::time::SystemTime;
use vstd::prelude::*;
use vstd::slice::slice_subrange;

verus! {

/// The log after `entry` has been added at its end.
pub open spec fn spec_append(log: Seq<Message>, entry: Message) -> Seq<Message> {
    log.push(entry)
}

/// The messages of `log` whose index is at least `offset`, in log order. An
/// offset past the end gives the empty sequence.
pub open spec fn spec_read_from(log: Seq<Message>, offset: int) -> Seq<Message> {
    log.subrange(spec_effective_offset(offset, log.len() as int), log.len() as int)
}

/// Whether `later` is `earlier` with zero or more messages added at its end:
/// every message of `earlier` is still there, under the index it had.
pub open spec fn spec_extends(earlier: Seq<Message>, later: Seq<Message>) -> bool {
    earlier.len() <= later.len() && later.subrange(0, earlier.len() as int) == earlier
}

/// Global app data for a message board.
pub struct MessageBoard {
    /// All messages in the chatroom.
    messages: Vec<Message>,
}

impl View for MessageBoard {
    type V = Seq<Message>;

    /// The messages of the board, oldest first.
    closed spec fn view(&self) -> Seq<Message> {
        self.messages@
    }
}

impl Default for MessageBoard {
    /// The empty board.
    fn default() -> (board: MessageBoard)
        ensures
            board@ == Seq::<Message>::empty(),
    {
        MessageBoard { messages: Vec::new() }
    }
}

impl MessageBoard {
    /// The empty board.
    pub fn new() -> (board: MessageBoard)
        ensures
            board@ == Seq::<Message>::empty(),
    {
        MessageBoard { messages: Vec::new() }
    }

    /// How many messages the board holds.
    pub fn len(&self) -> (length: usize)
        ensures
            length == self@.len(),
    {
        self.messages.len()
    }

    /// Adds a message with the given text and the given timestamp at the end
    /// of the board, and returns the index it was given: the next unused one.
    /// Everything that was on the board stays where it was. It cannot fail.
    pub fn append_at(&mut self, timestamp: SystemTime, text: String) -> (index: usize)
        ensures
            final(self)@ == spec_append(old(self)@, Message { timestamp, message: text }),
            final(self)@.len() == old(self)@.len() + 1,
            spec_extends(old(self)@, final(self)@),
            index == old(self)@.len(),
            final(self)@[index as int] == (Message { timestamp, message: text }),
    {
        let index = self.messages.len();
        self.messages.push(Message { timestamp, message: text });
        assert(self.messages@.subrange(0, index as int) =~= old(self).messages@);
        index
    }

    /// Adds a message with the given text, stamped with the time of the call,
    /// at the end of the board, and returns the index it was given. Which
    /// time that is depends on the clock; everything else is fixed.
    pub fn append(&mut self, text: String) -> (index: usize)
        ensures
            final(self)@ == spec_append(
                old(self)@,
                Message { timestamp: final(self)@.last().timestamp, message: text },
            ),
            final(self)@.len() == old(self)@.len() + 1,
            spec_extends(old(self)@, final(self)@),
            index == old(self)@.len(),
            final(self)@[index as int].message == text,
    {
        let timestamp = SystemTime::now();
        self.append_at(timestamp, text)
    }

    /// The messages whose index is at least `offset`, in log order. An offset
    /// at or past the end gives the empty slice, never a fault.
    pub fn read_from(&self, offset: usize) -> (messages: &[Message])
        ensures
            messages@ == spec_read_from(self@, offset as int),
            offset <= self@.len() ==> messages@.len() == self@.len() - offset,
            offset >= self@.len() ==> messages@.len() == 0,
            forall|i: int| 0 <= i < messages@.len() ==> messages@[i] == self@[offset + i],
    {
        let length = self.messages.len();
        let first = effective_offset(offset, length);
        slice_subrange(self.messages.as_slice(), first, length)
    }
}

} // verus!
