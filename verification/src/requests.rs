//! What each kind of request does with the board, once the request has been
//! decoded and access to the board has been granted.

use crate::board::{spec_append, spec_extends, spec_read_from, MessageBoard};
use crate::message::Message;
use crate::pagination::ListMessagesParams;
use vstd::prelude::*;

verus! {

/// List all messages, starting from the one that `params` names. Asking for
/// messages from 100 on when there are only 2 yields an empty list.
pub fn list_messages<'a>(params: &ListMessagesParams, board: &'a MessageBoard) -> (messages:
    &'a [Message])
    ensures
        messages@ == spec_read_from(board@, params.first_message_id as int),
        params.first_message_id <= board@.len() ==> messages@.len() == board@.len()
            - params.first_message_id,
        params.first_message_id >= board@.len() ==> messages@.len() == 0,
        forall|i: int|
            0 <= i < messages@.len() ==> messages@[i] == board@[params.first_message_id + i],
{
    board.read_from(params.first_message_id)
}

/// Post a message to the board: `message` is stored as it is, at the end of
/// the log, with the time of the call.
pub fn send_message(board: &mut MessageBoard, message: String)
    ensures
        final(board)@ == spec_append(
            old(board)@,
            Message { timestamp: final(board)@.last().timestamp, message },
        ),
        final(board)@.len() == old(board)@.len() + 1,
        spec_extends(old(board)@, final(board)@),
{
    board.append(message);
}

} // verus!
