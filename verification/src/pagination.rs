//! Turning a requested starting offset into one that is safe to read from.

use vstd::prelude::*;

verus! {

/// The offset a read really starts at: the requested one, capped at the
/// length of the log.
pub open spec fn spec_effective_offset(requested: int, length: int) -> int {
    if requested <= length {
        requested
    } else {
        length
    }
}

/// Caps `requested_offset` at `log_length`, so that a read which starts
/// there never addresses past the end of the log.
pub fn effective_offset(requested_offset: usize, log_length: usize) -> (offset: usize)
    ensures
        offset == spec_effective_offset(requested_offset as int, log_length as int),
        offset <= log_length,
        offset <= requested_offset,
{
    if requested_offset <= log_length {
        requested_offset
    } else {
        log_length
    }
}

/// What a request to list messages asks for.
#[derive(Clone, Copy, Debug)]
pub struct ListMessagesParams {
    /// First message ID to get. Starts from this point. Defaults to 0.
    pub first_message_id: usize,
}

impl Default for ListMessagesParams {
    /// A request for the whole log.
    fn default() -> (params: ListMessagesParams)
        ensures
            params.first_message_id == 0,
    {
        ListMessagesParams { first_message_id: 0 }
    }
}

} // verus!
