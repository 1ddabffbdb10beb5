//! What holds of the log over any run of appends and reads.

use crate::board::{spec_append, spec_extends, spec_read_from};
use crate::message::Message;
use crate::pagination::spec_effective_offset;
use crate::query::{spec_digits_value, spec_is_offset_text, spec_parse_offset, spec_sign_length};
use vstd::prelude::*;

verus! {

/// The log after each message of `entries` has been appended to `log`, one
/// at a time and in order.
pub open spec fn spec_append_all(log: Seq<Message>, entries: Seq<Message>) -> Seq<Message>
    decreases entries.len(),
{
    if entries.len() == 0 {
        log
    } else {
        spec_append(spec_append_all(log, entries.drop_last()), entries.last())
    }
}

/// Appending a run of messages one at a time puts the whole run, in order,
/// behind what the log held.
pub proof fn lemma_append_all_concatenates(log: Seq<Message>, entries: Seq<Message>)
    ensures
        spec_append_all(log, entries) == log + entries,
    decreases entries.len(),
{
    if entries.len() == 0 {
        assert(log + entries =~= log);
    } else {
        lemma_append_all_concatenates(log, entries.drop_last());
        assert((log + entries.drop_last()).push(entries.last()) =~= log + entries);
    }
}

/// After any run of appends to an empty log, a read from offset 0 returns
/// exactly the appended messages, as many as were appended and in the order
/// of the appends: message `i` is the `i`-th one appended, text and all.
pub proof fn lemma_read_from_start_returns_all_appended(entries: Seq<Message>)
    ensures
        spec_read_from(spec_append_all(Seq::empty(), entries), 0) == entries,
        spec_read_from(spec_append_all(Seq::empty(), entries), 0).len() == entries.len(),
        forall|i: int|
            0 <= i < entries.len() ==> spec_read_from(
                spec_append_all(Seq::empty(), entries),
                0,
            )[i].message == entries[i].message,
{
    lemma_append_all_concatenates(Seq::empty(), entries);
    assert(Seq::<Message>::empty() + entries =~= entries);
    assert(entries.subrange(0, entries.len() as int) =~= entries);
}

/// A read from an offset `k` within a log of `N` messages returns exactly
/// its last `N - k` messages, in log order.
pub proof fn lemma_read_from_returns_tail(log: Seq<Message>, k: int)
    requires
        0 <= k <= log.len(),
    ensures
        spec_read_from(log, k) == log.skip(k),
        spec_read_from(log, k).len() == log.len() - k,
        forall|i: int| 0 <= i < log.len() - k ==> spec_read_from(log, k)[i] == log[k + i],
{
}

/// A read from an offset past the end of the log returns the empty
/// sequence.
pub proof fn lemma_read_past_end_is_empty(log: Seq<Message>, k: int)
    requires
        k > log.len(),
    ensures
        spec_read_from(log, k) == Seq::<Message>::empty(),
{
}

/// Capping the offset first changes nothing: a read caps it anyway.
pub proof fn lemma_read_from_caps_offset(log: Seq<Message>, k: int)
    requires
        0 <= k,
    ensures
        spec_read_from(log, spec_effective_offset(k, log.len() as int)) == spec_read_from(log, k),
        0 <= spec_effective_offset(k, log.len() as int) <= log.len(),
{
}

/// One append makes the log longer by exactly one message and leaves every
/// earlier message under its index.
pub proof fn lemma_append_grows_by_one(log: Seq<Message>, entry: Message)
    ensures
        spec_append(log, entry).len() == log.len() + 1,
        spec_extends(log, spec_append(log, entry)),
        spec_append(log, entry)[log.len() as int] == entry,
{
    assert(spec_append(log, entry).subrange(0, log.len() as int) =~= log);
}

/// Over any run of appends the log never gets shorter and never loses or
/// moves a message: it grows by one message for each append.
pub proof fn lemma_appends_only_grow(log: Seq<Message>, entries: Seq<Message>)
    ensures
        spec_append_all(log, entries).len() == log.len() + entries.len(),
        spec_extends(log, spec_append_all(log, entries)),
{
    lemma_append_all_concatenates(log, entries);
    assert((log + entries).subrange(0, log.len() as int) =~= log);
}

/// Growth carries over: what extends an extension of a log extends the log.
pub proof fn lemma_extends_is_transitive(
    first: Seq<Message>,
    second: Seq<Message>,
    third: Seq<Message>,
)
    requires
        spec_extends(first, second),
        spec_extends(second, third),
    ensures
        spec_extends(first, third),
{
    assert(third.subrange(0, first.len() as int) =~= second.subrange(0, first.len() as int));
}

/// Appends that are applied one at a time, in whatever order they came to
/// be applied, take consecutive indices: the `i`-th one applied lands at
/// index `log.len() + i`, so no two share an index, no index is skipped and
/// no message is lost or stored twice.
pub proof fn lemma_appends_take_consecutive_indices(log: Seq<Message>, entries: Seq<Message>)
    ensures
        spec_append_all(log, entries).len() == log.len() + entries.len(),
        forall|i: int|
            0 <= i < entries.len() ==> spec_append_all(log, entries)[log.len() + i] == entries[i],
        forall|i: int| 0 <= i < log.len() ==> spec_append_all(log, entries)[i] == log[i],
{
    lemma_append_all_concatenates(log, entries);
}

/// A read that follows an append sees the appended message, whole, at the
/// end of what the same read returned before the append.
pub proof fn lemma_read_after_append_sees_message(log: Seq<Message>, entry: Message, k: int)
    requires
        0 <= k <= log.len(),
    ensures
        spec_read_from(spec_append(log, entry), k) == spec_read_from(log, k).push(entry),
{
    assert(spec_read_from(spec_append(log, entry), k) =~= spec_read_from(log, k).push(entry));
}

/// Every text that writes a non-negative decimal integer is decoded, and
/// no other is. The read that starts at the decoded offset returns the
/// messages from the written number on; where the number lies at or past
/// the end of the log, however large it is, that is the empty sequence.
pub proof fn lemma_numeric_offset_is_never_refused(log: Seq<Message>, text: Seq<u8>)
    requires
        log.len() <= usize::MAX,
    ensures
        spec_parse_offset(text) is Some <==> spec_is_offset_text(text),
        spec_is_offset_text(text) ==> {
            let written = spec_digits_value(text.skip(spec_sign_length(text)));
            let decoded = spec_parse_offset(text).unwrap();
            &&& written <= log.len() ==> spec_read_from(log, decoded as int) == log.skip(
                written as int,
            )
            &&& written >= log.len() ==> spec_read_from(log, decoded as int) == Seq::<
                Message,
            >::empty()
        },
{
}

} // verus!
