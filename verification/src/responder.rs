//! What a listener does with what arrives: every connection and every
//! datagram is answered with the current text, a failure with nothing.

use vstd::prelude::*;
use crate::clock::Timestamp;
use crate::selector::{CurrentQuote, SelectorView};

verus! {

/// What a listener hands over for one turn of its loop.
#[derive(Clone, Copy, Debug, PartialEq, Eq, Structural)]
pub enum Arrival {
    /// A connection was accepted.
    Connection,
    /// A datagram of `len` bytes was received. What it holds, and whether
    /// it holds anything, is of no account.
    Datagram { len: usize },
    /// Accepting or receiving failed.
    Failed,
}

impl Arrival {
    /// Whether the sender is owed a reply: always, but after a failure.
    pub open spec fn wants_reply(self) -> bool {
        !(self is Failed)
    }
}

/// The answer to what arrived, observed at `now`, where `pick` is the place
/// drawn in case a rotation is due: the current text for a connection or a
/// datagram, after the rotation if one was due; for a failure nothing, and
/// the selector stays as it is.
pub fn respond_at(
    selector: &mut CurrentQuote,
    arrival: Arrival,
    now: Timestamp,
    pick: usize,
) -> (reply: Option<String>)
    requires
        old(selector).wf(),
        pick < old(selector)@.store.len(),
    ensures
        final(selector).wf(),
        reply is Some <==> arrival.wants_reply(),
        arrival.wants_reply() ==> final(selector)@ == old(selector)@.observed(now, pick as int),
        !arrival.wants_reply() ==> final(selector)@ == old(selector)@,
        reply matches Some(text) ==> text@ == final(selector)@.text(),
{
    match arrival {
        Arrival::Failed => None,
        _ => Some(selector.get_string_at(now, pick)),
    }
}

/// The answer to what arrived, by the system clock and a random draw: the
/// current text for a connection or a datagram; for a failure nothing, and
/// the selector stays as it is.
pub fn respond(selector: &mut CurrentQuote, arrival: Arrival) -> (reply: Option<String>)
    requires
        old(selector).wf(),
    ensures
        final(selector).wf(),
        old(selector)@.may_become(final(selector)@),
        reply is Some <==> arrival.wants_reply(),
        !arrival.wants_reply() ==> final(selector)@ == old(selector)@,
        reply matches Some(text) ==> text@ == final(selector)@.text(),
{
    match arrival {
        Arrival::Failed => None,
        _ => Some(selector.get_string()),
    }
}

/// A reply is never empty, and it is the text of one of the quotations of
/// the store.
pub proof fn lemma_reply_is_from_store(s: SelectorView)
    requires
        s.wf(),
    ensures
        s.text().len() >= 4,
        exists|i: int| 0 <= i < s.store.len() && s.text() == (#[trigger] s.store[i]).formatted(),
{
    assert(s.text() == s.store[s.current].formatted());
}

} // verus!
