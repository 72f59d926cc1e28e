//! The rotating selector: the quotation that is current, since when, and
//! the store it was drawn from.

use vstd::prelude::*;
use crate::clock::{wall_clock, Timestamp};
use crate::quote::{Quote, QuoteView};

verus! {

/// A selection stays current while no more than this many nanoseconds have
/// passed since it was made: 24 hours.
pub const TIME_TO_LIVE_NANOS: u128 = 86_400_000_000_000;

/// What a `CurrentQuote` is in contracts: the store in its order, the place
/// of the current quotation in it, and when that selection was made.
pub struct SelectorView {
    pub store: Seq<QuoteView>,
    pub current: int,
    pub time: Timestamp,
}

impl SelectorView {
    /// The state right after startup at `start`: the first quotation of the
    /// store is current.
    pub open spec fn initial(store: Seq<QuoteView>, start: Timestamp) -> SelectorView {
        SelectorView { store, current: 0, time: start }
    }

    /// The store is not empty and the current quotation is one of it.
    pub open spec fn wf(self) -> bool {
        0 <= self.current < self.store.len()
    }

    /// The current quotation.
    pub open spec fn quote(self) -> QuoteView {
        self.store[self.current]
    }

    /// The text sent for the current quotation.
    pub open spec fn text(self) -> Seq<char> {
        self.quote().formatted()
    }

    /// More than 24 hours have passed between the selection and `now`. A
    /// `now` that is not after the selection counts as no time passed.
    pub open spec fn expired_at(self, now: Timestamp) -> bool {
        now.nanos > self.time.nanos && now.nanos - self.time.nanos > TIME_TO_LIVE_NANOS
    }

    /// The state after a rotation at `now` to the quotation at `pick`:
    /// selection and time change together, the store stays.
    pub open spec fn rotated(self, now: Timestamp, pick: int) -> SelectorView {
        SelectorView { store: self.store, current: pick, time: now }
    }

    /// Whether `next` is a state that one request can leave behind, whatever
    /// the clock reads and whatever is drawn: this state itself, or a
    /// rotation to a quotation of the store at an instant at which the
    /// selection has expired.
    pub open spec fn may_become(self, next: SelectorView) -> bool {
        next == self || exists|now: Timestamp, pick: int|
            0 <= pick < self.store.len() && self.expired_at(now) && next == #[trigger] self.rotated(
                now,
                pick,
            )
    }

    /// The state after a request observed at `now`, where `pick` is the
    /// place drawn in case a rotation is due.
    pub open spec fn observed(self, now: Timestamp, pick: int) -> SelectorView {
        if self.expired_at(now) {
            self.rotated(now, pick)
        } else {
            self
        }
    }
}

/// The views of the quotations of a store, in its order.
pub open spec fn store_view(quotes: Seq<Quote>) -> Seq<QuoteView> {
    Seq::new(quotes.len(), |i: int| quotes[i]@)
}

/// The current quotation, the time of its selection, and the store.
pub struct CurrentQuote {
    current: usize,
    time: Timestamp,
    quotes: Vec<Quote>,
}

impl View for CurrentQuote {
    type V = SelectorView;

    closed spec fn view(&self) -> SelectorView {
        SelectorView {
            store: store_view(self.quotes@),
            current: self.current as int,
            time: self.time,
        }
    }
}

/// `rand::Rng::gen_range` on `rand::thread_rng()`, with the range from 0 up
/// to and without `len`: a place below `len`. The call panics on an empty
/// range, so `len` is not 0. Which place comes is not said.
#[verifier::external_body]
fn random_index(len: usize) -> (pick: usize)
    requires
        len > 0,
    ensures
        pick < len,
{
    rand::Rng::gen_range(&mut rand::thread_rng(), 0..len)
}

impl CurrentQuote {
    /// The store is not empty and the current quotation is one of it.
    pub open spec fn wf(&self) -> bool {
        self@.wf()
    }

    /// The selector at startup: the first quotation of `quotes` is current,
    /// selected at `now`. There is none for an empty store.
    pub fn new(quotes: Vec<Quote>, now: Timestamp) -> (made: Option<CurrentQuote>)
        ensures
            made is None <==> quotes@.len() == 0,
            made matches Some(s) ==> s.wf() && s@ == SelectorView::initial(
                store_view(quotes@),
                now,
            ),
    {
        if quotes.len() == 0 {
            None
        } else {
            Some(CurrentQuote { current: 0, time: now, quotes })
        }
    }

    /// The number of quotations in the store.
    pub fn len(&self) -> (n: usize)
        ensures
            n == self@.store.len(),
    {
        self.quotes.len()
    }

    /// The place of the current quotation in the store.
    pub fn current_index(&self) -> (i: usize)
        ensures
            i == self@.current,
    {
        self.current
    }

    /// When the current quotation was selected.
    pub fn selected_at(&self) -> (t: Timestamp)
        ensures
            t == self@.time,
    {
        self.time
    }

    /// The current quotation.
    pub fn quote(&self) -> (q: &Quote)
        requires
            self.wf(),
        ensures
            q@ == self@.quote(),
    {
        &self.quotes[self.current]
    }

    /// The text sent for the current quotation.
    pub fn to_string(&self) -> (out: String)
        requires
            self.wf(),
        ensures
            out@ == self@.text(),
    {
        self.quotes[self.current].to_string()
    }

    /// Whether a request observed at `now` finds the selection older than
    /// its time to live.
    pub fn is_expired(&self, now: Timestamp) -> (due: bool)
        ensures
            due == self@.expired_at(now),
    {
        now.nanos > self.time.nanos && now.nanos - self.time.nanos > TIME_TO_LIVE_NANOS
    }

    /// Makes the quotation at `pick` current as of `now`.
    pub fn rotate(&mut self, now: Timestamp, pick: usize)
        requires
            pick < old(self)@.store.len(),
        ensures
            final(self)@ == old(self)@.rotated(now, pick as int),
            final(self).wf(),
    {
        self.current = pick;
        self.time = now;
    }

    /// Serves a request observed at `now`: rotates to the quotation at
    /// `pick` where the selection has expired, and returns the text of the
    /// quotation that is current after that.
    pub fn get_string_at(&mut self, now: Timestamp, pick: usize) -> (out: String)
        requires
            old(self).wf(),
            pick < old(self)@.store.len(),
        ensures
            final(self)@ == old(self)@.observed(now, pick as int),
            final(self).wf(),
            out@ == final(self)@.text(),
    {
        if self.is_expired(now) {
            self.rotate(now, pick);
        }
        self.to_string()
    }

    /// Serves a request: reads the clock, draws a place at random where the
    /// selection has expired at that reading, and serves the request as
    /// observed at the reading with that place. Where the clock gives no
    /// reading, nothing changes and the current text is returned.
    pub fn get_string(&mut self) -> (out: String)
        requires
            old(self).wf(),
        ensures
            final(self).wf(),
            final(self)@.store == old(self)@.store,
            out@ == final(self)@.text(),
            old(self)@.may_become(final(self)@),
            final(self)@ != old(self)@ ==> final(self)@.time.is_reading()
                && old(self)@.expired_at(final(self)@.time),
    {
        match wall_clock() {
            Some(now) => {
                let pick: usize = if self.is_expired(now) {
                    random_index(self.quotes.len())
                } else {
                    0
                };
                let out = self.get_string_at(now, pick);
                assert(self@ != old(self)@ ==> self@ == old(self)@.rotated(now, pick as int));
                out
            },
            None => self.to_string(),
        }
    }
}

/// The first text served after startup is that of the first quotation of
/// the store: a request that comes before the first selection has expired
/// gets it, whatever would have been drawn.
pub proof fn lemma_first_served_is_first_in_store(
    store: Seq<QuoteView>,
    start: Timestamp,
    now: Timestamp,
    pick: int,
)
    requires
        store.len() > 0,
        !SelectorView::initial(store, start).expired_at(now),
    ensures
        SelectorView::initial(store, start).wf(),
        SelectorView::initial(store, start).observed(now, pick).text() == store[0].formatted(),
{
}

/// A request at the very instant of startup gets the first quotation.
pub proof fn lemma_startup_instant_serves_first(store: Seq<QuoteView>, start: Timestamp, pick: int)
    requires
        store.len() > 0,
    ensures
        SelectorView::initial(store, start).observed(start, pick).text() == store[0].formatted(),
{
}

/// Requests that come while the selection has not expired leave the state
/// as it is and get the same text.
pub proof fn lemma_stable_within_time_to_live(
    s: SelectorView,
    first: Timestamp,
    first_pick: int,
    second: Timestamp,
    second_pick: int,
)
    requires
        !s.expired_at(first),
        !s.expired_at(second),
    ensures
        s.observed(first, first_pick) == s,
        s.observed(first, first_pick).observed(second, second_pick) == s,
        s.observed(first, first_pick).text() == s.observed(first, first_pick).observed(
            second,
            second_pick,
        ).text(),
{
}

/// A request that comes more than 24 hours after the selection, be it by
/// a nanosecond, rotates once: the drawn quotation becomes current as of
/// that request, and requests up to 24 hours after it rotate no more.
pub proof fn lemma_rotation_resets_window(
    s: SelectorView,
    now: Timestamp,
    pick: int,
    later: Timestamp,
    later_pick: int,
)
    requires
        now.nanos - s.time.nanos > TIME_TO_LIVE_NANOS,
        later.nanos - now.nanos <= TIME_TO_LIVE_NANOS,
    ensures
        s.expired_at(now),
        s.observed(now, pick) == s.rotated(now, pick),
        s.observed(now, pick).current == pick,
        s.observed(now, pick).time == now,
        s.observed(now, pick).store == s.store,
        s.observed(now, pick).observed(later, later_pick) == s.observed(now, pick),
{
}

/// Two requests observed at the same instant see the same selection and
/// the same time of selection, whatever each would have drawn: the second
/// finds what the first left and changes nothing.
pub proof fn lemma_same_instant_same_quote(
    s: SelectorView,
    now: Timestamp,
    first_pick: int,
    second_pick: int,
)
    ensures
        s.observed(now, first_pick).observed(now, second_pick) == s.observed(now, first_pick),
        s.observed(now, first_pick).observed(now, second_pick).text() == s.observed(
            now,
            first_pick,
        ).text(),
{
}

/// Whatever one request leaves behind, the store is as it was and the
/// current quotation is one of it; and the state changed only if the
/// selection had expired at the instant that is now the time of selection.
pub proof fn lemma_may_become_keeps_invariant(s: SelectorView, next: SelectorView)
    requires
        s.wf(),
        s.may_become(next),
    ensures
        next.wf(),
        next.store == s.store,
        next != s ==> s.expired_at(next.time),
{
}

/// Whatever is observed, the current quotation stays one of the store, the
/// store stays as it was, and a selection made no later than `now` is
/// followed by one made no later than `now`.
pub proof fn lemma_observed_keeps_invariant(s: SelectorView, now: Timestamp, pick: int)
    requires
        s.wf(),
        0 <= pick < s.store.len(),
    ensures
        s.observed(now, pick).wf(),
        s.observed(now, pick).store == s.store,
        s.time.nanos <= now.nanos ==> s.observed(now, pick).time.nanos <= now.nanos,
        s.observed(now, pick).time == s.time || s.observed(now, pick).time == now,
{
}

} // verus!
