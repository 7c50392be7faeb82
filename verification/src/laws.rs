//! What holds of whole runs of the poll loop: order and completeness of
//! delivery, isolation of a refreshed session, and the idleness of a closed
//! one.

use vstd::prelude::*;
use crate::articles::CardView;
use crate::channel::PollOutcomeView;
use crate::headlines::HeadlinesView;
use crate::headlines::key_ok;
use crate::headlines::poll_step;
use crate::headlines::refreshed;

verus! {

/// The state after a whole sequence of poll outcomes, one `poll_step` each.
pub open spec fn poll_many(s: HeadlinesView, es: Seq<PollOutcomeView>) -> HeadlinesView
    decreases es.len(),
{
    if es.len() == 0 {
        s
    } else {
        poll_many(poll_step(s, es[0]), es.drop_first())
    }
}

/// The records a sequence of poll outcomes puts on display: each received
/// record in order, and nothing past the first closure.
pub open spec fn delivered(es: Seq<PollOutcomeView>) -> Seq<CardView>
    decreases es.len(),
{
    if es.len() == 0 {
        Seq::empty()
    } else {
        match es[0] {
            PollOutcomeView::Received(c) => seq![c] + delivered(es.drop_first()),
            PollOutcomeView::Empty => delivered(es.drop_first()),
            PollOutcomeView::Closed => Seq::empty(),
        }
    }
}

/// Without a live session the poll loop is idle: however many outcomes are
/// applied, the state does not move.
pub proof fn lemma_poll_after_close_is_noop(s: HeadlinesView, es: Seq<PollOutcomeView>)
    requires
        !s.has_session,
    ensures
        poll_many(s, es) == s,
    decreases es.len(),
{
    if es.len() > 0 {
        assert(poll_step(s, es[0]) == s);
        lemma_poll_after_close_is_noop(s, es.drop_first());
    }
}

/// Polling a live session appends exactly the delivered records, in arrival
/// order, to the end of the display list; nothing already on display moves.
pub proof fn lemma_poll_appends_delivered(s: HeadlinesView, es: Seq<PollOutcomeView>)
    requires
        s.has_session,
    ensures
        poll_many(s, es).articles =~= s.articles + delivered(es),
    decreases es.len(),
{
    if es.len() == 0 {
        assert(s.articles + delivered(es) =~= s.articles);
    } else {
        let rest = es.drop_first();
        match es[0] {
            PollOutcomeView::Received(c) => {
                let s1 = HeadlinesView { articles: s.articles.push(c), ..s };
                assert(poll_step(s, es[0]) == s1);
                lemma_poll_appends_delivered(s1, rest);
                assert(s.articles.push(c) + delivered(rest) =~= s.articles + (seq![c]
                    + delivered(rest)));
            },
            PollOutcomeView::Empty => {
                lemma_poll_appends_delivered(s, rest);
            },
            PollOutcomeView::Closed => {
                let s1 = HeadlinesView { has_session: false, ..s };
                assert(poll_step(s, es[0]) == s1);
                lemma_poll_after_close_is_noop(s1, rest);
                assert(s.articles + delivered(es) =~= s.articles);
            },
        }
    }
}

/// A run in which the worker delivers every record of a response and then
/// closes the channel.
pub open spec fn full_run(cards: Seq<CardView>) -> Seq<PollOutcomeView> {
    cards.map_values(|c: CardView| PollOutcomeView::Received(c)).push(PollOutcomeView::Closed)
}

/// A full run delivers exactly its records, in order.
pub proof fn lemma_full_run_delivers_all(cards: Seq<CardView>)
    ensures
        delivered(full_run(cards)) =~= cards,
    decreases cards.len(),
{
    let es = full_run(cards);
    if cards.len() == 0 {
        assert(es[0] == PollOutcomeView::Closed);
    } else {
        assert(es[0] == PollOutcomeView::Received(cards[0]));
        assert(es.drop_first() =~= full_run(cards.drop_first()));
        lemma_full_run_delivers_all(cards.drop_first());
        assert(seq![cards[0]] + cards.drop_first() =~= cards);
    }
}

/// Polling a live session through a whole response of N records grows the
/// display list by exactly those N records, in response order, and ends the
/// session.
pub proof fn lemma_full_fetch_fills_list(s: HeadlinesView, cards: Seq<CardView>)
    requires
        s.has_session,
    ensures
        poll_many(s, full_run(cards)).articles =~= s.articles + cards,
        !poll_many(s, full_run(cards)).has_session,
{
    let es = full_run(cards);
    lemma_poll_appends_delivered(s, es);
    lemma_full_run_delivers_all(cards);
    assert(es[cards.len() as int] == PollOutcomeView::Closed);
    assert(es.contains(PollOutcomeView::Closed));
    lemma_full_run_closes(s, es);
}

/// After any outcomes that contain a closure, the session is over.
proof fn lemma_full_run_closes(s: HeadlinesView, es: Seq<PollOutcomeView>)
    requires
        es.contains(PollOutcomeView::Closed),
    ensures
        !poll_many(s, es).has_session,
    decreases es.len(),
{
    if !s.has_session {
        lemma_poll_after_close_is_noop(s, es);
    } else if es[0] == PollOutcomeView::Closed {
        let s1 = HeadlinesView { has_session: false, ..s };
        assert(poll_step(s, es[0]) == s1);
        lemma_poll_after_close_is_noop(s1, es.drop_first());
    } else {
        assert(es.drop_first().contains(PollOutcomeView::Closed)) by {
            let i = choose|i: int| 0 <= i < es.len() && es[i] == PollOutcomeView::Closed;
            assert(es.drop_first()[i - 1] == PollOutcomeView::Closed);
        }
        lemma_full_run_closes(poll_step(s, es[0]), es.drop_first());
    }
}

/// A refresh discards the old session: with an accepted key, whatever the
/// poll loop puts on display after the refresh is exactly what was
/// delivered after it — records of an abandoned session never reappear.
pub proof fn lemma_refresh_isolates(s: HeadlinesView, es: Seq<PollOutcomeView>)
    requires
        key_ok(s.config.api_key),
    ensures
        poll_many(refreshed(s), es).articles =~= delivered(es),
{
    let r = refreshed(s);
    assert(r.has_session);
    assert(r.articles =~= Seq::<CardView>::empty());
    lemma_poll_appends_delivered(r, es);
    assert(r.articles + delivered(es) =~= delivered(es));
}

} // verus!
