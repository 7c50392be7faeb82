//! The fetch session's channel: a one-shot single-producer, single-consumer
//! queue of display records.
//!
//! The queue itself is the standard library's mpsc channel, held behind
//! trusted declarations; every decision taken on what comes out of it is
//! verified code in `headlines`.

use vstd::prelude::*;
use crate::articles::CardView;
use crate::articles::NewsCardData;
use crate::articles::RawArticle;

verus! {

#[verifier::external_type_specification]
#[verifier::external_body]
#[verifier::reject_recursive_types(T)]
pub struct ExSender<T>(std::sync::mpsc::Sender<T>);

#[verifier::external_type_specification]
#[verifier::external_body]
#[verifier::reject_recursive_types(T)]
pub struct ExReceiver<T>(std::sync::mpsc::Receiver<T>);

/// What one non-blocking look at the session's channel can yield: a record,
/// nothing for now, or the news that the producer is gone.
pub enum PollOutcome {
    Received(NewsCardData),
    Empty,
    Closed,
}

/// The mathematical content of a poll outcome.
#[verifier::ext_equal]
pub ghost enum PollOutcomeView {
    Received(CardView),
    Empty,
    Closed,
}

impl View for PollOutcome {
    type V = PollOutcomeView;

    open spec fn view(&self) -> PollOutcomeView {
        match self {
            PollOutcome::Received(c) => PollOutcomeView::Received(c@),
            PollOutcome::Empty => PollOutcomeView::Empty,
            PollOutcome::Closed => PollOutcomeView::Closed,
        }
    }
}

/// Relies on std::sync::mpsc::channel: creates a new asynchronous channel;
/// values sent on the returned sender can be received, in order, only on the
/// returned receiver.
#[verifier::external_body]
pub(crate) fn new_channel() -> (ends: (
    std::sync::mpsc::Sender<NewsCardData>,
    std::sync::mpsc::Receiver<NewsCardData>,
)) {
    std::sync::mpsc::channel()
}

/// Relies on std::sync::mpsc::Sender::send: queues the value for the
/// receiving end without blocking; it fails exactly when the receiver has
/// been dropped, and the value is then lost.
#[verifier::external_body]
fn send_card(tx: &std::sync::mpsc::Sender<NewsCardData>, card: NewsCardData) -> (ok: bool) {
    tx.send(card).is_ok()
}

/// Relies on std::sync::mpsc::Receiver::try_recv: without blocking, hands
/// out a queued value if one is waiting, reports an empty queue, or reports
/// the channel closed once the sender is dropped and the queue is drained.
#[verifier::external_body]
pub(crate) fn try_recv_card(rx: &std::sync::mpsc::Receiver<NewsCardData>) -> (o: PollOutcome) {
    match rx.try_recv() {
        Ok(card) => PollOutcome::Received(card),
        Err(std::sync::mpsc::TryRecvError::Empty) => PollOutcome::Empty,
        Err(std::sync::mpsc::TryRecvError::Disconnected) => PollOutcome::Closed,
    }
}

/// Turns each raw item into its display record and sends the records in
/// response order. A failed send means the receiving session is gone; the
/// run then stops silently, with nothing retried. Returns how many records
/// were sent.
pub fn deliver_cards(
    tx: &std::sync::mpsc::Sender<NewsCardData>,
    items: &Vec<RawArticle>,
) -> (sent: usize)
    ensures
        sent <= items@.len(),
{
    let mut cards = crate::articles::build_cards(items);
    let n = cards.len();
    let mut k: usize = 0;
    while k < n
        invariant
            k <= n,
            n == cards@.len() + k,
            n == items@.len(),
        decreases n - k,
    {
        let card = cards.remove(0);
        if !send_card(tx, card) {
            return k;
        }
        k = k + 1;
    }
    n
}

} // verus!
