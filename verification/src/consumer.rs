//! The consumer: what to do with each thing that a receive gives, and which
//! offsets are committed in the course of a run.
//!
//! The caller owns the loop. It receives, hands what came to `step`, and
//! carries out the directive: for `Apply` it runs the mutation against the
//! store, waits for it to end, whether it succeeded or not, then commits the
//! offset without waiting and hands what the commit call gave to
//! `after_commit`; for `Skip` it commits nothing.

use vstd::prelude::*;
use crate::codec::{decode, decoded, CodecError};
use crate::envelope::KafkaMessage;
use crate::store::{change_of, plan, Change, Mutation};

verus! {

/// The two states of the consumer.
#[derive(Clone, Copy, Debug, PartialEq, Eq, Structural)]
pub enum ConsumerState {
    /// Not subscribed.
    Idle,
    /// Subscribed and receiving.
    Running,
}

/// The one failure that ends the consumer: the broker refused the
/// subscription.
#[derive(Clone, Copy, Debug, PartialEq, Eq, Structural)]
pub enum ConsumerError {
    SubscriptionFailure,
}

/// What a receive gave.
#[derive(Debug)]
pub enum Received {
    /// The broker or the transport reported an error.
    Failure,
    /// A record, with its offset and its payload, if it has one.
    Record { offset: i64, payload: Option<Vec<u8>> },
}

/// The mathematical value of what a receive gave.
pub enum Event {
    Failure,
    Record { offset: int, payload: Option<Seq<u8>> },
}

impl View for Received {
    type V = Event;

    open spec fn view(&self) -> Event {
        match *self {
            Received::Failure => Event::Failure,
            Received::Record { offset, payload } => Event::Record {
                offset: offset as int,
                payload: match payload {
                    Some(b) => Some(b@),
                    None => None,
                },
            },
        }
    }
}

/// Why nothing is applied and nothing committed.
#[derive(Clone, Copy, Debug, PartialEq, Eq, Structural)]
pub enum Skipped {
    /// The consumer is not subscribed.
    NotSubscribed,
    /// The receive failed.
    ReceiveError,
    /// The record has no payload.
    NoPayload,
    /// The payload spells no envelope.
    Malformed,
}

/// What the loop does next.
#[derive(Debug)]
pub enum Directive {
    /// Log, commit nothing, receive again.
    Skip(Skipped),
    /// Run the mutation, wait for it to end, then commit the offset.
    Apply { mutation: Mutation, offset: i64 },
}

/// The mathematical value of a directive.
pub enum Decision {
    Skip(Skipped),
    Apply { change: Change, offset: int },
}

impl View for Directive {
    type V = Decision;

    open spec fn view(&self) -> Decision {
        match *self {
            Directive::Skip(s) => Decision::Skip(s),
            Directive::Apply { mutation, offset } => Decision::Apply {
                change: mutation@,
                offset: offset as int,
            },
        }
    }
}

/// The decision for a record at `offset` whose payload was decoded, or was
/// not.
pub open spec fn settled(offset: int, payload: Seq<u8>) -> Decision {
    match decoded(payload) {
        Some(e) => Decision::Apply { change: change_of(e), offset },
        None => Decision::Skip(Skipped::Malformed),
    }
}

/// The decision of a running consumer for what a receive gave.
pub open spec fn decision(event: Event) -> Decision {
    match event {
        Event::Failure => Decision::Skip(Skipped::ReceiveError),
        Event::Record { offset, payload } => match payload {
            None => Decision::Skip(Skipped::NoPayload),
            Some(b) => settled(offset, b),
        },
    }
}

/// The offsets that a running consumer commits over a run of receives, in
/// the order in which it commits them.
pub open spec fn commits(history: Seq<Event>) -> Seq<int>
    decreases history.len(),
{
    if history.len() == 0 {
        Seq::empty()
    } else {
        let earlier = commits(history.drop_last());
        match decision(history.last()) {
            Decision::Apply { change, offset } => earlier.push(offset),
            Decision::Skip(_) => earlier,
        }
    }
}

/// The state after the broker answered the request to subscribe: `Running`
/// where it accepted, else the failure, which the caller must not survive.
pub fn subscribe(state: ConsumerState, accepted: bool) -> (r: Result<ConsumerState, ConsumerError>)
    ensures
        accepted ==> r == Ok::<ConsumerState, ConsumerError>(ConsumerState::Running),
        !accepted ==> r == Err::<ConsumerState, ConsumerError>(ConsumerError::SubscriptionFailure),
{
    if accepted {
        Ok(ConsumerState::Running)
    } else {
        Err(ConsumerError::SubscriptionFailure)
    }
}

/// The directive for a record at `offset`, given what decoding its payload
/// gave: an envelope is applied and its offset committed afterwards; a
/// payload that could not be decoded is skipped and never committed.
pub fn settle(offset: i64, outcome: Result<KafkaMessage, CodecError>) -> (r: Directive)
    ensures
        match outcome {
            Ok(m) => r@ == (Decision::Apply { change: change_of(m@), offset: offset as int }),
            Err(_) => r@ == Decision::Skip(Skipped::Malformed),
        },
{
    match outcome {
        Ok(m) => Directive::Apply { mutation: plan(&m), offset },
        Err(_) => Directive::Skip(Skipped::Malformed),
    }
}

/// One turn of the loop. The state never changes: nothing that a receive
/// gives ends a running consumer. An idle consumer skips everything.
pub fn step(state: ConsumerState, received: &Received) -> (r: (ConsumerState, Directive))
    ensures
        r.0 == state,
        state == ConsumerState::Running ==> r.1@ == decision(received@),
        state == ConsumerState::Idle ==> r.1@ == Decision::Skip(Skipped::NotSubscribed),
{
    match state {
        ConsumerState::Idle => (state, Directive::Skip(Skipped::NotSubscribed)),
        ConsumerState::Running => {
            let directive = match received {
                Received::Failure => Directive::Skip(Skipped::ReceiveError),
                Received::Record { offset, payload } => match payload {
                    None => Directive::Skip(Skipped::NoPayload),
                    Some(bytes) => settle(*offset, decode(bytes.as_slice())),
                },
            };
            (state, directive)
        },
    }
}

/// The state after the commit of an offset was handed to the broker's client.
/// A commit that the client refused is logged and ends nothing: the consumer
/// goes on as it was.
pub fn after_commit(state: ConsumerState, committed: bool) -> (r: ConsumerState)
    ensures
        r == state,
{
    state
}

/// Whether a running consumer skips every receive of a run.
pub open spec fn all_skipped(history: Seq<Event>) -> bool {
    forall|i: int| 0 <= i < history.len() ==> #[trigger] decision(history[i]) is Skip
}

/// A record whose payload cannot be decoded is skipped, whatever its offset.
pub proof fn lemma_malformed_is_skipped(offset: int, payload: Seq<u8>)
    requires
        decoded(payload) is None,
    ensures
        decision(Event::Record { offset, payload: Some(payload) }) == Decision::Skip(
            Skipped::Malformed,
        ),
{
}

/// A run in which every receive is skipped (failures, records without
/// payload, payloads that cannot be decoded) commits no offset.
pub proof fn lemma_skipped_run_commits_nothing(history: Seq<Event>)
    requires
        all_skipped(history),
    ensures
        commits(history) == Seq::<int>::empty(),
    decreases history.len(),
{
    if history.len() > 0 {
        let earlier = history.drop_last();
        assert forall|i: int| 0 <= i < earlier.len() implies #[trigger] decision(earlier[i])
            is Skip by {
            assert(earlier[i] == history[i]);
        }
        lemma_skipped_run_commits_nothing(earlier);
        assert(decision(history[history.len() - 1]) is Skip);
    }
}

/// After any number of skipped receives, a record that decodes is applied
/// and its offset is the one commit of the run.
pub proof fn lemma_record_after_skipped_run(history: Seq<Event>, offset: int, payload: Seq<u8>)
    requires
        all_skipped(history),
        decoded(payload) is Some,
    ensures
        decision(Event::Record { offset, payload: Some(payload) }) is Apply,
        commits(history.push(Event::Record { offset, payload: Some(payload) })) == seq![offset],
{
    let next = Event::Record { offset, payload: Some(payload) };
    let run = history.push(next);
    lemma_skipped_run_commits_nothing(history);
    assert(run.drop_last() =~= history);
    assert(run.last() == next);
    assert(commits(run) =~= seq![offset]);
}

/// Offsets are committed in the order of the receives: one more receive
/// leaves the earlier commits as they were and adds at most its own offset
/// behind them.
pub proof fn lemma_commits_in_order(history: Seq<Event>, next: Event)
    ensures
        commits(history.push(next)) == match decision(next) {
            Decision::Apply { change, offset } => commits(history).push(offset),
            Decision::Skip(_) => commits(history),
        },
{
    assert(history.push(next).drop_last() =~= history);
}

} // verus!
