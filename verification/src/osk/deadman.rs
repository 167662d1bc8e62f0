//! The guard that erases the output key when it is not refreshed in time.
//!
//! The worker sits between the producers of output keys and the consumer. On start it erases
//! whatever key the consumer holds. From then on it waits for a request, for at most
//! `erase_after` seconds at a time: a request is handed on; a wait that runs out erases the
//! key; the end of all producers erases the key and ends the worker. Waiting and handing on
//! are the caller's part: it feeds what happened to [`DeadmanWorker::on_event`] and hands
//! the update that comes back to the consumer.

use vstd::prelude::*;

use super::{OskUpdate, SetOskReason};
use crate::crypto::basics::Key;

verus! {

/// How long after the rekey interval an output key that was not refreshed is erased.
pub const ERASE_GRACE_SECS: u64 = 30;

/// The time after which an output key that was not refreshed is erased: the rekey interval
/// and thirty seconds.
pub fn erase_after_secs(rekey_interval: u64) -> (erase_after: u64)
    requires
        rekey_interval + ERASE_GRACE_SECS <= u64::MAX,
    ensures
        erase_after == rekey_interval + ERASE_GRACE_SECS,
{
    rekey_interval + ERASE_GRACE_SECS
}

/// What a producer asks of the worker.
#[derive(Debug, Copy, Clone)]
pub enum DeadmanRequest {
    SetOsk { key: Key, reason: SetOskReason },
}

/// What happened while the worker waited.
#[derive(Debug, Copy, Clone)]
pub enum DeadmanEvent {
    /// A request arrived before the wait ran out.
    Request(DeadmanRequest),
    /// The wait ran out with no request.
    DeadlineElapsed,
    /// All producers are gone.
    ChannelClosed,
}

/// What the consumer is given in answer to one event.
#[derive(Debug, Copy, Clone)]
pub struct DeadmanAction {
    /// The update to hand to the consumer.
    pub update: OskUpdate,
    /// How many seconds to wait for the next request; `None` when the worker has ended.
    pub wait_secs: Option<u64>,
}

/// What the consumer sees in answer to one event, as far as it can be foretold: the key of
/// an erasure is drawn at random.
pub enum Observation {
    /// The update of a request, as it was asked for.
    Forwarded { key: Key, reason: SetOskReason },
    /// A stale key drawn at random.
    Erased,
}

/// What the consumer sees in answer to `event`.
pub open spec fn observation(event: DeadmanEvent) -> Observation {
    match event {
        DeadmanEvent::Request(DeadmanRequest::SetOsk { key, reason }) => Observation::Forwarded {
            key,
            reason,
        },
        DeadmanEvent::DeadlineElapsed => Observation::Erased,
        DeadmanEvent::ChannelClosed => Observation::Erased,
    }
}

/// What the consumer sees while `events` happen to a worker that is running, or has ended,
/// as `running` says. After the end of all producers nothing more is seen.
pub open spec fn observations(running: bool, events: Seq<DeadmanEvent>) -> Seq<Observation>
    decreases events.len(),
{
    if !running || events.len() == 0 {
        Seq::empty()
    } else {
        seq![observation(events[0])] + observations(
            !(events[0] is ChannelClosed),
            events.drop_first(),
        )
    }
}

/// How many of `observed` are erasures.
pub open spec fn erasures(observed: Seq<Observation>) -> nat
    decreases observed.len(),
{
    if observed.len() == 0 {
        0
    } else {
        let rest = erasures(observed.drop_first());
        if observed[0] is Erased {
            rest + 1
        } else {
            rest
        }
    }
}

/// How many of `events` are waits that ran out.
pub open spec fn elapsed_deadlines(events: Seq<DeadmanEvent>) -> nat
    decreases events.len(),
{
    if events.len() == 0 {
        0
    } else {
        let rest = elapsed_deadlines(events.drop_first());
        if events[0] is DeadlineElapsed {
            rest + 1
        } else {
            rest
        }
    }
}

/// While producers are left, the consumer sees one update for every wait, and exactly one
/// erasure for every wait that ran out.
pub proof fn lemma_one_erasure_per_deadline(events: Seq<DeadmanEvent>)
    requires
        forall|i: int| 0 <= i < events.len() ==> !(events[i] is ChannelClosed),
    ensures
        observations(true, events).len() == events.len(),
        erasures(observations(true, events)) == elapsed_deadlines(events),
    decreases events.len(),
{
    if events.len() > 0 {
        let rest = events.drop_first();
        assert forall|i: int| 0 <= i < rest.len() implies !(rest[i] is ChannelClosed) by {
            assert(rest[i] == events[i + 1]);
        }
        lemma_one_erasure_per_deadline(rest);
        let observed = observations(true, events);
        assert(observed.drop_first() =~= observations(true, rest));
    }
}

/// A wait that runs out makes the consumer see exactly one erasure, and the worker goes on.
pub proof fn lemma_deadline_erases_once()
    ensures
        observations(true, seq![DeadmanEvent::DeadlineElapsed]) == seq![Observation::Erased],
{
    let events = seq![DeadmanEvent::DeadlineElapsed];
    assert(observations(true, events.drop_first()) == Seq::<Observation>::empty());
}

/// While every wait ends with a request, the consumer sees the requested updates, each of
/// them once and in order, and no erasure.
pub proof fn lemma_refreshed_in_time(events: Seq<DeadmanEvent>)
    requires
        forall|i: int| 0 <= i < events.len() ==> events[i] is Request,
    ensures
        observations(true, events).len() == events.len(),
        forall|i: int|
            0 <= i < events.len() ==> #[trigger] observations(true, events)[i] == observation(
                events[i],
            ),
        forall|i: int| 0 <= i < events.len() ==> !(#[trigger] observations(true, events)[i] is Erased),
        erasures(observations(true, events)) == 0,
    decreases events.len(),
{
    if events.len() > 0 {
        let rest = events.drop_first();
        assert forall|i: int| 0 <= i < rest.len() implies rest[i] is Request by {
            assert(rest[i] == events[i + 1]);
        }
        lemma_refreshed_in_time(rest);
        let observed = observations(true, events);
        assert forall|i: int| 0 <= i < events.len() implies #[trigger] observed[i] == observation(
            events[i],
        ) by {
            if i > 0 {
                assert(observed[i] == observations(true, rest)[i - 1]);
            }
        }
        assert(observed.drop_first() =~= observations(true, rest));
    }
}

/// The guard between the producers of output keys and their consumer.
#[derive(Debug, Clone)]
pub struct DeadmanWorker {
    erase_after: u64,
    running: bool,
}

impl DeadmanWorker {
    /// Seconds after which a key that was not refreshed is erased.
    pub closed spec fn erase_after(&self) -> u64 {
        self.erase_after
    }

    /// Whether the worker still answers events.
    pub closed spec fn running(&self) -> bool {
        self.running
    }

    /// Starts the worker. The update that comes with it erases whatever key the consumer
    /// holds and is to be handed on before the first wait.
    pub fn start(erase_after: u64) -> (started: (Self, DeadmanAction))
        ensures
            started.0.erase_after() == erase_after,
            started.0.running(),
            started.1.update.reason == SetOskReason::Stale,
            started.1.wait_secs == Some(erase_after),
    {
        let worker = Self { erase_after, running: true };
        let action = DeadmanAction {
            update: OskUpdate::erase_stale_osk(),
            wait_secs: Some(erase_after),
        };
        (worker, action)
    }

    /// Whether the worker still answers events.
    pub fn is_running(&self) -> (running: bool)
        ensures
            running == self.running(),
    {
        self.running
    }

    /// Answers what happened during one wait. A request is handed on as it is and the wait
    /// starts anew. A wait that ran out yields one update that erases the key, and the wait
    /// starts anew. The end of all producers yields one update that erases the key and ends
    /// the worker. A worker that has ended answers nothing.
    pub fn on_event(&mut self, event: DeadmanEvent) -> (action: Option<DeadmanAction>)
        ensures
            final(self).erase_after() == old(self).erase_after(),
            final(self).running() == (old(self).running() && !(event is ChannelClosed)),
            !old(self).running() ==> action is None,
            old(self).running() ==> {
                &&& action matches Some(action)
                &&& action.wait_secs == if event is ChannelClosed {
                    None
                } else {
                    Some(old(self).erase_after())
                }
                &&& match observation(event) {
                    Observation::Forwarded { key, reason } => action.update == (OskUpdate {
                        key,
                        reason,
                    }),
                    Observation::Erased => action.update.reason == SetOskReason::Stale,
                }
            },
    {
        if !self.running {
            return None;
        }
        let wait_secs = Some(self.erase_after);
        match event {
            DeadmanEvent::Request(DeadmanRequest::SetOsk { key, reason }) => {
                Some(DeadmanAction { update: OskUpdate::set_osk(key, reason), wait_secs })
            },
            DeadmanEvent::ChannelClosed => {
                self.running = false;
                Some(DeadmanAction { update: OskUpdate::erase_stale_osk(), wait_secs: None })
            },
            DeadmanEvent::DeadlineElapsed => {
                Some(DeadmanAction { update: OskUpdate::erase_stale_osk(), wait_secs })
            },
        }
    }
}

} // verus!
