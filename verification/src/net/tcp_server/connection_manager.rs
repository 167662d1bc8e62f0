//! Decides which connection's output keys are honoured.
//!
//! Every accepted connection starts out *budding*. The first connection that offers an output
//! key while its number is higher than that of the *active* connection becomes active itself;
//! all budding connections with lower numbers are dropped with it. Output keys of connections
//! below the active one are discarded. A connection is dropped by dropping its handle.

use std::collections::BTreeMap;
use vstd::prelude::*;

use super::events::{AcceptEvent, ExitEvent, OskEvent, StreamEvent};
use super::{ConnectionId, MAX_BUDDING_CONNECTIONS};
use crate::osk::OskUpdate;

verus! {

/// The bookkeeping of the manager as a mathematical value.
pub struct ManagerState<H> {
    /// The number that the next accepted connection gets.
    pub next_connection_id: ConnectionId,
    /// The connection whose output keys are honoured, with its handle.
    pub active_connection: Option<(ConnectionId, H)>,
    /// The connections that have not offered an output key yet, with their handles.
    pub budding_connections: Map<ConnectionId, H>,
}

/// What became of a connection whose task has ended.
#[derive(Debug, Clone, Copy, PartialEq, Eq, Structural)]
pub enum ExitOutcome {
    /// It was the active connection; there is no active connection now.
    Active,
    /// It was a budding connection and is forgotten.
    Budding,
    /// The manager did not know it.
    Unknown,
}

/// What the manager did on accepting a connection.
#[derive(Debug, Clone, Copy)]
pub struct Accepted {
    /// The number given to the new connection.
    pub connection_id: ConnectionId,
    /// The budding connection that was dropped to make room, if one was.
    pub pruned: Option<ConnectionId>,
}

impl<H> ManagerState<H> {
    /// The number of the active connection.
    pub open spec fn active_connection_id(self) -> Option<ConnectionId> {
        match self.active_connection {
            Some((id, _)) => Some(id),
            None => None,
        }
    }

    /// What holds of every state that the manager reaches: at most
    /// [`MAX_BUDDING_CONNECTIONS`] connections are budding, every known connection has a
    /// number below the next one to be given, and every budding connection has a higher
    /// number than the active one.
    pub open spec fn wf(self) -> bool {
        &&& self.budding_connections.dom().finite()
        &&& self.budding_connections.len() <= MAX_BUDDING_CONNECTIONS
        &&& forall|id: ConnectionId| #[trigger]
            self.budding_connections.contains_key(id) ==> id < self.next_connection_id
        &&& match self.active_connection {
            Some((active, _)) => {
                &&& active < self.next_connection_id
                &&& forall|id: ConnectionId| #[trigger]
                    self.budding_connections.contains_key(id) ==> active < id
            },
            None => true,
        }
    }

    /// `id` is budding and no budding connection has a lower number.
    pub open spec fn is_oldest_budding(self, id: ConnectionId) -> bool {
        &&& self.budding_connections.contains_key(id)
        &&& forall|other: ConnectionId| #[trigger]
            self.budding_connections.contains_key(other) ==> id <= other
    }

    /// The budding connection that the next accept drops: the oldest one, once
    /// [`MAX_BUDDING_CONNECTIONS`] are budding.
    pub open spec fn pruned(self) -> Option<ConnectionId> {
        if self.budding_connections.len() >= MAX_BUDDING_CONNECTIONS {
            Some(choose|id: ConnectionId| self.is_oldest_budding(id))
        } else {
            None
        }
    }

    /// The state after a connection was accepted and its task got the handle `handle`.
    pub open spec fn accept(self, handle: H) -> Self {
        let room = match self.pruned() {
            Some(id) => self.budding_connections.remove(id),
            None => self.budding_connections,
        };
        ManagerState {
            next_connection_id: (self.next_connection_id + 1) as ConnectionId,
            active_connection: self.active_connection,
            budding_connections: room.insert(self.next_connection_id, handle),
        }
    }

    /// What the connection `id` is to the manager when its task ends.
    pub open spec fn exit_outcome(self, id: ConnectionId) -> ExitOutcome {
        if self.active_connection_id() == Some(id) {
            ExitOutcome::Active
        } else if self.budding_connections.contains_key(id) {
            ExitOutcome::Budding
        } else {
            ExitOutcome::Unknown
        }
    }

    /// The state after the task of connection `id` has ended.
    pub open spec fn exit(self, id: ConnectionId) -> Self {
        match self.exit_outcome(id) {
            ExitOutcome::Active => ManagerState { active_connection: None, ..self },
            ExitOutcome::Budding => ManagerState {
                budding_connections: self.budding_connections.remove(id),
                ..self
            },
            ExitOutcome::Unknown => self,
        }
    }

    /// An output key of connection `id` makes that connection the active one: it is budding,
    /// and no connection with the same or a higher number is active.
    pub open spec fn promotes(self, id: ConnectionId) -> bool {
        &&& self.budding_connections.contains_key(id)
        &&& match self.active_connection_id() {
            Some(active) => active < id,
            None => true,
        }
    }

    /// An output key of connection `id` is handed on to the consumer: the connection is
    /// active, or becomes active with this key.
    pub open spec fn honours(self, id: ConnectionId) -> bool {
        self.active_connection_id() == Some(id) || self.promotes(id)
    }

    /// The state after connection `id` has offered an output key.
    pub open spec fn osk(self, id: ConnectionId) -> Self {
        if self.promotes(id) {
            ManagerState {
                next_connection_id: self.next_connection_id,
                active_connection: Some((id, self.budding_connections[id])),
                budding_connections: self.budding_connections.restrict(
                    Set::new(|other: ConnectionId| id < other),
                ),
            }
        } else {
            self
        }
    }
}

/// A finite set of connection numbers that is not empty has a least element.
proof fn lemma_least_exists(ids: Set<ConnectionId>)
    requires
        ids.finite(),
        ids.len() > 0,
    ensures
        exists|least: ConnectionId|
            ids.contains(least) && forall|other: ConnectionId| #[trigger]
                ids.contains(other) ==> least <= other,
    decreases ids.len(),
{
    let x = ids.choose();
    let rest = ids.remove(x);
    if rest.len() == 0 {
        assert forall|other: ConnectionId| #[trigger] ids.contains(other) implies x <= other by {
            assert(other == x || rest.contains(other));
        }
    } else {
        lemma_least_exists(rest);
        let m = choose|least: ConnectionId|
            rest.contains(least) && forall|other: ConnectionId| #[trigger]
                rest.contains(other) ==> least <= other;
        let least = if x < m {
            x
        } else {
            m
        };
        assert forall|other: ConnectionId| #[trigger] ids.contains(other) implies least
            <= other by {
            assert(other == x || rest.contains(other));
        }
    }
}

impl<H> ManagerState<H> {
    /// While connections are budding, one of them is the oldest.
    pub proof fn lemma_oldest_budding_exists(self)
        requires
            self.budding_connections.dom().finite(),
            self.budding_connections.len() > 0,
        ensures
            exists|id: ConnectionId| self.is_oldest_budding(id),
    {
        let ids = self.budding_connections.dom();
        lemma_least_exists(ids);
        let least = choose|least: ConnectionId|
            ids.contains(least) && forall|other: ConnectionId| #[trigger]
                ids.contains(other) ==> least <= other;
        assert(self.is_oldest_budding(least));
    }

    /// Accepting a connection keeps the state well formed; the connection dropped to make
    /// room, if any, is the budding connection with the lowest number.
    pub proof fn lemma_accept_wf(self, handle: H)
        requires
            self.wf(),
            self.next_connection_id < usize::MAX,
        ensures
            self.accept(handle).wf(),
            self.pruned() matches Some(id) ==> self.is_oldest_budding(id),
            self.pruned() is Some <==> self.budding_connections.len() == MAX_BUDDING_CONNECTIONS,
    {
        if self.budding_connections.len() >= MAX_BUDDING_CONNECTIONS {
            self.lemma_oldest_budding_exists();
        }
    }

    /// The end of a connection's task keeps the state well formed.
    pub proof fn lemma_exit_wf(self, id: ConnectionId)
        requires
            self.wf(),
        ensures
            self.exit(id).wf(),
    {
    }

    /// An offered output key keeps the state well formed.
    pub proof fn lemma_osk_wf(self, id: ConnectionId)
        requires
            self.wf(),
        ensures
            self.osk(id).wf(),
    {
        if self.promotes(id) {
            let kept = self.osk(id).budding_connections;
            vstd::set_lib::lemma_len_subset(kept.dom(), self.budding_connections.dom());
        }
    }
}

/// One thing that happens to the manager, as far as its bookkeeping goes.
pub enum ManagerEvent<H> {
    /// A connection is accepted and its task gets the given handle.
    Accept(H),
    /// The task of the connection with the given number ends.
    Exit(ConnectionId),
    /// The connection with the given number offers an output key.
    Osk(ConnectionId),
}

impl<H> ManagerState<H> {
    /// The state after `event`.
    pub open spec fn step(self, event: ManagerEvent<H>) -> Self {
        match event {
            ManagerEvent::Accept(handle) => self.accept(handle),
            ManagerEvent::Exit(id) => self.exit(id),
            ManagerEvent::Osk(id) => self.osk(id),
        }
    }

    /// The state after all of `events`, the first one first.
    pub open spec fn run(self, events: Seq<ManagerEvent<H>>) -> Self
        decreases events.len(),
    {
        if events.len() == 0 {
            self
        } else {
            self.step(events[0]).run(events.drop_first())
        }
    }

    /// The connections whose output keys are handed on to the consumer while `events`
    /// happen, in the order in which the keys are handed on.
    pub open spec fn honoured(self, events: Seq<ManagerEvent<H>>) -> Seq<ConnectionId>
        decreases events.len(),
    {
        if events.len() == 0 {
            Seq::empty()
        } else {
            let later = self.step(events[0]).honoured(events.drop_first());
            match events[0] {
                ManagerEvent::Osk(id) => if self.honours(id) {
                    seq![id] + later
                } else {
                    later
                },
                _ => later,
            }
        }
    }

    /// No connection known to the manager has a number below `floor`.
    pub open spec fn all_at_least(self, floor: ConnectionId) -> bool {
        &&& floor <= self.next_connection_id
        &&& forall|id: ConnectionId| #[trigger]
            self.budding_connections.contains_key(id) ==> floor <= id
        &&& match self.active_connection_id() {
            Some(active) => floor <= active,
            None => true,
        }
    }

    /// One event keeps the state well formed, as long as connection numbers are left.
    pub proof fn lemma_step_wf(self, event: ManagerEvent<H>)
        requires
            self.wf(),
            self.next_connection_id < usize::MAX,
        ensures
            self.step(event).wf(),
            self.next_connection_id <= self.step(event).next_connection_id <= self.next_connection_id
                + 1,
    {
        match event {
            ManagerEvent::Accept(handle) => self.lemma_accept_wf(handle),
            ManagerEvent::Exit(id) => self.lemma_exit_wf(id),
            ManagerEvent::Osk(id) => self.lemma_osk_wf(id),
        }
    }

    /// At no time are more than [`MAX_BUDDING_CONNECTIONS`] connections budding: whatever
    /// happens to a well-formed state, the state that results is well formed.
    pub proof fn lemma_run_wf(self, events: Seq<ManagerEvent<H>>)
        requires
            self.wf(),
            self.next_connection_id + events.len() <= usize::MAX,
        ensures
            self.run(events).wf(),
            self.run(events).budding_connections.len() <= MAX_BUDDING_CONNECTIONS,
        decreases events.len(),
    {
        if events.len() > 0 {
            self.lemma_step_wf(events[0]);
            self.step(events[0]).lemma_run_wf(events.drop_first());
        }
    }

    /// Where no known connection has a number below `floor`, every output key that is handed
    /// on comes from a connection numbered `floor` or higher, and the numbers never go down.
    proof fn lemma_honoured_from(self, events: Seq<ManagerEvent<H>>, floor: ConnectionId)
        requires
            self.wf(),
            self.next_connection_id + events.len() <= usize::MAX,
            self.all_at_least(floor),
        ensures
            forall|k: int|
                0 <= k < self.honoured(events).len() ==> floor <= #[trigger] self.honoured(
                    events,
                )[k],
            forall|i: int, j: int|
                0 <= i < j < self.honoured(events).len() ==> self.honoured(events)[i]
                    <= self.honoured(events)[j],
        decreases events.len(),
    {
        if events.len() > 0 {
            let next = self.step(events[0]);
            let rest = events.drop_first();
            let later = next.honoured(rest);
            self.lemma_step_wf(events[0]);
            match events[0] {
                ManagerEvent::Osk(id) => {
                    if self.honours(id) {
                        next.lemma_honoured_from(rest, id);
                    } else {
                        next.lemma_honoured_from(rest, floor);
                    }
                },
                ManagerEvent::Accept(handle) => {
                    next.lemma_honoured_from(rest, floor);
                },
                ManagerEvent::Exit(id) => {
                    next.lemma_honoured_from(rest, floor);
                },
            }
        }
    }

    /// Supersession: once an output key of a connection has been handed on, no output key
    /// of a connection with a lower number is handed on any more, whatever happens.
    pub proof fn lemma_supersession(self, events: Seq<ManagerEvent<H>>)
        requires
            self.wf(),
            self.next_connection_id + events.len() <= usize::MAX,
        ensures
            forall|i: int, j: int|
                0 <= i < j < self.honoured(events).len() ==> self.honoured(events)[i]
                    <= self.honoured(events)[j],
    {
        self.lemma_honoured_from(events, 0);
    }
}

/// Removes the entry with the lowest number from `map` and returns it.
///
/// Trusted: the body calls `BTreeMap::pop_first`, documented to remove and return the first
/// element of the map, whose key is the minimum key that was in the map, and to return `None`
/// on an empty map.
#[verifier::external_body]
fn pop_first<H>(map: &mut BTreeMap<ConnectionId, H>) -> (first: Option<(ConnectionId, H)>)
    ensures
        match first {
            Some((id, handle)) => {
                &&& old(map)@.contains_key(id)
                &&& old(map)@[id] == handle
                &&& forall|other: ConnectionId| #[trigger]
                    old(map)@.contains_key(other) ==> id <= other
                &&& final(map)@ == old(map)@.remove(id)
            },
            None => {
                &&& old(map)@.len() == 0
                &&& final(map)@ == old(map)@
            },
        },
{
    map.pop_first()
}

/// Splits `map` at `id`: entries with lower numbers stay, the others are returned.
///
/// Trusted: the body calls `BTreeMap::split_off`, documented to split the collection into two
/// at the given key and to return everything after the given key, including the key.
#[verifier::external_body]
fn split_off<H>(map: &mut BTreeMap<ConnectionId, H>, id: ConnectionId) -> (upper: BTreeMap<
    ConnectionId,
    H,
>)
    ensures
        final(map)@ == old(map)@.restrict(Set::new(|other: ConnectionId| other < id)),
        upper@ == old(map)@.restrict(Set::new(|other: ConnectionId| id <= other)),
{
    map.split_off(&id)
}

/// The bookkeeping of the listening end. `H` is the handle of a connection's task; a task
/// is torn down when the manager lets go of its handle.
pub struct ConnectionManager<H> {
    next_connection_id: ConnectionId,
    active_connection: Option<(ConnectionId, H)>,
    budding_connections: BTreeMap<ConnectionId, H>,
}

impl<H> View for ConnectionManager<H> {
    type V = ManagerState<H>;

    closed spec fn view(&self) -> ManagerState<H> {
        ManagerState {
            next_connection_id: self.next_connection_id,
            active_connection: self.active_connection,
            budding_connections: self.budding_connections@,
        }
    }
}

impl<H> ConnectionManager<H> {
    /// A manager that knows no connection; the first one gets the number 0.
    pub fn new() -> (manager: Self)
        ensures
            manager@.wf(),
            manager@.next_connection_id == 0,
            manager@.active_connection is None,
            manager@.budding_connections == Map::<ConnectionId, H>::empty(),
    {
        Self { next_connection_id: 0, active_connection: None, budding_connections: BTreeMap::new() }
    }

    /// The number of the active connection.
    pub fn active_connection_id(&self) -> (id: Option<ConnectionId>)
        ensures
            id == self@.active_connection_id(),
    {
        match &self.active_connection {
            Some((active_conn_id, _rec)) => Some(*active_conn_id),
            None => None,
        }
    }

    /// The number that the next accepted connection gets.
    pub fn next_connection_id(&self) -> (id: ConnectionId)
        ensures
            id == self@.next_connection_id,
    {
        self.next_connection_id
    }

    /// How many connections are budding.
    pub fn budding_len(&self) -> (len: usize)
        ensures
            len == self@.budding_connections.len(),
    {
        self.budding_connections.len()
    }

    /// Whether connection `id` is budding.
    pub fn is_budding(&self, id: ConnectionId) -> (budding: bool)
        ensures
            budding == self@.budding_connections.contains_key(id),
    {
        self.budding_connections.contains_key(&id)
    }

    /// Gives out the next connection number.
    fn allocate_connection_id(&mut self) -> (id: ConnectionId)
        requires
            old(self)@.next_connection_id < usize::MAX,
        ensures
            id == old(self)@.next_connection_id,
            final(self)@ == (ManagerState {
                next_connection_id: (id + 1) as ConnectionId,
                ..old(self)@
            }),
    {
        let r = self.next_connection_id;
        self.next_connection_id += 1;
        r
    }

    /// Takes in a new connection: gives it the next number, drops the oldest budding
    /// connection if [`MAX_BUDDING_CONNECTIONS`] are budding already, has `spawn` start the
    /// task of the connection, and keeps the handle that `spawn` returns among the budding
    /// connections.
    pub fn on_accept<Stream, Addr, F>(&mut self, ev: AcceptEvent<Stream, Addr>, spawn: F) -> (accepted:
        Accepted) where F: FnOnce(ConnectionId, Stream) -> H
        requires
            old(self)@.wf(),
            old(self)@.next_connection_id < usize::MAX,
            call_requires(spawn, (old(self)@.next_connection_id, ev.stream)),
        ensures
            accepted.connection_id == old(self)@.next_connection_id,
            accepted.pruned == old(self)@.pruned(),
            final(self)@.budding_connections.contains_key(accepted.connection_id),
            call_ensures(
                spawn,
                (accepted.connection_id, ev.stream),
                final(self)@.budding_connections[accepted.connection_id],
            ),
            final(self)@ == old(self)@.accept(
                final(self)@.budding_connections[accepted.connection_id],
            ),
            final(self)@.wf(),
    {
        let connection_id = self.allocate_connection_id();

        // Make sure there is space among the budding connections
        let mut pruned: Option<ConnectionId> = None;
        if self.budding_connections.len() >= MAX_BUDDING_CONNECTIONS {
            let first = pop_first(&mut self.budding_connections);
            match first {
                Some((pruned_id, _handle)) => {
                    assert(old(self)@.is_oldest_budding(pruned_id));
                    pruned = Some(pruned_id);
                },
                None => {},
            }
        }

        // Set up the task of the connection
        let handle = spawn(connection_id, ev.stream);

        // Register the connection as a budding connection
        self.budding_connections.insert(connection_id, handle);
        Accepted { connection_id, pruned }
    }

    /// Forgets the connection whose task has ended and says what it was.
    pub fn on_exit(&mut self, ev: ExitEvent) -> (outcome: ExitOutcome)
        requires
            old(self)@.wf(),
        ensures
            outcome == old(self)@.exit_outcome(ev.connection_id),
            final(self)@ == old(self)@.exit(ev.connection_id),
            final(self)@.wf(),
    {
        let conn_id = ev.connection_id;

        if Some(conn_id) == self.active_connection_id() {
            self.active_connection = None;
            ExitOutcome::Active
        } else if self.budding_connections.remove(&conn_id).is_some() {
            ExitOutcome::Budding
        } else {
            assert(self@.budding_connections =~= old(self)@.budding_connections);
            ExitOutcome::Unknown
        }
    }

    /// Decides what becomes of an output key that connection `ev.connection_id` offers: it
    /// is handed on if the connection is active or becomes active by it, and discarded
    /// otherwise.
    pub fn on_osk(&mut self, ev: OskEvent) -> (forward: Option<OskUpdate>)
        requires
            old(self)@.wf(),
        ensures
            final(self)@ == old(self)@.osk(ev.connection_id),
            old(self)@.honours(ev.connection_id) ==> forward == Some(
                OskUpdate { key: ev.key, reason: ev.reason },
            ),
            !old(self)@.honours(ev.connection_id) ==> forward is None,
            final(self)@.wf(),
    {
        let conn_id = ev.connection_id;
        match self.active_connection_id() {
            // This comes from a session that has already been superseded
            Some(active) if conn_id < active => self.on_osk_from_stale(ev),
            // This comes from the currently active session
            Some(active) if conn_id == active => self.on_osk_from_active(ev),
            // This comes from a budding (not-yet active) session
            _ => self.on_osk_from_budding(ev),
        }
    }

    /// An output key of a superseded connection is discarded.
    fn on_osk_from_stale(&mut self, ev: OskEvent) -> (forward: Option<OskUpdate>)
        ensures
            final(self)@ == old(self)@,
            forward is None,
    {
        None
    }

    /// An output key of the active connection is handed on.
    fn on_osk_from_active(&mut self, ev: OskEvent) -> (forward: Option<OskUpdate>)
        ensures
            final(self)@ == old(self)@,
            forward == Some(OskUpdate { key: ev.key, reason: ev.reason }),
    {
        Some(OskUpdate::set_osk(ev.key, ev.reason))
    }

    /// An output key of a budding connection makes it the active one. Budding connections
    /// with lower numbers are dropped. An output key of an unknown connection is discarded.
    fn on_osk_from_budding(&mut self, ev: OskEvent) -> (forward: Option<OskUpdate>)
        requires
            old(self)@.wf(),
            match old(self)@.active_connection_id() {
                Some(active) => active < ev.connection_id,
                None => true,
            },
        ensures
            final(self)@ == old(self)@.osk(ev.connection_id),
            old(self)@.promotes(ev.connection_id) ==> forward == Some(
                OskUpdate { key: ev.key, reason: ev.reason },
            ),
            !old(self)@.promotes(ev.connection_id) ==> forward is None,
            final(self)@.wf(),
    {
        let new_active_id = ev.connection_id;

        // Extract the handle of the connection that is to become active
        let new_active_handle = match self.budding_connections.remove(&new_active_id) {
            None => {
                assert(self@.budding_connections =~= old(self)@.budding_connections);
                return None;
            },
            Some(handle) => handle,
        };

        // Drop all the now-stale budding connections
        let mut removed = split_off(&mut self.budding_connections, new_active_id);
        std::mem::swap(&mut removed, &mut self.budding_connections);
        assert(self@.budding_connections =~= old(self)@.osk(new_active_id).budding_connections);
        proof {
            old(self)@.lemma_osk_wf(new_active_id);
        }

        // Promote the new connection to active
        self.active_connection = Some((new_active_id, new_active_handle));

        // Finally, hand the key on
        Some(OskUpdate::set_osk(ev.key, ev.reason))
    }

    /// Reacts to one event.
    pub fn on_event<Stream, Addr, F>(&mut self, ev: StreamEvent<Stream, Addr>, spawn: F) -> (forward:
        Option<OskUpdate>) where F: FnOnce(ConnectionId, Stream) -> H
        requires
            old(self)@.wf(),
            ev matches StreamEvent::Accept(accept) ==> {
                &&& old(self)@.next_connection_id < usize::MAX
                &&& call_requires(spawn, (old(self)@.next_connection_id, accept.stream))
            },
        ensures
            final(self)@.wf(),
            match ev {
                StreamEvent::Accept(accept) => {
                    let id = old(self)@.next_connection_id;
                    &&& forward is None
                    &&& final(self)@.budding_connections.contains_key(id)
                    &&& call_ensures(spawn, (id, accept.stream), final(self)@.budding_connections[id])
                    &&& final(self)@ == old(self)@.accept(final(self)@.budding_connections[id])
                },
                StreamEvent::Exit(exit) => {
                    &&& forward is None
                    &&& final(self)@ == old(self)@.exit(exit.connection_id)
                },
                StreamEvent::Osk(osk) => {
                    &&& final(self)@ == old(self)@.osk(osk.connection_id)
                    &&& old(self)@.honours(osk.connection_id) ==> forward == Some(
                        OskUpdate { key: osk.key, reason: osk.reason },
                    )
                    &&& !old(self)@.honours(osk.connection_id) ==> forward is None
                },
            },
    {
        match ev {
            StreamEvent::Accept(ev) => {
                let _ = self.on_accept(ev, spawn);
                None
            },
            StreamEvent::Exit(ev) => {
                let _ = self.on_exit(ev);
                None
            },
            StreamEvent::Osk(ev) => self.on_osk(ev),
        }
    }
}

} // verus!
