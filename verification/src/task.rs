//! The discovery task: what the discovery service does next.
//!
//! The task is a state machine. Whoever runs it performs the action that a
//! step returns (starts the engine, runs a lookup, sends a peer into the
//! bounded channel, sleeps) and reports how it ended as the next event. The
//! task holds one action outstanding at a time: while a send waits for room
//! in the channel, the task waits with it, and no lookup is issued.

use vstd::prelude::*;
use crate::discovery::{accepted, accepted_peers, lemma_accepted_sound, accepts};
use crate::discovery::DISCOVERY_PEER_CHANNEL_SIZE;
use crate::types::{peer_views, Peer, PeerError, PeerView, Record};

verus! {

/// The seconds that the task sleeps between two lookups.
pub const LOOKUP_INTERVAL_SECS: u64 = 10;

/// What the task is waiting for.
#[derive(Clone, Copy, Debug, PartialEq, Eq, Structural)]
pub enum Phase {
    /// The task was made and has not run yet.
    Created,
    /// The engine is being started.
    Starting,
    /// A lookup is running.
    Searching,
    /// A peer is being sent into the channel.
    Publishing,
    /// The task sleeps before the next lookup.
    Sleeping,
    /// The task has ended.
    Stopped,
}

/// What happened to the action that the task asked for.
#[derive(Clone, Debug, PartialEq, Eq)]
pub enum DiscoveryEvent {
    /// The task was spawned.
    Spawned,
    /// The engine started, or failed to.
    Started(bool),
    /// The lookup returned these records.
    Found(Vec<Record>),
    /// The lookup failed.
    LookupFailed,
    /// The peer was taken by the channel, or the channel is closed.
    Sent(bool),
    /// The sleep is over.
    Woke,
}

/// What the task asks for next.
#[derive(Clone, Debug, PartialEq, Eq)]
pub enum DiscoveryAction {
    /// Start the engine.
    Start,
    /// Run a lookup for the nodes closest to a random target.
    Lookup,
    /// Send this peer into the channel, waiting for room.
    Send(Peer),
    /// Sleep for this many seconds.
    Sleep(u64),
    /// End the task.
    Stop,
    /// Nothing new: the event answers no outstanding action.
    Wait,
}

/// An action as contracts speak of it.
pub enum ActionView {
    /// Start the engine.
    Start,
    /// Run a lookup.
    Lookup,
    /// Send this peer into the channel.
    Send(PeerView),
    /// Sleep for this many seconds.
    Sleep(u64),
    /// End the task.
    Stop,
    /// Nothing new.
    Wait,
}

impl View for DiscoveryAction {
    type V = ActionView;

    open spec fn view(&self) -> ActionView {
        match *self {
            DiscoveryAction::Start => ActionView::Start,
            DiscoveryAction::Lookup => ActionView::Lookup,
            DiscoveryAction::Send(peer) => ActionView::Send(peer@),
            DiscoveryAction::Sleep(seconds) => ActionView::Sleep(seconds),
            DiscoveryAction::Stop => ActionView::Stop,
            DiscoveryAction::Wait => ActionView::Wait,
        }
    }
}

/// The state of a task as contracts speak of it.
pub struct TaskView {
    /// The chain identifier of the network.
    pub chain_id: u64,
    /// What the task is waiting for.
    pub phase: Phase,
    /// The peers of the last lookup that are not sent yet, next first.
    pub pending: Seq<PeerView>,
}

/// The state machine of the discovery service.
#[derive(Debug)]
pub struct DiscoveryTask {
    chain_id: u64,
    phase: Phase,
    pending: Vec<Peer>,
}

impl View for DiscoveryTask {
    type V = TaskView;

    closed spec fn view(&self) -> TaskView {
        TaskView {
            chain_id: self.chain_id,
            phase: self.phase,
            pending: peer_views(self.pending@),
        }
    }
}

impl DiscoveryTask {
    /// The state of a new task for the network `chain_id`.
    pub open spec fn initial(chain_id: u64) -> TaskView {
        TaskView { chain_id, phase: Phase::Created, pending: Seq::empty() }
    }

    /// A task holds peers only while it publishes them.
    pub open spec fn well_formed(state: TaskView) -> bool {
        state.phase != Phase::Publishing ==> state.pending.len() == 0
    }

    /// The state and the action after the peers `queue` are left to send:
    /// the first of them is sent and the others are kept, or the task sleeps
    /// where none is left.
    pub open spec fn publish(state: TaskView, queue: Seq<PeerView>) -> (TaskView, ActionView) {
        if queue.len() == 0 {
            (
                TaskView { chain_id: state.chain_id, phase: Phase::Sleeping, pending: Seq::empty() },
                ActionView::Sleep(LOOKUP_INTERVAL_SECS),
            )
        } else {
            (
                TaskView { chain_id: state.chain_id, phase: Phase::Publishing, pending: queue.skip(1) },
                ActionView::Send(queue[0]),
            )
        }
    }

    /// The state `state` with the phase `phase` and nothing pending.
    pub open spec fn enter(state: TaskView, phase: Phase) -> TaskView {
        TaskView { chain_id: state.chain_id, phase, pending: Seq::empty() }
    }

    /// The transition function: the state after `event` and the action that
    /// the task asks for.
    ///
    /// A spawned task starts the engine; a failure to start ends the task.
    /// A started or woken task runs a lookup. The records of a lookup are
    /// filtered and their peers sent one by one, each after the channel took
    /// the one before; a closed channel ends the task. After the last peer,
    /// and after a failed lookup, the task sleeps. An event that answers no
    /// outstanding action changes nothing.
    pub open spec fn next(state: TaskView, event: DiscoveryEvent) -> (TaskView, ActionView) {
        match state.phase {
            Phase::Created => match event {
                DiscoveryEvent::Spawned => (Self::enter(state, Phase::Starting), ActionView::Start),
                _ => (state, ActionView::Wait),
            },
            Phase::Starting => match event {
                DiscoveryEvent::Started(up) => if up {
                    (Self::enter(state, Phase::Searching), ActionView::Lookup)
                } else {
                    (Self::enter(state, Phase::Stopped), ActionView::Stop)
                },
                _ => (state, ActionView::Wait),
            },
            Phase::Searching => match event {
                DiscoveryEvent::Found(records) => Self::publish(
                    state,
                    accepted(records@, state.chain_id),
                ),
                DiscoveryEvent::LookupFailed => (
                    Self::enter(state, Phase::Sleeping),
                    ActionView::Sleep(LOOKUP_INTERVAL_SECS),
                ),
                _ => (state, ActionView::Wait),
            },
            Phase::Publishing => match event {
                DiscoveryEvent::Sent(taken) => if taken {
                    Self::publish(state, state.pending)
                } else {
                    (Self::enter(state, Phase::Stopped), ActionView::Stop)
                },
                _ => (state, ActionView::Wait),
            },
            Phase::Sleeping => match event {
                DiscoveryEvent::Woke => (Self::enter(state, Phase::Searching), ActionView::Lookup),
                _ => (state, ActionView::Wait),
            },
            Phase::Stopped => (state, ActionView::Stop),
        }
    }

    /// Makes the task of the network `chain_id`, before its first step.
    pub fn new(chain_id: u64) -> (task: Self)
        ensures
            task@ == Self::initial(chain_id),
    {
        let task = DiscoveryTask { chain_id, phase: Phase::Created, pending: Vec::new() };
        proof {
            assert(task@.pending =~= Seq::empty());
        }
        task
    }

    /// The chain identifier of the network.
    pub fn chain_id(&self) -> (chain_id: u64)
        ensures
            chain_id == self@.chain_id,
    {
        self.chain_id
    }

    /// What the task is waiting for.
    pub fn phase(&self) -> (phase: Phase)
        ensures
            phase == self@.phase,
    {
        self.phase
    }

    /// The number of peers that are not sent yet.
    pub fn backlog(&self) -> (n: usize)
        ensures
            n == self@.pending.len(),
    {
        self.pending.len()
    }

    /// Whether the task has ended.
    pub fn is_stopped(&self) -> (stopped: bool)
        ensures
            stopped == (self@.phase == Phase::Stopped),
    {
        match self.phase {
            Phase::Stopped => true,
            _ => false,
        }
    }

    /// Sends the next pending peer, or sleeps where none is pending.
    fn publish_next(&mut self) -> (action: DiscoveryAction)
        ensures
            (final(self)@, action@) == Self::publish(old(self)@, old(self)@.pending),
    {
        if self.pending.len() == 0 {
            self.phase = Phase::Sleeping;
            proof {
                assert(self@.pending =~= Seq::empty());
            }
            DiscoveryAction::Sleep(LOOKUP_INTERVAL_SECS)
        } else {
            let ghost before = self.pending@;
            let peer = self.pending.remove(0);
            self.phase = Phase::Publishing;
            proof {
                assert(peer_views(self.pending@) =~= peer_views(before).skip(1));
            }
            DiscoveryAction::Send(peer)
        }
    }

    /// Moves the task to `phase`, with nothing pending.
    fn enter_phase(&mut self, phase: Phase)
        ensures
            final(self)@ == Self::enter(old(self)@, phase),
    {
        self.phase = phase;
        self.pending = Vec::new();
        proof {
            assert(self@.pending =~= Seq::empty());
        }
    }

    /// Takes the event that ended the outstanding action and decides what
    /// the task does next.
    pub fn step(&mut self, event: DiscoveryEvent) -> (action: DiscoveryAction)
        ensures
            (final(self)@, action@) == Self::next(old(self)@, event),
    {
        match self.phase {
            Phase::Created => match event {
                DiscoveryEvent::Spawned => {
                    self.enter_phase(Phase::Starting);
                    DiscoveryAction::Start
                },
                _ => DiscoveryAction::Wait,
            },
            Phase::Starting => match event {
                DiscoveryEvent::Started(up) => {
                    if up {
                        self.enter_phase(Phase::Searching);
                        DiscoveryAction::Lookup
                    } else {
                        self.enter_phase(Phase::Stopped);
                        DiscoveryAction::Stop
                    }
                },
                _ => DiscoveryAction::Wait,
            },
            Phase::Searching => match event {
                DiscoveryEvent::Found(records) => {
                    self.pending = accepted_peers(&records, self.chain_id);
                    self.publish_next()
                },
                DiscoveryEvent::LookupFailed => {
                    self.enter_phase(Phase::Sleeping);
                    DiscoveryAction::Sleep(LOOKUP_INTERVAL_SECS)
                },
                _ => DiscoveryAction::Wait,
            },
            Phase::Publishing => match event {
                DiscoveryEvent::Sent(taken) => {
                    if taken {
                        self.publish_next()
                    } else {
                        self.enter_phase(Phase::Stopped);
                        DiscoveryAction::Stop
                    }
                },
                _ => DiscoveryAction::Wait,
            },
            Phase::Sleeping => match event {
                DiscoveryEvent::Woke => {
                    self.enter_phase(Phase::Searching);
                    DiscoveryAction::Lookup
                },
                _ => DiscoveryAction::Wait,
            },
            Phase::Stopped => DiscoveryAction::Stop,
        }
    }

    /// The state after the channel has taken `acks` peers in a row.
    pub open spec fn after_acks(state: TaskView, acks: nat) -> TaskView
        decreases acks,
    {
        if acks == 0 {
            state
        } else {
            Self::next(Self::after_acks(state, (acks - 1) as nat), DiscoveryEvent::Sent(true)).0
        }
    }

    /// Every step keeps a task well formed and on its chain.
    pub proof fn lemma_step_preserves(state: TaskView, event: DiscoveryEvent)
        requires
            Self::well_formed(state),
        ensures
            Self::well_formed(Self::next(state, event).0),
            Self::next(state, event).0.chain_id == state.chain_id,
    {
    }

    /// No peer is published for a record that fails the membership test or
    /// the conversion: whatever a step sends, or keeps to send, stands for an
    /// accepted record of the lookup that the task last heard of, and a
    /// lookup without an accepted record sends nothing.
    pub proof fn lemma_only_accepted_published(state: TaskView, records: Vec<Record>, i: int)
        requires
            state.phase == Phase::Searching,
            0 <= i < accepted(records@, state.chain_id).len(),
        ensures
            ({
                let (after, action) = Self::next(state, DiscoveryEvent::Found(records));
                let peer = accepted(records@, state.chain_id)[i];
                &&& action == ActionView::Send(accepted(records@, state.chain_id)[0])
                &&& after.pending == accepted(records@, state.chain_id).skip(1)
                &&& exists|j: int|
                    0 <= j < records@.len() && accepts(#[trigger] records@[j], state.chain_id)
                        && Peer::of_record(records@[j]) == Ok::<PeerView, PeerError>(peer)
            }),
    {
        lemma_accepted_sound(records@, state.chain_id, i);
    }

    /// The state of a task of the network `chain_id` after the events
    /// `events`, the task being new before the first of them.
    pub open spec fn state_after(chain_id: u64, events: Seq<DiscoveryEvent>) -> TaskView
        decreases events.len(),
    {
        if events.len() == 0 {
            Self::initial(chain_id)
        } else {
            Self::next(Self::state_after(chain_id, events.drop_last()), events.last()).0
        }
    }

    /// The action that such a task asks for at the event `i` of `events`.
    pub open spec fn action_at(chain_id: u64, events: Seq<DiscoveryEvent>, i: int) -> ActionView
        recommends
            0 <= i < events.len(),
    {
        Self::next(Self::state_after(chain_id, events.subrange(0, i)), events[i]).1
    }

    /// Whether `event` is a lookup that returned an accepted record of the
    /// network `chain_id` for which `peer` stands.
    pub open spec fn gives(event: DiscoveryEvent, chain_id: u64, peer: PeerView) -> bool {
        event matches DiscoveryEvent::Found(records) && exists|j: int|
            0 <= j < records@.len() && accepts(#[trigger] records@[j], chain_id)
                && Peer::of_record(records@[j]) == Ok::<PeerView, PeerError>(peer)
    }

    /// Whether one of the first `n` events is such a lookup.
    pub open spec fn discovered(
        chain_id: u64,
        events: Seq<DiscoveryEvent>,
        n: int,
        peer: PeerView,
    ) -> bool {
        exists|k: int| 0 <= k < n && k < events.len() && #[trigger] Self::gives(
            events[k],
            chain_id,
            peer,
        )
    }

    /// A task stays well formed and on its chain whatever the events.
    pub proof fn lemma_state_after_well_formed(chain_id: u64, events: Seq<DiscoveryEvent>)
        ensures
            Self::well_formed(Self::state_after(chain_id, events)),
            Self::state_after(chain_id, events).chain_id == chain_id,
        decreases events.len(),
    {
        if events.len() > 0 {
            Self::lemma_state_after_well_formed(chain_id, events.drop_last());
            Self::lemma_step_preserves(
                Self::state_after(chain_id, events.drop_last()),
                events.last(),
            );
        }
    }

    /// Every peer that a task keeps to send stands for an accepted record of
    /// a lookup that the task heard of.
    pub proof fn lemma_pending_discovered(chain_id: u64, events: Seq<DiscoveryEvent>, i: int)
        requires
            0 <= i < Self::state_after(chain_id, events).pending.len(),
        ensures
            Self::discovered(
                chain_id,
                events,
                events.len() as int,
                Self::state_after(chain_id, events).pending[i],
            ),
        decreases events.len(),
    {
        let before = events.drop_last();
        let last = events.len() - 1;
        let state = Self::state_after(chain_id, before);
        let peer = Self::state_after(chain_id, events).pending[i];
        Self::lemma_state_after_well_formed(chain_id, before);
        match (state.phase, events.last()) {
            (Phase::Searching, DiscoveryEvent::Found(records)) => {
                lemma_accepted_sound(records@, chain_id, i + 1);
                assert(Self::gives(events[last], chain_id, peer));
            },
            (Phase::Publishing, DiscoveryEvent::Sent(true)) => {
                Self::lemma_pending_discovered(chain_id, before, i + 1);
                let k = choose|k: int|
                    0 <= k < before.len() && #[trigger] Self::gives(before[k], chain_id, peer);
                assert(Self::gives(events[k], chain_id, peer));
            },
            _ => {
                assert(Self::state_after(chain_id, events) == state);
                Self::lemma_pending_discovered(chain_id, before, i);
                let k = choose|k: int|
                    0 <= k < before.len() && #[trigger] Self::gives(before[k], chain_id, peer);
                assert(Self::gives(events[k], chain_id, peer));
            },
        }
    }

    /// Invalid records are never published: whenever a task sends a peer,
    /// whatever happened before, the peer stands for a record that a lookup
    /// returned, that belongs to the task's network and that converts to
    /// that peer.
    pub proof fn lemma_only_discovered_sent(
        chain_id: u64,
        events: Seq<DiscoveryEvent>,
        i: int,
        peer: PeerView,
    )
        requires
            0 <= i < events.len(),
            Self::action_at(chain_id, events, i) == ActionView::Send(peer),
        ensures
            Self::discovered(chain_id, events, i + 1, peer),
    {
        let prefix = events.subrange(0, i);
        let state = Self::state_after(chain_id, prefix);
        Self::lemma_state_after_well_formed(chain_id, prefix);
        match (state.phase, events[i]) {
            (Phase::Searching, DiscoveryEvent::Found(records)) => {
                lemma_accepted_sound(records@, chain_id, 0);
                assert(Self::gives(events[i], chain_id, peer));
            },
            (Phase::Publishing, DiscoveryEvent::Sent(true)) => {
                Self::lemma_pending_discovered(chain_id, prefix, 0);
                let k = choose|k: int|
                    0 <= k < prefix.len() && #[trigger] Self::gives(prefix[k], chain_id, peer);
                assert(Self::gives(events[k], chain_id, peer));
            },
            _ => {},
        }
    }

    /// While a peer is being sent, only the channel's answer moves the task:
    /// any other event leaves the state as it is and asks for nothing, so no
    /// lookup is issued and no second peer is offered.
    pub proof fn lemma_publishing_waits(state: TaskView, event: DiscoveryEvent)
        requires
            state.phase == Phase::Publishing,
            !(event is Sent),
        ensures
            Self::next(state, event) == (state, ActionView::Wait),
    {
    }

    /// The peers of a lookup go out in order, one for each answer of the
    /// channel: after `acks` answers in a row the task has offered the peers
    /// up to the one at `acks`, waits for the channel to take that one, and
    /// keeps the others.
    pub proof fn lemma_publishing_progress(state: TaskView, acks: nat)
        requires
            state.phase == Phase::Publishing,
            acks <= state.pending.len(),
        ensures
            Self::after_acks(state, acks).phase == Phase::Publishing,
            Self::after_acks(state, acks).chain_id == state.chain_id,
            Self::after_acks(state, acks).pending == state.pending.skip(acks as int),
            acks > 0 ==> Self::next(
                Self::after_acks(state, (acks - 1) as nat),
                DiscoveryEvent::Sent(true),
            ).1 == ActionView::Send(state.pending[acks - 1]),
        decreases acks,
    {
        if acks == 0 {
            assert(state.pending.skip(0) =~= state.pending);
        } else {
            Self::lemma_publishing_progress(state, (acks - 1) as nat);
            let before = Self::after_acks(state, (acks - 1) as nat);
            assert(before.pending.skip(1) =~= state.pending.skip(acks as int));
        }
    }

    /// Backpressure: of a lookup with more accepted peers than the channel
    /// buffers, the task has offered one peer more than the channel's
    /// capacity once the channel is full. That peer waits for room, the task
    /// waits with it, and the peers beyond it stay with the task.
    pub proof fn lemma_backpressure(state: TaskView, records: Vec<Record>)
        requires
            state.phase == Phase::Searching,
            accepted(records@, state.chain_id).len() > DISCOVERY_PEER_CHANNEL_SIZE,
        ensures
            ({
                let peers = accepted(records@, state.chain_id);
                let first = Self::next(state, DiscoveryEvent::Found(records)).0;
                let full = Self::after_acks(first, DISCOVERY_PEER_CHANNEL_SIZE as nat);
                &&& full.phase == Phase::Publishing
                &&& full.pending == peers.skip(DISCOVERY_PEER_CHANNEL_SIZE + 1)
                &&& forall|event: DiscoveryEvent|
                    !(event is Sent) ==> #[trigger] Self::next(full, event) == (
                        full,
                        ActionView::Wait,
                    )
            }),
    {
        let peers = accepted(records@, state.chain_id);
        let first = Self::next(state, DiscoveryEvent::Found(records)).0;
        Self::lemma_publishing_progress(first, DISCOVERY_PEER_CHANNEL_SIZE as nat);
        assert(peers.skip(1).skip(DISCOVERY_PEER_CHANNEL_SIZE as int) =~= peers.skip(
            DISCOVERY_PEER_CHANNEL_SIZE + 1,
        ));
    }

    /// A channel that is closed ends the task, and an ended task asks for
    /// nothing but to end.
    pub proof fn lemma_closed_channel_stops(state: TaskView, event: DiscoveryEvent)
        requires
            state.phase == Phase::Publishing,
        ensures
            ({
                let stopped = Self::next(state, DiscoveryEvent::Sent(false));
                &&& stopped.0.phase == Phase::Stopped
                &&& stopped.1 == ActionView::Stop
                &&& Self::next(stopped.0, event) == (stopped.0, ActionView::Stop)
            }),
    {
    }
}

} // verus!
