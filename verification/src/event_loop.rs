//! The event loop of the network driver: what to do with each peer that
//! discovery reports and each event of the gossip transport.
//!
//! The loop waits on both sources at once; whoever runs it reports what
//! arrived and performs the action that a step returns. The transport owns
//! the meaning of its events: the loop hands each one back to be handled,
//! and `E` is the transport's event type.

use vstd::prelude::*;
use crate::error::{InitStep, NetworkError};
use crate::types::Peer;

verus! {

/// The state of the event loop.
#[derive(Clone, Copy, Debug, PartialEq, Eq, Structural)]
pub enum LoopState {
    /// The loop waits for a peer or a transport event.
    AwaitingEvent,
    /// The loop has ended: the discovery channel is closed.
    Terminated,
}

/// What arrived at the loop.
#[derive(Debug, PartialEq, Eq)]
pub enum LoopEvent<E> {
    /// The discovery channel gave a peer, or `None`: it is closed.
    Discovery(Option<Peer>),
    /// The transport produced an event.
    Transport(E),
    /// The consumer of forwarded peers went away.
    ForwardFailed,
}

/// What the loop does next.
#[derive(Debug, PartialEq, Eq)]
pub enum LoopAction<E> {
    /// Dial the peer through the transport, then forward it to the
    /// consumer.
    DialAndForward(Peer),
    /// Dial with no peer, to tell the transport that discovery has ended,
    /// and end the loop.
    FinalDial,
    /// Hand the event to the transport's handler.
    Handle(E),
    /// Nothing to do: go on waiting.
    Continue,
    /// Nothing to do: the loop has ended.
    Halt,
}

/// The event loop of the network driver.
#[derive(Debug)]
pub struct DriverLoop {
    state: LoopState,
}

impl View for DriverLoop {
    type V = LoopState;

    closed spec fn view(&self) -> LoopState {
        self.state
    }
}

impl DriverLoop {
    /// The transition function: the state after `event` and the action that
    /// the loop asks for.
    ///
    /// While it waits, the loop dials and forwards each peer, hands each
    /// transport event to the handler, and goes on after a failed forward.
    /// When the discovery channel closes it dials once more, with no peer,
    /// and ends. Once ended it does nothing, whatever arrives.
    pub open spec fn next<E>(state: LoopState, event: LoopEvent<E>) -> (LoopState, LoopAction<E>) {
        match state {
            LoopState::Terminated => (LoopState::Terminated, LoopAction::Halt),
            LoopState::AwaitingEvent => match event {
                LoopEvent::Discovery(Some(peer)) => (
                    LoopState::AwaitingEvent,
                    LoopAction::DialAndForward(peer),
                ),
                LoopEvent::Discovery(None) => (LoopState::Terminated, LoopAction::FinalDial),
                LoopEvent::Transport(e) => (LoopState::AwaitingEvent, LoopAction::Handle(e)),
                LoopEvent::ForwardFailed => (LoopState::AwaitingEvent, LoopAction::Continue),
            },
        }
    }

    /// The state after the events `events`, from a loop that waits.
    pub open spec fn state_after<E>(events: Seq<LoopEvent<E>>) -> LoopState
        decreases events.len(),
    {
        if events.len() == 0 {
            LoopState::AwaitingEvent
        } else {
            Self::next(Self::state_after(events.drop_last()), events.last()).0
        }
    }

    /// The action that the loop asks for at the event `i` of `events`.
    pub open spec fn action_at<E>(events: Seq<LoopEvent<E>>, i: int) -> LoopAction<E>
        recommends
            0 <= i < events.len(),
    {
        Self::next(Self::state_after(events.subrange(0, i)), events[i]).1
    }

    /// Whether the discovery channel closed before the event `i`.
    pub open spec fn closed_before<E>(events: Seq<LoopEvent<E>>, i: int) -> bool {
        exists|j: int| 0 <= j < i && #[trigger] events[j] == LoopEvent::<E>::Discovery(None)
    }

    /// Starts the loop once the transport listens. A transport that failed
    /// to listen gives no loop but the failure of the listener step.
    pub fn spawn(listening: bool) -> (r: Result<Self, NetworkError>)
        ensures
            match r {
                Ok(event_loop) => listening && event_loop@ == LoopState::AwaitingEvent,
                Err(e) => !listening && e == NetworkError::ProtocolInit(InitStep::Listener),
            },
    {
        if listening {
            Ok(DriverLoop { state: LoopState::AwaitingEvent })
        } else {
            Err(NetworkError::ProtocolInit(InitStep::Listener))
        }
    }

    /// The state of the loop.
    pub fn state(&self) -> (state: LoopState)
        ensures
            state == self@,
    {
        self.state
    }

    /// Whether the loop has ended.
    pub fn is_terminated(&self) -> (ended: bool)
        ensures
            ended == (self@ == LoopState::Terminated),
    {
        match self.state {
            LoopState::Terminated => true,
            LoopState::AwaitingEvent => false,
        }
    }

    /// Takes what arrived and decides what the loop does next.
    pub fn step<E>(&mut self, event: LoopEvent<E>) -> (action: LoopAction<E>)
        ensures
            (final(self)@, action) == Self::next(old(self)@, event),
    {
        match self.state {
            LoopState::Terminated => LoopAction::Halt,
            LoopState::AwaitingEvent => match event {
                LoopEvent::Discovery(Some(peer)) => LoopAction::DialAndForward(peer),
                LoopEvent::Discovery(None) => {
                    self.state = LoopState::Terminated;
                    LoopAction::FinalDial
                },
                LoopEvent::Transport(e) => LoopAction::Handle(e),
                LoopEvent::ForwardFailed => LoopAction::Continue,
            },
        }
    }

    /// The loop has ended exactly when the discovery channel has closed.
    pub proof fn lemma_terminated_iff_closed<E>(events: Seq<LoopEvent<E>>)
        ensures
            Self::state_after(events) == LoopState::Terminated <==> Self::closed_before(
                events,
                events.len() as int,
            ),
        decreases events.len(),
    {
        if events.len() > 0 {
            let before = events.drop_last();
            let last = events.len() - 1;
            Self::lemma_terminated_iff_closed(before);
            if Self::closed_before(before, before.len() as int) {
                let j = choose|j: int|
                    0 <= j < before.len() && #[trigger] before[j] == LoopEvent::<E>::Discovery(
                        None,
                    );
                assert(events[j] == before[j]);
            }
            if Self::closed_before(events, events.len() as int) {
                let j = choose|j: int|
                    0 <= j < events.len() && #[trigger] events[j] == LoopEvent::<E>::Discovery(
                        None,
                    );
                if j < last {
                    assert(before[j] == events[j]);
                }
            }
            if events[last] == LoopEvent::<E>::Discovery(None) {
                assert(Self::closed_before(events, events.len() as int));
            }
        }
    }

    /// Clean shutdown: when the discovery channel closes, the loop dials
    /// once with no peer and ends. Before that event it never asks for the
    /// final dial nor halts; after it, it only halts, so that no transport
    /// event is handled and no peer is dialled any more.
    pub proof fn lemma_clean_shutdown<E>(events: Seq<LoopEvent<E>>, i: int)
        requires
            0 <= i < events.len(),
        ensures
            Self::closed_before(events, i) ==> Self::action_at(events, i) == LoopAction::<E>::Halt,
            !Self::closed_before(events, i) ==> (Self::action_at(events, i)
                == LoopAction::<E>::FinalDial <==> events[i] == LoopEvent::<E>::Discovery(None)),
            !Self::closed_before(events, i) ==> Self::action_at(events, i) != LoopAction::<E>::Halt,
    {
        let prefix = events.subrange(0, i);
        Self::lemma_terminated_iff_closed(prefix);
        if Self::closed_before(prefix, i) {
            let j = choose|j: int|
                0 <= j < i && #[trigger] prefix[j] == LoopEvent::<E>::Discovery(None);
            assert(events[j] == prefix[j]);
        }
        if Self::closed_before(events, i) {
            let j = choose|j: int|
                0 <= j < i && #[trigger] events[j] == LoopEvent::<E>::Discovery(None);
            assert(prefix[j] == events[j]);
        }
    }

    /// The final dial happens once at most: two events that both draw it are
    /// one event.
    pub proof fn lemma_one_final_dial<E>(events: Seq<LoopEvent<E>>, i: int, k: int)
        requires
            0 <= i < events.len(),
            0 <= k < events.len(),
            Self::action_at(events, i) == LoopAction::<E>::FinalDial,
            Self::action_at(events, k) == LoopAction::<E>::FinalDial,
        ensures
            i == k,
    {
        Self::lemma_clean_shutdown(events, i);
        Self::lemma_clean_shutdown(events, k);
        if i < k {
            assert(events[i] == LoopEvent::<E>::Discovery(None));
            assert(Self::closed_before(events, k));
        } else if k < i {
            assert(events[k] == LoopEvent::<E>::Discovery(None));
            assert(Self::closed_before(events, i));
        }
    }
}

} // verus!
