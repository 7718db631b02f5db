//! The monitor: which devices have a stream, what is outstanding, and the
//! transition taken on each input.

use vstd::prelude::*;
use crate::event::{AttributeChange, DiscoveryEvent, EntityId, Input, MergedEvent, Notice, Request, StepError};

verus! {

/// Why a handle is being looked up.
#[derive(Clone, Copy, Debug, PartialEq, Eq)]
pub enum Purpose {
    /// The device was just discovered and is to be given a stream.
    Attach,
    /// The device's connection state changed to the given value and an
    /// alert is to be raised.
    Announce(bool),
}

/// What the monitor is waiting for.
#[derive(Clone, Copy, Debug, PartialEq, Eq)]
pub enum Phase {
    /// The next merged event.
    Idle,
    /// The outcome of a handle lookup.
    Resolving(EntityId, Purpose),
    /// The outcome of opening a device's stream.
    Subscribing(EntityId),
    /// The outcome of reading a device's connection state.
    Reading(EntityId),
    /// Nothing: the loop has ended.
    Done,
}

/// The monitor as a mathematical value.
pub struct MonitorState {
    pub phase: Phase,
    /// The devices that have a stream, in the order in which they got it.
    pub registered: Seq<EntityId>,
}

/// The state of a monitor before any input.
pub open spec fn initial() -> MonitorState {
    MonitorState { phase: Phase::Idle, registered: Seq::empty() }
}

/// No device has two streams, and a device whose stream is being opened
/// has none yet.
pub open spec fn well_formed(s: MonitorState) -> bool {
    &&& s.registered.no_duplicates()
    &&& s.phase matches Phase::Subscribing(id) ==> !s.registered.contains(id)
}

/// The state with another phase.
pub open spec fn moved(s: MonitorState, phase: Phase) -> MonitorState {
    MonitorState { phase, registered: s.registered }
}

/// The transition on a merged event received while idle.
pub open spec fn on_event(s: MonitorState, event: MergedEvent) -> (MonitorState, Request) {
    match event {
        MergedEvent::Discovery(DiscoveryEvent::Added(id)) => (
            moved(s, Phase::Resolving(id, Purpose::Attach)),
            Request::Resolve(id),
        ),
        MergedEvent::Change(id, AttributeChange::Connected(value)) => (
            moved(s, Phase::Resolving(id, Purpose::Announce(value))),
            Request::Resolve(id),
        ),
        _ => (s, Request::Poll),
    }
}

/// Whether the input is what a monitor in the given phase waits for: a
/// merged event or the end of all sources while idle, else the outcome of
/// the work last asked for.
pub open spec fn in_turn(phase: Phase, input: Input) -> bool {
    match phase {
        Phase::Idle => input is Event || input is Exhausted,
        Phase::Resolving(_, _) => input is Resolved,
        Phase::Subscribing(_) => input is Subscribed,
        Phase::Reading(_) => input is Snapshot || input is SnapshotFailed,
        Phase::Done => false,
    }
}

/// The transition on any input: the next state, and the request made of the
/// loop or the reason for refusing the input.
///
/// A failed lookup, a stream that cannot be opened and a failed read each end
/// the handling of the event at hand and nothing else. A device that already
/// has a stream is not given a second one, but its connection state is read
/// again.
pub open spec fn transition(s: MonitorState, input: Input) -> (MonitorState, Result<Request, StepError>) {
    match (s.phase, input) {
        (Phase::Done, _) => (s, Err(StepError::Finished)),
        (Phase::Idle, Input::Event(event)) => (on_event(s, event).0, Ok(on_event(s, event).1)),
        (Phase::Idle, Input::Exhausted) => (moved(s, Phase::Done), Ok(Request::Stop)),
        (Phase::Resolving(_, _), Input::Resolved(false)) => (moved(s, Phase::Idle), Ok(Request::Poll)),
        (Phase::Resolving(id, Purpose::Announce(value)), Input::Resolved(true)) => (
            moved(s, Phase::Idle),
            Ok(Request::Notify(Notice { id, active: value })),
        ),
        (Phase::Resolving(id, Purpose::Attach), Input::Resolved(true)) => if s.registered.contains(id) {
            (moved(s, Phase::Reading(id)), Ok(Request::ReadConnected(id)))
        } else {
            (moved(s, Phase::Subscribing(id)), Ok(Request::Subscribe(id)))
        },
        (Phase::Subscribing(id), Input::Subscribed(true)) => (
            MonitorState { phase: Phase::Reading(id), registered: s.registered.push(id) },
            Ok(Request::ReadConnected(id)),
        ),
        (Phase::Subscribing(_), Input::Subscribed(false)) => (moved(s, Phase::Idle), Ok(Request::Poll)),
        (Phase::Reading(id), Input::Snapshot(true)) => (
            moved(s, Phase::Idle),
            Ok(Request::Notify(Notice { id, active: true })),
        ),
        (Phase::Reading(_), Input::Snapshot(false)) => (moved(s, Phase::Idle), Ok(Request::Poll)),
        (Phase::Reading(_), Input::SnapshotFailed) => (moved(s, Phase::Idle), Ok(Request::Poll)),
        _ => (s, Err(StepError::OutOfTurn)),
    }
}

/// A transition keeps a state well formed.
pub proof fn lemma_transition_well_formed(s: MonitorState, input: Input)
    requires
        well_formed(s),
    ensures
        well_formed(transition(s, input).0),
{
    let t = transition(s, input).0;
    match (s.phase, input) {
        (Phase::Subscribing(id), Input::Subscribed(true)) => {
            assert(t.registered == s.registered.push(id));
            assert forall|i: int, j: int|
                0 <= i < t.registered.len() && 0 <= j < t.registered.len() && i != j implies t.registered[i]
                != t.registered[j] by {
                if i < s.registered.len() && j < s.registered.len() {
                } else if i < s.registered.len() {
                    assert(s.registered.contains(s.registered[i]));
                } else {
                    assert(s.registered.contains(s.registered[j]));
                }
            }
        },
        _ => {},
    }
}

/// An input is refused if and only if the monitor has stopped or the input
/// is not what it waits for, and a refused input changes nothing.
pub proof fn lemma_refusals(s: MonitorState, input: Input)
    ensures
        transition(s, input).1 == Err::<Request, StepError>(StepError::Finished) <==> s.phase == Phase::Done,
        transition(s, input).1 == Err::<Request, StepError>(StepError::OutOfTurn) <==> s.phase != Phase::Done
            && !in_turn(s.phase, input),
        transition(s, input).1 is Err ==> transition(s, input).0 == s,
{
}

/// Nothing but the end of all sources stops the monitor: no failure of a
/// lookup, of a stream or of a read does.
pub proof fn lemma_only_exhaustion_stops(s: MonitorState, input: Input)
    requires
        s.phase != Phase::Done,
    ensures
        transition(s, input).0.phase == Phase::Done <==> s.phase == Phase::Idle && input == Input::Exhausted,
{
}

/// A transition never takes a stream away: the streams before it are the
/// first of the streams after it, in the same order.
pub proof fn lemma_transition_keeps_streams(s: MonitorState, input: Input)
    ensures
        s.registered.is_prefix_of(transition(s, input).0.registered),
{
}

/// Tracks which devices have a stream and what the loop was last asked for.
pub struct Monitor {
    phase: Phase,
    registered: Vec<EntityId>,
}

impl View for Monitor {
    type V = MonitorState;

    closed spec fn view(&self) -> MonitorState {
        MonitorState { phase: self.phase, registered: self.registered@ }
    }
}

impl Monitor {
    /// Whether the monitor's state is well formed.
    pub open spec fn wf(&self) -> bool {
        well_formed(self@)
    }

    /// A monitor that has seen nothing and waits for the first event.
    pub fn new() -> (m: Monitor)
        ensures
            m.wf(),
            m@ == initial(),
    {
        Monitor { phase: Phase::Idle, registered: Vec::new() }
    }

    /// What the monitor is waiting for.
    pub fn phase(&self) -> (p: Phase)
        ensures
            p == self@.phase,
    {
        self.phase
    }

    /// How many devices have a stream.
    pub fn stream_count(&self) -> (n: usize)
        ensures
            n == self@.registered.len(),
    {
        self.registered.len()
    }

    /// Whether the device has a stream.
    pub fn is_registered(&self, id: EntityId) -> (found: bool)
        ensures
            found == self@.registered.contains(id),
    {
        let mut i: usize = 0;
        while i < self.registered.len()
            invariant
                i <= self.registered.len(),
                forall|k: int| 0 <= k < i ==> self.registered@[k] != id,
            decreases self.registered.len() - i,
        {
            if self.registered[i] == id {
                return true;
            }
            i += 1;
        }
        false
    }

    /// Takes one input, moves to the next state and says what the loop is to
    /// do next. An input that is refused leaves the monitor as it was.
    pub fn step(&mut self, input: Input) -> (reply: Result<Request, StepError>)
        requires
            old(self).wf(),
        ensures
            final(self).wf(),
            final(self)@ == transition(old(self)@, input).0,
            reply == transition(old(self)@, input).1,
            reply == Err::<Request, StepError>(StepError::Finished) <==> old(self)@.phase == Phase::Done,
            reply == Err::<Request, StepError>(StepError::OutOfTurn) <==> old(self)@.phase != Phase::Done
                && !in_turn(old(self)@.phase, input),
            reply is Err ==> final(self)@ == old(self)@,
            old(self)@.registered.is_prefix_of(final(self)@.registered),
    {
        proof {
            lemma_transition_well_formed(self@, input);
            lemma_refusals(self@, input);
            lemma_transition_keeps_streams(self@, input);
        }
        match (self.phase, input) {
            (Phase::Done, _) => Err(StepError::Finished),
            (Phase::Idle, Input::Event(MergedEvent::Discovery(DiscoveryEvent::Added(id)))) => {
                self.phase = Phase::Resolving(id, Purpose::Attach);
                Ok(Request::Resolve(id))
            },
            (Phase::Idle, Input::Event(MergedEvent::Change(id, AttributeChange::Connected(value)))) => {
                self.phase = Phase::Resolving(id, Purpose::Announce(value));
                Ok(Request::Resolve(id))
            },
            (Phase::Idle, Input::Event(_)) => Ok(Request::Poll),
            (Phase::Idle, Input::Exhausted) => {
                self.phase = Phase::Done;
                Ok(Request::Stop)
            },
            (Phase::Resolving(_, _), Input::Resolved(false)) => {
                self.phase = Phase::Idle;
                Ok(Request::Poll)
            },
            (Phase::Resolving(id, Purpose::Announce(value)), Input::Resolved(true)) => {
                self.phase = Phase::Idle;
                Ok(Request::Notify(Notice { id, active: value }))
            },
            (Phase::Resolving(id, Purpose::Attach), Input::Resolved(true)) => {
                if self.is_registered(id) {
                    self.phase = Phase::Reading(id);
                    Ok(Request::ReadConnected(id))
                } else {
                    self.phase = Phase::Subscribing(id);
                    Ok(Request::Subscribe(id))
                }
            },
            (Phase::Subscribing(id), Input::Subscribed(true)) => {
                self.registered.push(id);
                self.phase = Phase::Reading(id);
                Ok(Request::ReadConnected(id))
            },
            (Phase::Subscribing(_), Input::Subscribed(false)) => {
                self.phase = Phase::Idle;
                Ok(Request::Poll)
            },
            (Phase::Reading(id), Input::Snapshot(true)) => {
                self.phase = Phase::Idle;
                Ok(Request::Notify(Notice { id, active: true }))
            },
            (Phase::Reading(_), Input::Snapshot(false)) => {
                self.phase = Phase::Idle;
                Ok(Request::Poll)
            },
            (Phase::Reading(_), Input::SnapshotFailed) => {
                self.phase = Phase::Idle;
                Ok(Request::Poll)
            },
            _ => Err(StepError::OutOfTurn),
        }
    }
}

} // verus!
