//! Whole runs of the monitor: the state reached and the alerts raised on a
//! sequence of inputs, and what holds of every such run.

use vstd::prelude::*;
use vstd::set_lib::lemma_len_subset;
use crate::event::{AttributeChange, DiscoveryEvent, EntityId, Input, MergedEvent, Notice, Request, StepError};
use crate::monitor::{initial, lemma_transition_keeps_streams, lemma_transition_well_formed, transition, well_formed, Monitor, MonitorState, Phase, Purpose};

verus! {

/// The state that a fresh monitor reaches on the inputs, taken in order.
pub open spec fn run(inputs: Seq<Input>) -> MonitorState
    decreases inputs.len(),
{
    if inputs.len() == 0 {
        initial()
    } else {
        transition(run(inputs.drop_last()), inputs.last()).0
    }
}

/// The alert that a reply asks for, if it asks for one.
pub open spec fn notice_of(reply: Result<Request, StepError>) -> Option<Notice> {
    match reply {
        Ok(Request::Notify(notice)) => Some(notice),
        _ => None,
    }
}

/// The alerts that a fresh monitor asks for on the inputs, in order.
pub open spec fn notices(inputs: Seq<Input>) -> Seq<Notice>
    decreases inputs.len(),
{
    if inputs.len() == 0 {
        Seq::empty()
    } else {
        let earlier = notices(inputs.drop_last());
        match notice_of(transition(run(inputs.drop_last()), inputs.last()).1) {
            Some(notice) => earlier.push(notice),
            None => earlier,
        }
    }
}

/// The devices that the inputs report as added.
pub open spec fn added_ids(inputs: Seq<Input>) -> Set<EntityId>
    decreases inputs.len(),
{
    if inputs.len() == 0 {
        Set::empty()
    } else {
        match inputs.last() {
            Input::Event(MergedEvent::Discovery(DiscoveryEvent::Added(id))) => added_ids(
                inputs.drop_last(),
            ).insert(id),
            _ => added_ids(inputs.drop_last()),
        }
    }
}

/// The input that reports a device as added.
pub open spec fn added(id: EntityId) -> Input {
    Input::Event(MergedEvent::Discovery(DiscoveryEvent::Added(id)))
}

/// The input that reports a change of a device's connection state.
pub open spec fn changed(id: EntityId, value: bool) -> Input {
    Input::Event(MergedEvent::Change(id, AttributeChange::Connected(value)))
}

/// The inputs by which a device reported as added gets its handle and, where
/// it has no stream yet, its stream.
pub open spec fn attached(before: Seq<Input>, id: EntityId) -> Seq<Input> {
    let found = before.push(added(id)).push(Input::Resolved(true));
    if run(before).registered.contains(id) {
        found
    } else {
        found.push(Input::Subscribed(true))
    }
}

/// One more input takes the run one transition further.
pub proof fn lemma_run_push(inputs: Seq<Input>, input: Input)
    ensures
        run(inputs.push(input)) == transition(run(inputs), input).0,
        notices(inputs.push(input)) == match notice_of(transition(run(inputs), input).1) {
            Some(notice) => notices(inputs).push(notice),
            None => notices(inputs),
        },
{
    assert(inputs.push(input).drop_last() =~= inputs);
}

/// The device that is about to get a stream was reported as added.
spec fn pending_known(s: MonitorState, ids: Set<EntityId>) -> bool {
    match s.phase {
        Phase::Resolving(id, Purpose::Attach) => ids.contains(id),
        Phase::Subscribing(id) => ids.contains(id),
        _ => true,
    }
}

proof fn lemma_run_invariant(inputs: Seq<Input>)
    ensures
        well_formed(run(inputs)),
        added_ids(inputs).finite(),
        pending_known(run(inputs), added_ids(inputs)),
        forall|id: EntityId| run(inputs).registered.contains(id) ==> added_ids(inputs).contains(id),
    decreases inputs.len(),
{
    if inputs.len() > 0 {
        let s = run(inputs.drop_last());
        let t = run(inputs);
        lemma_run_invariant(inputs.drop_last());
        lemma_transition_well_formed(s, inputs.last());
        assert forall|id: EntityId| t.registered.contains(id) implies added_ids(inputs).contains(id) by {
            if !s.registered.contains(id) {
                let i = choose|i: int| 0 <= i < t.registered.len() && t.registered[i] == id;
                if i < s.registered.len() {
                    assert(s.registered[i] == id);
                }
            }
        }
    }
}

/// At every point of every run no device has two streams, every device with
/// a stream was reported as added, and so there are at most as many streams
/// as distinct devices reported as added so far.
pub proof fn lemma_streams_bounded(inputs: Seq<Input>)
    ensures
        run(inputs).registered.no_duplicates(),
        forall|id: EntityId| run(inputs).registered.contains(id) ==> added_ids(inputs).contains(id),
        added_ids(inputs).finite(),
        run(inputs).registered.len() <= added_ids(inputs).len(),
{
    lemma_run_invariant(inputs);
    let streams = run(inputs).registered;
    streams.unique_seq_to_set();
    assert(streams.to_set().subset_of(added_ids(inputs))) by {
        assert forall|id: EntityId| streams.to_set().contains(id) implies added_ids(inputs).contains(id) by {
            assert(streams.contains(id));
        }
    }
    lemma_len_subset(streams.to_set(), added_ids(inputs));
}

/// The streams registered after the first `k` inputs of a run are still
/// registered, in the same order, at its end: their number never decreases.
pub proof fn lemma_streams_never_shrink(inputs: Seq<Input>, k: int)
    requires
        0 <= k <= inputs.len(),
    ensures
        run(inputs.take(k)).registered.is_prefix_of(run(inputs).registered),
        run(inputs.take(k)).registered.len() <= run(inputs).registered.len(),
    decreases inputs.len(),
{
    if k == inputs.len() {
        assert(inputs.take(k) =~= inputs);
    } else {
        assert(inputs.drop_last().take(k) =~= inputs.take(k));
        lemma_streams_never_shrink(inputs.drop_last(), k);
        lemma_transition_keeps_streams(run(inputs.drop_last()), inputs.last());
    }
}

/// While the monitor waits for the outcome of work it asked for, it takes in
/// no merged event: the event is refused and nothing changes.
pub proof fn lemma_events_wait_their_turn(s: MonitorState, event: MergedEvent)
    requires
        s.phase != Phase::Idle,
    ensures
        transition(s, Input::Event(event)).0 == s,
        transition(s, Input::Event(event)).1 is Err,
{
}

/// A device that is connected when it is reported as added gets exactly one
/// alert, for the connected state, as soon as its state has been read: none
/// is raised before the read, and until the read is answered no event of
/// the device's stream is taken in.
pub proof fn lemma_connected_at_discovery(before: Seq<Input>, id: EntityId)
    requires
        run(before).phase == Phase::Idle,
    ensures
        notices(attached(before, id)) == notices(before),
        run(attached(before, id)).phase == Phase::Reading(id),
        run(attached(before, id)).registered.contains(id),
        notices(attached(before, id).push(Input::Snapshot(true))) == notices(before).push(
            Notice { id, active: true },
        ),
        run(attached(before, id).push(Input::Snapshot(true))).phase == Phase::Idle,
{
    let a = before.push(added(id));
    let b = a.push(Input::Resolved(true));
    lemma_run_push(before, added(id));
    lemma_run_push(a, Input::Resolved(true));
    lemma_run_push(b, Input::Subscribed(true));
    lemma_run_push(attached(before, id), Input::Snapshot(true));
    if !run(before).registered.contains(id) {
        let streams = run(before).registered;
        assert(streams.push(id)[streams.len() as int] == id);
    }
}

/// A device that is not connected when it is reported as added gets no alert
/// then. When its stream later reports it as connected, one alert for the
/// connected state is raised, after that report and the lookup it starts.
pub proof fn lemma_connected_after_discovery(before: Seq<Input>, id: EntityId)
    requires
        run(before).phase == Phase::Idle,
    ensures
        ({
            let settled = attached(before, id).push(Input::Snapshot(false));
            let reported = settled.push(changed(id, true));
            &&& notices(settled) == notices(before)
            &&& run(settled).phase == Phase::Idle
            &&& notices(reported) == notices(before)
            &&& notices(reported.push(Input::Resolved(true))) == notices(before).push(
                Notice { id, active: true },
            )
            &&& run(reported.push(Input::Resolved(true))).phase == Phase::Idle
        }),
{
    let settled = attached(before, id).push(Input::Snapshot(false));
    let reported = settled.push(changed(id, true));
    lemma_connected_at_discovery(before, id);
    lemma_run_push(attached(before, id), Input::Snapshot(false));
    lemma_run_push(settled, changed(id, true));
    lemma_run_push(reported, Input::Resolved(true));
}

/// Two runs that have reached the same state and raised the same alerts go
/// on alike on the same further inputs.
pub proof fn lemma_same_state_same_future(a: Seq<Input>, b: Seq<Input>, rest: Seq<Input>)
    requires
        run(a) == run(b),
        notices(a) == notices(b),
    ensures
        run(a + rest) == run(b + rest),
        notices(a + rest) == notices(b + rest),
    decreases rest.len(),
{
    if rest.len() == 0 {
        assert(a + rest =~= a);
        assert(b + rest =~= b);
    } else {
        lemma_same_state_same_future(a, b, rest.drop_last());
        assert((a + rest).drop_last() =~= a + rest.drop_last());
        assert((b + rest).drop_last() =~= b + rest.drop_last());
    }
}

/// A lookup that fails, for a device reported as added or for one whose
/// connection state changed, ends the handling of that event and nothing
/// else: no alert is raised for it, no stream is lost, and every later input
/// is handled as if the event had not occurred.
pub proof fn lemma_failed_lookup_is_isolated(before: Seq<Input>, id: EntityId, value: bool, rest: Seq<Input>)
    requires
        run(before).phase == Phase::Idle,
    ensures
        ({
            let lost = before.push(added(id)).push(Input::Resolved(false));
            &&& run(lost) == run(before)
            &&& notices(lost) == notices(before)
            &&& run(lost + rest) == run(before + rest)
            &&& notices(lost + rest) == notices(before + rest)
        }),
        ({
            let lost = before.push(changed(id, value)).push(Input::Resolved(false));
            &&& run(lost) == run(before)
            &&& notices(lost) == notices(before)
            &&& run(lost + rest) == run(before + rest)
            &&& notices(lost + rest) == notices(before + rest)
        }),
{
    let lost_added = before.push(added(id)).push(Input::Resolved(false));
    lemma_run_push(before, added(id));
    lemma_run_push(before.push(added(id)), Input::Resolved(false));
    lemma_same_state_same_future(lost_added, before, rest);
    let lost_changed = before.push(changed(id, value)).push(Input::Resolved(false));
    lemma_run_push(before, changed(id, value));
    lemma_run_push(before.push(changed(id, value)), Input::Resolved(false));
    lemma_same_state_same_future(lost_changed, before, rest);
}

/// A stream that cannot be opened for a device reported as added ends the
/// handling of that event and nothing else: the device gets no stream and
/// no alert, and every later input is handled as if the event had not
/// occurred.
pub proof fn lemma_failed_stream_is_isolated(before: Seq<Input>, id: EntityId, rest: Seq<Input>)
    requires
        run(before).phase == Phase::Idle,
        !run(before).registered.contains(id),
    ensures
        ({
            let lost = before.push(added(id)).push(Input::Resolved(true)).push(Input::Subscribed(false));
            &&& run(lost) == run(before)
            &&& notices(lost) == notices(before)
            &&& run(lost + rest) == run(before + rest)
            &&& notices(lost + rest) == notices(before + rest)
        }),
{
    let found = before.push(added(id)).push(Input::Resolved(true));
    lemma_run_push(before, added(id));
    lemma_run_push(before.push(added(id)), Input::Resolved(true));
    lemma_run_push(found, Input::Subscribed(false));
    lemma_same_state_same_future(found.push(Input::Subscribed(false)), before, rest);
}

/// A connection state that cannot be read for a device reported as added
/// raises no alert and leaves the device with its stream.
pub proof fn lemma_failed_read_is_silent(before: Seq<Input>, id: EntityId)
    requires
        run(before).phase == Phase::Idle,
    ensures
        notices(attached(before, id).push(Input::SnapshotFailed)) == notices(before),
        run(attached(before, id).push(Input::SnapshotFailed)).phase == Phase::Idle,
        run(attached(before, id).push(Input::SnapshotFailed)).registered.contains(id),
{
    lemma_connected_at_discovery(before, id);
    lemma_run_push(attached(before, id), Input::SnapshotFailed);
}

/// Two fresh monitors given the same inputs in the same order reach the same
/// state and raise the same alerts in the same order.
pub proof fn lemma_replay_is_deterministic(first: Seq<Input>, second: Seq<Input>)
    requires
        first.len() == second.len(),
        forall|i: int| 0 <= i < first.len() ==> first[i] == second[i],
    ensures
        run(first) == run(second),
        notices(first) == notices(second),
{
    assert(first =~= second);
}

/// Feeds the inputs, in order, to a fresh monitor and returns the monitor
/// with the alerts it asked for, in order.
pub fn replay(inputs: &Vec<Input>) -> (out: (Monitor, Vec<Notice>))
    ensures
        out.0.wf(),
        out.0@ == run(inputs@),
        out.1@ == notices(inputs@),
{
    let mut monitor = Monitor::new();
    let mut raised: Vec<Notice> = Vec::new();
    let mut i: usize = 0;
    assert(inputs@.take(0) =~= Seq::<Input>::empty());
    while i < inputs.len()
        invariant
            i <= inputs.len(),
            monitor.wf(),
            monitor@ == run(inputs@.take(i as int)),
            raised@ == notices(inputs@.take(i as int)),
        decreases inputs.len() - i,
    {
        proof {
            lemma_run_push(inputs@.take(i as int), inputs@[i as int]);
            assert(inputs@.take(i as int).push(inputs@[i as int]) =~= inputs@.take(i + 1));
        }
        match monitor.step(inputs[i]) {
            Ok(Request::Notify(notice)) => {
                raised.push(notice);
            },
            _ => {},
        }
        i += 1;
    }
    assert(inputs@.take(i as int) =~= inputs@);
    (monitor, raised)
}

} // verus!
