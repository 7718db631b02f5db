use device_monitor::event::{AttributeChange, DiscoveryEvent, Input, MergedEvent, Notice};
use device_monitor::monitor::Phase;
use device_monitor::trace::replay;

const A: u64 = 0x0011_2233_4455;
const B: u64 = 0x00AA_BBCC_DDEE;

fn device_added(id: u64) -> Input {
    Input::Event(MergedEvent::Discovery(DiscoveryEvent::Added(id)))
}

fn connection_changed(id: u64, value: bool) -> Input {
    Input::Event(MergedEvent::Change(id, AttributeChange::Connected(value)))
}

#[test]
fn replay_of_nothing_raises_nothing() {
    let (monitor, raised) = replay(&vec![]);
    assert_eq!(monitor.phase(), Phase::Idle);
    assert_eq!(monitor.stream_count(), 0);
    assert_eq!(raised, vec![]);
}

#[test]
fn late_connection_then_connected_discovery() {
    let inputs = vec![
        device_added(A),
        Input::Resolved(true),
        Input::Subscribed(true),
        Input::Snapshot(false),
        connection_changed(A, true),
        Input::Resolved(true),
        device_added(B),
        Input::Resolved(true),
        Input::Subscribed(true),
        Input::Snapshot(true),
    ];
    let (before_change, early) = replay(&inputs[..4].to_vec());
    assert_eq!(early, vec![]);
    assert_eq!(before_change.stream_count(), 1);
    let (_, after_change) = replay(&inputs[..6].to_vec());
    assert_eq!(after_change, vec![Notice { id: A, active: true }]);
    let (_, before_read) = replay(&inputs[..9].to_vec());
    assert_eq!(before_read, vec![Notice { id: A, active: true }]);
    let (monitor, raised) = replay(&inputs);
    assert_eq!(
        raised,
        vec![Notice { id: A, active: true }, Notice { id: B, active: true }]
    );
    assert_eq!(monitor.stream_count(), 2);
    assert!(monitor.is_registered(A));
    assert!(monitor.is_registered(B));
    assert_eq!(monitor.phase(), Phase::Idle);
}

#[test]
fn unresolvable_device_does_not_stop_the_run() {
    let inputs = vec![
        device_added(A),
        Input::Resolved(false),
        device_added(B),
        Input::Resolved(true),
        Input::Subscribed(true),
        Input::Snapshot(true),
        connection_changed(B, false),
        Input::Resolved(true),
    ];
    let (monitor, raised) = replay(&inputs);
    assert_eq!(
        raised,
        vec![Notice { id: B, active: true }, Notice { id: B, active: false }]
    );
    assert!(!monitor.is_registered(A));
    assert!(monitor.is_registered(B));
    assert_eq!(monitor.stream_count(), 1);
    assert_eq!(monitor.phase(), Phase::Idle);
}

#[test]
fn failed_lookup_leaves_later_inputs_unaffected() {
    let rest = vec![
        device_added(B),
        Input::Resolved(true),
        Input::Subscribed(true),
        Input::Snapshot(true),
    ];
    let mut with_failure = vec![connection_changed(A, true), Input::Resolved(false)];
    with_failure.extend(rest.iter().copied());
    let (plain, plain_raised) = replay(&rest);
    let (failed, failed_raised) = replay(&with_failure);
    assert_eq!(plain_raised, failed_raised);
    assert_eq!(plain_raised, vec![Notice { id: B, active: true }]);
    assert_eq!(plain.stream_count(), failed.stream_count());
    assert_eq!(plain.phase(), failed.phase());
}

#[test]
fn replaying_the_same_inputs_gives_the_same_alerts() {
    let inputs = vec![
        device_added(A),
        Input::Resolved(true),
        Input::Subscribed(true),
        Input::Snapshot(true),
        connection_changed(A, false),
        Input::Resolved(true),
        Input::Snapshot(true),
        connection_changed(A, true),
        Input::Resolved(true),
        Input::Exhausted,
        device_added(B),
    ];
    let (first, first_raised) = replay(&inputs);
    let (second, second_raised) = replay(&inputs.clone());
    assert_eq!(first_raised, second_raised);
    assert_eq!(
        first_raised,
        vec![
            Notice { id: A, active: true },
            Notice { id: A, active: false },
            Notice { id: A, active: true },
        ]
    );
    assert_eq!(first.phase(), Phase::Done);
    assert_eq!(second.phase(), Phase::Done);
    assert_eq!(first.stream_count(), second.stream_count());
}

#[test]
fn refused_inputs_raise_nothing() {
    let inputs = vec![
        Input::Snapshot(true),
        Input::Resolved(true),
        device_added(A),
        connection_changed(A, true),
        Input::Snapshot(true),
    ];
    let (monitor, raised) = replay(&inputs);
    assert_eq!(raised, vec![]);
    assert_eq!(monitor.stream_count(), 0);
}
