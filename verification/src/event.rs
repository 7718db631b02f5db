//! Values exchanged between the control loop and the monitor.

use vstd::prelude::*;

verus! {

/// Names a discovered device for the lifetime of the process.
pub type EntityId = u64;

/// What the discovery source reports.
#[derive(Clone, Copy, Debug, PartialEq, Eq)]
pub enum DiscoveryEvent {
    /// A device appeared.
    Added(EntityId),
    /// A device disappeared.
    Removed(EntityId),
    /// Any other report; accepted and ignored.
    Other,
}

/// What a per-device stream reports.
#[derive(Clone, Copy, Debug, PartialEq, Eq)]
pub enum AttributeChange {
    /// The device's connection state changed to the given value.
    Connected(bool),
    /// Any other attribute; accepted and ignored.
    Other,
}

/// One unit of the merged sequence that the loop consumes.
#[derive(Clone, Copy, Debug, PartialEq, Eq)]
pub enum MergedEvent {
    /// From the discovery source.
    Discovery(DiscoveryEvent),
    /// From the stream registered for the given device.
    Change(EntityId, AttributeChange),
}

/// What the loop hands to the monitor: the next merged event, or the outcome
/// of the work the monitor last asked for.
#[derive(Clone, Copy, Debug, PartialEq, Eq)]
pub enum Input {
    /// The next event of the merged sequence.
    Event(MergedEvent),
    /// The discovery source and every registered stream have ended.
    Exhausted,
    /// Outcome of `Request::Resolve`: whether a handle was obtained.
    Resolved(bool),
    /// Outcome of `Request::Subscribe`: whether the device's stream was
    /// opened and added to the merged sequence.
    Subscribed(bool),
    /// Outcome of `Request::ReadConnected`: the connection state read.
    Snapshot(bool),
    /// Outcome of `Request::ReadConnected` when the read failed.
    SnapshotFailed,
}

/// A single alert to raise: the device and its new connection state.
#[derive(Clone, Copy, Debug, PartialEq, Eq)]
pub struct Notice {
    pub id: EntityId,
    pub active: bool,
}

/// What the monitor asks the loop to do next.
#[derive(Clone, Copy, Debug, PartialEq, Eq)]
pub enum Request {
    /// Wait for the next merged event and hand it over.
    Poll,
    /// Look up a handle for the device and report `Input::Resolved`.
    Resolve(EntityId),
    /// Open the device's attribute stream, add it to the merged sequence
    /// tagged with the device, and report `Input::Subscribed`.
    Subscribe(EntityId),
    /// Read the device's connection state once and report
    /// `Input::Snapshot` or `Input::SnapshotFailed`.
    ReadConnected(EntityId),
    /// Raise the alert, whatever becomes of it, then wait for the next
    /// merged event as for `Poll`.
    Notify(Notice),
    /// Nothing is left to wait for: leave the loop.
    Stop,
}

/// Why the monitor refused an input. A refused input changes nothing.
#[derive(Clone, Copy, Debug, PartialEq, Eq)]
pub enum StepError {
    /// The input does not answer what the monitor last asked for.
    OutOfTurn,
    /// The monitor has stopped.
    Finished,
}

} // verus!
