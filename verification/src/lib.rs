//! Decision core of a device connection monitor.
//!
//! A single control loop waits on a discovery source and on one attribute
//! stream per discovered device, and raises a desktop alert when a device
//! connects or disconnects. Waiting, handle lookup and rendering are done by
//! the surrounding program; this crate decides what is to be done next.
//!
//! * [`event`]: the values exchanged between the loop and the monitor.
//! * [`monitor`]: the monitor itself, a transition function with its state.
//! * [`trace`]: whole runs of the monitor and the properties that hold of them.
//! * [`address`]: hardware addresses and their printed form.
//! * [`alert`]: the content of the alert shown for a device.

pub mod address;
pub mod alert;
pub mod event;
pub mod monitor;
pub mod trace;
