//! The content of the alert shown when a device connects or disconnects.

use vstd::prelude::*;
use vstd::string::StringExecFns;
use crate::address::{address_form, address_text};
use crate::event::EntityId;

verus! {

/// How long an alert stays on screen, in seconds.
pub const ALERT_SECONDS: u32 = 5;

/// What is handed to the desktop's notification service.
#[derive(Debug, PartialEq, Eq)]
pub struct Alert {
    pub summary: String,
    pub body: String,
    pub icon: String,
    pub timeout_seconds: u32,
}

/// The headline of an alert.
pub open spec fn summary_form(active: bool) -> Seq<char> {
    if active {
        "Device connected"@
    } else {
        "Device disconnected"@
    }
}

/// The text of an alert: the device's name, then its address in brackets.
pub open spec fn body_form(name: Seq<char>, id: EntityId) -> Seq<char> {
    name + " ("@ + address_form(id) + ")"@
}

/// The alert for a device with the given display name whose connection
/// state has become `active`.
pub fn render(name: &str, id: EntityId, active: bool) -> (alert: Alert)
    ensures
        alert.summary@ == summary_form(active),
        alert.body@ == body_form(name@, id),
        alert.icon@ == "bluetooth"@,
        alert.timeout_seconds == ALERT_SECONDS,
{
    let summary = if active {
        String::from_str("Device connected")
    } else {
        String::from_str("Device disconnected")
    };
    let address = address_text(id);
    let mut body = String::from_str(name);
    body.append(" (");
    body.append(address.as_str());
    body.append(")");
    Alert { summary, body, icon: String::from_str("bluetooth"), timeout_seconds: ALERT_SECONDS }
}

} // verus!
