use device_monitor::alert::{render, Alert, ALERT_SECONDS};

#[test]
fn alert_for_connected_device() {
    let alert = render("Headset", 0x0011_22AA_BBCC, true);
    assert_eq!(
        alert,
        Alert {
            summary: String::from("Device connected"),
            body: String::from("Headset (00:11:22:AA:BB:CC)"),
            icon: String::from("bluetooth"),
            timeout_seconds: 5,
        }
    );
}

#[test]
fn alert_for_disconnected_device() {
    let alert = render("Keyboard K380", 0xF4_73_35_01_02_03, false);
    assert_eq!(alert.summary, "Device disconnected");
    assert_eq!(alert.body, "Keyboard K380 (F4:73:35:01:02:03)");
    assert_eq!(alert.icon, "bluetooth");
    assert_eq!(alert.timeout_seconds, ALERT_SECONDS);
}

#[test]
fn alert_for_device_without_name() {
    let alert = render("", 1, true);
    assert_eq!(alert.body, " (00:00:00:00:00:01)");
}
