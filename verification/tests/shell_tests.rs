use harnex::clock::{millis_stamp, now_ms};
use harnex::shell::{hides_on_close, tray_action, TrayAction};

#[test]
fn main_and_control_hide() {
    assert!(hides_on_close("main"));
    assert!(hides_on_close("control"));
    assert!(!hides_on_close("main-2"));
    assert!(!hides_on_close(""));
}

#[test]
fn tray_entries() {
    assert_eq!(tray_action("toggle-control"), TrayAction::ToggleControl);
    assert_eq!(tray_action("start-dsh"), TrayAction::StartService);
    assert_eq!(tray_action("stop-dsh"), TrayAction::StopService);
    assert_eq!(tray_action("quit"), TrayAction::Quit);
    assert_eq!(tray_action("other"), TrayAction::Ignore);
}

#[test]
fn time_stamps() {
    assert_eq!(millis_stamp(None), 0);
    assert_eq!(millis_stamp(Some(1_725_029_869_000)), 1_725_029_869_000);
    assert_eq!(millis_stamp(Some(u64::MAX as u128 + 5)), 4);
    assert!(now_ms() > 1_600_000_000_000);
}
