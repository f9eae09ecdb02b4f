use t3unlock::errors::UsbError;
use t3unlock::usb::{doctor, map_libusb, status, DeviceSelector, LibusbError, Model, SAMSUNG_VID};

#[test]
fn selector_targets_locked_pid() {
    let sel = DeviceSelector::new(Model::T3);
    assert_eq!(sel.vid, 0x04e8);
    assert_eq!(sel.vid, SAMSUNG_VID);
    assert_eq!(sel.pid, 0x61f4);
    assert_eq!(sel.model, Model::T3);
}

#[test]
fn selector_matches_locked_and_unlocked_drive() {
    let sel = DeviceSelector::new(Model::T5);
    assert!(sel.matches(0x04e8, 0x61f6));
    assert!(sel.matches(0x04e8, 0x61f5));
    assert!(!sel.matches(0x04e8, 0x61f4));
    assert!(!sel.matches(0x04e9, 0x61f6));
    assert!(!sel.matches(0x1234, 0x61f5));
}

#[test]
fn status_of_locked_drive() {
    let st = status(&DeviceSelector::new(Model::T1), Some(0x61f2));
    assert_eq!(st.model, "T1");
    assert_eq!(st.vid, 0x04e8);
    assert_eq!(st.pid, 0x61f2);
    assert!(st.present);
    assert_eq!(st.locked, Some(true));
    assert_eq!(st.interface, 0);
    assert_eq!(st.ep_out, 0x02);
    assert_eq!(st.ep_in, 0x81);
}

#[test]
fn status_of_missing_drive() {
    let st = status(&DeviceSelector::new(Model::T5), None);
    assert_eq!(st.model, "T5");
    assert!(!st.present);
    assert_eq!(st.locked, None);
}

#[test]
fn status_report_text() {
    let st = status(&DeviceSelector::new(Model::T3), Some(0x61f4));
    assert_eq!(
        st.report(),
        "Model:   T3\nVID:     0x04e8\nPID:     0x61f4\nPresent: true\nLocked:  true\nEP OUT:  0x02\nEP IN:   0x81"
    );
    let missing = status(&DeviceSelector::new(Model::T1), None);
    assert_eq!(
        missing.report(),
        "Model:   T1\nVID:     0x04e8\nPID:     0x61f2\nPresent: false\nLocked:  false\nEP OUT:  0x02\nEP IN:   0x81"
    );
}

#[test]
fn doctor_report_text() {
    let expected = [
        "=== t3unlock doctor ===",
        "VID: 0x04e8 (Samsung Electronics)",
        "T1 locked PID: 0x61f2, normal PID: 0x61f1",
        "T3 locked PID: 0x61f4, normal PID: 0x61f3",
        "T5 locked PID: 0x61f6, normal PID: 0x61f5",
        "",
        "Linux:",
        "  - Add udev rule: SUBSYSTEM==\"usb\", ATTR{{idVendor}}==\"04e8\", MODE=\"0666\"",
        "  - Or run as root",
        "",
        "macOS:",
        "  - No extra setup needed (root not required for bulk transfers)",
        "  - If denied, check System Preferences \u{2192} Privacy & Security \u{2192} USB",
        "",
        "Verify device:",
        "  Linux: lsusb -d 04e8:",
        "  macOS: system_profiler SPUSBDataType | grep -i samsung",
    ]
    .join("\n");
    assert_eq!(doctor(), expected);
}

#[test]
fn libusb_failures_keep_their_kind() {
    assert_eq!(map_libusb(LibusbError::NotFound), UsbError::NotFound);
    assert_eq!(map_libusb(LibusbError::Access), UsbError::AccessDenied);
    assert_eq!(map_libusb(LibusbError::Busy), UsbError::Busy);
    assert_eq!(map_libusb(LibusbError::Timeout), UsbError::Timeout);
    assert_eq!(map_libusb(LibusbError::Io), UsbError::Io);
}

#[test]
fn other_libusb_failures_carry_their_description() {
    let cases = [
        (LibusbError::InvalidParam, "Invalid parameter"),
        (LibusbError::NoDevice, "No such device (it may have been disconnected)"),
        (LibusbError::Overflow, "Overflow"),
        (LibusbError::Pipe, "Pipe error"),
        (LibusbError::Interrupted, "System call interrupted (perhaps due to signal)"),
        (LibusbError::NoMem, "Insufficient memory"),
        (LibusbError::NotSupported, "Operation not supported or unimplemented on this platform"),
        (LibusbError::BadDescriptor, "Malformed descriptor"),
        (LibusbError::Other, "Other error"),
    ];
    for (e, text) in cases {
        assert_eq!(map_libusb(e), UsbError::Other(text.to_string()));
    }
}

#[test]
fn status_of_unlocked_drive() {
    let st = status(&DeviceSelector::new(Model::T3), Some(0x61f3));
    assert!(st.present);
    assert_eq!(st.locked, Some(false));
    assert_eq!(st.pid, 0x61f4);
    assert!(st.report().contains("Locked:  false"));
    assert!(st.report().contains("Present: true"));
}

#[test]
fn first_match_picks_the_first_matching_device() {
    let sel = DeviceSelector::new(Model::T3);
    let ds = vec![Ok((0x1d6b, 0x0002)), Ok((0x04e8, 0x61f6)), Ok((0x04e8, 0x61f3)), Ok((0x04e8, 0x61f4))];
    assert_eq!(sel.first_match(&ds), Ok(Some(2)));
}

#[test]
fn first_match_without_a_match() {
    let sel = DeviceSelector::new(Model::T1);
    assert_eq!(sel.first_match(&vec![]), Ok(None));
    assert_eq!(sel.first_match(&vec![Ok((0x04e8, 0x61f4)), Ok((0x046d, 0x61f2))]), Ok(None));
}

#[test]
fn unreadable_descriptor_before_a_match_is_the_error() {
    let sel = DeviceSelector::new(Model::T5);
    let ds = vec![Ok((0x1234, 0x0001)), Err(UsbError::AccessDenied), Ok((0x04e8, 0x61f6))];
    assert_eq!(sel.first_match(&ds), Err(UsbError::AccessDenied));
    let later = vec![Ok((0x04e8, 0x61f5)), Err(UsbError::Io)];
    assert_eq!(sel.first_match(&later), Ok(Some(0)));
}

#[test]
fn usb_error_messages() {
    assert_eq!(UsbError::NotFound.message(), "USB device not found");
    assert_eq!(UsbError::AccessDenied.message(), "Access denied (permissions)");
    assert_eq!(UsbError::Busy.message(), "Device busy");
    assert_eq!(UsbError::Timeout.message(), "Timeout");
    assert_eq!(UsbError::Io.message(), "I/O error");
    assert_eq!(UsbError::BadPassword.message(), "Bad password");
    assert_eq!(UsbError::Other("Pipe error".to_string()).message(), "Pipe error");
    assert_eq!(map_libusb(LibusbError::Busy).message(), "Device busy");
    assert_eq!(map_libusb(LibusbError::Overflow).message(), "Overflow");
}
