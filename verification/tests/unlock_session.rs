use t3unlock::errors::UsbError;
use t3unlock::usb::proto::{build_password_frame, build_relink_frame, build_unlock_frame};
use t3unlock::usb::{unlock, Action, DeviceSelector, Event, LibusbError, Model, UnlockError};

fn accepted_reply() -> Vec<u8> {
    vec![0u8; 512]
}

fn rejected_reply() -> Vec<u8> {
    let mut r = vec![0u8; 512];
    r[9] = 0x02;
    r
}

fn expect_write(a: Action, expected: &[u8], timeout: u64) {
    match a {
        Action::WriteBulk { endpoint, data, timeout_ms } => {
            assert_eq!(endpoint, 0x02);
            assert_eq!(data, expected);
            assert_eq!(timeout_ms, timeout);
        }
        other => panic!("expected a write, got {other:?}"),
    }
}

fn expect_read(a: Action, timeout: u64) {
    match a {
        Action::ReadBulk { endpoint, len, timeout_ms } => {
            assert_eq!(endpoint, 0x81);
            assert_eq!(len, 512);
            assert_eq!(timeout_ms, timeout);
        }
        other => panic!("expected a read, got {other:?}"),
    }
}

fn expect_done(a: Action) -> Result<(), UnlockError> {
    match a {
        Action::Done { outcome } => outcome,
        other => panic!("expected the end, got {other:?}"),
    }
}

#[test]
fn successful_unlock_follows_the_protocol() {
    let sel = DeviceSelector::new(Model::T3);
    let mut s = unlock(&sel, b"hunter2", None);
    match s.action() {
        Action::FindDevice { selector } => assert_eq!(selector.pid, 0x61f4),
        other => panic!("{other:?}"),
    }
    assert!(matches!(s.step(Event::DeviceOpened(Ok(()))), Action::CheckKernelDriver { interface: 0 }));
    assert!(matches!(s.step(Event::DriverChecked(Ok(false))), Action::ClaimInterface { interface: 0 }));
    let a = s.step(Event::InterfaceClaimed(Ok(())));
    expect_write(a, &build_unlock_frame(Model::T3), 3000);
    let a = s.step(Event::Written(Ok(31)));
    expect_write(a, &build_password_frame(b"hunter2"), 3000);
    let a = s.step(Event::Written(Ok(512)));
    expect_read(a, 3000);
    let a = s.step(Event::Received(Ok(accepted_reply())));
    expect_write(a, &build_relink_frame(), 3000);
    let a = s.step(Event::Written(Ok(31)));
    expect_read(a, 3000);
    let a = s.step(Event::Received(Ok(accepted_reply())));
    assert!(matches!(a, Action::ReleaseInterface { interface: 0 }));
    let a = s.step(Event::InterfaceReleased(Ok(())));
    assert_eq!(expect_done(a), Ok(()));
}

#[test]
fn bound_kernel_driver_is_detached_first() {
    let mut s = unlock(&DeviceSelector::new(Model::T1), b"pw", Some(750));
    s.step(Event::DeviceOpened(Ok(())));
    assert!(matches!(s.step(Event::DriverChecked(Ok(true))), Action::DetachKernelDriver { interface: 0 }));
    assert!(matches!(s.step(Event::DriverDetached(Ok(()))), Action::ClaimInterface { interface: 0 }));
    let a = s.step(Event::InterfaceClaimed(Ok(())));
    expect_write(a, &build_unlock_frame(Model::T1), 750);
}

#[test]
fn failed_driver_query_goes_on_to_claim() {
    let mut s = unlock(&DeviceSelector::new(Model::T1), b"pw", None);
    s.step(Event::DeviceOpened(Ok(())));
    assert!(matches!(
        s.step(Event::DriverChecked(Err(LibusbError::NotSupported))),
        Action::ClaimInterface { interface: 0 }
    ));
}

#[test]
fn rejected_password_releases_and_never_relinks() {
    let mut s = unlock(&DeviceSelector::new(Model::T5), b"wrong", None);
    s.step(Event::DeviceOpened(Ok(())));
    s.step(Event::DriverChecked(Ok(false)));
    s.step(Event::InterfaceClaimed(Ok(())));
    s.step(Event::Written(Ok(31)));
    s.step(Event::Written(Ok(512)));
    let a = s.step(Event::Received(Ok(rejected_reply())));
    assert!(matches!(a, Action::ReleaseInterface { interface: 0 }));
    let a = s.step(Event::InterfaceReleased(Err(LibusbError::NoDevice)));
    assert_eq!(expect_done(a), Err(UnlockError::PasswordRejected));
}

#[test]
fn rejected_relink_is_reported() {
    let mut s = unlock(&DeviceSelector::new(Model::T3), b"pw", None);
    s.step(Event::DeviceOpened(Ok(())));
    s.step(Event::DriverChecked(Ok(false)));
    s.step(Event::InterfaceClaimed(Ok(())));
    s.step(Event::Written(Ok(31)));
    s.step(Event::Written(Ok(512)));
    s.step(Event::Received(Ok(accepted_reply())));
    s.step(Event::Written(Ok(31)));
    let a = s.step(Event::Received(Ok(rejected_reply())));
    assert!(matches!(a, Action::ReleaseInterface { interface: 0 }));
    assert_eq!(expect_done(s.step(Event::InterfaceReleased(Ok(())))), Err(UnlockError::RelinkRejected));
}

#[test]
fn short_reply_is_judged_with_the_rest_of_the_buffer() {
    // A reply of four bytes leaves byte 9 as it was: zero at first, so the
    // password counts as accepted.
    let mut s = unlock(&DeviceSelector::new(Model::T3), b"pw", None);
    s.step(Event::DeviceOpened(Ok(())));
    s.step(Event::DriverChecked(Ok(false)));
    s.step(Event::InterfaceClaimed(Ok(())));
    s.step(Event::Written(Ok(31)));
    s.step(Event::Written(Ok(512)));
    let a = s.step(Event::Received(Ok(vec![1, 2, 3, 4])));
    expect_write(a, &build_relink_frame(), 3000);
    // A ten-byte relink reply with byte 9 at 0x02 is a rejection.
    s.step(Event::Written(Ok(31)));
    let a = s.step(Event::Received(Ok(vec![0, 0, 0, 0, 0, 0, 0, 0, 0, 0x02])));
    assert!(matches!(a, Action::ReleaseInterface { .. }));
    assert_eq!(expect_done(s.step(Event::InterfaceReleased(Ok(())))), Err(UnlockError::RelinkRejected));
}

#[test]
fn missing_device_ends_without_claiming() {
    let mut s = unlock(&DeviceSelector::new(Model::T3), b"pw", None);
    let a = s.step(Event::DeviceOpened(Err(UsbError::NotFound)));
    assert_eq!(expect_done(a), Err(UnlockError::DeviceNotFound(UsbError::NotFound)));
}

#[test]
fn failed_detach_ends_the_session() {
    let mut s = unlock(&DeviceSelector::new(Model::T3), b"pw", None);
    s.step(Event::DeviceOpened(Ok(())));
    s.step(Event::DriverChecked(Ok(true)));
    let a = s.step(Event::DriverDetached(Err(LibusbError::Access)));
    assert_eq!(expect_done(a), Err(UnlockError::DetachFailed(LibusbError::Access)));
}

#[test]
fn failed_claim_ends_without_release() {
    let mut s = unlock(&DeviceSelector::new(Model::T3), b"pw", None);
    s.step(Event::DeviceOpened(Ok(())));
    s.step(Event::DriverChecked(Ok(false)));
    let a = s.step(Event::InterfaceClaimed(Err(LibusbError::Busy)));
    assert_eq!(expect_done(a), Err(UnlockError::Claim(LibusbError::Busy)));
}

#[test]
fn failed_write_releases_the_interface() {
    let mut s = unlock(&DeviceSelector::new(Model::T3), b"pw", None);
    s.step(Event::DeviceOpened(Ok(())));
    s.step(Event::DriverChecked(Ok(false)));
    s.step(Event::InterfaceClaimed(Ok(())));
    let a = s.step(Event::Written(Err(LibusbError::Timeout)));
    assert!(matches!(a, Action::ReleaseInterface { interface: 0 }));
    assert_eq!(
        expect_done(s.step(Event::InterfaceReleased(Ok(())))),
        Err(UnlockError::BulkWrite(LibusbError::Timeout))
    );
}

#[test]
fn failed_read_releases_the_interface() {
    let mut s = unlock(&DeviceSelector::new(Model::T3), b"pw", None);
    s.step(Event::DeviceOpened(Ok(())));
    s.step(Event::DriverChecked(Ok(false)));
    s.step(Event::InterfaceClaimed(Ok(())));
    s.step(Event::Written(Ok(31)));
    s.step(Event::Written(Ok(512)));
    let a = s.step(Event::Received(Err(LibusbError::Pipe)));
    assert!(matches!(a, Action::ReleaseInterface { interface: 0 }));
    assert_eq!(
        expect_done(s.step(Event::InterfaceReleased(Ok(())))),
        Err(UnlockError::BulkRead(LibusbError::Pipe))
    );
}

#[test]
fn unexpected_event_repeats_the_pending_action() {
    let mut s = unlock(&DeviceSelector::new(Model::T3), b"pw", None);
    assert!(matches!(s.step(Event::Written(Ok(31))), Action::FindDevice { .. }));
    s.step(Event::DeviceOpened(Ok(())));
    assert!(matches!(s.step(Event::InterfaceReleased(Ok(()))), Action::CheckKernelDriver { .. }));
}

#[test]
fn finished_session_stays_finished() {
    let mut s = unlock(&DeviceSelector::new(Model::T3), b"pw", None);
    s.step(Event::DeviceOpened(Err(UsbError::Busy)));
    let a = s.step(Event::DeviceOpened(Ok(())));
    assert_eq!(expect_done(a), Err(UnlockError::DeviceNotFound(UsbError::Busy)));
    assert_eq!(expect_done(s.action()), Err(UnlockError::DeviceNotFound(UsbError::Busy)));
}

#[test]
fn unlock_error_messages() {
    assert_eq!(UnlockError::DeviceNotFound(UsbError::NotFound).message(), "device not found");
    assert_eq!(
        UnlockError::DetachFailed(LibusbError::Access).message(),
        "failed to detach kernel driver"
    );
    assert_eq!(UnlockError::Claim(LibusbError::Busy).message(), "Device busy");
    assert_eq!(UnlockError::Claim(LibusbError::Pipe).message(), "Pipe error");
    assert_eq!(
        UnlockError::BulkWrite(LibusbError::Timeout).message(),
        "bulk write error: Operation timed out"
    );
    assert_eq!(
        UnlockError::BulkRead(LibusbError::Io).message(),
        "bulk read error: Input/Output Error"
    );
    assert_eq!(UnlockError::PasswordRejected.message(), "password rejected by device");
    assert_eq!(UnlockError::RelinkRejected.message(), "relink rejected by device");
}
