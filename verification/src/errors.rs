//! Errors of the USB layer.

use vstd::prelude::*;

verus! {

/// What went wrong while talking to the drive.
#[derive(Debug, Clone, PartialEq, Eq)]
pub enum UsbError {
    /// No matching USB device is attached.
    NotFound,
    /// The device cannot be opened for lack of permissions.
    AccessDenied,
    /// The device is in use.
    Busy,
    /// A transfer timed out.
    Timeout,
    /// An input/output error.
    Io,
    /// The device refused the password.
    BadPassword,
    /// Any other failure, with its description.
    Other(String),
}

/// The message that describes an error.
pub open spec fn usb_error_text(e: UsbError) -> Seq<char> {
    match e {
        UsbError::NotFound => "USB device not found"@,
        UsbError::AccessDenied => "Access denied (permissions)"@,
        UsbError::Busy => "Device busy"@,
        UsbError::Timeout => "Timeout"@,
        UsbError::Io => "I/O error"@,
        UsbError::BadPassword => "Bad password"@,
        UsbError::Other(text) => text@,
    }
}

/// A copy of an error.
pub(crate) fn copy_usb_error(e: &UsbError) -> (r: UsbError)
    ensures
        r == *e,
{
    match e {
        UsbError::NotFound => UsbError::NotFound,
        UsbError::AccessDenied => UsbError::AccessDenied,
        UsbError::Busy => UsbError::Busy,
        UsbError::Timeout => UsbError::Timeout,
        UsbError::Io => UsbError::Io,
        UsbError::BadPassword => UsbError::BadPassword,
        UsbError::Other(text) => UsbError::Other(text.clone()),
    }
}

impl UsbError {
    /// The message that describes the error; an `Other` error is described
    /// by its own text.
    pub fn message(&self) -> (text: String)
        ensures
            text@ == usb_error_text(*self),
    {
        match self {
            UsbError::NotFound => String::from_str("USB device not found"),
            UsbError::AccessDenied => String::from_str("Access denied (permissions)"),
            UsbError::Busy => String::from_str("Device busy"),
            UsbError::Timeout => String::from_str("Timeout"),
            UsbError::Io => String::from_str("I/O error"),
            UsbError::BadPassword => String::from_str("Bad password"),
            UsbError::Other(text) => text.clone(),
        }
    }
}

} // verus!
