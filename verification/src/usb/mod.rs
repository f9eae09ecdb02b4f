//! USB device discovery and unlock orchestration for the T1, T3 and T5
//! locked variants.

pub mod model;
pub mod proto;
pub mod session;

pub use model::Model;
pub use session::{unlock, Action, Event, Phase, Request, SessionView, UnlockError, UnlockSession};

use vstd::prelude::*;
use crate::errors::{copy_usb_error, usb_error_text, UsbError};
use crate::text::{bool_string, bool_text, hex_digits, join, join_lines, lower_hex};
use self::proto::{EP_IN, EP_OUT, INTERFACE};

verus! {

/// Samsung Electronics' USB vendor id.
pub const SAMSUNG_VID: u16 = 0x04e8;

/// Which USB device to look for.
#[derive(Clone, Copy, Debug)]
pub struct DeviceSelector {
    pub vid: u16,
    pub pid: u16,
    pub model: Model,
}

impl DeviceSelector {
    /// The selector of a model's drive in its locked state.
    pub fn new(model: Model) -> (sel: Self)
        ensures
            sel.vid == SAMSUNG_VID,
            sel.pid == model.locked_pid(),
            sel.model == model,
    {
        Self { vid: SAMSUNG_VID, pid: model.locked_pid(), model }
    }

    /// Whether a device with these ids is the selected drive: the vendor id
    /// must match and the product id be either the selector's own or that of
    /// the model's unlocked state.
    pub open spec fn spec_matches(&self, vendor_id: u16, product_id: u16) -> bool {
        vendor_id == self.vid && (product_id == self.pid || product_id
            == self.model.normal_pid())
    }

    #[verifier::when_used_as_spec(spec_matches)]
    pub fn matches(&self, vendor_id: u16, product_id: u16) -> (m: bool)
        ensures
            m == self.spec_matches(vendor_id, product_id),
            m == (vendor_id == self.vid && (product_id == self.pid || product_id
                == self.model.spec_normal_pid())),
    {
        vendor_id == self.vid && (product_id == self.pid || product_id == self.model.normal_pid())
    }
}

/// A model's selector finds the drive both before and after unlocking, and
/// nothing from another vendor.
pub proof fn lemma_selector_finds_both_states(model: Model, vendor_id: u16, product_id: u16)
    ensures
        ({
            let sel = DeviceSelector { vid: SAMSUNG_VID, pid: model.locked_pid(), model };
            &&& sel.matches(SAMSUNG_VID, model.locked_pid())
            &&& sel.matches(SAMSUNG_VID, model.normal_pid())
            &&& vendor_id != SAMSUNG_VID ==> !sel.matches(vendor_id, product_id)
        }),
{
}

/// Whether a read descriptor is a device that the selector passes over.
pub open spec fn passed_over(sel: DeviceSelector, d: Result<(u16, u16), UsbError>) -> bool {
    d matches Ok((vendor_id, product_id)) && !sel.spec_matches(vendor_id, product_id)
}

/// Whether `r` is the pick of [`DeviceSelector::first_match`] among these
/// descriptors.
pub open spec fn picked(
    sel: DeviceSelector,
    ds: Seq<Result<(u16, u16), UsbError>>,
    r: Result<Option<usize>, UsbError>,
) -> bool {
    match r {
        Ok(Some(i)) => {
            &&& i < ds.len()
            &&& ds[i as int] matches Ok((vendor_id, product_id)) && sel.spec_matches(
                vendor_id,
                product_id,
            )
            &&& forall|j: int| 0 <= j < i ==> passed_over(sel, #[trigger] ds[j])
        },
        Ok(None) => forall|j: int| 0 <= j < ds.len() ==> passed_over(sel, #[trigger] ds[j]),
        Err(e) => exists|i: int|
            {
                &&& 0 <= i < ds.len()
                &&& #[trigger] ds[i] == Err::<(u16, u16), UsbError>(e)
                &&& forall|j: int| 0 <= j < i ==> passed_over(sel, #[trigger] ds[j])
            },
    }
}

impl DeviceSelector {
    /// Picks the device to open from the (vendor id, product id) descriptors
    /// of the attached devices, in the order in which they were listed: the
    /// first that matches, unless a descriptor that could not be read comes
    /// before it, whose error is then the result. `Ok(None)` when every
    /// descriptor was read and none matches.
    pub fn first_match(&self, descriptors: &Vec<Result<(u16, u16), UsbError>>) -> (r: Result<
        Option<usize>,
        UsbError,
    >)
        ensures
            picked(*self, descriptors@, r),
    {
        let ghost ds = descriptors@;
        let mut i: usize = 0;
        while i < descriptors.len()
            invariant
                descriptors@ == ds,
                i <= ds.len(),
                forall|j: int| 0 <= j < i ==> passed_over(*self, #[trigger] ds[j]),
            decreases ds.len() - i,
        {
            match &descriptors[i] {
                Ok((vendor_id, product_id)) => {
                    if self.matches(*vendor_id, *product_id) {
                        return Ok(Some(i));
                    }
                },
                Err(err) => {
                    let e = copy_usb_error(err);
                    assert(ds[i as int] == Err::<(u16, u16), UsbError>(e));
                    return Err(e);
                },
            }
            i = i + 1;
        }
        Ok(None)
    }
}

/// A model's selector takes a device for its drive exactly when the vendor is
/// Samsung and the product id is that model's own locked or unlocked id: the
/// drive of any other model, locked or unlocked, is never taken for it.
pub proof fn lemma_selector_takes_only_its_model(m: Model, other: Model, vendor_id: u16, product_id: u16)
    ensures
        ({
            let sel = DeviceSelector { vid: SAMSUNG_VID, pid: m.locked_pid(), model: m };
            &&& sel.matches(vendor_id, product_id) <==> (vendor_id == 0x04e8u16 && (product_id
                == m.spec_locked_pid() || product_id == m.spec_normal_pid()))
            &&& sel.matches(SAMSUNG_VID, other.spec_normal_pid()) ==> other == m
            &&& sel.matches(SAMSUNG_VID, other.spec_locked_pid()) ==> other == m
        }),
{
    model::lemma_pids_distinct(m, other);
    model::lemma_pids_distinct(other, m);
}

/// What `status` reports of a drive.
#[derive(Debug, Clone)]
pub struct Status {
    pub model: String,
    pub vid: u16,
    pub pid: u16,
    pub present: bool,
    pub locked: Option<bool>,
    pub interface: u8,
    pub ep_out: u8,
    pub ep_in: u8,
}

/// The status of the selected drive, given the product id under which the
/// device search found and opened it, or `None` when it found none. A drive
/// found under its model's unlocked product id is unlocked; found under any
/// other (its locked id), it is locked. Of a missing drive the lock state is
/// unknown.
pub fn status(sel: &DeviceSelector, matched: Option<u16>) -> (st: Status)
    ensures
        st.model@ == sel.model.spec_label(),
        st.vid == sel.vid,
        st.pid == sel.pid,
        st.present == matched.is_some(),
        st.locked == (match matched {
            Some(pid) => Some(pid != sel.model.normal_pid()),
            None => None::<bool>,
        }),
        st.interface == INTERFACE,
        st.ep_out == EP_OUT,
        st.ep_in == EP_IN,
{
    let locked = match matched {
        Some(pid) => Some(pid != sel.model.normal_pid()),
        None => None,
    };
    Status {
        model: String::from_str(sel.model.label()),
        vid: sel.vid,
        pid: sel.pid,
        present: matched.is_some(),
        locked,
        interface: INTERFACE,
        ep_out: EP_OUT,
        ep_in: EP_IN,
    }
}

/// The lines of the plain-text status report.
pub open spec fn status_lines(st: Status) -> Seq<Seq<char>> {
    seq![
        "Model:   "@ + st.model@,
        "VID:     0x"@ + hex_digits(st.vid as nat, 4),
        "PID:     0x"@ + hex_digits(st.pid as nat, 4),
        "Present: "@ + bool_text(st.present),
        "Locked:  "@ + bool_text(st.locked.unwrap_or(false)),
        "EP OUT:  0x"@ + hex_digits(st.ep_out as nat, 2),
        "EP IN:   0x"@ + hex_digits(st.ep_in as nat, 2),
    ]
}

impl Status {
    /// The plain-text status report, one field per line.
    pub fn report(&self) -> (text: String)
        ensures
            text@ == join(status_lines(*self), "\n"@),
    {
        let mut lines: Vec<String> = Vec::new();
        lines.push(String::from_str("Model:   ").concat(self.model.as_str()));
        lines.push(String::from_str("VID:     0x").concat(lower_hex(self.vid, 4).as_str()));
        lines.push(String::from_str("PID:     0x").concat(lower_hex(self.pid, 4).as_str()));
        lines.push(String::from_str("Present: ").concat(bool_string(self.present).as_str()));
        let locked = match self.locked {
            Some(l) => l,
            None => false,
        };
        lines.push(String::from_str("Locked:  ").concat(bool_string(locked).as_str()));
        lines.push(String::from_str("EP OUT:  0x").concat(lower_hex(self.ep_out as u16, 2).as_str()));
        lines.push(String::from_str("EP IN:   0x").concat(lower_hex(self.ep_in as u16, 2).as_str()));
        proof {
            let views = lines@.map_values(|l: String| l@);
            assert(views =~= status_lines(*self));
        }
        join_lines(&lines)
    }
}

/// The line of the diagnosis that gives a model's product ids.
pub open spec fn pid_line(m: Model) -> Seq<char> {
    m.spec_label() + " locked PID: 0x"@ + hex_digits(m.locked_pid() as nat, 4)
        + ", normal PID: 0x"@ + hex_digits(m.normal_pid() as nat, 4)
}

/// The lines of the diagnosis report.
pub open spec fn doctor_lines() -> Seq<Seq<char>> {
    seq![
        "=== t3unlock doctor ==="@,
        "VID: 0x"@ + hex_digits(SAMSUNG_VID as nat, 4) + " (Samsung Electronics)"@,
        pid_line(Model::T1),
        pid_line(Model::T3),
        pid_line(Model::T5),
        ""@,
        "Linux:"@,
        "  - Add udev rule: SUBSYSTEM==\"usb\", ATTR{{idVendor}}==\"04e8\", MODE=\"0666\""@,
        "  - Or run as root"@,
        ""@,
        "macOS:"@,
        "  - No extra setup needed (root not required for bulk transfers)"@,
        "  - If denied, check System Preferences \u{2192} Privacy & Security \u{2192} USB"@,
        ""@,
        "Verify device:"@,
        "  Linux: lsusb -d 04e8:"@,
        "  macOS: system_profiler SPUSBDataType | grep -i samsung"@,
    ]
}

fn pid_line_text(m: Model) -> (line: String)
    ensures
        line@ == pid_line(m),
{
    String::from_str(m.label()).concat(" locked PID: 0x").concat(
        lower_hex(m.locked_pid(), 4).as_str(),
    ).concat(", normal PID: 0x").concat(lower_hex(m.normal_pid(), 4).as_str())
}

/// Advice on permission and connection problems, with the ids to look for.
pub fn doctor() -> (report: String)
    ensures
        report@ == join(doctor_lines(), "\n"@),
{
    let mut lines: Vec<String> = Vec::new();
    lines.push(String::from_str("=== t3unlock doctor ==="));
    lines.push(
        String::from_str("VID: 0x").concat(lower_hex(SAMSUNG_VID, 4).as_str()).concat(
            " (Samsung Electronics)",
        ),
    );
    lines.push(pid_line_text(Model::T1));
    lines.push(pid_line_text(Model::T3));
    lines.push(pid_line_text(Model::T5));
    lines.push(String::from_str(""));
    lines.push(String::from_str("Linux:"));
    lines.push(
        String::from_str(
            "  - Add udev rule: SUBSYSTEM==\"usb\", ATTR{{idVendor}}==\"04e8\", MODE=\"0666\"",
        ),
    );
    lines.push(String::from_str("  - Or run as root"));
    lines.push(String::from_str(""));
    lines.push(String::from_str("macOS:"));
    lines.push(String::from_str("  - No extra setup needed (root not required for bulk transfers)"));
    lines.push(
        String::from_str("  - If denied, check System Preferences \u{2192} Privacy & Security \u{2192} USB"),
    );
    lines.push(String::from_str(""));
    lines.push(String::from_str("Verify device:"));
    lines.push(String::from_str("  Linux: lsusb -d 04e8:"));
    lines.push(String::from_str("  macOS: system_profiler SPUSBDataType | grep -i samsung"));
    proof {
        let views = lines@.map_values(|l: String| l@);
        assert(views =~= doctor_lines());
    }
    join_lines(&lines)
}

/// The failures that libusb reports, one for one with `rusb::Error`.
#[derive(Debug, Clone, Copy, PartialEq, Eq, Structural)]
pub enum LibusbError {
    Io,
    InvalidParam,
    Access,
    NoDevice,
    NotFound,
    Busy,
    Timeout,
    Overflow,
    Pipe,
    Interrupted,
    NoMem,
    NotSupported,
    BadDescriptor,
    Other,
}

/// How `rusb::Error` describes each failure.
pub open spec fn libusb_text(e: LibusbError) -> Seq<char> {
    match e {
        LibusbError::Io => "Input/Output Error"@,
        LibusbError::InvalidParam => "Invalid parameter"@,
        LibusbError::Access => "Access denied (insufficient permissions)"@,
        LibusbError::NoDevice => "No such device (it may have been disconnected)"@,
        LibusbError::NotFound => "Entity not found"@,
        LibusbError::Busy => "Resource busy"@,
        LibusbError::Timeout => "Operation timed out"@,
        LibusbError::Overflow => "Overflow"@,
        LibusbError::Pipe => "Pipe error"@,
        LibusbError::Interrupted => "System call interrupted (perhaps due to signal)"@,
        LibusbError::NoMem => "Insufficient memory"@,
        LibusbError::NotSupported => "Operation not supported or unimplemented on this platform"@,
        LibusbError::BadDescriptor => "Malformed descriptor"@,
        LibusbError::Other => "Other error"@,
    }
}

/// Describes a failure with `rusb::Error`'s `Display` (through `to_string`).
/// The contract claims the fixed text that rusb 0.9's `Display` writes for
/// each variant.
#[verifier::external_body]
pub(crate) fn libusb_message(e: LibusbError) -> (text: String)
    ensures
        text@ == libusb_text(e),
{
    let err = match e {
        LibusbError::Io => rusb::Error::Io, LibusbError::InvalidParam => rusb::Error::InvalidParam,
        LibusbError::Access => rusb::Error::Access, LibusbError::NoDevice => rusb::Error::NoDevice,
        LibusbError::NotFound => rusb::Error::NotFound, LibusbError::Busy => rusb::Error::Busy,
        LibusbError::Timeout => rusb::Error::Timeout, LibusbError::Overflow => rusb::Error::Overflow,
        LibusbError::Pipe => rusb::Error::Pipe, LibusbError::Interrupted => rusb::Error::Interrupted,
        LibusbError::NoMem => rusb::Error::NoMem, LibusbError::NotSupported => rusb::Error::NotSupported,
        LibusbError::BadDescriptor => rusb::Error::BadDescriptor, LibusbError::Other => rusb::Error::Other,
    };
    err.to_string()
}

/// The message of the error that [`map_libusb`] makes of a libusb failure.
pub open spec fn libusb_usb_text(e: LibusbError) -> Seq<char> {
    match e {
        LibusbError::NotFound => "USB device not found"@,
        LibusbError::Access => "Access denied (permissions)"@,
        LibusbError::Busy => "Device busy"@,
        LibusbError::Timeout => "Timeout"@,
        LibusbError::Io => "I/O error"@,
        _ => libusb_text(e),
    }
}

/// Maps a libusb failure to an error of this library: not found, access,
/// busy, timeout and I/O keep their kind; any other carries libusb's
/// description.
pub fn map_libusb(e: LibusbError) -> (err: UsbError)
    ensures
        match e {
            LibusbError::NotFound => err == UsbError::NotFound,
            LibusbError::Access => err == UsbError::AccessDenied,
            LibusbError::Busy => err == UsbError::Busy,
            LibusbError::Timeout => err == UsbError::Timeout,
            LibusbError::Io => err == UsbError::Io,
            _ => err matches UsbError::Other(text) && text@ == libusb_text(e),
        },
        usb_error_text(err) == libusb_usb_text(e),
{
    match e {
        LibusbError::NotFound => UsbError::NotFound,
        LibusbError::Access => UsbError::AccessDenied,
        LibusbError::Busy => UsbError::Busy,
        LibusbError::Timeout => UsbError::Timeout,
        LibusbError::Io => UsbError::Io,
        _ => UsbError::Other(libusb_message(e)),
    }
}

} // verus!
