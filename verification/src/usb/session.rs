//! The unlock exchange as a state machine.
//!
//! The session decides; the caller performs. Each [`Action`] names one USB
//! operation (or the end of the session); the caller performs it and hands
//! the outcome back as an [`Event`], and [`UnlockSession::step`] answers with
//! the next action. The exchange follows the device's protocol: find the
//! drive, detach the kernel driver where one is bound, claim the interface,
//! send the unlock block, the password block, read the reply, send the relink
//! block, read the reply, release the interface. A failure after the claim
//! still releases the interface before the session ends.

use vstd::prelude::*;
use crate::errors::{copy_usb_error, UsbError};
use super::{
    libusb_message, libusb_text, libusb_usb_text, map_libusb, DeviceSelector, LibusbError,
};
use super::proto::{
    build_password_frame, build_relink_frame, build_unlock_frame, password_block,
    relink_block, reply_failed, response_failed, unlock_block, zeros, BLOCK_LEN, EP_IN, EP_OUT,
    INTERFACE,
};

verus! {

/// The transfer timeout, in milliseconds, when none is given.
pub const DEFAULT_TIMEOUT_MS: u64 = 3000;

/// Why an unlock failed.
#[derive(Debug, PartialEq, Eq)]
pub enum UnlockError {
    /// The drive could not be found or opened ("device not found").
    DeviceNotFound(UsbError),
    /// The kernel driver could not be detached.
    DetachFailed(LibusbError),
    /// The interface could not be claimed; [`map_libusb`] gives the
    /// failure's kind as a [`UsbError`].
    Claim(LibusbError),
    /// A bulk write failed.
    BulkWrite(LibusbError),
    /// A bulk read failed.
    BulkRead(LibusbError),
    /// The drive rejected the password.
    PasswordRejected,
    /// The drive rejected the relink command.
    RelinkRejected,
}

/// The message that describes an unlock failure.
pub open spec fn unlock_error_text(e: UnlockError) -> Seq<char> {
    match e {
        UnlockError::DeviceNotFound(_) => "device not found"@,
        UnlockError::DetachFailed(_) => "failed to detach kernel driver"@,
        UnlockError::Claim(l) => libusb_usb_text(l),
        UnlockError::BulkWrite(l) => "bulk write error: "@ + libusb_text(l),
        UnlockError::BulkRead(l) => "bulk read error: "@ + libusb_text(l),
        UnlockError::PasswordRejected => "password rejected by device"@,
        UnlockError::RelinkRejected => "relink rejected by device"@,
    }
}

impl UnlockError {
    /// The message that describes the failure: what went wrong, and for a
    /// failed claim or transfer, libusb's description of why.
    pub fn message(&self) -> (text: String)
        ensures
            text@ == unlock_error_text(*self),
    {
        match self {
            UnlockError::DeviceNotFound(_) => String::from_str("device not found"),
            UnlockError::DetachFailed(_) => String::from_str("failed to detach kernel driver"),
            UnlockError::Claim(l) => map_libusb(*l).message(),
            UnlockError::BulkWrite(l) => String::from_str("bulk write error: ").concat(
                libusb_message(*l).as_str(),
            ),
            UnlockError::BulkRead(l) => String::from_str("bulk read error: ").concat(
                libusb_message(*l).as_str(),
            ),
            UnlockError::PasswordRejected => String::from_str("password rejected by device"),
            UnlockError::RelinkRejected => String::from_str("relink rejected by device"),
        }
    }
}

/// Where the exchange stands.
#[derive(Debug, PartialEq, Eq)]
pub enum Phase {
    FindingDevice,
    CheckingDriver,
    DetachingDriver,
    Claiming,
    SendingUnlock,
    SendingPassword,
    ReadingPasswordReply,
    SendingRelink,
    ReadingRelinkReply,
    /// The exchange is over; the interface is being released.
    Releasing { outcome: Result<(), UnlockError> },
    /// The session has ended.
    Finished { outcome: Result<(), UnlockError> },
}

/// The outcome of the operation that the last action asked for.
#[derive(Debug)]
pub enum Event {
    /// The drive was found and opened, or not.
    DeviceOpened(Result<(), UsbError>),
    /// Whether a kernel driver is bound to the interface.
    DriverChecked(Result<bool, LibusbError>),
    DriverDetached(Result<(), LibusbError>),
    InterfaceClaimed(Result<(), LibusbError>),
    /// A bulk write, with the number of bytes written.
    Written(Result<usize, LibusbError>),
    /// A bulk read, with the bytes received.
    Received(Result<Vec<u8>, LibusbError>),
    InterfaceReleased(Result<(), LibusbError>),
}

/// What the caller is to do next.
#[derive(Debug)]
pub enum Action {
    /// Find and open the selected drive.
    FindDevice { selector: DeviceSelector },
    /// Ask whether a kernel driver is bound to the interface.
    CheckKernelDriver { interface: u8 },
    DetachKernelDriver { interface: u8 },
    ClaimInterface { interface: u8 },
    /// Write `data` to a bulk endpoint.
    WriteBulk { endpoint: u8, data: Vec<u8>, timeout_ms: u64 },
    /// Read up to `len` bytes from a bulk endpoint.
    ReadBulk { endpoint: u8, len: usize, timeout_ms: u64 },
    ReleaseInterface { interface: u8 },
    /// The session is over, with this result.
    Done { outcome: Result<(), UnlockError> },
}

/// An action as a mathematical value: the bytes of a write as a sequence.
pub enum Request {
    FindDevice { selector: DeviceSelector },
    CheckKernelDriver { interface: u8 },
    DetachKernelDriver { interface: u8 },
    ClaimInterface { interface: u8 },
    WriteBulk { endpoint: u8, data: Seq<u8>, timeout_ms: u64 },
    ReadBulk { endpoint: u8, len: usize, timeout_ms: u64 },
    ReleaseInterface { interface: u8 },
    Done { outcome: Result<(), UnlockError> },
}

impl View for Action {
    type V = Request;

    open spec fn view(&self) -> Request {
        match self {
            Action::FindDevice { selector } => Request::FindDevice { selector: *selector },
            Action::CheckKernelDriver { interface } => Request::CheckKernelDriver {
                interface: *interface,
            },
            Action::DetachKernelDriver { interface } => Request::DetachKernelDriver {
                interface: *interface,
            },
            Action::ClaimInterface { interface } => Request::ClaimInterface {
                interface: *interface,
            },
            Action::WriteBulk { endpoint, data, timeout_ms } => Request::WriteBulk {
                endpoint: *endpoint,
                data: data@,
                timeout_ms: *timeout_ms,
            },
            Action::ReadBulk { endpoint, len, timeout_ms } => Request::ReadBulk {
                endpoint: *endpoint,
                len: *len,
                timeout_ms: *timeout_ms,
            },
            Action::ReleaseInterface { interface } => Request::ReleaseInterface {
                interface: *interface,
            },
            Action::Done { outcome } => Request::Done { outcome: *outcome },
        }
    }
}

/// The state of a session as a mathematical value.
pub struct SessionView {
    pub selector: DeviceSelector,
    /// The 512-byte password block to send.
    pub password: Seq<u8>,
    pub timeout_ms: u64,
    /// The 512-byte reply buffer; each read overwrites its first bytes.
    pub response: Seq<u8>,
    pub phase: Phase,
}

/// One unlock exchange with one drive.
pub struct UnlockSession {
    selector: DeviceSelector,
    password: [u8; 512],
    timeout_ms: u64,
    response: [u8; 512],
    phase: Phase,
}

impl View for UnlockSession {
    type V = SessionView;

    closed spec fn view(&self) -> SessionView {
        SessionView {
            selector: self.selector,
            password: self.password@,
            timeout_ms: self.timeout_ms,
            response: self.response@,
            phase: self.phase,
        }
    }
}

/// The session that `usb::unlock` starts.
pub open spec fn initial(selector: DeviceSelector, password: Seq<u8>, timeout_ms: Option<u64>)
    -> SessionView {
    SessionView {
        selector,
        password: password_block(password),
        timeout_ms: timeout_ms.unwrap_or(DEFAULT_TIMEOUT_MS),
        response: zeros(512),
        phase: Phase::FindingDevice,
    }
}

/// The reply buffer after a read that received `data`: the received bytes
/// over its first bytes, the rest as it was.
pub open spec fn overlay(response: Seq<u8>, data: Seq<u8>) -> Seq<u8> {
    Seq::new(response.len(), |i: int| if i < data.len() { data[i] } else { response[i] })
}

/// Whether the interface is claimed in this phase.
pub open spec fn holds_interface(phase: Phase) -> bool {
    match phase {
        Phase::SendingUnlock | Phase::SendingPassword | Phase::ReadingPasswordReply
        | Phase::SendingRelink | Phase::ReadingRelinkReply | Phase::Releasing { .. } => true,
        _ => false,
    }
}

/// The action that a session in this state asks for.
pub open spec fn pending(s: SessionView) -> Request {
    match s.phase {
        Phase::FindingDevice => Request::FindDevice { selector: s.selector },
        Phase::CheckingDriver => Request::CheckKernelDriver { interface: INTERFACE },
        Phase::DetachingDriver => Request::DetachKernelDriver { interface: INTERFACE },
        Phase::Claiming => Request::ClaimInterface { interface: INTERFACE },
        Phase::SendingUnlock => Request::WriteBulk {
            endpoint: EP_OUT,
            data: unlock_block(s.selector.model),
            timeout_ms: s.timeout_ms,
        },
        Phase::SendingPassword => Request::WriteBulk {
            endpoint: EP_OUT,
            data: s.password,
            timeout_ms: s.timeout_ms,
        },
        Phase::ReadingPasswordReply | Phase::ReadingRelinkReply => Request::ReadBulk {
            endpoint: EP_IN,
            len: 512,
            timeout_ms: s.timeout_ms,
        },
        Phase::SendingRelink => Request::WriteBulk {
            endpoint: EP_OUT,
            data: relink_block(),
            timeout_ms: s.timeout_ms,
        },
        Phase::Releasing { .. } => Request::ReleaseInterface { interface: INTERFACE },
        Phase::Finished { outcome } => Request::Done { outcome },
    }
}

/// The phase and reply buffer that an event leads to, or `None` when the
/// event does not answer the pending action.
pub open spec fn advance(phase: Phase, response: Seq<u8>, event: Event) -> Option<(Phase, Seq<u8>)> {
    match (phase, event) {
        (Phase::FindingDevice, Event::DeviceOpened(r)) => Some(
            (
                match r {
                    Ok(_) => Phase::CheckingDriver,
                    Err(e) => Phase::Finished { outcome: Err(UnlockError::DeviceNotFound(e)) },
                },
                response,
            ),
        ),
        (Phase::CheckingDriver, Event::DriverChecked(r)) => Some(
            (if r == Ok::<bool, LibusbError>(true) {
                Phase::DetachingDriver
            } else {
                Phase::Claiming
            }, response),
        ),
        (Phase::DetachingDriver, Event::DriverDetached(r)) => Some(
            (
                match r {
                    Ok(_) => Phase::Claiming,
                    Err(e) => Phase::Finished { outcome: Err(UnlockError::DetachFailed(e)) },
                },
                response,
            ),
        ),
        (Phase::Claiming, Event::InterfaceClaimed(r)) => Some(
            (
                match r {
                    Ok(_) => Phase::SendingUnlock,
                    Err(e) => Phase::Finished { outcome: Err(UnlockError::Claim(e)) },
                },
                response,
            ),
        ),
        (Phase::SendingUnlock, Event::Written(r)) => Some(
            (after_write(r, Phase::SendingPassword), response),
        ),
        (Phase::SendingPassword, Event::Written(r)) => Some(
            (after_write(r, Phase::ReadingPasswordReply), response),
        ),
        (Phase::SendingRelink, Event::Written(r)) => Some(
            (after_write(r, Phase::ReadingRelinkReply), response),
        ),
        (Phase::ReadingPasswordReply, Event::Received(r)) => Some(
            match r {
                Ok(data) => {
                    let reply = overlay(response, data@);
                    if reply_failed(reply) {
                        (Phase::Releasing { outcome: Err(UnlockError::PasswordRejected) }, reply)
                    } else {
                        (Phase::SendingRelink, reply)
                    }
                },
                Err(e) => (Phase::Releasing { outcome: Err(UnlockError::BulkRead(e)) }, response),
            },
        ),
        (Phase::ReadingRelinkReply, Event::Received(r)) => Some(
            match r {
                Ok(data) => {
                    let reply = overlay(response, data@);
                    if reply_failed(reply) {
                        (Phase::Releasing { outcome: Err(UnlockError::RelinkRejected) }, reply)
                    } else {
                        (Phase::Releasing { outcome: Ok(()) }, reply)
                    }
                },
                Err(e) => (Phase::Releasing { outcome: Err(UnlockError::BulkRead(e)) }, response),
            },
        ),
        (Phase::Releasing { outcome }, Event::InterfaceReleased(_)) => Some(
            (Phase::Finished { outcome }, response),
        ),
        _ => None,
    }
}

/// The phase after a write: `next` when it went through, otherwise release
/// the interface and fail.
pub open spec fn after_write(r: Result<usize, LibusbError>, next: Phase) -> Phase {
    match r {
        Ok(_) => next,
        Err(e) => Phase::Releasing { outcome: Err(UnlockError::BulkWrite(e)) },
    }
}

/// The session after an event; an event that does not answer the pending
/// action leaves it as it was.
pub open spec fn next(s: SessionView, event: Event) -> SessionView {
    match advance(s.phase, s.response, event) {
        Some((phase, response)) => SessionView { phase, response, ..s },
        None => s,
    }
}

fn copy_outcome(o: &Result<(), UnlockError>) -> (r: Result<(), UnlockError>)
    ensures
        r == *o,
{
    match o {
        Ok(u) => Ok(*u),
        Err(UnlockError::DeviceNotFound(e)) => Err(UnlockError::DeviceNotFound(copy_usb_error(e))),
        Err(UnlockError::DetachFailed(e)) => Err(UnlockError::DetachFailed(*e)),
        Err(UnlockError::Claim(e)) => Err(UnlockError::Claim(*e)),
        Err(UnlockError::BulkWrite(e)) => Err(UnlockError::BulkWrite(*e)),
        Err(UnlockError::BulkRead(e)) => Err(UnlockError::BulkRead(*e)),
        Err(UnlockError::PasswordRejected) => Err(UnlockError::PasswordRejected),
        Err(UnlockError::RelinkRejected) => Err(UnlockError::RelinkRejected),
    }
}

fn phase_after_write(r: Result<usize, LibusbError>, next: Phase) -> (p: Phase)
    ensures
        p == after_write(r, next),
{
    match r {
        Ok(_) => next,
        Err(e) => Phase::Releasing { outcome: Err(UnlockError::BulkWrite(e)) },
    }
}

/// Starts an unlock of the selected drive with this password. Transfers time
/// out after `timeout_ms` milliseconds, 3000 when none is given. The password
/// is sent as its 512-byte block (see [`super::proto::build_password_frame`]).
pub fn unlock(sel: &DeviceSelector, password: &[u8], timeout_ms: Option<u64>) -> (session:
    UnlockSession)
    ensures
        session@ == initial(*sel, password@, timeout_ms),
        session@.timeout_ms == (match timeout_ms {
            Some(t) => t,
            None => 3000u64,
        }),
        session@.phase == Phase::FindingDevice,
{
    let timeout = match timeout_ms {
        Some(t) => t,
        None => DEFAULT_TIMEOUT_MS,
    };
    let session = UnlockSession {
        selector: *sel,
        password: build_password_frame(password),
        timeout_ms: timeout,
        response: [0u8; 512],
        phase: Phase::FindingDevice,
    };
    assert(session.response@ =~= zeros(512));
    session
}

impl UnlockSession {
    /// The action that the session asks for in its present state.
    pub fn action(&self) -> (action: Action)
        ensures
            action@ == pending(self@),
    {
        match &self.phase {
            Phase::FindingDevice => Action::FindDevice { selector: self.selector },
            Phase::CheckingDriver => Action::CheckKernelDriver { interface: INTERFACE },
            Phase::DetachingDriver => Action::DetachKernelDriver { interface: INTERFACE },
            Phase::Claiming => Action::ClaimInterface { interface: INTERFACE },
            Phase::SendingUnlock => {
                let frame = build_unlock_frame(self.selector.model);
                Action::WriteBulk {
                    endpoint: EP_OUT,
                    data: vstd::slice::slice_to_vec(frame.as_slice()),
                    timeout_ms: self.timeout_ms,
                }
            },
            Phase::SendingPassword => Action::WriteBulk {
                endpoint: EP_OUT,
                data: vstd::slice::slice_to_vec(self.password.as_slice()),
                timeout_ms: self.timeout_ms,
            },
            Phase::ReadingPasswordReply => Action::ReadBulk {
                endpoint: EP_IN,
                len: BLOCK_LEN,
                timeout_ms: self.timeout_ms,
            },
            Phase::SendingRelink => {
                let frame = build_relink_frame();
                Action::WriteBulk {
                    endpoint: EP_OUT,
                    data: vstd::slice::slice_to_vec(frame.as_slice()),
                    timeout_ms: self.timeout_ms,
                }
            },
            Phase::ReadingRelinkReply => Action::ReadBulk {
                endpoint: EP_IN,
                len: BLOCK_LEN,
                timeout_ms: self.timeout_ms,
            },
            Phase::Releasing { .. } => Action::ReleaseInterface { interface: INTERFACE },
            Phase::Finished { outcome } => Action::Done { outcome: copy_outcome(outcome) },
        }
    }

    /// Writes received bytes over the start of the reply buffer.
    fn receive(&mut self, data: &Vec<u8>)
        ensures
            final(self).response@ == overlay(old(self).response@, data@),
            final(self).selector == old(self).selector,
            final(self).password == old(self).password,
            final(self).timeout_ms == old(self).timeout_ms,
            final(self).phase == old(self).phase,
    {
        let len: usize = if data.len() < BLOCK_LEN { data.len() } else { BLOCK_LEN };
        let ghost before = self.response@;
        let mut i: usize = 0;
        while i < len
            invariant
                len <= data@.len(),
                len <= 512,
                i <= len,
                self.response@.len() == 512,
                before.len() == 512,
                forall|j: int| 0 <= j < i ==> self.response@[j] == data@[j],
                forall|j: int| i <= j < 512 ==> self.response@[j] == before[j],
                self.selector == old(self).selector,
                self.password == old(self).password,
                self.timeout_ms == old(self).timeout_ms,
                self.phase == old(self).phase,
                before == old(self).response@,
            decreases len - i,
        {
            self.response[i] = data[i];
            i = i + 1;
        }
        assert(self.response@ =~= overlay(before, data@));
    }

    /// Takes the outcome of the pending action and answers with the next
    /// action. An event that does not answer the pending action changes
    /// nothing, and the pending action is asked for again.
    pub fn step(&mut self, event: Event) -> (action: Action)
        ensures
            final(self)@ == next(old(self)@, event),
            action@ == pending(final(self)@),
    {
        let ghost start = self@;
        let ghost ev = event;
        let next_phase: Option<Phase> = match event {
            Event::DeviceOpened(r) => match self.phase {
                Phase::FindingDevice => Some(
                    match r {
                        Ok(_) => Phase::CheckingDriver,
                        Err(e) => Phase::Finished { outcome: Err(UnlockError::DeviceNotFound(e)) },
                    },
                ),
                _ => None,
            },
            Event::DriverChecked(r) => match self.phase {
                Phase::CheckingDriver => Some(
                    match r {
                        Ok(true) => Phase::DetachingDriver,
                        _ => Phase::Claiming,
                    },
                ),
                _ => None,
            },
            Event::DriverDetached(r) => match self.phase {
                Phase::DetachingDriver => Some(
                    match r {
                        Ok(_) => Phase::Claiming,
                        Err(e) => Phase::Finished { outcome: Err(UnlockError::DetachFailed(e)) },
                    },
                ),
                _ => None,
            },
            Event::InterfaceClaimed(r) => match self.phase {
                Phase::Claiming => Some(
                    match r {
                        Ok(_) => Phase::SendingUnlock,
                        Err(e) => Phase::Finished { outcome: Err(UnlockError::Claim(e)) },
                    },
                ),
                _ => None,
            },
            Event::Written(r) => match self.phase {
                Phase::SendingUnlock => Some(phase_after_write(r, Phase::SendingPassword)),
                Phase::SendingPassword => Some(phase_after_write(r, Phase::ReadingPasswordReply)),
                Phase::SendingRelink => Some(phase_after_write(r, Phase::ReadingRelinkReply)),
                _ => None,
            },
            Event::Received(r) => match self.phase {
                Phase::ReadingPasswordReply => Some(
                    match r {
                        Ok(data) => {
                            self.receive(&data);
                            if response_failed(&self.response) {
                                Phase::Releasing { outcome: Err(UnlockError::PasswordRejected) }
                            } else {
                                Phase::SendingRelink
                            }
                        },
                        Err(e) => Phase::Releasing { outcome: Err(UnlockError::BulkRead(e)) },
                    },
                ),
                Phase::ReadingRelinkReply => Some(
                    match r {
                        Ok(data) => {
                            self.receive(&data);
                            if response_failed(&self.response) {
                                Phase::Releasing { outcome: Err(UnlockError::RelinkRejected) }
                            } else {
                                Phase::Releasing { outcome: Ok(()) }
                            }
                        },
                        Err(e) => Phase::Releasing { outcome: Err(UnlockError::BulkRead(e)) },
                    },
                ),
                _ => None,
            },
            Event::InterfaceReleased(_) => match &self.phase {
                Phase::Releasing { outcome } => Some(
                    Phase::Finished { outcome: copy_outcome(outcome) },
                ),
                _ => None,
            },
        };
        match next_phase {
            Some(p) => {
                self.phase = p;
            },
            None => {},
        }
        assert(self@ == next(start, ev));
        self.action()
    }
}

/// Whether the interface is being released.
pub open spec fn is_releasing(phase: Phase) -> bool {
    phase matches Phase::Releasing { .. }
}

/// Whether the session has ended.
pub open spec fn is_finished(phase: Phase) -> bool {
    phase matches Phase::Finished { .. }
}

/// The relink block is asked for only while the reply buffer holds an
/// accepted reply to the password.
pub open spec fn relink_after_accepted_password(s: SessionView) -> bool {
    (s.phase == Phase::SendingRelink || s.phase == Phase::ReadingRelinkReply) ==> !reply_failed(
        s.response,
    )
}

/// A session starts by looking for the selected drive, holds no interface,
/// and keeps the password block and the timeout it was given.
pub proof fn lemma_session_starts(sel: DeviceSelector, password: Seq<u8>, timeout_ms: Option<u64>)
    ensures
        pending(initial(sel, password, timeout_ms)) == (Request::FindDevice { selector: sel }),
        !holds_interface(initial(sel, password, timeout_ms).phase),
        relink_after_accepted_password(initial(sel, password, timeout_ms)),
        initial(sel, password, None).timeout_ms == DEFAULT_TIMEOUT_MS,
{
}

/// Once the interface is claimed, the session ends only through releasing
/// it: no event leads from a phase that holds the interface straight to the
/// end, and the release, whatever its own outcome, ends the session with the
/// outcome of the exchange. The interface comes to be held only by a
/// successful claim.
pub proof fn lemma_release_before_end(s: SessionView, e: Event)
    ensures
        holds_interface(s.phase) && !is_releasing(s.phase) ==> !is_finished(next(s, e).phase),
        (s.phase matches Phase::Releasing { outcome } && e is InterfaceReleased) ==> next(s, e).phase
            == (Phase::Finished { outcome: s.phase->Releasing_outcome }),
        !holds_interface(s.phase) && holds_interface(next(s, e).phase) ==> s.phase
            == Phase::Claiming && e matches Event::InterfaceClaimed(Ok(_)),
        is_finished(s.phase) ==> next(s, e) == s,
{
}

/// The relink block is only ever asked for after the drive accepted the
/// password: the property holds at the start and every event keeps it.
pub proof fn lemma_relink_after_accepted_password(s: SessionView, e: Event)
    requires
        relink_after_accepted_password(s),
    ensures
        relink_after_accepted_password(next(s, e)),
{
}

/// A session succeeds only when the drive accepted both the password and the
/// relink command: the successful outcome arises only from a relink reply
/// that does not report failure, read while the buffer held an accepted
/// password reply.
pub proof fn lemma_success_needs_both_replies(s: SessionView, e: Event)
    requires
        relink_after_accepted_password(s),
    ensures
        next(s, e).phase == (Phase::Releasing { outcome: Ok(()) }) ==> s.phase == (
        Phase::Releasing { outcome: Ok(()) }) || ({
            &&& s.phase == Phase::ReadingRelinkReply
            &&& !reply_failed(s.response)
            &&& e matches Event::Received(Ok(data))
            &&& !reply_failed(overlay(s.response, data@))
        }),
{
}

/// The exchange of a successful unlock, in order: check the kernel driver,
/// detach it if one is bound, claim interface 0, write the unlock block, write
/// the password block, read the reply, write the relink block, read the
/// reply, release the interface, and end with success.
pub proof fn lemma_unlock_exchange(
    sel: DeviceSelector,
    password: Seq<u8>,
    timeout_ms: Option<u64>,
    driver_bound: bool,
    written: (usize, usize, usize),
    first_reply: Vec<u8>,
    second_reply: Vec<u8>,
    released: Result<(), LibusbError>,
)
    requires
        !reply_failed(overlay(zeros(512), first_reply@)),
        !reply_failed(overlay(overlay(zeros(512), first_reply@), second_reply@)),
    ensures
        ({
            let s0 = initial(sel, password, timeout_ms);
            let t = s0.timeout_ms;
            let s1 = next(s0, Event::DeviceOpened(Ok(())));
            let s2 = next(s1, Event::DriverChecked(Ok(driver_bound)));
            let s3 = if driver_bound {
                next(s2, Event::DriverDetached(Ok(())))
            } else {
                s2
            };
            let s4 = next(s3, Event::InterfaceClaimed(Ok(())));
            let s5 = next(s4, Event::Written(Ok(written.0)));
            let s6 = next(s5, Event::Written(Ok(written.1)));
            let s7 = next(s6, Event::Received(Ok(first_reply)));
            let s8 = next(s7, Event::Written(Ok(written.2)));
            let s9 = next(s8, Event::Received(Ok(second_reply)));
            let s10 = next(s9, Event::InterfaceReleased(released));
            &&& pending(s0) == (Request::FindDevice { selector: sel })
            &&& pending(s1) == (Request::CheckKernelDriver { interface: INTERFACE })
            &&& driver_bound ==> pending(s2) == (Request::DetachKernelDriver {
                interface: INTERFACE,
            })
            &&& pending(s3) == (Request::ClaimInterface { interface: INTERFACE })
            &&& pending(s4) == (Request::WriteBulk {
                endpoint: EP_OUT,
                data: unlock_block(sel.model),
                timeout_ms: t,
            })
            &&& pending(s5) == (Request::WriteBulk {
                endpoint: EP_OUT,
                data: password_block(password),
                timeout_ms: t,
            })
            &&& pending(s6) == (Request::ReadBulk { endpoint: EP_IN, len: 512, timeout_ms: t })
            &&& pending(s7) == (Request::WriteBulk {
                endpoint: EP_OUT,
                data: relink_block(),
                timeout_ms: t,
            })
            &&& pending(s8) == (Request::ReadBulk { endpoint: EP_IN, len: 512, timeout_ms: t })
            &&& pending(s9) == (Request::ReleaseInterface { interface: INTERFACE })
            &&& pending(s10) == (Request::Done { outcome: Ok(()) })
        }),
{
}

/// When the drive rejects the password, the relink block is never sent: the
/// reply is followed by the release of the interface and the session ends
/// with the rejection.
pub proof fn lemma_rejected_password(
    sel: DeviceSelector,
    password: Seq<u8>,
    timeout_ms: Option<u64>,
    written: (usize, usize),
    reply: Vec<u8>,
    released: Result<(), LibusbError>,
)
    requires
        reply_failed(overlay(zeros(512), reply@)),
    ensures
        ({
            let s0 = initial(sel, password, timeout_ms);
            let s1 = next(s0, Event::DeviceOpened(Ok(())));
            let s2 = next(s1, Event::DriverChecked(Ok(false)));
            let s3 = next(s2, Event::InterfaceClaimed(Ok(())));
            let s4 = next(s3, Event::Written(Ok(written.0)));
            let s5 = next(s4, Event::Written(Ok(written.1)));
            let s6 = next(s5, Event::Received(Ok(reply)));
            let s7 = next(s6, Event::InterfaceReleased(released));
            &&& pending(s5) == (Request::ReadBulk {
                endpoint: EP_IN,
                len: 512,
                timeout_ms: s0.timeout_ms,
            })
            &&& pending(s6) == (Request::ReleaseInterface { interface: INTERFACE })
            &&& pending(s7) == (Request::Done { outcome: Err(UnlockError::PasswordRejected) })
        }),
{
}

/// Whether the phase writes a block to the drive.
pub open spec fn sends_block(phase: Phase) -> bool {
    phase == Phase::SendingUnlock || phase == Phase::SendingPassword || phase
        == Phase::SendingRelink
}

/// A failed write ends the exchange: from any phase that sends a block, a
/// write that fails with `e` leads to releasing the interface with the
/// outcome `BulkWrite(e)`. Each later stage is reached only through a write
/// that went through: the password is sent only after the unlock block was
/// written, its reply is read only after the password block was written, and
/// the relink reply is read only after the relink block was written.
pub proof fn lemma_failed_write_ends_exchange(s: SessionView, e: LibusbError, ev: Event)
    ensures
        sends_block(s.phase) ==> next(s, Event::Written(Err(e))).phase == (Phase::Releasing {
            outcome: Err(UnlockError::BulkWrite(e)),
        }),
        sends_block(s.phase) ==> next(s, Event::Written(Err(e))).response == s.response,
        s.phase != Phase::SendingPassword && next(s, ev).phase == Phase::SendingPassword ==> s.phase
            == Phase::SendingUnlock && ev matches Event::Written(Ok(_)),
        s.phase != Phase::ReadingPasswordReply && next(s, ev).phase == Phase::ReadingPasswordReply
            ==> s.phase == Phase::SendingPassword && ev matches Event::Written(Ok(_)),
        s.phase != Phase::ReadingRelinkReply && next(s, ev).phase == Phase::ReadingRelinkReply
            ==> s.phase == Phase::SendingRelink && ev matches Event::Written(Ok(_)),
{
}

/// The timeout that the caller gives is the one every transfer uses, kept as
/// given; only when none is given do the transfers use 3000 ms. No event
/// changes it.
pub proof fn lemma_timeout_kept(
    sel: DeviceSelector,
    password: Seq<u8>,
    timeout_ms: Option<u64>,
    s: SessionView,
    ev: Event,
)
    ensures
        timeout_ms matches Some(t) ==> initial(sel, password, timeout_ms).timeout_ms == t,
        timeout_ms is None ==> initial(sel, password, timeout_ms).timeout_ms == 3000u64,
        next(s, ev).timeout_ms == s.timeout_ms,
        next(s, ev).password == s.password,
        next(s, ev).selector == s.selector,
        pending(s) matches Request::WriteBulk { timeout_ms: t, .. } ==> t == s.timeout_ms,
        pending(s) matches Request::ReadBulk { timeout_ms: t, .. } ==> t == s.timeout_ms,
{
}

/// A read writes the received bytes over the start of the reply buffer and
/// leaves the rest of it as it was; the buffer keeps its length.
pub proof fn lemma_read_overwrites_prefix(response: Seq<u8>, data: Seq<u8>, i: int)
    requires
        0 <= i < response.len(),
    ensures
        overlay(response, data).len() == response.len(),
        i < data.len() ==> overlay(response, data)[i] == data[i],
        i >= data.len() ==> overlay(response, data)[i] == response[i],
{
}

} // verus!
