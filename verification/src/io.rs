//! Device I/O: opening a device, exchanging words with it, and closing it.
//!
//! A device is unopened, open or closed. Opening connects and then enters I/O
//! mode; only when both have succeeded does a handle exist. A transfer leaves
//! an open device open. Closing runs every teardown step whatever the steps
//! before it did, and always ends with the session released.
//!
//! Each operation is a small machine. Its state says which step of the driver
//! is to be performed next; `advance` takes the outcome of that step, records
//! a failure in the last-error slot, and gives the state that follows.

use vstd::prelude::*;

use crate::failure::{Failure, StepOutcome, FAILED, SUCCEEDED};
use crate::handle::VlfdDevice;
use crate::last_error::{recorded, LastError};

verus! {

/// Opening a device.
#[derive(Debug)]
pub enum IoOpen<S> {
    /// Next: connect to the device.
    Connecting,
    /// Next: enter I/O mode with default settings on the connected session.
    /// The session is not exposed to the caller in this state.
    EnteringIoMode(S),
    /// Done: the device is open and the caller gets the handle.
    Opened(VlfdDevice<S>),
    /// Done: the caller gets no handle; the connection, if there was one, has
    /// been torn down.
    Failed,
}

/// What the driver reports while a device is opened.
#[derive(Debug)]
pub enum IoOpenEvent<S> {
    /// How connecting went; on success, the connected session.
    Connected(Result<S, String>),
    /// How entering I/O mode went.
    IoModeEntered(StepOutcome),
}

/// Starts opening a device.
pub fn vlfd_io_open<S>() -> (op: IoOpen<S>)
    ensures
        op is Connecting,
{
    IoOpen::Connecting
}

impl<S> IoOpen<S> {
    /// True once the operation has ended.
    pub open spec fn is_done(self) -> bool {
        self is Opened || self is Failed
    }

    /// The state after `event`. An event that does not answer the step the
    /// state asks for changes nothing.
    pub open spec fn after(self, event: IoOpenEvent<S>) -> Self {
        match (self, event) {
            (IoOpen::Connecting, IoOpenEvent::Connected(Ok(session))) => IoOpen::EnteringIoMode(
                session,
            ),
            (IoOpen::Connecting, IoOpenEvent::Connected(Err(_))) => IoOpen::Failed,
            (IoOpen::EnteringIoMode(session), IoOpenEvent::IoModeEntered(Ok(_))) => IoOpen::Opened(
                VlfdDevice { inner: Some(session) },
            ),
            (IoOpen::EnteringIoMode(_), IoOpenEvent::IoModeEntered(Err(_))) => IoOpen::Failed,
            (state, _) => state,
        }
    }

    /// The failure that `event` makes the state record, if any.
    pub open spec fn failure(self, event: IoOpenEvent<S>) -> Option<Failure> {
        match (self, event) {
            (IoOpen::Connecting, IoOpenEvent::Connected(Err(detail))) => Some(
                Failure::Connect(detail),
            ),
            (IoOpen::EnteringIoMode(_), IoOpenEvent::IoModeEntered(Err(detail))) => Some(
                Failure::EnterIoMode(detail),
            ),
            _ => None,
        }
    }

    /// Takes the outcome of the step the state asked for. A session that
    /// failed to enter I/O mode is dropped here, before the caller hears of
    /// the failure.
    pub fn advance(self, event: IoOpenEvent<S>, slot: &mut LastError) -> (next: Self)
        ensures
            next == self.after(event),
            final(slot).message() == recorded(old(slot).message(), self.failure(event)),
    {
        match self {
            IoOpen::Connecting => match event {
                IoOpenEvent::Connected(Ok(session)) => IoOpen::EnteringIoMode(session),
                IoOpenEvent::Connected(Err(detail)) => {
                    slot.record(&Failure::Connect(detail));
                    IoOpen::Failed
                },
                IoOpenEvent::IoModeEntered(_) => IoOpen::Connecting,
            },
            IoOpen::EnteringIoMode(session) => match event {
                IoOpenEvent::IoModeEntered(Ok(_)) => IoOpen::Opened(VlfdDevice::new(session)),
                IoOpenEvent::IoModeEntered(Err(detail)) => {
                    slot.record(&Failure::EnterIoMode(detail));
                    IoOpen::Failed
                },
                IoOpenEvent::Connected(_) => IoOpen::EnteringIoMode(session),
            },
            IoOpen::Opened(handle) => IoOpen::Opened(handle),
            IoOpen::Failed => IoOpen::Failed,
        }
    }

    /// Ends the operation: the handle for the caller, or nothing.
    pub fn into_handle(self) -> (handle: Option<VlfdDevice<S>>)
        ensures
            handle == match self {
                IoOpen::Opened(device) => Some(device),
                _ => None,
            },
    {
        match self {
            IoOpen::Opened(device) => Some(device),
            _ => None,
        }
    }
}

/// One exchange of words with an open device.
#[derive(Debug)]
pub enum IoTransfer {
    /// Next: write `words` words and read as many back.
    Exchanging { words: usize },
    /// Done: the caller gets `code`.
    Finished { code: i32 },
}

/// The state a transfer starts in, and the failure it starts with.
pub open spec fn transfer_start<S>(
    device: Option<VlfdDevice<S>>,
    has_write_buffer: bool,
    has_read_buffer: bool,
    word_len: u32,
) -> (IoTransfer, Option<Failure>) {
    if device is None || !has_write_buffer || !has_read_buffer {
        (IoTransfer::Finished { code: FAILED }, Some(Failure::NullTransferPointer))
    } else if !device.unwrap().is_open() {
        (IoTransfer::Finished { code: FAILED }, Some(Failure::InvalidDevice))
    } else {
        (IoTransfer::Exchanging { words: word_len as usize }, None)
    }
}

/// Starts a transfer of `word_len` words. The device and both buffers have to
/// be there, and the handle has to own a session; the device is not touched
/// otherwise.
pub fn vlfd_io_write_read<S>(
    device: Option<&VlfdDevice<S>>,
    has_write_buffer: bool,
    has_read_buffer: bool,
    word_len: u32,
    slot: &mut LastError,
) -> (op: IoTransfer)
    ensures
        op == transfer_start(
            match device {
                Some(device) => Some(*device),
                None => None,
            },
            has_write_buffer,
            has_read_buffer,
            word_len,
        ).0,
        final(slot).message() == recorded(
            old(slot).message(),
            transfer_start(
                match device {
                    Some(device) => Some(*device),
                    None => None,
                },
                has_write_buffer,
                has_read_buffer,
                word_len,
            ).1,
        ),
{
    match device {
        Some(handle) if has_write_buffer && has_read_buffer => {
            if handle.owns_session() {
                IoTransfer::Exchanging { words: word_len as usize }
            } else {
                slot.record(&Failure::InvalidDevice);
                IoTransfer::Finished { code: FAILED }
            }
        },
        _ => {
            slot.record(&Failure::NullTransferPointer);
            IoTransfer::Finished { code: FAILED }
        },
    }
}

impl IoTransfer {
    /// The state after the exchange went as `outcome` says.
    pub open spec fn after(self, outcome: StepOutcome) -> Self {
        match self {
            IoTransfer::Exchanging { .. } => IoTransfer::Finished {
                code: if outcome is Ok {
                    SUCCEEDED
                } else {
                    FAILED
                },
            },
            IoTransfer::Finished { code } => IoTransfer::Finished { code },
        }
    }

    /// The failure that `outcome` makes the state record, if any.
    pub open spec fn failure(self, outcome: StepOutcome) -> Option<Failure> {
        match (self, outcome) {
            (IoTransfer::Exchanging { .. }, Err(detail)) => Some(Failure::Transfer(detail)),
            _ => None,
        }
    }

    /// Takes the outcome of the exchange.
    pub fn advance(self, outcome: StepOutcome, slot: &mut LastError) -> (next: Self)
        ensures
            next == self.after(outcome),
            final(slot).message() == recorded(old(slot).message(), self.failure(outcome)),
    {
        match self {
            IoTransfer::Exchanging { .. } => match outcome {
                Ok(_) => IoTransfer::Finished { code: SUCCEEDED },
                Err(detail) => {
                    slot.record(&Failure::Transfer(detail));
                    IoTransfer::Finished { code: FAILED }
                },
            },
            IoTransfer::Finished { code } => IoTransfer::Finished { code },
        }
    }
}

/// Closing a device. The session lives in the state until the last teardown
/// step has been answered, and in no state after that.
#[derive(Debug)]
pub enum IoClose<S> {
    /// Next: leave I/O mode.
    ExitingIoMode(S),
    /// Next: release the connection. `failed` tells whether leaving I/O mode
    /// failed.
    Releasing { session: S, failed: bool },
    /// Done: the session is released and the caller gets `code`.
    Finished { code: i32 },
}

impl<S> IoClose<S> {
    /// The state closing starts in.
    pub open spec fn start(device: Option<VlfdDevice<S>>) -> Self {
        match device {
            Some(VlfdDevice { inner: Some(session) }) => IoClose::ExitingIoMode(session),
            _ => IoClose::Finished { code: FAILED },
        }
    }

    /// The failure closing starts with, if any.
    pub open spec fn start_failure(device: Option<VlfdDevice<S>>) -> Option<Failure> {
        match device {
            None => Some(Failure::NullDevice),
            Some(VlfdDevice { inner: None }) => Some(Failure::InvalidDevice),
            Some(_) => None,
        }
    }

    /// True while the state owns the session.
    pub open spec fn holds_session(self) -> bool {
        !(self is Finished)
    }

    /// The state after a teardown step went as `outcome` says. The sequence
    /// goes on after a failed step; the code is 0 only if no step failed.
    pub open spec fn after(self, outcome: StepOutcome) -> Self {
        match self {
            IoClose::ExitingIoMode(session) => IoClose::Releasing {
                session,
                failed: outcome is Err,
            },
            IoClose::Releasing { session, failed } => IoClose::Finished {
                code: if failed || outcome is Err {
                    FAILED
                } else {
                    SUCCEEDED
                },
            },
            IoClose::Finished { code } => IoClose::Finished { code },
        }
    }

    /// The failure that `outcome` makes the state record, if any.
    pub open spec fn failure(self, outcome: StepOutcome) -> Option<Failure> {
        match (self, outcome) {
            (IoClose::ExitingIoMode(_), Err(detail)) => Some(Failure::ExitIoMode(detail)),
            (IoClose::Releasing { .. }, Err(detail)) => Some(Failure::Close(detail)),
            _ => None,
        }
    }

    /// Takes the outcome of the teardown step the state asked for. After the
    /// last step the session is dropped here.
    pub fn advance(self, outcome: StepOutcome, slot: &mut LastError) -> (next: Self)
        ensures
            next == self.after(outcome),
            final(slot).message() == recorded(old(slot).message(), self.failure(outcome)),
    {
        match self {
            IoClose::ExitingIoMode(session) => match outcome {
                Ok(_) => IoClose::Releasing { session, failed: false },
                Err(detail) => {
                    slot.record(&Failure::ExitIoMode(detail));
                    IoClose::Releasing { session, failed: true }
                },
            },
            IoClose::Releasing { session, failed } => match outcome {
                Ok(_) => IoClose::Finished {
                    code: if failed {
                        FAILED
                    } else {
                        SUCCEEDED
                    },
                },
                Err(detail) => {
                    slot.record(&Failure::Close(detail));
                    IoClose::Finished { code: FAILED }
                },
            },
            IoClose::Finished { code } => IoClose::Finished { code },
        }
    }
}

/// Starts closing a device. The handle is taken from the caller for good,
/// whatever follows.
pub fn vlfd_io_close<S>(device: Option<VlfdDevice<S>>, slot: &mut LastError) -> (op: IoClose<S>)
    ensures
        op == IoClose::start(device),
        final(slot).message() == recorded(old(slot).message(), IoClose::start_failure(device)),
{
    match device {
        None => {
            slot.record(&Failure::NullDevice);
            IoClose::Finished { code: FAILED }
        },
        Some(handle) => match handle.inner {
            None => {
                slot.record(&Failure::InvalidDevice);
                IoClose::Finished { code: FAILED }
            },
            Some(session) => IoClose::ExitingIoMode(session),
        },
    }
}

/// A handle exists only after both steps of opening have succeeded, and it
/// owns the session that was connected.
pub proof fn lemma_no_half_open_handle<S>(
    connected: Result<S, String>,
    entered: StepOutcome,
)
    ensures
        ({
            let end = IoOpen::<S>::Connecting.after(IoOpenEvent::Connected(connected)).after(
                IoOpenEvent::IoModeEntered(entered),
            );
            &&& end.is_done()
            &&& end is Opened <==> connected is Ok && entered is Ok
            &&& end matches IoOpen::Opened(device) ==> device.inner == Some(connected->Ok_0)
        }),
{
}

/// Closing an open device always releases its session: whatever the two
/// teardown steps report, the operation ends, the session is in no state any
/// more, and the code is 0 exactly when both steps succeeded.
pub proof fn lemma_close_always_releases<S>(
    device: VlfdDevice<S>,
    exit_outcome: StepOutcome,
    release_outcome: StepOutcome,
)
    requires
        device.is_open(),
    ensures
        ({
            let end = IoClose::start(Some(device)).after(exit_outcome).after(release_outcome);
            &&& !end.holds_session()
            &&& end == IoClose::<S>::Finished {
                code: if exit_outcome is Ok && release_outcome is Ok {
                    SUCCEEDED
                } else {
                    FAILED
                },
            }
        }),
{
}

/// Closing without a handle, or with a handle that owns nothing, ends at once
/// with -1 and no step of the driver.
pub proof fn lemma_close_rejects_without_session<S>(device: Option<VlfdDevice<S>>)
    requires
        (device matches Some(handle) ==> !handle.is_open()),
    ensures
        IoClose::start(device) == (IoClose::<S>::Finished { code: FAILED }),
        (IoClose::start_failure(device) is Some),
{
}

/// After a close in which a step failed, the slot holds the message of the
/// last step that failed.
pub proof fn lemma_close_reports_last_failure<S>(
    session: S,
    exit_outcome: StepOutcome,
    release_outcome: StepOutcome,
    before: Option<Seq<u8>>,
)
    ensures
        ({
            let first = IoClose::ExitingIoMode(session);
            let second = first.after(exit_outcome);
            let slot = recorded(
                recorded(before, first.failure(exit_outcome)),
                second.failure(release_outcome),
            );
            slot == match (exit_outcome, release_outcome) {
                (_, Err(detail)) => recorded(before, Some(Failure::Close(detail))),
                (Err(detail), Ok(_)) => recorded(before, Some(Failure::ExitIoMode(detail))),
                (Ok(_), Ok(_)) => before,
            }
        }),
{
}

/// Closing the handle that opening gave out releases the session that was
/// connected, whatever the teardown steps report.
pub proof fn lemma_open_then_close_releases<S>(
    session: S,
    exit_outcome: StepOutcome,
    release_outcome: StepOutcome,
)
    ensures
        ({
            let opened = IoOpen::Connecting.after(IoOpenEvent::Connected(Ok(session))).after(
                IoOpenEvent::IoModeEntered(Ok(())),
            );
            &&& opened == IoOpen::Opened(VlfdDevice { inner: Some(session) })
            &&& IoClose::start(Some(opened->Opened_0)) == IoClose::ExitingIoMode(session)
            &&& !IoClose::start(Some(opened->Opened_0)).after(exit_outcome).after(
                release_outcome,
            ).holds_session()
        }),
{
}

/// A broken caller contract is found when an operation starts, and the
/// operation then asks for no step of the driver. What a step of the driver
/// reports is never a broken caller contract.
pub proof fn lemma_io_contract_violations_come_first<S>(
    device: Option<VlfdDevice<S>>,
    has_write_buffer: bool,
    has_read_buffer: bool,
    word_len: u32,
    opening: IoOpen<S>,
    event: IoOpenEvent<S>,
    transfer: IoTransfer,
    closing: IoClose<S>,
    outcome: StepOutcome,
)
    ensures
        ({
            let start = transfer_start(device, has_write_buffer, has_read_buffer, word_len);
            start.1 matches Some(failure) ==> failure.is_contract_violation() && start.0
                == (IoTransfer::Finished { code: FAILED })
        }),
        (IoClose::start_failure(device) matches Some(failure) ==> failure.is_contract_violation()
            && !IoClose::start(device).holds_session()),
        (opening.failure(event) matches Some(failure) ==> !failure.is_contract_violation()),
        (transfer.failure(outcome) matches Some(failure) ==> !failure.is_contract_violation()),
        (closing.failure(outcome) matches Some(failure) ==> !failure.is_contract_violation()),
{
}

} // verus!
