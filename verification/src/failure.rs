//! The failures the boundary can report, and the text of each.

use vstd::prelude::*;
use vstd::string::*;

verus! {

/// The code of an operation that succeeded.
pub const SUCCEEDED: i32 = 0;

/// The code of an operation that failed; the last-error slot says why.
pub const FAILED: i32 = -1;

/// The outcome of a step of the driver that yields nothing on success. The
/// error is the driver's description of what went wrong.
pub type StepOutcome = Result<(), String>;

/// Every way an operation of the boundary can fail.
///
/// A failure is either a broken caller contract, found before the device is
/// touched, or a failed step of the underlying driver, which carries the
/// driver's own description of what went wrong.
#[derive(Debug)]
pub enum Failure {
    /// Registration was asked for without a callback.
    NullCallback,
    /// The driver could not set up its USB context.
    ContextInit(String),
    /// The driver refused the hotplug subscription.
    Subscribe(String),
    /// Unregistration was asked for without a registration handle.
    NullRegistration,
    /// The registration handle owns no subscription.
    InvalidRegistration,
    /// The device could not be connected.
    Connect(String),
    /// The connected device could not enter I/O mode.
    EnterIoMode(String),
    /// A transfer was asked for without a device or without one of its buffers.
    NullTransferPointer,
    /// The exchange with the device failed.
    Transfer(String),
    /// Closing was asked for without a device handle.
    NullDevice,
    /// The device handle owns no session.
    InvalidDevice,
    /// Leaving I/O mode failed during teardown.
    ExitIoMode(String),
    /// Releasing the connection failed during teardown.
    Close(String),
    /// Programming was asked for without a bitstream path.
    NullBitfilePath,
    /// The bitstream path is not UTF-8 text.
    BitfilePathEncoding,
    /// The programmer endpoint could not be connected.
    ProgrammerConnect(String),
    /// Streaming the bitstream failed.
    Program(String),
    /// Closing the programmer endpoint failed.
    ProgrammerClose(String),
}

impl Failure {
    /// The message of this failure: a fixed text for a broken caller contract,
    /// a short context followed by the driver's description otherwise.
    pub open spec fn text(self) -> Seq<char> {
        match self {
            Failure::NullCallback => "null callback passed to vlfd_hotplug_register"@,
            Failure::ContextInit(detail) => "Device::new failed: "@ + detail@,
            Failure::Subscribe(detail) => "register_hotplug_callback failed: "@ + detail@,
            Failure::NullRegistration => "null registration in vlfd_hotplug_unregister"@,
            Failure::InvalidRegistration => "invalid registration handle"@,
            Failure::Connect(detail) => "connect failed: "@ + detail@,
            Failure::EnterIoMode(detail) => "enter_io_mode failed: "@ + detail@,
            Failure::NullTransferPointer => "null pointer passed to vlfd_io_write_read"@,
            Failure::Transfer(detail) => "transfer_io failed: "@ + detail@,
            Failure::NullDevice => "null device in vlfd_io_close"@,
            Failure::InvalidDevice => "invalid device handle"@,
            Failure::ExitIoMode(detail) => "exit_io_mode failed: "@ + detail@,
            Failure::Close(detail) => "close failed: "@ + detail@,
            Failure::NullBitfilePath => "null bitfile_path"@,
            Failure::BitfilePathEncoding => "bitfile_path is not valid UTF-8"@,
            Failure::ProgrammerConnect(detail) => "programmer connect failed: "@ + detail@,
            Failure::Program(detail) => "program failed: "@ + detail@,
            Failure::ProgrammerClose(detail) => "programmer close failed: "@ + detail@,
        }
    }

    /// True for a broken caller contract, which is found before the device is
    /// touched.
    pub open spec fn is_contract_violation(self) -> bool {
        match self {
            Failure::NullCallback
            | Failure::NullRegistration
            | Failure::InvalidRegistration
            | Failure::NullTransferPointer
            | Failure::NullDevice
            | Failure::InvalidDevice
            | Failure::NullBitfilePath
            | Failure::BitfilePathEncoding => true,
            _ => false,
        }
    }

    /// Renders the message of this failure.
    pub fn message(&self) -> (r: String)
        ensures
            r@ == self.text(),
    {
        match self {
            Failure::NullCallback => String::from_str(
                "null callback passed to vlfd_hotplug_register",
            ),
            Failure::ContextInit(detail) => join("Device::new failed: ", detail.as_str()),
            Failure::Subscribe(detail) => join(
                "register_hotplug_callback failed: ",
                detail.as_str(),
            ),
            Failure::NullRegistration => String::from_str(
                "null registration in vlfd_hotplug_unregister",
            ),
            Failure::InvalidRegistration => String::from_str("invalid registration handle"),
            Failure::Connect(detail) => join("connect failed: ", detail.as_str()),
            Failure::EnterIoMode(detail) => join("enter_io_mode failed: ", detail.as_str()),
            Failure::NullTransferPointer => String::from_str(
                "null pointer passed to vlfd_io_write_read",
            ),
            Failure::Transfer(detail) => join("transfer_io failed: ", detail.as_str()),
            Failure::NullDevice => String::from_str("null device in vlfd_io_close"),
            Failure::InvalidDevice => String::from_str("invalid device handle"),
            Failure::ExitIoMode(detail) => join("exit_io_mode failed: ", detail.as_str()),
            Failure::Close(detail) => join("close failed: ", detail.as_str()),
            Failure::NullBitfilePath => String::from_str("null bitfile_path"),
            Failure::BitfilePathEncoding => String::from_str("bitfile_path is not valid UTF-8"),
            Failure::ProgrammerConnect(detail) => join(
                "programmer connect failed: ",
                detail.as_str(),
            ),
            Failure::Program(detail) => join("program failed: ", detail.as_str()),
            Failure::ProgrammerClose(detail) => join(
                "programmer close failed: ",
                detail.as_str(),
            ),
        }
    }
}

/// A context followed by the driver's description.
fn join(context: &str, detail: &str) -> (r: String)
    ensures
        r@ == context@ + detail@,
{
    let mut text = String::from_str(context);
    text.append(detail);
    text
}

} // verus!
