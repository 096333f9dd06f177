//! Firmware programming: one shot, with nothing kept between calls.
//!
//! The path of the bitstream is checked first. Then the programmer endpoint
//! is connected, the bitstream is streamed, and the endpoint is closed. The
//! endpoint is closed whether streaming worked or not. A streaming failure is
//! what the caller hears of, even when closing fails as well; a closing
//! failure is reported only after streaming worked.

use vstd::prelude::*;
use vstd::string::*;
use vstd::utf8::*;

use crate::failure::{Failure, StepOutcome, FAILED, SUCCEEDED};
use crate::last_error::{recorded, LastError};

verus! {

/// Programming the device.
#[derive(Debug)]
pub enum ProgramFpga {
    /// Next: connect to the programmer endpoint.
    Connecting { path: String },
    /// Next: stream the bitstream at `path`.
    Programming { path: String },
    /// Next: close the programmer endpoint. `program_failed` tells whether
    /// streaming failed.
    Closing { program_failed: bool },
    /// Done: the caller gets `code`.
    Finished { code: i32 },
}

/// Reads `bytes` as UTF-8 text.
///
/// Trusted: `core::str::from_utf8` succeeds exactly on well-formed UTF-8 and
/// then gives the text whose encoding is `bytes`, without copying.
#[verifier::external_body]
fn utf8_text<'a>(bytes: &'a [u8]) -> (text: Option<&'a str>)
    ensures
        text is Some <==> valid_utf8(bytes@),
        text is Some ==> text.unwrap().spec_bytes() == bytes@,
{
    match core::str::from_utf8(bytes) {
        Ok(text) => Some(text),
        Err(_) => None,
    }
}

/// The failure programming starts with, if any.
pub open spec fn program_start_failure(bitfile_path: Option<Seq<u8>>) -> Option<Failure> {
    match bitfile_path {
        None => Some(Failure::NullBitfilePath),
        Some(bytes) => if valid_utf8(bytes) {
            None
        } else {
            Some(Failure::BitfilePathEncoding)
        },
    }
}

/// True when `op` is the state programming starts in for `bitfile_path`:
/// finished with a failure code where the path is rejected, and otherwise
/// about to connect, holding the path as text.
pub open spec fn program_starts_in(op: ProgramFpga, bitfile_path: Option<Seq<u8>>) -> bool {
    match program_start_failure(bitfile_path) {
        Some(_) => op == (ProgramFpga::Finished { code: FAILED }),
        None => match op {
            ProgramFpga::Connecting { path } => path@ == decode_utf8(bitfile_path.unwrap()),
            _ => false,
        },
    }
}

/// The bytes of a path that may be absent.
pub open spec fn path_bytes(bitfile_path: Option<&[u8]>) -> Option<Seq<u8>> {
    match bitfile_path {
        Some(bytes) => Some(bytes@),
        None => None,
    }
}

/// Starts programming with the bitstream at `bitfile_path`, given as the
/// bytes of the path without a terminator. The path has to be there and has
/// to be UTF-8 text; the device is not touched otherwise.
pub fn vlfd_program_fpga(bitfile_path: Option<&[u8]>, slot: &mut LastError) -> (op: ProgramFpga)
    ensures
        program_starts_in(op, path_bytes(bitfile_path)),
        final(slot).message() == recorded(
            old(slot).message(),
            program_start_failure(path_bytes(bitfile_path)),
        ),
{
    let bytes = match bitfile_path {
        Some(bytes) => bytes,
        None => {
            slot.record(&Failure::NullBitfilePath);
            return ProgramFpga::Finished { code: FAILED };
        },
    };
    match utf8_text(bytes) {
        Some(text) => {
            proof {
                encode_utf8_decode_utf8(text@);
            }
            ProgramFpga::Connecting { path: String::from_str(text) }
        },
        None => {
            slot.record(&Failure::BitfilePathEncoding);
            ProgramFpga::Finished { code: FAILED }
        },
    }
}

impl ProgramFpga {
    /// The state after the step the state asked for went as `outcome` says.
    pub open spec fn after(self, outcome: StepOutcome) -> Self {
        match self {
            ProgramFpga::Connecting { path } => if outcome is Ok {
                ProgramFpga::Programming { path }
            } else {
                ProgramFpga::Finished { code: FAILED }
            },
            ProgramFpga::Programming { .. } => ProgramFpga::Closing {
                program_failed: outcome is Err,
            },
            ProgramFpga::Closing { program_failed } => ProgramFpga::Finished {
                code: if program_failed || outcome is Err {
                    FAILED
                } else {
                    SUCCEEDED
                },
            },
            ProgramFpga::Finished { code } => ProgramFpga::Finished { code },
        }
    }

    /// The failure that `outcome` makes the state record, if any. A closing
    /// failure after a streaming failure is not recorded.
    pub open spec fn failure(self, outcome: StepOutcome) -> Option<Failure> {
        match (self, outcome) {
            (ProgramFpga::Connecting { .. }, Err(detail)) => Some(
                Failure::ProgrammerConnect(detail),
            ),
            (ProgramFpga::Programming { .. }, Err(detail)) => Some(Failure::Program(detail)),
            (ProgramFpga::Closing { program_failed: false }, Err(detail)) => Some(
                Failure::ProgrammerClose(detail),
            ),
            _ => None,
        }
    }

    /// Takes the outcome of the step the state asked for.
    pub fn advance(self, outcome: StepOutcome, slot: &mut LastError) -> (next: Self)
        ensures
            next == self.after(outcome),
            final(slot).message() == recorded(old(slot).message(), self.failure(outcome)),
    {
        match self {
            ProgramFpga::Connecting { path } => match outcome {
                Ok(_) => ProgramFpga::Programming { path },
                Err(detail) => {
                    slot.record(&Failure::ProgrammerConnect(detail));
                    ProgramFpga::Finished { code: FAILED }
                },
            },
            ProgramFpga::Programming { .. } => match outcome {
                Ok(_) => ProgramFpga::Closing { program_failed: false },
                Err(detail) => {
                    slot.record(&Failure::Program(detail));
                    ProgramFpga::Closing { program_failed: true }
                },
            },
            ProgramFpga::Closing { program_failed } => match outcome {
                Ok(_) => ProgramFpga::Finished {
                    code: if program_failed {
                        FAILED
                    } else {
                        SUCCEEDED
                    },
                },
                Err(detail) => {
                    if !program_failed {
                        slot.record(&Failure::ProgrammerClose(detail));
                    }
                    ProgramFpga::Finished { code: FAILED }
                },
            },
            ProgramFpga::Finished { code } => ProgramFpga::Finished { code },
        }
    }
}

/// Once the endpoint is connected it is always closed: after the outcome of
/// streaming, whatever it is, the next step is to close.
pub proof fn lemma_program_always_closes(path: String, program_outcome: StepOutcome)
    ensures
        (ProgramFpga::Programming { path }).after(program_outcome) is Closing,
{
}

/// Which failure the caller hears of after the endpoint was connected: the
/// streaming failure if streaming failed, whether or not closing failed too;
/// the closing failure if only closing failed; none, with code 0, if both
/// worked.
pub proof fn lemma_program_failure_precedence(
    path: String,
    program_outcome: StepOutcome,
    close_outcome: StepOutcome,
    before: Option<Seq<u8>>,
)
    ensures
        ({
            let programming = ProgramFpga::Programming { path };
            let closing = programming.after(program_outcome);
            let end = closing.after(close_outcome);
            let slot = recorded(
                recorded(before, programming.failure(program_outcome)),
                closing.failure(close_outcome),
            );
            &&& end == (ProgramFpga::Finished {
                code: if program_outcome is Ok && close_outcome is Ok {
                    SUCCEEDED
                } else {
                    FAILED
                },
            })
            &&& slot == match (program_outcome, close_outcome) {
                (Err(detail), _) => recorded(before, Some(Failure::Program(detail))),
                (Ok(_), Err(detail)) => recorded(before, Some(Failure::ProgrammerClose(detail))),
                (Ok(_), Ok(_)) => before,
            }
        }),
{
}

/// A broken caller contract is found when programming starts, and no step of
/// the driver is asked for then. What a step of the driver reports is never a
/// broken caller contract.
pub proof fn lemma_program_contract_violations_come_first(
    bitfile_path: Option<Seq<u8>>,
    start: ProgramFpga,
    programming: ProgramFpga,
    outcome: StepOutcome,
)
    requires
        program_starts_in(start, bitfile_path),
    ensures
        (program_start_failure(bitfile_path) matches Some(failure)
            ==> failure.is_contract_violation() && start is Finished),
        (programming.failure(outcome) matches Some(failure) ==> !failure.is_contract_violation()),
{
}

} // verus!
