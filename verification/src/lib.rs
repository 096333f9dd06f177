//! Verified core of a C boundary for the VLFD device driver.
//!
//! The boundary exposes device I/O, hotplug monitoring and firmware
//! programming to callers that only understand plain structs, opaque handles
//! and integer return codes. This crate holds everything the boundary decides:
//! how values are laid out for the caller, what the last-error slot of a
//! thread holds, who owns a session at each point of its life, and in which
//! order the steps of every operation run. The device itself is driven by the
//! shell around this crate, which performs each step an operation asks for and
//! reports back how it went.

pub mod failure;
pub mod handle;
pub mod hotplug;
pub mod io;
pub mod last_error;
pub mod marshal;
pub mod program;

pub use failure::{Failure, StepOutcome, FAILED, SUCCEEDED};
pub use handle::{VlfdDevice, VlfdHotplugRegistration};
pub use hotplug::{
    hotplug_trampoline, vlfd_hotplug_register, vlfd_hotplug_unregister, HotplugRegister,
    HotplugRegisterEvent,
};
pub use io::{
    vlfd_io_close, vlfd_io_open, vlfd_io_write_read, IoClose, IoOpen, IoOpenEvent, IoTransfer,
};
pub use last_error::{
    c_string, c_text, fallback_text, is_c_text, recorded, set_last_error,
    vlfd_get_last_error_message, LastError,
};
pub use marshal::{
    decoded_filter, hotplug_event_to_ffi, hotplug_options_from_ffi, opt_u16, opt_u8,
    vlfd_hotplug_options_default, HotplugDevice, HotplugEvent, HotplugFilter, VlfdHotplugDeviceInfo,
    VlfdHotplugEvent, VlfdHotplugEventKind, VlfdHotplugOptions, VlfdOptionalU16, VlfdOptionalU8,
    VlfdSliceU8,
};
pub use program::{vlfd_program_fpga, ProgramFpga};
