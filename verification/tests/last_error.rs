use vlfd_ffi::{set_last_error, vlfd_get_last_error_message, Failure, LastError};

fn text(slot: &LastError) -> String {
    let bytes = vlfd_get_last_error_message(slot);
    assert_eq!(bytes.last(), Some(&0u8));
    let body = &bytes[..bytes.len() - 1];
    assert!(!body.contains(&0u8));
    String::from_utf8(body.to_vec()).unwrap()
}

#[test]
fn fresh_slot_reads_as_empty_text() {
    let slot = LastError::new();
    assert!(!slot.has_message());
    assert_eq!(vlfd_get_last_error_message(&slot), &[0u8][..]);
    assert_eq!(text(&slot), "");
}

#[test]
fn message_is_kept_with_a_terminator() {
    let mut slot = LastError::new();
    set_last_error(&mut slot, "connect failed: no device");
    assert!(slot.has_message());
    assert_eq!(vlfd_get_last_error_message(&slot), &b"connect failed: no device\0"[..]);
}

#[test]
fn later_message_overwrites_the_earlier_one() {
    let mut slot = LastError::new();
    set_last_error(&mut slot, "first failure, quite a long one");
    set_last_error(&mut slot, "second");
    assert_eq!(text(&slot), "second");
}

#[test]
fn message_with_nul_is_replaced_by_the_fallback() {
    let mut slot = LastError::new();
    set_last_error(&mut slot, "bad\0text");
    assert_eq!(text(&slot), "<invalid utf8 in error>");
    set_last_error(&mut slot, "\0");
    assert_eq!(text(&slot), "<invalid utf8 in error>");
}

#[test]
fn message_beyond_ascii_is_kept_as_its_utf8_bytes() {
    let mut slot = LastError::new();
    set_last_error(&mut slot, "p\u{e9}riph\u{e9}rique \u{2713}");
    assert_eq!(text(&slot), "p\u{e9}riph\u{e9}rique \u{2713}");
    assert_eq!(
        vlfd_get_last_error_message(&slot),
        &[
            b'p', 0xc3, 0xa9, b'r', b'i', b'p', b'h', 0xc3, 0xa9, b'r', b'i', b'q', b'u', b'e',
            b' ', 0xe2, 0x9c, 0x93, 0
        ][..]
    );
}

#[test]
fn empty_message_is_recorded_as_empty_text() {
    let mut slot = LastError::new();
    set_last_error(&mut slot, "");
    assert!(slot.has_message());
    assert_eq!(vlfd_get_last_error_message(&slot), &[0u8][..]);
}

#[test]
fn slots_do_not_share_messages() {
    let mut first = LastError::new();
    let second = LastError::new();
    set_last_error(&mut first, "only here");
    assert_eq!(text(&first), "only here");
    assert_eq!(text(&second), "");
}

#[test]
fn failure_messages_without_detail() {
    assert_eq!(
        Failure::NullCallback.message(),
        "null callback passed to vlfd_hotplug_register"
    );
    assert_eq!(
        Failure::NullRegistration.message(),
        "null registration in vlfd_hotplug_unregister"
    );
    assert_eq!(Failure::InvalidRegistration.message(), "invalid registration handle");
    assert_eq!(
        Failure::NullTransferPointer.message(),
        "null pointer passed to vlfd_io_write_read"
    );
    assert_eq!(Failure::NullDevice.message(), "null device in vlfd_io_close");
    assert_eq!(Failure::InvalidDevice.message(), "invalid device handle");
    assert_eq!(Failure::NullBitfilePath.message(), "null bitfile_path");
    assert_eq!(Failure::BitfilePathEncoding.message(), "bitfile_path is not valid UTF-8");
}

#[test]
fn failure_messages_with_detail() {
    let detail = || String::from("device is not open");
    assert_eq!(Failure::ContextInit(detail()).message(), "Device::new failed: device is not open");
    assert_eq!(
        Failure::Subscribe(detail()).message(),
        "register_hotplug_callback failed: device is not open"
    );
    assert_eq!(Failure::Connect(detail()).message(), "connect failed: device is not open");
    assert_eq!(
        Failure::EnterIoMode(detail()).message(),
        "enter_io_mode failed: device is not open"
    );
    assert_eq!(Failure::Transfer(detail()).message(), "transfer_io failed: device is not open");
    assert_eq!(Failure::ExitIoMode(detail()).message(), "exit_io_mode failed: device is not open");
    assert_eq!(Failure::Close(detail()).message(), "close failed: device is not open");
    assert_eq!(
        Failure::ProgrammerConnect(detail()).message(),
        "programmer connect failed: device is not open"
    );
    assert_eq!(Failure::Program(detail()).message(), "program failed: device is not open");
    assert_eq!(
        Failure::ProgrammerClose(detail()).message(),
        "programmer close failed: device is not open"
    );
}

#[test]
fn failure_with_empty_detail_keeps_its_context() {
    assert_eq!(Failure::Connect(String::new()).message(), "connect failed: ");
}

#[test]
fn recording_a_failure_stores_its_message() {
    let mut slot = LastError::new();
    slot.record(&Failure::Program(String::from("FPGA is not programmed")));
    assert_eq!(text(&slot), "program failed: FPGA is not programmed");
    slot.record(&Failure::NullDevice);
    assert_eq!(text(&slot), "null device in vlfd_io_close");
}

#[test]
fn recording_a_failure_whose_detail_holds_nul_stores_the_fallback() {
    let mut slot = LastError::new();
    slot.record(&Failure::Connect(String::from("a\0b")));
    assert_eq!(text(&slot), "<invalid utf8 in error>");
}
