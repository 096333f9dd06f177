use std::rc::Rc;

use vlfd_ffi::{
    hotplug_trampoline, vlfd_get_last_error_message, vlfd_hotplug_options_default,
    vlfd_hotplug_register, vlfd_hotplug_unregister, HotplugDevice, HotplugEvent, HotplugFilter,
    HotplugRegister, HotplugRegisterEvent, LastError, VlfdHotplugEventKind,
    VlfdHotplugOptions, VlfdHotplugRegistration,
};

fn text(slot: &LastError) -> String {
    let bytes = vlfd_get_last_error_message(slot);
    String::from_utf8(bytes[..bytes.len() - 1].to_vec()).unwrap()
}

const NO_FILTER: HotplugFilter =
    HotplugFilter { vendor_id: None, product_id: None, class_code: None, enumerate: false };

#[test]
fn register_without_callback_gives_no_handle_and_asks_for_nothing() {
    let mut slot = LastError::new();
    let options = vlfd_hotplug_options_default();
    let op: HotplugRegister<u32> = vlfd_hotplug_register(Some(&options), false, &mut slot);
    assert!(matches!(op, HotplugRegister::Failed));
    assert_eq!(text(&slot), "null callback passed to vlfd_hotplug_register");
    let op = op.advance(HotplugRegisterEvent::ContextCreated(Ok(())), &mut slot);
    assert!(matches!(op, HotplugRegister::Failed));
    let op = op.advance(HotplugRegisterEvent::Subscribed(Ok(9)), &mut slot);
    assert!(matches!(op, HotplugRegister::Failed));
    assert!(op.into_handle().is_none());
    assert_eq!(text(&slot), "null callback passed to vlfd_hotplug_register");
}

#[test]
fn register_without_callback_and_without_options_fails_the_same_way() {
    let mut slot = LastError::new();
    let op: HotplugRegister<u32> = vlfd_hotplug_register(None, false, &mut slot);
    assert!(matches!(op, HotplugRegister::Failed));
    assert_eq!(text(&slot), "null callback passed to vlfd_hotplug_register");
}

#[test]
fn register_with_default_options_goes_as_with_none() {
    let mut slot = LastError::new();
    let options = vlfd_hotplug_options_default();
    let with_default: HotplugRegister<u32> = vlfd_hotplug_register(Some(&options), true, &mut slot);
    let with_none: HotplugRegister<u32> = vlfd_hotplug_register(None, true, &mut slot);
    match (with_default, with_none) {
        (
            HotplugRegister::CreatingContext { filter: first },
            HotplugRegister::CreatingContext { filter: second },
        ) => {
            assert_eq!(first, second);
            assert_eq!(first, NO_FILTER);
        },
        _ => panic!("registration did not start"),
    }
    assert!(!slot.has_message());
}

#[test]
fn register_subscribes_with_the_decoded_filter() {
    let mut slot = LastError::new();
    let options = VlfdHotplugOptions {
        filter_vendor_id: true,
        vendor_id: 0x2200,
        filter_product_id: true,
        product_id: 0x2008,
        filter_class_code: false,
        class_code: 7,
        enumerate_existing: true,
    };
    let wanted = HotplugFilter {
        vendor_id: Some(0x2200),
        product_id: Some(0x2008),
        class_code: None,
        enumerate: true,
    };
    let op: HotplugRegister<u32> = vlfd_hotplug_register(Some(&options), true, &mut slot);
    assert!(matches!(op, HotplugRegister::CreatingContext { filter } if filter == wanted));
    let op = op.advance(HotplugRegisterEvent::ContextCreated(Ok(())), &mut slot);
    assert!(matches!(op, HotplugRegister::Subscribing { filter } if filter == wanted));
    let op = op.advance(HotplugRegisterEvent::Subscribed(Ok(77)), &mut slot);
    let handle = op.into_handle().expect("handle");
    assert!(handle.owns_subscription());
    assert_eq!(handle.inner, Some(77));
    assert!(!slot.has_message());
}

#[test]
fn register_fails_when_the_context_cannot_be_set_up() {
    let mut slot = LastError::new();
    let op: HotplugRegister<u32> = vlfd_hotplug_register(None, true, &mut slot);
    let event = HotplugRegisterEvent::ContextCreated(Err(String::from("usb error")));
    let op = op.advance(event, &mut slot);
    assert!(matches!(op, HotplugRegister::Failed));
    assert_eq!(text(&slot), "Device::new failed: usb error");
    assert!(op.into_handle().is_none());
}

#[test]
fn register_fails_when_the_subscription_is_refused() {
    let mut slot = LastError::new();
    let op: HotplugRegister<u32> = vlfd_hotplug_register(None, true, &mut slot);
    let op = op.advance(HotplugRegisterEvent::ContextCreated(Ok(())), &mut slot);
    let event = HotplugRegisterEvent::Subscribed(Err(String::from(
        "feature `usb_hotplug` is unavailable",
    )));
    let op = op.advance(event, &mut slot);
    assert!(matches!(op, HotplugRegister::Failed));
    assert_eq!(
        text(&slot),
        "register_hotplug_callback failed: feature `usb_hotplug` is unavailable"
    );
}

#[test]
fn register_ignores_an_event_it_did_not_ask_for() {
    let mut slot = LastError::new();
    let op: HotplugRegister<u32> = vlfd_hotplug_register(None, true, &mut slot);
    let op = op.advance(HotplugRegisterEvent::Subscribed(Ok(1)), &mut slot);
    assert!(matches!(op, HotplugRegister::CreatingContext { .. }));
    let op = op.advance(HotplugRegisterEvent::ContextCreated(Ok(())), &mut slot);
    let op = op.advance(HotplugRegisterEvent::ContextCreated(Err(String::from("x"))), &mut slot);
    assert!(matches!(op, HotplugRegister::Subscribing { .. }));
    assert!(!slot.has_message());
}

#[test]
fn unregister_drops_the_subscription() {
    let mut slot = LastError::new();
    let token = Rc::new(());
    let handle = VlfdHotplugRegistration::new(Rc::clone(&token));
    assert_eq!(Rc::strong_count(&token), 2);
    assert_eq!(vlfd_hotplug_unregister(Some(handle), &mut slot), 0);
    assert_eq!(Rc::strong_count(&token), 1);
    assert!(!slot.has_message());
}

#[test]
fn unregister_rejects_a_missing_handle() {
    let mut slot = LastError::new();
    let code = vlfd_hotplug_unregister(None::<VlfdHotplugRegistration<()>>, &mut slot);
    assert_eq!(code, -1);
    assert_eq!(text(&slot), "null registration in vlfd_hotplug_unregister");
}

#[test]
fn unregister_rejects_a_handle_without_subscription() {
    let mut slot = LastError::new();
    let handle: VlfdHotplugRegistration<()> = VlfdHotplugRegistration::vacant();
    assert!(!handle.owns_subscription());
    assert_eq!(vlfd_hotplug_unregister(Some(handle), &mut slot), -1);
    assert_eq!(text(&slot), "invalid registration handle");
}

#[test]
fn arrival_is_delivered_in_plain_form() {
    let event = HotplugEvent {
        kind: VlfdHotplugEventKind::Arrived,
        device: HotplugDevice {
            bus_number: 1,
            address: 4,
            port_numbers: vec![1, 2, 3],
            vendor_id: Some(0x1234),
            product_id: None,
            class_code: None,
            sub_class_code: None,
            protocol_code: None,
        },
    };
    let mut calls = 0;
    let mut seen_ports: Vec<u8> = Vec::new();
    hotplug_trampoline(event, |plain| {
        calls += 1;
        assert_eq!(plain.kind, VlfdHotplugEventKind::Arrived);
        assert_eq!(plain.kind.code(), 0);
        assert_eq!(plain.device.port_numbers.len, 3);
        assert_eq!(plain.device.port_numbers.data, &[1u8, 2, 3][..]);
        assert!(plain.device.vendor_id.has_value);
        assert_eq!(plain.device.vendor_id.value, 0x1234);
        assert!(!plain.device.product_id.has_value);
        assert_eq!(plain.device.bus_number, 1);
        assert_eq!(plain.device.address, 4);
        seen_ports.extend_from_slice(plain.device.port_numbers.data);
    });
    assert_eq!(calls, 1);
    assert_eq!(seen_ports, vec![1, 2, 3]);
}

#[test]
fn departure_is_delivered_with_kind_one() {
    let event = HotplugEvent {
        kind: VlfdHotplugEventKind::Left,
        device: HotplugDevice {
            bus_number: 0,
            address: 0,
            port_numbers: Vec::new(),
            vendor_id: None,
            product_id: Some(7),
            class_code: Some(9),
            sub_class_code: Some(1),
            protocol_code: Some(2),
        },
    };
    let mut code = 99;
    hotplug_trampoline(event, |plain| {
        code = plain.kind.code();
        assert_eq!(plain.device.port_numbers.len, 0);
        assert!(!plain.device.vendor_id.has_value);
        assert_eq!(plain.device.vendor_id.value, 0);
        assert_eq!(plain.device.product_id.value, 7);
        assert_eq!(plain.device.class_code.value, 9);
        assert_eq!(plain.device.sub_class_code.value, 1);
        assert_eq!(plain.device.protocol_code.value, 2);
    });
    assert_eq!(code, 1);
}
