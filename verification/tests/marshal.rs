use vlfd_ffi::{
    hotplug_event_to_ffi, hotplug_options_from_ffi, opt_u16, opt_u8, vlfd_hotplug_options_default,
    HotplugDevice, HotplugEvent, HotplugFilter, VlfdHotplugEventKind, VlfdHotplugOptions,
    VlfdOptionalU16, VlfdOptionalU8, VlfdSliceU8,
};

fn sample_device() -> HotplugDevice {
    HotplugDevice {
        bus_number: 3,
        address: 17,
        port_numbers: vec![1, 2, 3],
        vendor_id: Some(0x1234),
        product_id: None,
        class_code: Some(0xff),
        sub_class_code: None,
        protocol_code: Some(0),
    }
}

#[test]
fn opt_u16_present_keeps_the_value() {
    assert_eq!(opt_u16(Some(0x1234)), VlfdOptionalU16 { has_value: true, value: 0x1234 });
    assert_eq!(opt_u16(Some(0)), VlfdOptionalU16 { has_value: true, value: 0 });
    assert_eq!(opt_u16(Some(u16::MAX)), VlfdOptionalU16 { has_value: true, value: u16::MAX });
}

#[test]
fn opt_u16_absent_has_placeholder_zero() {
    assert_eq!(opt_u16(None), VlfdOptionalU16 { has_value: false, value: 0 });
    assert_eq!(opt_u16(None), VlfdOptionalU16::default());
}

#[test]
fn opt_u8_present_keeps_the_value() {
    assert_eq!(opt_u8(Some(0x7f)), VlfdOptionalU8 { has_value: true, value: 0x7f });
    assert_eq!(opt_u8(Some(0)), VlfdOptionalU8 { has_value: true, value: 0 });
    assert_eq!(opt_u8(Some(u8::MAX)), VlfdOptionalU8 { has_value: true, value: u8::MAX });
}

#[test]
fn opt_u8_absent_has_placeholder_zero() {
    assert_eq!(opt_u8(None), VlfdOptionalU8 { has_value: false, value: 0 });
    assert_eq!(opt_u8(None), VlfdOptionalU8::default());
}

#[test]
fn slice_borrows_the_bytes_it_is_given() {
    let buffer = vec![9u8, 8, 7];
    let slice = VlfdSliceU8::borrow(&buffer);
    assert_eq!(slice.len, 3);
    assert_eq!(slice.data, &[9u8, 8, 7][..]);
    assert_eq!(slice.data.as_ptr(), buffer.as_ptr());
}

#[test]
fn event_kind_codes_are_zero_and_one() {
    assert_eq!(VlfdHotplugEventKind::Arrived.code(), 0);
    assert_eq!(VlfdHotplugEventKind::Left.code(), 1);
}

#[test]
fn default_options_are_all_zero() {
    let options = vlfd_hotplug_options_default();
    assert_eq!(
        options,
        VlfdHotplugOptions {
            filter_vendor_id: false,
            vendor_id: 0,
            filter_product_id: false,
            product_id: 0,
            filter_class_code: false,
            class_code: 0,
            enumerate_existing: false,
        }
    );
    assert_eq!(options, VlfdHotplugOptions::default());
}

#[test]
fn absent_options_decode_to_no_filter() {
    assert_eq!(
        hotplug_options_from_ffi(None),
        HotplugFilter { vendor_id: None, product_id: None, class_code: None, enumerate: false }
    );
}

#[test]
fn default_options_decode_like_absent_options() {
    let options = vlfd_hotplug_options_default();
    assert_eq!(hotplug_options_from_ffi(Some(&options)), hotplug_options_from_ffi(None));
}

#[test]
fn options_decode_only_enabled_fields() {
    let options = VlfdHotplugOptions {
        filter_vendor_id: true,
        vendor_id: 0x2200,
        filter_product_id: false,
        product_id: 0x0101,
        filter_class_code: true,
        class_code: 0x0a,
        enumerate_existing: true,
    };
    assert_eq!(
        hotplug_options_from_ffi(Some(&options)),
        HotplugFilter {
            vendor_id: Some(0x2200),
            product_id: None,
            class_code: Some(0x0a),
            enumerate: true,
        }
    );
}

#[test]
fn options_with_all_filters_enabled_decode_all_values() {
    let options = VlfdHotplugOptions {
        filter_vendor_id: true,
        vendor_id: 0,
        filter_product_id: true,
        product_id: 0xffff,
        filter_class_code: true,
        class_code: 0,
        enumerate_existing: false,
    };
    assert_eq!(
        hotplug_options_from_ffi(Some(&options)),
        HotplugFilter {
            vendor_id: Some(0),
            product_id: Some(0xffff),
            class_code: Some(0),
            enumerate: false,
        }
    );
}

#[test]
fn event_plain_form_carries_every_field() {
    let event = HotplugEvent { kind: VlfdHotplugEventKind::Left, device: sample_device() };
    let plain = hotplug_event_to_ffi(&event);
    assert_eq!(plain.kind, VlfdHotplugEventKind::Left);
    assert_eq!(plain.device.bus_number, 3);
    assert_eq!(plain.device.address, 17);
    assert_eq!(plain.device.port_numbers.len, 3);
    assert_eq!(plain.device.port_numbers.data, &[1u8, 2, 3][..]);
    assert_eq!(plain.device.vendor_id, VlfdOptionalU16 { has_value: true, value: 0x1234 });
    assert_eq!(plain.device.product_id, VlfdOptionalU16 { has_value: false, value: 0 });
    assert_eq!(plain.device.class_code, VlfdOptionalU8 { has_value: true, value: 0xff });
    assert_eq!(plain.device.sub_class_code, VlfdOptionalU8 { has_value: false, value: 0 });
    assert_eq!(plain.device.protocol_code, VlfdOptionalU8 { has_value: true, value: 0 });
}

#[test]
fn event_plain_form_refers_to_the_port_path_without_copying() {
    let event = HotplugEvent { kind: VlfdHotplugEventKind::Arrived, device: sample_device() };
    let plain = hotplug_event_to_ffi(&event);
    assert_eq!(plain.device.port_numbers.data.as_ptr(), event.device.port_numbers.as_ptr());
}

#[test]
fn event_with_empty_port_path_has_length_zero() {
    let mut device = sample_device();
    device.port_numbers = Vec::new();
    let event = HotplugEvent { kind: VlfdHotplugEventKind::Arrived, device };
    let plain = hotplug_event_to_ffi(&event);
    assert_eq!(plain.kind, VlfdHotplugEventKind::Arrived);
    assert_eq!(plain.device.port_numbers.len, 0);
    assert!(plain.device.port_numbers.data.is_empty());
}
