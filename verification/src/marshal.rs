//! Value marshaling: the plain structs a caller sees, and the conversions
//! between them and the values the boundary works with.
//!
//! Every conversion is pure. An optional scalar becomes a flag and a value, a
//! byte sequence becomes a borrowed run of bytes with its length, and a
//! caller's options become the filter that a subscription is made with.

use vstd::prelude::*;

verus! {

/// An optional 16-bit scalar as a presence flag and a value. When the flag is
/// false the value is a placeholder and carries no meaning.
#[derive(Clone, Copy, Debug, PartialEq, Eq, Structural)]
pub struct VlfdOptionalU16 {
    pub has_value: bool,
    pub value: u16,
}

/// An optional 8-bit scalar as a presence flag and a value. When the flag is
/// false the value is a placeholder and carries no meaning.
#[derive(Clone, Copy, Debug, PartialEq, Eq, Structural)]
pub struct VlfdOptionalU8 {
    pub has_value: bool,
    pub value: u8,
}

impl View for VlfdOptionalU16 {
    type V = Option<u16>;

    /// The scalar that the pair stands for.
    open spec fn view(&self) -> Option<u16> {
        if self.has_value {
            Some(self.value)
        } else {
            None
        }
    }
}

impl View for VlfdOptionalU8 {
    type V = Option<u8>;

    /// The scalar that the pair stands for.
    open spec fn view(&self) -> Option<u8> {
        if self.has_value {
            Some(self.value)
        } else {
            None
        }
    }
}

impl VlfdOptionalU16 {
    /// The pair for `value`; an absent value gets the placeholder 0.
    pub open spec fn encode(value: Option<u16>) -> Self {
        match value {
            Some(v) => VlfdOptionalU16 { has_value: true, value: v },
            None => VlfdOptionalU16 { has_value: false, value: 0 },
        }
    }
}

impl VlfdOptionalU8 {
    /// The pair for `value`; an absent value gets the placeholder 0.
    pub open spec fn encode(value: Option<u8>) -> Self {
        match value {
            Some(v) => VlfdOptionalU8 { has_value: true, value: v },
            None => VlfdOptionalU8 { has_value: false, value: 0 },
        }
    }
}

impl Default for VlfdOptionalU16 {
    fn default() -> (r: Self)
        ensures
            r == VlfdOptionalU16::encode(None),
    {
        VlfdOptionalU16 { has_value: false, value: 0 }
    }
}

impl Default for VlfdOptionalU8 {
    fn default() -> (r: Self)
        ensures
            r == VlfdOptionalU8::encode(None),
    {
        VlfdOptionalU8 { has_value: false, value: 0 }
    }
}

/// Encodes an optional 16-bit scalar as flag and value.
pub fn opt_u16(value: Option<u16>) -> (r: VlfdOptionalU16)
    ensures
        r == VlfdOptionalU16::encode(value),
        r@ == value,
{
    match value {
        Some(v) => VlfdOptionalU16 { has_value: true, value: v },
        None => VlfdOptionalU16 { has_value: false, value: 0 },
    }
}

/// Encodes an optional 8-bit scalar as flag and value.
pub fn opt_u8(value: Option<u8>) -> (r: VlfdOptionalU8)
    ensures
        r == VlfdOptionalU8::encode(value),
        r@ == value,
{
    match value {
        Some(v) => VlfdOptionalU8 { has_value: true, value: v },
        None => VlfdOptionalU8 { has_value: false, value: 0 },
    }
}

/// A byte sequence as the caller sees it: where the bytes are, and how many.
/// The bytes are borrowed, never copied, so the pair is good for exactly as
/// long as the buffer it was made from.
#[derive(Clone, Copy, Debug)]
pub struct VlfdSliceU8<'a> {
    pub data: &'a [u8],
    pub len: usize,
}

impl<'a> View for VlfdSliceU8<'a> {
    type V = Seq<u8>;

    /// The bytes that the pair refers to.
    open spec fn view(&self) -> Seq<u8> {
        self.data@
    }
}

impl<'a> VlfdSliceU8<'a> {
    /// The length says how many bytes there are.
    pub open spec fn well_formed(self) -> bool {
        self.len == self.data@.len()
    }

    /// Refers to `bytes` without copying them.
    pub fn borrow(bytes: &'a [u8]) -> (r: Self)
        ensures
            r@ == bytes@,
            r.well_formed(),
    {
        VlfdSliceU8 { data: bytes, len: bytes.len() }
    }
}

/// Whether a device arrived or left.
#[derive(Clone, Copy, Debug, PartialEq, Eq, Structural)]
pub enum VlfdHotplugEventKind {
    Arrived,
    Left,
}

impl VlfdHotplugEventKind {
    /// The number a caller sees for the kind: 0 for an arrival, 1 for a
    /// departure.
    pub open spec fn spec_code(self) -> u32 {
        match self {
            VlfdHotplugEventKind::Arrived => 0,
            VlfdHotplugEventKind::Left => 1,
        }
    }

    /// The number a caller sees for the kind.
    #[verifier::when_used_as_spec(spec_code)]
    pub fn code(self) -> (r: u32)
        ensures
            r == self.spec_code(),
    {
        match self {
            VlfdHotplugEventKind::Arrived => 0,
            VlfdHotplugEventKind::Left => 1,
        }
    }
}

/// The identity of a device as the driver reports it. Every descriptor field
/// is absent on its own when it could not be read.
#[derive(Debug)]
pub struct HotplugDevice {
    pub bus_number: u8,
    pub address: u8,
    pub port_numbers: Vec<u8>,
    pub vendor_id: Option<u16>,
    pub product_id: Option<u16>,
    pub class_code: Option<u8>,
    pub sub_class_code: Option<u8>,
    pub protocol_code: Option<u8>,
}

/// A hotplug event as the driver raises it.
#[derive(Debug)]
pub struct HotplugEvent {
    pub kind: VlfdHotplugEventKind,
    pub device: HotplugDevice,
}

/// The identity of a device in plain-struct form.
#[derive(Clone, Copy, Debug)]
pub struct VlfdHotplugDeviceInfo<'a> {
    pub bus_number: u8,
    pub address: u8,
    pub port_numbers: VlfdSliceU8<'a>,
    pub vendor_id: VlfdOptionalU16,
    pub product_id: VlfdOptionalU16,
    pub class_code: VlfdOptionalU8,
    pub sub_class_code: VlfdOptionalU8,
    pub protocol_code: VlfdOptionalU8,
}

/// A hotplug event in plain-struct form.
#[derive(Clone, Copy, Debug)]
pub struct VlfdHotplugEvent<'a> {
    pub kind: VlfdHotplugEventKind,
    pub device: VlfdHotplugDeviceInfo<'a>,
}

impl<'a> VlfdHotplugDeviceInfo<'a> {
    /// True when this is the plain form of `device`: the same numbers, the
    /// port path byte for byte with its length, and each optional field as
    /// flag and value with placeholder 0.
    pub open spec fn encodes(self, device: HotplugDevice) -> bool {
        &&& self.bus_number == device.bus_number
        &&& self.address == device.address
        &&& self.port_numbers@ == device.port_numbers@
        &&& self.port_numbers.well_formed()
        &&& self.vendor_id == VlfdOptionalU16::encode(device.vendor_id)
        &&& self.product_id == VlfdOptionalU16::encode(device.product_id)
        &&& self.class_code == VlfdOptionalU8::encode(device.class_code)
        &&& self.sub_class_code == VlfdOptionalU8::encode(device.sub_class_code)
        &&& self.protocol_code == VlfdOptionalU8::encode(device.protocol_code)
    }
}

impl<'a> VlfdHotplugEvent<'a> {
    /// True when this is the plain form of `event`.
    pub open spec fn encodes(self, event: HotplugEvent) -> bool {
        &&& self.kind == event.kind
        &&& self.device.encodes(event.device)
    }
}

/// Builds the plain form of `event`. The port path is not copied: the plain
/// form borrows it from `event`, which stays the owner of the buffer and has
/// to be kept until the caller is done with the plain form.
pub fn hotplug_event_to_ffi<'a>(event: &'a HotplugEvent) -> (plain: VlfdHotplugEvent<'a>)
    ensures
        plain.encodes(*event),
{
    let device = &event.device;
    let info = VlfdHotplugDeviceInfo {
        bus_number: device.bus_number,
        address: device.address,
        port_numbers: VlfdSliceU8::borrow(device.port_numbers.as_slice()),
        vendor_id: opt_u16(device.vendor_id),
        product_id: opt_u16(device.product_id),
        class_code: opt_u8(device.class_code),
        sub_class_code: opt_u8(device.sub_class_code),
        protocol_code: opt_u8(device.protocol_code),
    };
    VlfdHotplugEvent { kind: event.kind, device: info }
}

/// What a caller asks a subscription to report: for each of three descriptor
/// fields a switch and the value to match when the switch is on, and whether
/// devices that are already present are to be reported as arrivals.
#[derive(Clone, Copy, Debug, PartialEq, Eq, Structural)]
pub struct VlfdHotplugOptions {
    pub filter_vendor_id: bool,
    pub vendor_id: u16,
    pub filter_product_id: bool,
    pub product_id: u16,
    pub filter_class_code: bool,
    pub class_code: u8,
    pub enumerate_existing: bool,
}

/// The filter a subscription is made with. A field that is `None` matches
/// every device.
#[derive(Clone, Copy, Debug, PartialEq, Eq, Structural)]
pub struct HotplugFilter {
    pub vendor_id: Option<u16>,
    pub product_id: Option<u16>,
    pub class_code: Option<u8>,
    pub enumerate: bool,
}

impl HotplugFilter {
    /// The filter that matches every device and reports no device that is
    /// already present.
    pub open spec fn unfiltered() -> Self {
        HotplugFilter { vendor_id: None, product_id: None, class_code: None, enumerate: false }
    }
}

impl VlfdHotplugOptions {
    /// The options with every switch off and every value 0.
    pub open spec fn zeroed() -> Self {
        VlfdHotplugOptions {
            filter_vendor_id: false,
            vendor_id: 0,
            filter_product_id: false,
            product_id: 0,
            filter_class_code: false,
            class_code: 0,
            enumerate_existing: false,
        }
    }

    /// The filter these options ask for: a value counts only where its switch
    /// is on.
    pub open spec fn filter(self) -> HotplugFilter {
        HotplugFilter {
            vendor_id: if self.filter_vendor_id {
                Some(self.vendor_id)
            } else {
                None
            },
            product_id: if self.filter_product_id {
                Some(self.product_id)
            } else {
                None
            },
            class_code: if self.filter_class_code {
                Some(self.class_code)
            } else {
                None
            },
            enumerate: self.enumerate_existing,
        }
    }
}

impl Default for VlfdHotplugOptions {
    fn default() -> (r: Self)
        ensures
            r == VlfdHotplugOptions::zeroed(),
    {
        VlfdHotplugOptions {
            filter_vendor_id: false,
            vendor_id: 0,
            filter_product_id: false,
            product_id: 0,
            filter_class_code: false,
            class_code: 0,
            enumerate_existing: false,
        }
    }
}

/// The filter that `options` decode to: the filter they ask for, or the
/// unfiltered one when the caller passed no options.
pub open spec fn decoded_filter(options: Option<VlfdHotplugOptions>) -> HotplugFilter {
    match options {
        Some(options) => options.filter(),
        None => HotplugFilter::unfiltered(),
    }
}

/// The options a caller starts from: all filters off, nothing enumerated.
pub fn vlfd_hotplug_options_default() -> (r: VlfdHotplugOptions)
    ensures
        r == VlfdHotplugOptions::zeroed(),
{
    VlfdHotplugOptions::default()
}

/// Decodes a caller's options into the filter of a subscription.
pub fn hotplug_options_from_ffi(options: Option<&VlfdHotplugOptions>) -> (filter: HotplugFilter)
    ensures
        filter == decoded_filter(
            match options {
                Some(options) => Some(*options),
                None => None,
            },
        ),
{
    let mut result = HotplugFilter {
        vendor_id: None,
        product_id: None,
        class_code: None,
        enumerate: false,
    };
    if let Some(opts) = options {
        if opts.filter_vendor_id {
            result.vendor_id = Some(opts.vendor_id);
        }
        if opts.filter_product_id {
            result.product_id = Some(opts.product_id);
        }
        if opts.filter_class_code {
            result.class_code = Some(opts.class_code);
        }
        result.enumerate = opts.enumerate_existing;
    }
    result
}

/// An encoded optional scalar stands for the scalar it was made from.
pub proof fn lemma_optional_round_trip(wide: Option<u16>, narrow: Option<u8>)
    ensures
        VlfdOptionalU16::encode(wide)@ == wide,
        VlfdOptionalU8::encode(narrow)@ == narrow,
{
}

/// Passing the default options is the same as passing none.
pub proof fn lemma_default_options_decode_as_none()
    ensures
        decoded_filter(Some(VlfdHotplugOptions::zeroed())) == decoded_filter(None),
{
}

} // verus!
