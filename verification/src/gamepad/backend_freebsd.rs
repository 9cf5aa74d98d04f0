//! A virtual Xbox-style controller on FreeBSD, driven through `/dev/uinput`.
//!
//! FreeBSD has a Linux-compatible evdev/uinput subsystem: event codes and
//! record layouts match Linux, ioctl request numbers do not. The request
//! numbers are computed here, and every record is laid out byte by byte as
//! the system headers of a little-endian 64-bit machine have it.
//!
//! Only the core pad is offered: buttons, dpad, two sticks and two analog
//! triggers, always in Xbox layout. Motion, touchpad and battery reports are
//! dropped with a warning.

use crate::gamepad::{GamepadBattery, GamepadInfo, GamepadMotion, GamepadTouch, GamepadUpdate};
use crate::ioctl::{io, ioc, iowint, law_request_parts_do_not_overlap, IOC_IN, IOC_VOID};
use crate::le::{i32_bytes, u16_bytes, u32_bytes, write_i32, write_u16, write_u32, write_zeros};
use crate::text::{decimal, written};
use vstd::prelude::*;

verus! {

/// The group letter `U` of the uinput requests.
pub const UINPUT_IOCTL_BASE: u8 = 0x55;

pub const EV_SYN: u16 = 0x00;

pub const EV_KEY: u16 = 0x01;

pub const EV_ABS: u16 = 0x03;

pub const SYN_REPORT: u16 = 0;

pub const BTN_SOUTH: u16 = 0x130;

pub const BTN_EAST: u16 = 0x131;

pub const BTN_NORTH: u16 = 0x133;

pub const BTN_WEST: u16 = 0x134;

pub const BTN_TL: u16 = 0x136;

pub const BTN_TR: u16 = 0x137;

pub const BTN_SELECT: u16 = 0x13a;

pub const BTN_START: u16 = 0x13b;

pub const BTN_MODE: u16 = 0x13c;

pub const BTN_THUMBL: u16 = 0x13d;

pub const BTN_THUMBR: u16 = 0x13e;

pub const ABS_X: u16 = 0x00;

pub const ABS_Y: u16 = 0x01;

pub const ABS_Z: u16 = 0x02;

pub const ABS_RX: u16 = 0x03;

pub const ABS_RY: u16 = 0x04;

pub const ABS_RZ: u16 = 0x05;

pub const ABS_HAT0X: u16 = 0x10;

pub const ABS_HAT0Y: u16 = 0x11;

pub const BUS_USB: u16 = 0x03;

pub const DPAD_UP: u32 = 0x0001;

pub const DPAD_DOWN: u32 = 0x0002;

pub const DPAD_LEFT: u32 = 0x0004;

pub const DPAD_RIGHT: u32 = 0x0008;

pub const FLAG_START: u32 = 0x0010;

pub const FLAG_BACK: u32 = 0x0020;

pub const FLAG_LEFT_STICK: u32 = 0x0040;

pub const FLAG_RIGHT_STICK: u32 = 0x0080;

pub const FLAG_LEFT_BUTTON: u32 = 0x0100;

pub const FLAG_RIGHT_BUTTON: u32 = 0x0200;

pub const FLAG_HOME: u32 = 0x0400;

pub const FLAG_A: u32 = 0x1000;

pub const FLAG_B: u32 = 0x2000;

pub const FLAG_X: u32 = 0x4000;

pub const FLAG_Y: u32 = 0x8000;

// ---------------------------------------------------------------------------
// Request numbers
// ---------------------------------------------------------------------------

/// Creates the device that was set up.
pub fn ui_dev_create() -> (request: u64)
    ensures
        request == 0x2000_5501,
{
    proof {
        law_request_parts_do_not_overlap(IOC_VOID, UINPUT_IOCTL_BASE, 1, 0);
    }
    io(UINPUT_IOCTL_BASE, 1)
}

/// Destroys the device.
pub fn ui_dev_destroy() -> (request: u64)
    ensures
        request == 0x2000_5502,
{
    proof {
        law_request_parts_do_not_overlap(IOC_VOID, UINPUT_IOCTL_BASE, 2, 0);
    }
    io(UINPUT_IOCTL_BASE, 2)
}

/// Hands in the identity of the device, a `UinputSetup` record.
pub fn ui_dev_setup() -> (request: u64)
    ensures
        request == 0x805c_5503,
{
    proof {
        law_request_parts_do_not_overlap(IOC_IN, UINPUT_IOCTL_BASE, 3, UINPUT_SETUP_SIZE);
    }
    ioc(IOC_IN, UINPUT_IOCTL_BASE, 3, UINPUT_SETUP_SIZE)
}

/// Hands in the range of an axis, a `UinputAbsSetup` record.
pub fn ui_abs_setup() -> (request: u64)
    ensures
        request == 0x801c_5504,
{
    proof {
        law_request_parts_do_not_overlap(IOC_IN, UINPUT_IOCTL_BASE, 4, UINPUT_ABS_SETUP_SIZE);
    }
    ioc(IOC_IN, UINPUT_IOCTL_BASE, 4, UINPUT_ABS_SETUP_SIZE)
}

/// Declares an event type.
pub fn ui_set_evbit() -> (request: u64)
    ensures
        request == 0x2004_5564,
{
    proof {
        law_request_parts_do_not_overlap(IOC_VOID, UINPUT_IOCTL_BASE, 100, 4);
    }
    iowint(UINPUT_IOCTL_BASE, 100)
}

/// Declares a button.
pub fn ui_set_keybit() -> (request: u64)
    ensures
        request == 0x2004_5565,
{
    proof {
        law_request_parts_do_not_overlap(IOC_VOID, UINPUT_IOCTL_BASE, 101, 4);
    }
    iowint(UINPUT_IOCTL_BASE, 101)
}

/// Declares an axis.
pub fn ui_set_absbit() -> (request: u64)
    ensures
        request == 0x2004_5567,
{
    proof {
        law_request_parts_do_not_overlap(IOC_VOID, UINPUT_IOCTL_BASE, 103, 4);
    }
    iowint(UINPUT_IOCTL_BASE, 103)
}

// ---------------------------------------------------------------------------
// Records
// ---------------------------------------------------------------------------

/// Size in bytes of an `InputId` record.
pub const INPUT_ID_SIZE: usize = 8;

/// Size in bytes of an `InputAbsinfo` record.
pub const INPUT_ABSINFO_SIZE: usize = 24;

/// Size in bytes of a `UinputSetup` record.
pub const UINPUT_SETUP_SIZE: usize = 92;

/// Size in bytes of a `UinputAbsSetup` record.
pub const UINPUT_ABS_SETUP_SIZE: usize = 28;

/// Size in bytes of an `InputEvent` record.
pub const INPUT_EVENT_SIZE: usize = 24;

/// Size in bytes of the name in a `UinputSetup` record.
pub const UINPUT_MAX_NAME_SIZE: usize = 80;

/// Identity of a device.
#[derive(Clone, Copy, Debug, PartialEq, Eq, Structural)]
pub struct InputId {
    pub bustype: u16,
    pub vendor: u16,
    pub product: u16,
    pub version: u16,
}

impl InputId {
    /// The record of the identity.
    pub open spec fn record(self) -> Seq<u8> {
        u16_bytes(self.bustype) + u16_bytes(self.vendor) + u16_bytes(self.product) + u16_bytes(
            self.version,
        )
    }

    /// Appends the record of the identity.
    pub fn write(&self, out: &mut Vec<u8>)
        ensures
            final(out)@ == old(out)@ + self.record(),
            self.record().len() == INPUT_ID_SIZE,
    {
        write_u16(out, self.bustype);
        write_u16(out, self.vendor);
        write_u16(out, self.product);
        write_u16(out, self.version);
        assert(out@ =~= old(out)@ + self.record());
    }
}

/// Range and filtering of an axis.
#[derive(Clone, Copy, Debug, PartialEq, Eq, Structural)]
pub struct InputAbsinfo {
    pub value: i32,
    pub minimum: i32,
    pub maximum: i32,
    pub fuzz: i32,
    pub flat: i32,
    pub resolution: i32,
}

impl InputAbsinfo {
    /// The record of the range.
    pub open spec fn record(self) -> Seq<u8> {
        i32_bytes(self.value) + i32_bytes(self.minimum) + i32_bytes(self.maximum) + i32_bytes(
            self.fuzz,
        ) + i32_bytes(self.flat) + i32_bytes(self.resolution)
    }

    /// Appends the record of the range.
    pub fn write(&self, out: &mut Vec<u8>)
        ensures
            final(out)@ == old(out)@ + self.record(),
            self.record().len() == INPUT_ABSINFO_SIZE,
    {
        write_i32(out, self.value);
        write_i32(out, self.minimum);
        write_i32(out, self.maximum);
        write_i32(out, self.fuzz);
        write_i32(out, self.flat);
        write_i32(out, self.resolution);
        assert(out@ =~= old(out)@ + self.record());
    }
}

/// Identity and name of a device.
#[derive(Debug, PartialEq, Eq)]
pub struct UinputSetup {
    pub id: InputId,
    /// The name, cut off or padded with zeros to its size in the record.
    pub name: Vec<u8>,
    pub ff_effects_max: u32,
}

impl UinputSetup {
    /// Whether the name has its size in the record.
    pub open spec fn wf(self) -> bool {
        self.name@.len() == UINPUT_MAX_NAME_SIZE
    }

    /// The record of the device.
    pub open spec fn record(self) -> Seq<u8> {
        self.id.record() + self.name@ + u32_bytes(self.ff_effects_max)
    }

    /// The record of the device.
    pub fn to_bytes(&self) -> (bytes: Vec<u8>)
        requires
            self.wf(),
        ensures
            bytes@ == self.record(),
            bytes@.len() == UINPUT_SETUP_SIZE,
    {
        let mut out: Vec<u8> = Vec::new();
        self.id.write(&mut out);
        out.extend_from_slice(self.name.as_slice());
        write_u32(&mut out, self.ff_effects_max);
        assert(out@ =~= self.record());
        out
    }
}

/// Range of one axis of a device.
#[derive(Clone, Copy, Debug, PartialEq, Eq, Structural)]
pub struct UinputAbsSetup {
    pub code: u16,
    pub absinfo: InputAbsinfo,
}

impl UinputAbsSetup {
    /// The record of the axis: two bytes of padding align the range.
    pub open spec fn record(self) -> Seq<u8> {
        u16_bytes(self.code) + seq![0u8, 0u8] + self.absinfo.record()
    }

    /// The record of the axis.
    pub fn to_bytes(&self) -> (bytes: Vec<u8>)
        ensures
            bytes@ == self.record(),
            bytes@.len() == UINPUT_ABS_SETUP_SIZE,
    {
        let mut out: Vec<u8> = Vec::new();
        write_u16(&mut out, self.code);
        write_zeros(&mut out, 2);
        self.absinfo.write(&mut out);
        assert(out@ =~= self.record());
        out
    }
}

/// One event of a device. The kernel stamps the time, so the time is always zero.
#[derive(Clone, Copy, Debug, PartialEq, Eq, Structural)]
pub struct InputEvent {
    pub type_: u16,
    pub code: u16,
    pub value: i32,
}

impl InputEvent {
    /// The record of the event: sixteen bytes of time, then type, code and value.
    pub open spec fn record(self) -> Seq<u8> {
        Seq::new(16, |i: int| 0u8) + u16_bytes(self.type_) + u16_bytes(self.code) + i32_bytes(
            self.value,
        )
    }

    /// The record of the event.
    pub fn to_bytes(&self) -> (bytes: Vec<u8>)
        ensures
            bytes@ == self.record(),
            bytes@.len() == INPUT_EVENT_SIZE,
    {
        let mut out: Vec<u8> = Vec::new();
        write_zeros(&mut out, 16);
        write_u16(&mut out, self.type_);
        write_u16(&mut out, self.code);
        write_i32(&mut out, self.value);
        assert(out@ =~= self.record());
        out
    }
}

// ---------------------------------------------------------------------------
// Setting the device up
// ---------------------------------------------------------------------------

/// The buttons of the pad: the client's flag and the evdev code of each.
pub open spec fn buttons() -> Seq<(u32, u16)> {
    seq![
        (FLAG_START, BTN_START),
        (FLAG_BACK, BTN_SELECT),
        (FLAG_LEFT_STICK, BTN_THUMBL),
        (FLAG_RIGHT_STICK, BTN_THUMBR),
        (FLAG_LEFT_BUTTON, BTN_TL),
        (FLAG_RIGHT_BUTTON, BTN_TR),
        (FLAG_HOME, BTN_MODE),
        (FLAG_A, BTN_SOUTH),
        (FLAG_B, BTN_EAST),
        (FLAG_X, BTN_NORTH),
        (FLAG_Y, BTN_WEST),
    ]
}

/// The buttons of the pad: the client's flag and the evdev code of each.
pub fn button_map() -> (map: Vec<(u32, u16)>)
    ensures
        map@ == buttons(),
{
    let map: Vec<(u32, u16)> = vec![
        (FLAG_START, BTN_START),
        (FLAG_BACK, BTN_SELECT),
        (FLAG_LEFT_STICK, BTN_THUMBL),
        (FLAG_RIGHT_STICK, BTN_THUMBR),
        (FLAG_LEFT_BUTTON, BTN_TL),
        (FLAG_RIGHT_BUTTON, BTN_TR),
        (FLAG_HOME, BTN_MODE),
        (FLAG_A, BTN_SOUTH),
        (FLAG_B, BTN_EAST),
        (FLAG_X, BTN_NORTH),
        (FLAG_Y, BTN_WEST),
    ];
    assert(map@ =~= buttons());
    map
}

/// An axis of the pad with its range and filtering.
#[derive(Clone, Copy, Debug, PartialEq, Eq, Structural)]
pub struct Axis {
    pub code: u16,
    pub minimum: i32,
    pub maximum: i32,
    pub fuzz: i32,
    pub flat: i32,
}

impl Axis {
    /// A dpad axis.
    pub open spec fn hat(code: u16) -> Axis {
        Axis { code, minimum: -1i32, maximum: 1, fuzz: 0, flat: 0 }
    }

    /// A stick axis.
    pub open spec fn stick(code: u16) -> Axis {
        Axis { code, minimum: -32768i32, maximum: 32767, fuzz: 16, flat: 128 }
    }

    /// A trigger axis.
    pub open spec fn trigger(code: u16) -> Axis {
        Axis { code, minimum: 0, maximum: 255, fuzz: 0, flat: 0 }
    }

    /// What the device is told of the axis.
    pub open spec fn setup(self) -> UinputAbsSetup {
        UinputAbsSetup {
            code: self.code,
            absinfo: InputAbsinfo {
                value: 0,
                minimum: self.minimum,
                maximum: self.maximum,
                fuzz: self.fuzz,
                flat: self.flat,
                resolution: 0,
            },
        }
    }
}

/// The axes of the pad: the dpad, the sticks, the triggers.
pub open spec fn axes() -> Seq<Axis> {
    seq![
        Axis::hat(ABS_HAT0X),
        Axis::hat(ABS_HAT0Y),
        Axis::stick(ABS_X),
        Axis::stick(ABS_Y),
        Axis::stick(ABS_RX),
        Axis::stick(ABS_RY),
        Axis::trigger(ABS_Z),
        Axis::trigger(ABS_RZ),
    ]
}

/// The axes of the pad: the dpad, the sticks, the triggers.
pub fn axis_map() -> (map: Vec<Axis>)
    ensures
        map@ == axes(),
{
    let mut map: Vec<Axis> = Vec::new();
    map.push(Axis { code: ABS_HAT0X, minimum: -1, maximum: 1, fuzz: 0, flat: 0 });
    map.push(Axis { code: ABS_HAT0Y, minimum: -1, maximum: 1, fuzz: 0, flat: 0 });
    map.push(Axis { code: ABS_X, minimum: -32768, maximum: 32767, fuzz: 16, flat: 128 });
    map.push(Axis { code: ABS_Y, minimum: -32768, maximum: 32767, fuzz: 16, flat: 128 });
    map.push(Axis { code: ABS_RX, minimum: -32768, maximum: 32767, fuzz: 16, flat: 128 });
    map.push(Axis { code: ABS_RY, minimum: -32768, maximum: 32767, fuzz: 16, flat: 128 });
    map.push(Axis { code: ABS_Z, minimum: 0, maximum: 255, fuzz: 0, flat: 0 });
    map.push(Axis { code: ABS_RZ, minimum: 0, maximum: 255, fuzz: 0, flat: 0 });
    assert(map@ =~= axes());
    map
}

/// The argument of a request.
#[derive(Debug, PartialEq, Eq)]
pub enum Argument {
    Nothing,
    /// An int, passed by value.
    Int(i32),
    /// A record, passed by address.
    Record(Vec<u8>),
}

/// The argument of a request, with a record taken as its bytes.
#[verifier::ext_equal]
pub ghost enum ArgumentView {
    Nothing,
    Int(i32),
    Record(Seq<u8>),
}

impl View for Argument {
    type V = ArgumentView;

    open spec fn view(&self) -> ArgumentView {
        match self {
            Argument::Nothing => ArgumentView::Nothing,
            Argument::Int(value) => ArgumentView::Int(*value),
            Argument::Record(bytes) => ArgumentView::Record(bytes@),
        }
    }
}

/// One request to the uinput device.
#[derive(Debug, PartialEq, Eq)]
pub struct Request {
    pub number: u64,
    pub argument: Argument,
}

/// One request to the uinput device, with a record taken as its bytes.
#[verifier::ext_equal]
pub ghost struct RequestView {
    pub number: u64,
    pub argument: ArgumentView,
}

impl View for Request {
    type V = RequestView;

    open spec fn view(&self) -> RequestView {
        RequestView { number: self.number, argument: self.argument@ }
    }
}

/// What a list of requests asks for.
pub open spec fn views(requests: Seq<Request>) -> Seq<RequestView> {
    requests.map_values(|request: Request| request@)
}

/// The request that declares an event type.
pub open spec fn declare_type(type_: u16) -> RequestView {
    RequestView { number: 0x2004_5564, argument: ArgumentView::Int(type_ as i32) }
}

/// The request that declares a button.
pub open spec fn declare_button(code: u16) -> RequestView {
    RequestView { number: 0x2004_5565, argument: ArgumentView::Int(code as i32) }
}

/// The request that declares an axis.
pub open spec fn declare_axis(code: u16) -> RequestView {
    RequestView { number: 0x2004_5567, argument: ArgumentView::Int(code as i32) }
}

/// The request that hands in the range of an axis.
pub open spec fn declare_range(axis: Axis) -> RequestView {
    RequestView { number: 0x801c_5504, argument: ArgumentView::Record(axis.setup().record()) }
}

/// The identity that the pad pretends: an Xbox One controller on USB.
pub open spec fn identity() -> InputId {
    InputId { bustype: BUS_USB, vendor: 0x045e, product: 0x02dd, version: 0x0100 }
}

/// The name of the pad, padded with zeros.
pub open spec fn padded_name() -> Seq<u8> {
    Seq::new(
        UINPUT_MAX_NAME_SIZE as nat,
        |i: int|
            if i < "Moonshine XOne controller"@.len() {
                "Moonshine XOne controller"@[i] as u8
            } else {
                0u8
            },
    )
}

/// The request that hands in identity and name. No force feedback is offered.
pub open spec fn declare_device() -> RequestView {
    RequestView {
        number: 0x805c_5503,
        argument: ArgumentView::Record(identity().record() + padded_name() + u32_bytes(0)),
    }
}

/// The request that creates the device.
pub open spec fn create_device() -> RequestView {
    RequestView { number: 0x2000_5501, argument: ArgumentView::Nothing }
}

/// The requests that declare the buttons.
pub open spec fn button_requests() -> Seq<RequestView> {
    buttons().map_values(|button: (u32, u16)| declare_button(button.1))
}

/// The requests that declare some axes, each followed by its range.
pub open spec fn axis_requests(list: Seq<Axis>) -> Seq<RequestView> {
    Seq::new(
        2 * list.len(),
        |i: int|
            if i % 2 == 0 {
                declare_axis(list[i / 2].code)
            } else {
                declare_range(list[i / 2])
            },
    )
}

/// Everything that is asked of uinput to bring the pad up, in order.
pub open spec fn setup_requests() -> Seq<RequestView> {
    seq![declare_type(EV_KEY), declare_type(EV_ABS), declare_type(EV_SYN)] + button_requests()
        + axis_requests(axes()) + seq![declare_device(), create_device()]
}

fn bit_request(number: u64, code: u16) -> (request: Request)
    ensures
        request@ == (RequestView { number, argument: ArgumentView::Int(code as i32) }),
{
    Request { number, argument: Argument::Int(code as i32) }
}

fn range_request(axis: &Axis) -> (request: Request)
    ensures
        request@ == declare_range(*axis),
{
    let setup = UinputAbsSetup {
        code: axis.code,
        absinfo: InputAbsinfo {
            value: 0,
            minimum: axis.minimum,
            maximum: axis.maximum,
            fuzz: axis.fuzz,
            flat: axis.flat,
            resolution: 0,
        },
    };
    Request { number: ui_abs_setup(), argument: Argument::Record(setup.to_bytes()) }
}

fn device_name() -> (name: Vec<u8>)
    ensures
        name@ == padded_name(),
{
    let text = "Moonshine XOne controller";
    proof {
        reveal_strlit("Moonshine XOne controller");
    }
    let length: usize = text.unicode_len();
    let mut name: Vec<u8> = Vec::new();
    for i in 0..length
        invariant
            length == text@.len(),
            text@ == "Moonshine XOne controller"@,
            length <= UINPUT_MAX_NAME_SIZE,
            text.is_ascii(),
            name@.len() == i,
            forall|j: int| 0 <= j < i ==> name@[j] == text@[j] as u8,
    {
        name.push(text.get_ascii(i));
    }
    write_zeros(&mut name, UINPUT_MAX_NAME_SIZE - length);
    assert(name@ =~= padded_name());
    name
}

fn device_request() -> (request: Request)
    ensures
        request@ == declare_device(),
{
    let setup = UinputSetup {
        id: InputId { bustype: BUS_USB, vendor: 0x045e, product: 0x02dd, version: 0x0100 },
        name: device_name(),
        ff_effects_max: 0,
    };
    Request { number: ui_dev_setup(), argument: Argument::Record(setup.to_bytes()) }
}

fn append(requests: &mut Vec<Request>, request: Request)
    ensures
        views(final(requests)@) == views(old(requests)@).push(request@),
{
    requests.push(request);
    assert(views(requests@) =~= views(old(requests)@).push(request@));
}

/// The requests that bring the pad up: event types, buttons, axes with their
/// ranges, identity, creation. The first one that fails ends the attempt.
pub fn setup() -> (requests: Vec<Request>)
    ensures
        views(requests@) == setup_requests(),
{
    let mut requests: Vec<Request> = Vec::new();
    append(&mut requests, bit_request(ui_set_evbit(), EV_KEY));
    append(&mut requests, bit_request(ui_set_evbit(), EV_ABS));
    append(&mut requests, bit_request(ui_set_evbit(), EV_SYN));
    let ghost types = seq![declare_type(EV_KEY), declare_type(EV_ABS), declare_type(EV_SYN)];
    assert(views(requests@) =~= types);

    let map = button_map();
    for i in 0..map.len()
        invariant
            map@ == buttons(),
            views(requests@) == types + button_requests().take(i as int),
    {
        append(&mut requests, bit_request(ui_set_keybit(), map[i].1));
        assert(button_requests()[i as int] == declare_button(buttons()[i as int].1));
        assert(views(requests@) =~= types + button_requests().take(i + 1));
    }
    assert(button_requests().take(map@.len() as int) =~= button_requests());

    let list = axis_map();
    for i in 0..list.len()
        invariant
            list@ == axes(),
            views(requests@) == types + button_requests() + axis_requests(axes().take(i as int)),
    {
        append(&mut requests, bit_request(ui_set_absbit(), list[i].code));
        append(&mut requests, range_request(&list[i]));
        assert(axes().take(i + 1)[i as int] == axes()[i as int]);
        assert(views(requests@) =~= types + button_requests() + axis_requests(axes().take(i + 1)));
    }
    assert(axes().take(list@.len() as int) =~= axes());

    append(&mut requests, device_request());
    append(&mut requests, Request { number: ui_dev_create(), argument: Argument::Nothing });
    assert(views(requests@) =~= setup_requests());
    requests
}

// ---------------------------------------------------------------------------
// Driving the device
// ---------------------------------------------------------------------------

/// Whether a button is among those that are held.
pub open spec fn held(flags: u32, flag: u32) -> bool {
    flags & flag != 0
}

/// Whether a button went down or came up.
pub open spec fn toggled(old_flags: u32, new_flags: u32, flag: u32) -> bool {
    held(old_flags, flag) != held(new_flags, flag)
}

/// The event that reports a button.
pub open spec fn key_event(code: u16, down: bool) -> InputEvent {
    InputEvent {
        type_: EV_KEY,
        code,
        value: if down {
            1
        } else {
            0
        },
    }
}

/// The events that report the buttons of a list that went down or came up, in
/// the order of the list.
pub open spec fn key_events(list: Seq<(u32, u16)>, old_flags: u32, new_flags: u32) -> Seq<InputEvent>
    decreases list.len(),
{
    if list.len() == 0 {
        Seq::empty()
    } else {
        let earlier = key_events(list.drop_last(), old_flags, new_flags);
        let (flag, code) = list.last();
        if toggled(old_flags, new_flags, flag) {
            earlier.push(key_event(code, held(new_flags, flag)))
        } else {
            earlier
        }
    }
}

/// Where a dpad axis stands: -1 while its first button is held, 1 while only
/// its second one is.
pub open spec fn hat_position(flags: u32, negative: u32, positive: u32) -> i32 {
    if held(flags, negative) {
        -1i32
    } else if held(flags, positive) {
        1
    } else {
        0
    }
}

/// The event that reports a dpad axis, when one of its buttons went down or came up.
pub open spec fn hat_events(
    code: u16,
    negative: u32,
    positive: u32,
    old_flags: u32,
    new_flags: u32,
) -> Seq<InputEvent> {
    if toggled(old_flags, new_flags, negative) || toggled(old_flags, new_flags, positive) {
        seq![
            InputEvent {
                type_: EV_ABS,
                code,
                value: hat_position(new_flags, negative, positive),
            },
        ]
    } else {
        Seq::empty()
    }
}

/// The event that closes a report.
pub open spec fn report_end() -> InputEvent {
    InputEvent { type_: EV_SYN, code: SYN_REPORT, value: 0 }
}

/// The report that takes the pad from one set of held buttons to another.
pub open spec fn button_report(old_flags: u32, new_flags: u32) -> Seq<InputEvent> {
    key_events(buttons(), old_flags, new_flags) + hat_events(
        ABS_HAT0Y,
        DPAD_UP,
        DPAD_DOWN,
        old_flags,
        new_flags,
    ) + hat_events(ABS_HAT0X, DPAD_LEFT, DPAD_RIGHT, old_flags, new_flags) + seq![report_end()]
}

/// The event that reports an axis.
pub open spec fn axis_event(code: u16, value: i32) -> InputEvent {
    InputEvent { type_: EV_ABS, code, value }
}

/// The report of sticks and triggers. Up is negative for evdev and positive for
/// the client, so the vertical axes are turned over.
pub open spec fn axis_report(update: GamepadUpdate) -> Seq<InputEvent> {
    seq![
        axis_event(ABS_X, update.left_stick.0 as i32),
        axis_event(ABS_Y, (-(update.left_stick.1 as int)) as i32),
        axis_event(ABS_RX, update.right_stick.0 as i32),
        axis_event(ABS_RY, (-(update.right_stick.1 as int)) as i32),
        axis_event(ABS_Z, update.left_trigger as i32),
        axis_event(ABS_RZ, update.right_trigger as i32),
        report_end(),
    ]
}

/// The warning that a feature is not supported.
pub open spec fn unsupported_warning(index: u8, what: Seq<char>) -> Seq<char> {
    "Gamepad "@ + written(index as nat, 10) + " "@ + what
        + " not supported by the FreeBSD backend (core pad only)."@
}

/// The state of a virtual pad.
#[derive(Debug, PartialEq, Eq)]
pub struct Gamepad {
    /// Number of the gamepad at the client.
    pub index: u8,
    /// The buttons that were last reported as held, so that only changes are reported.
    pub pressed: u32,
    /// Whether the one warning about an unsupported feature was given.
    pub warned: bool,
}

impl Gamepad {
    /// A pad with no button held, before any warning.
    pub fn new(info: &GamepadInfo) -> (gamepad: Gamepad)
        ensures
            gamepad == (Gamepad { index: info.index, pressed: 0, warned: false }),
    {
        Gamepad { index: info.index, pressed: 0, warned: false }
    }

    /// What a request for an unsupported feature does: the first one gives a
    /// warning, later ones nothing.
    pub open spec fn warns(self, after: Gamepad, what: Seq<char>, warning: Option<String>) -> bool {
        &&& after == (Gamepad { warned: true, ..self })
        &&& warning is Some <==> !self.warned
        &&& warning matches Some(text) ==> text@ == unsupported_warning(self.index, what)
    }

    /// The warning about an unsupported feature, unless one was given before.
    pub fn warn_once(&mut self, what: &str) -> (warning: Option<String>)
        ensures
            old(self).warns(*final(self), what@, warning),
    {
        if self.warned {
            return None;
        }
        self.warned = true;
        let mut text = "Gamepad ".to_owned();
        text.append(decimal(self.index as u64).as_str());
        text.append(" ");
        text.append(what);
        text.append(" not supported by the FreeBSD backend (core pad only).");
        Some(text)
    }

    /// Takes over the buttons that are held: reports those that changed, then
    /// the dpad axes that changed, and closes the report.
    pub fn set_pressed(&mut self, button_flags: u32) -> (events: Vec<InputEvent>)
        ensures
            events@ == button_report(old(self).pressed, button_flags),
            *final(self) == (Gamepad { pressed: button_flags, ..*old(self) }),
    {
        let old_flags: u32 = self.pressed;
        let changed: u32 = button_flags ^ old_flags;
        let mut events: Vec<InputEvent> = Vec::new();

        let map = button_map();
        for i in 0..map.len()
            invariant
                map@ == buttons(),
                changed == button_flags ^ old_flags,
                events@ == key_events(map@.take(i as int), old_flags, button_flags),
        {
            let (flag, code) = map[i];
            proof {
                lemma_change_is_toggle(old_flags, button_flags, flag);
                assert(map@.take(i + 1).drop_last() =~= map@.take(i as int));
            }
            if changed & flag != 0 {
                let value: i32 = if button_flags & flag != 0 {
                    1
                } else {
                    0
                };
                events.push(InputEvent { type_: EV_KEY, code, value });
            }
        }
        assert(map@.take(map@.len() as int) =~= map@);

        proof {
            lemma_pair_change_is_toggle(old_flags, button_flags, DPAD_UP, DPAD_DOWN);
            lemma_pair_change_is_toggle(old_flags, button_flags, DPAD_LEFT, DPAD_RIGHT);
        }
        if changed & (DPAD_UP | DPAD_DOWN) != 0 {
            let y: i32 = if button_flags & DPAD_UP != 0 {
                -1
            } else if button_flags & DPAD_DOWN != 0 {
                1
            } else {
                0
            };
            events.push(InputEvent { type_: EV_ABS, code: ABS_HAT0Y, value: y });
        }
        if changed & (DPAD_LEFT | DPAD_RIGHT) != 0 {
            let x: i32 = if button_flags & DPAD_LEFT != 0 {
                -1
            } else if button_flags & DPAD_RIGHT != 0 {
                1
            } else {
                0
            };
            events.push(InputEvent { type_: EV_ABS, code: ABS_HAT0X, value: x });
        }
        self.pressed = button_flags;
        events.push(InputEvent { type_: EV_SYN, code: SYN_REPORT, value: 0 });
        assert(events@ =~= button_report(old_flags, button_flags));
        events
    }

    /// Reports sticks and triggers, and closes the report.
    pub fn apply_update(&self, update: &GamepadUpdate) -> (events: Vec<InputEvent>)
        ensures
            events@ == axis_report(*update),
    {
        let mut events: Vec<InputEvent> = Vec::new();
        events.push(
            InputEvent { type_: EV_ABS, code: ABS_X, value: update.left_stick.0 as i32 },
        );
        events.push(
            InputEvent { type_: EV_ABS, code: ABS_Y, value: -(update.left_stick.1 as i32) },
        );
        events.push(
            InputEvent { type_: EV_ABS, code: ABS_RX, value: update.right_stick.0 as i32 },
        );
        events.push(
            InputEvent { type_: EV_ABS, code: ABS_RY, value: -(update.right_stick.1 as i32) },
        );
        events.push(InputEvent { type_: EV_ABS, code: ABS_Z, value: update.left_trigger as i32 });
        events.push(InputEvent { type_: EV_ABS, code: ABS_RZ, value: update.right_trigger as i32 });
        events.push(InputEvent { type_: EV_SYN, code: SYN_REPORT, value: 0 });
        assert(events@ =~= axis_report(*update));
        events
    }

    /// Drops a touchpad event.
    pub fn touch(&mut self, _touch: &GamepadTouch) -> (warning: Option<String>)
        ensures
            old(self).warns(*final(self), "touchpad events"@, warning),
    {
        self.warn_once("touchpad events")
    }

    /// Drops a motion event.
    pub fn set_motion(&mut self, _motion: &GamepadMotion) -> (warning: Option<String>)
        ensures
            old(self).warns(*final(self), "motion events"@, warning),
    {
        self.warn_once("motion events")
    }

    /// Drops a battery report.
    pub fn set_battery(&mut self, _gamepad_battery: &GamepadBattery) -> (warning: Option<String>)
        ensures
            old(self).warns(*final(self), "battery reports"@, warning),
    {
        self.warn_once("battery reports")
    }
}

/// The request that takes the pad down before its file is closed. There is none
/// when the file was never opened.
pub fn teardown(fd: i32) -> (request: Option<Request>)
    ensures
        request is Some <==> fd >= 0,
        request matches Some(destroy) ==> destroy@ == (RequestView {
            number: 0x2000_5502,
            argument: ArgumentView::Nothing,
        }),
{
    if fd >= 0 {
        Some(Request { number: ui_dev_destroy(), argument: Argument::Nothing })
    } else {
        None
    }
}

proof fn lemma_change_is_toggle(old_flags: u32, new_flags: u32, flag: u32)
    requires
        exists|i: int| 0 <= i < buttons().len() && (#[trigger] buttons()[i]).0 == flag,
    ensures
        (new_flags ^ old_flags) & flag != 0 <==> toggled(old_flags, new_flags, flag),
{
    assert((new_flags ^ old_flags) & flag != 0 <==> ((old_flags & flag != 0) != (new_flags & flag
        != 0))) by (bit_vector)
        requires
            flag == 0x10u32 || flag == 0x20u32 || flag == 0x40u32 || flag == 0x80u32 || flag
                == 0x100u32 || flag == 0x200u32 || flag == 0x400u32 || flag == 0x1000u32 || flag
                == 0x2000u32 || flag == 0x4000u32 || flag == 0x8000u32,
    ;
}

proof fn lemma_pair_change_is_toggle(old_flags: u32, new_flags: u32, first: u32, second: u32)
    requires
        first == 1 && second == 2 || first == 4 && second == 8,
    ensures
        (new_flags ^ old_flags) & (first | second) != 0 <==> toggled(old_flags, new_flags, first)
            || toggled(old_flags, new_flags, second),
{
    assert((new_flags ^ old_flags) & (first | second) != 0 <==> ((old_flags & first != 0) != (
    new_flags & first != 0)) || ((old_flags & second != 0) != (new_flags & second != 0)))
        by (bit_vector)
        requires
            first == 1u32 && second == 2u32 || first == 4u32 && second == 8u32,
    ;
}

} // verus!
