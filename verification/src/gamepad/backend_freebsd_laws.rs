//! What holds of every report of the FreeBSD pad.

use crate::gamepad::backend_freebsd::{
    axes, axis_event, axis_report, axis_requests, button_report, button_requests, buttons,
    create_device, declare_axis, declare_button, declare_device, declare_range, declare_type,
    hat_events, hat_position, held, identity, key_event, key_events, padded_name, report_end,
    setup_requests, toggled, unsupported_warning, views, Argument, ArgumentView, Gamepad,
    InputEvent, Request, RequestView, UinputAbsSetup, UinputSetup, ABS_HAT0X, ABS_HAT0Y, ABS_RY,
    ABS_Y, DPAD_DOWN, DPAD_LEFT, DPAD_RIGHT, DPAD_UP, EV_ABS, EV_KEY, EV_SYN, INPUT_EVENT_SIZE,
};
use crate::gamepad::GamepadUpdate;
use crate::le::{i32_bytes, u16_at, u16_bytes, u32_at, u32_bytes, word32};
use crate::text::{law_written_numbers_read_back, worth, written};
use vstd::prelude::*;

verus! {

/// What a device shows: the last value of each control, by event type and code.
pub type Shown = Map<(u16, u16), i32>;

/// What a device shows after an event. Closing a report changes no control.
pub open spec fn shown_after(device: Shown, event: InputEvent) -> Shown {
    if event.type_ == EV_SYN {
        device
    } else {
        device.insert((event.type_, event.code), event.value)
    }
}

/// What a device shows after a list of events.
pub open spec fn replay(device: Shown, events: Seq<InputEvent>) -> Shown
    decreases events.len(),
{
    if events.len() == 0 {
        device
    } else {
        shown_after(replay(device, events.drop_last()), events.last())
    }
}

/// Whether a device shows the buttons and the dpad as a set of flags has them.
pub open spec fn mirrors(device: Shown, flags: u32) -> bool {
    &&& forall|i: int|
        0 <= i < buttons().len() ==> #[trigger] device.contains_pair(
            (EV_KEY, buttons()[i].1),
            key_event(buttons()[i].1, held(flags, buttons()[i].0)).value,
        )
    &&& device.contains_pair((EV_ABS, ABS_HAT0Y), hat_position(flags, DPAD_UP, DPAD_DOWN))
    &&& device.contains_pair((EV_ABS, ABS_HAT0X), hat_position(flags, DPAD_LEFT, DPAD_RIGHT))
}

/// Whether an event type and code were declared when the device was set up.
pub open spec fn declared(event: InputEvent) -> bool {
    &&& setup_requests().contains(declare_type(event.type_))
    &&& event.type_ == EV_KEY ==> setup_requests().contains(declare_button(event.code))
    &&& event.type_ == EV_ABS ==> setup_requests().contains(declare_axis(event.code))
}

/// A device on which nothing is held shows what a new pad has on record.
pub proof fn law_new_pad_mirrors_a_resting_device(device: Shown)
    requires
        forall|i: int|
            0 <= i < buttons().len() ==> #[trigger] device.contains_pair(
                (EV_KEY, buttons()[i].1),
                0,
            ),
        device.contains_pair((EV_ABS, ABS_HAT0Y), 0),
        device.contains_pair((EV_ABS, ABS_HAT0X), 0),
    ensures
        mirrors(device, 0),
{
    assert forall|flag: u32| !#[trigger] held(0, flag) by {
        assert(0u32 & flag == 0) by (bit_vector);
    }
    assert forall|i: int| 0 <= i < buttons().len() implies #[trigger] device.contains_pair(
        (EV_KEY, buttons()[i].1),
        key_event(buttons()[i].1, held(0, buttons()[i].0)).value,
    ) by {
        assert(!held(0, buttons()[i].0));
        assert(device.contains_pair((EV_KEY, buttons()[i].1), 0));
    }
    assert(!held(0, DPAD_UP) && !held(0, DPAD_DOWN) && !held(0, DPAD_LEFT) && !held(0, DPAD_RIGHT));
}

/// Reporting only what changed loses nothing: a device that shows the buttons
/// on record shows the new buttons after the report.
pub proof fn law_report_keeps_the_device_in_step(device: Shown, old_flags: u32, new_flags: u32)
    requires
        mirrors(device, old_flags),
    ensures
        mirrors(replay(device, button_report(old_flags, new_flags)), new_flags),
{
    let keys = key_events(buttons(), old_flags, new_flags);
    let hat_y = hat_events(ABS_HAT0Y, DPAD_UP, DPAD_DOWN, old_flags, new_flags);
    let hat_x = hat_events(ABS_HAT0X, DPAD_LEFT, DPAD_RIGHT, old_flags, new_flags);
    let after_keys = replay(device, keys);
    let after_y = replay(after_keys, hat_y);
    let after_x = replay(after_y, hat_x);
    let end = seq![report_end()];
    lemma_replay_keys(device, buttons(), old_flags, new_flags);
    lemma_replay_joined(device, keys, hat_y);
    lemma_replay_joined(device, keys + hat_y, hat_x);
    lemma_replay_joined(device, keys + hat_y + hat_x, end);
    assert(end.drop_last() =~= Seq::<InputEvent>::empty());
    assert(replay(after_x, end) == shown_after(replay(after_x, end.drop_last()), end.last()));
    if hat_y.len() > 0 {
        assert(hat_y.drop_last() =~= Seq::<InputEvent>::empty());
        assert(after_y == shown_after(replay(after_keys, hat_y.drop_last()), hat_y.last()));
    }
    if hat_x.len() > 0 {
        assert(hat_x.drop_last() =~= Seq::<InputEvent>::empty());
        assert(after_x == shown_after(replay(after_y, hat_x.drop_last()), hat_x.last()));
    }
    assert(after_keys.contains_pair(
        (EV_ABS, ABS_HAT0Y),
        hat_position(old_flags, DPAD_UP, DPAD_DOWN),
    ));
    assert(after_keys.contains_pair(
        (EV_ABS, ABS_HAT0X),
        hat_position(old_flags, DPAD_LEFT, DPAD_RIGHT),
    ));
    assert forall|i: int| 0 <= i < buttons().len() implies #[trigger] after_x.contains_pair(
        (EV_KEY, buttons()[i].1),
        key_event(buttons()[i].1, held(new_flags, buttons()[i].0)).value,
    ) by {
        assert(after_keys.contains_pair(
            (EV_KEY, buttons()[i].1),
            key_event(buttons()[i].1, held(new_flags, buttons()[i].0)).value,
        ));
    }
}

/// A report names a button only if it went down or came up, and names every
/// button that did, with its new state.
pub proof fn law_exactly_the_changed_buttons_are_reported(
    old_flags: u32,
    new_flags: u32,
    event: InputEvent,
)
    requires
        event.type_ == EV_KEY,
    ensures
        button_report(old_flags, new_flags).contains(event) <==> exists|i: int|
            0 <= i < buttons().len() && #[trigger] toggled(old_flags, new_flags, buttons()[i].0)
                && event == key_event(buttons()[i].1, held(new_flags, buttons()[i].0)),
{
    let keys = key_events(buttons(), old_flags, new_flags);
    let hat_y = hat_events(ABS_HAT0Y, DPAD_UP, DPAD_DOWN, old_flags, new_flags);
    let hat_x = hat_events(ABS_HAT0X, DPAD_LEFT, DPAD_RIGHT, old_flags, new_flags);
    let report = button_report(old_flags, new_flags);
    lemma_key_events(buttons(), old_flags, new_flags, event);
    if keys.contains(event) {
        let i = choose|i: int| 0 <= i < keys.len() && keys[i] == event;
        assert(report[i] == event);
    }
    if report.contains(event) {
        let i = choose|i: int| 0 <= i < report.len() && report[i] == event;
        assert(i < keys.len());
        assert(keys[i] == event);
    }
}

/// When no button changed, the report is empty but for its end.
pub proof fn law_unchanged_buttons_report_nothing(flags: u32)
    ensures
        button_report(flags, flags) == seq![report_end()],
{
    lemma_no_key_events(buttons(), flags);
    assert(button_report(flags, flags) =~= seq![report_end()]);
}

/// A report is closed once, at its end.
pub proof fn law_reports_are_closed_once(old_flags: u32, new_flags: u32, update: GamepadUpdate)
    ensures
        button_report(old_flags, new_flags).last() == report_end(),
        forall|i: int|
            0 <= i < button_report(old_flags, new_flags).len() - 1 ==> (#[trigger] button_report(
                old_flags,
                new_flags,
            )[i]).type_ != EV_SYN,
        axis_report(update).last() == report_end(),
        forall|i: int|
            0 <= i < axis_report(update).len() - 1 ==> (#[trigger] axis_report(update)[i]).type_
                != EV_SYN,
{
    let report = button_report(old_flags, new_flags);
    let keys = key_events(buttons(), old_flags, new_flags);
    lemma_key_events_are_keys(buttons(), old_flags, new_flags);
    assert forall|i: int| 0 <= i < report.len() - 1 implies (#[trigger] report[i]).type_
        != EV_SYN by {
        if i < keys.len() {
            assert(report[i] == keys[i]);
        }
    }
}

/// Whatever the pad reports was declared when it was set up.
pub proof fn law_every_event_was_declared(
    old_flags: u32,
    new_flags: u32,
    update: GamepadUpdate,
    event: InputEvent,
)
    requires
        button_report(old_flags, new_flags).contains(event) || axis_report(update).contains(event),
    ensures
        declared(event),
{
    let all = setup_requests();
    assert(all[0] == declare_type(EV_KEY));
    assert(all[1] == declare_type(EV_ABS));
    assert(all[2] == declare_type(EV_SYN));
    assert forall|i: int| 0 <= i < buttons().len() implies #[trigger] all.contains(
        declare_button(buttons()[i].1),
    ) by {
        assert(button_requests()[i] == declare_button(buttons()[i].1));
        assert(all[3 + i] == button_requests()[i]);
    }
    assert forall|i: int| 0 <= i < axes().len() implies #[trigger] all.contains(
        declare_axis(axes()[i].code),
    ) by {
        assert(axis_requests(axes())[2 * i] == declare_axis(axes()[(2 * i) / 2].code));
        assert(all[3 + buttons().len() + 2 * i] == axis_requests(axes())[2 * i]);
    }
    assert(axes()[0].code == ABS_HAT0X && axes()[1].code == ABS_HAT0Y);
    if event.type_ == EV_KEY {
        if button_report(old_flags, new_flags).contains(event) {
            law_exactly_the_changed_buttons_are_reported(old_flags, new_flags, event);
        }
    } else if button_report(old_flags, new_flags).contains(event) {
        let report = button_report(old_flags, new_flags);
        let keys = key_events(buttons(), old_flags, new_flags);
        lemma_key_events_are_keys(buttons(), old_flags, new_flags);
        let i = choose|i: int| 0 <= i < report.len() && report[i] == event;
        if i < keys.len() {
            assert(report[i] == keys[i]);
        }
        assert(all.contains(declare_axis(axes()[0].code)));
        assert(all.contains(declare_axis(axes()[1].code)));
    } else {
        let i = choose|i: int| 0 <= i < axis_report(update).len() && axis_report(update)[i] == event;
        assert(all.contains(declare_axis(axes()[2].code)));
        assert(all.contains(declare_axis(axes()[3].code)));
        assert(all.contains(declare_axis(axes()[4].code)));
        assert(all.contains(declare_axis(axes()[5].code)));
        assert(all.contains(declare_axis(axes()[6].code)));
        assert(all.contains(declare_axis(axes()[7].code)));
    }
}

/// An axis is reported within the range that was declared for it, except that a
/// stick pulled all the way down, turned over, is one past its range.
pub proof fn law_axes_stay_in_range(
    old_flags: u32,
    new_flags: u32,
    update: GamepadUpdate,
    event: InputEvent,
    i: int,
)
    requires
        button_report(old_flags, new_flags).contains(event) || axis_report(update).contains(event),
        event.type_ == EV_ABS,
        0 <= i < axes().len(),
        axes()[i].code == event.code,
        event.code == ABS_Y ==> update.left_stick.1 != i16::MIN,
        event.code == ABS_RY ==> update.right_stick.1 != i16::MIN,
    ensures
        axes()[i].minimum <= event.value <= axes()[i].maximum,
{
    if button_report(old_flags, new_flags).contains(event) {
        let report = button_report(old_flags, new_flags);
        let keys = key_events(buttons(), old_flags, new_flags);
        lemma_key_events_are_keys(buttons(), old_flags, new_flags);
        let k = choose|k: int| 0 <= k < report.len() && report[k] == event;
        if k < keys.len() {
            assert(report[k] == keys[k]);
        }
    }
}

/// The device is created last, after everything it has was declared.
pub proof fn law_creation_comes_last()
    ensures
        setup_requests().last() == create_device(),
        forall|i: int|
            0 <= i < setup_requests().len() - 1 ==> #[trigger] setup_requests()[i]
                != create_device(),
{
    let all = setup_requests();
    assert forall|i: int| 0 <= i < all.len() - 1 implies #[trigger] all[i] != create_device() by {
        let b = buttons().len() as int;
        if 3 <= i < 3 + b {
            assert(all[i] == button_requests()[i - 3]);
        } else if 3 + b <= i < 3 + b + 2 * axes().len() {
            assert(all[i] == axis_requests(axes())[i - 3 - b]);
        }
    }
}

/// Each axis is declared just before its range.
pub proof fn law_ranges_follow_their_axes(i: int)
    requires
        0 <= i < axes().len(),
    ensures
        setup_requests()[3 + buttons().len() + 2 * i] == declare_axis(axes()[i].code),
        setup_requests()[3 + buttons().len() + 2 * i + 1] == declare_range(axes()[i]),
{
    let all = setup_requests();
    let b = 3 + buttons().len();
    assert(axis_requests(axes())[2 * i] == declare_axis(axes()[(2 * i) / 2].code));
    assert(axis_requests(axes())[2 * i + 1] == declare_range(axes()[(2 * i + 1) / 2]));
    assert(all[b + 2 * i] == axis_requests(axes())[2 * i]);
    assert(all[b + 2 * i + 1] == axis_requests(axes())[2 * i + 1]);
}

/// Of any two requests for unsupported features on one pad, at most one gives a
/// warning.
pub proof fn law_one_warning_at_most(
    first: Gamepad,
    second: Gamepad,
    third: Gamepad,
    what: Seq<char>,
    other: Seq<char>,
    warning: Option<String>,
    later: Option<String>,
)
    requires
        first.warns(second, what, warning),
        second.warns(third, other, later),
    ensures
        later is None,
{
}

/// Type, code and value stand at their places in the record of an event, and
/// the time is zero.
pub proof fn law_event_record_layout(event: InputEvent)
    ensures
        event.record().len() == INPUT_EVENT_SIZE,
        forall|i: int| 0 <= i < 16 ==> event.record()[i] == 0,
        u16_at(event.record(), 16) == event.type_,
        u16_at(event.record(), 18) == event.code,
        u32_at(event.record(), 20) == word32(event.value),
        holds_word(event.record(), 16, event.type_ as int),
        holds_word(event.record(), 18, event.code as int),
        holds_integer(event.record(), 20, event.value as int),
{
    let record = event.record();
    let word = word32(event.value);
    let low = (word % 0x1_0000) as u16;
    let high = (word / 0x1_0000) as u16;
    assert(record[16] == u16_bytes(event.type_)[0]);
    assert(record[17] == u16_bytes(event.type_)[1]);
    assert(record[18] == u16_bytes(event.code)[0]);
    assert(record[19] == u16_bytes(event.code)[1]);
    assert(record[20] == u16_bytes(low)[0]);
    assert(record[21] == u16_bytes(low)[1]);
    assert(record[22] == u16_bytes(high)[0]);
    assert(record[23] == u16_bytes(high)[1]);
    lemma_holds_integer(record, 20, event.value);
}

proof fn lemma_replay_joined(device: Shown, first: Seq<InputEvent>, second: Seq<InputEvent>)
    ensures
        replay(device, first + second) == replay(replay(device, first), second),
    decreases second.len(),
{
    if second.len() == 0 {
        assert(first + second =~= first);
    } else {
        lemma_replay_joined(device, first, second.drop_last());
        assert((first + second).drop_last() =~= first + second.drop_last());
        assert((first + second).last() == second.last());
    }
}

proof fn lemma_replay_keys(
    device: Shown,
    list: Seq<(u32, u16)>,
    old_flags: u32,
    new_flags: u32,
)
    requires
        forall|i: int, j: int| 0 <= i < j < list.len() ==> list[i].1 != list[j].1,
        forall|i: int|
            0 <= i < list.len() ==> device.contains_pair(
                (EV_KEY, (#[trigger] list[i]).1),
                key_event(list[i].1, held(old_flags, list[i].0)).value,
            ),
    ensures
        forall|i: int|
            0 <= i < list.len() ==> replay(
                device,
                key_events(list, old_flags, new_flags),
            ).contains_pair(
                (EV_KEY, (#[trigger] list[i]).1),
                key_event(list[i].1, held(new_flags, list[i].0)).value,
            ),
        forall|key: (u16, u16), value: i32| #[trigger]
            device.contains_pair(key, value) && (forall|i: int|
                0 <= i < list.len() ==> key != (EV_KEY, (#[trigger] list[i]).1)) ==> replay(
                device,
                key_events(list, old_flags, new_flags),
            ).contains_pair(key, value),
    decreases list.len(),
{
    if list.len() > 0 {
        let shorter = list.drop_last();
        lemma_replay_keys(device, shorter, old_flags, new_flags);
        let (flag, code) = list.last();
        let earlier = key_events(shorter, old_flags, new_flags);
        let before = replay(device, earlier);
        let all = key_events(list, old_flags, new_flags);
        let after = replay(device, all);
        if toggled(old_flags, new_flags, flag) {
            assert(all.drop_last() =~= earlier);
        }
        assert forall|i: int| 0 <= i < list.len() implies after.contains_pair(
            (EV_KEY, (#[trigger] list[i]).1),
            key_event(list[i].1, held(new_flags, list[i].0)).value,
        ) by {
            if i < list.len() - 1 {
                assert(shorter[i] == list[i]);
            } else {
                assert(device.contains_pair(
                    (EV_KEY, list[i].1),
                    key_event(list[i].1, held(old_flags, list[i].0)).value,
                ));
                assert forall|j: int| 0 <= j < shorter.len() implies (EV_KEY, list[i].1) != (
                    EV_KEY,
                    (#[trigger] shorter[j]).1,
                ) by {
                    assert(shorter[j] == list[j]);
                }
            }
        }
        assert forall|key: (u16, u16), value: i32| #[trigger]
            device.contains_pair(key, value) && (forall|i: int|
                0 <= i < list.len() ==> key != (EV_KEY, (#[trigger] list[i]).1)) implies after.contains_pair(
        key, value) by {
            assert forall|j: int| 0 <= j < shorter.len() implies key != (
                EV_KEY,
                (#[trigger] shorter[j]).1,
            ) by {
                assert(shorter[j] == list[j]);
            }
            assert(key != (EV_KEY, list[list.len() - 1].1));
        }
    }
}

proof fn lemma_key_events(
    list: Seq<(u32, u16)>,
    old_flags: u32,
    new_flags: u32,
    event: InputEvent,
)
    ensures
        key_events(list, old_flags, new_flags).contains(event) <==> exists|i: int|
            0 <= i < list.len() && #[trigger] toggled(old_flags, new_flags, list[i].0) && event
                == key_event(list[i].1, held(new_flags, list[i].0)),
    decreases list.len(),
{
    if list.len() > 0 {
        let shorter = list.drop_last();
        let earlier = key_events(shorter, old_flags, new_flags);
        let all = key_events(list, old_flags, new_flags);
        lemma_key_events(shorter, old_flags, new_flags, event);
        let n = list.len() - 1;
        let (flag, code) = list.last();
        if all.contains(event) {
            let k = choose|k: int| 0 <= k < all.len() && all[k] == event;
            if k < earlier.len() {
                assert(earlier[k] == event);
                let i = choose|i: int|
                    0 <= i < shorter.len() && #[trigger] toggled(old_flags, new_flags, shorter[i].0)
                        && event == key_event(shorter[i].1, held(new_flags, shorter[i].0));
                assert(toggled(old_flags, new_flags, list[i].0));
            } else {
                assert(toggled(old_flags, new_flags, list[n].0));
            }
        }
        if exists|i: int|
            0 <= i < list.len() && #[trigger] toggled(old_flags, new_flags, list[i].0) && event
                == key_event(list[i].1, held(new_flags, list[i].0)) {
            let i = choose|i: int|
                0 <= i < list.len() && #[trigger] toggled(old_flags, new_flags, list[i].0) && event
                    == key_event(list[i].1, held(new_flags, list[i].0));
            if i < n {
                assert(toggled(old_flags, new_flags, shorter[i].0));
                let k = choose|k: int| 0 <= k < earlier.len() && earlier[k] == event;
                assert(all[k] == event);
            } else {
                assert(all[all.len() - 1] == event);
            }
        }
    }
}

proof fn lemma_no_key_events(list: Seq<(u32, u16)>, flags: u32)
    ensures
        key_events(list, flags, flags).len() == 0,
    decreases list.len(),
{
    if list.len() > 0 {
        lemma_no_key_events(list.drop_last(), flags);
    }
}

proof fn lemma_key_events_are_keys(list: Seq<(u32, u16)>, old_flags: u32, new_flags: u32)
    ensures
        forall|i: int|
            0 <= i < key_events(list, old_flags, new_flags).len() ==> (#[trigger] key_events(
                list,
                old_flags,
                new_flags,
            )[i]).type_ == EV_KEY,
    decreases list.len(),
{
    if list.len() > 0 {
        let earlier = key_events(list.drop_last(), old_flags, new_flags);
        let all = key_events(list, old_flags, new_flags);
        lemma_key_events_are_keys(list.drop_last(), old_flags, new_flags);
        assert forall|i: int| 0 <= i < all.len() implies (#[trigger] all[i]).type_ == EV_KEY by {
            if i < earlier.len() {
                assert(all[i] == earlier[i]);
            }
        }
    }
}

/// Whether a report holds an event for a button exactly when the button's flag
/// differs between what was held and what is held, with one for held.
pub open spec fn drives(old_flags: u32, new_flags: u32, flag: u32, code: u16, value: i32) -> bool {
    button_report(old_flags, new_flags).contains(InputEvent { type_: 1, code, value }) <==> (
    old_flags & flag != 0) != (new_flags & flag != 0) && value == (if new_flags & flag != 0 {
        1int
    } else {
        0int
    })
}

/// Each flag of the client drives the evdev button of its own name: start,
/// select, both sticks, both shoulders, mode, and the four face buttons. No
/// other button is ever reported.
pub proof fn law_each_flag_drives_its_button(old_flags: u32, new_flags: u32, value: i32, code: u16)
    ensures
        drives(old_flags, new_flags, 0x0010, 0x13b, value),
        drives(old_flags, new_flags, 0x0020, 0x13a, value),
        drives(old_flags, new_flags, 0x0040, 0x13d, value),
        drives(old_flags, new_flags, 0x0080, 0x13e, value),
        drives(old_flags, new_flags, 0x0100, 0x136, value),
        drives(old_flags, new_flags, 0x0200, 0x137, value),
        drives(old_flags, new_flags, 0x0400, 0x13c, value),
        drives(old_flags, new_flags, 0x1000, 0x130, value),
        drives(old_flags, new_flags, 0x2000, 0x131, value),
        drives(old_flags, new_flags, 0x4000, 0x133, value),
        drives(old_flags, new_flags, 0x8000, 0x134, value),
        button_report(old_flags, new_flags).contains(InputEvent { type_: 1, code, value }) ==> (
        0x130 <= code <= 0x131 || 0x133 <= code <= 0x134 || 0x136 <= code <= 0x137 || 0x13a <= code
            <= 0x13e),
{
    lemma_button_drives(old_flags, new_flags, 0, value);
    lemma_button_drives(old_flags, new_flags, 1, value);
    lemma_button_drives(old_flags, new_flags, 2, value);
    lemma_button_drives(old_flags, new_flags, 3, value);
    lemma_button_drives(old_flags, new_flags, 4, value);
    lemma_button_drives(old_flags, new_flags, 5, value);
    lemma_button_drives(old_flags, new_flags, 6, value);
    lemma_button_drives(old_flags, new_flags, 7, value);
    lemma_button_drives(old_flags, new_flags, 8, value);
    lemma_button_drives(old_flags, new_flags, 9, value);
    lemma_button_drives(old_flags, new_flags, 10, value);
    law_exactly_the_changed_buttons_are_reported(
        old_flags,
        new_flags,
        InputEvent { type_: 1, code, value },
    );
}

proof fn lemma_button_drives(old_flags: u32, new_flags: u32, i: int, value: i32)
    requires
        0 <= i < buttons().len(),
    ensures
        drives(old_flags, new_flags, buttons()[i].0, buttons()[i].1, value),
{
    let (flag, code) = buttons()[i];
    let event = InputEvent { type_: 1, code, value };
    law_exactly_the_changed_buttons_are_reported(old_flags, new_flags, event);
    assert(toggled(old_flags, new_flags, buttons()[i].0) == ((old_flags & flag != 0) != (new_flags
        & flag != 0)));
    assert forall|j: int| 0 <= j < buttons().len() && (#[trigger] buttons()[j]).1 == code implies j
        == i by {}
}

/// The dpad drives the hats: up and down the vertical one, left and right the
/// horizontal one, up and left as minus one, up winning over down and left over
/// right. A hat is reported exactly when one of its two buttons changed, and no
/// other axis is reported with the buttons.
pub proof fn law_the_dpad_drives_the_hats(old_flags: u32, new_flags: u32, value: i32, code: u16)
    ensures
        button_report(old_flags, new_flags).contains(InputEvent { type_: 3, code: 0x11, value })
            <==> ((old_flags & 1 != 0) != (new_flags & 1 != 0) || (old_flags & 2 != 0) != (new_flags
            & 2 != 0)) && value == (if new_flags & 1 != 0 {
            -1int
        } else if new_flags & 2 != 0 {
            1
        } else {
            0
        }),
        button_report(old_flags, new_flags).contains(InputEvent { type_: 3, code: 0x10, value })
            <==> ((old_flags & 4 != 0) != (new_flags & 4 != 0) || (old_flags & 8 != 0) != (new_flags
            & 8 != 0)) && value == (if new_flags & 4 != 0 {
            -1int
        } else if new_flags & 8 != 0 {
            1
        } else {
            0
        }),
        button_report(old_flags, new_flags).contains(InputEvent { type_: 3, code, value }) ==> code
            == 0x10 || code == 0x11,
{
    lemma_hat(old_flags, new_flags, 0x11, value);
    lemma_hat(old_flags, new_flags, 0x10, value);
    lemma_hat(old_flags, new_flags, code, value);
}

proof fn lemma_hat(old_flags: u32, new_flags: u32, code: u16, value: i32)
    ensures
        button_report(old_flags, new_flags).contains(axis_event(code, value)) <==> hat_events(
            ABS_HAT0Y,
            DPAD_UP,
            DPAD_DOWN,
            old_flags,
            new_flags,
        ).contains(axis_event(code, value)) || hat_events(
            ABS_HAT0X,
            DPAD_LEFT,
            DPAD_RIGHT,
            old_flags,
            new_flags,
        ).contains(axis_event(code, value)),
        forall|c: u16, n: u32, p: u32|
            (#[trigger] hat_events(c, n, p, old_flags, new_flags)).contains(axis_event(code, value))
                <==> code == c && (toggled(old_flags, new_flags, n) || toggled(
                old_flags,
                new_flags,
                p,
            )) && value == hat_position(new_flags, n, p),
{
    let event = axis_event(code, value);
    let keys = key_events(buttons(), old_flags, new_flags);
    let hat_y = hat_events(ABS_HAT0Y, DPAD_UP, DPAD_DOWN, old_flags, new_flags);
    let hat_x = hat_events(ABS_HAT0X, DPAD_LEFT, DPAD_RIGHT, old_flags, new_flags);
    let report = button_report(old_flags, new_flags);
    lemma_key_events_are_keys(buttons(), old_flags, new_flags);
    if report.contains(event) {
        let i = choose|i: int| 0 <= i < report.len() && report[i] == event;
        if i < keys.len() {
            assert(report[i] == keys[i]);
        } else if i < keys.len() + hat_y.len() {
            assert(hat_y[i - keys.len()] == event);
        } else if i < keys.len() + hat_y.len() + hat_x.len() {
            assert(hat_x[i - keys.len() - hat_y.len()] == event);
        }
    }
    if hat_y.contains(event) {
        assert(hat_y[0] == event);
        assert(report[keys.len() as int] == event);
    }
    if hat_x.contains(event) {
        assert(hat_x[0] == event);
        assert(report[(keys.len() + hat_y.len()) as int] == event);
    }
    assert forall|c: u16, n: u32, p: u32|
        (#[trigger] hat_events(c, n, p, old_flags, new_flags)).contains(event) <==> code == c && (
        toggled(old_flags, new_flags, n) || toggled(old_flags, new_flags, p)) && value
            == hat_position(new_flags, n, p) by {
        let events = hat_events(c, n, p, old_flags, new_flags);
        if toggled(old_flags, new_flags, n) || toggled(old_flags, new_flags, p) {
            assert(events.len() == 1);
            assert(events[0].value == hat_position(new_flags, n, p));
            if code == c && value == hat_position(new_flags, n, p) {
                assert(events[0] == event);
            }
        }
    }
}

/// No report names a control twice.
pub proof fn law_no_control_is_reported_twice(
    old_flags: u32,
    new_flags: u32,
    update: GamepadUpdate,
    i: int,
    j: int,
)
    ensures
        0 <= i < j < button_report(old_flags, new_flags).len() ==> {
            let a = button_report(old_flags, new_flags)[i];
            let b = button_report(old_flags, new_flags)[j];
            a.type_ != b.type_ || a.code != b.code
        },
        0 <= i < j < axis_report(update).len() ==> {
            let a = axis_report(update)[i];
            let b = axis_report(update)[j];
            a.type_ != b.type_ || a.code != b.code
        },
{
    let report = button_report(old_flags, new_flags);
    if 0 <= i < j < report.len() {
        let keys = key_events(buttons(), old_flags, new_flags);
        lemma_key_events_are_keys(buttons(), old_flags, new_flags);
        lemma_keys_are_distinct(buttons(), old_flags, new_flags);
        if i < keys.len() {
            assert(report[i] == keys[i]);
        }
        if j < keys.len() {
            assert(report[j] == keys[j]);
        }
    }
}

proof fn lemma_keys_are_distinct(list: Seq<(u32, u16)>, old_flags: u32, new_flags: u32)
    requires
        forall|i: int, j: int|
            0 <= i < j < list.len() ==> (#[trigger] list[i]).1 != (#[trigger] list[j]).1,
    ensures
        forall|i: int, j: int|
            0 <= i < j < key_events(list, old_flags, new_flags).len() ==> (#[trigger] key_events(
                list,
                old_flags,
                new_flags,
            )[i]).code != (#[trigger] key_events(list, old_flags, new_flags)[j]).code,
    decreases list.len(),
{
    if list.len() > 0 {
        let shorter = list.drop_last();
        let earlier = key_events(shorter, old_flags, new_flags);
        let all = key_events(list, old_flags, new_flags);
        assert forall|i: int, j: int| 0 <= i < j < shorter.len() implies (#[trigger] shorter[i]).1
            != (#[trigger] shorter[j]).1 by {
            assert(list[i].1 != list[j].1);
        }
        lemma_keys_are_distinct(shorter, old_flags, new_flags);
        assert forall|i: int, j: int| 0 <= i < j < all.len() implies (#[trigger] all[i]).code != (
        #[trigger] all[j]).code by {
            assert(all[i] == earlier[i]);
            if j < earlier.len() {
                assert(all[j] == earlier[j]);
            } else {
                lemma_key_events(shorter, old_flags, new_flags, earlier[i]);
                lemma_key_events_are_keys(shorter, old_flags, new_flags);
                assert(earlier.contains(earlier[i]));
                let k = choose|k: int|
                    0 <= k < shorter.len() && #[trigger] toggled(
                        old_flags,
                        new_flags,
                        shorter[k].0,
                    ) && earlier[i] == key_event(shorter[k].1, held(new_flags, shorter[k].0));
                assert(list[k].1 != list[list.len() - 1].1);
            }
        }
    }
}

/// Sticks and triggers are reported each on its axis and on no other: the left
/// stick on 0 and 1, the right one on 3 and 4, the left trigger on 2, the right
/// one on 5, with the vertical axes turned over.
pub proof fn law_each_control_drives_its_axis(update: GamepadUpdate, event: InputEvent)
    ensures
        axis_report(update).len() == 7,
        axis_report(update).contains(event) <==> {
            ||| event.type_ == 3 && event.code == 0 && event.value == update.left_stick.0
            ||| event.type_ == 3 && event.code == 1 && event.value == -update.left_stick.1
            ||| event.type_ == 3 && event.code == 3 && event.value == update.right_stick.0
            ||| event.type_ == 3 && event.code == 4 && event.value == -update.right_stick.1
            ||| event.type_ == 3 && event.code == 2 && event.value == update.left_trigger
            ||| event.type_ == 3 && event.code == 5 && event.value == update.right_trigger
            ||| event.type_ == 0 && event.code == 0 && event.value == 0
        },
{
    let report = axis_report(update);
    assert(report.contains(report[0]));
    assert(report.contains(report[1]));
    assert(report.contains(report[2]));
    assert(report.contains(report[3]));
    assert(report.contains(report[4]));
    assert(report.contains(report[5]));
    assert(report.contains(report[6]));
}

/// Whether the four bytes at `at` are an integer, least significant byte first.
pub open spec fn holds_integer(bytes: Seq<u8>, at: int, value: int) -> bool {
    (bytes[at] + 0x100 * bytes[at + 1] + 0x1_0000 * bytes[at + 2] + 0x100_0000 * bytes[at + 3]
        - value) % 0x1_0000_0000 == 0
}

/// Whether the two bytes at `at` are a word, least significant byte first.
pub open spec fn holds_word(bytes: Seq<u8>, at: int, word: int) -> bool {
    bytes[at] + 0x100 * bytes[at + 1] == word
}

/// Whether a record hands in a range for an axis: its code, two bytes of padding,
/// no value, the bounds, the fuzz, the flat zone, no resolution.
pub open spec fn is_range(
    bytes: Seq<u8>,
    code: int,
    minimum: int,
    maximum: int,
    fuzz: int,
    flat: int,
) -> bool {
    &&& bytes.len() == 28
    &&& holds_word(bytes, 0, code)
    &&& holds_word(bytes, 2, 0)
    &&& holds_integer(bytes, 4, 0)
    &&& holds_integer(bytes, 8, minimum)
    &&& holds_integer(bytes, 12, maximum)
    &&& holds_integer(bytes, 16, fuzz)
    &&& holds_integer(bytes, 20, flat)
    &&& holds_integer(bytes, 24, 0)
}

/// The record of an axis holds its fields at their places, whatever they are.
pub proof fn law_range_record_layout(setup: UinputAbsSetup)
    ensures
        setup.record().len() == 28,
        holds_word(setup.record(), 0, setup.code as int),
        holds_word(setup.record(), 2, 0),
        holds_integer(setup.record(), 4, setup.absinfo.value as int),
        holds_integer(setup.record(), 8, setup.absinfo.minimum as int),
        holds_integer(setup.record(), 12, setup.absinfo.maximum as int),
        holds_integer(setup.record(), 16, setup.absinfo.fuzz as int),
        holds_integer(setup.record(), 20, setup.absinfo.flat as int),
        holds_integer(setup.record(), 24, setup.absinfo.resolution as int),
{
    let record = setup.record();
    let info = setup.absinfo;
    assert(record[0] == u16_bytes(setup.code)[0] && record[1] == u16_bytes(setup.code)[1]);
    lemma_holds_integer(record, 4, info.value);
    lemma_holds_integer(record, 8, info.minimum);
    lemma_holds_integer(record, 12, info.maximum);
    lemma_holds_integer(record, 16, info.fuzz);
    lemma_holds_integer(record, 20, info.flat);
    lemma_holds_integer(record, 24, info.resolution);
}

/// The record of a device holds identity, name and number of effects at their
/// places, whatever they are.
pub proof fn law_device_record_layout(setup: UinputSetup)
    requires
        setup.wf(),
    ensures
        setup.record().len() == 92,
        holds_word(setup.record(), 0, setup.id.bustype as int),
        holds_word(setup.record(), 2, setup.id.vendor as int),
        holds_word(setup.record(), 4, setup.id.product as int),
        holds_word(setup.record(), 6, setup.id.version as int),
        forall|i: int| 0 <= i < 80 ==> setup.record()[8 + i] == #[trigger] setup.name@[i],
        holds_integer(setup.record(), 88, setup.ff_effects_max as int),
{
    let record = setup.record();
    let id = setup.id;
    assert(record[0] == u16_bytes(id.bustype)[0] && record[1] == u16_bytes(id.bustype)[1]);
    assert(record[2] == u16_bytes(id.vendor)[0] && record[3] == u16_bytes(id.vendor)[1]);
    assert(record[4] == u16_bytes(id.product)[0] && record[5] == u16_bytes(id.product)[1]);
    assert(record[6] == u16_bytes(id.version)[0] && record[7] == u16_bytes(id.version)[1]);
    let bytes = u32_bytes(setup.ff_effects_max);
    let low = (setup.ff_effects_max % 0x1_0000) as u16;
    let high = (setup.ff_effects_max / 0x1_0000) as u16;
    assert(record[88] == bytes[0] && record[89] == bytes[1] && record[90] == bytes[2] && record[91]
        == bytes[3]);
    assert(bytes[0] == u16_bytes(low)[0] && bytes[1] == u16_bytes(low)[1]);
    assert(bytes[2] == u16_bytes(high)[0] && bytes[3] == u16_bytes(high)[1]);
}

proof fn lemma_holds_integer(record: Seq<u8>, at: int, value: i32)
    requires
        record[at] == i32_bytes(value)[0],
        record[at + 1] == i32_bytes(value)[1],
        record[at + 2] == i32_bytes(value)[2],
        record[at + 3] == i32_bytes(value)[3],
    ensures
        holds_integer(record, at, value as int),
{
    let bytes = i32_bytes(value);
    let word = word32(value);
    let low = (word % 0x1_0000) as u16;
    let high = (word / 0x1_0000) as u16;
    assert(bytes[0] == u16_bytes(low)[0] && bytes[1] == u16_bytes(low)[1]);
    assert(bytes[2] == u16_bytes(high)[0] && bytes[3] == u16_bytes(high)[1]);
}

/// Whether a request of the setup declares an axis, and the next one hands in its
/// range.
#[verifier::opaque]
pub open spec fn declares_axis(
    at: int,
    code: int,
    minimum: int,
    maximum: int,
    fuzz: int,
    flat: int,
) -> bool {
    &&& setup_requests()[at].number == 0x2004_5567
    &&& setup_requests()[at].argument matches ArgumentView::Int(declared) && declared == code
    &&& setup_requests()[at + 1].number == 0x801c_5504
    &&& setup_requests()[at + 1].argument matches ArgumentView::Record(bytes) && is_range(
        bytes,
        code,
        minimum,
        maximum,
        fuzz,
        flat,
    )
}

/// Each axis is declared with the range of what is reported on it: the hats from
/// -1 to 1, the sticks over all 16-bit integers with some fuzz and a flat zone,
/// the triggers from 0 to 255. There are 32 requests in all.
pub proof fn law_each_axis_has_its_range()
    ensures
        setup_requests().len() == 32,
        declares_axis(14, 0x10, -1, 1, 0, 0),
        declares_axis(16, 0x11, -1, 1, 0, 0),
        declares_axis(18, 0x00, -32768, 32767, 16, 128),
        declares_axis(20, 0x01, -32768, 32767, 16, 128),
        declares_axis(22, 0x03, -32768, 32767, 16, 128),
        declares_axis(24, 0x04, -32768, 32767, 16, 128),
        declares_axis(26, 0x02, 0, 255, 0, 0),
        declares_axis(28, 0x05, 0, 255, 0, 0),
{
    lemma_declares(0);
    lemma_declares(1);
    lemma_declares(2);
    lemma_declares(3);
    lemma_declares(4);
    lemma_declares(5);
    lemma_declares(6);
    lemma_declares(7);
}

proof fn lemma_declares(i: int)
    requires
        0 <= i < axes().len(),
    ensures
        ({
            let axis = axes()[i];
            declares_axis(
                14 + 2 * i,
                axis.code as int,
                axis.minimum as int,
                axis.maximum as int,
                axis.fuzz as int,
                axis.flat as int,
            )
        }),
{
    reveal(declares_axis);
    law_ranges_follow_their_axes(i);
    law_range_record_layout(axes()[i].setup());
}

/// Both bounds of a trigger's range are reported: by a trigger that is let go and
/// by one that is pulled all the way, whatever else is held.
pub proof fn law_trigger_ranges_are_used_up(update: GamepadUpdate)
    ensures
        axis_report(GamepadUpdate { left_trigger: 0, ..update }).contains(axis_event(2, 0)),
        axis_report(GamepadUpdate { left_trigger: 255, ..update }).contains(axis_event(2, 255)),
        axis_report(GamepadUpdate { right_trigger: 0, ..update }).contains(axis_event(5, 0)),
        axis_report(GamepadUpdate { right_trigger: 255, ..update }).contains(axis_event(5, 255)),
{
    law_each_control_drives_its_axis(
        GamepadUpdate { left_trigger: 0, ..update },
        axis_event(2, 0),
    );
    law_each_control_drives_its_axis(
        GamepadUpdate { left_trigger: 255, ..update },
        axis_event(2, 255),
    );
    law_each_control_drives_its_axis(
        GamepadUpdate { right_trigger: 0, ..update },
        axis_event(5, 0),
    );
    law_each_control_drives_its_axis(
        GamepadUpdate { right_trigger: 255, ..update },
        axis_event(5, 255),
    );
}

/// Event types, buttons and identity are handed in under the system's request
/// numbers: keys, axes and reports; then the eleven buttons; at the end the
/// device's identity and its creation.
pub proof fn law_types_buttons_and_identity_are_declared()
    ensures
        setup_requests()[0] == (RequestView { number: 0x2004_5564, argument: ArgumentView::Int(1) }),
        setup_requests()[1] == (RequestView { number: 0x2004_5564, argument: ArgumentView::Int(3) }),
        setup_requests()[2] == (RequestView { number: 0x2004_5564, argument: ArgumentView::Int(0) }),
        forall|i: int|
            3 <= i < 14 ==> (#[trigger] setup_requests()[i]).number == 0x2004_5565
                && setup_requests()[i].argument is Int,
        setup_requests()[3].argument == ArgumentView::Int(0x13b),
        setup_requests()[4].argument == ArgumentView::Int(0x13a),
        setup_requests()[5].argument == ArgumentView::Int(0x13d),
        setup_requests()[6].argument == ArgumentView::Int(0x13e),
        setup_requests()[7].argument == ArgumentView::Int(0x136),
        setup_requests()[8].argument == ArgumentView::Int(0x137),
        setup_requests()[9].argument == ArgumentView::Int(0x13c),
        setup_requests()[10].argument == ArgumentView::Int(0x130),
        setup_requests()[11].argument == ArgumentView::Int(0x131),
        setup_requests()[12].argument == ArgumentView::Int(0x133),
        setup_requests()[13].argument == ArgumentView::Int(0x134),
        setup_requests()[30].number == 0x805c_5503,
        setup_requests()[30].argument matches ArgumentView::Record(bytes) && bytes.len() == 92
            && holds_word(bytes, 0, 3) && holds_word(bytes, 2, 0x045e) && holds_word(
            bytes,
            4,
            0x02dd,
        ) && holds_word(bytes, 6, 0x0100) && holds_integer(bytes, 88, 0),
        setup_requests()[31] == (RequestView {
            number: 0x2000_5501,
            argument: ArgumentView::Nothing,
        }),
{
    let all = setup_requests();
    assert forall|i: int| 3 <= i < 14 implies (#[trigger] all[i]) == declare_button(
        buttons()[i - 3].1,
    ) by {
        assert(all[i] == button_requests()[i - 3]);
    }
    assert(all[30] == declare_device());
    let bytes = identity().record() + padded_name() + u32_bytes(0);
    let id = identity();
    assert(bytes[0] == u16_bytes(id.bustype)[0] && bytes[1] == u16_bytes(id.bustype)[1]);
    assert(bytes[2] == u16_bytes(id.vendor)[0] && bytes[3] == u16_bytes(id.vendor)[1]);
    assert(bytes[4] == u16_bytes(id.product)[0] && bytes[5] == u16_bytes(id.product)[1]);
    assert(bytes[6] == u16_bytes(id.version)[0] && bytes[7] == u16_bytes(id.version)[1]);
    assert(bytes[88] == 0 && bytes[89] == 0 && bytes[90] == 0 && bytes[91] == 0);
}

/// A warning names the gamepad by its number and says what is not supported.
pub proof fn law_warnings_name_the_gamepad(index: u8, what: Seq<char>)
    ensures
        ({
            let text = unsupported_warning(index, what);
            let rest = text.skip(8);
            let digits = written(index as nat, 10);
            &&& text.take(8) == "Gamepad "@
            &&& worth(digits, 10) == index
            &&& rest == digits + " "@ + what
                + " not supported by the FreeBSD backend (core pad only)."@
        }),
{
    reveal_strlit("Gamepad ");
    law_written_numbers_read_back(index as nat, 10);
    let text = unsupported_warning(index, what);
    assert(text.take(8) =~= "Gamepad "@);
    assert(text.skip(8) =~= written(index as nat, 10) + " "@ + what
        + " not supported by the FreeBSD backend (core pad only)."@);
}

/// Taking requests as what they ask for loses none of them and changes none.
pub proof fn law_views_are_those_of_the_requests(requests: Seq<Request>)
    ensures
        views(requests).len() == requests.len(),
        forall|i: int|
            0 <= i < requests.len() ==> (#[trigger] views(requests)[i]).number == requests[i].number,
        forall|i: int|
            0 <= i < requests.len() ==> match requests[i].argument {
                Argument::Nothing => (#[trigger] views(requests)[i]).argument
                    == ArgumentView::Nothing,
                Argument::Int(value) => views(requests)[i].argument == ArgumentView::Int(value),
                Argument::Record(bytes) => views(requests)[i].argument == ArgumentView::Record(
                    bytes@,
                ),
            },
{
}

/// A pad warns of the first request for something that it does not have, and of
/// none after it. Its number and its buttons stay as they are.
pub proof fn law_the_first_request_is_warned_of(
    first: Gamepad,
    second: Gamepad,
    what: Seq<char>,
    warning: Option<String>,
)
    requires
        first.warns(second, what, warning),
    ensures
        !first.warned ==> (warning matches Some(text) && text@ == unsupported_warning(
            first.index,
            what,
        )),
        first.warned ==> warning is None,
        second.warned && second.index == first.index && second.pressed == first.pressed,
{
}

/// The name of the pad stands in its record character by character, and zeros fill
/// what is left, of which there is always some.
pub proof fn law_the_name_is_handed_in(bytes: Seq<u8>, i: int)
    requires
        setup_requests()[30].argument == ArgumentView::Record(bytes),
        0 <= i < 80,
    ensures
        bytes.len() == 92,
        "Moonshine "@.len() == 10 && "XOne controller"@.len() == 15,
        i < 10 ==> bytes[8 + i] == "Moonshine "@[i] as u8,
        10 <= i < 25 ==> bytes[8 + i] == "XOne controller"@[i - 10] as u8,
        25 <= i ==> bytes[8 + i] == 0,
{
    reveal_strlit("Moonshine XOne controller");
    reveal_strlit("Moonshine ");
    reveal_strlit("XOne controller");
    assert(setup_requests()[30] == declare_device());
    let record = identity().record() + padded_name() + u32_bytes(0);
    assert(identity().record().len() == 8);
    assert(record[8 + i] == padded_name()[i]);
    assert("Moonshine XOne controller"@ =~= "Moonshine "@ + "XOne controller"@);
}

/// The place that an event has in a report of buttons: the buttons in the order in
/// which they were declared, the vertical hat, the horizontal one, the end.
pub open spec fn place(event: InputEvent) -> int {
    if event.type_ == 1 {
        place_of_button(event.code)
    } else if event.type_ == 3 {
        if event.code == 0x11 {
            11
        } else {
            12
        }
    } else {
        13
    }
}

/// The place of a button among the buttons.
pub open spec fn place_of_button(code: u16) -> int {
    if code == 0x13b {
        0
    } else if code == 0x13a {
        1
    } else if code == 0x13d {
        2
    } else if code == 0x13e {
        3
    } else if code == 0x136 {
        4
    } else if code == 0x137 {
        5
    } else if code == 0x13c {
        6
    } else if code == 0x130 {
        7
    } else if code == 0x131 {
        8
    } else if code == 0x133 {
        9
    } else {
        10
    }
}

/// Events stand in a report in the order of their places.
pub proof fn law_reports_are_in_order(old_flags: u32, new_flags: u32, i: int, j: int)
    requires
        0 <= i < j < button_report(old_flags, new_flags).len(),
    ensures
        place(button_report(old_flags, new_flags)[i]) < place(
            button_report(old_flags, new_flags)[j],
        ),
{
    let report = button_report(old_flags, new_flags);
    let keys = key_events(buttons(), old_flags, new_flags);
    lemma_key_events_are_keys(buttons(), old_flags, new_flags);
    lemma_keys_are_in_order(buttons(), old_flags, new_flags);
    if i < keys.len() {
        assert(report[i] == keys[i]);
    }
    if j < keys.len() {
        assert(report[j] == keys[j]);
    }
}

proof fn lemma_keys_are_in_order(list: Seq<(u32, u16)>, old_flags: u32, new_flags: u32)
    requires
        forall|i: int, j: int|
            0 <= i < j < list.len() ==> place_of_button((#[trigger] list[i]).1) < place_of_button(
                (#[trigger] list[j]).1,
            ),
    ensures
        forall|i: int, j: int|
            0 <= i < j < key_events(list, old_flags, new_flags).len() ==> place_of_button(
                (#[trigger] key_events(list, old_flags, new_flags)[i]).code,
            ) < place_of_button((#[trigger] key_events(list, old_flags, new_flags)[j]).code),
    decreases list.len(),
{
    if list.len() > 0 {
        let shorter = list.drop_last();
        let earlier = key_events(shorter, old_flags, new_flags);
        let all = key_events(list, old_flags, new_flags);
        assert forall|i: int, j: int| 0 <= i < j < shorter.len() implies place_of_button(
            (#[trigger] shorter[i]).1,
        ) < place_of_button((#[trigger] shorter[j]).1) by {
            assert(place_of_button(list[i].1) < place_of_button(list[j].1));
        }
        lemma_keys_are_in_order(shorter, old_flags, new_flags);
        assert forall|i: int, j: int| 0 <= i < j < all.len() implies place_of_button(
            (#[trigger] all[i]).code,
        ) < place_of_button((#[trigger] all[j]).code) by {
            assert(all[i] == earlier[i]);
            if j < earlier.len() {
                assert(all[j] == earlier[j]);
            } else {
                lemma_key_events(shorter, old_flags, new_flags, earlier[i]);
                assert(earlier.contains(earlier[i]));
                let k = choose|k: int|
                    0 <= k < shorter.len() && #[trigger] toggled(
                        old_flags,
                        new_flags,
                        shorter[k].0,
                    ) && earlier[i] == key_event(shorter[k].1, held(new_flags, shorter[k].0));
                assert(place_of_button(list[k].1) < place_of_button(list[list.len() - 1].1));
            }
        }
    }
}

} // verus!
