use pointer_input::dom::{
    deliver_notification, pointer_type_from_tag, translate_coalesced, translate_pointer_event,
    DomPointerSample,
};
use pointer_input::event::{
    LogicalPosition, LogicalSize, ModifiersState, PointerButton, PointerPhase, PointerType, Ratio,
    WindowEvent,
};
use pointer_input::history::{
    classify_native_type, get_pointer_coalesced_events, logical_coordinate, normalize_pen,
    normalize_touch, take_reported, ClientPoint, ContactRect, DpiScale, NativePointerKind,
    PointerHistory, RawPenSample, RawTouchSample, PEN_MASK_PRESSURE, PEN_MASK_ROTATION,
    PEN_MASK_TILT_X, PEN_MASK_TILT_Y, PT_MOUSE, PT_PEN, PT_POINTER, PT_TOUCH, PT_TOUCHPAD,
    TOUCH_MASK_CONTACTAREA, TOUCH_MASK_ORIENTATION, TOUCH_MASK_PRESSURE,
};
use pointer_input::sink::EventSink;

fn no_mods() -> ModifiersState {
    ModifiersState { shift: false, ctrl: false, alt: false, logo: false }
}

fn r(num: i64, den: u64) -> Ratio {
    Ratio { num, den }
}

fn zero() -> Ratio {
    r(0, 1)
}

fn touch(mask: u32) -> RawTouchSample {
    RawTouchSample {
        location: ClientPoint { x: 30, y: -12 },
        touch_mask: mask,
        contact: ContactRect { left: 10, top: 40, right: 4, bottom: 52 },
        orientation: 90,
        pressure: 512,
    }
}

fn pen(mask: u32) -> RawPenSample {
    RawPenSample {
        location: ClientPoint { x: 9, y: 6 },
        pen_flags: 0,
        pen_mask: mask,
        pressure: 1024,
        rotation: 180,
        tilt_x: -45,
        tilt_y: 30,
    }
}

fn dom(id: u32, tag: &str) -> DomPointerSample {
    DomPointerSample {
        pointer_id: id,
        offset_x: r(5, 2),
        offset_y: r(7, 1),
        modifiers: ModifiersState { shift: true, ctrl: false, alt: true, logo: false },
        is_primary: true,
        pointer_type: tag.to_string(),
        width: r(3, 1),
        height: r(4, 1),
        pressure: r(1, 2),
        tangential_pressure: r(1, 4),
        tilt_x: 45,
        tilt_y: -90,
        twist: 90,
    }
}

const SCALE: DpiScale = DpiScale { num: 3, den: 2 };

#[test]
fn touch_without_capabilities_takes_defaults() {
    let e = normalize_touch(7, no_mods(), SCALE, PointerPhase::Move, &touch(0));
    assert_eq!(e.pressure, zero());
    assert_eq!(e.twist, zero());
    assert_eq!(e.size, LogicalSize { width: zero(), height: zero() });
    assert_eq!(e.tilt_x, zero());
    assert_eq!(e.tilt_y, zero());
    assert_eq!(e.tangential_pressure, zero());
    assert!(!e.is_primary);
    assert_eq!(e.button, PointerButton::NoButton);
}

#[test]
fn pen_without_capabilities_takes_defaults() {
    let e = normalize_pen(7, no_mods(), SCALE, PointerPhase::Down, &pen(0));
    assert_eq!(e.pressure, zero());
    assert_eq!(e.tilt_x, zero());
    assert_eq!(e.tilt_y, zero());
    assert_eq!(e.twist, zero());
    assert_eq!(e.size, LogicalSize { width: zero(), height: zero() });
}

#[test]
fn touch_with_all_capabilities() {
    let mask = TOUCH_MASK_CONTACTAREA | TOUCH_MASK_ORIENTATION | TOUCH_MASK_PRESSURE;
    let e = normalize_touch(7, no_mods(), SCALE, PointerPhase::Up, &touch(mask));
    assert_eq!(e.id, 7);
    assert_eq!(e.phase, PointerPhase::Up);
    assert_eq!(e.pointer_type, PointerType::Touch);
    assert_eq!(e.pressure, r(512, 1024));
    assert_eq!(e.twist, r(90, 360));
    assert_eq!(e.size, LogicalSize { width: r(6, 1), height: r(12, 1) });
    // 30 px at scale 3/2 is 60/3 logical units; -12 px is -24/3.
    assert_eq!(e.position, LogicalPosition { x: r(60, 3), y: r(-24, 3) });
}

#[test]
fn pen_with_all_capabilities() {
    let mask = PEN_MASK_PRESSURE | PEN_MASK_ROTATION | PEN_MASK_TILT_X | PEN_MASK_TILT_Y;
    let e = normalize_pen(3, no_mods(), SCALE, PointerPhase::Move, &pen(mask));
    assert_eq!(e.pointer_type, PointerType::Pen);
    assert_eq!(e.pressure, r(1024, 1024));
    assert_eq!(e.tilt_x, r(-45, 90));
    assert_eq!(e.tilt_y, r(30, 90));
    assert_eq!(e.twist, r(180, 360));
}

#[test]
fn pressure_and_twist_values() {
    let mask = TOUCH_MASK_ORIENTATION | TOUCH_MASK_PRESSURE;
    for p in [0u32, 1, 1024, 4096] {
        for deg in [0u32, 45, 359] {
            let mut s = touch(mask);
            s.pressure = p;
            s.orientation = deg;
            let e = normalize_touch(1, no_mods(), SCALE, PointerPhase::Move, &s);
            assert_eq!(e.pressure, r(p as i64, 1024));
            let pf = e.pressure.num as f64 / e.pressure.den as f64;
            assert_eq!(pf, p as f64 / 1024.0);
            let radians = e.twist.num as f64 / e.twist.den as f64 * (2.0 * std::f64::consts::PI);
            let back = radians / (2.0 * std::f64::consts::PI) * 360.0;
            assert!((back - deg as f64).abs() < 1e-9);
            assert_eq!(e.twist.num * 360 / e.twist.den as i64, deg as i64);
        }
    }
}

#[test]
fn logical_coordinate_divides_by_scale() {
    assert_eq!(logical_coordinate(300, DpiScale { num: 2, den: 1 }), r(300, 2));
    assert_eq!(logical_coordinate(i32::MIN, DpiScale { num: 1, den: u32::MAX }).num,
        i32::MIN as i64 * u32::MAX as i64);
}

#[test]
fn history_keeps_order_and_count() {
    let mut a = touch(TOUCH_MASK_PRESSURE);
    a.pressure = 1;
    let mut b = touch(TOUCH_MASK_PRESSURE);
    b.pressure = 2;
    let mut c = touch(TOUCH_MASK_PRESSURE);
    c.pressure = 3;
    let h = PointerHistory::Touch(vec![a, b, c]);
    let v = get_pointer_coalesced_events(11, no_mods(), SCALE, PointerPhase::Move, &h);
    assert_eq!(v.len(), 3);
    for (i, e) in v.iter().enumerate() {
        assert_eq!(e.id, 11);
        assert_eq!(e.phase, PointerPhase::Move);
        assert_eq!(e.pressure, r(i as i64 + 1, 1024));
    }
}

#[test]
fn zero_reported_history_is_empty() {
    let buffer = vec![touch(0), touch(0)];
    let usable = take_reported(buffer, 0);
    assert!(usable.is_empty());
    let v = get_pointer_coalesced_events(1, no_mods(), SCALE, PointerPhase::Move, &PointerHistory::Touch(usable));
    assert!(v.is_empty());
    let mut sink = EventSink::new();
    sink.append_pointers(0, &v);
    assert_eq!(sink.len(), 0);
    let none = get_pointer_coalesced_events(1, no_mods(), SCALE, PointerPhase::Move, &PointerHistory::Pen(vec![]));
    assert!(none.is_empty());
}

#[test]
fn reported_count_bounds_the_buffer() {
    assert_eq!(take_reported(vec![1u8, 2, 3, 4], 2), vec![1u8, 2]);
    assert_eq!(take_reported(vec![1u8, 2], 5), vec![1u8, 2]);
}

#[test]
fn native_type_tags() {
    assert_eq!(classify_native_type(PT_TOUCH), Some(NativePointerKind::Touch));
    assert_eq!(classify_native_type(PT_PEN), Some(NativePointerKind::Pen));
    assert_eq!(classify_native_type(PT_MOUSE), Some(NativePointerKind::Mouse));
    assert_eq!(classify_native_type(PT_TOUCHPAD), Some(NativePointerKind::Touchpad));
    assert_eq!(classify_native_type(PT_POINTER), None);
    assert_eq!(classify_native_type(0), None);
    assert_eq!(classify_native_type(99), None);
}

#[test]
fn browser_type_tags() {
    assert_eq!(pointer_type_from_tag("pen"), Some(PointerType::Pen));
    assert_eq!(pointer_type_from_tag("mouse"), Some(PointerType::Mouse));
    assert_eq!(pointer_type_from_tag("touch"), Some(PointerType::Touch));
    assert_eq!(pointer_type_from_tag(""), None);
    assert_eq!(pointer_type_from_tag("Pen"), None);
    assert_eq!(pointer_type_from_tag("stylus"), None);
    assert_eq!(pointer_type_from_tag("touchy"), None);
}

#[test]
fn browser_event_translation() {
    let e = translate_pointer_event(PointerPhase::Down, &dom(4, "pen")).unwrap();
    assert_eq!(e.id, 4);
    assert_eq!(e.phase, PointerPhase::Down);
    assert_eq!(e.pointer_type, PointerType::Pen);
    assert_eq!(e.position, LogicalPosition { x: r(5, 2), y: r(7, 1) });
    assert_eq!(e.size, LogicalSize { width: r(3, 1), height: r(4, 1) });
    assert!(e.is_primary);
    assert!(e.modifiers.shift && e.modifiers.alt && !e.modifiers.ctrl && !e.modifiers.logo);
    assert_eq!(e.pressure, r(1, 2));
    assert_eq!(e.tangential_pressure, r(1, 4));
    assert_eq!(e.tilt_x, r(45, 90));
    assert_eq!(e.tilt_y, r(-90, 90));
    assert_eq!(e.twist, r(90, 360));
    assert_eq!(e.button, PointerButton::NoButton);
}

#[test]
fn unknown_browser_tag_gives_no_event() {
    assert_eq!(translate_pointer_event(PointerPhase::Move, &dom(1, "eraser")), None);
    let samples = vec![dom(1, "touch"), dom(1, "eraser")];
    assert_eq!(translate_coalesced(PointerPhase::Move, &samples), None);
    let mut sink = EventSink::new();
    assert!(!deliver_notification(&mut sink, 0, PointerPhase::Move, &samples));
    assert_eq!(sink.len(), 0);
}

#[test]
fn coalesced_notification_appends_in_order() {
    let mut sink = EventSink::new();
    sink.append(WindowEvent {
        window_id: 9,
        event: translate_pointer_event(PointerPhase::Down, &dom(2, "touch")).unwrap(),
    });
    let mut samples = Vec::new();
    for k in 0..5 {
        let mut s = dom(2, "touch");
        s.tilt_x = k;
        samples.push(s);
    }
    assert!(deliver_notification(&mut sink, 9, PointerPhase::Move, &samples));
    let out = sink.drain();
    assert_eq!(out.len(), 6);
    for k in 0..5 {
        let w = &out[k + 1];
        assert_eq!(w.window_id, 9);
        assert_eq!(w.event.phase, PointerPhase::Move);
        assert_eq!(w.event.tilt_x, r(k as i64, 90));
    }
    assert_eq!(sink.len(), 0);
}

#[test]
fn empty_notification_appends_nothing() {
    let mut sink = EventSink::new();
    assert!(deliver_notification(&mut sink, 1, PointerPhase::Move, &Vec::new()));
    assert_eq!(sink.len(), 0);
    assert_eq!(sink.pop(), None);
}

#[test]
fn contact_lifetime_is_drained_in_order() {
    let mut sink = EventSink::new();
    assert!(deliver_notification(&mut sink, 1, PointerPhase::Down, &vec![dom(8, "pen")]));
    let moves = vec![dom(8, "pen"), dom(8, "pen"), dom(8, "pen")];
    assert!(deliver_notification(&mut sink, 1, PointerPhase::Move, &moves));
    assert!(deliver_notification(&mut sink, 1, PointerPhase::Up, &vec![dom(8, "pen")]));
    let out = sink.drain();
    let phases: Vec<PointerPhase> = out.iter().map(|w| w.event.phase).collect();
    assert_eq!(
        phases,
        vec![
            PointerPhase::Down,
            PointerPhase::Move,
            PointerPhase::Move,
            PointerPhase::Move,
            PointerPhase::Up
        ]
    );
    assert!(out.iter().all(|w| w.event.id == 8));
}

#[test]
fn interleaved_appends_and_drains_keep_every_event() {
    let base = translate_pointer_event(PointerPhase::Move, &dom(1, "mouse")).unwrap();
    let mut sink = EventSink::new();
    let mut drained: Vec<WindowEvent> = Vec::new();
    let mut appended: Vec<WindowEvent> = Vec::new();
    for k in 0..200u64 {
        let mut e = base;
        e.id = (k % 2) as u32;
        let w = WindowEvent { window_id: k, event: e };
        sink.append(w);
        appended.push(w);
        if k % 7 == 3 {
            drained.extend(sink.drain());
        }
        if k % 11 == 5 {
            if let Some(x) = sink.pop() {
                drained.push(x);
            }
        }
    }
    drained.extend(sink.drain());
    assert_eq!(drained, appended);
}
