use vstd::prelude::*;

use crate::event::{
    LogicalPosition, LogicalSize, ModifiersState, Pointer, PointerButton, PointerPhase,
    PointerType, Ratio,
};

verus! {

/// Native pointer-type tags of the history-based platform.
pub const PT_POINTER: u32 = 1;
pub const PT_TOUCH: u32 = 2;
pub const PT_PEN: u32 = 3;
pub const PT_MOUSE: u32 = 4;
pub const PT_TOUCHPAD: u32 = 5;

/// Capability bits of a touch sample.
pub const TOUCH_MASK_CONTACTAREA: u32 = 1;
pub const TOUCH_MASK_ORIENTATION: u32 = 2;
pub const TOUCH_MASK_PRESSURE: u32 = 4;

/// Capability bits of a pen sample.
pub const PEN_MASK_PRESSURE: u32 = 1;
pub const PEN_MASK_ROTATION: u32 = 2;
pub const PEN_MASK_TILT_X: u32 = 4;
pub const PEN_MASK_TILT_Y: u32 = 8;

/// Divisor that brings a raw pressure reading to roughly `0..1`.
pub const PRESSURE_DIVISOR: u64 = 1024;
/// Divisor that brings a tilt in degrees to roughly `-1..1`.
pub const TILT_DIVISOR: u64 = 90;
/// Degrees in a full turn.
pub const DEGREES_PER_TURN: u64 = 360;

/// The device classes that the native subsystem reports.
#[derive(Clone, Copy, Debug, PartialEq, Eq, Structural)]
pub enum NativePointerKind {
    Touch,
    Pen,
    Mouse,
    Touchpad,
}

/// A window scale factor `num / den` (physical pixels per logical unit).
#[derive(Clone, Copy, Debug, PartialEq, Eq, Structural)]
pub struct DpiScale {
    pub num: u32,
    pub den: u32,
}

impl DpiScale {
    pub open spec fn wf(self) -> bool {
        self.num > 0 && self.den > 0
    }
}

/// A pixel location, already relative to the client area of its window.
#[derive(Clone, Copy, Debug, PartialEq, Eq, Structural)]
pub struct ClientPoint {
    pub x: i32,
    pub y: i32,
}

/// A contact rectangle in pixels.
#[derive(Clone, Copy, Debug, PartialEq, Eq, Structural)]
pub struct ContactRect {
    pub left: i32,
    pub top: i32,
    pub right: i32,
    pub bottom: i32,
}

/// One buffered touch sample as the native subsystem reports it.
#[derive(Clone, Copy, Debug, PartialEq, Eq, Structural)]
pub struct RawTouchSample {
    pub location: ClientPoint,
    pub touch_mask: u32,
    pub contact: ContactRect,
    pub orientation: u32,
    pub pressure: u32,
}

/// One buffered pen sample as the native subsystem reports it.
#[derive(Clone, Copy, Debug, PartialEq, Eq, Structural)]
pub struct RawPenSample {
    pub location: ClientPoint,
    pub pen_flags: u32,
    pub pen_mask: u32,
    pub pressure: u32,
    pub rotation: u32,
    pub tilt_x: i32,
    pub tilt_y: i32,
}

/// The buffered samples of one pointer, oldest first.
#[derive(Debug)]
pub enum PointerHistory {
    Touch(Vec<RawTouchSample>),
    Pen(Vec<RawPenSample>),
}

impl PointerHistory {
    pub open spec fn len(&self) -> nat {
        match self {
            PointerHistory::Touch(v) => v@.len(),
            PointerHistory::Pen(v) => v@.len(),
        }
    }
}

pub open spec fn has_flag(mask: u32, flag: u32) -> bool {
    mask & flag != 0
}

pub open spec fn zero_ratio() -> Ratio {
    Ratio { num: 0, den: 1 }
}

/// Normalized pressure: the raw reading over the pressure divisor.
pub open spec fn pressure_ratio(raw: u32) -> Ratio {
    Ratio { num: raw as i64, den: PRESSURE_DIVISOR }
}

/// Normalized tilt: degrees over the tilt divisor.
pub open spec fn tilt_ratio(degrees: i32) -> Ratio {
    Ratio { num: degrees as i64, den: TILT_DIVISOR }
}

/// A rotation in degrees as a fraction of a full turn.
pub open spec fn twist_turns(degrees: int) -> Ratio {
    Ratio { num: degrees as i64, den: DEGREES_PER_TURN }
}

/// The degrees that a fraction of a full turn stands for.
pub open spec fn turns_to_degrees(t: Ratio) -> int {
    t.num * DEGREES_PER_TURN / t.den as int
}

/// A client pixel coordinate in logical units: `px / scale`.
pub open spec fn pixel_to_logical(px: i32, scale: DpiScale) -> Ratio {
    Ratio { num: (px * scale.den) as i64, den: scale.num as u64 }
}

pub open spec fn abs_diff(a: i32, b: i32) -> int {
    if a >= b { a - b } else { b - a }
}

pub open spec fn logical_location(p: ClientPoint, scale: DpiScale) -> LogicalPosition {
    LogicalPosition { x: pixel_to_logical(p.x, scale), y: pixel_to_logical(p.y, scale) }
}

/// The canonical event for one touch sample.
pub open spec fn touch_event(
    id: u32,
    modifiers: ModifiersState,
    scale: DpiScale,
    phase: PointerPhase,
    s: RawTouchSample,
) -> Pointer {
    Pointer {
        id,
        position: logical_location(s.location, scale),
        modifiers,
        phase,
        is_primary: false,
        pointer_type: PointerType::Touch,
        size: if has_flag(s.touch_mask, TOUCH_MASK_CONTACTAREA) {
            LogicalSize {
                width: Ratio {
                    num: abs_diff(s.contact.right, s.contact.left) as i64,
                    den: 1,
                },
                height: Ratio {
                    num: abs_diff(s.contact.top, s.contact.bottom) as i64,
                    den: 1,
                },
            }
        } else {
            LogicalSize { width: zero_ratio(), height: zero_ratio() }
        },
        pressure: if has_flag(s.touch_mask, TOUCH_MASK_PRESSURE) {
            pressure_ratio(s.pressure)
        } else {
            zero_ratio()
        },
        tangential_pressure: zero_ratio(),
        tilt_x: zero_ratio(),
        tilt_y: zero_ratio(),
        twist: if has_flag(s.touch_mask, TOUCH_MASK_ORIENTATION) {
            twist_turns(s.orientation as int)
        } else {
            zero_ratio()
        },
        button: PointerButton::NoButton,
    }
}

/// The canonical event for one pen sample.
pub open spec fn pen_event(
    id: u32,
    modifiers: ModifiersState,
    scale: DpiScale,
    phase: PointerPhase,
    s: RawPenSample,
) -> Pointer {
    Pointer {
        id,
        position: logical_location(s.location, scale),
        modifiers,
        phase,
        is_primary: false,
        pointer_type: PointerType::Pen,
        size: LogicalSize { width: zero_ratio(), height: zero_ratio() },
        pressure: if has_flag(s.pen_mask, PEN_MASK_PRESSURE) {
            pressure_ratio(s.pressure)
        } else {
            zero_ratio()
        },
        tangential_pressure: zero_ratio(),
        tilt_x: if has_flag(s.pen_mask, PEN_MASK_TILT_X) {
            tilt_ratio(s.tilt_x)
        } else {
            zero_ratio()
        },
        tilt_y: if has_flag(s.pen_mask, PEN_MASK_TILT_Y) {
            tilt_ratio(s.tilt_y)
        } else {
            zero_ratio()
        },
        twist: if has_flag(s.pen_mask, PEN_MASK_ROTATION) {
            twist_turns(s.rotation as int)
        } else {
            zero_ratio()
        },
        button: PointerButton::NoButton,
    }
}

/// The events for a whole history, in the order of the history.
pub open spec fn history_events(
    id: u32,
    modifiers: ModifiersState,
    scale: DpiScale,
    phase: PointerPhase,
    h: PointerHistory,
) -> Seq<Pointer> {
    match h {
        PointerHistory::Touch(v) => v@.map_values(|s| touch_event(id, modifiers, scale, phase, s)),
        PointerHistory::Pen(v) => v@.map_values(|s| pen_event(id, modifiers, scale, phase, s)),
    }
}

/// The device class of a native pointer-type tag; `None` for the generic
/// tag and for any tag the subsystem never reports.
pub open spec fn native_kind(tag: u32) -> Option<NativePointerKind> {
    if tag == PT_TOUCH {
        Some(NativePointerKind::Touch)
    } else if tag == PT_PEN {
        Some(NativePointerKind::Pen)
    } else if tag == PT_MOUSE {
        Some(NativePointerKind::Mouse)
    } else if tag == PT_TOUCHPAD {
        Some(NativePointerKind::Touchpad)
    } else {
        None
    }
}

/// Classifies a native pointer-type tag.
pub fn classify_native_type(tag: u32) -> (r: Option<NativePointerKind>)
    ensures
        r == native_kind(tag),
{
    if tag == PT_TOUCH {
        Some(NativePointerKind::Touch)
    } else if tag == PT_PEN {
        Some(NativePointerKind::Pen)
    } else if tag == PT_MOUSE {
        Some(NativePointerKind::Mouse)
    } else if tag == PT_TOUCHPAD {
        Some(NativePointerKind::Touchpad)
    } else {
        None
    }
}

/// The usable part of a filled history buffer: the count that the filling
/// query reported bounds it, and so does the buffer's own length.
pub fn take_reported<T>(buffer: Vec<T>, reported: u32) -> (r: Vec<T>)
    ensures
        reported as int <= buffer@.len() ==> r@ == buffer@.take(reported as int),
        reported as int > buffer@.len() ==> r@ == buffer@,
{
    let mut buffer = buffer;
    buffer.truncate(reported as usize);
    buffer
}

/// Converts a client pixel coordinate to logical units.
pub fn logical_coordinate(px: i32, scale: DpiScale) -> (r: Ratio)
    requires
        scale.wf(),
    ensures
        r == pixel_to_logical(px, scale),
        r.wf(),
{
    let p: i64 = px as i64;
    let d: i64 = scale.den as i64;
    assert(-0x8000_0000 * 0xffff_ffff <= p * d <= 0x7fff_ffff * 0xffff_ffff) by (nonlinear_arith)
        requires
            -0x8000_0000 <= p <= 0x7fff_ffff,
            0 <= d <= 0xffff_ffff,
    ;
    Ratio { num: p * d, den: scale.num as u64 }
}

fn logical_location_of(p: ClientPoint, scale: DpiScale) -> (r: LogicalPosition)
    requires
        scale.wf(),
    ensures
        r == logical_location(p, scale),
{
    LogicalPosition { x: logical_coordinate(p.x, scale), y: logical_coordinate(p.y, scale) }
}

fn edge_distance(a: i32, b: i32) -> (r: Ratio)
    ensures
        r == (Ratio { num: abs_diff(a, b) as i64, den: 1 }),
{
    let d: i64 = if a >= b {
        a as i64 - b as i64
    } else {
        b as i64 - a as i64
    };
    Ratio { num: d, den: 1 }
}

/// Normalizes one touch sample.
pub fn normalize_touch(
    id: u32,
    modifiers: ModifiersState,
    scale: DpiScale,
    phase: PointerPhase,
    s: &RawTouchSample,
) -> (r: Pointer)
    requires
        scale.wf(),
    ensures
        r == touch_event(id, modifiers, scale, phase, *s),
{
    let size = if s.touch_mask & TOUCH_MASK_CONTACTAREA != 0 {
        LogicalSize {
            width: edge_distance(s.contact.right, s.contact.left),
            height: edge_distance(s.contact.top, s.contact.bottom),
        }
    } else {
        LogicalSize { width: Ratio::zero(), height: Ratio::zero() }
    };
    let pressure = if s.touch_mask & TOUCH_MASK_PRESSURE != 0 {
        Ratio::new(s.pressure as i64, PRESSURE_DIVISOR)
    } else {
        Ratio::zero()
    };
    let twist = if s.touch_mask & TOUCH_MASK_ORIENTATION != 0 {
        Ratio::new(s.orientation as i64, DEGREES_PER_TURN)
    } else {
        Ratio::zero()
    };
    Pointer {
        id,
        position: logical_location_of(s.location, scale),
        modifiers,
        phase,
        is_primary: false,
        pointer_type: PointerType::Touch,
        size,
        pressure,
        tangential_pressure: Ratio::zero(),
        tilt_x: Ratio::zero(),
        tilt_y: Ratio::zero(),
        twist,
        button: PointerButton::NoButton,
    }
}

/// Normalizes one pen sample.
pub fn normalize_pen(
    id: u32,
    modifiers: ModifiersState,
    scale: DpiScale,
    phase: PointerPhase,
    s: &RawPenSample,
) -> (r: Pointer)
    requires
        scale.wf(),
    ensures
        r == pen_event(id, modifiers, scale, phase, *s),
{
    let pressure = if s.pen_mask & PEN_MASK_PRESSURE != 0 {
        Ratio::new(s.pressure as i64, PRESSURE_DIVISOR)
    } else {
        Ratio::zero()
    };
    let tilt_x = if s.pen_mask & PEN_MASK_TILT_X != 0 {
        Ratio::new(s.tilt_x as i64, TILT_DIVISOR)
    } else {
        Ratio::zero()
    };
    let tilt_y = if s.pen_mask & PEN_MASK_TILT_Y != 0 {
        Ratio::new(s.tilt_y as i64, TILT_DIVISOR)
    } else {
        Ratio::zero()
    };
    let twist = if s.pen_mask & PEN_MASK_ROTATION != 0 {
        Ratio::new(s.rotation as i64, DEGREES_PER_TURN)
    } else {
        Ratio::zero()
    };
    Pointer {
        id,
        position: logical_location_of(s.location, scale),
        modifiers,
        phase,
        is_primary: false,
        pointer_type: PointerType::Pen,
        size: LogicalSize { width: Ratio::zero(), height: Ratio::zero() },
        pressure,
        tangential_pressure: Ratio::zero(),
        tilt_x,
        tilt_y,
        twist,
        button: PointerButton::NoButton,
    }
}

/// Turns the buffered history of one pointer into canonical events, one per
/// sample and in the same order.
pub fn get_pointer_coalesced_events(
    pointer_id: u32,
    modifiers: ModifiersState,
    dpi_factor: DpiScale,
    phase: PointerPhase,
    history: &PointerHistory,
) -> (r: Vec<Pointer>)
    requires
        dpi_factor.wf(),
    ensures
        r@ == history_events(pointer_id, modifiers, dpi_factor, phase, *history),
        r@.len() == history.len(),
{
    let mut out: Vec<Pointer> = Vec::new();
    match history {
        PointerHistory::Touch(samples) => {
            let mut i: usize = 0;
            while i < samples.len()
                invariant
                    i <= samples@.len(),
                    dpi_factor.wf(),
                    out@ == samples@.take(i as int).map_values(
                        |s| touch_event(pointer_id, modifiers, dpi_factor, phase, s),
                    ),
                decreases samples@.len() - i,
            {
                let e = normalize_touch(pointer_id, modifiers, dpi_factor, phase, &samples[i]);
                out.push(e);
                i = i + 1;
                assert(samples@.take(i as int) == samples@.take(i - 1).push(samples@[i - 1]));
            }
            assert(samples@.take(i as int) == samples@);
        },
        PointerHistory::Pen(samples) => {
            let mut i: usize = 0;
            while i < samples.len()
                invariant
                    i <= samples@.len(),
                    dpi_factor.wf(),
                    out@ == samples@.take(i as int).map_values(
                        |s| pen_event(pointer_id, modifiers, dpi_factor, phase, s),
                    ),
                decreases samples@.len() - i,
            {
                let e = normalize_pen(pointer_id, modifiers, dpi_factor, phase, &samples[i]);
                out.push(e);
                i = i + 1;
                assert(samples@.take(i as int) == samples@.take(i - 1).push(samples@[i - 1]));
            }
            assert(samples@.take(i as int) == samples@);
        },
    }
    out
}

/// A field whose capability bit is unset takes its documented default:
/// zero pressure, zero tilt, zero twist and an empty contact size.
pub proof fn absent_capability_defaults(
    id: u32,
    modifiers: ModifiersState,
    scale: DpiScale,
    phase: PointerPhase,
    t: RawTouchSample,
    p: RawPenSample,
)
    ensures
        !has_flag(t.touch_mask, TOUCH_MASK_PRESSURE) ==> touch_event(
            id,
            modifiers,
            scale,
            phase,
            t,
        ).pressure == zero_ratio(),
        !has_flag(t.touch_mask, TOUCH_MASK_ORIENTATION) ==> touch_event(
            id,
            modifiers,
            scale,
            phase,
            t,
        ).twist == zero_ratio(),
        !has_flag(t.touch_mask, TOUCH_MASK_CONTACTAREA) ==> touch_event(
            id,
            modifiers,
            scale,
            phase,
            t,
        ).size == (LogicalSize { width: zero_ratio(), height: zero_ratio() }),
        !has_flag(p.pen_mask, PEN_MASK_PRESSURE) ==> pen_event(
            id,
            modifiers,
            scale,
            phase,
            p,
        ).pressure == zero_ratio(),
        !has_flag(p.pen_mask, PEN_MASK_TILT_X) ==> pen_event(
            id,
            modifiers,
            scale,
            phase,
            p,
        ).tilt_x == zero_ratio(),
        !has_flag(p.pen_mask, PEN_MASK_TILT_Y) ==> pen_event(
            id,
            modifiers,
            scale,
            phase,
            p,
        ).tilt_y == zero_ratio(),
        !has_flag(p.pen_mask, PEN_MASK_ROTATION) ==> pen_event(
            id,
            modifiers,
            scale,
            phase,
            p,
        ).twist == zero_ratio(),
{
}

/// Reported pressure is the raw reading over 1024, and a reported rotation
/// in `[0, 360)` degrees becomes a twist from which the same number of
/// degrees is recovered exactly.
pub proof fn pressure_and_twist_formulas(
    id: u32,
    modifiers: ModifiersState,
    scale: DpiScale,
    phase: PointerPhase,
    t: RawTouchSample,
    p: RawPenSample,
)
    requires
        has_flag(t.touch_mask, TOUCH_MASK_PRESSURE),
        has_flag(t.touch_mask, TOUCH_MASK_ORIENTATION),
        has_flag(p.pen_mask, PEN_MASK_PRESSURE),
        has_flag(p.pen_mask, PEN_MASK_ROTATION),
        t.orientation < 360,
        p.rotation < 360,
    ensures
        touch_event(id, modifiers, scale, phase, t).pressure == (Ratio {
            num: t.pressure as i64,
            den: 1024,
        }),
        pen_event(id, modifiers, scale, phase, p).pressure == (Ratio {
            num: p.pressure as i64,
            den: 1024,
        }),
        touch_event(id, modifiers, scale, phase, t).twist == (Ratio {
            num: t.orientation as i64,
            den: 360,
        }),
        pen_event(id, modifiers, scale, phase, p).twist == (Ratio {
            num: p.rotation as i64,
            den: 360,
        }),
        turns_to_degrees(touch_event(id, modifiers, scale, phase, t).twist) == t.orientation,
        turns_to_degrees(pen_event(id, modifiers, scale, phase, p).twist) == p.rotation,
{
    let a: int = t.orientation as int;
    let b: int = p.rotation as int;
    assert(a * 360 / 360 == a) by (nonlinear_arith);
    assert(b * 360 / 360 == b) by (nonlinear_arith);
}

/// A history whose buffered count is reported as zero yields no samples, no
/// events, and leaves a sink's queue as it was.
pub proof fn empty_history_yields_nothing(
    buffer: Seq<RawTouchSample>,
    id: u32,
    modifiers: ModifiersState,
    scale: DpiScale,
    phase: PointerPhase,
    h: PointerHistory,
    window_id: u64,
    queue: Seq<crate::event::WindowEvent>,
)
    requires
        h.len() == 0,
    ensures
        buffer.take(0) == Seq::<RawTouchSample>::empty(),
        history_events(id, modifiers, scale, phase, h) == Seq::<Pointer>::empty(),
        queue + crate::sink::tagged(window_id, history_events(id, modifiers, scale, phase, h))
            == queue,
{
    assert(buffer.take(0) =~= Seq::<RawTouchSample>::empty());
    assert(history_events(id, modifiers, scale, phase, h) =~= Seq::<Pointer>::empty());
    assert(crate::sink::tagged(window_id, Seq::<Pointer>::empty()) =~= Seq::<
        crate::event::WindowEvent,
    >::empty());
    assert(queue + Seq::<crate::event::WindowEvent>::empty() =~= queue);
}

} // verus!
