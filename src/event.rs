use vstd::prelude::*;

verus! {

/// An exact rational number `num / den`.
///
/// Every normalized quantity of a pointer event is reported in this form, so
/// that what a sample turns into can be stated exactly; a consumer that wants
/// a floating-point value divides `num` by `den`.
#[derive(Clone, Copy, Debug, PartialEq, Eq, Structural)]
pub struct Ratio {
    pub num: i64,
    pub den: u64,
}

impl Ratio {
    pub open spec fn wf(self) -> bool {
        self.den > 0
    }

    /// The ratio `num / den`.
    pub fn new(num: i64, den: u64) -> (r: Ratio)
        requires
            den > 0,
        ensures
            r == (Ratio { num, den }),
            r.wf(),
    {
        Ratio { num, den }
    }

    /// Zero, written with denominator one.
    pub fn zero() -> (r: Ratio)
        ensures
            r == (Ratio { num: 0, den: 1 }),
            r.wf(),
    {
        Ratio { num: 0, den: 1 }
    }
}

/// A position in window-logical units.
#[derive(Clone, Copy, Debug, PartialEq, Eq, Structural)]
pub struct LogicalPosition {
    pub x: Ratio,
    pub y: Ratio,
}

/// An extent in window-logical units.
#[derive(Clone, Copy, Debug, PartialEq, Eq, Structural)]
pub struct LogicalSize {
    pub width: Ratio,
    pub height: Ratio,
}

/// Keyboard modifier state captured with a sample.
#[derive(Clone, Copy, Debug, PartialEq, Eq, Structural)]
pub struct ModifiersState {
    pub shift: bool,
    pub ctrl: bool,
    pub alt: bool,
    pub logo: bool,
}

/// Lifecycle stage of a sample within one contact.
#[derive(Clone, Copy, Debug, PartialEq, Eq, Structural)]
pub enum PointerPhase {
    Down,
    Move,
    Up,
}

/// The class of device that produced a sample.
#[derive(Clone, Copy, Debug, PartialEq, Eq, Structural)]
pub enum PointerType {
    Mouse,
    Pen,
    Touch,
}

/// The button a sample reports; always `NoButton` for now.
#[derive(Clone, Copy, Debug, PartialEq, Eq, Structural)]
pub enum PointerButton {
    NoButton,
    Left,
    Middle,
    Right,
    Other(u8),
}

/// The canonical, platform-independent pointer event.
///
/// `pressure`, `tangential_pressure`, `tilt_x` and `tilt_y` are normalized
/// values; `twist` is a fraction of a full turn (the angle in radians is
/// `2 * pi` times it).
#[derive(Clone, Copy, Debug, PartialEq, Eq, Structural)]
pub struct Pointer {
    pub id: u32,
    pub position: LogicalPosition,
    pub modifiers: ModifiersState,
    pub phase: PointerPhase,
    pub is_primary: bool,
    pub pointer_type: PointerType,
    pub size: LogicalSize,
    pub pressure: Ratio,
    pub tangential_pressure: Ratio,
    pub tilt_x: Ratio,
    pub tilt_y: Ratio,
    pub twist: Ratio,
    pub button: PointerButton,
}

/// A pointer event tagged with the window it belongs to.
#[derive(Clone, Copy, Debug, PartialEq, Eq, Structural)]
pub struct WindowEvent {
    pub window_id: u64,
    pub event: Pointer,
}

} // verus!
