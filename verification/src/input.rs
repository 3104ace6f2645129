//! Pointer location, the keyboard filter, and the seat model.
//!
//! The pointer is one process-wide point in physical pixels, clamped after
//! every motion to the bounds of the first output. The keyboard filter
//! intercepts a single reserved chord — Ctrl held with the designated quit
//! key, on press — to request orderly shutdown; every other combination is
//! forwarded to the focused client unmodified.

use vstd::prelude::*;

use crate::geometry::Size;

verus! {

/// Keysym of the designated shutdown key (lowercase q), intercepted only
/// while Ctrl is held.
pub const QUIT_KEYSYM: u32 = 0x71;

/// The process-wide pointer position, in whole physical pixels.
#[derive(Clone, Copy, PartialEq, Eq, Structural, Debug)]
pub struct PointerLocation {
    pub x: i32,
    pub y: i32,
}

/// One virtual input station. A seat may lack either capability; `focus` is
/// the surface currently under the pointer, held as an identifier and never
/// as an owning reference.
#[derive(Clone, Copy, PartialEq, Eq, Structural, Debug)]
pub struct Seat {
    pub keyboard: bool,
    pub pointer: bool,
    pub focus: Option<u64>,
}

/// What the keyboard filter decided for one key event.
#[derive(Clone, Copy, PartialEq, Eq, Structural, Debug)]
pub enum KeyFilter {
    /// The reserved chord: the event is swallowed by the compositor.
    Intercept,
    /// Any other combination: the event goes to the focused client unmodified.
    Forward,
}

impl PointerLocation {
    /// The pointer starts at the origin.
    pub fn origin() -> (p: PointerLocation)
        ensures
            p == (PointerLocation { x: 0, y: 0 }),
    {
        PointerLocation { x: 0, y: 0 }
    }

    /// Clamped to the first output: inside `[0, w] x [0, h]`, ends included.
    pub open spec fn within(self, bounds: Size) -> bool {
        &&& 0 <= self.x <= bounds.w
        &&& 0 <= self.y <= bounds.h
    }
}

impl Seat {
    /// A fresh seat with the given capabilities and empty focus.
    pub fn new(keyboard: bool, pointer: bool) -> (s: Seat)
        ensures
            s == (Seat { keyboard, pointer, focus: None::<u64> }),
    {
        Seat { keyboard, pointer, focus: None }
    }
}

/// One coordinate after accumulating a delta, saturated at the pixel
/// coordinate range's ends.
pub open spec fn spec_sat_shift(v: int, d: int) -> int {
    if v + d < i32::MIN {
        i32::MIN as int
    } else if v + d > i32::MAX {
        i32::MAX as int
    } else {
        v + d
    }
}

/// One coordinate clamped to `[0, hi]`.
pub open spec fn spec_clamp(v: int, hi: int) -> int {
    if v < 0 {
        0
    } else if v > hi {
        hi
    } else {
        v
    }
}

/// The pointer after one motion event: the delta is accumulated on each
/// axis, then — when a first output exists — the result is clamped to that
/// output's bounds.
pub open spec fn spec_apply_motion(
    loc: PointerLocation,
    dx: int,
    dy: int,
    bounds: Option<Size>,
) -> PointerLocation {
    let mx = spec_sat_shift(loc.x as int, dx);
    let my = spec_sat_shift(loc.y as int, dy);
    match bounds {
        Some(b) => PointerLocation {
            x: spec_clamp(mx, b.w as int) as i32,
            y: spec_clamp(my, b.h as int) as i32,
        },
        None => PointerLocation { x: mx as i32, y: my as i32 },
    }
}

/// Accumulate a delta into one coordinate, saturating at the range's ends.
fn sat_shift(v: i32, d: i32) -> (r: i32)
    ensures
        r == spec_sat_shift(v as int, d as int),
{
    let wide: i64 = v as i64 + d as i64;
    if wide < i32::MIN as i64 {
        i32::MIN
    } else if wide > i32::MAX as i64 {
        i32::MAX
    } else {
        wide as i32
    }
}

/// Clamp one coordinate to `[0, hi]`.
fn clamp_coord(v: i32, hi: i32) -> (r: i32)
    requires
        0 <= hi,
    ensures
        r == spec_clamp(v as int, hi as int),
{
    if v < 0 {
        0
    } else if v > hi {
        hi
    } else {
        v
    }
}

/// Apply one pointer motion event: accumulate the delta and clamp to the
/// first output's bounds. With no output registered yet, the delta only
/// accumulates. The clamped pointer always lies within
/// `[0, bounds.w] x [0, bounds.h]`.
pub fn apply_motion(loc: PointerLocation, dx: i32, dy: i32, bounds: Option<Size>) -> (r:
    PointerLocation)
    requires
        bounds is Some ==> bounds->0.positive(),
    ensures
        r == spec_apply_motion(loc, dx as int, dy as int, bounds),
        bounds is Some ==> r.within(bounds->0),
{
    let mx = sat_shift(loc.x, dx);
    let my = sat_shift(loc.y, dy);
    match bounds {
        Some(b) => PointerLocation { x: clamp_coord(mx, b.w), y: clamp_coord(my, b.h) },
        None => PointerLocation { x: mx, y: my },
    }
}

/// The filter the seat's keyboard runs on every key event. It intercepts
/// exactly the reserved chord — Ctrl plus the quit keysym — and on the press
/// half of that chord requests shutdown by clearing `running`; everything
/// else is forwarded and leaves `running` alone.
pub fn filter_key(running: &mut bool, ctrl: bool, keysym: u32, pressed: bool) -> (r: KeyFilter)
    ensures
        r == (if ctrl && keysym == QUIT_KEYSYM {
            KeyFilter::Intercept
        } else {
            KeyFilter::Forward
        }),
        *final(running) == (*old(running) && !(ctrl && keysym == QUIT_KEYSYM && pressed)),
{
    if ctrl && keysym == QUIT_KEYSYM {
        if pressed {
            *running = false;
        }
        KeyFilter::Intercept
    } else {
        KeyFilter::Forward
    }
}

/// The pointer location after a whole run of motion events, each handled by
/// `spec_apply_motion` against the same first output.
pub open spec fn spec_apply_motions(
    loc: PointerLocation,
    deltas: Seq<(i32, i32)>,
    bounds: Option<Size>,
) -> PointerLocation
    decreases deltas.len(),
{
    if deltas.len() == 0 {
        loc
    } else {
        let prev = spec_apply_motions(loc, deltas.drop_last(), bounds);
        spec_apply_motion(prev, deltas.last().0 as int, deltas.last().1 as int, bounds)
    }
}

/// The pointer is always clamped: whatever deltas accumulate, after every
/// motion event handled against a registered first output the location lies
/// within `[0, bounds.w] x [0, bounds.h]`.
pub proof fn lemma_pointer_always_clamped(
    loc: PointerLocation,
    deltas: Seq<(i32, i32)>,
    bounds: Size,
)
    requires
        bounds.positive(),
        deltas.len() >= 1,
    ensures
        spec_apply_motions(loc, deltas, Some(bounds)).within(bounds),
{
}

/// A stationary pointer stays put: a zero-delta motion against an output
/// that already contains the clamped location leaves it unchanged, so the
/// hit test that follows sees the same point — and, the hit test being
/// deterministic, the same focused window.
pub proof fn lemma_stationary_pointer_keeps_location(loc: PointerLocation, bounds: Size)
    requires
        bounds.positive(),
        loc.within(bounds),
    ensures
        spec_apply_motion(loc, 0, 0, Some(bounds)) == loc,
{
}

} // verus!
