//! The window space: the single shared logical desktop.
//!
//! Windows are stored in an owning arena ordered front-to-back; the first
//! element is the primary ("game") window. Cross-references use surface
//! identifiers, never shared ownership. Mapping a new toplevel applies the
//! auto-maximize policy: when an output exists, the client is asked to resize
//! to its current logical size.

use vstd::prelude::*;

use crate::geometry::{Point, Rect, Size};

verus! {

/// Which shell a window arrived from.
#[derive(Clone, Copy, PartialEq, Eq, Structural, Debug)]
pub enum WindowKind {
    /// A native toplevel surface.
    Native,
    /// A surface raised by the legacy-X11 compatibility layer.
    X11,
}

/// A client window mapped into the shared space.
///
/// `surface` is the identifier of the underlying protocol surface in the
/// external protocol layer; the space never owns or aliases that object.
#[derive(Clone, Copy, PartialEq, Eq, Structural, Debug)]
pub struct Window {
    pub surface: u64,
    pub kind: WindowKind,
    /// Position in the shared space together with the window's size.
    pub rect: Rect,
    pub mapped: bool,
    pub activated: bool,
}

impl Window {
    /// A window the space may hold: mapped, with a drawable size.
    pub open spec fn wf(self) -> bool {
        self.mapped && self.rect.size.positive()
    }

    /// Whether a hit test at `p` lands on this window.
    pub open spec fn hits(self, p: Point) -> bool {
        self.mapped && self.rect.spec_contains(p)
    }
}

/// The result of a hit test: which window lies under the point and where the
/// point falls relative to that window's origin.
#[derive(Clone, Copy, PartialEq, Eq, Structural, Debug)]
pub struct Hit {
    /// Z-order index of the window, frontmost first.
    pub index: usize,
    /// Surface identifier of the window.
    pub surface: u64,
    /// The query point translated into the window's local space.
    pub relative: Point,
}

/// `i` is the frontmost z-order position whose window contains `p`.
pub open spec fn is_first_hit(ws: Seq<Window>, p: Point, i: int) -> bool {
    &&& 0 <= i < ws.len()
    &&& ws[i].hits(p)
    &&& forall|j: int| 0 <= j < i ==> !(#[trigger] ws[j]).hits(p)
}

/// How a popup asks to be placed relative to its parent window, reduced to
/// the data the placement rule reads: the anchor rectangle in the parent,
/// an extra offset, and the popup's own size.
#[derive(Clone, Copy, PartialEq, Eq, Structural, Debug)]
pub struct Positioner {
    pub anchor: Rect,
    pub offset: Point,
    pub size: Size,
}

/// The single shared desktop: an ordered collection of mapped windows,
/// frontmost first. The first element is the primary content window.
#[derive(Debug)]
pub struct Space {
    pub windows: Vec<Window>,
}

impl Space {
    /// Every held window is mapped and has a drawable size.
    pub open spec fn wf(self) -> bool {
        forall|i: int| 0 <= i < self.windows@.len() ==> (#[trigger] self.windows@[i]).wf()
    }

    /// An empty desktop.
    pub fn new() -> (s: Space)
        ensures
            s.wf(),
            s.windows@.len() == 0,
    {
        Space { windows: Vec::new() }
    }

    /// Map a new toplevel (or legacy-X11) window, applying the auto-maximize
    /// placement policy.
    ///
    /// When at least one output exists (`output_size` is its current logical
    /// size), the client is requested to resize to exactly that size before
    /// the window is mapped, and the request is returned so the caller can
    /// send the configure event. With no output yet, the window keeps its
    /// client-requested size and no resize is requested. Either way the
    /// window is mapped at the origin, activated, and becomes the new
    /// frontmost (primary) element.
    pub fn map_toplevel(
        &mut self,
        surface: u64,
        kind: WindowKind,
        client_size: Size,
        output_size: Option<Size>,
    ) -> (resize: Option<Size>)
        requires
            old(self).wf(),
            client_size.positive(),
            output_size is Some ==> output_size->0.positive(),
            old(self).windows@.len() < usize::MAX,
        ensures
            final(self).wf(),
            resize == output_size,
            final(self).windows@.len() == old(self).windows@.len() + 1,
            final(self).windows@ == old(self).windows@.insert(
                0,
                Window {
                    surface,
                    kind,
                    rect: Rect {
                        pos: Point { x: 0, y: 0 },
                        size: match output_size {
                            Some(m) => m,
                            None => client_size,
                        },
                    },
                    mapped: true,
                    activated: true,
                },
            ),
    {
        let size = match output_size {
            Some(m) => m,
            None => client_size,
        };
        let w = Window {
            surface,
            kind,
            rect: Rect { pos: Point { x: 0, y: 0 }, size },
            mapped: true,
            activated: true,
        };
        self.windows.insert(0, w);
        proof {
            assert forall|i: int| 0 <= i < self.windows@.len() implies (
            #[trigger] self.windows@[i]).wf() by {
                if i > 0 {
                    assert(self.windows@[i] == old(self).windows@[i - 1]);
                }
            }
        }
        match output_size {
            Some(m) => Some(m),
            None => None,
        }
    }

    /// Compute where a popup would be mapped: relative to its parent, at the
    /// positioner's anchor plus offset. Returns `None` — the popup is to be
    /// dropped, never fatally — when the parent is not mapped here, the
    /// positioner asks for an empty size, or the position leaves the
    /// coordinate space.
    pub fn popup_geometry(&self, parent: u64, positioner: &Positioner) -> (r: Option<Rect>)
        requires
            self.wf(),
        ensures
            match r {
                Some(g) => {
                    &&& positioner.size.positive()
                    &&& exists|i: int|
                        {
                            &&& #[trigger] is_first_with_surface(self.windows@, parent, i)
                            &&& g.pos.x == spec_popup_x(self.windows@[i], *positioner)
                            &&& g.pos.y == spec_popup_y(self.windows@[i], *positioner)
                        }
                    &&& g.size == positioner.size
                },
                None => {
                    ||| !positioner.size.positive()
                    ||| forall|i: int|
                        0 <= i < self.windows@.len() ==> (#[trigger] self.windows@[i]).surface
                            != parent
                    ||| exists|i: int|
                        #[trigger] is_first_with_surface(self.windows@, parent, i)
                            && !popup_pos_representable(self.windows@[i], *positioner)
                },
            },
    {
        if positioner.size.w < 1 || positioner.size.h < 1 {
            return None;
        }
        let n = self.windows.len();
        let mut i: usize = 0;
        while i < n
            invariant
                n == self.windows@.len(),
                0 <= i <= n,
                forall|j: int| 0 <= j < i ==> (#[trigger] self.windows@[j]).surface != parent,
                positioner.size.positive(),
            decreases n - i,
        {
            let w = &self.windows[i];
            if w.surface == parent {
                proof {
                    assert(is_first_with_surface(self.windows@, parent, i as int));
                }
                let px = w.rect.pos.x as i64 + positioner.anchor.pos.x as i64
                    + positioner.offset.x as i64;
                let py = w.rect.pos.y as i64 + positioner.anchor.pos.y as i64
                    + positioner.offset.y as i64;
                if i32::MIN as i64 <= px && px <= i32::MAX as i64 && i32::MIN as i64 <= py && py
                    <= i32::MAX as i64 {
                    return Some(
                        Rect {
                            pos: Point { x: px as i32, y: py as i32 },
                            size: positioner.size,
                        },
                    );
                } else {
                    return None;
                }
            }
            i = i + 1;
        }
        None
    }

    /// Hit test: the first (frontmost) window whose bounding box contains
    /// `p`, together with `p` translated into that window's local space.
    /// Input regions and shape masks are not consulted.
    pub fn element_under(&self, p: Point) -> (r: Option<Hit>)
        ensures
            match r {
                Some(h) => {
                    &&& is_first_hit(self.windows@, p, h.index as int)
                    &&& h.surface == self.windows@[h.index as int].surface
                    &&& h.relative.x == p.x - self.windows@[h.index as int].rect.pos.x
                    &&& h.relative.y == p.y - self.windows@[h.index as int].rect.pos.y
                },
                None => forall|j: int|
                    0 <= j < self.windows@.len() ==> !(#[trigger] self.windows@[j]).hits(p),
            },
    {
        let n = self.windows.len();
        let mut i: usize = 0;
        while i < n
            invariant
                n == self.windows@.len(),
                0 <= i <= n,
                forall|j: int| 0 <= j < i ==> !(#[trigger] self.windows@[j]).hits(p),
            decreases n - i,
        {
            let w = &self.windows[i];
            if w.mapped && w.rect.contains(p) {
                let rel = Point { x: p.x - w.rect.pos.x, y: p.y - w.rect.pos.y };
                return Some(Hit { index: i, surface: w.surface, relative: rel });
            }
            i = i + 1;
        }
        None
    }
}

/// Where a popup anchored to parent window `w` lands on the x axis.
pub open spec fn spec_popup_x(w: Window, p: Positioner) -> int {
    w.rect.pos.x + p.anchor.pos.x + p.offset.x
}

/// Where a popup anchored to parent window `w` lands on the y axis.
pub open spec fn spec_popup_y(w: Window, p: Positioner) -> int {
    w.rect.pos.y + p.anchor.pos.y + p.offset.y
}

/// Whether the popup position stays inside the pixel coordinate range.
pub open spec fn popup_pos_representable(w: Window, p: Positioner) -> bool {
    &&& i32::MIN <= spec_popup_x(w, p) <= i32::MAX
    &&& i32::MIN <= spec_popup_y(w, p) <= i32::MAX
}

/// `i` is the frontmost z-order position holding surface `s`.
pub open spec fn is_first_with_surface(ws: Seq<Window>, s: u64, i: int) -> bool {
    &&& 0 <= i < ws.len()
    &&& ws[i].surface == s
    &&& forall|j: int| 0 <= j < i ==> (#[trigger] ws[j]).surface != s
}

/// Focus resolution is a function of the space and the point alone: any two
/// indices that both satisfy the first-hit characterization coincide, so
/// repeated hit tests at one stationary pointer location against an unchanged
/// space return the same focused window.
pub proof fn lemma_hit_test_deterministic(ws: Seq<Window>, p: Point, i: int, j: int)
    requires
        is_first_hit(ws, p, i),
        is_first_hit(ws, p, j),
    ensures
        i == j,
{
    if i < j {
        assert(!ws[i].hits(p));
    }
    if j < i {
        assert(!ws[j].hits(p));
    }
}

} // verus!
