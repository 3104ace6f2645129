//! The per-frame composite plan.
//!
//! Once per readiness notification (and once right after an output is
//! created) the pipeline plans one frame: the primary window — the space's
//! first element — goes through the integer-scaling nearest-neighbor path
//! into its letterboxed rectangle, every other mapped window is composited
//! 1:1 at its logical position, and every mapped window's client is owed a
//! frame-presentation callback. A window whose buffer fails to import is
//! skipped for the frame; a failure to queue the finished frame drops only
//! that frame.

use vstd::prelude::*;

use crate::errors::BufferImportError;
use crate::geometry::{Point, Size};
use crate::scaling::{letterbox, spec_letterbox, ScaledPlacement};
use crate::space::{Space, Window};

verus! {

/// The primary window's draw through the integer-scaling shader path.
#[derive(Clone, Copy, PartialEq, Eq, Structural, Debug)]
pub struct PrimaryPlacement {
    pub surface: u64,
    pub placement: ScaledPlacement,
}

/// One non-primary window composited 1:1 at its logical position.
#[derive(Clone, Copy, PartialEq, Eq, Structural, Debug)]
pub struct DirectPlacement {
    pub surface: u64,
    pub pos: Point,
}

/// Everything one composite pass draws and signals for one output.
#[derive(Debug)]
pub struct FramePlan {
    /// The primary (first, "game") window, letterboxed and integer-scaled.
    pub primary: Option<PrimaryPlacement>,
    /// The remaining windows, drawn unscaled at their positions.
    pub direct: Vec<DirectPlacement>,
    /// Surfaces owed the frame-presentation timestamp, in z order.
    pub callbacks: Vec<u64>,
}

/// What a composite plan promises for windows `ws` on an output of size
/// `out`: the primary draw exists exactly when a window does and uses the
/// letterboxed integer-scaled placement; the remaining windows keep their
/// order and positions; every window gets its frame callback.
pub open spec fn frame_plan_matches(p: FramePlan, ws: Seq<Window>, out: Size) -> bool {
    &&& match p.primary {
        Some(pp) => ws.len() > 0 && pp.surface == ws[0].surface && pp.placement == spec_letterbox(
            out,
            ws[0].rect.size,
        ),
        None => ws.len() == 0,
    }
    &&& p.direct@.len() == if ws.len() == 0 {
        0int
    } else {
        ws.len() - 1
    }
    &&& forall|k: int|
        0 <= k < p.direct@.len() ==> (#[trigger] p.direct@[k]).surface == ws[k + 1].surface
            && p.direct@[k].pos == ws[k + 1].rect.pos
    &&& p.callbacks@.len() == ws.len()
    &&& forall|k: int| 0 <= k < ws.len() ==> #[trigger] p.callbacks@[k] == ws[k].surface
}

/// Plan one composite pass for an output of size `output_size`.
pub fn plan_frame(space: &Space, output_size: Size) -> (p: FramePlan)
    requires
        space.wf(),
        output_size.positive(),
    ensures
        frame_plan_matches(p, space.windows@, output_size),
{
    let n = space.windows.len();
    let primary = if n > 0 {
        let w0 = &space.windows[0];
        let placement = letterbox(output_size, w0.rect.size);
        Some(PrimaryPlacement { surface: w0.surface, placement })
    } else {
        None
    };
    let mut direct: Vec<DirectPlacement> = Vec::new();
    let mut k: usize = 1;
    while n > 0 && k < n
        invariant
            n == space.windows@.len(),
            1 <= k <= n || (n == 0 && k == 1),
            direct@.len() == k - 1,
            forall|j: int|
                0 <= j < direct@.len() ==> (#[trigger] direct@[j]).surface == space.windows@[j
                    + 1].surface && direct@[j].pos == space.windows@[j + 1].rect.pos,
        decreases n - k,
    {
        let w = &space.windows[k];
        direct.push(DirectPlacement { surface: w.surface, pos: w.rect.pos });
        k = k + 1;
    }
    let mut callbacks: Vec<u64> = Vec::new();
    let mut i: usize = 0;
    while i < n
        invariant
            n == space.windows@.len(),
            0 <= i <= n,
            callbacks@.len() == i,
            forall|j: int| 0 <= j < i ==> #[trigger] callbacks@[j] == space.windows@[j].surface,
        decreases n - i,
    {
        callbacks.push(space.windows[i].surface);
        i = i + 1;
    }
    FramePlan { primary, direct, callbacks }
}

/// The 1:1 draws that remain after each window's buffer import was
/// attempted: exactly the ones whose import succeeded, in order.
pub open spec fn spec_retain_imported(s: Seq<DirectPlacement>, ok: Seq<bool>) -> Seq<
    DirectPlacement,
>
    recommends
        s.len() == ok.len(),
    decreases s.len(),
{
    if s.len() == 0 {
        Seq::empty()
    } else {
        let rest = spec_retain_imported(s.drop_last(), ok.drop_last());
        if ok.last() {
            rest.push(s.last())
        } else {
            rest
        }
    }
}

/// Apply the per-frame failure policy to the 1:1 draws: a window whose
/// buffer could not be imported is skipped for this frame — only that
/// window, and the composite itself never aborts.
pub fn retain_imported(
    direct: &Vec<DirectPlacement>,
    imports: &Vec<Result<(), BufferImportError>>,
) -> (kept: Vec<DirectPlacement>)
    requires
        imports@.len() == direct@.len(),
    ensures
        kept@ == spec_retain_imported(
            direct@,
            Seq::new(direct@.len(), |i: int| imports@[i] is Ok),
        ),
{
    let ghost ok = Seq::new(direct@.len(), |i: int| imports@[i] is Ok);
    let n = direct.len();
    let mut kept: Vec<DirectPlacement> = Vec::new();
    let mut i: usize = 0;
    while i < n
        invariant
            n == direct@.len(),
            n == imports@.len(),
            0 <= i <= n,
            ok == Seq::new(direct@.len(), |j: int| imports@[j] is Ok),
            kept@ == spec_retain_imported(direct@.take(i as int), ok.take(i as int)),
        decreases n - i,
    {
        proof {
            assert(direct@.take(i + 1).drop_last() =~= direct@.take(i as int));
            assert(ok.take(i + 1).drop_last() =~= ok.take(i as int));
            assert(direct@.take(i + 1).last() == direct@[i as int]);
            assert(ok.take(i + 1).last() == ok[i as int]);
        }
        let imported = match &imports[i] {
            Ok(_) => true,
            Err(_) => false,
        };
        if imported {
            kept.push(direct[i]);
        }
        i = i + 1;
    }
    proof {
        assert(direct@.take(n as int) =~= direct@);
        assert(ok.take(n as int) =~= ok);
    }
    kept
}

} // verus!
