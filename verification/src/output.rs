//! Outputs: mode negotiation, placement, and per-output damage state.
//!
//! For a primary device with an open render context, the manager picks the
//! first connector reported as connected and that connector's first
//! advertised mode, and registers an output for it at the space's next free
//! horizontal offset. Each output owns one damage tracker sized to its mode.

use vstd::prelude::*;

use crate::errors::SurfaceCreateError;
use crate::geometry::{Point, Rect, Size};

verus! {

/// One display mode a connector advertises: resolution in physical pixels
/// and the refresh rate in millihertz.
#[derive(Clone, Copy, PartialEq, Eq, Structural, Debug)]
pub struct Mode {
    pub size: Size,
    pub refresh_mhz: i32,
}

/// The connection state a connector reports.
#[derive(Clone, Copy, PartialEq, Eq, Structural, Debug)]
pub enum ConnectorStatus {
    Connected,
    Disconnected,
    Unknown,
}

/// One display connector of a device: its reported state and its advertised
/// modes, kept in the connector's own preference order.
#[derive(Debug)]
pub struct Connector {
    pub status: ConnectorStatus,
    pub modes: Vec<Mode>,
}

impl Connector {
    /// Every advertised mode names a real resolution.
    pub open spec fn wf(self) -> bool {
        forall|i: int|
            0 <= i < self.modes@.len() ==> (#[trigger] self.modes@[i]).size.positive()
    }

    /// Whether the connector reports a connected display.
    pub open spec fn spec_connected(self) -> bool {
        self.status is Connected
    }
}

/// A logical display sink: its current mode and its position in the shared
/// space. Protocol-facing metadata (name, make, model) stays with the
/// protocol layer outside this crate.
#[derive(Clone, Copy, PartialEq, Eq, Structural, Debug)]
pub struct Output {
    pub mode: Mode,
    pub position: Point,
}

/// Per-output record of regions changed since the last composited frame.
/// The current pipeline composites full frames, so the whole output is
/// reported damaged; the tracker is reserved for partial updates.
#[derive(Clone, Copy, PartialEq, Eq, Structural, Debug)]
pub struct DamageTracker {
    pub size: Size,
}

impl DamageTracker {
    /// A tracker sized to an output's mode.
    pub fn from_mode(mode: Mode) -> (t: DamageTracker)
        ensures
            t.size == mode.size,
    {
        DamageTracker { size: mode.size }
    }

    /// The region to redraw this frame: the full output.
    pub fn frame_damage(&self) -> (r: Rect)
        ensures
            r == (Rect { pos: Point { x: 0, y: 0 }, size: self.size }),
    {
        Rect { pos: Point { x: 0, y: 0 }, size: self.size }
    }
}

/// Pick the connector to drive: the first one reporting a connected display.
/// With none connected the device is left without an output and the caller
/// logs and retries on a later hot-plug.
pub fn select_connector(connectors: &Vec<Connector>) -> (r: Result<usize, SurfaceCreateError>)
    ensures
        match r {
            Ok(i) => {
                &&& 0 <= i < connectors@.len()
                &&& connectors@[i as int].spec_connected()
                &&& forall|j: int| 0 <= j < i ==> !(#[trigger] connectors@[j]).spec_connected()
            },
            Err(e) => {
                &&& e == SurfaceCreateError::NoConnectedConnector
                &&& forall|j: int|
                    0 <= j < connectors@.len() ==> !(#[trigger] connectors@[j]).spec_connected()
            },
        },
{
    let n = connectors.len();
    let mut i: usize = 0;
    while i < n
        invariant
            n == connectors@.len(),
            0 <= i <= n,
            forall|j: int| 0 <= j < i ==> !(#[trigger] connectors@[j]).spec_connected(),
        decreases n - i,
    {
        let c = &connectors[i];
        let connected = match c.status {
            ConnectorStatus::Connected => true,
            ConnectorStatus::Disconnected => false,
            ConnectorStatus::Unknown => false,
        };
        if connected {
            return Ok(i);
        }
        i = i + 1;
    }
    Err(SurfaceCreateError::NoConnectedConnector)
}

/// Pick the mode to drive a connector with: its first advertised mode, with
/// no preference heuristic beyond the connector's own ordering.
pub fn select_mode(connector: &Connector) -> (r: Result<Mode, SurfaceCreateError>)
    ensures
        match r {
            Ok(m) => connector.modes@.len() > 0 && m == connector.modes@[0],
            Err(e) => e == SurfaceCreateError::NoMode && connector.modes@.len() == 0,
        },
{
    if connector.modes.len() > 0 {
        Ok(connector.modes[0])
    } else {
        Err(SurfaceCreateError::NoMode)
    }
}

/// `i` is the first connector reporting a connected display.
pub open spec fn is_first_connected(cs: Seq<Connector>, i: int) -> bool {
    &&& 0 <= i < cs.len()
    &&& cs[i].spec_connected()
    &&& forall|j: int| 0 <= j < i ==> !(#[trigger] cs[j]).spec_connected()
}

/// Choose what will drive a fresh primary device: the first connected
/// connector and that connector's first advertised mode. Either failure
/// leaves the device without an output; the caller logs it and a later
/// hot-plug retries.
pub fn choose_connector_mode(connectors: &Vec<Connector>) -> (r: Result<
    (usize, Mode),
    SurfaceCreateError,
>)
    ensures
        match r {
            Ok((i, m)) => {
                &&& is_first_connected(connectors@, i as int)
                &&& connectors@[i as int].modes@.len() > 0
                &&& m == connectors@[i as int].modes@[0]
            },
            Err(e) => {
                ||| (e == SurfaceCreateError::NoConnectedConnector && forall|j: int|
                    0 <= j < connectors@.len() ==> !(#[trigger] connectors@[j]).spec_connected())
                ||| (e == SurfaceCreateError::NoMode && exists|i: int|
                    #[trigger] is_first_connected(connectors@, i) && connectors@[i].modes@.len()
                        == 0)
            },
        },
{
    let i = match select_connector(connectors) {
        Ok(i) => i,
        Err(e) => {
            return Err(e);
        },
    };
    proof {
        assert(is_first_connected(connectors@, i as int));
    }
    match select_mode(&connectors[i]) {
        Ok(m) => Ok((i, m)),
        Err(e) => Err(e),
    }
}

/// The space's next free horizontal offset: just right of the rightmost
/// registered output, or the origin when none exists.
pub open spec fn spec_next_offset(outs: Seq<Output>) -> int
    decreases outs.len(),
{
    if outs.len() == 0 {
        0
    } else {
        let rest = spec_next_offset(outs.drop_last());
        let edge = outs.last().position.x + outs.last().mode.size.w;
        if edge > rest {
            edge
        } else {
            rest
        }
    }
}

/// The outputs registered with the space, in discovery order.
#[derive(Debug)]
pub struct OutputManager {
    pub outputs: Vec<Output>,
}

impl OutputManager {
    /// Every output has a real mode, sits at a nonnegative offset, and its
    /// right edge stays inside the coordinate range.
    pub open spec fn wf(self) -> bool {
        forall|i: int|
            0 <= i < self.outputs@.len() ==> {
                let o = #[trigger] self.outputs@[i];
                &&& o.mode.size.positive()
                &&& o.position.x >= 0
                &&& o.position.y == 0
                &&& o.position.x + o.mode.size.w <= i32::MAX
            }
    }

    /// No outputs yet.
    pub fn new() -> (m: OutputManager)
        ensures
            m.wf(),
            m.outputs@.len() == 0,
    {
        OutputManager { outputs: Vec::new() }
    }

    /// The bounds the pointer is clamped to: the first output's mode, if any
    /// output is registered.
    pub fn first_bounds(&self) -> (r: Option<Size>)
        ensures
            match r {
                Some(b) => self.outputs@.len() > 0 && b == self.outputs@[0].mode.size,
                None => self.outputs@.len() == 0,
            },
    {
        if self.outputs.len() > 0 {
            Some(self.outputs[0].mode.size)
        } else {
            None
        }
    }

    /// Where the next output goes: the space's next free horizontal offset.
    pub fn next_position(&self) -> (p: Point)
        requires
            self.wf(),
        ensures
            p.x == spec_next_offset(self.outputs@),
            p.y == 0,
    {
        proof {
            lemma_next_offset_bounds(self.outputs@);
        }
        let n = self.outputs.len();
        let mut i: usize = 0;
        let mut edge: i32 = 0;
        while i < n
            invariant
                n == self.outputs@.len(),
                0 <= i <= n,
                self.wf(),
                edge == spec_next_offset(self.outputs@.take(i as int)),
                0 <= edge <= i32::MAX,
            decreases n - i,
        {
            proof {
                assert(self.outputs@.take(i + 1).drop_last() =~= self.outputs@.take(i as int));
                assert(self.outputs@.take(i + 1).last() == self.outputs@[i as int]);
            }
            let o = &self.outputs[i];
            let e = o.position.x + o.mode.size.w;
            if e > edge {
                edge = e;
            }
            i = i + 1;
        }
        proof {
            assert(self.outputs@.take(n as int) =~= self.outputs@);
        }
        Point { x: edge, y: 0 }
    }

    /// Register a new output running `mode`, placed at the next free
    /// horizontal offset. Returns its index.
    pub fn add_output(&mut self, mode: Mode) -> (idx: usize)
        requires
            old(self).wf(),
            mode.size.positive(),
            spec_next_offset(old(self).outputs@) + mode.size.w <= i32::MAX,
            old(self).outputs@.len() < usize::MAX,
        ensures
            final(self).wf(),
            idx == old(self).outputs@.len(),
            final(self).outputs@ == old(self).outputs@.push(
                Output {
                    mode,
                    position: Point { x: spec_next_offset(old(self).outputs@) as i32, y: 0 },
                },
            ),
    {
        proof {
            lemma_next_offset_bounds(self.outputs@);
        }
        let pos = self.next_position();
        let idx = self.outputs.len();
        self.outputs.push(Output { mode, position: pos });
        proof {
            assert forall|i: int| 0 <= i < self.outputs@.len() implies {
                let o = #[trigger] self.outputs@[i];
                &&& o.mode.size.positive()
                &&& o.position.x >= 0
                &&& o.position.y == 0
                &&& o.position.x + o.mode.size.w <= i32::MAX
            } by {
                if i < old(self).outputs@.len() {
                    assert(self.outputs@[i] == old(self).outputs@[i]);
                }
            }
        }
        idx
    }
}

/// The next free offset never moves left of any registered output's right
/// edge, and is nonnegative.
proof fn lemma_next_offset_bounds(outs: Seq<Output>)
    ensures
        0 <= spec_next_offset(outs),
        forall|i: int|
            0 <= i < outs.len() ==> (#[trigger] outs[i]).position.x + outs[i].mode.size.w
                <= spec_next_offset(outs),
    decreases outs.len(),
{
    if outs.len() > 0 {
        lemma_next_offset_bounds(outs.drop_last());
        assert forall|i: int| 0 <= i < outs.len() implies (#[trigger] outs[i]).position.x
            + outs[i].mode.size.w <= spec_next_offset(outs) by {
            if i < outs.len() - 1 {
                assert(outs.drop_last()[i] == outs[i]);
            }
        }
    }
}

} // verus!
