//! The reactor: the compositor's aggregate state and its single-threaded
//! event dispatch.
//!
//! Every backend event — hot-plug, input, presentation readiness — is routed
//! through one typed event enum consumed by `dispatch`, which mutates the
//! state and answers with the outside work the backend must perform. Each
//! callback runs to completion before the next event; the loop stops only at
//! an iteration boundary, after `running` was cleared by the reserved
//! shutdown chord.

use vstd::prelude::*;

use crate::device::{spec_is_primary, DeviceInitError, DeviceRegistry, RenderContext};
use crate::errors::PresentError;
use crate::geometry::{Point, Size};
use crate::input::{
    apply_motion, filter_key, spec_apply_motion, KeyFilter, PointerLocation, Seat, QUIT_KEYSYM,
};
use crate::output::{spec_next_offset, DamageTracker, Mode, OutputManager, Output};
use crate::render::{frame_plan_matches, plan_frame, FramePlan};
use crate::space::{is_first_hit, Space, WindowKind};

verus! {

/// One backend event, as handed to the reactor's dispatch function.
#[derive(Debug)]
pub enum Event {
    /// Hot-plug: a graphics device appeared.
    GpuAdded { id: u64, path: Vec<u8> },
    /// Hot-plug: a graphics device left. Teardown is not defined in scope.
    GpuRemoved { id: u64 },
    /// An input device appeared; logged only, no capability renegotiation.
    InputDeviceAdded,
    /// An input device left; logged only.
    InputDeviceRemoved,
    /// A key event, already resolved by the keyboard layout: whether Ctrl is
    /// held, the resulting keysym, and press or release.
    Keyboard { ctrl: bool, keysym: u32, pressed: bool, time_msec: u32 },
    /// Relative pointer motion, in whole pixels.
    PointerMotion { dx: i32, dy: i32, time_msec: u32 },
    /// The presentation surface of output `index` is ready for the next
    /// frame ("vblank").
    OutputReady { index: usize, time_msec: u32 },
    /// The backend reports how queuing the last composited frame of output
    /// `index` went.
    FrameQueued { index: usize, result: Result<(), PresentError> },
    /// Opening the primary device or negotiating its render context failed.
    DeviceInitFailed { error: DeviceInitError },
}

/// The outside work the backend is asked to perform after one event.
#[derive(Debug)]
pub enum Action {
    /// Nothing to do.
    Idle,
    /// Open the primary device and negotiate a render context, then report
    /// back through `device_initialized` or `DeviceInitFailed`.
    InitializeDevice,
    /// Forward the key event to the focused client unmodified.
    ForwardKey { time_msec: u32 },
    /// The reserved chord: the key event is swallowed.
    InterceptKey,
    /// Deliver a pointer motion to `surface`, at coordinates translated into
    /// that surface's local space.
    DeliverMotion { surface: u64, relative: Point, time_msec: u32 },
    /// No surface is under the pointer: deliver an empty focus.
    ClearFocus { time_msec: u32 },
    /// Composite and queue one frame for output `index` as `plan` says.
    RenderFrame { index: usize, plan: FramePlan },
}

/// Whether the loop runs another iteration.
#[derive(Clone, Copy, PartialEq, Eq, Structural, Debug)]
pub enum LoopDecision {
    KeepRunning,
    Stop,
}

/// A per-output render pipeline: the handle of the presentation surface the
/// backend queues frames on, and the output's damage tracker.
#[derive(Clone, Copy, PartialEq, Eq, Structural, Debug)]
pub struct RenderPipeline {
    pub surface: u64,
    pub tracker: DamageTracker,
}

/// The whole single-threaded compositor state: device registry, outputs and
/// their pipelines, the window space, the seats, the pointer, and the
/// `running` flag the shutdown chord clears.
#[derive(Debug)]
pub struct Compositor {
    pub devices: DeviceRegistry,
    pub outputs: OutputManager,
    pub pipelines: Vec<RenderPipeline>,
    pub space: Space,
    pub seats: Vec<Seat>,
    pub pointer: PointerLocation,
    pub running: bool,
}

impl Compositor {
    /// Outputs and space are well-formed, and each output has exactly one
    /// pipeline whose tracker is sized to the output's mode.
    pub open spec fn wf(self) -> bool {
        &&& self.outputs.wf()
        &&& self.space.wf()
        &&& self.pipelines@.len() == self.outputs.outputs@.len()
        &&& forall|i: int|
            0 <= i < self.pipelines@.len() ==> (#[trigger] self.pipelines@[i]).tracker.size
                == self.outputs.outputs@[i].mode.size
    }

    /// A fresh compositor: no devices, outputs, windows, or seats; the
    /// pointer at the origin; the loop running.
    pub fn new(primary_path: Option<Vec<u8>>) -> (c: Compositor)
        ensures
            c.wf(),
            c.devices.devices@.len() == 0,
            match (c.devices.primary_path, primary_path) {
                (Some(a), Some(b)) => a@ == b@,
                (None, None) => true,
                _ => false,
            },
            c.outputs.outputs@.len() == 0,
            c.pipelines@.len() == 0,
            c.space.windows@.len() == 0,
            c.seats@.len() == 0,
            c.pointer == (PointerLocation { x: 0, y: 0 }),
            c.running,
    {
        Compositor {
            devices: DeviceRegistry::new(primary_path),
            outputs: OutputManager::new(),
            pipelines: Vec::new(),
            space: Space::new(),
            seats: Vec::new(),
            pointer: PointerLocation::origin(),
            running: true,
        }
    }

    /// The events the reactor may be handed in the current state: input
    /// needs the first seat with the matching capability (the router drives
    /// only seat 0), and readiness must name a registered output.
    pub open spec fn event_permitted(self, event: Event) -> bool {
        match event {
            Event::Keyboard { .. } => self.seats@.len() >= 1 && self.seats@[0].keyboard,
            Event::PointerMotion { .. } => self.seats@.len() >= 1 && self.seats@[0].pointer,
            Event::OutputReady { index, .. } => index < self.outputs.outputs@.len(),
            _ => true,
        }
    }

    /// Dispatch one backend event: mutate the state as the event demands and
    /// answer with the outside work to perform. No event ever stops the
    /// reactor here — shutdown is requested only through the `running` flag.
    #[verifier::rlimit(60)]
    pub fn dispatch(&mut self, event: &Event) -> (a: Action)
        requires
            old(self).wf(),
            old(self).event_permitted(*event),
        ensures
            final(self).wf(),
            *event matches Event::GpuAdded { path, .. } ==> {
                &&& *final(self) == *old(self)
                &&& a == (if spec_is_primary(old(self).devices.spec_primary(), path@) {
                    Action::InitializeDevice
                } else {
                    Action::Idle
                })
            },
            *event matches Event::GpuRemoved { .. } ==> *final(self) == *old(self) && a
                == Action::Idle,
            *event matches Event::InputDeviceAdded ==> *final(self) == *old(self) && a
                == Action::Idle,
            *event matches Event::InputDeviceRemoved ==> *final(self) == *old(self) && a
                == Action::Idle,
            *event matches Event::Keyboard { ctrl, keysym, pressed, time_msec } ==> {
                    &&& final(self).running == (old(self).running && !(ctrl && keysym
                        == QUIT_KEYSYM && pressed))
                    &&& final(self).devices == old(self).devices
                    &&& final(self).outputs == old(self).outputs
                    &&& final(self).pipelines == old(self).pipelines
                    &&& final(self).space == old(self).space
                    &&& final(self).seats == old(self).seats
                    &&& final(self).pointer == old(self).pointer
                    &&& a == (if ctrl && keysym == QUIT_KEYSYM {
                        Action::InterceptKey
                    } else {
                        Action::ForwardKey { time_msec }
                    })
            },
            *event matches Event::PointerMotion { dx, dy, time_msec } ==> {
                    let bounds = if old(self).outputs.outputs@.len() > 0 {
                        Some(old(self).outputs.outputs@[0].mode.size)
                    } else {
                        None::<Size>
                    };
                    let moved = spec_apply_motion(old(self).pointer, dx as int, dy as int, bounds);
                    let point = Point { x: moved.x, y: moved.y };
                    &&& final(self).pointer == moved
                    &&& final(self).running == old(self).running
                    &&& final(self).devices == old(self).devices
                    &&& final(self).outputs == old(self).outputs
                    &&& final(self).pipelines == old(self).pipelines
                    &&& final(self).space == old(self).space
                    &&& final(self).seats@.len() == old(self).seats@.len()
                    &&& forall|i: int|
                        1 <= i < old(self).seats@.len() ==> final(self).seats@[i] == old(
                            self,
                        ).seats@[i]
                    &&& final(self).seats@[0].keyboard == old(self).seats@[0].keyboard
                    &&& final(self).seats@[0].pointer == old(self).seats@[0].pointer
                    &&& motion_action_matches(
                        old(self).space.windows@,
                        point,
                        time_msec,
                        final(self).seats@[0].focus,
                        a,
                    )
            },
            *event matches Event::OutputReady { index, .. } ==> {
                &&& *final(self) == *old(self)
                &&& match a {
                    Action::RenderFrame { index: i, plan } => i == index && frame_plan_matches(
                        plan,
                        old(self).space.windows@,
                        old(self).outputs.outputs@[index as int].mode.size,
                    ),
                    _ => false,
                }
            },
            *event matches Event::FrameQueued { .. } ==> *final(self) == *old(self) && a
                == Action::Idle,
            *event matches Event::DeviceInitFailed { .. } ==> *final(self) == *old(self) && a
                == Action::Idle,
    {
        match event {
            Event::GpuAdded { id: _, path } => {
                if self.devices.should_initialize(path) {
                    Action::InitializeDevice
                } else {
                    Action::Idle
                }
            },
            Event::GpuRemoved { .. } => Action::Idle,
            Event::InputDeviceAdded => Action::Idle,
            Event::InputDeviceRemoved => Action::Idle,
            Event::Keyboard { ctrl, keysym, pressed, time_msec } => {
                match filter_key(&mut self.running, *ctrl, *keysym, *pressed) {
                    KeyFilter::Intercept => Action::InterceptKey,
                    KeyFilter::Forward => Action::ForwardKey { time_msec: *time_msec },
                }
            },
            Event::PointerMotion { dx, dy, time_msec } => {
                let ghost pre = *self;
                let bounds = self.outputs.first_bounds();
                proof {
                    assert(bounds == if pre.outputs.outputs@.len() > 0 {
                        Some(pre.outputs.outputs@[0].mode.size)
                    } else {
                        None::<Size>
                    });
                }
                self.pointer = apply_motion(self.pointer, *dx, *dy, bounds);
                let ghost moved = spec_apply_motion(pre.pointer, *dx as int, *dy as int, bounds);
                let point = Point { x: self.pointer.x, y: self.pointer.y };
                proof {
                    assert(self.pointer == moved);
                    assert(point == (Point { x: moved.x, y: moved.y }));
                }
                let s0 = self.seats[0];
                let act = match self.space.element_under(point) {
                    Some(h) => {
                        proof {
                            assert(is_first_hit(self.space.windows@, point, h.index as int));
                        }
                        self.seats[0] = Seat {
                            keyboard: s0.keyboard,
                            pointer: s0.pointer,
                            focus: Some(h.surface),
                        };
                        Action::DeliverMotion {
                            surface: h.surface,
                            relative: h.relative,
                            time_msec: *time_msec,
                        }
                    },
                    None => {
                        self.seats[0] = Seat {
                            keyboard: s0.keyboard,
                            pointer: s0.pointer,
                            focus: None,
                        };
                        Action::ClearFocus { time_msec: *time_msec }
                    },
                };
                proof {
                    assert(motion_action_matches(
                        pre.space.windows@,
                        point,
                        *time_msec,
                        self.seats@[0].focus,
                        act,
                    ));
                }
                act
            },
            Event::OutputReady { index, .. } => {
                let size = self.outputs.outputs[*index].mode.size;
                let plan = plan_frame(&self.space, size);
                Action::RenderFrame { index: *index, plan }
            },
            Event::FrameQueued { .. } => Action::Idle,
            Event::DeviceInitFailed { .. } => Action::Idle,
        }
    }

    /// The backend finished what `InitializeDevice` asked: the primary
    /// device is open and its render context negotiated. Record it.
    pub fn device_initialized(&mut self, id: u64, path: Vec<u8>, context: RenderContext)
        requires
            old(self).wf(),
            old(self).devices.devices@.len() < usize::MAX,
        ensures
            final(self).wf(),
            final(self).devices.primary_path == old(self).devices.primary_path,
            final(self).devices.devices@.len() == old(self).devices.devices@.len() + 1,
            final(self).devices.devices@.last().id == id,
            final(self).devices.devices@.last().path@ == path@,
            final(self).devices.devices@.last().primary,
            final(self).devices.devices@.last().context == context,
            forall|i: int|
                0 <= i < old(self).devices.devices@.len() ==> final(self).devices.devices@[i]
                    == old(self).devices.devices@[i],
            final(self).outputs == old(self).outputs,
            final(self).pipelines == old(self).pipelines,
            final(self).space == old(self).space,
            final(self).seats == old(self).seats,
            final(self).pointer == old(self).pointer,
            final(self).running == old(self).running,
    {
        self.devices.device_initialized(id, path, context);
    }

    /// The backend created the presentation surface for the chosen connector
    /// and mode: register the output at the space's next free horizontal
    /// offset, give it a damage tracker sized to the mode and exactly one
    /// seat with keyboard and pointer, and return the output's index with
    /// the initial frame plan — one frame is presented synchronously before
    /// the first hardware readiness signal arrives.
    pub fn register_output(&mut self, mode: Mode, surface: u64) -> (r: (usize, FramePlan))
        requires
            old(self).wf(),
            mode.size.positive(),
            spec_next_offset(old(self).outputs.outputs@) + mode.size.w <= i32::MAX,
            old(self).outputs.outputs@.len() < usize::MAX,
            old(self).seats@.len() < usize::MAX,
        ensures
            final(self).wf(),
            r.0 == old(self).outputs.outputs@.len(),
            final(self).outputs.outputs@ == old(self).outputs.outputs@.push(
                Output {
                    mode,
                    position: Point {
                        x: spec_next_offset(old(self).outputs.outputs@) as i32,
                        y: 0,
                    },
                },
            ),
            final(self).pipelines@ == old(self).pipelines@.push(
                RenderPipeline { surface, tracker: DamageTracker { size: mode.size } },
            ),
            final(self).seats@ == old(self).seats@.push(
                Seat { keyboard: true, pointer: true, focus: None::<u64> },
            ),
            frame_plan_matches(r.1, old(self).space.windows@, mode.size),
            final(self).devices == old(self).devices,
            final(self).space == old(self).space,
            final(self).pointer == old(self).pointer,
            final(self).running == old(self).running,
    {
        let idx = self.outputs.add_output(mode);
        self.pipelines.push(RenderPipeline { surface, tracker: DamageTracker::from_mode(mode) });
        self.seats.push(Seat::new(true, true));
        let plan = plan_frame(&self.space, mode.size);
        proof {
            assert forall|i: int| 0 <= i < self.pipelines@.len() implies (
            #[trigger] self.pipelines@[i]).tracker.size == self.outputs.outputs@[i].mode.size by {
                if i < old(self).pipelines@.len() {
                    assert(self.pipelines@[i] == old(self).pipelines@[i]);
                    assert(self.outputs.outputs@[i] == old(self).outputs.outputs@[i]);
                }
            }
        }
        (idx, plan)
    }

    /// Map a new native toplevel: apply the auto-maximize policy against the
    /// first output and answer with the resize request owed to the client,
    /// if an output exists.
    pub fn new_toplevel(&mut self, surface: u64, client_size: Size) -> (resize: Option<Size>)
        requires
            old(self).wf(),
            client_size.positive(),
            old(self).space.windows@.len() < usize::MAX,
        ensures
            final(self).wf(),
            toplevel_mapped(*old(self), *final(self), surface, WindowKind::Native, client_size, resize),
    {
        let bounds = self.outputs.first_bounds();
        self.space.map_toplevel(surface, WindowKind::Native, client_size, bounds)
    }

    /// Map a window raised by the legacy-X11 compatibility layer: the same
    /// mapping path as a native toplevel.
    pub fn new_x11_window(&mut self, surface: u64, client_size: Size) -> (resize: Option<Size>)
        requires
            old(self).wf(),
            client_size.positive(),
            old(self).space.windows@.len() < usize::MAX,
        ensures
            final(self).wf(),
            toplevel_mapped(*old(self), *final(self), surface, WindowKind::X11, client_size, resize),
    {
        let bounds = self.outputs.first_bounds();
        self.space.map_toplevel(surface, WindowKind::X11, client_size, bounds)
    }

    /// The check at the end of every dispatch turn: the loop terminates only
    /// here, and only once the shutdown chord has cleared `running`. Events
    /// already dispatched in the turn completed normally; nothing after a
    /// `Stop` is processed.
    pub fn iteration_boundary(&self) -> (d: LoopDecision)
        ensures
            d == (if self.running {
                LoopDecision::KeepRunning
            } else {
                LoopDecision::Stop
            }),
    {
        if self.running {
            LoopDecision::KeepRunning
        } else {
            LoopDecision::Stop
        }
    }
}

/// What mapping a new toplevel-like window changes: the window goes in at
/// the origin, mapped and activated, as the new primary; when an output
/// exists the client is asked to resize to the first output's current
/// logical size (outputs run at scale 1, so logical and physical sizes
/// coincide) and the window takes that size, otherwise it keeps its
/// client-requested size and no resize is requested; nothing else moves.
pub open spec fn toplevel_mapped(
    pre: Compositor,
    post: Compositor,
    surface: u64,
    kind: WindowKind,
    client_size: Size,
    resize: Option<Size>,
) -> bool {
    let output_size = if pre.outputs.outputs@.len() > 0 {
        Some(pre.outputs.outputs@[0].mode.size)
    } else {
        None::<Size>
    };
    &&& resize == output_size
    &&& post.space.windows@ == pre.space.windows@.insert(
        0,
        crate::space::Window {
            surface,
            kind,
            rect: crate::geometry::Rect {
                pos: Point { x: 0, y: 0 },
                size: match output_size {
                    Some(m) => m,
                    None => client_size,
                },
            },
            mapped: true,
            activated: true,
        },
    )
    &&& post.devices == pre.devices
    &&& post.outputs == pre.outputs
    &&& post.pipelines == pre.pipelines
    &&& post.seats == pre.seats
    &&& post.pointer == pre.pointer
    &&& post.running == pre.running
}


/// What the pointer router answers for a motion that ended at `point` over
/// the windows `ws`, and where it left the first seat's focus: the frontmost
/// window under the point gets the motion, translated into its local space,
/// and becomes the focus; with nothing under the point the focus is emptied.
pub open spec fn motion_action_matches(
    ws: Seq<crate::space::Window>,
    point: Point,
    time: u32,
    focus: Option<u64>,
    a: Action,
) -> bool {
    match a {
        Action::DeliverMotion { surface, relative, time_msec } => {
            &&& time_msec == time
            &&& focus == Some(surface)
            &&& exists|i: int|
                {
                    &&& #[trigger] is_first_hit(ws, point, i)
                    &&& surface == ws[i].surface
                    &&& relative.x == point.x - ws[i].rect.pos.x
                    &&& relative.y == point.y - ws[i].rect.pos.y
                }
        },
        Action::ClearFocus { time_msec } => {
            &&& time_msec == time
            &&& focus is None
            &&& forall|j: int| 0 <= j < ws.len() ==> !(#[trigger] ws[j]).hits(point)
        },
        _ => false,
    }
}


/// Focus resolution is idempotent for a stationary pointer: two motion
/// routings that end at the same point over an unchanged space leave the
/// same focus, whatever the events' timestamps.
pub proof fn lemma_stationary_focus_idempotent(
    ws: Seq<crate::space::Window>,
    point: Point,
    t1: u32,
    t2: u32,
    f1: Option<u64>,
    f2: Option<u64>,
    a1: Action,
    a2: Action,
)
    requires
        motion_action_matches(ws, point, t1, f1, a1),
        motion_action_matches(ws, point, t2, f2, a2),
    ensures
        f1 == f2,
{
    match (a1, a2) {
        (
            Action::DeliverMotion { surface: s1, relative: r1, .. },
            Action::DeliverMotion { surface: s2, relative: r2, .. },
        ) => {
            let i1 = choose|i: int|
                {
                    &&& #[trigger] is_first_hit(ws, point, i)
                    &&& s1 == ws[i].surface
                    &&& r1.x == point.x - ws[i].rect.pos.x
                    &&& r1.y == point.y - ws[i].rect.pos.y
                };
            let i2 = choose|i: int|
                {
                    &&& #[trigger] is_first_hit(ws, point, i)
                    &&& s2 == ws[i].surface
                    &&& r2.x == point.x - ws[i].rect.pos.x
                    &&& r2.y == point.y - ws[i].rect.pos.y
                };
            crate::space::lemma_hit_test_deterministic(ws, point, i1, i2);
        },
        (Action::DeliverMotion { surface: s1, relative: r1, .. }, Action::ClearFocus { .. }) => {
            let i1 = choose|i: int|
                {
                    &&& #[trigger] is_first_hit(ws, point, i)
                    &&& s1 == ws[i].surface
                    &&& r1.x == point.x - ws[i].rect.pos.x
                    &&& r1.y == point.y - ws[i].rect.pos.y
                };
            assert(ws[i1].hits(point));
        },
        (Action::ClearFocus { .. }, Action::DeliverMotion { surface: s2, relative: r2, .. }) => {
            let i2 = choose|i: int|
                {
                    &&& #[trigger] is_first_hit(ws, point, i)
                    &&& s2 == ws[i].surface
                    &&& r2.x == point.x - ws[i].rect.pos.x
                    &&& r2.y == point.y - ws[i].rect.pos.y
                };
            assert(ws[i2].hits(point));
        },
        _ => {},
    }
}

} // verus!
