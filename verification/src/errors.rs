//! The compositor's error taxonomy.
//!
//! Every class is non-fatal to the reactor loop: device and output errors
//! leave the affected hardware absent until a later hot-plug retry, a buffer
//! import failure skips one window for one frame, and a present failure drops
//! one frame.

use vstd::prelude::*;

verus! {

/// Opening a GPU device node was denied (permission or seat access).
#[derive(Clone, Copy, PartialEq, Eq, Structural, Debug)]
pub enum DeviceOpenError {
    AccessDenied,
}

/// GPU context or allocator negotiation failed on an opened device.
#[derive(Clone, Copy, PartialEq, Eq, Structural, Debug)]
pub enum GraphicsInitError {
    ContextNegotiation,
}

/// No presentation surface could be built for a device.
#[derive(Clone, Copy, PartialEq, Eq, Structural, Debug)]
pub enum SurfaceCreateError {
    /// No display connector is in the connected state.
    NoConnectedConnector,
    /// The chosen connector advertises no mode.
    NoMode,
}

/// A client buffer could not be imported while compositing a frame.
#[derive(Clone, Copy, PartialEq, Eq, Structural, Debug)]
pub enum BufferImportError {
    ImportFailed,
}

/// Queuing a composited frame to the hardware failed.
#[derive(Clone, Copy, PartialEq, Eq, Structural, Debug)]
pub enum PresentError {
    QueueFailed,
}

} // verus!
