//! The device registry: hot-plug discovery of GPUs.
//!
//! Initialization is strictly hot-plug-driven: no device is probed
//! speculatively. Only the platform-designated primary GPU is opened; a
//! failure to open it or to negotiate a render context is logged and the
//! event dropped, leaving the reactor running with zero outputs until a
//! later hot-plug succeeds. Removal notifications are accepted but have no
//! teardown behavior in scope.

use vstd::prelude::*;

use crate::errors::{DeviceOpenError, GraphicsInitError};

verus! {

/// Why a primary device failed to come up; either way the hot-plug event is
/// dropped and the registry is unchanged.
#[derive(Clone, Copy, PartialEq, Eq, Structural, Debug)]
pub enum DeviceInitError {
    Open(DeviceOpenError),
    Graphics(GraphicsInitError),
}

/// A GPU render context bound to one device: the buffer allocator and the
/// GPU command context, held as handles into the graphics stack outside this
/// crate. The registry owns the context; per-output pipelines borrow it.
#[derive(Clone, Copy, PartialEq, Eq, Structural, Debug)]
pub struct RenderContext {
    pub allocator: u64,
    pub gpu_context: u64,
}

/// A discovered, opened GPU and its render context.
#[derive(Debug)]
pub struct Device {
    pub id: u64,
    pub path: Vec<u8>,
    pub primary: bool,
    pub context: RenderContext,
}

/// The registry of initialized graphics devices. `primary_path` is the
/// platform-designated primary GPU's device path, when the platform reported
/// one.
#[derive(Debug)]
pub struct DeviceRegistry {
    pub primary_path: Option<Vec<u8>>,
    pub devices: Vec<Device>,
}

/// Byte-for-byte equality of two device paths.
fn paths_equal(a: &Vec<u8>, b: &Vec<u8>) -> (r: bool)
    ensures
        r == (a@ == b@),
{
    if a.len() != b.len() {
        proof {
            assert(a@.len() != b@.len());
        }
        return false;
    }
    let n = a.len();
    let mut i: usize = 0;
    while i < n
        invariant
            n == a@.len(),
            n == b@.len(),
            0 <= i <= n,
            forall|j: int| 0 <= j < i ==> a@[j] == b@[j],
        decreases n - i,
    {
        if a[i] != b[i] {
            return false;
        }
        i = i + 1;
    }
    proof {
        assert(a@ =~= b@);
    }
    true
}

/// Whether `path` is the platform-designated primary GPU's path.
pub open spec fn spec_is_primary(primary: Option<Seq<u8>>, path: Seq<u8>) -> bool {
    match primary {
        Some(p) => p == path,
        None => false,
    }
}

impl DeviceRegistry {
    /// A registry that knows the platform's primary GPU path (if the
    /// platform reported one) and holds no device yet.
    pub fn new(primary_path: Option<Vec<u8>>) -> (r: DeviceRegistry)
        ensures
            r.devices@.len() == 0,
            match (r.primary_path, primary_path) {
                (Some(a), Some(b)) => a@ == b@,
                (None, None) => true,
                _ => false,
            },
    {
        DeviceRegistry { primary_path, devices: Vec::new() }
    }

    /// The primary path as a sequence of bytes, for contracts.
    pub open spec fn spec_primary(self) -> Option<Seq<u8>> {
        match self.primary_path {
            Some(p) => Some(p@),
            None => None,
        }
    }

    /// The hot-plug decision for a discovered device: open it if and only if
    /// its path matches the platform-designated primary GPU.
    pub fn should_initialize(&self, path: &Vec<u8>) -> (r: bool)
        ensures
            r == spec_is_primary(self.spec_primary(), path@),
    {
        match &self.primary_path {
            Some(p) => paths_equal(p, path),
            None => false,
        }
    }

    /// Record a primary device whose open and render-context negotiation
    /// both succeeded.
    pub fn device_initialized(&mut self, id: u64, path: Vec<u8>, context: RenderContext)
        requires
            old(self).devices@.len() < usize::MAX,
        ensures
            final(self).primary_path == old(self).primary_path,
            final(self).devices@.len() == old(self).devices@.len() + 1,
            final(self).devices@.last().id == id,
            final(self).devices@.last().path@ == path@,
            final(self).devices@.last().primary,
            final(self).devices@.last().context == context,
            forall|i: int|
                0 <= i < old(self).devices@.len() ==> final(self).devices@[i] == old(
                    self,
                ).devices@[i],
    {
        self.devices.push(Device { id, path, primary: true, context });
    }

}

} // verus!
