//! Verified core of a pixel-accurate game compositor.
//!
//! The library holds the decision logic of a single-threaded display
//! compositor: graphics-device hot-plug handling, output and mode selection,
//! the integer-ratio upscaling policy with nearest-neighbor sampling, the
//! window space with its auto-maximize placement rule, pointer clamping and
//! focus resolution, and the reactor-loop shutdown protocol.
//!
//! Everything that touches hardware, sockets, or the display protocol lives
//! outside this crate; the functions here map plain state and plain events to
//! new state and requested actions, and each carries a contract that pins the
//! result down.

pub mod device;
pub mod errors;
pub mod geometry;
pub mod input;
pub mod output;
pub mod reactor;
pub mod render;
pub mod scaling;
pub mod space;
