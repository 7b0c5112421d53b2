//! Safe, verified typed buffers over a fixed-size driver-managed memory
//! region.
//!
//! A buffer is a fixed-capacity region owned by a graphics driver and
//! identified by an opaque handle. This crate models the driver's
//! per-context state (which handle is bound, which is mapped, which are
//! live) and builds on it a strongly-typed, bounds-checked, element-indexed
//! buffer API: creation, single-element reads and writes, bulk transfer,
//! scoped mapped views, and type erasure to a raw handle.
//!
//! The real driver is an external collaborator reached only through the
//! narrow set of primitives recorded in [`state::GraphicsState`]; everything
//! above that boundary is verified.

pub mod buffer;
pub mod state;
pub mod uniform;
