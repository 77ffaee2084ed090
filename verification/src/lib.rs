//! Host-side core of a two-stage GPU compute renderer.
//!
//! The device traces rays into a supersampled image, box-filters it down to
//! the final resolution, and the result is copied back to host memory. This
//! crate holds the verified host-side logic of that flow: the byte-exact,
//! alignment-padded layout of the scene records handed to the device, the
//! sizing arithmetic for render targets, staging buffers and dispatch grids,
//! the synchronizer that decides when the mapped readback bytes may be read,
//! and the adapter that views those bytes as a rectangular pixel buffer.
//!
//! Device scalars are 32-bit IEEE-754 values; the records here carry each one
//! as its raw bit pattern (`u32`), which is what the layout, upload and
//! readback logic actually moves. Producing the bit patterns from host floats
//! is the caller's side of the boundary.

pub mod adapter;
pub mod dispatch;
pub mod geometry;
pub mod layout;
pub mod readback;

pub use geometry::Color;
pub use geometry::Point;
pub use geometry::Sphere;
pub use geometry::Surface;
pub use geometry::Triangle;
pub use geometry::UNIT_BITS;
