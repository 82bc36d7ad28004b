//! Frame transform and compositing for a circular camera widget.
//!
//! The crate maps a camera frame onto a fixed-size RGBA canvas: it keeps a
//! pan offset inside the source frame, decides for every canvas pixel whether
//! it lies outside the circle, on its border ring or in its interior, and
//! writes the composited pixels in place.

pub mod bounds;
pub mod canvas;
pub mod control;
pub mod frame;
pub mod mask;
pub mod render;
pub mod transform;
