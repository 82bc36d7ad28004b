//! The fixed geometry and colours of the output canvas.
//!
//! The canvas is a row-major grid of RGBA pixels, four bytes each. The camera
//! feed shows through a circle that touches the left and top edges of the
//! canvas and is framed by a ring of the border colour.

use vstd::prelude::*;

verus! {

/// Width of the canvas in pixels.
pub const WIDTH: u32 = 300;

/// Height of the canvas in pixels.
pub const HEIGHT: u32 = 300;

/// Thickness of the border ring in pixels.
pub const BORDER: u32 = 5;

/// Both coordinates of the centre of the circle.
pub const CENTER: u32 = WIDTH / 2;

/// Radius of the circle that bounds the border ring.
pub const OUTER_RADIUS: u32 = WIDTH / 2;

/// Radius of the circle that bounds the camera feed.
pub const INNER_RADIUS: u32 = WIDTH / 2 - BORDER;

/// Bytes per canvas pixel: red, green, blue, alpha.
pub const BYTES_PER_PIXEL: usize = 4;

/// Red component of the border colour.
pub const BORDER_RED: u8 = 0x82;

/// Green component of the border colour.
pub const BORDER_GREEN: u8 = 0x57;

/// Blue component of the border colour.
pub const BORDER_BLUE: u8 = 0xE5;

/// Alpha of every pixel that is written: fully opaque.
pub const OPAQUE: u8 = 0xff;

} // verus!
