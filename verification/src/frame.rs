//! A captured camera frame: a grid of RGB pixels, three bytes each, stored
//! row by row.

use vstd::prelude::*;

verus! {

/// Bytes per source pixel: red, green, blue.
pub const CHANNELS: usize = 3;

/// The mathematical content of a [`SourceFrame`].
pub struct FrameView {
    pub width: int,
    pub height: int,
    pub data: Seq<u8>,
}

impl FrameView {
    /// The buffer holds exactly three bytes for each pixel of the grid.
    pub open spec fn valid(self) -> bool {
        &&& 0 <= self.width <= u32::MAX
        &&& 0 <= self.height <= u32::MAX
        &&& self.data.len() == 3 * (self.width * self.height)
    }

    /// Whether `(x, y)` names a pixel of the frame.
    pub open spec fn contains(self, x: int, y: int) -> bool {
        0 <= x < self.width && 0 <= y < self.height
    }

    /// Where in the buffer the pixel `(x, y)` starts.
    pub open spec fn index_of(self, x: int, y: int) -> int {
        3 * (y * self.width + x)
    }

    /// The red, green and blue values of the pixel `(x, y)`.
    pub open spec fn pixel(self, x: int, y: int) -> (u8, u8, u8) {
        (
            self.data[self.index_of(x, y)],
            self.data[self.index_of(x, y) + 1],
            self.data[self.index_of(x, y) + 2],
        )
    }
}

/// The three bytes of every pixel of a valid frame lie inside its buffer.
pub proof fn lemma_pixel_in_buffer(frame: FrameView, x: int, y: int)
    requires
        frame.valid(),
        frame.contains(x, y),
    ensures
        0 <= frame.index_of(x, y),
        frame.index_of(x, y) + 3 <= frame.data.len(),
        y * frame.width + x < frame.width * frame.height,
        0 <= y * frame.width,
{
    let w = frame.width;
    let h = frame.height;
    assert(0 <= y * w && y * w + w <= w * h) by (nonlinear_arith)
        requires
            0 <= y < h,
            0 <= w,
    ;
}

/// One frame delivered by the camera.
#[derive(Debug)]
pub struct SourceFrame {
    width: u32,
    height: u32,
    data: Vec<u8>,
}

impl View for SourceFrame {
    type V = FrameView;

    closed spec fn view(&self) -> FrameView {
        FrameView { width: self.width as int, height: self.height as int, data: self.data@ }
    }
}

impl SourceFrame {
    /// Holds of every frame that exists.
    #[verifier::type_invariant]
    spec fn well_formed(self) -> bool {
        self@.valid()
    }

    /// Wraps a buffer that holds `width * height` RGB pixels in row-major
    /// order.
    ///
    /// The result is `None` exactly when `data` is too short for that many
    /// pixels. Bytes behind the last pixel belong to no pixel and are dropped.
    pub fn new(width: u32, height: u32, data: Vec<u8>) -> (frame: Option<SourceFrame>)
        ensures
            frame is Some <==> data@.len() >= 3 * (width * height),
            frame matches Some(f) ==> f@ == (FrameView {
                width: width as int,
                height: height as int,
                data: data@.take(3 * (width * height)),
            }) && f@.valid(),
    {
        assert(0 <= width * height <= 0xffff_ffff * 0xffff_ffff) by (nonlinear_arith)
            requires
                0 <= width <= 0xffff_ffff,
                0 <= height <= 0xffff_ffff,
        ;
        let needed: u128 = 3 * (width as u128 * height as u128);
        if data.len() as u128 >= needed {
            let mut data = data;
            data.truncate(needed as usize);
            Some(SourceFrame { width, height, data })
        } else {
            None
        }
    }

    /// The width of the frame in pixels.
    pub fn width(&self) -> (width: u32)
        ensures
            width == self@.width,
            self@.valid(),
    {
        proof {
            use_type_invariant(self);
        }
        self.width
    }

    /// The height of the frame in pixels.
    pub fn height(&self) -> (height: u32)
        ensures
            height == self@.height,
            self@.valid(),
    {
        proof {
            use_type_invariant(self);
        }
        self.height
    }

    /// The red, green and blue values of the pixel in column `x` of row `y`.
    pub fn pixel(&self, x: u32, y: u32) -> (rgb: (u8, u8, u8))
        requires
            self@.contains(x as int, y as int),
        ensures
            rgb == self@.pixel(x as int, y as int),
    {
        proof {
            use_type_invariant(self);
            lemma_pixel_in_buffer(self@, x as int, y as int);
            assert(self.data@.len() == self.data.len());
        }
        let index: usize = CHANNELS * (y as usize * self.width as usize + x as usize);
        (self.data[index], self.data[index + 1], self.data[index + 2])
    }

    /// The pixel in column `x` of row `y`, or `None` if the frame has no such
    /// pixel.
    pub fn get_pixel(&self, x: u32, y: u32) -> (rgb: Option<(u8, u8, u8)>)
        ensures
            rgb == if self@.contains(x as int, y as int) {
                Some(self@.pixel(x as int, y as int))
            } else {
                None
            },
    {
        if x < self.width && y < self.height {
            Some(self.pixel(x, y))
        } else {
            None
        }
    }
}

} // verus!
