//! Compositing: writing one camera frame onto the canvas through the
//! circular mask.

use vstd::prelude::*;
use crate::canvas::{
    BORDER_BLUE, BORDER_GREEN, BORDER_RED, BYTES_PER_PIXEL, CENTER, HEIGHT, INNER_RADIUS,
    OPAQUE, OUTER_RADIUS, WIDTH,
};
use crate::frame::{FrameView, SourceFrame};
use crate::mask::{classify, lemma_beyond_bounding_box, zone_of, Zone};
use crate::transform::{lemma_window_inside_source, FrameTransform, PanState};

verus! {

/// What the compositor does with one canvas pixel.
pub enum Shade {
    /// The pixel is left as it was.
    Keep,
    /// The pixel gets the border colour.
    Border,
    /// The pixel gets the colour of the source pixel in column `x` of row `y`.
    Sample { x: int, y: int },
}

/// The zone of the canvas pixel `(x, y)`.
pub open spec fn canvas_zone(x: int, y: int) -> Zone {
    zone_of(x, y, (CENTER as int, CENTER as int), OUTER_RADIUS as int, INNER_RADIUS as int)
}

/// What becomes of the canvas pixel `(x, y)`.
///
/// Outside the circle nothing is written. The ring gets the border colour.
/// Inside, the pixel shows the source pixel that lies `(x_offset, y_offset)`
/// further right and down, provided the frame covers both `(x, y)` and that
/// pixel; where it does not, nothing is written.
pub open spec fn shade_of(pan: PanState, frame: FrameView, x: int, y: int) -> Shade {
    match canvas_zone(x, y) {
        Zone::Outside => Shade::Keep,
        Zone::Border => Shade::Border,
        Zone::Interior => if frame.contains(x, y) && frame.contains(
            x + pan.x_offset,
            y + pan.y_offset,
        ) {
            Shade::Sample { x: x + pan.x_offset, y: y + pan.y_offset }
        } else {
            Shade::Keep
        },
    }
}

/// The border colour, by channel.
pub open spec fn border_channel(channel: int) -> u8 {
    if channel == 0 {
        BORDER_RED
    } else if channel == 1 {
        BORDER_GREEN
    } else if channel == 2 {
        BORDER_BLUE
    } else {
        OPAQUE
    }
}

/// An RGB colour at full opacity, by channel.
pub open spec fn opaque_channel(rgb: (u8, u8, u8), channel: int) -> u8 {
    if channel == 0 {
        rgb.0
    } else if channel == 1 {
        rgb.1
    } else if channel == 2 {
        rgb.2
    } else {
        OPAQUE
    }
}

/// The number of whole pixels in a canvas buffer.
pub open spec fn pixel_count(canvas: Seq<u8>) -> int {
    canvas.len() as int / 4
}

/// The byte at position `j` of the canvas after compositing.
///
/// Byte `j` belongs to pixel `j / 4`, which lies in column `(j / 4) % WIDTH`
/// of row `(j / 4) / WIDTH`. Bytes behind the last whole pixel are kept.
pub open spec fn composite_byte(pan: PanState, frame: FrameView, canvas: Seq<u8>, j: int) -> u8 {
    let pixel = j / 4;
    if pixel >= pixel_count(canvas) {
        canvas[j]
    } else {
        match shade_of(pan, frame, pixel % (WIDTH as int), pixel / (WIDTH as int)) {
            Shade::Keep => canvas[j],
            Shade::Border => border_channel(j % 4),
            Shade::Sample { x, y } => opaque_channel(frame.pixel(x, y), j % 4),
        }
    }
}

/// The canvas after compositing `frame` onto `canvas` with the window at `pan`.
pub open spec fn composite(pan: PanState, frame: FrameView, canvas: Seq<u8>) -> Seq<u8> {
    Seq::new(canvas.len(), |j: int| composite_byte(pan, frame, canvas, j))
}

/// Writes the four bytes of pixel `index`.
fn write_pixel(canvas: &mut [u8], index: usize, red: u8, green: u8, blue: u8, alpha: u8)
    requires
        4 * index + 4 <= old(canvas)@.len(),
    ensures
        final(canvas)@ == old(canvas)@.update(4 * index, red).update(
            4 * index + 1,
            green,
        ).update(4 * index + 2, blue).update(4 * index + 3, alpha),
{
    let at: usize = BYTES_PER_PIXEL * index;
    canvas[at] = red;
    canvas[at + 1] = green;
    canvas[at + 2] = blue;
    canvas[at + 3] = alpha;
}

/// Rows below the circle are outside it.
proof fn lemma_rows_below_circle(x: int, y: int)
    requires
        y > CENTER + OUTER_RADIUS,
    ensures
        canvas_zone(x, y) == Zone::Outside,
{
    lemma_beyond_bounding_box(x, y, (CENTER as int, CENTER as int), OUTER_RADIUS as int);
}

impl FrameTransform {
    /// Composites `frame` onto `canvas` in place.
    ///
    /// `canvas` is read as rows of `WIDTH` RGBA pixels. Each pixel outside the
    /// circle is left untouched, each pixel of the ring is set to the opaque
    /// border colour, and each pixel of the interior is set to the opaque
    /// colour of the source pixel under the window, or left untouched where
    /// the frame has no such pixel. No byte outside `frame` is ever read.
    pub fn render(&self, frame: &SourceFrame, canvas: &mut [u8])
        ensures
            final(canvas)@.len() == old(canvas)@.len(),
            final(canvas)@ == composite(self@, frame@, old(canvas)@),
    {
        let ghost before = canvas@;
        let x_offset: u32 = self.x_offset();
        let y_offset: u32 = self.y_offset();
        let frame_width: u32 = frame.width();
        let frame_height: u32 = frame.height();
        let pixels: usize = canvas.len() / BYTES_PER_PIXEL;
        // Every row below the circle is outside it, so the walk over the
        // pixels ends with the last row that the circle reaches.
        let in_reach: usize = WIDTH as usize * (CENTER as usize + OUTER_RADIUS as usize + 1);
        let visible: usize = if pixels < in_reach {
            pixels
        } else {
            in_reach
        };
        let mut i: usize = 0;
        while i < visible
            invariant
                i <= visible,
                visible <= pixels,
                visible <= in_reach,
                visible == pixels || visible == in_reach,
                in_reach == WIDTH * (CENTER + OUTER_RADIUS + 1),
                pixels == pixel_count(before),
                canvas@.len() == before.len(),
                x_offset == self@.x_offset,
                y_offset == self@.y_offset,
                frame_width == frame@.width,
                frame_height == frame@.height,
                forall|j: int|
                    0 <= j < 4 * i ==> canvas@[j] == composite_byte(self@, frame@, before, j),
                forall|j: int| 4 * i <= j < before.len() ==> canvas@[j] == before[j],
            decreases visible - i,
        {
            let x: u32 = (i % WIDTH as usize) as u32;
            let y: u32 = (i / WIDTH as usize) as u32;
            match classify(x, y, (CENTER, CENTER), OUTER_RADIUS, INNER_RADIUS) {
                Zone::Outside => {},
                Zone::Border => {
                    write_pixel(canvas, i, BORDER_RED, BORDER_GREEN, BORDER_BLUE, OPAQUE);
                },
                Zone::Interior => {
                    if x < frame_width && y < frame_height {
                        let source_x: u64 = x as u64 + x_offset as u64;
                        let source_y: u64 = y as u64 + y_offset as u64;
                        if source_x < frame_width as u64 && source_y < frame_height as u64 {
                            let (red, green, blue) = frame.pixel(source_x as u32, source_y as u32);
                            write_pixel(canvas, i, red, green, blue, OPAQUE);
                        }
                    }
                },
            }
            proof {
                assert forall|j: int| 4 * i <= j < 4 * i + 4 implies canvas@[j] == composite_byte(
                    self@,
                    frame@,
                    before,
                    j,
                ) by {
                    assert(j / 4 == i);
                    assert(j % 4 == j - 4 * i);
                }
            }
            i += 1;
        }
        proof {
            assert forall|j: int| 0 <= j < before.len() implies canvas@[j] == composite_byte(
                self@,
                frame@,
                before,
                j,
            ) by {
                let pixel = j / 4;
                if visible <= pixel < pixels {
                    lemma_rows_below_circle(pixel % (WIDTH as int), pixel / (WIDTH as int));
                }
            }
            assert(canvas@ =~= composite(self@, frame@, before));
        }
    }
}

/// Compositing keeps the length of the canvas, and channel `channel` of pixel
/// `pixel` ends up as the shade of that pixel says.
pub proof fn lemma_composite_pixel(
    pan: PanState,
    frame: FrameView,
    canvas: Seq<u8>,
    pixel: int,
    channel: int,
)
    requires
        0 <= pixel < pixel_count(canvas),
        0 <= channel < 4,
    ensures
        composite(pan, frame, canvas).len() == canvas.len(),
        composite(pan, frame, canvas)[4 * pixel + channel] == match shade_of(
            pan,
            frame,
            pixel % (WIDTH as int),
            pixel / (WIDTH as int),
        ) {
            Shade::Keep => canvas[4 * pixel + channel],
            Shade::Border => border_channel(channel),
            Shade::Sample { x, y } => opaque_channel(frame.pixel(x, y), channel),
        },
{
    let j = 4 * pixel + channel;
    assert(j / 4 == pixel);
    assert(j % 4 == channel);
    assert(composite(pan, frame, canvas)[j] == composite_byte(pan, frame, canvas, j));
}

/// Whatever the frame and the offset, a source position that is sampled lies
/// inside the frame, `(x_offset, y_offset)` away from the canvas pixel.
pub proof fn lemma_samples_inside_frame(pan: PanState, frame: FrameView, x: int, y: int)
    ensures
        shade_of(pan, frame, x, y) matches Shade::Sample { x: source_x, y: source_y } ==> {
            &&& frame.contains(source_x, source_y)
            &&& source_x == x + pan.x_offset
            &&& source_y == y + pan.y_offset
        },
{
}

/// While the frame has the dimensions the transform was built for, every
/// interior pixel of the canvas that the frame covers is sampled: the window
/// never reaches past an edge of the frame.
pub proof fn lemma_matching_frame_is_sampled(pan: PanState, frame: FrameView, x: int, y: int)
    requires
        pan.valid(),
        frame.width == pan.source_width,
        frame.height == pan.source_height,
        0 <= x < WIDTH,
        0 <= y < HEIGHT,
        canvas_zone(x, y) == Zone::Interior,
    ensures
        shade_of(pan, frame, x, y) == if frame.contains(x, y) {
            Shade::Sample { x: x + pan.x_offset, y: y + pan.y_offset }
        } else {
            Shade::Keep
        },
{
    lemma_window_inside_source(pan, x, y);
}

/// A frame of one colour that is at least as large as the canvas fills the
/// whole interior of the circle with that colour at full opacity, wherever
/// the window sits; the ring has the border colour and the rest of the canvas
/// is as it was.
pub proof fn lemma_solid_frame(
    pan: PanState,
    frame: FrameView,
    canvas: Seq<u8>,
    rgb: (u8, u8, u8),
    pixel: int,
    channel: int,
)
    requires
        pan.valid(),
        frame.width == pan.source_width,
        frame.height == pan.source_height,
        frame.width >= WIDTH,
        frame.height >= HEIGHT,
        forall|x: int, y: int| frame.contains(x, y) ==> #[trigger] frame.pixel(x, y) == rgb,
        canvas.len() == 4 * (WIDTH * HEIGHT),
        0 <= pixel < WIDTH * HEIGHT,
        0 <= channel < 4,
    ensures
        composite(pan, frame, canvas)[4 * pixel + channel] == match canvas_zone(
            pixel % (WIDTH as int),
            pixel / (WIDTH as int),
        ) {
            Zone::Outside => canvas[4 * pixel + channel],
            Zone::Border => border_channel(channel),
            Zone::Interior => opaque_channel(rgb, channel),
        },
{
    let x = pixel % (WIDTH as int);
    let y = pixel / (WIDTH as int);
    lemma_composite_pixel(pan, frame, canvas, pixel, channel);
    if canvas_zone(x, y) == Zone::Interior {
        lemma_matching_frame_is_sampled(pan, frame, x, y);
    }
}

} // verus!
