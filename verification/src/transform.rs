//! The pan state of the widget: where in the source frame the visible window
//! currently sits.

use vstd::prelude::*;
use crate::bounds::{clamp, clamped, max_offset};
use crate::canvas::{HEIGHT, WIDTH};

verus! {

/// The mathematical content of a [`FrameTransform`]: the top-left corner of
/// the visible window in source-frame coordinates, and the extent of the
/// source frame.
pub struct PanState {
    pub x_offset: int,
    pub y_offset: int,
    pub source_width: int,
    pub source_height: int,
}

impl PanState {
    /// The state right after construction: the window sits in the top-left
    /// corner of the source frame.
    pub open spec fn initial(source_width: int, source_height: int) -> PanState {
        PanState { x_offset: 0, y_offset: 0, source_width, source_height }
    }

    /// The largest horizontal offset.
    pub open spec fn max_x(self) -> int {
        max_offset(self.source_width, WIDTH as int)
    }

    /// The largest vertical offset.
    pub open spec fn max_y(self) -> int {
        max_offset(self.source_height, HEIGHT as int)
    }

    /// The source extents fit in 32 bits and the window lies inside the source
    /// frame on each axis on which the frame is at least as large as the
    /// window.
    pub open spec fn valid(self) -> bool {
        &&& 0 <= self.source_width <= u32::MAX
        &&& 0 <= self.source_height <= u32::MAX
        &&& 0 <= self.x_offset <= self.max_x()
        &&& 0 <= self.y_offset <= self.max_y()
    }

    /// The state with the horizontal offset replaced by the valid offset
    /// nearest to `offset`.
    pub open spec fn with_x(self, offset: int) -> PanState {
        PanState { x_offset: clamped(offset, self.source_width, WIDTH as int), ..self }
    }

    /// The state with the vertical offset replaced by the valid offset
    /// nearest to `offset`.
    pub open spec fn with_y(self, offset: int) -> PanState {
        PanState { y_offset: clamped(offset, self.source_height, HEIGHT as int), ..self }
    }

    /// One step to the left; no change at the left edge.
    pub open spec fn pan_left(self) -> PanState {
        if self.x_offset > 0 {
            self.with_x(self.x_offset - 1)
        } else {
            self
        }
    }

    /// One step to the right, clamped at the right edge.
    pub open spec fn pan_right(self) -> PanState {
        self.with_x(self.x_offset + 1)
    }

    /// One step up; no change at the top edge.
    pub open spec fn pan_up(self) -> PanState {
        if self.y_offset > 0 {
            self.with_y(self.y_offset - 1)
        } else {
            self
        }
    }

    /// One step down, clamped at the bottom edge.
    pub open spec fn pan_down(self) -> PanState {
        self.with_y(self.y_offset + 1)
    }

    /// The offset that centres a window of `window_extent` on an axis of
    /// `source_extent`.
    pub open spec fn centered_offset(source_extent: int, window_extent: int) -> int {
        source_extent / 2 - (if source_extent < window_extent {
            source_extent
        } else {
            window_extent
        }) / 2
    }

    /// The state with the window centred on the source frame.
    pub open spec fn centered(self) -> PanState {
        PanState {
            x_offset: Self::centered_offset(self.source_width, WIDTH as int),
            y_offset: Self::centered_offset(self.source_height, HEIGHT as int),
            ..self
        }
    }
}

/// The pan offset together with the dimensions of the source frame, which are
/// fixed at construction.
#[derive(Clone, Copy, Debug)]
pub struct FrameTransform {
    x_offset: u32,
    y_offset: u32,
    width: u32,
    height: u32,
}

impl View for FrameTransform {
    type V = PanState;

    closed spec fn view(&self) -> PanState {
        PanState {
            x_offset: self.x_offset as int,
            y_offset: self.y_offset as int,
            source_width: self.width as int,
            source_height: self.height as int,
        }
    }
}

impl FrameTransform {
    /// Holds of every transform that exists.
    #[verifier::type_invariant]
    pub(crate) open spec fn well_formed(self) -> bool {
        self@.valid()
    }

    /// A transform for a source of `width` by `height` pixels, with the window
    /// in the top-left corner.
    pub fn new(width: u32, height: u32) -> (transform: Self)
        ensures
            transform@ == PanState::initial(width as int, height as int),
            transform@.valid(),
    {
        FrameTransform { x_offset: 0, y_offset: 0, width, height }
    }

    /// The current horizontal offset.
    pub fn x_offset(&self) -> (offset: u32)
        ensures
            offset == self@.x_offset,
            self@.valid(),
    {
        proof {
            use_type_invariant(self);
        }
        self.x_offset
    }

    /// The current vertical offset.
    pub fn y_offset(&self) -> (offset: u32)
        ensures
            offset == self@.y_offset,
            self@.valid(),
    {
        proof {
            use_type_invariant(self);
        }
        self.y_offset
    }

    /// The width of the source frame this transform was built for.
    pub fn source_width(&self) -> (width: u32)
        ensures
            width == self@.source_width,
    {
        self.width
    }

    /// The height of the source frame this transform was built for.
    pub fn source_height(&self) -> (height: u32)
        ensures
            height == self@.source_height,
    {
        self.height
    }

    /// Moves the window to the valid horizontal offset nearest to `offset`.
    pub fn set_x_offset(&mut self, offset: u32)
        ensures
            final(self)@ == old(self)@.with_x(offset as int),
            final(self)@.valid(),
    {
        proof {
            use_type_invariant(&*self);
        }
        self.x_offset = clamp(offset, self.width, WIDTH);
    }

    /// Moves the window to the valid vertical offset nearest to `offset`.
    pub fn set_y_offset(&mut self, offset: u32)
        ensures
            final(self)@ == old(self)@.with_y(offset as int),
            final(self)@.valid(),
    {
        proof {
            use_type_invariant(&*self);
        }
        self.y_offset = clamp(offset, self.height, HEIGHT);
    }

    /// Pans one step to the left. At the left edge nothing changes.
    pub fn pan_left(&mut self)
        ensures
            final(self)@ == old(self)@.pan_left(),
            final(self)@.valid(),
    {
        proof {
            use_type_invariant(&*self);
        }
        if self.x_offset > 0 {
            self.set_x_offset(self.x_offset - 1);
        }
    }

    /// Pans one step to the right, stopping at the right edge of the source.
    pub fn pan_right(&mut self)
        ensures
            final(self)@ == old(self)@.pan_right(),
            final(self)@.valid(),
    {
        proof {
            use_type_invariant(&*self);
        }
        self.set_x_offset(self.x_offset + 1);
    }

    /// Pans one step up. At the top edge nothing changes.
    pub fn pan_up(&mut self)
        ensures
            final(self)@ == old(self)@.pan_up(),
            final(self)@.valid(),
    {
        proof {
            use_type_invariant(&*self);
        }
        if self.y_offset > 0 {
            self.set_y_offset(self.y_offset - 1);
        }
    }

    /// Pans one step down, stopping at the bottom edge of the source.
    pub fn pan_down(&mut self)
        ensures
            final(self)@ == old(self)@.pan_down(),
            final(self)@.valid(),
    {
        proof {
            use_type_invariant(&*self);
        }
        self.set_y_offset(self.y_offset + 1);
    }

    /// Centres the window on the source frame: on each axis the offset
    /// becomes half the source extent less half the visible extent.
    pub fn center(&mut self)
        ensures
            final(self)@ == old(self)@.centered(),
            final(self)@.valid(),
    {
        proof {
            use_type_invariant(&*self);
            lemma_centered_offset_in_range(self.width as int, WIDTH as int);
            lemma_centered_offset_in_range(self.height as int, HEIGHT as int);
        }
        let x: u32 = self.width / 2 - visible_extent(self.width, WIDTH) / 2;
        let y: u32 = self.height / 2 - visible_extent(self.height, HEIGHT) / 2;
        self.set_x_offset(x);
        self.set_y_offset(y);
    }
}

/// The part of a window of `window_extent` pixels that a source axis of
/// `source_extent` pixels can fill.
fn visible_extent(source_extent: u32, window_extent: u32) -> (extent: u32)
    ensures
        extent == if source_extent < window_extent {
            source_extent
        } else {
            window_extent
        },
{
    if source_extent < window_extent {
        source_extent
    } else {
        window_extent
    }
}

/// The centring offset is a valid offset, so clamping leaves it as it is.
pub proof fn lemma_centered_offset_in_range(source_extent: int, window_extent: int)
    requires
        0 <= source_extent,
        0 <= window_extent,
    ensures
        0 <= PanState::centered_offset(source_extent, window_extent) <= max_offset(
            source_extent,
            window_extent,
        ),
        clamped(
            PanState::centered_offset(source_extent, window_extent),
            source_extent,
            window_extent,
        ) == PanState::centered_offset(source_extent, window_extent),
{
}

/// The number of steps of `pan_right` applied in a row.
pub open spec fn pan_right_times(state: PanState, steps: nat) -> PanState
    decreases steps,
{
    if steps == 0 {
        state
    } else {
        pan_right_times(state, (steps - 1) as nat).pan_right()
    }
}

/// Every pan command and `centered` lead from a valid state to a valid state
/// and leave the source dimensions alone.
pub proof fn lemma_commands_keep_valid(state: PanState)
    requires
        state.valid(),
    ensures
        state.pan_left().valid(),
        state.pan_right().valid(),
        state.pan_up().valid(),
        state.pan_down().valid(),
        state.centered().valid(),
        forall|offset: int| #[trigger] state.with_x(offset).valid(),
        forall|offset: int| #[trigger] state.with_y(offset).valid(),
{
    lemma_centered_offset_in_range(state.source_width, WIDTH as int);
    lemma_centered_offset_in_range(state.source_height, HEIGHT as int);
}

/// Centring twice is the same as centring once.
pub proof fn lemma_center_idempotent(state: PanState)
    ensures
        state.centered().centered() == state.centered(),
{
}

/// From a valid state each pan command moves the window by exactly one step
/// along its axis, unless the window already sits at the edge it moves
/// towards; then the state stays as it is. The other axis and the source
/// dimensions never change.
pub proof fn lemma_pan_step(state: PanState)
    requires
        state.valid(),
    ensures
        state.pan_left() == (PanState {
            x_offset: if state.x_offset > 0 {
                state.x_offset - 1
            } else {
                0
            },
            ..state
        }),
        state.pan_right() == (PanState {
            x_offset: if state.x_offset < state.max_x() {
                state.x_offset + 1
            } else {
                state.max_x()
            },
            ..state
        }),
        state.pan_up() == (PanState {
            y_offset: if state.y_offset > 0 {
                state.y_offset - 1
            } else {
                0
            },
            ..state
        }),
        state.pan_down() == (PanState {
            y_offset: if state.y_offset < state.max_y() {
                state.y_offset + 1
            } else {
                state.max_y()
            },
            ..state
        }),
{
}

/// Panning right `steps` times raises the horizontal offset by `steps`, but
/// not beyond the ceiling: the offset rises strictly with every step until it
/// reaches the ceiling and stays there afterwards. Nothing else changes.
pub proof fn lemma_pan_right_monotone(state: PanState, steps: nat)
    requires
        state.valid(),
    ensures
        pan_right_times(state, steps).valid(),
        pan_right_times(state, steps) == (PanState {
            x_offset: if state.x_offset + steps <= state.max_x() {
                state.x_offset + steps
            } else {
                state.max_x()
            },
            ..state
        }),
        state.x_offset + steps < state.max_x() ==> pan_right_times(state, steps + 1).x_offset
            > pan_right_times(state, steps).x_offset,
        state.x_offset + steps >= state.max_x() ==> pan_right_times(state, steps + 1)
            == pan_right_times(state, steps),
    decreases steps,
{
    if steps > 0 {
        lemma_pan_right_monotone(state, (steps - 1) as nat);
    }
    reveal_with_fuel(pan_right_times, 2);
}

/// While the source frame has the dimensions the transform was built for,
/// every canvas column and row that the frame covers is sampled inside the
/// frame: the window never reaches past the right or bottom edge.
pub proof fn lemma_window_inside_source(state: PanState, x: int, y: int)
    requires
        state.valid(),
        0 <= x < WIDTH,
        0 <= y < HEIGHT,
    ensures
        x < state.source_width ==> x + state.x_offset < state.source_width,
        y < state.source_height ==> y + state.y_offset < state.source_height,
{
}

} // verus!
