//! The decisions of the control loop: what the widget does in response to
//! each event that the window, the camera and the presentation surface hand
//! it.
//!
//! The loop itself lives with the code that owns the window. It turns every
//! outside event into an [`Event`], asks [`step`] what to do, carries out the
//! returned [`Action`], and reports a failure of that action as the next
//! event.

use vstd::prelude::*;
use crate::transform::{FrameTransform, PanState};

verus! {

/// The keys the widget tells apart.
#[derive(Clone, Copy, Debug, PartialEq, Eq, Structural)]
pub enum Key {
    Left,
    Right,
    Up,
    Down,
    /// Any other key.
    Other,
}

/// What can go wrong outside the widget's own logic.
#[derive(Clone, Copy, Debug, PartialEq, Eq, Structural)]
pub enum Failure {
    /// The camera could not be opened or its stream could not be started.
    CameraAcquisition,
    /// The camera did not deliver the frame for a redraw.
    FrameDelivery,
    /// The composited canvas could not be presented.
    Presentation,
}

/// An event handed to the control loop.
#[derive(Clone, Copy, Debug, PartialEq, Eq, Structural)]
pub enum Event {
    /// The user asked to close the window.
    CloseRequested,
    /// A mouse button changed state.
    MouseInput { pressed: bool, left_button: bool },
    /// The window was resized to `width` by `height` physical pixels.
    Resized { width: u32, height: u32 },
    /// A key changed state.
    KeyboardInput { pressed: bool, key: Key },
    /// The window wants its contents drawn.
    RedrawRequested,
    /// All pending events have been handled.
    MainEventsCleared,
    /// An action that the loop carried out has failed.
    Failed(Failure),
    /// Anything else.
    Other,
}

/// What the control loop has to do after an event.
#[derive(Clone, Copy, Debug, PartialEq, Eq, Structural)]
pub enum Action {
    /// Nothing; wait for the next event.
    Wait,
    /// Leave the loop.
    Exit,
    /// Let the user drag the window.
    DragWindow,
    /// Resize the presentation surface.
    ResizeSurface { width: u32, height: u32 },
    /// Fetch the next camera frame, composite it onto the canvas and present
    /// the canvas.
    Redraw,
    /// Ask the window for a redraw.
    RequestRedraw,
}

/// The action that answers `event`.
///
/// Every failure ends the loop, as does a close request. Pressing the left
/// mouse button starts a drag of the window. Releases, other buttons and all
/// keys ask for nothing beyond what [`after_event`] does to the pan state.
pub open spec fn response(event: Event) -> Action {
    match event {
        Event::CloseRequested => Action::Exit,
        Event::MouseInput { pressed, left_button } => if pressed && left_button {
            Action::DragWindow
        } else {
            Action::Wait
        },
        Event::Resized { width, height } => Action::ResizeSurface { width, height },
        Event::KeyboardInput { .. } => Action::Wait,
        Event::RedrawRequested => Action::Redraw,
        Event::MainEventsCleared => Action::RequestRedraw,
        Event::Failed(_) => Action::Exit,
        Event::Other => Action::Wait,
    }
}

/// The pan state after `key` was pressed.
pub open spec fn after_key(pan: PanState, key: Key) -> PanState {
    match key {
        Key::Left => pan.pan_left(),
        Key::Right => pan.pan_right(),
        Key::Up => pan.pan_up(),
        Key::Down => pan.pan_down(),
        Key::Other => pan,
    }
}

/// The pan state after `event`: only the press of a key moves the window.
pub open spec fn after_event(pan: PanState, event: Event) -> PanState {
    match event {
        Event::KeyboardInput { pressed, key } => if pressed {
            after_key(pan, key)
        } else {
            pan
        },
        _ => pan,
    }
}

/// Decides what to do about `event`.
pub fn respond(event: Event) -> (action: Action)
    ensures
        action == response(event),
{
    match event {
        Event::CloseRequested => Action::Exit,
        Event::MouseInput { pressed, left_button } => {
            if pressed && left_button {
                Action::DragWindow
            } else {
                Action::Wait
            }
        },
        Event::Resized { width, height } => Action::ResizeSurface { width, height },
        Event::KeyboardInput { .. } => Action::Wait,
        Event::RedrawRequested => Action::Redraw,
        Event::MainEventsCleared => Action::RequestRedraw,
        Event::Failed(_) => Action::Exit,
        Event::Other => Action::Wait,
    }
}

impl FrameTransform {
    /// Applies the pan command bound to `key`, if there is one.
    pub fn press(&mut self, key: Key)
        ensures
            final(self)@ == after_key(old(self)@, key),
            final(self)@.valid(),
    {
        proof {
            use_type_invariant(&*self);
        }
        match key {
            Key::Left => self.pan_left(),
            Key::Right => self.pan_right(),
            Key::Up => self.pan_up(),
            Key::Down => self.pan_down(),
            Key::Other => {},
        }
    }
}

/// Handles one event: updates the pan state and says what the loop has to do
/// next.
pub fn step(transform: &mut FrameTransform, event: Event) -> (action: Action)
    ensures
        final(transform)@ == after_event(old(transform)@, event),
        final(transform)@.valid(),
        action == response(event),
{
    proof {
        use_type_invariant(&*transform);
    }
    if let Event::KeyboardInput { pressed: true, key } = event {
        transform.press(key);
    }
    respond(event)
}

/// Whatever fails, the loop ends and the pan state stays as it was; nothing
/// is retried.
pub proof fn lemma_failures_end_the_loop(pan: PanState, failure: Failure)
    ensures
        response(Event::Failed(failure)) == Action::Exit,
        after_event(pan, Event::Failed(failure)) == pan,
{
}

} // verus!
