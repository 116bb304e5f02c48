use vstd::prelude::*;
use crate::grid::Frame;
use crate::input::{KeyCode, Update};

verus! {

/// An application driven by the frame loop.
pub trait App {
    /// Writes this frame's cells; the grid is blank when it is called.
    fn draw(&self, frame: &mut Frame);

    /// Reacts to the input gathered since the previous update.
    fn update(&mut self, update: &Update);

    /// Called once when the window is asked to close.
    fn quit(&mut self) {
    }
}

/// What the window reports to the loop.
#[derive(Clone, Copy, PartialEq, Eq, Structural, Debug)]
pub enum LoopEvent {
    CloseRequested,
    /// The window's new size in pixels.
    Resized(u32, u32),
    /// The pointer's new position in pixels from the window's top-left corner.
    CursorMoved(i32, i32),
    KeyPressed(KeyCode),
    KeyReleased(KeyCode),
    /// Every pending event has been delivered.
    EventsCleared,
    RedrawRequested,
    Other,
}

/// What the loop asks of the window and the renderer after an event.
#[derive(Clone, Copy, PartialEq, Eq, Structural, Debug)]
pub enum LoopAction {
    /// Nothing to do.
    Continue,
    /// Stop the loop and close the window.
    Exit,
    /// Set the drawing viewport to this many pixels.
    SetViewport(u32, u32),
    /// Ask the window for a redraw.
    RequestRedraw,
    /// Upload the frame's vertices, draw them and swap buffers.
    Present,
}

/// The size of one glyph in pixels; both sides are positive.
#[derive(Clone, Copy, Debug)]
pub struct GlyphSize {
    width: i32,
    height: i32,
}

impl GlyphSize {
    #[verifier::type_invariant]
    closed spec fn positive(&self) -> bool {
        self.width > 0 && self.height > 0
    }

    pub closed spec fn spec_width(&self) -> int {
        self.width as int
    }

    pub closed spec fn spec_height(&self) -> int {
        self.height as int
    }

    /// `None` unless both sides are positive.
    pub fn new(width: i32, height: i32) -> (r: Option<GlyphSize>)
        ensures
            r is Some <==> width > 0 && height > 0,
            r matches Some(g) ==> g.spec_width() == width && g.spec_height() == height,
    {
        if width > 0 && height > 0 {
            Some(GlyphSize { width, height })
        } else {
            None
        }
    }

    pub fn width(&self) -> (w: i32)
        ensures
            w == self.spec_width(),
            w > 0,
    {
        proof {
            use_type_invariant(self);
        }
        self.width
    }

    pub fn height(&self) -> (h: i32)
        ensures
            h == self.spec_height(),
            h > 0,
    {
        proof {
            use_type_invariant(self);
        }
        self.height
    }
}

/// The cell that pixel `p` falls in, for cells `g` pixels wide; the quotient
/// is truncated toward zero.
pub open spec fn pixel_to_cell(p: int, g: int) -> int {
    if p >= 0 {
        p / g
    } else {
        -((-p) / g)
    }
}

/// Converts a pixel coordinate to a cell coordinate.
pub fn cell_at(p: i32, g: i32) -> (c: i32)
    requires
        g > 0,
    ensures
        c == pixel_to_cell(p as int, g as int),
{
    let p = p as i64;
    let g = g as i64;
    if p >= 0 {
        (p / g) as i32
    } else {
        (-((-p) / g)) as i32
    }
}

/// The frame loop: owns the grid and the input, and turns each window event
/// into calls of the application and an action for the window.
pub struct FrameLoop {
    running: bool,
    input: Update,
    frame: Frame,
    glyph: GlyphSize,
}

impl FrameLoop {
    pub closed spec fn spec_running(&self) -> bool {
        self.running
    }

    pub closed spec fn spec_input(&self) -> Update {
        self.input
    }

    pub closed spec fn spec_frame(&self) -> Frame {
        self.frame
    }

    pub closed spec fn spec_glyph(&self) -> GlyphSize {
        self.glyph
    }

    /// A running loop over `frame`, with no input yet.
    pub fn new(frame: Frame, glyph: GlyphSize) -> (l: FrameLoop)
        ensures
            l.spec_running(),
            l.spec_input().keys() == Set::<KeyCode>::empty(),
            l.spec_input().pointer() == (0i32, 0i32),
            l.spec_frame() == frame,
            l.spec_glyph() == glyph,
    {
        FrameLoop { running: true, input: Update::new(), frame, glyph }
    }

    pub fn is_running(&self) -> (r: bool)
        ensures
            r == self.spec_running(),
    {
        self.running
    }

    pub fn input(&self) -> (r: &Update)
        ensures
            *r == self.spec_input(),
    {
        &self.input
    }

    pub fn frame(&self) -> (r: &Frame)
        ensures
            *r == self.spec_frame(),
    {
        &self.frame
    }

    /// Handles one window event. Once the loop has stopped, events change
    /// nothing and call nothing.
    pub fn step<A: App>(&mut self, app: &mut A, event: LoopEvent) -> (action: LoopAction)
        ensures
            final(self).spec_glyph() == old(self).spec_glyph(),
            !old(self).spec_running() ==> action == LoopAction::Continue && *final(self) == *old(
                self,
            ) && *final(app) == *old(app),
            old(self).spec_running() ==> match event {
                LoopEvent::CloseRequested => {
                    &&& action == LoopAction::Exit
                    &&& !final(self).spec_running()
                    &&& final(self).spec_input() == old(self).spec_input()
                    &&& final(self).spec_frame() == old(self).spec_frame()
                },
                LoopEvent::Resized(w, h) => {
                    &&& action == LoopAction::SetViewport(w, h)
                    &&& *final(self) == *old(self)
                    &&& *final(app) == *old(app)
                },
                LoopEvent::CursorMoved(px, py) => {
                    &&& action == LoopAction::Continue
                    &&& final(self).spec_running()
                    &&& final(self).spec_input().keys() == old(self).spec_input().keys()
                    &&& final(self).spec_input().pointer() == (
                        pixel_to_cell(px as int, old(self).spec_glyph().spec_width()) as i32,
                        pixel_to_cell(py as int, old(self).spec_glyph().spec_height()) as i32,
                    )
                    &&& final(self).spec_frame() == old(self).spec_frame()
                    &&& *final(app) == *old(app)
                },
                LoopEvent::KeyPressed(k) => {
                    &&& action == LoopAction::Continue
                    &&& final(self).spec_running()
                    &&& final(self).spec_input().keys() == old(self).spec_input().keys().insert(k)
                    &&& final(self).spec_input().pointer() == old(self).spec_input().pointer()
                    &&& final(self).spec_frame() == old(self).spec_frame()
                    &&& *final(app) == *old(app)
                },
                LoopEvent::KeyReleased(k) => {
                    &&& action == LoopAction::Continue
                    &&& final(self).spec_running()
                    &&& final(self).spec_input().keys() == old(self).spec_input().keys().remove(k)
                    &&& final(self).spec_input().pointer() == old(self).spec_input().pointer()
                    &&& final(self).spec_frame() == old(self).spec_frame()
                    &&& *final(app) == *old(app)
                },
                LoopEvent::EventsCleared => {
                    &&& action == LoopAction::RequestRedraw
                    &&& final(self).spec_running()
                    &&& final(self).spec_input().keys() == Set::<KeyCode>::empty()
                    &&& final(self).spec_input().pointer() == old(self).spec_input().pointer()
                    &&& final(self).spec_frame() == old(self).spec_frame()
                },
                LoopEvent::RedrawRequested => {
                    &&& action == LoopAction::Present
                    &&& final(self).spec_running()
                    &&& final(self).spec_input() == old(self).spec_input()
                },
                LoopEvent::Other => {
                    &&& action == LoopAction::Continue
                    &&& *final(self) == *old(self)
                    &&& *final(app) == *old(app)
                },
            },
    {
        if !self.running {
            return LoopAction::Continue;
        }
        match event {
            LoopEvent::CloseRequested => {
                app.quit();
                self.running = false;
                LoopAction::Exit
            },
            LoopEvent::Resized(w, h) => LoopAction::SetViewport(w, h),
            LoopEvent::CursorMoved(px, py) => {
                let column = cell_at(px, self.glyph.width());
                let row = cell_at(py, self.glyph.height());
                self.input.set_mouse_pos((column, row));
                LoopAction::Continue
            },
            LoopEvent::KeyPressed(k) => {
                self.input.press(k);
                LoopAction::Continue
            },
            LoopEvent::KeyReleased(k) => {
                self.input.release(k);
                LoopAction::Continue
            },
            LoopEvent::EventsCleared => {
                app.update(&self.input);
                self.input.clear();
                LoopAction::RequestRedraw
            },
            LoopEvent::RedrawRequested => {
                self.frame.clear();
                app.draw(&mut self.frame);
                LoopAction::Present
            },
            LoopEvent::Other => LoopAction::Continue,
        }
    }
}

} // verus!
