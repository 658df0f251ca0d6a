//! Input decisions: the edge-triggered polygon-mode toggle bound to the
//! Enter key, and the Escape-closes-the-window rule.

use vstd::prelude::*;

verus! {

/// OpenGL enum value for `GL_LINE`.
pub const GL_LINE: u32 = 0x1B01;
/// OpenGL enum value for `GL_FILL`.
pub const GL_FILL: u32 = 0x1B02;
/// OpenGL enum value for `GL_POINT`.
pub const GL_POINT: u32 = 0x1B00;

/// The polygon rasterization modes the renderer cycles through, in cycling
/// order: wireframe, filled, points.
#[derive(Clone, Copy, PartialEq, Eq, Structural, Debug)]
pub enum PolygonMode {
    Line,
    Fill,
    Point,
}

/// The OpenGL enum value to hand to `glPolygonMode` for a mode.
pub fn polygon_mode_gl_value(m: PolygonMode) -> (r: u32)
    ensures
        m is Line ==> r == GL_LINE,
        m is Fill ==> r == GL_FILL,
        m is Point ==> r == GL_POINT,
{
    match m {
        PolygonMode::Line => GL_LINE,
        PolygonMode::Fill => GL_FILL,
        PolygonMode::Point => GL_POINT,
    }
}

/// The mode selected at step `counter` of the cycle: line first, then fill,
/// then point, repeating.
pub open spec fn mode_at(counter: u8) -> PolygonMode {
    if counter % 3 == 0 {
        PolygonMode::Line
    } else if counter % 3 == 1 {
        PolygonMode::Fill
    } else {
        PolygonMode::Point
    }
}

/// Per-frame input state: whether Enter was down on the previous poll, and
/// how many rising edges have been seen so far (wrapping).
pub struct InputState {
    pub enter_was_pressed: bool,
    pub mode_counter: u8,
}

impl InputState {
    /// Fresh state: Enter not held, no toggles seen yet.
    pub fn new() -> (r: InputState)
        ensures
            !r.enter_was_pressed,
            r.mode_counter == 0,
    {
        InputState { enter_was_pressed: false, mode_counter: 0 }
    }

    /// Process one poll of the Enter key. A polygon mode to apply comes back
    /// exactly on a rising edge (pressed now, not pressed at the previous
    /// poll); holding the key yields nothing until it is released.
    pub fn on_enter_poll(&mut self, pressed: bool) -> (r: Option<PolygonMode>)
        ensures
            final(self).enter_was_pressed == pressed,
            (r is Some) == (pressed && !old(self).enter_was_pressed),
            r is Some ==> r->0 == mode_at(old(self).mode_counter),
            r is Some ==> final(self).mode_counter == (old(self).mode_counter + 1) % 256,
            r is None ==> final(self).mode_counter == old(self).mode_counter,
    {
        if pressed {
            if self.enter_was_pressed {
                None
            } else {
                self.enter_was_pressed = true;
                let chosen = self.mode_counter;
                self.mode_counter = if chosen == 255 {
                    0
                } else {
                    chosen + 1
                };
                Some(
                    if chosen % 3 == 0 {
                        PolygonMode::Line
                    } else if chosen % 3 == 1 {
                        PolygonMode::Fill
                    } else {
                        PolygonMode::Point
                    },
                )
            }
        } else {
            self.enter_was_pressed = false;
            None
        }
    }
}

/// Keys the renderer reacts to; anything else is `Other`.
#[derive(Clone, Copy, PartialEq, Eq, Structural, Debug)]
pub enum Key {
    Enter,
    Escape,
    Other,
}

/// What a key did in a window event.
#[derive(Clone, Copy, PartialEq, Eq, Structural, Debug)]
pub enum KeyAction {
    Press,
    Release,
    Repeat,
}

/// The window is asked to close exactly when Escape is pressed.
pub fn close_requested(key: Key, action: KeyAction) -> (r: bool)
    ensures
        r == (key is Escape && action is Press),
{
    match (key, action) {
        (Key::Escape, KeyAction::Press) => true,
        _ => false,
    }
}

/// Three consecutive toggle steps select three pairwise distinct modes:
/// every mode is reachable from any point of the cycle.
pub proof fn lemma_modes_distinct(c: u8)
    requires
        c + 2 <= 255,
    ensures
        mode_at(c) != mode_at((c + 1) as u8),
        mode_at(c) != mode_at((c + 2) as u8),
        mode_at((c + 1) as u8) != mode_at((c + 2) as u8),
{
}

/// The toggle cycle has period three: three steps later (short of the
/// counter wrapping) the same mode is selected again.
pub proof fn lemma_mode_cycle(c: u8)
    requires
        c + 3 <= 255,
    ensures
        mode_at((c + 3) as u8) == mode_at(c),
{
}

} // verus!
