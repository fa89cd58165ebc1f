//! The frame-loop state machine: input sampling, resize detection, and close
//! semantics.
//!
//! The loop itself lives with the caller, who polls the windowing system and
//! drives the renderer; every decision the loop makes comes from here. The
//! loop has two modes, `Running` and `Closing`, and `Closing` is reached only
//! by an explicit close request. A framebuffer-size change asks for exactly
//! one renderer reset, before any rendering work of that frame.

use vstd::prelude::*;

verus! {

/// Initial window width in pixels.
pub const WINDOW_WIDTH: u32 = 1280;

/// Initial window height in pixels.
pub const WINDOW_HEIGHT: u32 = 720;

/// The background color the view is cleared to every frame, packed RGBA.
pub const CLEAR_COLOR_RGBA: u32 = 0x503030ff;

/// The render state every draw is submitted with: color and depth writes on,
/// less-than depth test, clockwise faces culled. The clockwise cull pairs
/// with the winding of the cube's index table.
#[derive(Clone, Copy, PartialEq, Eq, Structural, Debug)]
pub struct DrawState {
    pub write_r: bool,
    pub write_g: bool,
    pub write_b: bool,
    pub write_a: bool,
    pub write_depth: bool,
    pub depth_test_less: bool,
    pub cull_clockwise: bool,
}

/// Produces the fixed per-draw render state of the demo.
pub fn draw_state() -> (s: DrawState)
    ensures
        s == (DrawState {
            write_r: true,
            write_g: true,
            write_b: true,
            write_a: true,
            write_depth: true,
            depth_test_less: true,
            cull_clockwise: true,
        }),
{
    DrawState {
        write_r: true,
        write_g: true,
        write_b: true,
        write_a: true,
        write_depth: true,
        depth_test_less: true,
        cull_clockwise: true,
    }
}

/// The static camera: eye, target and up vectors (exact integer components),
/// the vertical field of view in degrees, and the near and far plane
/// distances in thousandths of a world unit. The view and projection
/// matrices are recomputed from these and the current framebuffer size every
/// frame, so a resize can never leave a stale aspect ratio behind.
#[derive(Clone, Copy, PartialEq, Eq, Structural, Debug)]
pub struct CameraConfig {
    pub eye_x: i32,
    pub eye_y: i32,
    pub eye_z: i32,
    pub at_x: i32,
    pub at_y: i32,
    pub at_z: i32,
    pub up_x: i32,
    pub up_y: i32,
    pub up_z: i32,
    pub fov_y_degrees: u32,
    pub near_thousandths: u32,
    pub far_thousandths: u32,
}

/// Produces the demo's camera: eye at `(0, 0, -35)` looking at the origin
/// with y up, a 60 degree vertical field of view, near plane `0.1`, far
/// plane `100`.
pub fn camera_config() -> (c: CameraConfig)
    ensures
        c == (CameraConfig {
            eye_x: 0,
            eye_y: 0,
            eye_z: -35i32,
            at_x: 0,
            at_y: 0,
            at_z: 0,
            up_x: 0,
            up_y: 1,
            up_z: 0,
            fov_y_degrees: 60,
            near_thousandths: 100,
            far_thousandths: 100000,
        }),
{
    CameraConfig {
        eye_x: 0,
        eye_y: 0,
        eye_z: -35,
        at_x: 0,
        at_y: 0,
        at_z: 0,
        up_x: 0,
        up_y: 1,
        up_z: 0,
        fov_y_degrees: 60,
        near_thousandths: 100,
        far_thousandths: 100000,
    }
}

/// Whether the loop keeps running or has been asked to stop.
#[derive(Clone, Copy, PartialEq, Eq, Structural, Debug)]
pub enum LoopMode {
    Running,
    Closing,
}

/// One input event drained from the windowing system, reduced to what the
/// loop reads. Cursor coordinates are in pixels.
#[derive(Clone, Copy, PartialEq, Eq, Structural, Debug)]
pub enum InputEvent {
    /// The escape key was pressed.
    EscapePressed,
    /// The window manager asked the window to close.
    CloseRequested,
    /// The pointer moved to the given position.
    CursorMoved { x: i64, y: i64 },
    /// Any event the loop ignores.
    Other,
}

/// Whether an event asks the loop to stop.
pub open spec fn closes(e: InputEvent) -> bool {
    e == InputEvent::EscapePressed || e == InputEvent::CloseRequested
}

/// The mode after observing one event: a close request moves the loop to
/// `Closing` in the same step, and `Closing` is never left.
pub open spec fn mode_after(m: LoopMode, e: InputEvent) -> LoopMode {
    if m == LoopMode::Closing || closes(e) {
        LoopMode::Closing
    } else {
        LoopMode::Running
    }
}

/// The per-frame mutable state of the loop: the mode, the framebuffer size
/// cached from the previous frame, and the last-seen cursor sample.
pub struct FrameState {
    pub mode: LoopMode,
    pub last_width: i32,
    pub last_height: i32,
    pub cursor: Option<(i64, i64)>,
}

/// Whether a frame that sees framebuffer size `width x height` must reset
/// the renderer: exactly when the size differs from the cached one.
pub open spec fn resize_needed(s: FrameState, width: int, height: int) -> bool {
    !(s.last_width == width && s.last_height == height)
}

/// The state after a frame cached framebuffer size `width x height`;
/// mode and cursor are untouched.
pub open spec fn with_size(s: FrameState, width: i32, height: i32) -> FrameState {
    FrameState { last_width: width, last_height: height, ..s }
}

/// The cursor position the transforms use: the last sample, or the origin
/// while no pointer move has been seen yet.
pub open spec fn cursor_or_origin(c: Option<(i64, i64)>) -> (i64, i64) {
    match c {
        Some(p) => p,
        None => (0, 0),
    }
}

impl FrameState {
    /// The state before the first frame: running, no size seen yet (so the
    /// first frame always resizes), no cursor sample yet.
    pub fn new() -> (s: Self)
        ensures
            s.mode == LoopMode::Running,
            s.last_width == 0,
            s.last_height == 0,
            s.cursor is None,
    {
        FrameState { mode: LoopMode::Running, last_width: 0, last_height: 0, cursor: None }
    }

    /// Observes one drained input event: an escape press or a close request
    /// switches the loop to `Closing`; a pointer move replaces the cursor
    /// sample; nothing else changes.
    pub fn handle_event(&mut self, e: InputEvent)
        ensures
            final(self).mode == mode_after(old(self).mode, e),
            final(self).cursor == (match e {
                InputEvent::CursorMoved { x, y } => Some((x, y)),
                _ => old(self).cursor,
            }),
            final(self).last_width == old(self).last_width,
            final(self).last_height == old(self).last_height,
    {
        match e {
            InputEvent::EscapePressed => {
                self.mode = LoopMode::Closing;
            },
            InputEvent::CloseRequested => {
                self.mode = LoopMode::Closing;
            },
            InputEvent::CursorMoved { x, y } => {
                self.cursor = Some((x, y));
            },
            InputEvent::Other => {},
        }
    }

    /// Whether this frame still submits draws: only while the loop runs.
    /// Once `Closing` is observed, no further draw submission happens.
    pub fn is_running(&self) -> (r: bool)
        ensures
            r == (self.mode == LoopMode::Running),
    {
        match self.mode {
            LoopMode::Running => true,
            LoopMode::Closing => false,
        }
    }

    /// Samples the framebuffer size at the top of a frame. Returns whether
    /// the renderer must be reset with the new dimensions — exactly when the
    /// size differs from the previous frame's — and caches the size. The
    /// caller issues the reset before any rendering work of this frame.
    pub fn note_framebuffer_size(&mut self, width: i32, height: i32) -> (resize: bool)
        ensures
            resize == resize_needed(*old(self), width as int, height as int),
            *final(self) == with_size(*old(self), width, height),
    {
        if self.last_width != width || self.last_height != height {
            self.last_width = width;
            self.last_height = height;
            true
        } else {
            false
        }
    }

    /// The cursor position the transforms use: the last sample, or the
    /// origin while no pointer move has been seen yet.
    pub fn effective_cursor(&self) -> (c: (i64, i64))
        ensures
            c == cursor_or_origin(self.cursor),
    {
        match self.cursor {
            Some(p) => p,
            None => (0, 0),
        }
    }
}

/// Close semantics: a close event reaches `Closing` within the step that
/// observes it, `Closing` is stable under every further event, and a running
/// loop stays running on events that do not close.
pub proof fn lemma_close_latches(m: LoopMode, e: InputEvent)
    ensures
        closes(e) ==> mode_after(m, e) == LoopMode::Closing,
        m == LoopMode::Closing ==> mode_after(m, e) == LoopMode::Closing,
        m == LoopMode::Running && !closes(e) ==> mode_after(m, e) == LoopMode::Running,
{
}

/// Resize happens exactly once per size change: after frame N cached the
/// size it saw, frame N+1 resets exactly when its size differs from frame
/// N's — in particular, an unchanged size resets zero times — whatever state
/// the loop started from and whatever mode or cursor changes lie in between.
pub proof fn lemma_reset_exactly_once(s: FrameState, w1: i32, h1: i32, w2: i32, h2: i32)
    ensures
        resize_needed(with_size(s, w1, h1), w2 as int, h2 as int) <==> !(w1 == w2 && h1 == h2),
{
}

} // verus!
