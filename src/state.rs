use vstd::prelude::*;

use crate::color::Color;

verus! {

/// The drawing pipeline in use: two variants built from one shader module,
/// differing only in their fragment entry point.
#[derive(Clone, Copy, Debug, PartialEq, Eq, Structural)]
pub enum ActivePipeline {
    Primary,
    Secondary,
}

impl ActivePipeline {
    pub open spec fn flipped(self) -> ActivePipeline {
        match self {
            ActivePipeline::Primary => ActivePipeline::Secondary,
            ActivePipeline::Secondary => ActivePipeline::Primary,
        }
    }

    pub fn toggled(self) -> (r: ActivePipeline)
        ensures
            r == self.flipped(),
    {
        match self {
            ActivePipeline::Primary => ActivePipeline::Secondary,
            ActivePipeline::Secondary => ActivePipeline::Primary,
        }
    }
}

/// The keys the state reacts to; `Unidentified` is a key event that carries
/// no key code.
#[derive(Clone, Copy, Debug, PartialEq, Eq, Structural)]
pub enum Key {
    B,
    G,
    R,
    Space,
    Escape,
    Other,
    Unidentified,
}

/// A window event as the state sees it. Pointer positions are whole physical
/// pixels, measured from the surface's top left corner.
#[derive(Clone, Copy, Debug, PartialEq, Eq, Structural)]
pub enum InputEvent {
    Keyboard { pressed: bool, key: Key },
    CursorMoved { x: i64, y: i64 },
    CursorLeft,
    Resized { width: u32, height: u32 },
    CloseRequested,
    Other,
}

/// What the host loop does after a window event.
#[derive(Clone, Copy, Debug, PartialEq, Eq, Structural)]
pub enum HostAction {
    /// Nothing more to do.
    Continue,
    /// Apply the stored surface size, which has just changed, to the surface.
    Reconfigure,
    /// Leave the event loop.
    Exit,
}

/// How acquiring the frame's drawable texture went.
#[derive(Clone, Copy, Debug, PartialEq, Eq, Structural)]
pub enum Acquisition {
    Acquired,
    Lost,
    OutOfMemory,
    Outdated,
    Timeout,
}

/// The one render pass of a frame: clear to `clear`, bind `pipeline`, and
/// draw `vertex_count` vertices in `instance_count` instances.
#[derive(Clone, Copy, Debug, PartialEq, Eq, Structural)]
pub struct DrawPass {
    pub clear: Color,
    pub pipeline: ActivePipeline,
    pub vertex_count: u32,
    pub instance_count: u32,
}

/// What one redraw tick does once the acquisition is known.
#[derive(Clone, Copy, Debug, PartialEq, Eq, Structural)]
pub enum FrameStep {
    /// Record `DrawPass`, submit it once and present the texture once.
    Draw(DrawPass),
    /// Reconfigure the surface with these dimensions; nothing is drawn.
    Reconfigure { width: u32, height: u32 },
    /// A fatal error: leave the render loop without recovery.
    Exit,
    /// A transient error: skip this frame.
    Skip,
}

/// The render parameters the host loop mutates: the surface size, the
/// background color and the active pipeline.
#[derive(Clone, Copy, Debug, PartialEq, Eq, Structural)]
pub struct State {
    width: u32,
    height: u32,
    background: Color,
    pipeline: ActivePipeline,
}

/// Whether pixel `(x, y)` lies on a `w` by `h` surface, that is whether its
/// normalized position `(x / w, y / h)` lies in `[0, 1) x [0, 1)`.
pub open spec fn on_surface(x: int, y: int, w: int, h: int) -> bool {
    0 <= x < w && 0 <= y < h
}

impl State {
    pub closed spec fn width_spec(self) -> u32 {
        self.width
    }

    pub closed spec fn height_spec(self) -> u32 {
        self.height
    }

    pub closed spec fn background_spec(self) -> Color {
        self.background
    }

    pub closed spec fn pipeline_spec(self) -> ActivePipeline {
        self.pipeline
    }

    /// A state is well formed when its background color is.
    pub open spec fn wf(self) -> bool {
        self.background_spec().wf()
    }

    /// The background color after event `e`.
    pub open spec fn next_background(self, e: InputEvent) -> Color {
        match e {
            InputEvent::Keyboard { pressed: true, key: Key::B } => Color::opaque_rgb(0, 0, 1),
            InputEvent::Keyboard { pressed: true, key: Key::G } => Color::opaque_rgb(0, 1, 0),
            InputEvent::Keyboard { pressed: true, key: Key::R } => Color::opaque_rgb(1, 0, 0),
            InputEvent::CursorMoved { x, y } => {
                if on_surface(x as int, y as int, self.width_spec() as int, self.height_spec() as int) {
                    Color::gradient_spec(x as int, y as int, self.width_spec() as int,
                        self.height_spec() as int)
                } else {
                    self.background_spec()
                }
            },
            InputEvent::CursorLeft => Color::opaque_rgb(0, 0, 0),
            _ => self.background_spec(),
        }
    }

    /// The active pipeline after event `e`.
    pub open spec fn next_pipeline(self, e: InputEvent) -> ActivePipeline {
        match e {
            InputEvent::Keyboard { pressed: true, key: Key::Space } => self.pipeline_spec().flipped(),
            _ => self.pipeline_spec(),
        }
    }

    /// Whether the state takes event `e` as its own, so that the host applies
    /// no default handling to it.
    pub open spec fn consumes(e: InputEvent) -> bool {
        match e {
            InputEvent::Keyboard { pressed: true, key } => match key {
                Key::B | Key::G | Key::R | Key::Space | Key::Unidentified => true,
                _ => false,
            },
            InputEvent::Keyboard { pressed: false, .. } => true,
            InputEvent::CursorMoved { .. } => true,
            InputEvent::CursorLeft => true,
            _ => false,
        }
    }

    /// The state of a fresh `w` by `h` surface.
    pub closed spec fn initial(w: u32, h: u32) -> State {
        State {
            width: w,
            height: h,
            background: Color { r: 1, g: 2, b: 3, a: 10, den: 10 },
            pipeline: ActivePipeline::Primary,
        }
    }

    /// The whole state after input event `e`.
    pub closed spec fn after(self, e: InputEvent) -> State {
        State {
            width: self.width,
            height: self.height,
            background: self.next_background(e),
            pipeline: self.next_pipeline(e),
        }
    }

    /// The whole state after a resize to `(w, h)`; a zero dimension leaves it
    /// as it was.
    pub closed spec fn resized(self, w: u32, h: u32) -> State {
        if w > 0 && h > 0 {
            State { width: w, height: h, ..self }
        } else {
            self
        }
    }

    /// The step that `render` takes for acquisition outcome `a`.
    pub open spec fn frame_step(self, a: Acquisition) -> FrameStep {
        match a {
            Acquisition::Acquired => FrameStep::Draw(DrawPass {
                clear: self.background_spec(),
                pipeline: self.pipeline_spec(),
                vertex_count: 3,
                instance_count: 1,
            }),
            Acquisition::Lost => if self.width_spec() > 0 && self.height_spec() > 0 {
                FrameStep::Reconfigure { width: self.width_spec(), height: self.height_spec() }
            } else {
                FrameStep::Skip
            },
            Acquisition::OutOfMemory => FrameStep::Exit,
            Acquisition::Outdated | Acquisition::Timeout => FrameStep::Skip,
        }
    }

    /// What the host loop does after window event `e`.
    pub open spec fn host_action(self, e: InputEvent) -> HostAction {
        if State::consumes(e) {
            HostAction::Continue
        } else {
            match e {
                InputEvent::Resized { width, height } => if width > 0 && height > 0 {
                    HostAction::Reconfigure
                } else {
                    HostAction::Continue
                },
                InputEvent::CloseRequested => HostAction::Exit,
                InputEvent::Keyboard { pressed: true, key: Key::Escape } => HostAction::Exit,
                _ => HostAction::Continue,
            }
        }
    }

    /// A state for a fresh `width` by `height` surface, cleared to
    /// (0.1, 0.2, 0.3, 1) and drawing with the primary pipeline.
    pub fn new(width: u32, height: u32) -> (s: State)
        ensures
            s == State::initial(width, height),
            s.wf(),
            s.width_spec() == width,
            s.height_spec() == height,
            s.background_spec() == (Color { r: 1, g: 2, b: 3, a: 10, den: 10 }),
            s.pipeline_spec() == ActivePipeline::Primary,
    {
        State { width, height, background: Color::initial(), pipeline: ActivePipeline::Primary }
    }

    /// The stored surface size, as (width, height).
    pub fn size(&self) -> (r: (u32, u32))
        ensures
            r == (self.width_spec(), self.height_spec()),
    {
        (self.width, self.height)
    }

    pub fn background_color(&self) -> (c: Color)
        ensures
            c == self.background_spec(),
    {
        self.background
    }

    pub fn active_pipeline(&self) -> (p: ActivePipeline)
        ensures
            p == self.pipeline_spec(),
    {
        self.pipeline
    }

    /// Applies input event `e`: keys B, G and R and the pointer leaving set a
    /// solid color, SPACE swaps the pipelines, and a pointer on the surface
    /// sets the gradient color of its position. Returns whether `e` was
    /// consumed.
    pub fn input(&mut self, e: &InputEvent) -> (consumed: bool)
        requires
            old(self).wf(),
        ensures
            final(self).wf(),
            consumed == State::consumes(*e),
            *final(self) == old(self).after(*e),
            final(self).background_spec() == old(self).next_background(*e),
            final(self).pipeline_spec() == old(self).next_pipeline(*e),
            final(self).width_spec() == old(self).width_spec(),
            final(self).height_spec() == old(self).height_spec(),
    {
        match *e {
            InputEvent::Keyboard { pressed, key } => {
                if pressed {
                    match key {
                        Key::B => {
                            self.background = Color::blue();
                        },
                        Key::G => {
                            self.background = Color::green();
                        },
                        Key::R => {
                            self.background = Color::red();
                        },
                        Key::Space => {
                            self.pipeline = self.pipeline.toggled();
                        },
                        Key::Unidentified => {},
                        _ => {
                            return false;
                        },
                    }
                }
                true
            },
            InputEvent::CursorMoved { x, y } => {
                if 0 <= x && x < self.width as i64 && 0 <= y && y < self.height as i64 {
                    self.background = Color::gradient(x as u32, y as u32, self.width, self.height);
                }
                true
            },
            InputEvent::CursorLeft => {
                self.background = Color::black();
                true
            },
            _ => false,
        }
    }

    /// Records a new surface size. A size with a zero dimension is ignored;
    /// otherwise the stored size becomes exactly `(width, height)`. Returns
    /// whether the size was taken, in which case the surface must be
    /// reconfigured with it.
    pub fn resize(&mut self, width: u32, height: u32) -> (applied: bool)
        requires
            old(self).wf(),
        ensures
            final(self).wf(),
            applied == (width > 0 && height > 0),
            *final(self) == old(self).resized(width, height),
            applied ==> final(self).width_spec() == width && final(self).height_spec() == height,
            !applied ==> *final(self) == *old(self),
            final(self).background_spec() == old(self).background_spec(),
            final(self).pipeline_spec() == old(self).pipeline_spec(),
    {
        if width > 0 && height > 0 {
            self.width = width;
            self.height = height;
            true
        } else {
            false
        }
    }

    /// A hook for time-based animation; it changes nothing.
    pub fn update(&mut self)
        ensures
            *final(self) == *old(self),
    {
    }

    /// Decides one redraw tick from the outcome of acquiring its texture. On
    /// success the frame is one pass that clears to the background color and
    /// draws one triangle (three vertices, one instance) with the active
    /// pipeline. A lost surface is reconfigured with the stored size, when
    /// that size has no zero dimension, and nothing is drawn; running out of
    /// memory is fatal; an outdated surface or a timeout skips the frame.
    pub fn render(&self, acquired: Acquisition) -> (step: FrameStep)
        ensures
            step == self.frame_step(acquired),
    {
        match acquired {
            Acquisition::Acquired => FrameStep::Draw(DrawPass {
                clear: self.background,
                pipeline: self.pipeline,
                vertex_count: 3,
                instance_count: 1,
            }),
            Acquisition::Lost => {
                if self.width > 0 && self.height > 0 {
                    FrameStep::Reconfigure { width: self.width, height: self.height }
                } else {
                    FrameStep::Skip
                }
            },
            Acquisition::OutOfMemory => FrameStep::Exit,
            _ => FrameStep::Skip,
        }
    }

    /// Handles one window event for the host loop: the state gets it first;
    /// if it does not consume it, a resize is recorded, and closing the
    /// window or pressing Escape ends the loop.
    pub fn handle_window_event(&mut self, e: &InputEvent) -> (action: HostAction)
        requires
            old(self).wf(),
        ensures
            final(self).wf(),
            action == old(self).host_action(*e),
            State::consumes(*e) ==> final(self).background_spec() == old(self).next_background(*e)
                && final(self).pipeline_spec() == old(self).next_pipeline(*e)
                && final(self).width_spec() == old(self).width_spec()
                && final(self).height_spec() == old(self).height_spec(),
            !State::consumes(*e) ==> (match *e {
                InputEvent::Resized { width, height } if width > 0 && height > 0 =>
                    final(self).width_spec() == width && final(self).height_spec() == height
                    && final(self).background_spec() == old(self).background_spec()
                    && final(self).pipeline_spec() == old(self).pipeline_spec(),
                _ => *final(self) == *old(self),
            }),
    {
        if self.input(e) {
            return HostAction::Continue;
        }
        match *e {
            InputEvent::Resized { width, height } => {
                if self.resize(width, height) {
                    HostAction::Reconfigure
                } else {
                    HostAction::Continue
                }
            },
            InputEvent::CloseRequested => HostAction::Exit,
            InputEvent::Keyboard { pressed: true, key: Key::Escape } => HostAction::Exit,
            _ => HostAction::Continue,
        }
    }
}


/// For a pointer at pixel `(x, y)` of the surface, the background becomes
/// `(x / w, y / h, 1 - (x / w + y / h) / 2, 1)` for the stored size `(w, h)`;
/// a pointer off the surface leaves the background as it was.
pub proof fn pointer_sets_gradient(s: State, x: i64, y: i64)
    requires
        s.wf(),
    ensures
        ({
            let w = s.width_spec() as int;
            let h = s.height_spec() as int;
            let c = s.after(InputEvent::CursorMoved { x, y }).background_spec();
            &&& on_surface(x as int, y as int, w, h) ==> c.wf() && c.denotes(
                (x as int, w),
                (y as int, h),
                (2 * w * h - x * h - y * w, 2 * w * h),
                (1, 1),
            )
            &&& !on_surface(x as int, y as int, w, h) ==> c == s.background_spec()
        }),
{
    let w = s.width_spec() as int;
    let h = s.height_spec() as int;
    if on_surface(x as int, y as int, w, h) {
        let xi = x as int;
        let yi = y as int;
        assert(xi * h < w * h) by (nonlinear_arith)
            requires 0 <= xi < w, h > 0;
        assert(yi * w < w * h) by (nonlinear_arith)
            requires 0 <= yi < h, w > 0;
        assert(w * h <= 0xffff_ffff * 0xffff_ffff) by (nonlinear_arith)
            requires 0 < w <= 0xffff_ffff, 0 < h <= 0xffff_ffff;
        assert(0 <= xi * h && 0 <= yi * w) by (nonlinear_arith)
            requires 0 <= xi, 0 <= yi, 0 < w, 0 < h;
        assert(2 * xi * h == 2 * (xi * h) && 2 * yi * w == 2 * (yi * w) && 2 * w * h == 2 * (w * h))
            by (nonlinear_arith);
        let c = Color::gradient_spec(xi, yi, w, h);
        assert(c.denotes((xi, w), (yi, h), (2 * w * h - xi * h - yi * w, 2 * w * h), (1, 1)))
            by (nonlinear_arith)
            requires
                c.r == 2 * xi * h,
                c.g == 2 * yi * w,
                c.b == 2 * w * h - xi * h - yi * w,
                c.a == 2 * w * h,
                c.den == 2 * w * h;
    }
}

/// Keys B, G and R and the pointer leaving the window set solid blue, green,
/// red and black; the same event a second time changes nothing more.
pub proof fn solid_colors_are_idempotent(s: State, e: InputEvent)
    requires
        e == (InputEvent::Keyboard { pressed: true, key: Key::B })
            || e == (InputEvent::Keyboard { pressed: true, key: Key::G })
            || e == (InputEvent::Keyboard { pressed: true, key: Key::R })
            || e == InputEvent::CursorLeft,
    ensures
        e == (InputEvent::Keyboard { pressed: true, key: Key::B })
            ==> s.after(e).background_spec() == Color::opaque_rgb(0, 0, 1),
        e == (InputEvent::Keyboard { pressed: true, key: Key::G })
            ==> s.after(e).background_spec() == Color::opaque_rgb(0, 1, 0),
        e == (InputEvent::Keyboard { pressed: true, key: Key::R })
            ==> s.after(e).background_spec() == Color::opaque_rgb(1, 0, 0),
        e == InputEvent::CursorLeft ==> s.after(e).background_spec() == Color::opaque_rgb(0, 0, 0),
        s.after(e).pipeline_spec() == s.pipeline_spec(),
        s.after(e).after(e) == s.after(e),
{
}

/// SPACE swaps the active pipeline for the other one, and SPACE twice gives
/// back the state it started from.
pub proof fn space_is_an_involution(s: State)
    ensures
        ({
            let e = InputEvent::Keyboard { pressed: true, key: Key::Space };
            &&& s.after(e).pipeline_spec() != s.pipeline_spec()
            &&& s.after(e).background_spec() == s.background_spec()
            &&& s.after(e).after(e) == s
        }),
{
}

/// The first frame of a fresh state, once its texture is acquired, is one
/// pass that clears to (0.1, 0.2, 0.3, 1) and draws one triangle, three
/// vertices in one instance, with the primary pipeline.
pub proof fn first_frame_draws_one_triangle(w: u32, h: u32)
    ensures
        State::initial(w, h).frame_step(Acquisition::Acquired) == FrameStep::Draw(DrawPass {
            clear: Color { r: 1, g: 2, b: 3, a: 10, den: 10 },
            pipeline: ActivePipeline::Primary,
            vertex_count: 3,
            instance_count: 1,
        }),
{
}

/// A lost surface is reconfigured with the stored size and nothing is drawn;
/// running out of memory ends the loop without a reconfiguration; an outdated
/// surface or a timeout skips the frame.
pub proof fn acquisition_errors_are_classified(s: State)
    requires
        s.width_spec() > 0,
        s.height_spec() > 0,
    ensures
        s.frame_step(Acquisition::Lost)
            == (FrameStep::Reconfigure { width: s.width_spec(), height: s.height_spec() }),
        s.frame_step(Acquisition::OutOfMemory) == FrameStep::Exit,
        s.frame_step(Acquisition::Outdated) == FrameStep::Skip,
        s.frame_step(Acquisition::Timeout) == FrameStep::Skip,
{
}

/// A resize to a zero width or height leaves the stored size as it was.
pub proof fn zero_resize_is_ignored(s: State, w: u32, h: u32)
    requires
        w == 0 || h == 0,
    ensures
        s.resized(w, h) == s,
        s.resized(w, h).width_spec() == s.width_spec(),
        s.resized(w, h).height_spec() == s.height_spec(),
{
}

/// A resize to `(w, h)` with both positive stores exactly `(w, h)`; the next
/// frame then draws when the texture is acquired, and a lost surface is
/// reconfigured with exactly `(w, h)`.
pub proof fn resize_then_render(s: State, w: u32, h: u32)
    requires
        w > 0,
        h > 0,
    ensures
        s.resized(w, h).width_spec() == w,
        s.resized(w, h).height_spec() == h,
        s.resized(w, h).frame_step(Acquisition::Acquired) is Draw,
        s.resized(w, h).frame_step(Acquisition::Lost) == (FrameStep::Reconfigure { width: w, height: h }),
{
}

} // verus!
