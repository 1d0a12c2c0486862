//! The exercise lesson: a window of 800 by 500 pixels whose surface is
//! cleared to white and in which a triangle produced by the vertex shader
//! alone is drawn.

use vstd::prelude::*;

use crate::frame::{
    planned_config, plan_surface_config, set_size, with_size, caps_usable, needs_reconfigure, AppEvent, Command, FrameError,
    DrawCall, RenderStep, SurfaceCaps, SurfaceConfig, TextureUsage, lemma_preferred_format, PipelinePlan, is_triangle_pipeline,
    triangle_pipeline,
};

verus! {

/// Width of the window and of the first surface configuration.
pub const WINDOW_WIDTH: u32 = 800;

/// Height of the window and of the first surface configuration.
pub const WINDOW_HEIGHT: u32 = 500;

/// What the lesson keeps once the GPU is set up: the surface configuration.
#[derive(Debug, Clone, Copy, PartialEq, Eq)]
pub struct Core {
    pub surface_cfg: SurfaceConfig,
}

/// The lesson's state: whether its window exists, and its GPU state once
/// set up.
#[derive(Debug, Clone, Copy, PartialEq, Eq)]
pub struct MyApp {
    pub has_window: bool,
    pub core: Option<Core>,
}

/// The draw call of every frame: three vertices, one instance, no vertex
/// buffer.
pub open spec fn triangle_draw() -> DrawCall {
    DrawCall {
        vertex_start: 0,
        vertex_end: 3,
        instance_start: 0,
        instance_end: 1,
        vertex_buffer_slot: None,
    }
}

/// What the lesson sets up the first time it is resumed: a window with
/// this title and the size above, and the render pipeline it draws with.
#[derive(Debug, Clone, Copy, PartialEq, Eq)]
pub struct Setup {
    pub title: &'static str,
    pub width: u32,
    pub height: u32,
    pub pipeline: PipelinePlan,
}

/// The lesson's setup: the window titled "My Buffer Exam" at the lesson's size,
/// and a triangle pipeline with the shader entry points "main_vertex" and
/// "main_fragement".
pub fn setup() -> (r: Setup)
    ensures
        r.title@ == "My Buffer Exam"@,
        r.width == WINDOW_WIDTH,
        r.height == WINDOW_HEIGHT,
        is_triangle_pipeline(r.pipeline, "main_vertex"@, "main_fragement"@),
{
    Setup {
        title: "My Buffer Exam",
        width: WINDOW_WIDTH,
        height: WINDOW_HEIGHT,
        pipeline: triangle_pipeline("main_vertex", "main_fragement"),
    }
}

impl MyApp {
    /// The window and the GPU state are created together.
    pub open spec fn wf(self) -> bool {
        self.has_window == self.core is Some
    }

    /// The state after a resize to `width` by `height`.
    pub open spec fn after_resize(self, width: u32, height: u32) -> MyApp {
        match self.core {
            Some(core) => MyApp {
                has_window: self.has_window,
                core: Some(Core { surface_cfg: with_size(core.surface_cfg, width, height) }),
            },
            None => self,
        }
    }

    /// The state after the application is resumed with a surface that has
    /// the given capabilities.
    pub open spec fn after_resumed(self, format_is_srgb: Seq<bool>) -> MyApp {
        if self.has_window {
            self
        } else {
            MyApp {
                has_window: true,
                core: Some(
                    Core {
                        surface_cfg: planned_config(format_is_srgb, WINDOW_WIDTH, WINDOW_HEIGHT),
                    },
                ),
            }
        }
    }

    /// What a redraw does in this state.
    pub open spec fn render_step(self) -> RenderStep {
        if self.has_window {
            RenderStep::Frame(Some(triangle_draw()))
        } else {
            RenderStep::Skip
        }
    }

    /// The state and the command after a frame failed with `err` while the
    /// window's inner size is `width` by `height`: a lost or outdated
    /// surface is resized to the window's size, as a resize event would;
    /// any other failure changes nothing.
    pub open spec fn after_frame_error(self, err: FrameError, width: u32, height: u32) -> (MyApp, Command) {
        if err is Lost || err is Outdated {
            self.after_event(AppEvent::Resized { width, height })
        } else {
            (self, Command::Nothing)
        }
    }

    /// The state after a window event, and the command for the event loop.
    pub open spec fn after_event(self, event: AppEvent) -> (MyApp, Command) {
        match event {
            AppEvent::Resized { width, height } => (
                self.after_resize(width, height),
                if self.core is Some { Command::Configure } else { Command::Nothing },
            ),
            AppEvent::RedrawRequested => (self, Command::Render(self.render_step())),
            AppEvent::CloseRequested => (self, Command::Exit),
            AppEvent::Other => (self, Command::Nothing),
        }
    }

    /// A lesson with no window and no GPU state yet.
    pub fn init() -> (r: MyApp)
        ensures
            r == (MyApp { has_window: false, core: None }),
            r.wf(),
    {
        MyApp { has_window: false, core: None }
    }

    /// Records a new surface size. When the GPU is set up, the
    /// configuration takes the new size and the result asks for the surface
    /// to be configured anew; before that nothing changes.
    pub fn resize(&mut self, width: u32, height: u32) -> (reconfigure: bool)
        ensures
            *final(self) == old(self).after_resize(width, height),
            reconfigure == old(self).core is Some,
            old(self).wf() ==> final(self).wf(),
    {
        match self.core {
            Some(core) => {
                let mut core = core;
                set_size(&mut core.surface_cfg, width, height);
                self.core = Some(core);
                true
            },
            None => false,
        }
    }

    /// Decides what a redraw does: nothing before the window exists, else
    /// a frame that draws the triangle.
    pub fn render(&self) -> (step: RenderStep)
        ensures
            step == self.render_step(),
    {
        if !self.has_window {
            return RenderStep::Skip;
        }
        RenderStep::Frame(
            Some(
                DrawCall {
                    vertex_start: 0,
                    vertex_end: 3,
                    instance_start: 0,
                    instance_end: 1,
                    vertex_buffer_slot: None,
                },
            ),
        )
    }

    /// Whether resuming must create the window and set up the GPU.
    pub fn needs_window(&self) -> (r: bool)
        ensures
            r == !self.has_window,
    {
        !self.has_window
    }

    /// Finishes resuming: the first time, records the window and the GPU
    /// state with the surface configuration planned for the window's size;
    /// afterwards nothing changes. The result tells whether the state was
    /// set up by this call.
    pub fn resumed(&mut self, caps: &SurfaceCaps) -> (created: bool)
        requires
            !old(self).has_window ==> caps_usable(caps),
        ensures
            *final(self) == old(self).after_resumed(caps.format_is_srgb@),
            created == !old(self).has_window,
            old(self).wf() ==> final(self).wf(),
    {
        if self.has_window {
            return false;
        }
        let surface_cfg = plan_surface_config(caps, WINDOW_WIDTH, WINDOW_HEIGHT);
        self.has_window = true;
        self.core = Some(Core { surface_cfg });
        true
    }

    /// Handles a frame that failed with `err`, given the window's current
    /// inner size: a lost or outdated surface is resized to that size; any
    /// other failure is ignored.
    pub fn frame_failed(&mut self, err: FrameError, width: u32, height: u32) -> (cmd: Command)
        ensures
            (*final(self), cmd) == old(self).after_frame_error(err, width, height),
            old(self).wf() ==> final(self).wf(),
    {
        if needs_reconfigure(&err) {
            if self.resize(width, height) {
                Command::Configure
            } else {
                Command::Nothing
            }
        } else {
            Command::Nothing
        }
    }

    /// Handles a window event: a resize is recorded, a redraw is decided by
    /// `render`, a close request ends the event loop.
    pub fn window_event(&mut self, event: AppEvent) -> (cmd: Command)
        ensures
            (*final(self), cmd) == old(self).after_event(event),
            old(self).wf() ==> final(self).wf(),
    {
        match event {
            AppEvent::Resized { width, height } => {
                if self.resize(width, height) {
                    Command::Configure
                } else {
                    Command::Nothing
                }
            },
            AppEvent::RedrawRequested => Command::Render(self.render()),
            AppEvent::CloseRequested => Command::Exit,
            AppEvent::Other => Command::Nothing,
        }
    }
}

/// Every operation keeps the window and the GPU state together.
pub proof fn lemma_operations_keep_wf(
    app: MyApp,
    width: u32,
    height: u32,
    format_is_srgb: Seq<bool>,
    event: AppEvent,
)
    requires
        app.wf(),
    ensures
        app.after_resize(width, height).wf(),
        app.after_resumed(format_is_srgb).wf(),
        app.after_event(event).0.wf(),
{
}

/// Resuming a second time changes nothing: the window and the GPU state
/// are set up once.
pub proof fn lemma_resumed_once(app: MyApp, first: Seq<bool>, second: Seq<bool>)
    ensures
        app.after_resumed(first).after_resumed(second) == app.after_resumed(first),
{
}

/// Before the window exists, a redraw does nothing and a resize changes
/// nothing.
pub proof fn lemma_idle_before_window(app: MyApp, width: u32, height: u32)
    requires
        app.wf(),
        !app.has_window,
    ensures
        app.render_step() == RenderStep::Skip,
        app.after_resize(width, height) == app,
        app.after_event(AppEvent::Resized { width, height }) == (app, Command::Nothing),
{
}

/// Of two resizes in a row the last one decides the surface size.
pub proof fn lemma_last_resize_wins(app: MyApp, w1: u32, h1: u32, w2: u32, h2: u32)
    ensures
        app.after_resize(w1, h1).after_resize(w2, h2) == app.after_resize(w2, h2),
{
}

/// Once resumed, a resize sets the surface to exactly the requested size,
/// keeps the format, present mode, alpha mode and latency chosen when the
/// surface was set up, and the next redraw renders a frame.
pub proof fn lemma_resize_after_resume(app: MyApp, format_is_srgb: Seq<bool>, width: u32, height: u32)
    requires
        app.wf(),
    ensures
        ({
            let resumed = app.after_resumed(format_is_srgb);
            let resized = resumed.after_resize(width, height);
            &&& resized.core matches Some(core) && core.surface_cfg == with_size(
                resumed.core.unwrap().surface_cfg,
                width,
                height,
            )
            &&& resized.render_step() == RenderStep::Frame(Some(triangle_draw()))
        }),
{
}


/// A lost or outdated surface is configured anew at the window's current
/// size; any other failed frame changes nothing.
pub proof fn lemma_frame_error_recovery(app: MyApp, err: FrameError, width: u32, height: u32)
    requires
        app.wf(),
        app.has_window,
    ensures
        (err is Lost || err is Outdated) ==> {
            let (next, cmd) = app.after_frame_error(err, width, height);
            &&& cmd == Command::Configure
            &&& next.core.unwrap().surface_cfg == with_size(app.core.unwrap().surface_cfg, width, height)
        },
        !(err is Lost || err is Outdated) ==> app.after_frame_error(err, width, height) == (
            app,
            Command::Nothing,
        ),
{
}


/// Before the window and the GPU state exist, a failed frame changes
/// nothing and asks for nothing.
pub proof fn lemma_frame_error_before_window(app: MyApp, err: FrameError, width: u32, height: u32)
    requires
        app.wf(),
        !app.has_window,
    ensures
        app.after_frame_error(err, width, height) == (app, Command::Nothing),
{
}

/// Resuming without a window creates the window and the GPU state and plans
/// the surface: textures used as render attachments, 800 by 500
/// pixels, the first sRGB format of the list when it has one and the first
/// format otherwise, the first present mode and alpha mode, no extra view
/// formats, and a desired frame latency of two frames.
pub proof fn lemma_resume_plans_surface(app: MyApp, format_is_srgb: Seq<bool>)
    requires
        !app.has_window,
        0 < format_is_srgb.len() <= usize::MAX,
    ensures
        ({
            let next = app.after_resumed(format_is_srgb);
            &&& next.has_window
            &&& next.core is Some
            &&& ({
                let c = next.core.unwrap().surface_cfg;
                &&& c.usage == TextureUsage::RenderAttachment
                &&& c.width == 800
                &&& c.height == 500
                &&& c.format_index < format_is_srgb.len()
                &&& forall|j: int| 0 <= j < c.format_index ==> !format_is_srgb[j]
                &&& (exists|j: int| 0 <= j < format_is_srgb.len() && format_is_srgb[j])
                    ==> format_is_srgb[c.format_index as int]
                &&& !(exists|j: int| 0 <= j < format_is_srgb.len() && format_is_srgb[j])
                    ==> c.format_index == 0
                &&& c.present_mode_index == 0
                &&& c.alpha_mode_index == 0
                &&& c.view_format_count == 0
                &&& c.desired_maximum_frame_latency == 2
            })
        }),
{
    lemma_preferred_format(format_is_srgb);
}

/// What each window event does: a resize with the GPU state set up records
/// exactly the new size, keeps the format, modes and latency, and always
/// asks for the surface to be configured; without the GPU state it changes
/// nothing. A redraw changes nothing; before the window exists it does
/// nothing, afterwards it renders a frame drawing vertices 0 to 3 once,
/// without a vertex buffer. Only a close request ends the event loop, and
/// neither it nor any other event changes the state.
pub proof fn lemma_window_events(app: MyApp, event: AppEvent, width: u32, height: u32)
    ensures
        app.core is Some ==> {
            let (next, cmd) = app.after_event(AppEvent::Resized { width, height });
            &&& cmd == Command::Configure
            &&& next.has_window == app.has_window
            &&& next.core is Some
            &&& next.core.unwrap().surface_cfg.width == width
            &&& next.core.unwrap().surface_cfg.height == height
            &&& next.core.unwrap().surface_cfg.usage == app.core.unwrap().surface_cfg.usage
            &&& next.core.unwrap().surface_cfg.format_index == app.core.unwrap().surface_cfg.format_index
            &&& next.core.unwrap().surface_cfg.present_mode_index
                == app.core.unwrap().surface_cfg.present_mode_index
            &&& next.core.unwrap().surface_cfg.alpha_mode_index
                == app.core.unwrap().surface_cfg.alpha_mode_index
            &&& next.core.unwrap().surface_cfg.view_format_count
                == app.core.unwrap().surface_cfg.view_format_count
            &&& next.core.unwrap().surface_cfg.desired_maximum_frame_latency
                == app.core.unwrap().surface_cfg.desired_maximum_frame_latency
        },
        app.core is None ==> app.after_event(AppEvent::Resized { width, height }) == (
            app,
            Command::Nothing,
        ),
        app.after_event(AppEvent::RedrawRequested).0 == app,
        !app.has_window ==> app.after_event(AppEvent::RedrawRequested).1 == Command::Render(
            RenderStep::Skip,
        ),
        app.has_window ==> app.after_event(AppEvent::RedrawRequested).1 == Command::Render(
            RenderStep::Frame(
                Some(
                    DrawCall {
                        vertex_start: 0,
                        vertex_end: 3,
                        instance_start: 0,
                        instance_end: 1,
                        vertex_buffer_slot: None,
                    },
                ),
            ),
        ),
        (app.after_event(event).1 == Command::Exit) == (event == AppEvent::CloseRequested),
        app.after_event(AppEvent::CloseRequested).0 == app,
        app.after_event(AppEvent::Other) == (app, Command::Nothing),
{
}

} // verus!
