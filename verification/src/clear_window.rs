//! The first window: an 800 by 500 window whose surface is cleared to a
//! dark blue on every frame. The surface is configured only once the window
//! reports a size that is not zero in either direction, and frames are
//! drawn only on a configured surface.

use vstd::prelude::*;

use crate::frame::{
    planned_config, plan_surface_config, set_size, with_size, caps_usable, needs_reconfigure, AppEvent, Command, FrameError,
    RenderStep, SurfaceCaps, SurfaceConfig, TextureUsage, lemma_preferred_format,
};

verus! {

/// Width of the window and of the first surface configuration.
pub const WINDOW_WIDTH: u32 = 800;

/// Height of the window and of the first surface configuration.
pub const WINDOW_HEIGHT: u32 = 500;

/// What the application keeps once the GPU is set up: the surface
/// configuration, and whether the surface has been configured with it.
#[derive(Debug, Clone, Copy, PartialEq, Eq)]
pub struct CoreMyApp {
    pub config: SurfaceConfig,
    pub is_surface_cfg: bool,
}

/// The application's state: whether its window exists, and its GPU state
/// once set up.
#[derive(Debug, Clone, Copy, PartialEq, Eq)]
pub struct MyApp {
    pub has_window: bool,
    pub core: Option<CoreMyApp>,
}

/// What the application sets up the first time it is resumed: a window
/// with this title and the size above.
#[derive(Debug, Clone, Copy, PartialEq, Eq)]
pub struct Setup {
    pub title: &'static str,
    pub width: u32,
    pub height: u32,
}

/// The application's setup: the window titled "my app" at its size.
pub fn setup() -> (r: Setup)
    ensures
        r.title@ == "my app"@,
        r.width == WINDOW_WIDTH,
        r.height == WINDOW_HEIGHT,
{
    Setup { title: "my app", width: WINDOW_WIDTH, height: WINDOW_HEIGHT }
}

impl MyApp {
    /// The window and the GPU state are created together, and the surface
    /// configuration never has a zero width or height.
    pub open spec fn wf(self) -> bool {
        &&& self.has_window == self.core is Some
        &&& self.core matches Some(core) ==> core.config.width > 0 && core.config.height > 0
    }

    /// Both the window and the GPU state exist.
    pub open spec fn ready(self) -> bool {
        self.core is Some && self.has_window
    }

    /// The state after a resize to `width` by `height`: with the GPU set up
    /// and a size that is not zero, the configuration takes the size and the
    /// surface counts as configured; otherwise nothing changes.
    pub open spec fn after_resize(self, width: u32, height: u32) -> MyApp {
        match self.core {
            Some(core) => if width > 0 && height > 0 {
                MyApp {
                    has_window: self.has_window,
                    core: Some(
                        CoreMyApp {
                            config: with_size(core.config, width, height),
                            is_surface_cfg: true,
                        },
                    ),
                }
            } else {
                self
            },
            None => self,
        }
    }

    /// The state after the application is resumed with a surface that has
    /// the given capabilities: the first time, the window and the GPU state
    /// with an unconfigured surface.
    pub open spec fn after_resumed(self, format_is_srgb: Seq<bool>) -> MyApp {
        if self.has_window {
            self
        } else {
            MyApp {
                has_window: true,
                core: Some(
                    CoreMyApp {
                        config: planned_config(format_is_srgb, WINDOW_WIDTH, WINDOW_HEIGHT),
                        is_surface_cfg: false,
                    },
                ),
            }
        }
    }

    /// What a redraw does: nothing before the window and the GPU state
    /// exist; only ask for another redraw while the surface is not
    /// configured; else render a frame that clears the surface.
    pub open spec fn render_step(self) -> RenderStep {
        if !self.ready() {
            RenderStep::Skip
        } else if !self.core.unwrap().is_surface_cfg {
            RenderStep::RequestRedraw
        } else {
            RenderStep::Frame(None)
        }
    }

    /// The state and the command after a frame failed with `err` while the
    /// window's inner size is `width` by `height`: a lost or outdated
    /// surface is resized to the window's size, as a resize event would;
    /// any other failure changes nothing.
    pub open spec fn after_frame_error(self, err: FrameError, width: u32, height: u32) -> (MyApp, Command) {
        if err is Lost || err is Outdated {
            self.after_event(AppEvent::Resized { width, height })
        } else {
            (self, Command::Nothing)
        }
    }

    /// The state after a window event, and the command for the event loop.
    pub open spec fn after_event(self, event: AppEvent) -> (MyApp, Command) {
        match event {
            AppEvent::Resized { width, height } => (
                self.after_resize(width, height),
                if self.core is Some && width > 0 && height > 0 {
                    Command::Configure
                } else {
                    Command::Nothing
                },
            ),
            AppEvent::RedrawRequested => (self, Command::Render(self.render_step())),
            AppEvent::CloseRequested => (self, Command::Exit),
            AppEvent::Other => (self, Command::Nothing),
        }
    }

    /// Whether both the window and the GPU state exist.
    fn ready_to_render(&self) -> (r: bool)
        ensures
            r == self.ready(),
    {
        self.core.is_some() && self.has_window
    }

    /// Decides what a redraw does (see `render_step`).
    pub fn render(&self) -> (step: RenderStep)
        ensures
            step == self.render_step(),
    {
        if !self.ready_to_render() {
            return RenderStep::Skip;
        }
        match self.core {
            Some(core) => if !core.is_surface_cfg {
                RenderStep::RequestRedraw
            } else {
                RenderStep::Frame(None)
            },
            None => RenderStep::Skip,
        }
    }

    /// Records a new surface size. With the GPU set up and a size that is
    /// not zero in either direction, the configuration takes the size, the
    /// surface counts as configured and the result asks for the surface to
    /// be configured anew; otherwise nothing changes.
    pub fn resize(&mut self, width: u32, height: u32) -> (reconfigure: bool)
        ensures
            *final(self) == old(self).after_resize(width, height),
            reconfigure == (old(self).core is Some && width > 0 && height > 0),
            old(self).wf() ==> final(self).wf(),
    {
        match self.core {
            Some(core) => {
                if width > 0 && height > 0 {
                    let mut core = core;
                    set_size(&mut core.config, width, height);
                    core.is_surface_cfg = true;
                    self.core = Some(core);
                    true
                } else {
                    false
                }
            },
            None => false,
        }
    }

    /// Whether resuming must create the window and set up the GPU.
    pub fn needs_window(&self) -> (r: bool)
        ensures
            r == !self.has_window,
    {
        !self.has_window
    }

    /// Finishes resuming: the first time, records the window and the GPU
    /// state with the surface configuration planned for the window's size,
    /// not yet applied to the surface; afterwards nothing changes. The
    /// result tells whether the state was set up by this call.
    pub fn resumed(&mut self, caps: &SurfaceCaps) -> (created: bool)
        requires
            !old(self).has_window ==> caps_usable(caps),
        ensures
            *final(self) == old(self).after_resumed(caps.format_is_srgb@),
            created == !old(self).has_window,
            old(self).wf() ==> final(self).wf(),
    {
        if self.has_window {
            return false;
        }
        let config = plan_surface_config(caps, WINDOW_WIDTH, WINDOW_HEIGHT);
        self.has_window = true;
        self.core = Some(CoreMyApp { config, is_surface_cfg: false });
        true
    }

    /// Handles a frame that failed with `err`, given the window's current
    /// inner size: a lost or outdated surface is resized to that size; any
    /// other failure is ignored.
    pub fn frame_failed(&mut self, err: FrameError, width: u32, height: u32) -> (cmd: Command)
        ensures
            (*final(self), cmd) == old(self).after_frame_error(err, width, height),
            old(self).wf() ==> final(self).wf(),
    {
        if needs_reconfigure(&err) {
            if self.resize(width, height) {
                Command::Configure
            } else {
                Command::Nothing
            }
        } else {
            Command::Nothing
        }
    }

    /// Handles a window event: a resize is recorded, a redraw is decided by
    /// `render`, a close request ends the event loop.
    pub fn window_event(&mut self, event: AppEvent) -> (cmd: Command)
        ensures
            (*final(self), cmd) == old(self).after_event(event),
            old(self).wf() ==> final(self).wf(),
    {
        match event {
            AppEvent::Resized { width, height } => {
                if self.resize(width, height) {
                    Command::Configure
                } else {
                    Command::Nothing
                }
            },
            AppEvent::RedrawRequested => Command::Render(self.render()),
            AppEvent::CloseRequested => Command::Exit,
            AppEvent::Other => Command::Nothing,
        }
    }
}

/// Every operation keeps the window and the GPU state together and the
/// surface size free of zeros.
pub proof fn lemma_operations_keep_wf(
    app: MyApp,
    width: u32,
    height: u32,
    format_is_srgb: Seq<bool>,
    event: AppEvent,
)
    requires
        app.wf(),
    ensures
        app.after_resize(width, height).wf(),
        app.after_resumed(format_is_srgb).wf(),
        app.after_event(event).0.wf(),
{
}

/// The surface is only ever configured with a size that is not zero: a
/// `Configure` command comes with a positive width and height, which the
/// configuration then holds.
pub proof fn lemma_configure_has_positive_size(app: MyApp, event: AppEvent)
    requires
        app.wf(),
        app.after_event(event).1 == Command::Configure,
    ensures
        ({
            let next = app.after_event(event).0;
            &&& next.core matches Some(core)
            &&& core.is_surface_cfg
            &&& core.config.width > 0
            &&& core.config.height > 0
            &&& event matches AppEvent::Resized { width, height } && core.config.width == width
                && core.config.height == height
        }),
{
}

/// A frame is rendered only on a configured surface of the window.
pub proof fn lemma_frames_only_when_configured(app: MyApp)
    requires
        app.wf(),
        app.render_step() is Frame,
    ensures
        app.has_window,
        app.core matches Some(core) && core.is_surface_cfg,
{
}

/// A resize to a width or height of zero changes nothing.
pub proof fn lemma_zero_size_ignored(app: MyApp, width: u32, height: u32)
    requires
        width == 0 || height == 0,
    ensures
        app.after_resize(width, height) == app,
{
}

/// Resuming a second time changes nothing: the window and the GPU state
/// are set up once.
pub proof fn lemma_resumed_once(app: MyApp, first: Seq<bool>, second: Seq<bool>)
    ensures
        app.after_resumed(first).after_resumed(second) == app.after_resumed(first),
{
}

/// Before the window exists, a redraw does nothing and a resize changes
/// nothing.
pub proof fn lemma_idle_before_window(app: MyApp, width: u32, height: u32)
    requires
        app.wf(),
        !app.has_window,
    ensures
        app.render_step() == RenderStep::Skip,
        app.after_resize(width, height) == app,
        app.after_event(AppEvent::Resized { width, height }) == (app, Command::Nothing),
{
}

/// After resuming, redraws only ask for more redraws until the window
/// reports a size that is not zero; from then on every redraw renders a
/// frame on a surface of exactly that size.
pub proof fn lemma_first_frame_after_resize(
    app: MyApp,
    format_is_srgb: Seq<bool>,
    width: u32,
    height: u32,
)
    requires
        app.wf(),
        !app.has_window,
        width > 0,
        height > 0,
    ensures
        app.after_resumed(format_is_srgb).render_step() == RenderStep::RequestRedraw,
        app.after_resumed(format_is_srgb).after_resize(width, height).render_step()
            == RenderStep::Frame(None),
        app.after_resumed(format_is_srgb).after_resize(width, height).core.unwrap().config
            == with_size(planned_config(format_is_srgb, WINDOW_WIDTH, WINDOW_HEIGHT), width, height),
{
}


/// A lost or outdated surface is configured anew at the window's current
/// size when that size is not zero; any other failed frame changes nothing.
pub proof fn lemma_frame_error_recovery(app: MyApp, err: FrameError, width: u32, height: u32)
    requires
        app.wf(),
        app.ready(),
    ensures
        (err is Lost || err is Outdated) && width > 0 && height > 0 ==> {
            let (next, cmd) = app.after_frame_error(err, width, height);
            &&& cmd == Command::Configure
            &&& next.core.unwrap().config == with_size(app.core.unwrap().config, width, height)
            &&& next.core.unwrap().is_surface_cfg
        },
        !(err is Lost || err is Outdated) ==> app.after_frame_error(err, width, height) == (
            app,
            Command::Nothing,
        ),
        !(width > 0 && height > 0) ==> app.after_frame_error(err, width, height) == (
            app,
            Command::Nothing,
        ),
{
}

/// Before the window and the GPU state exist, a failed frame changes
/// nothing and asks for nothing.
pub proof fn lemma_frame_error_before_window(app: MyApp, err: FrameError, width: u32, height: u32)
    requires
        app.wf(),
        !app.has_window,
    ensures
        app.after_frame_error(err, width, height) == (app, Command::Nothing),
{
}


/// Resuming without a window creates the window and the GPU state and plans
/// the surface: textures used as render attachments, 800 by 500
/// pixels, the first sRGB format of the list when it has one and the first
/// format otherwise, the first present mode and alpha mode, no extra view
/// formats, and a desired frame latency of two frames.
pub proof fn lemma_resume_plans_surface(app: MyApp, format_is_srgb: Seq<bool>)
    requires
        !app.has_window,
        0 < format_is_srgb.len() <= usize::MAX,
    ensures
        ({
            let next = app.after_resumed(format_is_srgb);
            &&& next.has_window
            &&& next.core is Some
            &&& !next.core.unwrap().is_surface_cfg
            &&& ({
                let c = next.core.unwrap().config;
                &&& c.usage == TextureUsage::RenderAttachment
                &&& c.width == 800
                &&& c.height == 500
                &&& c.format_index < format_is_srgb.len()
                &&& forall|j: int| 0 <= j < c.format_index ==> !format_is_srgb[j]
                &&& (exists|j: int| 0 <= j < format_is_srgb.len() && format_is_srgb[j])
                    ==> format_is_srgb[c.format_index as int]
                &&& !(exists|j: int| 0 <= j < format_is_srgb.len() && format_is_srgb[j])
                    ==> c.format_index == 0
                &&& c.present_mode_index == 0
                &&& c.alpha_mode_index == 0
                &&& c.view_format_count == 0
                &&& c.desired_maximum_frame_latency == 2
            })
        }),
{
    lemma_preferred_format(format_is_srgb);
}

/// What each window event does. A resize with the GPU state set up and a
/// size that is not zero records exactly that size, keeps the format, modes
/// and latency, marks the surface configured and asks for it to be
/// configured; any other resize changes nothing. A redraw changes nothing:
/// before the window and the GPU state exist it does nothing, while the
/// surface is not configured it only asks for another redraw, and on a
/// configured surface it renders a frame that only clears it. Only a close
/// request ends the event loop, and neither it nor any other event changes
/// the state.
pub proof fn lemma_window_events(app: MyApp, event: AppEvent, width: u32, height: u32)
    ensures
        app.core is Some && width > 0 && height > 0 ==> {
            let (next, cmd) = app.after_event(AppEvent::Resized { width, height });
            &&& cmd == Command::Configure
            &&& next.has_window == app.has_window
            &&& next.core is Some
            &&& next.core.unwrap().is_surface_cfg
            &&& next.core.unwrap().config.width == width
            &&& next.core.unwrap().config.height == height
            &&& next.core.unwrap().config.usage == app.core.unwrap().config.usage
            &&& next.core.unwrap().config.format_index == app.core.unwrap().config.format_index
            &&& next.core.unwrap().config.present_mode_index
                == app.core.unwrap().config.present_mode_index
            &&& next.core.unwrap().config.alpha_mode_index
                == app.core.unwrap().config.alpha_mode_index
            &&& next.core.unwrap().config.view_format_count
                == app.core.unwrap().config.view_format_count
            &&& next.core.unwrap().config.desired_maximum_frame_latency
                == app.core.unwrap().config.desired_maximum_frame_latency
        },
        !(app.core is Some && width > 0 && height > 0) ==> app.after_event(
            AppEvent::Resized { width, height },
        ) == (app, Command::Nothing),
        app.after_event(AppEvent::RedrawRequested).0 == app,
        !(app.has_window && app.core is Some) ==> app.after_event(AppEvent::RedrawRequested).1
            == Command::Render(RenderStep::Skip),
        app.has_window && app.core is Some && !app.core.unwrap().is_surface_cfg ==> app.after_event(
            AppEvent::RedrawRequested,
        ).1 == Command::Render(RenderStep::RequestRedraw),
        app.has_window && app.core is Some && app.core.unwrap().is_surface_cfg ==> app.after_event(
            AppEvent::RedrawRequested,
        ).1 == Command::Render(RenderStep::Frame(None)),
        (app.after_event(event).1 == Command::Exit) == (event == AppEvent::CloseRequested),
        app.after_event(AppEvent::CloseRequested).0 == app,
        app.after_event(AppEvent::Other) == (app, Command::Nothing),
{
}

} // verus!
