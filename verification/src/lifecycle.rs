//! The window lifecycle state machine: the application is at every moment
//! either suspended — holding at most a window handle and no GPU resources —
//! or active, holding full application state. Transitions are driven only by
//! the events the OS event loop delivers; each handler returns what outside
//! work the loop must do next, so the loop itself decides nothing.

use crate::config::{initial_config, preferred_format, SurfaceCaps, SurfaceConfig};
use crate::frame::{render_frame, DrawCommand, FrameSurface, SurfaceError};
use crate::pipeline::{pipeline_for, PipelineSpec};
use crate::pool::{scale_pass, ObjectParams, ObjectPool};
use vstd::prelude::*;

verus! {

/// The identity of an OS window. The handle itself is shared and
/// reference-counted outside the library; here a window is its identity, so
/// that reusing a window and creating one are distinguishable.
#[derive(Clone, Copy, PartialEq, Eq, Structural, Debug)]
pub struct WindowHandle {
    pub id: u64,
}

/// Everything the application holds while active: the window it renders to,
/// the negotiated surface configuration, the one compiled pipeline, and the
/// pool of renderable objects. Torn down as a whole on suspension, keeping
/// only the window handle.
pub struct AppState {
    pub window: WindowHandle,
    pub config: SurfaceConfig,
    pub pipeline: PipelineSpec,
    pub pool: ObjectPool,
}

impl AppState {
    pub open spec fn well_formed(self) -> bool {
        self.pool.well_formed()
    }

    /// Bootstraps fresh application state: the surface configuration
    /// negotiated from the reported capabilities and the window's size, the
    /// pipeline built against that configuration's format, and one pooled
    /// object per parameter record.
    pub fn new(
        window: WindowHandle,
        caps: &SurfaceCaps,
        width: u32,
        height: u32,
        params: &Vec<ObjectParams>,
    ) -> (s: AppState)
        requires
            caps.well_formed(),
            forall|i: int| 0 <= i < params@.len() ==> (#[trigger] params@[i]).well_formed(),
        ensures
            s.window == window,
            s.config == initial_config(*caps, width, height),
            s.pipeline == pipeline_for(preferred_format(caps.formats@)),
            s.pool.initialized_from(params@),
            s.well_formed(),
    {
        let config = SurfaceConfig::create(caps, width, height);
        let pipeline = PipelineSpec::build(&config);
        let pool = ObjectPool::new(params);
        AppState { window, config, pipeline, pool }
    }

    /// Applies a resize event to the surface configuration: accepted events
    /// overwrite width and height, degenerate ones change nothing. Returns
    /// whether the surface must be reconfigured.
    pub fn resize(&mut self, width: u32, height: u32) -> (reconfigure: bool)
        ensures
            final(self).config == old(self).config.resized(width, height),
            final(self).window == old(self).window,
            final(self).pipeline == old(self).pipeline,
            final(self).pool == old(self).pool,
            reconfigure == (width > 0 && height > 0),
    {
        self.config.resize(width, height)
    }

    /// Renders one frame: propagates an acquisition failure untouched, or
    /// runs one scale pass over the pool and returns the frame's command
    /// stream. Only the pool changes; window, configuration and pipeline are
    /// untouched.
    pub fn draw<F: Fn(u32, u32) -> u32>(
        &mut self,
        acquired: Result<FrameSurface, SurfaceError>,
        div: F,
    ) -> (r: Result<Vec<DrawCommand>, SurfaceError>)
        requires
            forall|s: u32, a: u32| #[trigger] call_requires(div, (s, a)),
            acquired matches Ok(fs) ==> fs.height > 0,
        ensures
            final(self).window == old(self).window,
            final(self).config == old(self).config,
            final(self).pipeline == old(self).pipeline,
            acquired matches Err(e) ==> r == Err::<Vec<DrawCommand>, SurfaceError>(e)
                && final(self).pool == old(self).pool,
            acquired matches Ok(fs) ==> {
                &&& r is Ok
                &&& r->Ok_0@ == crate::frame::frame_commands(old(self).pool.objects@.len() as int)
                &&& scale_pass(old(self).pool, final(self).pool, fs.width / fs.height, div)
                &&& old(self).pool.well_formed() ==> final(self).pool.well_formed()
            },
    {
        render_frame(&mut self.pool, acquired, div)
    }
}

/// The lifecycle: exactly one of suspended or active at all times, this
/// being a closed sum of the two.
pub enum Lifecycle {
    /// No GPU resources exist; at most a window handle is retained from an
    /// earlier active period.
    Suspended { window: Option<WindowHandle> },
    /// The application renders; full application state is live.
    Active { app: AppState },
}

impl Default for Lifecycle {
    /// The initial state: suspended, with no window created yet.
    fn default() -> (s: Self)
        ensures
            s == (Lifecycle::Suspended { window: None::<WindowHandle> }),
    {
        Lifecycle::Suspended { window: None }
    }
}

/// What the event loop must do after the library handles a window event.
#[derive(Clone, Copy, PartialEq, Eq, Structural, Debug)]
pub enum EventAction {
    /// Stop the event loop: the application terminates.
    ExitLoop,
    /// Reconfigure the surface from the updated configuration.
    Reconfigure,
    /// Acquire the next surface texture and render a frame.
    RenderFrame,
    /// Nothing to do.
    Idle,
}

/// A window event as the library sees it, reduced to the cases the loop
/// dispatches on.
#[derive(Clone, Copy, PartialEq, Eq, Structural, Debug)]
pub enum WindowEvent {
    CloseRequested,
    Resized { width: u32, height: u32 },
    RedrawRequested,
    OtherEvent,
}

impl Lifecycle {
    /// The window the next resume must use: the one retained through
    /// suspension if there is one, else the freshly created one.
    pub open spec fn resume_window(self, fresh: WindowHandle) -> WindowHandle {
        match self {
            Lifecycle::Suspended { window: Some(w) } => w,
            _ => fresh,
        }
    }

    /// The state after a suspend event: an active application is torn down
    /// to a suspended state retaining only its window handle; a suspended
    /// state is unchanged.
    pub open spec fn suspended_state(self) -> Lifecycle {
        match self {
            Lifecycle::Active { app } => Lifecycle::Suspended { window: Some(app.window) },
            _ => self,
        }
    }

    /// The window handle the state holds, if any.
    pub open spec fn current_window(self) -> Option<WindowHandle> {
        match self {
            Lifecycle::Active { app } => Some(app.window),
            Lifecycle::Suspended { window } => window,
        }
    }

    /// Handles a resume event: the retained window is reused if suspension
    /// carried one — `fresh` is the window the loop created in case none was
    /// retained — and the whole GPU stack is bootstrapped anew; nothing is
    /// cached across a suspend/resume cycle.
    pub fn on_resumed(
        &mut self,
        fresh: WindowHandle,
        caps: &SurfaceCaps,
        width: u32,
        height: u32,
        params: &Vec<ObjectParams>,
    )
        requires
            caps.well_formed(),
            forall|i: int| 0 <= i < params@.len() ==> (#[trigger] params@[i]).well_formed(),
        ensures
            *final(self) matches Lifecycle::Active { app } && {
                &&& app.window == old(self).resume_window(fresh)
                &&& app.config == initial_config(*caps, width, height)
                &&& app.pipeline == pipeline_for(preferred_format(caps.formats@))
                &&& app.pool.initialized_from(params@)
                &&& app.well_formed()
            },
    {
        let window = match &*self {
            Lifecycle::Suspended { window: Some(w) } => *w,
            _ => fresh,
        };
        *self = Lifecycle::Active { app: AppState::new(window, caps, width, height, params) };
    }

    /// Handles a suspend event: an active application keeps only its window
    /// handle. The loop must then block until the next event rather than
    /// poll.
    pub fn on_suspended(&mut self)
        ensures
            *final(self) == old(self).suspended_state(),
    {
        let retained = match &*self {
            Lifecycle::Active { app } => Some(app.window),
            Lifecycle::Suspended { window } => *window,
        };
        if let Lifecycle::Active { .. } = &*self {
            *self = Lifecycle::Suspended { window: retained };
        }
    }

    /// Whether the loop must request a redraw when it runs out of pending
    /// events: exactly while active, driving continuous rendering.
    pub fn redraw_on_idle(&self) -> (r: bool)
        ensures
            r == (self is Active),
    {
        match self {
            Lifecycle::Active { .. } => true,
            _ => false,
        }
    }

    /// The state after a window event: only an accepted resize while active
    /// changes anything, and it changes only the surface configuration.
    pub open spec fn after_window_event(self, event: WindowEvent) -> Lifecycle {
        match self {
            Lifecycle::Active { app } => match event {
                WindowEvent::Resized { width, height } => Lifecycle::Active {
                    app: AppState { config: app.config.resized(width, height), ..app },
                },
                _ => self,
            },
            _ => self,
        }
    }

    /// What the loop must do after a window event: nothing while suspended;
    /// while active, exit on a close request, reconfigure the surface after
    /// an accepted resize, and render after a redraw request.
    pub open spec fn window_event_action(self, event: WindowEvent) -> EventAction {
        if self is Active {
            match event {
                WindowEvent::CloseRequested => EventAction::ExitLoop,
                WindowEvent::Resized { width, height } => if width > 0 && height > 0 {
                    EventAction::Reconfigure
                } else {
                    EventAction::Idle
                },
                WindowEvent::RedrawRequested => EventAction::RenderFrame,
                WindowEvent::OtherEvent => EventAction::Idle,
            }
        } else {
            EventAction::Idle
        }
    }

    /// Dispatches one window event.
    pub fn on_window_event(&mut self, event: WindowEvent) -> (action: EventAction)
        ensures
            *final(self) == old(self).after_window_event(event),
            action == old(self).window_event_action(event),
    {
        match self {
            Lifecycle::Active { app } => match event {
                WindowEvent::CloseRequested => EventAction::ExitLoop,
                WindowEvent::Resized { width, height } => {
                    if app.resize(width, height) {
                        EventAction::Reconfigure
                    } else {
                        EventAction::Idle
                    }
                },
                WindowEvent::RedrawRequested => EventAction::RenderFrame,
                WindowEvent::OtherEvent => EventAction::Idle,
            },
            _ => EventAction::Idle,
        }
    }
}

/// Law: a window event can change nothing of an active application but its
/// surface configuration — the window identity, the pipeline, and the object
/// pool (with every object's creation-time color/offset vector) survive any
/// event the loop dispatches.
pub proof fn lemma_window_event_touches_only_config(app: AppState, event: WindowEvent)
    ensures
        (Lifecycle::Active { app }).after_window_event(event) matches Lifecycle::Active { app: a }
            && a.window == app.window && a.pipeline == app.pipeline && a.pool == app.pool,
{
}

/// Law: resuming immediately after suspending an active application reuses
/// the window that suspension retained — the very window the application was
/// rendering to — whatever fresh window the loop may have created.
pub proof fn lemma_suspend_resume_reuses_window(s: Lifecycle, fresh: WindowHandle)
    requires
        s is Active,
    ensures
        Some(s.suspended_state().resume_window(fresh)) == s.current_window(),
{
}

} // verus!
