//! The configured application and its frame loop.
//!
//! The shell owns the window, the device and the queue; `XApp` owns what is
//! decided about them. The loop is a state machine: the shell does what the
//! machine asks for, tells it what came of that, and is told what to do
//! next. The loop opens the event queue once. One turn of it then polls the
//! pending input events one by one and, when none is left, renders one
//! frame.

use vstd::prelude::*;
use wgpu::TextureFormat;
use crate::pipeline::PipelineDescriptor;
use crate::render::{frame, frame_commands, submits_then_presents, RenderCommand};
use crate::surface::SurfaceConfiguration;
use crate::vertex::{triangle, vertices, Vertex, VERTEX_COUNT};

verus! {

/// What the loop does on this platform and in this build, settled once
/// before the loop starts.
#[derive(Clone, Copy, Debug, PartialEq, Eq, Structural)]
pub struct LoopPolicy {
    /// Whether the shell logs the events that it sees.
    pub verbose_logging: bool,
    /// Whether the surface is acquired again when the application returns
    /// to the foreground.
    pub supports_resume_reacquire: bool,
    /// Whether pressing the escape key ends the loop.
    pub escape_key_quits: bool,
}

impl LoopPolicy {
    /// The policy of a build: a debug build logs; a mobile platform
    /// acquires its surface again on resume; the escape key quits a debug
    /// build that is not mobile.
    pub open spec fn resolved(debug_build: bool, mobile: bool) -> LoopPolicy {
        LoopPolicy {
            verbose_logging: debug_build,
            supports_resume_reacquire: mobile,
            escape_key_quits: debug_build && !mobile,
        }
    }

    /// Settles the policy of a build.
    pub fn for_build(debug_build: bool, mobile: bool) -> (policy: LoopPolicy)
        ensures
            policy == LoopPolicy::resolved(debug_build, mobile),
    {
        LoopPolicy {
            verbose_logging: debug_build,
            supports_resume_reacquire: mobile,
            escape_key_quits: debug_build && !mobile,
        }
    }
}

/// An input event, as far as the loop tells events apart.
#[derive(Clone, Copy, Debug, PartialEq, Eq, Structural)]
pub enum InputEvent {
    /// The platform asks the application to quit.
    Quit,
    /// The escape key went down.
    EscapeKeyDown,
    /// The application is about to return to the foreground.
    AppWillEnterForeground,
    /// Anything else.
    Other,
}

/// What the shell reports to the loop.
#[derive(Debug, PartialEq, Eq)]
pub enum LoopEvent {
    /// The event queue is open.
    QueueOpened,
    /// An input event was pending.
    Input(InputEvent),
    /// No input event is pending.
    QueueEmpty,
    /// The frame was drawn and presented.
    FramePresented,
    /// The surface was acquired again.
    SurfaceReacquired,
    /// What the loop asked for could not be done, for the reason given.
    Failed(String),
}

/// What the loop is waiting for.
#[derive(Clone, Copy, Debug, PartialEq, Eq, Structural)]
pub enum LoopPhase {
    /// For the event queue to be opened.
    Starting,
    /// For the next pending input event.
    Polling,
    /// For the frame to be presented.
    Rendering,
    /// For the surface to be acquired again.
    Reacquiring,
}

/// What the loop asks the shell to do.
#[derive(Clone, Copy, Debug, PartialEq, Eq, Structural)]
pub enum LoopAction {
    /// Open the queue of input events.
    OpenEventQueue,
    /// Take the next pending input event, without waiting for one.
    PollEvent,
    /// Draw and present one frame.
    Render,
    /// Acquire the surface again and configure it as before.
    ReacquireSurface,
}

/// The application once window, device and pipeline exist.
#[derive(Debug, PartialEq, Eq)]
pub struct XApp {
    pub config: SurfaceConfiguration,
    pub surface_format: TextureFormat,
    pub window_width: u32,
    pub window_height: u32,
    /// What the pipeline was built from.
    pub pipeline: PipelineDescriptor,
    /// What the vertex buffer was filled with.
    pub vertex_buffer: [Vertex; 3],
    /// Which binding of the surface is current: it changes whenever the
    /// surface is acquired again.
    pub surface_binding: u64,
    pub policy: LoopPolicy,
    pub phase: LoopPhase,
}

/// How one event moves the loop on.
#[derive(Debug, PartialEq, Eq)]
pub enum LoopStep {
    /// The loop goes on in the given state, and the shell acts.
    Continue(XApp, LoopAction),
    /// The loop has ended: in order, or with the error that ended it.
    Exit(Result<(), String>),
}

/// The binding that follows a binding.
pub open spec fn next_binding(binding: u64) -> u64 {
    if binding == u64::MAX {
        0
    } else {
        (binding + 1) as u64
    }
}

impl XApp {
    /// The parts agree: the surface is configured for the window and the
    /// chosen format, the pipeline draws to that format, and the vertex
    /// buffer holds the triangle.
    pub open spec fn wf(self) -> bool {
        &&& self.surface_format == self.config.format
        &&& self.window_width == self.config.width
        &&& self.window_height == self.config.height
        &&& self.pipeline == PipelineDescriptor::for_format(self.surface_format)
        &&& self.vertex_buffer == triangle()
    }

    /// The application as it stands when its resources have just been
    /// created.
    pub open spec fn configured(config: SurfaceConfiguration, policy: LoopPolicy) -> XApp {
        XApp {
            config,
            surface_format: config.format,
            window_width: config.width,
            window_height: config.height,
            pipeline: PipelineDescriptor::for_format(config.format),
            vertex_buffer: triangle(),
            surface_binding: 0,
            policy,
            phase: LoopPhase::Starting,
        }
    }

    /// Records a surface configured with `config` together with the
    /// pipeline and the vertex buffer that belong to it. The loop has not
    /// started.
    pub fn new(config: SurfaceConfiguration, policy: LoopPolicy) -> (app: XApp)
        ensures
            app == XApp::configured(config, policy),
            app.wf(),
    {
        XApp {
            config,
            surface_format: config.format,
            window_width: config.width,
            window_height: config.height,
            pipeline: PipelineDescriptor::new(config.format),
            vertex_buffer: vertices(),
            surface_binding: 0,
            policy,
            phase: LoopPhase::Starting,
        }
    }

    /// What the loop is waiting for the shell to do.
    pub open spec fn pending(self) -> LoopAction {
        match self.phase {
            LoopPhase::Starting => LoopAction::OpenEventQueue,
            LoopPhase::Polling => LoopAction::PollEvent,
            LoopPhase::Rendering => LoopAction::Render,
            LoopPhase::Reacquiring => LoopAction::ReacquireSurface,
        }
    }

    /// Tells what the loop is waiting for. A loop that has not started
    /// waits for the event queue.
    pub fn action(&self) -> (action: LoopAction)
        ensures
            action == self.pending(),
    {
        match self.phase {
            LoopPhase::Starting => LoopAction::OpenEventQueue,
            LoopPhase::Polling => LoopAction::PollEvent,
            LoopPhase::Rendering => LoopAction::Render,
            LoopPhase::Reacquiring => LoopAction::ReacquireSurface,
        }
    }

    /// The application after the surface was acquired again: a new binding
    /// of the surface, and nothing else new.
    pub open spec fn resumed(self) -> XApp {
        XApp { surface_binding: next_binding(self.surface_binding), ..self }
    }

    /// Takes note that the surface was acquired again. The pipeline and the
    /// vertex buffer stay the ones they were; the surface keeps its
    /// configuration and has a new binding.
    pub fn handle_resume(self) -> (app: XApp)
        ensures
            app == self.resumed(),
            app.pipeline == self.pipeline,
            app.vertex_buffer == self.vertex_buffer,
            app.config == self.config,
            app.surface_binding != self.surface_binding,
            self.wf() ==> app.wf(),
    {
        let binding: u64 = if self.surface_binding == u64::MAX {
            0
        } else {
            self.surface_binding + 1
        };
        XApp { surface_binding: binding, ..self }
    }

    /// The event changes nothing: the loop goes on waiting.
    pub open spec fn waiting(self) -> LoopStep {
        LoopStep::Continue(self, self.pending())
    }

    /// The loop in the given phase.
    pub open spec fn in_phase(self, phase: LoopPhase) -> XApp {
        XApp { phase, ..self }
    }

    /// A return to the foreground has the surface acquired again: the
    /// platform needs it, and the loop is polling.
    pub open spec fn reacquires(self) -> bool {
        self.policy.supports_resume_reacquire && self.phase == LoopPhase::Polling
    }

    /// How an event moves the loop on.
    ///
    /// A quit ends the loop, and so does the escape key where the policy
    /// says so. A failure ends it with the failure's message. Once the
    /// event queue is open, input is polled. When no input is pending, a
    /// frame is rendered, and when the frame is presented, input is polled
    /// again. A return to the foreground, met while polling on a platform
    /// that needs it, has the surface acquired again before polling goes
    /// on. Any other input, and any report that the loop is not waiting
    /// for, changes nothing.
    pub open spec fn step(self, event: LoopEvent) -> LoopStep {
        match event {
            LoopEvent::QueueOpened => if self.phase == LoopPhase::Starting {
                LoopStep::Continue(self.in_phase(LoopPhase::Polling), LoopAction::PollEvent)
            } else {
                self.waiting()
            },
            LoopEvent::Input(InputEvent::Quit) => LoopStep::Exit(Ok(())),
            LoopEvent::Input(InputEvent::EscapeKeyDown) => if self.policy.escape_key_quits {
                LoopStep::Exit(Ok(()))
            } else {
                self.waiting()
            },
            LoopEvent::Input(InputEvent::AppWillEnterForeground) => if self.reacquires() {
                LoopStep::Continue(
                    self.in_phase(LoopPhase::Reacquiring),
                    LoopAction::ReacquireSurface,
                )
            } else {
                self.waiting()
            },
            LoopEvent::Input(InputEvent::Other) => self.waiting(),
            LoopEvent::QueueEmpty => if self.phase == LoopPhase::Polling {
                LoopStep::Continue(self.in_phase(LoopPhase::Rendering), LoopAction::Render)
            } else {
                self.waiting()
            },
            LoopEvent::FramePresented => if self.phase == LoopPhase::Rendering {
                LoopStep::Continue(self.in_phase(LoopPhase::Polling), LoopAction::PollEvent)
            } else {
                self.waiting()
            },
            LoopEvent::SurfaceReacquired => if self.phase == LoopPhase::Reacquiring {
                LoopStep::Continue(
                    self.resumed().in_phase(LoopPhase::Polling),
                    LoopAction::PollEvent,
                )
            } else {
                self.waiting()
            },
            LoopEvent::Failed(message) => LoopStep::Exit(Err(message)),
        }
    }

    /// Moves the frame loop on by one event and says what the shell does
    /// next, or that the loop has ended and how. What the shell is told to
    /// do is what the loop then waits for.
    pub fn run(self, event: LoopEvent) -> (step: LoopStep)
        ensures
            step == self.step(event),
            step matches LoopStep::Continue(next, action) ==> action == next.pending(),
            self.wf() ==> (step matches LoopStep::Continue(next, _) ==> next.wf()),
    {
        match event {
            LoopEvent::QueueOpened => {
                if self.phase == LoopPhase::Starting {
                    LoopStep::Continue(
                        XApp { phase: LoopPhase::Polling, ..self },
                        LoopAction::PollEvent,
                    )
                } else {
                    self.wait()
                }
            },
            LoopEvent::Input(InputEvent::Quit) => LoopStep::Exit(Ok(())),
            LoopEvent::Input(InputEvent::EscapeKeyDown) => {
                if self.policy.escape_key_quits {
                    LoopStep::Exit(Ok(()))
                } else {
                    self.wait()
                }
            },
            LoopEvent::Input(InputEvent::AppWillEnterForeground) => {
                if self.policy.supports_resume_reacquire && self.phase == LoopPhase::Polling {
                    LoopStep::Continue(
                        XApp { phase: LoopPhase::Reacquiring, ..self },
                        LoopAction::ReacquireSurface,
                    )
                } else {
                    self.wait()
                }
            },
            LoopEvent::Input(InputEvent::Other) => self.wait(),
            LoopEvent::QueueEmpty => {
                if self.phase == LoopPhase::Polling {
                    LoopStep::Continue(
                        XApp { phase: LoopPhase::Rendering, ..self },
                        LoopAction::Render,
                    )
                } else {
                    self.wait()
                }
            },
            LoopEvent::FramePresented => {
                if self.phase == LoopPhase::Rendering {
                    LoopStep::Continue(
                        XApp { phase: LoopPhase::Polling, ..self },
                        LoopAction::PollEvent,
                    )
                } else {
                    self.wait()
                }
            },
            LoopEvent::SurfaceReacquired => {
                if self.phase == LoopPhase::Reacquiring {
                    let resumed = self.handle_resume();
                    LoopStep::Continue(
                        XApp { phase: LoopPhase::Polling, ..resumed },
                        LoopAction::PollEvent,
                    )
                } else {
                    self.wait()
                }
            },
            LoopEvent::Failed(message) => LoopStep::Exit(Err(message)),
        }
    }

    /// Goes on waiting for what the loop was waiting for.
    fn wait(self) -> (step: LoopStep)
        ensures
            step == self.waiting(),
    {
        let action = self.action();
        LoopStep::Continue(self, action)
    }

    /// Plans one frame. `acquired` tells whether the surface gave out its
    /// next image. Without an image nothing is drawn and the error is
    /// handed on; with one, the frame's commands are listed: the pipeline
    /// and the vertex buffer bound, the triangle's vertices drawn once, one
    /// submission, one presentation.
    pub fn render(&self, acquired: Result<(), String>) -> (commands: Result<
        Vec<RenderCommand>,
        String,
    >)
        ensures
            acquired is Err <==> commands is Err,
            acquired matches Err(message) ==> commands == Err::<Vec<RenderCommand>, String>(
                message,
            ),
            commands matches Ok(list) ==> list@ == frame(VERTEX_COUNT) && submits_then_presents(
                list@,
            ),
    {
        match acquired {
            Ok(()) => Ok(frame_commands(VERTEX_COUNT)),
            Err(message) => Err(message),
        }
    }

    /// What the loop asks for in answer to each of a run of events, until
    /// it ends or the events run out.
    pub open spec fn actions(self, events: Seq<LoopEvent>) -> Seq<LoopAction>
        decreases events.len(),
    {
        if events.len() == 0 {
            Seq::empty()
        } else {
            match self.step(events[0]) {
                LoopStep::Continue(next, action) => seq![action] + next.actions(
                    events.drop_first(),
                ),
                LoopStep::Exit(_) => Seq::empty(),
            }
        }
    }

    /// How the loop ended in the course of a run of events, if it did.
    pub open spec fn result(self, events: Seq<LoopEvent>) -> Option<Result<(), String>>
        decreases events.len(),
    {
        if events.len() == 0 {
            None
        } else {
            match self.step(events[0]) {
                LoopStep::Continue(next, _) => next.result(events.drop_first()),
                LoopStep::Exit(result) => Some(result),
            }
        }
    }
}

/// A quit ends the loop wherever it arrives: the loop asks for nothing in
/// answer to the quit or to any event after it, so no frame is rendered
/// once the quit is delivered.
pub proof fn lemma_quit_ends_loop(app: XApp, events: Seq<LoopEvent>, i: int)
    requires
        0 <= i < events.len(),
        events[i] == LoopEvent::Input(InputEvent::Quit),
    ensures
        app.actions(events).len() <= i,
        app.result(events) is Some,
        forall|j: int|
            i <= j < app.actions(events).len() ==> app.actions(events)[j] != LoopAction::Render,
    decreases i,
{
    match app.step(events[0]) {
        LoopStep::Continue(next, _) => {
            if i > 0 {
                lemma_quit_ends_loop(next, events.drop_first(), i - 1);
            }
        },
        LoopStep::Exit(_) => {},
    }
}

/// A quit that reaches a running loop ends it in order.
pub proof fn lemma_quit_exits_in_order(app: XApp, events: Seq<LoopEvent>, i: int)
    requires
        0 <= i < events.len(),
        events[i] == LoopEvent::Input(InputEvent::Quit),
        app.result(events.take(i)) is None,
    ensures
        app.result(events) == Some(Ok::<(), String>(())),
    decreases i,
{
    if i > 0 {
        assert(events.take(i)[0] == events[0]);
        assert(events.take(i).drop_first() =~= events.drop_first().take(i - 1));
        match app.step(events[0]) {
            LoopStep::Continue(next, _) => {
                lemma_quit_exits_in_order(next, events.drop_first(), i - 1);
            },
            LoopStep::Exit(_) => {},
        }
    }
}

/// A failure ends a running loop with the failure's message, whatever the
/// loop was waiting for.
pub proof fn lemma_failure_ends_loop(
    app: XApp,
    events: Seq<LoopEvent>,
    i: int,
    message: String,
)
    requires
        0 <= i < events.len(),
        events[i] == LoopEvent::Failed(message),
        app.result(events.take(i)) is None,
    ensures
        app.result(events) == Some(Err::<(), String>(message)),
    decreases i,
{
    if i > 0 {
        assert(events.take(i)[0] == events[0]);
        assert(events.take(i).drop_first() =~= events.drop_first().take(i - 1));
        match app.step(events[0]) {
            LoopStep::Continue(next, _) => {
                lemma_failure_ends_loop(next, events.drop_first(), i - 1, message);
            },
            LoopStep::Exit(_) => {},
        }
    }
}

/// Returning to the foreground on a platform that needs it acquires the
/// surface again and nothing more: the loop goes back to polling with the
/// pipeline and the vertex buffer that it had, on a new binding of the
/// surface, configured as it was.
pub proof fn lemma_resume_keeps_pipeline_and_vertices(app: XApp)
    requires
        app.policy.supports_resume_reacquire,
        app.phase == LoopPhase::Polling,
    ensures
        app.step(LoopEvent::Input(InputEvent::AppWillEnterForeground)) matches LoopStep::Continue(
            reacquiring,
            LoopAction::ReacquireSurface,
        ) && reacquiring.step(LoopEvent::SurfaceReacquired) matches LoopStep::Continue(
            resumed,
            LoopAction::PollEvent,
        ) && resumed.pipeline == app.pipeline && resumed.vertex_buffer == app.vertex_buffer
            && resumed.config == app.config && resumed.surface_binding != app.surface_binding
            && resumed.phase == LoopPhase::Polling,
{
}

/// A frame is rendered only when no input is pending: the loop asks for a
/// frame it was not already waiting for in answer to an empty queue alone.
pub proof fn lemma_render_follows_empty_queue(app: XApp, event: LoopEvent)
    requires
        app.phase != LoopPhase::Rendering,
        app.step(event) matches LoopStep::Continue(_, action) && action == LoopAction::Render,
    ensures
        event == LoopEvent::QueueEmpty,
        app.phase == LoopPhase::Polling,
{
}

} // verus!
