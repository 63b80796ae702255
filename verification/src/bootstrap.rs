//! From a window title to a configured application, one step at a time.
//!
//! Window, surface, adapter and device are the shell's to create. The
//! bootstrap says which step is due and with what settings, takes what
//! came of it, and moves on to the next one or fails. The first failure
//! ends it: nothing of what was reached is kept.

use vstd::prelude::*;
use vstd::string::StringExecFns;
use wgpu::TextureFormat;
use crate::context::{LoopPolicy, XApp};
use crate::format::{choose_surface_format, preferred_format};
use crate::pipeline::PipelineDescriptor;
use crate::surface::{
    backends_for, select_backends, AdapterRequest, BackendSet, DeviceLimits,
    SurfaceConfiguration, WindowSize,
};
use crate::vertex::{triangle, vertices, BufferUse, Vertex};

verus! {

/// The message of a bootstrap that found no adapter for its surface.
pub open spec fn no_adapter() -> Seq<char> {
    "Cannot get adapter"@
}

/// The message of a bootstrap whose surface supports no format.
pub open spec fn no_surface_format() -> Seq<char> {
    "Cannot get surface format"@
}

/// The message of a bootstrap that was told something other than what came
/// of the step that was due.
pub open spec fn unexpected_outcome() -> Seq<char> {
    "Unexpected outcome of a bootstrap step"@
}

/// The step that is due, with what the steps before it have settled.
#[derive(Clone, Copy, Debug, PartialEq, Eq)]
pub enum Stage {
    InitWindowing,
    CreateWindow,
    CreateSurface(WindowSize),
    RequestAdapter(WindowSize),
    RequestDevice(WindowSize),
    QueryFormats(WindowSize),
    ConfigureSurface(SurfaceConfiguration),
    BuildPipeline(SurfaceConfiguration),
    UploadVertices(SurfaceConfiguration),
}

/// The window to open.
#[derive(Debug, PartialEq, Eq)]
pub struct WindowSettings {
    pub title: String,
    pub fullscreen: bool,
    pub centered: bool,
    pub high_dpi: bool,
}

/// What the bootstrap asks the shell to do.
#[derive(Debug, PartialEq, Eq)]
pub enum BootstrapAction {
    /// Bring up the windowing system.
    InitWindowing,
    /// Open the window and report its size in pixels.
    CreateWindow(WindowSettings),
    /// Create a drawing surface on the window, with a graphics instance
    /// that offers the given backends.
    CreateSurface(BackendSet),
    /// Ask for an adapter that can draw to the surface.
    RequestAdapter(AdapterRequest),
    /// Ask the adapter for a device and its queue, within the given
    /// limits.
    RequestDevice(DeviceLimits),
    /// Report the formats that the surface supports with the adapter, in
    /// the surface's order.
    QueryFormats,
    /// Configure the surface.
    ConfigureSurface(SurfaceConfiguration),
    /// Compile the shader and build the pipeline.
    BuildPipeline(PipelineDescriptor),
    /// Create a buffer for the given use and fill it with the vertices.
    UploadVertices { vertices: [Vertex; 3], usage: BufferUse },
}

/// What came of a step.
#[derive(Debug, PartialEq, Eq)]
pub enum StepOutcome {
    /// The step was done and has nothing to report.
    Done,
    /// The window was opened with this size.
    WindowCreated(WindowSize),
    /// No adapter is available.
    AdapterMissing,
    /// The surface supports these formats.
    FormatsListed(Vec<TextureFormat>),
    /// The step failed, for the reason given.
    Failed(String),
}

/// A bootstrap under way.
#[derive(Debug, PartialEq, Eq)]
pub struct Bootstrap {
    pub title: String,
    pub debug_build: bool,
    pub policy: LoopPolicy,
    pub stage: Stage,
}

/// Where a bootstrap stands after a step that did not fail.
#[derive(Debug, PartialEq, Eq)]
pub enum Progress {
    /// More steps are due.
    Pending(Bootstrap),
    /// Every step is done.
    Ready(XApp),
}

impl Stage {
    /// The step that follows a step which was done and had nothing to
    /// report, where there is such a step.
    pub open spec fn after_done(self) -> Option<Stage> {
        match self {
            Stage::InitWindowing => Some(Stage::CreateWindow),
            Stage::CreateSurface(size) => Some(Stage::RequestAdapter(size)),
            Stage::RequestAdapter(size) => Some(Stage::RequestDevice(size)),
            Stage::RequestDevice(size) => Some(Stage::QueryFormats(size)),
            Stage::ConfigureSurface(config) => Some(Stage::BuildPipeline(config)),
            Stage::BuildPipeline(config) => Some(Stage::UploadVertices(config)),
            _ => None,
        }
    }
}

impl Bootstrap {
    /// Starts a bootstrap: the windowing system is brought up first.
    pub fn new(window_title: &str, debug_build: bool, policy: LoopPolicy) -> (boot: Bootstrap)
        ensures
            boot.title@ == window_title@,
            boot.debug_build == debug_build,
            boot.policy == policy,
            boot.stage == Stage::InitWindowing,
    {
        Bootstrap {
            title: String::from_str(window_title),
            debug_build,
            policy,
            stage: Stage::InitWindowing,
        }
    }

    /// The bootstrap at another step.
    pub open spec fn at(self, stage: Stage) -> Bootstrap {
        Bootstrap { stage, ..self }
    }

    /// What is due: the step, and the settings that the shell carries it
    /// out with.
    pub open spec fn pending(self) -> BootstrapAction {
        match self.stage {
            Stage::InitWindowing => BootstrapAction::InitWindowing,
            Stage::CreateWindow => BootstrapAction::CreateWindow(
                WindowSettings {
                    title: self.title,
                    fullscreen: true,
                    centered: true,
                    high_dpi: true,
                },
            ),
            Stage::CreateSurface(_) => BootstrapAction::CreateSurface(
                backends_for(self.debug_build),
            ),
            Stage::RequestAdapter(_) => BootstrapAction::RequestAdapter(
                AdapterRequest::preferred(),
            ),
            Stage::RequestDevice(_) => BootstrapAction::RequestDevice(DeviceLimits::Adapter),
            Stage::QueryFormats(_) => BootstrapAction::QueryFormats,
            Stage::ConfigureSurface(config) => BootstrapAction::ConfigureSurface(config),
            Stage::BuildPipeline(config) => BootstrapAction::BuildPipeline(
                PipelineDescriptor::for_format(config.format),
            ),
            Stage::UploadVertices(_) => BootstrapAction::UploadVertices {
                vertices: triangle(),
                usage: BufferUse::Vertex,
            },
        }
    }

    /// Tells the shell what is due.
    pub fn action(&self) -> (action: BootstrapAction)
        ensures
            action == self.pending(),
    {
        match self.stage {
            Stage::InitWindowing => BootstrapAction::InitWindowing,
            Stage::CreateWindow => BootstrapAction::CreateWindow(
                WindowSettings {
                    title: self.title.clone(),
                    fullscreen: true,
                    centered: true,
                    high_dpi: true,
                },
            ),
            Stage::CreateSurface(_) => BootstrapAction::CreateSurface(
                select_backends(self.debug_build),
            ),
            Stage::RequestAdapter(_) => BootstrapAction::RequestAdapter(AdapterRequest::new()),
            Stage::RequestDevice(_) => BootstrapAction::RequestDevice(DeviceLimits::Adapter),
            Stage::QueryFormats(_) => BootstrapAction::QueryFormats,
            Stage::ConfigureSurface(config) => BootstrapAction::ConfigureSurface(config),
            Stage::BuildPipeline(config) => BootstrapAction::BuildPipeline(
                PipelineDescriptor::new(config.format),
            ),
            Stage::UploadVertices(_) => BootstrapAction::UploadVertices {
                vertices: vertices(),
                usage: BufferUse::Vertex,
            },
        }
    }

    /// Why the bootstrap fails on an outcome, where it does.
    ///
    /// It fails with the step's own message when the step failed; when no
    /// adapter is available; when the surface supports no format; and when
    /// the outcome is not one that the step that was due can have.
    pub open spec fn failure(self, outcome: StepOutcome) -> Option<Seq<char>> {
        match outcome {
            StepOutcome::Failed(message) => Some(message@),
            StepOutcome::Done => if self.stage.after_done() is Some
                || self.stage is UploadVertices {
                None
            } else {
                Some(unexpected_outcome())
            },
            StepOutcome::WindowCreated(_) => if self.stage is CreateWindow {
                None
            } else {
                Some(unexpected_outcome())
            },
            StepOutcome::AdapterMissing => if self.stage is RequestAdapter {
                Some(no_adapter())
            } else {
                Some(unexpected_outcome())
            },
            StepOutcome::FormatsListed(formats) => if !(self.stage is QueryFormats) {
                Some(unexpected_outcome())
            } else if formats@.len() == 0 {
                Some(no_surface_format())
            } else {
                None
            },
        }
    }

    /// Where the bootstrap stands after an outcome on which it does not
    /// fail.
    ///
    /// The size of the window and the preferred format of the surface are
    /// kept for the configuration of the surface; every other step leads
    /// to the next; the last one leads to the configured application.
    pub open spec fn advanced(self, outcome: StepOutcome) -> Progress {
        match (self.stage, outcome) {
            (Stage::CreateWindow, StepOutcome::WindowCreated(size)) => Progress::Pending(
                self.at(Stage::CreateSurface(size)),
            ),
            (Stage::QueryFormats(size), StepOutcome::FormatsListed(formats)) => Progress::Pending(
                self.at(
                    Stage::ConfigureSurface(
                        SurfaceConfiguration::for_window(
                            preferred_format(formats@).unwrap(),
                            size,
                        ),
                    ),
                ),
            ),
            (Stage::UploadVertices(config), StepOutcome::Done) => Progress::Ready(
                XApp::configured(config, self.policy),
            ),
            (stage, _) => Progress::Pending(self.at(stage.after_done().unwrap())),
        }
    }

    /// `progress` is what the outcome leads to: the failure with its
    /// message where the bootstrap fails, and where it does not, the place
    /// where it stands afterwards.
    pub open spec fn yields(self, outcome: StepOutcome, progress: Result<Progress, String>) -> bool {
        match progress {
            Err(message) => self.failure(outcome) == Some(message@),
            Ok(next) => self.failure(outcome) is None && next == self.advanced(outcome),
        }
    }

    /// Takes what came of the step that was due. The result is the error
    /// that ends the bootstrap, or the bootstrap at its next step, or,
    /// after the last step, the configured application.
    pub fn advance(self, outcome: StepOutcome) -> (progress: Result<Progress, String>)
        ensures
            self.yields(outcome, progress),
            progress is Err <==> self.failure(outcome) is Some,
            progress matches Ok(Progress::Ready(app)) ==> app.wf(),
    {
        match outcome {
            StepOutcome::Failed(message) => Err(message),
            StepOutcome::Done => {
                let stage = match self.stage {
                    Stage::InitWindowing => Stage::CreateWindow,
                    Stage::CreateSurface(size) => Stage::RequestAdapter(size),
                    Stage::RequestAdapter(size) => Stage::RequestDevice(size),
                    Stage::RequestDevice(size) => Stage::QueryFormats(size),
                    Stage::ConfigureSurface(config) => Stage::BuildPipeline(config),
                    Stage::BuildPipeline(config) => Stage::UploadVertices(config),
                    Stage::UploadVertices(config) => {
                        return Ok(Progress::Ready(XApp::new(config, self.policy)));
                    },
                    _ => {
                        return Err(String::from_str("Unexpected outcome of a bootstrap step"));
                    },
                };
                Ok(Progress::Pending(Bootstrap { stage, ..self }))
            },
            StepOutcome::WindowCreated(size) => match self.stage {
                Stage::CreateWindow => Ok(
                    Progress::Pending(Bootstrap { stage: Stage::CreateSurface(size), ..self }),
                ),
                _ => Err(String::from_str("Unexpected outcome of a bootstrap step")),
            },
            StepOutcome::AdapterMissing => match self.stage {
                Stage::RequestAdapter(_) => Err(String::from_str("Cannot get adapter")),
                _ => Err(String::from_str("Unexpected outcome of a bootstrap step")),
            },
            StepOutcome::FormatsListed(formats) => match self.stage {
                Stage::QueryFormats(size) => match choose_surface_format(&formats) {
                    Some(format) => {
                        let config = SurfaceConfiguration::new(format, size);
                        Ok(
                            Progress::Pending(
                                Bootstrap { stage: Stage::ConfigureSurface(config), ..self },
                            ),
                        )
                    },
                    None => Err(String::from_str("Cannot get surface format")),
                },
                _ => Err(String::from_str("Unexpected outcome of a bootstrap step")),
            },
        }
    }

    /// How the bootstrap ended in the course of a run of outcomes, if it
    /// did: with the configured application, or with the message of the
    /// failure.
    pub open spec fn result(self, outcomes: Seq<StepOutcome>) -> Option<Result<XApp, Seq<char>>>
        decreases outcomes.len(),
    {
        if outcomes.len() == 0 {
            None
        } else {
            match self.failure(outcomes[0]) {
                Some(message) => Some(Err(message)),
                None => match self.advanced(outcomes[0]) {
                    Progress::Pending(next) => next.result(outcomes.drop_first()),
                    Progress::Ready(app) => Some(Ok(app)),
                },
            }
        }
    }
}

/// A bootstrap is all or nothing: whichever step fails, the failure ends
/// the bootstrap, with the step's message and with no application.
pub proof fn lemma_failure_ends_bootstrap(
    boot: Bootstrap,
    outcomes: Seq<StepOutcome>,
    i: int,
    message: String,
)
    requires
        0 <= i < outcomes.len(),
        outcomes[i] == StepOutcome::Failed(message),
        boot.result(outcomes.take(i)) is None,
    ensures
        boot.result(outcomes) == Some(Err::<XApp, Seq<char>>(message@)),
    decreases i,
{
    if i > 0 {
        assert(outcomes.take(i)[0] == outcomes[0]);
        assert(outcomes.take(i).drop_first() =~= outcomes.drop_first().take(i - 1));
        if boot.failure(outcomes[0]) is None {
            match boot.advanced(outcomes[0]) {
                Progress::Pending(next) => {
                    lemma_failure_ends_bootstrap(next, outcomes.drop_first(), i - 1, message);
                },
                Progress::Ready(_) => {},
            }
        }
    }
}

/// Every step of a bootstrap succeeds in `outcomes`: the window is opened
/// with `size`, the surface supports `formats`, of which there is at least
/// one, and each of the other seven steps is done.
pub open spec fn all_succeed(
    outcomes: Seq<StepOutcome>,
    size: WindowSize,
    formats: Vec<TextureFormat>,
) -> bool {
    &&& outcomes.len() >= 9
    &&& outcomes[0] == StepOutcome::Done
    &&& outcomes[1] == StepOutcome::WindowCreated(size)
    &&& outcomes[2] == StepOutcome::Done
    &&& outcomes[3] == StepOutcome::Done
    &&& outcomes[4] == StepOutcome::Done
    &&& outcomes[5] == StepOutcome::FormatsListed(formats)
    &&& formats@.len() > 0
    &&& outcomes[6] == StepOutcome::Done
    &&& outcomes[7] == StepOutcome::Done
    &&& outcomes[8] == StepOutcome::Done
}

/// The application that a bootstrap owes when every step succeeds: it is
/// configured for the size of the window and for the preferred format of
/// the surface, and it keeps the policy that the bootstrap was given.
pub open spec fn owed(boot: Bootstrap, size: WindowSize, formats: Vec<TextureFormat>) -> XApp {
    XApp::configured(
        SurfaceConfiguration::for_window(preferred_format(formats@).unwrap(), size),
        boot.policy,
    )
}

/// A bootstrap whose steps all succeed ends with the application that it
/// owes.
pub proof fn lemma_success_is_owed(
    boot: Bootstrap,
    outcomes: Seq<StepOutcome>,
    size: WindowSize,
    formats: Vec<TextureFormat>,
)
    requires
        boot.stage == Stage::InitWindowing,
        all_succeed(outcomes, size, formats),
    ensures
        boot.result(outcomes) == Some(Ok::<XApp, Seq<char>>(owed(boot, size, formats))),
        owed(boot, size, formats).wf(),
{
    reveal_with_fuel(Bootstrap::result, 10);
    let o1 = outcomes.drop_first();
    let o2 = o1.drop_first();
    let o3 = o2.drop_first();
    let o4 = o3.drop_first();
    let o5 = o4.drop_first();
    let o6 = o5.drop_first();
    let o7 = o6.drop_first();
    let o8 = o7.drop_first();
    assert(o1[0] == outcomes[1]);
    assert(o2[0] == outcomes[2]);
    assert(o3[0] == outcomes[3]);
    assert(o4[0] == outcomes[4]);
    assert(o5[0] == outcomes[5]);
    assert(o6[0] == outcomes[6]);
    assert(o7[0] == outcomes[7]);
    assert(o8[0] == outcomes[8]);
}

/// A bootstrap ends with an application only when every one of its steps
/// has succeeded, and then with the application that it owes.
pub proof fn lemma_success_needs_every_step(boot: Bootstrap, outcomes: Seq<StepOutcome>)
    requires
        boot.stage == Stage::InitWindowing,
        boot.result(outcomes) matches Some(Ok(_)),
    ensures
        exists|size: WindowSize, formats: Vec<TextureFormat>|
            #[trigger] all_succeed(outcomes, size, formats) && boot.result(outcomes) == Some(
                Ok::<XApp, Seq<char>>(owed(boot, size, formats)),
            ),
{
    reveal_with_fuel(Bootstrap::result, 10);
    let o1 = outcomes.drop_first();
    let o2 = o1.drop_first();
    let o3 = o2.drop_first();
    let o4 = o3.drop_first();
    let o5 = o4.drop_first();
    let o6 = o5.drop_first();
    let o7 = o6.drop_first();
    let o8 = o7.drop_first();
    assert(outcomes.len() >= 9);
    assert(o1[0] == outcomes[1]);
    assert(o2[0] == outcomes[2]);
    assert(o3[0] == outcomes[3]);
    assert(o4[0] == outcomes[4]);
    assert(o5[0] == outcomes[5]);
    assert(o6[0] == outcomes[6]);
    assert(o7[0] == outcomes[7]);
    assert(o8[0] == outcomes[8]);
    let size = outcomes[1]->WindowCreated_0;
    let formats = outcomes[5]->FormatsListed_0;
    assert(all_succeed(outcomes, size, formats));
    lemma_success_is_owed(boot, outcomes, size, formats);
}

} // verus!
