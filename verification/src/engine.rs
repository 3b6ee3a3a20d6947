use vstd::prelude::*;

use vstd::string::StringExecFns;

use crate::errors::{ErrModel, MermaidError};
use crate::options::{ConfigModel, RenderConfig};
use crate::script::{
    init_script, render_script, shim_script, wrap_library, INIT_LABEL, INIT_MIDDLE, INIT_PREFIX,
    INIT_SUFFIX, LIBRARY_LABEL, LIBRARY_PREFIX, LIBRARY_SUFFIX, RENDER_LABEL, RENDER_PREFIX,
    RENDER_SUFFIX, SETUP_LABEL, SHIM_SCRIPT,
};
use crate::svgout::{rewrite_svg_dimensions, spec_rewrite};
use crate::text::spec_escape;

verus! {

/// Context put in front of a script failure while the shim runs.
pub const SETUP_CONTEXT: &'static str = "Failed to setup Mermaid environment";

/// Context put in front of a script failure while the library loads.
pub const LIBRARY_CONTEXT: &'static str = "Failed to load Mermaid.js";

/// Context put in front of a script failure while the library is
/// initialized.
pub const INIT_CONTEXT: &'static str = "Failed to initialize Mermaid";

/// Context put in front of a script failure while the render call is
/// dispatched.
pub const RENDER_CONTEXT: &'static str = "Failed to execute render script";

/// Failure text when the driver hands an event the current phase
/// cannot take.
pub const PROTOCOL_MESSAGE: &'static str = "unexpected engine event";

/// Where one render call stands in its five-step sequence: shim
/// injection, library load, library initialization, render dispatch,
/// asynchronous settlement — then `Done` or `Failed`.
#[derive(Debug, Clone, Copy, PartialEq, Eq, Structural)]
pub enum RenderPhase {
    Shim,
    Library,
    Init,
    Render,
    Resolve,
    Done,
    Failed,
}

/// What the script-engine host is asked to do next.
///
/// `RunScript` executes isolated top-level script text under a
/// diagnostic tag; `AwaitValue` drives the engine's task queue until
/// the pending value of the last script settles; `Finish` and `Fail`
/// end the render call.
#[derive(Debug)]
pub enum EngineAction {
    RunScript { label: String, source: String },
    AwaitValue,
    Finish { svg: String },
    Fail { error: MermaidError },
}

/// The mathematical model of an engine action.
pub enum ActionModel {
    RunScript { label: Seq<char>, source: Seq<char> },
    AwaitValue,
    Finish { svg: Seq<char> },
    Fail { error: ErrModel },
}

impl View for EngineAction {
    type V = ActionModel;

    open spec fn view(&self) -> ActionModel {
        match self {
            EngineAction::RunScript { label, source } => ActionModel::RunScript {
                label: label@,
                source: source@,
            },
            EngineAction::AwaitValue => ActionModel::AwaitValue,
            EngineAction::Finish { svg } => ActionModel::Finish { svg: svg@ },
            EngineAction::Fail { error } => ActionModel::Fail { error: error@ },
        }
    }
}

/// What the script-engine host reports back: a script ran to
/// completion, the awaited value settled to text, or script execution
/// failed with a message.
#[derive(Debug)]
pub enum EngineEvent {
    Ran,
    Settled { text: String },
    ScriptError { message: String },
}

/// The mathematical model of an engine event.
pub enum EventModel {
    Ran,
    Settled { text: Seq<char> },
    ScriptError { message: Seq<char> },
}

impl View for EngineEvent {
    type V = EventModel;

    open spec fn view(&self) -> EventModel {
        match self {
            EngineEvent::Ran => EventModel::Ran,
            EngineEvent::Settled { text } => EventModel::Settled { text: text@ },
            EngineEvent::ScriptError { message } => EventModel::ScriptError { message: message@ },
        }
    }
}

/// One render call on one session, as a state machine: the driver
/// asks for the next `action`, performs it against the script engine,
/// and hands the outcome back through `step`. The decisions — which
/// script runs at which phase, how failures are worded, and how the
/// settled vector markup is rewritten — all stand here.
#[derive(Debug)]
pub struct RenderJob {
    pub phase: RenderPhase,
    pub diagram: String,
    pub config: RenderConfig,
    pub library: String,
    pub output: Option<String>,
    pub failure: Option<String>,
}

/// The mathematical model of a render call in progress.
pub struct JobModel {
    pub phase: RenderPhase,
    pub diagram: Seq<char>,
    pub config: ConfigModel,
    pub library: Seq<char>,
    pub output: Option<Seq<char>>,
    pub failure: Option<Seq<char>>,
}

impl View for RenderJob {
    type V = JobModel;

    open spec fn view(&self) -> JobModel {
        JobModel {
            phase: self.phase,
            diagram: self.diagram@,
            config: self.config@,
            library: self.library@,
            output: if self.output is Some {
                Some(self.output->0@)
            } else {
                None
            },
            failure: if self.failure is Some {
                Some(self.failure->0@)
            } else {
                None
            },
        }
    }
}

impl JobModel {
    /// A finished job carries its vector output; a failed one its
    /// failure text.
    pub open spec fn wf(self) -> bool {
        &&& (self.phase is Done ==> self.output is Some)
        &&& (self.phase is Failed ==> self.failure is Some)
    }
}

/// The context put in front of a script failure in each phase; the
/// settlement phase keeps the failure text as the engine reported it,
/// since the render script already words its own failures.
pub open spec fn phase_context(phase: RenderPhase) -> Option<Seq<char>> {
    match phase {
        RenderPhase::Shim => Some(SETUP_CONTEXT@),
        RenderPhase::Library => Some(LIBRARY_CONTEXT@),
        RenderPhase::Init => Some(INIT_CONTEXT@),
        RenderPhase::Render => Some(RENDER_CONTEXT@),
        RenderPhase::Resolve => None,
        RenderPhase::Done => None,
        RenderPhase::Failed => None,
    }
}

/// The failure text recorded when a script fails in `phase` with
/// `message`.
pub open spec fn failure_text(phase: RenderPhase, message: Seq<char>) -> Seq<char> {
    match phase_context(phase) {
        Some(context) => context + ": "@ + message,
        None => message,
    }
}

/// What the driver is asked to do in each phase of a render call.
pub open spec fn spec_action(m: JobModel) -> ActionModel {
    match m.phase {
        RenderPhase::Shim => ActionModel::RunScript { label: SETUP_LABEL@, source: SHIM_SCRIPT@ },
        RenderPhase::Library => ActionModel::RunScript {
            label: LIBRARY_LABEL@,
            source: LIBRARY_PREFIX@ + m.library + LIBRARY_SUFFIX@,
        },
        RenderPhase::Init => ActionModel::RunScript {
            label: INIT_LABEL@,
            source: INIT_PREFIX@ + m.config.theme + INIT_MIDDLE@ + m.config.background
                + INIT_SUFFIX@,
        },
        RenderPhase::Render => ActionModel::RunScript {
            label: RENDER_LABEL@,
            source: RENDER_PREFIX@ + spec_escape(m.diagram) + RENDER_SUFFIX@,
        },
        RenderPhase::Resolve => ActionModel::AwaitValue,
        RenderPhase::Done => ActionModel::Finish { svg: m.output->0 },
        RenderPhase::Failed => ActionModel::Fail {
            error: ErrModel::Render { message: m.failure->0 },
        },
    }
}

/// The transition a render call takes on one engine event. Terminal
/// phases take no further events; a script failure ends the call with
/// the phase's context in front of the message; the settled text is
/// rewritten to carry the explicit requested dimensions.
pub open spec fn spec_step(m: JobModel, e: EventModel) -> JobModel {
    if m.phase is Done || m.phase is Failed {
        m
    } else {
        match e {
            EventModel::Ran => match m.phase {
                RenderPhase::Shim => JobModel { phase: RenderPhase::Library, ..m },
                RenderPhase::Library => JobModel { phase: RenderPhase::Init, ..m },
                RenderPhase::Init => JobModel { phase: RenderPhase::Render, ..m },
                RenderPhase::Render => JobModel { phase: RenderPhase::Resolve, ..m },
                _ => JobModel {
                    phase: RenderPhase::Failed,
                    failure: Some(PROTOCOL_MESSAGE@),
                    ..m
                },
            },
            EventModel::Settled { text } => match m.phase {
                RenderPhase::Resolve => JobModel {
                    phase: RenderPhase::Done,
                    output: Some(spec_rewrite(text, m.config.width, m.config.height)),
                    ..m
                },
                _ => JobModel {
                    phase: RenderPhase::Failed,
                    failure: Some(PROTOCOL_MESSAGE@),
                    ..m
                },
            },
            EventModel::ScriptError { message } => JobModel {
                phase: RenderPhase::Failed,
                failure: Some(failure_text(m.phase, message)),
                ..m
            },
        }
    }
}

/// Where a render call stands after taking a whole sequence of engine
/// events, first to last.
pub open spec fn spec_run(m: JobModel, events: Seq<EventModel>) -> JobModel
    decreases events.len(),
{
    if events.len() == 0 {
        m
    } else {
        spec_run(spec_step(m, events[0]), events.drop_first())
    }
}

/// Transitions keep a job well formed.
pub proof fn lemma_step_preserves_wf(m: JobModel, e: EventModel)
    requires
        m.wf(),
    ensures
        spec_step(m, e).wf(),
{
}

/// `context`, a separating colon, and `message`.
fn contextualize(context: &str, message: &str) -> (r: String)
    ensures
        r@ == context@ + ": "@ + message@,
{
    let mut s = context.to_owned();
    s.append(": ");
    s.append(message);
    s
}

impl RenderJob {
    /// A fresh render call over the given diagram source,
    /// configuration and diagram-library text, standing at the shim
    /// phase.
    pub fn new(diagram: String, config: RenderConfig, library: String) -> (r: RenderJob)
        ensures
            r@ == (JobModel {
                phase: RenderPhase::Shim,
                diagram: diagram@,
                config: config@,
                library: library@,
                output: None,
                failure: None,
            }),
            r@.wf(),
    {
        RenderJob {
            phase: RenderPhase::Shim,
            diagram,
            config,
            library,
            output: None,
            failure: None,
        }
    }

    /// What the driver must do next for this job.
    pub fn action(&self) -> (a: EngineAction)
        requires
            self@.wf(),
        ensures
            a@ == spec_action(self@),
    {
        match self.phase {
            RenderPhase::Shim => EngineAction::RunScript {
                label: SETUP_LABEL.to_owned(),
                source: shim_script(),
            },
            RenderPhase::Library => EngineAction::RunScript {
                label: LIBRARY_LABEL.to_owned(),
                source: wrap_library(self.library.as_str()),
            },
            RenderPhase::Init => EngineAction::RunScript {
                label: INIT_LABEL.to_owned(),
                source: init_script(self.config.theme.as_str(), self.config.background.as_str()),
            },
            RenderPhase::Render => EngineAction::RunScript {
                label: RENDER_LABEL.to_owned(),
                source: render_script(self.diagram.as_str()),
            },
            RenderPhase::Resolve => EngineAction::AwaitValue,
            RenderPhase::Done => match &self.output {
                Some(svg) => EngineAction::Finish { svg: svg.clone() },
                None => {
                    proof {
                        assert(false);
                    }
                    EngineAction::AwaitValue
                },
            },
            RenderPhase::Failed => match &self.failure {
                Some(message) => EngineAction::Fail {
                    error: MermaidError::RenderError { message: message.clone() },
                },
                None => {
                    proof {
                        assert(false);
                    }
                    EngineAction::AwaitValue
                },
            },
        }
    }

    /// Takes one engine event and moves the job to its next phase.
    pub fn step(&mut self, event: EngineEvent)
        ensures
            final(self)@ == spec_step(old(self)@, event@),
    {
        if self.phase == RenderPhase::Done || self.phase == RenderPhase::Failed {
            return ;
        }
        match event {
            EngineEvent::Ran => {
                match self.phase {
                    RenderPhase::Shim => {
                        self.phase = RenderPhase::Library;
                    },
                    RenderPhase::Library => {
                        self.phase = RenderPhase::Init;
                    },
                    RenderPhase::Init => {
                        self.phase = RenderPhase::Render;
                    },
                    RenderPhase::Render => {
                        self.phase = RenderPhase::Resolve;
                    },
                    _ => {
                        self.phase = RenderPhase::Failed;
                        self.failure = Some(PROTOCOL_MESSAGE.to_owned());
                    },
                }
            },
            EngineEvent::Settled { text } => {
                if self.phase == RenderPhase::Resolve {
                    let out = rewrite_svg_dimensions(
                        text.as_str(),
                        self.config.width,
                        self.config.height,
                    );
                    self.phase = RenderPhase::Done;
                    self.output = Some(out);
                } else {
                    self.phase = RenderPhase::Failed;
                    self.failure = Some(PROTOCOL_MESSAGE.to_owned());
                }
            },
            EngineEvent::ScriptError { message } => {
                let text = match self.phase {
                    RenderPhase::Shim => contextualize(SETUP_CONTEXT, message.as_str()),
                    RenderPhase::Library => contextualize(LIBRARY_CONTEXT, message.as_str()),
                    RenderPhase::Init => contextualize(INIT_CONTEXT, message.as_str()),
                    RenderPhase::Render => contextualize(RENDER_CONTEXT, message.as_str()),
                    _ => message,
                };
                self.phase = RenderPhase::Failed;
                self.failure = Some(text);
            },
        }
    }
}

} // verus!
