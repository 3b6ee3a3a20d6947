use vstd::prelude::*;

use crate::engine::{EventModel, JobModel, RenderJob, RenderPhase, spec_run};
use crate::options::{ConfigModel, RenderConfig};

verus! {

/// One long-lived render session.
///
/// A session owns the effective diagram-library choice: the
/// process-wide default text it was created with, and an optional
/// session-local override that always takes precedence once set. The
/// script-engine instance itself lives with the driver; every render
/// call on the session is one `RenderJob` run against it, serialized
/// by the driver.
#[derive(Debug)]
pub struct MermaidIt {
    pub default_mermaid: String,
    pub custom_mermaid: Option<String>,
}

/// The mathematical model of a session.
pub struct SessionModel {
    pub default_mermaid: Seq<char>,
    pub custom_mermaid: Option<Seq<char>>,
}

impl View for MermaidIt {
    type V = SessionModel;

    open spec fn view(&self) -> SessionModel {
        SessionModel {
            default_mermaid: self.default_mermaid@,
            custom_mermaid: if self.custom_mermaid is Some {
                Some(self.custom_mermaid->0@)
            } else {
                None
            },
        }
    }
}

impl SessionModel {
    /// The diagram-library text this session's renders use: the
    /// override if one is set, else the default.
    pub open spec fn effective_library(self) -> Seq<char> {
        match self.custom_mermaid {
            Some(js) => js,
            None => self.default_mermaid,
        }
    }
}

/// The fresh render job a session starts: at the shim phase, over the
/// given diagram and configuration, carrying the given library text.
pub open spec fn spec_begin(library: Seq<char>, diagram: Seq<char>, config: ConfigModel) -> JobModel {
    JobModel {
        phase: RenderPhase::Shim,
        diagram,
        config,
        library,
        output: None,
        failure: None,
    }
}

impl MermaidIt {
    /// A fresh session over the given default diagram-library text,
    /// with no override set.
    pub fn new(default_mermaid: String) -> (r: MermaidIt)
        ensures
            r@ == (SessionModel { default_mermaid: default_mermaid@, custom_mermaid: None }),
    {
        MermaidIt { default_mermaid, custom_mermaid: None }
    }

    /// Replaces the effective diagram library for this session; the
    /// override takes effect with the next render call and stays until
    /// changed.
    pub fn set_custom_mermaid(&mut self, js_content: String)
        ensures
            final(self)@ == (SessionModel {
                default_mermaid: old(self)@.default_mermaid,
                custom_mermaid: Some(js_content@),
            }),
            final(self)@.effective_library() == js_content@,
    {
        self.custom_mermaid = Some(js_content);
    }

    /// Starts one render call over this session's effective library.
    pub fn begin_render(&self, diagram: &str, config: RenderConfig) -> (r: RenderJob)
        ensures
            r@ == spec_begin(self@.effective_library(), diagram@, config@),
            r@.wf(),
    {
        let library = match &self.custom_mermaid {
            Some(js) => js.clone(),
            None => self.default_mermaid.clone(),
        };
        RenderJob::new(diagram.to_owned(), config, library)
    }
}

/// Rendering the vector format is deterministic on this side of the
/// engine: two sessions whose effective libraries agree start equal
/// render jobs for the same diagram and configuration, and a job fed
/// one sequence of engine events ends in one place — so re-rendering
/// identical inputs differs only where the engine's own answers do.
pub proof fn lemma_render_deterministic(
    a: SessionModel,
    b: SessionModel,
    diagram: Seq<char>,
    config: ConfigModel,
    events: Seq<EventModel>,
)
    requires
        a.effective_library() == b.effective_library(),
    ensures
        spec_run(spec_begin(a.effective_library(), diagram, config), events) == spec_run(
            spec_begin(b.effective_library(), diagram, config),
            events,
        ),
{
}

/// Setting a custom library override on one session changes that
/// session's effective library alone: a render begun on any other
/// session still carries that other session's own effective library,
/// which the override of the first cannot reach.
pub proof fn lemma_session_isolation(
    a: SessionModel,
    js: Seq<char>,
    b: SessionModel,
    diagram: Seq<char>,
    config: ConfigModel,
)
    ensures
        (SessionModel { custom_mermaid: Some(js), ..a }).effective_library() == js,
        spec_begin(b.effective_library(), diagram, config).library == b.effective_library(),
{
}

} // verus!
