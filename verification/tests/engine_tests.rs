use mermaid_it::engine::{EngineAction, EngineEvent, RenderJob};
use mermaid_it::errors::MermaidError;
use mermaid_it::options::RenderOptions;
use mermaid_it::session::MermaidIt;

const DIAGRAM: &str = "graph TD; A-->B;";

const STUB_LIBRARY: &str = "var mermaid = { initialize: function(c) {}, render: \
    async function(id, code) { return { svg: '<svg><g/></svg>' }; } };";

fn default_config() -> mermaid_it::options::RenderConfig {
    RenderOptions::default().to_config()
}

/// Drives a job through the four script phases and one settlement,
/// returning the final action.
fn drive(job: &mut RenderJob, settled: &str) -> EngineAction {
    for _ in 0..4 {
        match job.action() {
            EngineAction::RunScript { .. } => job.step(EngineEvent::Ran),
            other => panic!("expected a script to run, got {:?}", other),
        }
    }
    match job.action() {
        EngineAction::AwaitValue => job.step(EngineEvent::Settled { text: settled.to_string() }),
        other => panic!("expected the job to await settlement, got {:?}", other),
    }
    job.action()
}

#[test]
fn render_runs_the_five_step_sequence() {
    let session = MermaidIt::new(STUB_LIBRARY.to_string());
    let mut job = session.begin_render(DIAGRAM, default_config());

    let labels = ["[mermaid_setup]", "[mermaid_lib]", "[mermaid_init_config]", "[mermaid_render]"];
    for expected in labels {
        match job.action() {
            EngineAction::RunScript { label, .. } => assert_eq!(label, expected),
            other => panic!("expected a script to run, got {:?}", other),
        }
        job.step(EngineEvent::Ran);
    }
    assert!(matches!(job.action(), EngineAction::AwaitValue));
}

#[test]
fn vector_render_with_defaults_carries_explicit_dimensions() {
    let session = MermaidIt::new(STUB_LIBRARY.to_string());
    let mut job = session.begin_render(DIAGRAM, default_config());
    match drive(&mut job, "<svg><g/></svg>") {
        EngineAction::Finish { svg } => {
            assert!(svg.contains("width=\"800\""));
            assert!(svg.contains("height=\"600\""));
            assert!(svg.contains("viewBox=\"0 0 800 600\""));
            assert_eq!(svg, "<svg width=\"800\" height=\"600\" viewBox=\"0 0 800 600\"><g/></svg>");
        },
        other => panic!("expected the render to finish, got {:?}", other),
    }
}

#[test]
fn rendering_twice_in_fresh_sessions_is_byte_identical() {
    let mut outputs: Vec<String> = Vec::new();
    for _ in 0..2 {
        let session = MermaidIt::new(STUB_LIBRARY.to_string());
        let mut job = session.begin_render(DIAGRAM, default_config());
        match drive(&mut job, "<svg id=\"d\"><g/></svg>") {
            EngineAction::Finish { svg } => outputs.push(svg),
            other => panic!("expected the render to finish, got {:?}", other),
        }
    }
    assert_eq!(outputs[0], outputs[1]);
}

#[test]
fn render_scripts_embed_the_escaped_diagram() {
    let session = MermaidIt::new(STUB_LIBRARY.to_string());
    let mut job = session.begin_render("flow `a` ${b}", default_config());
    for _ in 0..3 {
        job.step(EngineEvent::Ran);
    }
    match job.action() {
        EngineAction::RunScript { label, source } => {
            assert_eq!(label, "[mermaid_render]");
            assert!(source.contains("flow \\`a\\` \\${b}"));
            assert!(!source.contains("flow `a`"));
        },
        other => panic!("expected the render script, got {:?}", other),
    }
}

#[test]
fn library_failures_carry_their_context() {
    let session = MermaidIt::new(STUB_LIBRARY.to_string());
    let mut job = session.begin_render(DIAGRAM, default_config());
    job.step(EngineEvent::Ran);
    job.step(EngineEvent::ScriptError { message: "ReferenceError: window".to_string() });
    match job.action() {
        EngineAction::Fail { error: MermaidError::RenderError { message } } => {
            assert_eq!(message, "Failed to load Mermaid.js: ReferenceError: window");
        },
        other => panic!("expected the render to fail, got {:?}", other),
    }
}

#[test]
fn settlement_failures_keep_the_reported_message() {
    let session = MermaidIt::new(STUB_LIBRARY.to_string());
    let mut job = session.begin_render(DIAGRAM, default_config());
    for _ in 0..4 {
        job.step(EngineEvent::Ran);
    }
    job.step(EngineEvent::ScriptError {
        message: "Failed to render diagram: Parse error".to_string(),
    });
    match job.action() {
        EngineAction::Fail { error: MermaidError::RenderError { message } } => {
            assert_eq!(message, "Failed to render diagram: Parse error");
        },
        other => panic!("expected the render to fail, got {:?}", other),
    }
}

#[test]
fn custom_library_overrides_the_default_for_that_session() {
    let mut session = MermaidIt::new(STUB_LIBRARY.to_string());
    session.set_custom_mermaid("var custom = 1;".to_string());
    let mut job = session.begin_render(DIAGRAM, default_config());
    job.step(EngineEvent::Ran);
    match job.action() {
        EngineAction::RunScript { source, .. } => {
            assert!(source.contains("var custom = 1;"));
            assert!(!source.contains("var mermaid"));
        },
        other => panic!("expected the library script, got {:?}", other),
    }
}

#[test]
fn custom_library_on_one_session_leaves_others_alone() {
    let mut a = MermaidIt::new(STUB_LIBRARY.to_string());
    let b = MermaidIt::new(STUB_LIBRARY.to_string());
    a.set_custom_mermaid("var custom = 1;".to_string());

    let mut job_b = b.begin_render(DIAGRAM, default_config());
    job_b.step(EngineEvent::Ran);
    match job_b.action() {
        EngineAction::RunScript { source, .. } => {
            assert!(source.contains("var mermaid"));
            assert!(!source.contains("var custom = 1;"));
        },
        other => panic!("expected the library script, got {:?}", other),
    }

    let out_b = match drive(&mut b.begin_render(DIAGRAM, default_config()), "<svg/>") {
        EngineAction::Finish { svg } => svg,
        other => panic!("expected the render to finish, got {:?}", other),
    };
    let fresh = MermaidIt::new(STUB_LIBRARY.to_string());
    let out_fresh = match drive(&mut fresh.begin_render(DIAGRAM, default_config()), "<svg/>") {
        EngineAction::Finish { svg } => svg,
        other => panic!("expected the render to finish, got {:?}", other),
    };
    assert_eq!(out_b, out_fresh);
}

#[test]
fn invalid_format_leaves_the_session_usable() {
    let session = MermaidIt::new(STUB_LIBRARY.to_string());
    match mermaid_it::facade::select_format("bmp") {
        Err(MermaidError::InvalidFormat { format }) => assert_eq!(format, "bmp"),
        other => panic!("expected InvalidFormat, got {:?}", other),
    }
    let mut job = session.begin_render(DIAGRAM, default_config());
    match drive(&mut job, "<svg><g/></svg>") {
        EngineAction::Finish { svg } => assert!(svg.contains("width=\"800\"")),
        other => panic!("expected the render to finish, got {:?}", other),
    }
}
