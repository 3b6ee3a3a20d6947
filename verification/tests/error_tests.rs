use mermaid_it::errors::MermaidError;

#[test]
fn init_failure_is_the_bootstrap_kind() {
    match MermaidError::init_failure("engine bootstrap failed") {
        MermaidError::InitError { message } => assert_eq!(message, "engine bootstrap failed"),
        other => panic!("expected InitError, got {:?}", other),
    }
}

#[test]
fn io_failure_is_the_write_kind() {
    match MermaidError::io_failure("permission denied") {
        MermaidError::IoError { message } => assert_eq!(message, "permission denied"),
        other => panic!("expected IoError, got {:?}", other),
    }
}
