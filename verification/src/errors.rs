use vstd::prelude::*;

verus! {

/// The failure kinds of the render pipeline.
///
/// `InitError` marks a session-bootstrap failure and is fatal to the
/// session. `RenderError` covers script execution, library-load, parse
/// and rasterization failures. `InvalidFormat` carries an unrecognized
/// output-format token and leaves the session untouched. `IoError`
/// marks a failed file write.
#[derive(Debug, Clone)]
pub enum MermaidError {
    InitError { message: String },
    RenderError { message: String },
    InvalidFormat { format: String },
    IoError { message: String },
}

/// The mathematical model of a failure: its kind and the text it
/// carries.
pub enum ErrModel {
    Init { message: Seq<char> },
    Render { message: Seq<char> },
    InvalidFormat { format: Seq<char> },
    Io { message: Seq<char> },
}

impl View for MermaidError {
    type V = ErrModel;

    open spec fn view(&self) -> ErrModel {
        match self {
            MermaidError::InitError { message } => ErrModel::Init { message: message@ },
            MermaidError::RenderError { message } => ErrModel::Render { message: message@ },
            MermaidError::InvalidFormat { format } => ErrModel::InvalidFormat { format: format@ },
            MermaidError::IoError { message } => ErrModel::Io { message: message@ },
        }
    }
}

impl MermaidError {
    /// The session-bootstrap failure with the given wording: creating
    /// the script engine, or running its first script, failed. Fatal
    /// to that session; the driver reports it when it cannot supply
    /// an engine.
    pub fn init_failure(message: &str) -> (r: MermaidError)
        ensures
            r@ == (ErrModel::Init { message: message@ }),
    {
        MermaidError::InitError { message: message.to_owned() }
    }

    /// The file-write failure with the given wording; the session is
    /// unaffected. The driver reports it when persisting rendered
    /// bytes fails.
    pub fn io_failure(message: &str) -> (r: MermaidError)
        ensures
            r@ == (ErrModel::Io { message: message@ }),
    {
        MermaidError::IoError { message: message.to_owned() }
    }

    /// A copy of this error, equal to it in kind and text.
    pub fn duplicate(&self) -> (r: MermaidError)
        ensures
            r@ == self@,
    {
        match self {
            MermaidError::InitError { message } => MermaidError::InitError {
                message: message.clone(),
            },
            MermaidError::RenderError { message } => MermaidError::RenderError {
                message: message.clone(),
            },
            MermaidError::InvalidFormat { format } => MermaidError::InvalidFormat {
                format: format.clone(),
            },
            MermaidError::IoError { message } => MermaidError::IoError {
                message: message.clone(),
            },
        }
    }
}

} // verus!
