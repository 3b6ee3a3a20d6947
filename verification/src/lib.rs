pub mod engine;
pub mod errors;
pub mod facade;
pub mod format;
pub mod options;
pub mod raster;
pub mod scale;
pub mod script;
pub mod session;
pub mod svgout;
pub mod text;

pub use engine::{EngineAction, EngineEvent, RenderJob, RenderPhase};
pub use errors::MermaidError;
pub use facade::{finish_render, select_format};
pub use format::OutputFormat;
pub use options::{RenderConfig, RenderOptions};
pub use scale::Scale;
pub use session::MermaidIt;
