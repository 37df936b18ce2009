//! A validated, cancellable echo pipeline.
//!
//! The library holds the decisions of a cooperative echo operation: the
//! cancellation checkpoints around its one suspension point, the size and
//! content checks, and the construction of the outcome or of a classified
//! error. Hosts drive it through [`template::EchoPipeline`] and perform the
//! suspension themselves.

pub mod error;
pub mod llama;
pub mod template;

pub use crate::error::{TemplateError, TemplateResult, DEFAULT_MAX_SIZE, MAX_INPUT_SIZE};
pub use crate::llama::{detect_backend, ModelMetadata};
pub use crate::template::{
    echo, is_signalled, CancellationToken, EchoPhase, EchoPipeline, EchoResult, EchoStep,
    TemplateConfig,
};
