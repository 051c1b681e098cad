//! Verified core of a binding to the OpenVINO GenAI runtime, with draft-model
//! (speculative) decoding.
//!
//! The native runtime is reached through a C interface that this crate does not
//! call itself. What the binding decides on its own is kept here and proved:
//! how native status codes become errors, how builders and generation configs
//! accumulate their settings, how key/value properties are laid out for the
//! native constructors, and how native outcomes (status codes, out-values,
//! null handles) become the values handed back to callers.
pub mod config;
pub mod error;
pub mod pipeline;
pub mod properties;
pub mod results;

pub use config::SpeculativeGenerationConfig;
pub use error::{InferenceError, LoadingError, SetupError};
pub use pipeline::{
    DraftPipelineArgs, LlmPipeline, PipelineArgs, SpeculativeLlmPipeline,
    SpeculativeLlmPipelineBuilder,
};
pub use results::{DecodedResults, SdModelMetrics, SdPerfMetrics, SpeculativeDecodedResults};
