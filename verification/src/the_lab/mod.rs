//! Inference subsystem: GGUF model metadata, the TurboQuant memory planner,
//! prompt formatting and the llama-server command line.

pub mod gguf;
pub mod gguf_header;
pub mod prompt;
pub mod server;
pub mod engine;
