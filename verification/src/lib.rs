//! Verified core of the Cloudflare Workers Rust tooling: the post-processing
//! that `worker-build` applies to wasm-bindgen's output (export discovery,
//! the Worker shim, Workflow entrypoint wrappers, `package.json` and
//! the tool command lines), and the option objects, results and metadata of
//! the Artifacts and Workflows bindings with the JSON the runtime receives.
//!
//! I/O, the JavaScript runtime handles and the procedural macro live outside
//! this crate and call into it.

pub mod artifacts;
pub mod commands;
pub mod entrypoint;
pub mod error;
pub mod exports;
pub mod json;
pub mod laws;
pub mod package;
pub mod paths;
pub mod shim;
pub mod text;
pub mod workflows;
