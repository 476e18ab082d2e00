//! Per-file conversion layer of a bundler's asset pipeline.
//!
//! Given one source file and the structured output of an external JS/TS
//! transform engine (rewritten code, dependency and symbol descriptors,
//! diagnostics), this crate derives the bundler's canonical contribution for
//! that file to the module graph: a normalized [`types::Asset`] plus an
//! ordered list of [`types::Dependency`] records.
//!
//! The engine itself is an external collaborator and is represented only by
//! its interface, the plain data of [`engine`]: callers build the engine's
//! configuration with [`config::build_config`], run the engine however they
//! host it, and hand its output to [`conversion::convert_result`].

use vstd::prelude::*;

pub mod config;
pub mod conversion;
pub mod engine;
pub mod identity;
pub mod text;
pub mod types;

verus! {

/// Transformer plugin for JS/TS assets.
///
/// The plugin holds no state: every transform is an independent, pure
/// derivation from its inputs, so it is safe to run one conversion per source
/// file concurrently across many workers.
#[derive(Debug)]
pub struct ParcelJsTransformerPlugin {}

impl ParcelJsTransformerPlugin {
    pub fn new() -> (r: Self) {
        ParcelJsTransformerPlugin {}
    }
}

} // verus!
