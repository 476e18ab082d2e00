//! The external transform engine's interface, as plain data.
//!
//! The engine itself (a JS/TS parser and transformer) is an external
//! collaborator and out of scope: the host invokes it with a
//! [`crate::config::Config`] and hands its response back as an
//! [`EngineOutput`]. Everything this crate states about an engine response
//! holds for every value of this type.

use vstd::prelude::*;

use crate::types::Diagnostic;

verus! {

/// How the engine saw a module reference expressed at its call site.
#[derive(Clone, Copy, Debug, PartialEq, Eq, Structural)]
pub enum RawDependencyKind {
    Import,
    Export,
    DynamicImport,
    Require,
    WebWorker,
    ServiceWorker,
    Worklet,
    Url,
    File,
}

/// A span as the engine reports it: 1-based line and column positions in the
/// original (pre-rewrite) source text.
#[derive(Clone, Copy, Debug, PartialEq, Eq, Structural)]
pub struct RawSpan {
    pub start_line: u32,
    pub start_column: u32,
    pub end_line: u32,
    pub end_column: u32,
}

/// A symbol descriptor as the engine emits it. The engine's wire shape has
/// no tagged name: a namespace import or export is carried as the sentinel
/// string `*` in `exported`.
#[derive(Clone, Debug, PartialEq, Eq)]
pub struct RawSymbol {
    pub local: String,
    pub exported: String,
    pub loc: Option<RawSpan>,
}

/// A dependency descriptor as the engine emits it. The engine reports
/// descriptors in order of first textual occurrence of the reference in the
/// original source.
#[derive(Clone, Debug, PartialEq, Eq)]
pub struct RawDependency {
    /// The module reference string as the author wrote it.
    pub specifier: String,
    pub kind: RawDependencyKind,
    /// The generated token the engine substituted into the rewritten code in
    /// place of the literal specifier, when it rewrote the call site.
    pub placeholder: Option<String>,
    pub loc: Option<RawSpan>,
    /// What the reference imports from the target, sentinel encoding as in
    /// [`RawSymbol`].
    pub symbols: Vec<RawSymbol>,
}

/// Everything the engine returns for one source file.
#[derive(Clone, Debug, PartialEq, Eq)]
pub struct EngineOutput {
    /// The rewritten source bytes.
    pub code: Vec<u8>,
    pub dependencies: Vec<RawDependency>,
    /// The asset's own analyzed symbols: `None` when the engine did not
    /// analyze the asset at all, `Some` (possibly empty) when it did.
    pub symbols: Option<Vec<RawSymbol>>,
    /// Set when the engine saw the asset consumed as one opaque namespace
    /// object, e.g. through a wildcard require of the whole module.
    pub consumed_as_namespace: bool,
    /// Structured error reports; any entry at all aborts the conversion
    /// with no partial output.
    pub diagnostics: Vec<Diagnostic>,
    /// Auxiliary files the engine read while transforming; their later
    /// modification must trigger re-conversion.
    pub included_files: Vec<String>,
}

} // verus!
