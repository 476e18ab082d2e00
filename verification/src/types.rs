//! The canonical data model: assets, dependencies, symbols, and the build
//! environment they are derived under.

use vstd::prelude::*;

use crate::identity;

verus! {

/// Classification of a source file by language, derived from its file
/// extension through a closed mapping; extensions outside the mapping fall
/// back to [`FileType::Other`], a valid, inert asset type, never an error.
#[derive(Clone, Copy, Debug, PartialEq, Eq, Structural)]
pub enum FileType {
    Js,
    Jsx,
    Ts,
    Tsx,
    Css,
    Html,
    Json,
    Other,
}

impl FileType {
    /// The closed extension mapping. The empty extension (a path with no
    /// extension at all) maps to the generic default.
    pub open spec fn from_extension_spec(ext: Seq<char>) -> FileType {
        if ext == "js"@ || ext == "mjs"@ || ext == "cjs"@ {
            FileType::Js
        } else if ext == "jsx"@ {
            FileType::Jsx
        } else if ext == "ts"@ || ext == "mts"@ || ext == "cts"@ {
            FileType::Ts
        } else if ext == "tsx"@ {
            FileType::Tsx
        } else if ext == "css"@ {
            FileType::Css
        } else if ext == "html"@ || ext == "htm"@ {
            FileType::Html
        } else if ext == "json"@ {
            FileType::Json
        } else {
            FileType::Other
        }
    }

    pub fn from_extension(ext: &str) -> (r: FileType)
        ensures
            r == FileType::from_extension_spec(ext@),
    {
        if crate::text::str_eq_chars(ext, "js") || crate::text::str_eq_chars(ext, "mjs")
            || crate::text::str_eq_chars(ext, "cjs") {
            FileType::Js
        } else if crate::text::str_eq_chars(ext, "jsx") {
            FileType::Jsx
        } else if crate::text::str_eq_chars(ext, "ts") || crate::text::str_eq_chars(ext, "mts")
            || crate::text::str_eq_chars(ext, "cts") {
            FileType::Ts
        } else if crate::text::str_eq_chars(ext, "tsx") {
            FileType::Tsx
        } else if crate::text::str_eq_chars(ext, "css") {
            FileType::Css
        } else if crate::text::str_eq_chars(ext, "html") || crate::text::str_eq_chars(ext, "htm") {
            FileType::Html
        } else if crate::text::str_eq_chars(ext, "json") {
            FileType::Json
        } else {
            FileType::Other
        }
    }
}

/// Whether a source file executes as an ES module or as a classic script.
#[derive(Clone, Copy, Debug, PartialEq, Eq, Structural)]
pub enum SourceType {
    Module,
    Script,
}

/// The module format the bundle is emitted in.
#[derive(Clone, Copy, Debug, PartialEq, Eq, Structural)]
pub enum OutputFormat {
    EsModule,
    CommonJs,
    Global,
}

/// Whether this is a development or a production build.
#[derive(Clone, Copy, Debug, PartialEq, Eq, Structural)]
pub enum BuildMode {
    Development,
    Production,
    Testing,
}

/// Verbosity of build reporting.
#[derive(Clone, Copy, Debug, PartialEq, Eq, Structural)]
pub enum LogLevel {
    Silent,
    Error,
    Warn,
    Info,
    Verbose,
}

/// The execution context a build targets.
#[derive(Clone, Copy, Debug, PartialEq, Eq, Structural)]
pub enum EnvironmentContext {
    Browser,
    WebWorker,
    ServiceWorker,
    Worklet,
    Node,
    ElectronMain,
    ElectronRenderer,
}

impl EnvironmentContext {
    pub open spec fn is_node_spec(self) -> bool {
        self == EnvironmentContext::Node || self == EnvironmentContext::ElectronMain || self
            == EnvironmentContext::ElectronRenderer
    }

    pub open spec fn is_browser_spec(self) -> bool {
        self == EnvironmentContext::Browser || self == EnvironmentContext::WebWorker || self
            == EnvironmentContext::ServiceWorker || self == EnvironmentContext::Worklet || self
            == EnvironmentContext::ElectronRenderer
    }

    pub open spec fn is_worker_spec(self) -> bool {
        self == EnvironmentContext::WebWorker || self == EnvironmentContext::ServiceWorker
    }

    pub fn is_node(&self) -> (r: bool)
        ensures
            r == self.is_node_spec(),
    {
        match self {
            EnvironmentContext::Node => true,
            EnvironmentContext::ElectronMain => true,
            EnvironmentContext::ElectronRenderer => true,
            _ => false,
        }
    }

    pub fn is_browser(&self) -> (r: bool)
        ensures
            r == self.is_browser_spec(),
    {
        match self {
            EnvironmentContext::Browser => true,
            EnvironmentContext::WebWorker => true,
            EnvironmentContext::ServiceWorker => true,
            EnvironmentContext::Worklet => true,
            EnvironmentContext::ElectronRenderer => true,
            _ => false,
        }
    }

    pub fn is_worker(&self) -> (r: bool)
        ensures
            r == self.is_worker_spec(),
    {
        match self {
            EnvironmentContext::WebWorker => true,
            EnvironmentContext::ServiceWorker => true,
            _ => false,
        }
    }
}

/// A capability the target engines may or may not support.
#[derive(Clone, Copy, Debug, PartialEq, Eq, Structural)]
pub enum EnvironmentFeature {
    WorkerModule,
    DynamicImport,
    EsModules,
}

/// The target engines' feature support matrix.
#[derive(Clone, Copy, Debug, PartialEq, Eq, Structural)]
pub struct Engines {
    pub worker_module: bool,
    pub dynamic_import: bool,
    pub esmodules: bool,
}

impl Engines {
    pub open spec fn supports_spec(self, feature: EnvironmentFeature) -> bool {
        match feature {
            EnvironmentFeature::WorkerModule => self.worker_module,
            EnvironmentFeature::DynamicImport => self.dynamic_import,
            EnvironmentFeature::EsModules => self.esmodules,
        }
    }

    pub fn supports(&self, feature: EnvironmentFeature) -> (r: bool)
        ensures
            r == self.supports_spec(feature),
    {
        match feature {
            EnvironmentFeature::WorkerModule => self.worker_module,
            EnvironmentFeature::DynamicImport => self.dynamic_import,
            EnvironmentFeature::EsModules => self.esmodules,
        }
    }
}

/// How a requested source map should be emitted. Only the presence of the
/// request matters to this layer; the map content itself is out of scope.
#[derive(Clone, Copy, Debug, PartialEq, Eq, Structural)]
pub struct SourceMapOptions {
    pub inline: bool,
    pub inline_sources: bool,
}

/// The build-environment descriptor an asset is transformed under.
#[derive(Clone, Copy, Debug, PartialEq, Eq)]
pub struct Environment {
    pub context: EnvironmentContext,
    pub source_type: SourceType,
    pub output_format: OutputFormat,
    pub is_library: bool,
    pub should_scope_hoist: bool,
    pub source_map: Option<SourceMapOptions>,
    pub engines: Engines,
}

/// A position in the original source text, 1-based in both line and column.
#[derive(Clone, Copy, Debug, PartialEq, Eq, Structural)]
pub struct Location {
    pub line: u32,
    pub column: u32,
}

/// A span in the original (pre-transform) source text, used only for
/// diagnostics and tooling, never for re-deriving offsets into rewritten
/// code.
#[derive(Clone, Debug, PartialEq, Eq)]
pub struct SourceLocation {
    pub file_path: String,
    pub start: Location,
    pub end: Location,
}

/// The name a symbol is visible under to importers.
///
/// A namespace (re-export-all or require-all) surface is a distinct variant,
/// not the literal string `*`, so an authored identifier that happens to be
/// `*` can never be confused with the reserved sentinel.
#[derive(Clone, Debug, PartialEq, Eq)]
pub enum ExportedName {
    Name(String),
    Namespace,
}

/// A named binding crossing a module boundary. Owned by exactly one asset or
/// one dependency; never shared or mutated after construction.
#[derive(Clone, Debug, PartialEq, Eq)]
pub struct Symbol {
    /// The (possibly mangled) name used inside the rewritten code.
    pub local: String,
    /// The name visible to importers, or the namespace sentinel.
    pub exported: ExportedName,
    pub loc: Option<SourceLocation>,
}

/// How a module reference was syntactically expressed; downstream resolution
/// rules key off this classification.
#[derive(Clone, Copy, Debug, PartialEq, Eq, Structural)]
pub enum SpecifierType {
    Esm,
    CommonJS,
    Url,
    Custom,
}

/// A directed reference from one asset to another module, discovered during
/// transform.
#[derive(Clone, Debug, PartialEq, Eq)]
pub struct Dependency {
    /// The module reference string as the author wrote it.
    pub specifier: String,
    pub specifier_type: SpecifierType,
    /// Secondary classification refining `specifier_type`, e.g. `Require` or
    /// `DynamicImport`.
    pub kind: String,
    /// The stable token substituted into the rewritten code in place of the
    /// literal specifier, when the engine rewrote the call site.
    pub placeholder: Option<String>,
    /// Hex form of the declaring asset's identifier.
    pub source_asset_id: Option<String>,
    pub source_path: Option<String>,
    pub loc: Option<SourceLocation>,
    /// What is imported from the target; may contain a namespace symbol
    /// meaning the entire module surface.
    pub symbols: Vec<Symbol>,
}

/// One source file's normalized contribution to the module graph.
#[derive(Clone, Debug, PartialEq, Eq)]
pub struct Asset {
    pub file_path: String,
    /// The (possibly rewritten) source bytes after transform.
    pub code: Vec<u8>,
    pub asset_type: FileType,
    pub env: Environment,
    pub symbols: Vec<Symbol>,
    /// True whenever symbol analysis was performed, even when it found
    /// nothing; false only when the asset type is opaque to the engine.
    pub has_symbols: bool,
    /// Optional string override of identity, the hex form of the identifier
    /// derived from the original content.
    pub unique_key: Option<String>,
}

impl Asset {
    /// The asset's 64-bit identifier: a pure function of its path and code,
    /// stable across processes, platforms and runs.
    pub fn id(&self) -> (r: u64)
        ensures
            r == identity::asset_id_spec(self.file_path@, self.code@),
    {
        identity::asset_id(self.file_path.as_str(), &self.code)
    }
}

/// One structured error or warning descriptor returned by the engine. The
/// payload is opaque to this layer: it is carried through verbatim and never
/// parsed beyond checking that the diagnostics list is non-empty.
#[derive(Clone, Debug, PartialEq, Eq)]
pub struct Diagnostic {
    pub message: String,
}

/// The typed failures of a single-file conversion. All are terminal: none is
/// transient, so none is ever retried.
#[derive(Clone, Debug, PartialEq, Eq)]
pub enum TransformerError {
    /// The asset's file path is not representable as valid text; raised
    /// before the engine is ever invoked.
    InvalidPath,
    /// The engine reported diagnostics; carries the full list for display,
    /// and no partial asset or dependency output accompanies it.
    EngineDiagnostics(Vec<Diagnostic>),
    /// An engine descriptor was structurally malformed: an internal-invariant
    /// violation of the engine contract, not a user source error.
    ConversionError,
}

/// The finished conversion: one asset, its ordered dependency list, and the
/// files whose modification should trigger re-conversion.
#[derive(Clone, Debug, PartialEq, Eq)]
pub struct TransformResult {
    pub asset: Asset,
    pub dependencies: Vec<Dependency>,
    pub invalidate_on_file_change: Vec<String>,
}

} // verus!
