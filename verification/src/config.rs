//! The configuration builder: a pure derivation of the transform engine's
//! flat input configuration from the ambient build environment. No side
//! effects, no I/O.

use vstd::prelude::*;

use crate::types::BuildMode;
use crate::types::Environment;
use crate::types::EnvironmentFeature;
use crate::types::LogLevel;
use crate::types::OutputFormat;
use crate::types::SourceType;
use crate::types::TransformerError;

verus! {

/// One environment variable handed to the engine for static substitution.
#[derive(Clone, Debug, PartialEq, Eq)]
pub struct EnvVar {
    pub key: String,
    pub value: String,
}

/// Global build options handed down by the orchestrator.
#[derive(Clone, Debug, PartialEq, Eq)]
pub struct Options {
    pub mode: BuildMode,
    pub log_level: LogLevel,
    /// The build's environment-variable map, in a fixed order; absent when
    /// the orchestrator supplies none.
    pub env: Option<Vec<EnvVar>>,
    pub project_root: String,
}

/// The flat configuration object the external transform engine consumes.
#[derive(Clone, Debug, PartialEq, Eq)]
pub struct Config {
    pub code: Vec<u8>,
    pub env: Vec<EnvVar>,
    pub filename: String,
    pub insert_node_globals: bool,
    pub is_browser: bool,
    pub is_development: bool,
    pub is_esm_output: bool,
    pub is_library: bool,
    pub is_worker: bool,
    pub node_replacer: bool,
    pub project_root: String,
    pub replace_env: bool,
    pub scope_hoist: bool,
    pub source_maps: bool,
    pub source_type: SourceType,
    pub supports_module_workers: bool,
    pub trace_bailouts: bool,
}

/// The exact derivation of every configuration field from the inputs.
pub open spec fn config_derived(
    file_path: Seq<char>,
    code: Seq<u8>,
    env: Environment,
    options: Options,
    c: Config,
) -> bool {
    &&& c.code@ == code
    &&& c.filename@ == file_path
    &&& c.env@ == (match options.env {
        Some(vars) => vars@,
        None => Seq::<EnvVar>::empty(),
    })
    &&& c.insert_node_globals == (!env.context.is_node_spec() && env.source_type
        != SourceType::Script)
    &&& c.is_browser == env.context.is_browser_spec()
    &&& c.is_development == (options.mode == BuildMode::Development)
    &&& c.is_esm_output == (env.output_format == OutputFormat::EsModule)
    &&& c.is_library == env.is_library
    &&& c.is_worker == env.context.is_worker_spec()
    &&& c.node_replacer == env.context.is_node_spec()
    &&& c.project_root@ == options.project_root@
    &&& c.replace_env == !env.context.is_node_spec()
    &&& c.scope_hoist == (env.should_scope_hoist && env.source_type != SourceType::Script)
    &&& c.source_maps == (env.source_map is Some)
    &&& c.source_type == env.source_type
    &&& c.supports_module_workers == (env.should_scope_hoist && env.engines.supports_spec(
        EnvironmentFeature::WorkerModule,
    ))
    &&& c.trace_bailouts == (options.log_level == LogLevel::Verbose)
}

fn clone_bytes(src: &Vec<u8>) -> (r: Vec<u8>)
    ensures
        r@ == src@,
{
    let mut r: Vec<u8> = Vec::new();
    let mut i: usize = 0;
    while i < src.len()
        invariant
            i <= src@.len(),
            r@ == src@.take(i as int),
        decreases src@.len() - i,
    {
        r.push(src[i]);
        proof {
            assert(src@.take(i as int + 1) =~= src@.take(i as int).push(src@[i as int]));
        }
        i += 1;
    }
    proof {
        assert(src@.take(src@.len() as int) =~= src@);
    }
    r
}

fn clone_env_vars(src: &Vec<EnvVar>) -> (r: Vec<EnvVar>)
    ensures
        r@ == src@,
{
    let mut r: Vec<EnvVar> = Vec::new();
    let mut i: usize = 0;
    while i < src.len()
        invariant
            i <= src@.len(),
            r@ == src@.take(i as int),
        decreases src@.len() - i,
    {
        let var = EnvVar { key: src[i].key.clone(), value: src[i].value.clone() };
        proof {
            assert(var == src@[i as int]);
        }
        r.push(var);
        proof {
            assert(src@.take(i as int + 1) =~= src@.take(i as int).push(src@[i as int]));
        }
        i += 1;
    }
    proof {
        assert(src@.take(src@.len() as int) =~= src@);
    }
    r
}

/// Derives the engine configuration for one asset.
///
/// `file_path` carries the asset's path as text when the underlying OS path
/// was decodable, and `None` otherwise; an undecodable path fails with
/// [`TransformerError::InvalidPath`] before the engine is ever invoked.
pub fn build_config(
    file_path: &Option<String>,
    code: &Vec<u8>,
    env: &Environment,
    options: &Options,
) -> (r: Result<Config, TransformerError>)
    ensures
        match r {
            Ok(c) => file_path matches Some(p) && config_derived(p@, code@, *env, *options, c),
            Err(e) => e == TransformerError::InvalidPath && file_path is None,
        },
{
    match file_path {
        None => Err(TransformerError::InvalidPath),
        Some(path) => {
            let is_node = env.context.is_node();
            let config = Config {
                code: clone_bytes(code),
                env: match &options.env {
                    Some(vars) => clone_env_vars(vars),
                    None => Vec::new(),
                },
                filename: path.clone(),
                insert_node_globals: !is_node && env.source_type != SourceType::Script,
                is_browser: env.context.is_browser(),
                is_development: options.mode == BuildMode::Development,
                is_esm_output: env.output_format == OutputFormat::EsModule,
                is_library: env.is_library,
                is_worker: env.context.is_worker(),
                node_replacer: is_node,
                project_root: options.project_root.clone(),
                replace_env: !is_node,
                scope_hoist: env.should_scope_hoist && env.source_type != SourceType::Script,
                source_maps: env.source_map.is_some(),
                source_type: env.source_type,
                supports_module_workers: env.should_scope_hoist && env.engines.supports(
                    EnvironmentFeature::WorkerModule,
                ),
                trace_bailouts: options.log_level == LogLevel::Verbose,
            };
            Ok(config)
        },
    }
}

} // verus!
