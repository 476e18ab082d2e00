//! Result conversion: the core derivation that maps a raw engine response
//! into the canonical asset and dependency records, after gating on the
//! engine's diagnostics.

use vstd::prelude::*;
use vstd::string::StrSliceExecFns;
use vstd::string::StringExecFns;
use vstd::utf8::encode_utf8;

use crate::engine::EngineOutput;
use crate::engine::RawDependency;
use crate::engine::RawDependencyKind;
use crate::engine::RawSpan;
use crate::engine::RawSymbol;
use crate::identity;
use crate::types::Asset;
use crate::types::Dependency;
use crate::types::Environment;
use crate::types::ExportedName;
use crate::types::FileType;
use crate::types::Location;
use crate::types::SourceLocation;
use crate::types::SpecifierType;
use crate::types::Symbol;
use crate::types::TransformResult;
use crate::types::TransformerError;

verus! {

/// The asset-side inputs to result conversion: the asset's path as text,
/// its original (pre-transform) source bytes, and the environment it was
/// transformed under.
#[derive(Clone, Debug, PartialEq, Eq)]
pub struct ConversionInput {
    pub file_path: String,
    pub code: Vec<u8>,
    pub env: Environment,
}

/// The reserved namespace sentinel of the engine's wire shape.
pub open spec fn is_namespace_sentinel(s: Seq<char>) -> bool {
    s == "*"@
}

/// `token` occurs in `code` as the contiguous run of bytes starting at `i`.
pub open spec fn occurs_at(code: Seq<u8>, token: Seq<u8>, i: int) -> bool {
    0 <= i && i + token.len() <= code.len() && code.subrange(i, i + token.len()) == token
}

pub open spec fn occurrence_count_below(code: Seq<u8>, token: Seq<u8>, n: int) -> int
    decreases n,
{
    if n <= 0 {
        0
    } else {
        occurrence_count_below(code, token, n - 1) + (if occurs_at(code, token, n - 1) {
            1int
        } else {
            0int
        })
    }
}

/// How many positions of `code` start an occurrence of `token`.
pub open spec fn occurrence_count(code: Seq<u8>, token: Seq<u8>) -> int {
    occurrence_count_below(code, token, code.len() - token.len() + 1)
}

/// The placeholder of dependency descriptor `i`, if it has one, binds an
/// unambiguous site: the token is non-empty, occurs exactly once in the
/// rewritten code, and no earlier descriptor carries the same token.
pub open spec fn placeholder_ok_at(deps: Seq<RawDependency>, code: Seq<u8>, i: int) -> bool {
    match deps[i].placeholder {
        None => true,
        Some(t) => {
            &&& encode_utf8(t@).len() > 0
            &&& occurrence_count(code, encode_utf8(t@)) == 1
            &&& forall|j: int| #![trigger deps[j]]
                0 <= j < i ==> (deps[j].placeholder matches Some(u) ==> encode_utf8(u@)
                    != encode_utf8(t@))
        },
    }
}

/// Every placeholder in the descriptor list is well-formed with respect to
/// the rewritten code.
pub open spec fn placeholders_ok(deps: Seq<RawDependency>, code: Seq<u8>) -> bool {
    forall|i: int| 0 <= i < deps.len() ==> placeholder_ok_at(deps, code, i)
}

fn matches_at(code: &Vec<u8>, token: &Vec<u8>, i: usize) -> (r: bool)
    requires
        i + token@.len() <= code@.len(),
    ensures
        r == occurs_at(code@, token@, i as int),
{
    let code_len = code.len();
    let token_len = token.len();
    let mut j: usize = 0;
    while j < token_len
        invariant
            code_len == code@.len(),
            token_len == token@.len(),
            i + token_len <= code_len,
            j <= token_len,
            forall|k: int| 0 <= k < j ==> code@[i + k] == token@[k],
        decreases token_len - j,
    {
        if code[i + j] != token[j] {
            proof {
                assert(code@.subrange(i as int, i + token@.len())[j as int] == code@[i + j]);
            }
            return false;
        }
        j += 1;
    }
    proof {
        assert(code@.subrange(i as int, i + token@.len()) =~= token@);
    }
    true
}

fn count_token(code: &Vec<u8>, token: &Vec<u8>) -> (n: usize)
    requires
        token@.len() >= 1,
    ensures
        n as int == occurrence_count(code@, token@),
{
    if token.len() > code.len() {
        return 0;
    }
    let code_len = code.len();
    let token_len = token.len();
    let last = code_len - token_len;
    let mut n: usize = 0;
    let mut i: usize = 0;
    while i <= last
        invariant
            code_len == code@.len(),
            token_len == token@.len(),
            token_len >= 1,
            token_len <= code_len,
            last == code_len - token_len,
            i <= last + 1,
            n as int == occurrence_count_below(code@, token@, i as int),
            n <= i,
        decreases last + 1 - i,
    {
        if matches_at(code, token, i) {
            n += 1;
        }
        i += 1;
    }
    n
}

fn placeholder_ok_at_exec(deps: &Vec<RawDependency>, code: &Vec<u8>, i: usize) -> (r: bool)
    requires
        i < deps@.len(),
    ensures
        r == placeholder_ok_at(deps@, code@, i as int),
{
    match &deps[i].placeholder {
        None => true,
        Some(ph) => {
            let token = ph.as_str().as_bytes_vec();
            if token.len() == 0 {
                return false;
            }
            let count = count_token(code, &token);
            if count != 1 {
                return false;
            }
            let mut j: usize = 0;
            while j < i
                invariant
                    i < deps@.len(),
                    j <= i,
                    deps@[i as int].placeholder matches Some(p) && token@ == encode_utf8(p@),
                    forall|k: int| #![trigger deps@[k]]
                        0 <= k < j ==> (deps@[k].placeholder matches Some(u) ==> encode_utf8(u@)
                            != token@),
                decreases i - j,
            {
                match &deps[j].placeholder {
                    Some(u) => {
                        let other = u.as_str().as_bytes_vec();
                        if crate::text::bytes_eq(&other, &token) {
                            return false;
                        }
                    },
                    None => {},
                }
                j += 1;
            }
            true
        },
    }
}

fn check_placeholders(deps: &Vec<RawDependency>, code: &Vec<u8>) -> (r: bool)
    ensures
        r == placeholders_ok(deps@, code@),
{
    let mut i: usize = 0;
    while i < deps.len()
        invariant
            i <= deps@.len(),
            forall|k: int| 0 <= k < i ==> placeholder_ok_at(deps@, code@, k),
        decreases deps@.len() - i,
    {
        if !placeholder_ok_at_exec(deps, code, i) {
            proof {
                assert(!placeholders_ok(deps@, code@)) by {
                    if placeholders_ok(deps@, code@) {
                        assert(placeholder_ok_at(deps@, code@, i as int));
                    }
                }
            }
            return false;
        }
        i += 1;
    }
    true
}

/// The span translation: the engine's 1-based span, bound to the asset's
/// path in the original source.
pub open spec fn loc_converted(
    raw: Option<RawSpan>,
    path: Seq<char>,
    loc: Option<SourceLocation>,
) -> bool {
    match raw {
        None => loc is None,
        Some(span) => loc matches Some(l) && l.file_path@ == path && l.start.line
            == span.start_line && l.start.column == span.start_column && l.end.line
            == span.end_line && l.end.column == span.end_column,
    }
}

fn convert_loc(raw: &Option<RawSpan>, path: &String) -> (r: Option<SourceLocation>)
    ensures
        loc_converted(*raw, path@, r),
{
    match raw {
        None => None,
        Some(span) => Some(
            SourceLocation {
                file_path: path.clone(),
                start: Location { line: span.start_line, column: span.start_column },
                end: Location { line: span.end_line, column: span.end_column },
            },
        ),
    }
}

/// Symbol derivation: names and locations are preserved, and the engine's
/// sentinel string `*` — and only it — becomes the reserved namespace
/// variant, never an ordinary name.
pub open spec fn symbol_converted(raw: RawSymbol, path: Seq<char>, s: Symbol) -> bool {
    &&& s.local@ == raw.local@
    &&& (if is_namespace_sentinel(raw.exported@) {
        s.exported == ExportedName::Namespace
    } else {
        s.exported matches ExportedName::Name(n) && n@ == raw.exported@
    })
    &&& loc_converted(raw.loc, path, s.loc)
}

fn convert_symbol(raw: &RawSymbol, path: &String) -> (s: Symbol)
    ensures
        symbol_converted(*raw, path@, s),
{
    let exported = if crate::text::str_eq_chars(raw.exported.as_str(), "*") {
        ExportedName::Namespace
    } else {
        ExportedName::Name(raw.exported.clone())
    };
    Symbol { local: raw.local.clone(), exported, loc: convert_loc(&raw.loc, path) }
}

fn convert_symbols(raws: &Vec<RawSymbol>, path: &String) -> (v: Vec<Symbol>)
    ensures
        v@.len() == raws@.len(),
        forall|k: int| 0 <= k < raws@.len() ==> symbol_converted(raws@[k], path@, v@[k]),
{
    let mut v: Vec<Symbol> = Vec::new();
    let mut i: usize = 0;
    while i < raws.len()
        invariant
            i <= raws@.len(),
            v@.len() == i as int,
            forall|k: int| 0 <= k < i ==> symbol_converted(raws@[k], path@, v@[k]),
        decreases raws@.len() - i,
    {
        let s = convert_symbol(&raws[i], path);
        v.push(s);
        i += 1;
    }
    v
}

/// The closed mapping from the engine's syntactic reference kind to the
/// broad specifier classification downstream resolution keys off.
pub open spec fn specifier_type_of(kind: RawDependencyKind) -> SpecifierType {
    match kind {
        RawDependencyKind::Import => SpecifierType::Esm,
        RawDependencyKind::Export => SpecifierType::Esm,
        RawDependencyKind::DynamicImport => SpecifierType::Esm,
        RawDependencyKind::Require => SpecifierType::CommonJS,
        RawDependencyKind::WebWorker => SpecifierType::Url,
        RawDependencyKind::ServiceWorker => SpecifierType::Url,
        RawDependencyKind::Worklet => SpecifierType::Url,
        RawDependencyKind::Url => SpecifierType::Url,
        RawDependencyKind::File => SpecifierType::Url,
    }
}

/// The secondary classification tag: the engine kind's canonical name.
pub open spec fn kind_label(kind: RawDependencyKind) -> Seq<char> {
    match kind {
        RawDependencyKind::Import => "Import"@,
        RawDependencyKind::Export => "Export"@,
        RawDependencyKind::DynamicImport => "DynamicImport"@,
        RawDependencyKind::Require => "Require"@,
        RawDependencyKind::WebWorker => "WebWorker"@,
        RawDependencyKind::ServiceWorker => "ServiceWorker"@,
        RawDependencyKind::Worklet => "Worklet"@,
        RawDependencyKind::Url => "Url"@,
        RawDependencyKind::File => "File"@,
    }
}

fn specifier_type_exec(kind: RawDependencyKind) -> (r: SpecifierType)
    ensures
        r == specifier_type_of(kind),
{
    match kind {
        RawDependencyKind::Import => SpecifierType::Esm,
        RawDependencyKind::Export => SpecifierType::Esm,
        RawDependencyKind::DynamicImport => SpecifierType::Esm,
        RawDependencyKind::Require => SpecifierType::CommonJS,
        RawDependencyKind::WebWorker => SpecifierType::Url,
        RawDependencyKind::ServiceWorker => SpecifierType::Url,
        RawDependencyKind::Worklet => SpecifierType::Url,
        RawDependencyKind::Url => SpecifierType::Url,
        RawDependencyKind::File => SpecifierType::Url,
    }
}

fn kind_label_exec(kind: RawDependencyKind) -> (r: String)
    ensures
        r@ == kind_label(kind),
{
    match kind {
        RawDependencyKind::Import => "Import".to_owned(),
        RawDependencyKind::Export => "Export".to_owned(),
        RawDependencyKind::DynamicImport => "DynamicImport".to_owned(),
        RawDependencyKind::Require => "Require".to_owned(),
        RawDependencyKind::WebWorker => "WebWorker".to_owned(),
        RawDependencyKind::ServiceWorker => "ServiceWorker".to_owned(),
        RawDependencyKind::Worklet => "Worklet".to_owned(),
        RawDependencyKind::Url => "Url".to_owned(),
        RawDependencyKind::File => "File".to_owned(),
    }
}

/// Dependency derivation: the descriptor's reference data carried over
/// verbatim, classified by the closed kind table, and bound to the owning
/// asset's identity.
pub open spec fn dep_converted(
    raw: RawDependency,
    path: Seq<char>,
    id_hex: Seq<char>,
    d: Dependency,
) -> bool {
    &&& d.specifier@ == raw.specifier@
    &&& d.specifier_type == specifier_type_of(raw.kind)
    &&& d.kind@ == kind_label(raw.kind)
    &&& (match raw.placeholder {
        None => d.placeholder is None,
        Some(t) => d.placeholder matches Some(u) && u@ == t@,
    })
    &&& d.source_asset_id matches Some(s) && s@ == id_hex
    &&& d.source_path matches Some(p) && p@ == path
    &&& loc_converted(raw.loc, path, d.loc)
    &&& d.symbols@.len() == raw.symbols@.len()
    &&& forall|k: int| 0 <= k < raw.symbols@.len() ==> symbol_converted(raw.symbols@[k], path, d.symbols@[k])
}

fn clone_opt_string(s: &Option<String>) -> (r: Option<String>)
    ensures
        r == *s,
{
    match s {
        Some(x) => Some(x.clone()),
        None => None,
    }
}

fn convert_dependency(raw: &RawDependency, path: &String, id_hex: &String) -> (d: Dependency)
    ensures
        dep_converted(*raw, path@, id_hex@, d),
{
    Dependency {
        specifier: raw.specifier.clone(),
        specifier_type: specifier_type_exec(raw.kind),
        kind: kind_label_exec(raw.kind),
        placeholder: clone_opt_string(&raw.placeholder),
        source_asset_id: Some(id_hex.clone()),
        source_path: Some(path.clone()),
        loc: convert_loc(&raw.loc, path),
        symbols: convert_symbols(&raw.symbols, path),
    }
}

/// The synthesized namespace symbol: the module's export object, named
/// deterministically from the asset's identifier so it can never collide
/// with an author-chosen name.
pub open spec fn namespace_symbol_spec(id_hex: Seq<char>, s: Symbol) -> bool {
    &&& s.local@ == "$"@ + id_hex + "$exports"@
    &&& s.exported == ExportedName::Namespace
    &&& s.loc is None
}

/// Asset shaping: rewritten code adopted, path and environment preserved,
/// asset type classified from the extension, symbols derived from the
/// engine's analysis with the synthesized namespace symbol appended when
/// the engine signalled namespace consumption, and identity recorded in
/// `unique_key`.
pub open spec fn asset_converted(
    input: ConversionInput,
    output: EngineOutput,
    asset: Asset,
) -> bool {
    let id_hex = identity::hex16_chars(identity::asset_id_spec(input.file_path@, input.code@));
    &&& asset.file_path@ == input.file_path@
    &&& asset.code@ == output.code@
    &&& asset.asset_type == FileType::from_extension_spec(
        crate::text::extension_spec(input.file_path@),
    )
    &&& asset.env == input.env
    &&& asset.has_symbols == (output.symbols is Some)
    &&& asset.unique_key matches Some(k) && k@ == id_hex
    &&& (match output.symbols {
        None => asset.symbols@.len() == 0,
        Some(raws) => {
            &&& asset.symbols@.len() == raws@.len() + (if output.consumed_as_namespace {
                1int
            } else {
                0int
            })
            &&& (forall|k: int|
                0 <= k < raws@.len() ==> symbol_converted(
                    raws@[k],
                    input.file_path@,
                    asset.symbols@[k],
                ))
            &&& (output.consumed_as_namespace ==> namespace_symbol_spec(
                id_hex,
                asset.symbols@[raws@.len() as int],
            ))
        },
    })
}

/// The dependency list is index-aligned with the engine's descriptor list:
/// nothing is dropped, added or re-sorted.
pub open spec fn dependencies_converted(
    input: ConversionInput,
    output: EngineOutput,
    deps: Seq<Dependency>,
) -> bool {
    let id_hex = identity::hex16_chars(identity::asset_id_spec(input.file_path@, input.code@));
    &&& deps.len() == output.dependencies@.len()
    &&& forall|i: int|
        0 <= i < deps.len() ==> dep_converted(
            output.dependencies@[i],
            input.file_path@,
            id_hex,
            deps[i],
        )
}

/// The whole successful conversion.
pub open spec fn result_converted(
    input: ConversionInput,
    output: EngineOutput,
    res: TransformResult,
) -> bool {
    &&& asset_converted(input, output, res.asset)
    &&& dependencies_converted(input, output, res.dependencies@)
    &&& res.invalidate_on_file_change@ == output.included_files@
}

fn clone_string_vec(src: &Vec<String>) -> (r: Vec<String>)
    ensures
        r@ == src@,
{
    let mut r: Vec<String> = Vec::new();
    let mut i: usize = 0;
    while i < src.len()
        invariant
            i <= src@.len(),
            r@ == src@.take(i as int),
        decreases src@.len() - i,
    {
        r.push(src[i].clone());
        proof {
            assert(src@.take(i as int + 1) =~= src@.take(i as int).push(src@[i as int]));
        }
        i += 1;
    }
    proof {
        assert(src@.take(src@.len() as int) =~= src@);
    }
    r
}

/// Converts one raw engine response into the canonical transform result.
///
/// The diagnostics gate comes first: any diagnostic at all is a hard
/// failure carrying the full list, with no partial asset or dependency
/// output. A structurally malformed descriptor — a placeholder token that
/// is empty, absent from the rewritten code, occurring more than once, or
/// shared between two dependencies — is an internal-invariant violation
/// and fails as [`TransformerError::ConversionError`]; on every other
/// diagnostic-free input the conversion succeeds.
pub fn convert_result(input: &ConversionInput, output: EngineOutput) -> (r: Result<
    TransformResult,
    TransformerError,
>)
    ensures
        output.diagnostics@.len() > 0 ==> r == Err::<TransformResult, TransformerError>(
            TransformerError::EngineDiagnostics(output.diagnostics),
        ),
        output.diagnostics@.len() == 0 ==> match r {
            Ok(res) => placeholders_ok(output.dependencies@, output.code@) && result_converted(
                *input,
                output,
                res,
            ),
            Err(e) => e == TransformerError::ConversionError && !placeholders_ok(
                output.dependencies@,
                output.code@,
            ),
        },
{
    if output.diagnostics.len() > 0 {
        return Err(TransformerError::EngineDiagnostics(output.diagnostics));
    }
    if !check_placeholders(&output.dependencies, &output.code) {
        return Err(TransformerError::ConversionError);
    }
    let asset_id = identity::asset_id(input.file_path.as_str(), &input.code);
    let id_hex = identity::format_id(asset_id);

    let mut deps: Vec<Dependency> = Vec::new();
    let mut i: usize = 0;
    while i < output.dependencies.len()
        invariant
            i <= output.dependencies@.len(),
            deps@.len() == i as int,
            id_hex@ == identity::hex16_chars(
                identity::asset_id_spec(input.file_path@, input.code@),
            ),
            forall|k: int|
                0 <= k < i ==> dep_converted(
                    output.dependencies@[k],
                    input.file_path@,
                    id_hex@,
                    deps@[k],
                ),
        decreases output.dependencies@.len() - i,
    {
        let d = convert_dependency(&output.dependencies[i], &input.file_path, &id_hex);
        deps.push(d);
        i += 1;
    }

    let has_symbols = output.symbols.is_some();
    let symbols: Vec<Symbol> = match &output.symbols {
        None => Vec::new(),
        Some(raws) => {
            let mut symbols = convert_symbols(raws, &input.file_path);
            if output.consumed_as_namespace {
                let mut local = String::from_str("$");
                local.append(id_hex.as_str());
                local.append("$exports");
                symbols.push(Symbol { local, exported: ExportedName::Namespace, loc: None });
            }
            symbols
        },
    };

    let ext = crate::text::extension_of(input.file_path.as_str());
    let asset = Asset {
        file_path: input.file_path.clone(),
        code: output.code,
        asset_type: FileType::from_extension(ext.as_str()),
        env: input.env,
        symbols,
        has_symbols,
        unique_key: Some(id_hex),
    };
    Ok(
        TransformResult {
            asset,
            dependencies: deps,
            invalidate_on_file_change: output.included_files,
        },
    )
}

/// Placeholder bijection: in a finished conversion, a dependency that
/// carries a placeholder names a non-empty token that occurs exactly once
/// in the final rewritten code, and no other dependency of the same asset
/// carries the same token, so a later resolution stage can substitute each
/// site without ambiguity.
pub proof fn lemma_placeholder_bijection(
    input: ConversionInput,
    output: EngineOutput,
    res: TransformResult,
    i: int,
    token: String,
)
    requires
        placeholders_ok(output.dependencies@, output.code@),
        result_converted(input, output, res),
        0 <= i < res.dependencies@.len(),
        res.dependencies@[i].placeholder == Some(token),
    ensures
        encode_utf8(token@).len() > 0,
        occurrence_count(res.asset.code@, encode_utf8(token@)) == 1,
        forall|j: int| #![trigger res.dependencies@[j]]
            0 <= j < res.dependencies@.len() && j != i ==> (res.dependencies@[j].placeholder
                matches Some(u) ==> u@ != token@),
{
    assert(placeholder_ok_at(output.dependencies@, output.code@, i));
    assert forall|j: int| #![trigger res.dependencies@[j]]
        0 <= j < res.dependencies@.len() && j != i implies (res.dependencies@[j].placeholder
            matches Some(u) ==> u@ != token@) by {
        if res.dependencies@[j].placeholder matches Some(u) {
            assert(dep_converted(
                output.dependencies@[j],
                input.file_path@,
                identity::hex16_chars(identity::asset_id_spec(input.file_path@, input.code@)),
                res.dependencies@[j],
            ));
            if j < i {
                assert(placeholder_ok_at(output.dependencies@, output.code@, i));
            } else {
                assert(placeholder_ok_at(output.dependencies@, output.code@, j));
            }
        }
    }
}

/// Order preservation: the finished dependency list is index-aligned with
/// the engine's descriptor list, which the engine emits in order of first
/// textual occurrence of each reference in the original source; the
/// conversion never re-sorts it.
pub proof fn lemma_dependency_order(
    input: ConversionInput,
    output: EngineOutput,
    res: TransformResult,
    i: int,
)
    requires
        result_converted(input, output, res),
        0 <= i < res.dependencies@.len(),
    ensures
        res.dependencies@.len() == output.dependencies@.len(),
        res.dependencies@[i].specifier@ == output.dependencies@[i].specifier@,
        res.dependencies@[i].kind@ == kind_label(output.dependencies@[i].kind),
{
}

/// Wildcard propagation: a converted symbol surfaces the reserved namespace
/// variant exactly when the engine reported the sentinel, so an authored
/// name can never be confused with a namespace import or export.
pub proof fn lemma_wildcard_propagation(raw: RawSymbol, path: Seq<char>, s: Symbol)
    requires
        symbol_converted(raw, path, s),
    ensures
        (s.exported == ExportedName::Namespace) <==> is_namespace_sentinel(raw.exported@),
{
}

} // verus!
