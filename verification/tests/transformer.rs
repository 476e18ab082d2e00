//! End-to-end conversion scenarios: a no-op asset, and an asset that
//! requires another module through CommonJS.

use parcel_plugin_transformer_js::conversion::convert_result;
use parcel_plugin_transformer_js::conversion::ConversionInput;
use parcel_plugin_transformer_js::engine::EngineOutput;
use parcel_plugin_transformer_js::engine::RawDependency;
use parcel_plugin_transformer_js::engine::RawDependencyKind;
use parcel_plugin_transformer_js::engine::RawSpan;
use parcel_plugin_transformer_js::engine::RawSymbol;
use parcel_plugin_transformer_js::identity::format_id;
use parcel_plugin_transformer_js::types::Asset;
use parcel_plugin_transformer_js::types::Dependency;
use parcel_plugin_transformer_js::types::Engines;
use parcel_plugin_transformer_js::types::Environment;
use parcel_plugin_transformer_js::types::EnvironmentContext;
use parcel_plugin_transformer_js::types::ExportedName;
use parcel_plugin_transformer_js::types::FileType;
use parcel_plugin_transformer_js::types::Location;
use parcel_plugin_transformer_js::types::OutputFormat;
use parcel_plugin_transformer_js::types::SourceLocation;
use parcel_plugin_transformer_js::types::SourceType;
use parcel_plugin_transformer_js::types::SpecifierType;
use parcel_plugin_transformer_js::types::Symbol;
use parcel_plugin_transformer_js::types::TransformResult;
use parcel_plugin_transformer_js::ParcelJsTransformerPlugin;

fn browser_env() -> Environment {
    Environment {
        context: EnvironmentContext::Browser,
        source_type: SourceType::Module,
        output_format: OutputFormat::Global,
        is_library: false,
        should_scope_hoist: false,
        source_map: None,
        engines: Engines { worker_module: false, dynamic_import: false, esmodules: false },
    }
}

fn engine_output(code: &str) -> EngineOutput {
    EngineOutput {
        code: code.as_bytes().to_vec(),
        dependencies: vec![],
        symbols: Some(vec![]),
        consumed_as_namespace: false,
        diagnostics: vec![],
        included_files: vec![],
    }
}

#[test]
fn test_asset_id_is_stable() {
    let asset_1 = Asset {
        file_path: String::from("mock_path"),
        code: b"function hello() {}".to_vec(),
        asset_type: FileType::Js,
        env: browser_env(),
        symbols: vec![],
        has_symbols: false,
        unique_key: None,
    };
    let asset_2 = Asset { env: browser_env(), ..asset_1.clone() };

    // This number should not change across runs / compilation.
    assert_eq!(asset_1.id(), 5523079321367510237);
    assert_eq!(asset_1.id(), asset_2.id());
}

#[test]
fn test_transformer_on_noop_asset() {
    let _plugin = ParcelJsTransformerPlugin::new();
    let input = ConversionInput {
        file_path: String::from("mock_path.js"),
        code: b"function hello() {}".to_vec(),
        env: browser_env(),
    };
    let asset_id = 5729324211406696054u64;
    assert_eq!(format_id(asset_id), "4f82a603d7f0ee76");

    // The engine inserts a trailing newline.
    let result = convert_result(&input, engine_output("function hello() {}\n")).unwrap();

    assert_eq!(
        result,
        TransformResult {
            asset: Asset {
                file_path: String::from("mock_path.js"),
                code: b"function hello() {}\n".to_vec(),
                asset_type: FileType::Js,
                env: browser_env(),
                symbols: vec![],
                has_symbols: true,
                unique_key: Some(String::from("4f82a603d7f0ee76")),
            },
            dependencies: vec![],
            invalidate_on_file_change: vec![],
        }
    );
}

#[test]
fn test_transformer_on_asset_that_requires_other() {
    let source = "\nconst x = require('other');\nexports.hello = function() {};\n    ";
    let input = ConversionInput {
        file_path: String::from("mock_path.js"),
        code: source.as_bytes().to_vec(),
        env: browser_env(),
    };
    let id_hex = "9d04a9c1307c240a";
    assert_eq!(format_id(11314354811068752906u64), id_hex);

    let rewritten = "const x = require(\"e83f3db3d6f57ea6\");\nexports.hello = function() {};\n";
    let output = EngineOutput {
        code: rewritten.as_bytes().to_vec(),
        dependencies: vec![RawDependency {
            specifier: String::from("other"),
            kind: RawDependencyKind::Require,
            placeholder: Some(String::from("e83f3db3d6f57ea6")),
            loc: Some(RawSpan { start_line: 2, start_column: 19, end_line: 2, end_column: 26 }),
            symbols: vec![RawSymbol {
                local: String::from("$other$"),
                exported: String::from("*"),
                loc: None,
            }],
        }],
        symbols: Some(vec![
            RawSymbol {
                local: String::from("$hello"),
                exported: String::from("hello"),
                loc: Some(RawSpan { start_line: 3, start_column: 9, end_line: 3, end_column: 14 }),
            },
            RawSymbol {
                local: String::from("$_"),
                exported: String::from("*"),
                loc: Some(RawSpan { start_line: 1, start_column: 1, end_line: 1, end_column: 1 }),
            },
        ]),
        consumed_as_namespace: true,
        diagnostics: vec![],
        included_files: vec![],
    };

    let result = convert_result(&input, output).unwrap();

    let expected_dependencies = vec![Dependency {
        specifier: String::from("other"),
        specifier_type: SpecifierType::CommonJS,
        kind: String::from("Require"),
        placeholder: Some(String::from("e83f3db3d6f57ea6")),
        source_asset_id: Some(String::from(id_hex)),
        source_path: Some(String::from("mock_path.js")),
        loc: Some(SourceLocation {
            file_path: String::from("mock_path.js"),
            start: Location { line: 2, column: 19 },
            end: Location { line: 2, column: 26 },
        }),
        symbols: vec![Symbol {
            local: String::from("$other$"),
            exported: ExportedName::Namespace,
            loc: None,
        }],
    }];
    assert_eq!(result.dependencies, expected_dependencies);

    assert_eq!(
        result,
        TransformResult {
            asset: Asset {
                file_path: String::from("mock_path.js"),
                code: rewritten.as_bytes().to_vec(),
                asset_type: FileType::Js,
                env: browser_env(),
                symbols: vec![
                    Symbol {
                        local: String::from("$hello"),
                        exported: ExportedName::Name(String::from("hello")),
                        loc: Some(SourceLocation {
                            file_path: String::from("mock_path.js"),
                            start: Location { line: 3, column: 9 },
                            end: Location { line: 3, column: 14 },
                        }),
                    },
                    Symbol {
                        local: String::from("$_"),
                        exported: ExportedName::Namespace,
                        loc: Some(SourceLocation {
                            file_path: String::from("mock_path.js"),
                            start: Location { line: 1, column: 1 },
                            end: Location { line: 1, column: 1 },
                        }),
                    },
                    Symbol {
                        local: format!("${}$exports", id_hex),
                        exported: ExportedName::Namespace,
                        loc: None,
                    },
                ],
                has_symbols: true,
                unique_key: Some(String::from(id_hex)),
            },
            dependencies: expected_dependencies,
            invalidate_on_file_change: vec![],
        }
    );
}

#[test]
fn test_placeholder_occurs_once_in_rewritten_code() {
    let input = ConversionInput {
        file_path: String::from("lib.js"),
        code: b"const a = require('dep');\n".to_vec(),
        env: browser_env(),
    };
    let rewritten = "const a = require(\"0011aabbccddeeff\");\n";
    let mut output = engine_output(rewritten);
    output.dependencies = vec![RawDependency {
        specifier: String::from("dep"),
        kind: RawDependencyKind::Require,
        placeholder: Some(String::from("0011aabbccddeeff")),
        loc: None,
        symbols: vec![],
    }];

    let result = convert_result(&input, output).unwrap();
    let token = result.dependencies[0].placeholder.clone().unwrap();
    let code_text = String::from_utf8(result.asset.code.clone()).unwrap();
    assert_eq!(code_text.matches(token.as_str()).count(), 1);
}
