use std::path::Path;

use worker::commands::{coredump_flags, esbuild_args, wasm_pack_args};
use worker::entrypoint::{check_workflow_attribute, workflow_marker_name, WorkflowAttributeError};
use worker::error::BuildError;
use worker::exports::discover_wasm_exports;
use worker::package::{try_update_package_json, update_package_json};
use worker::paths::output_path;
use worker::shim::{
    add_export_wrappers, fill_handlers, fix_wasm_import, generate_handlers,
    validate_workflow_entrypoints, wrapper_alias,
};

#[test]
fn reads_aliased_exports_crlf_lines_and_skips_system_functions() {
    let source = "export { handler as fetch };\r\nexport function __wbg_reset_state() {}\r\nexport function __worker_init_state() {}\nexport function  queue (a) {}\nexport class  Room  {}\nconst x = 1;\nexport function broken\n";
    let exports = discover_wasm_exports(source).unwrap();
    assert_eq!(exports.functions, vec!["fetch", "queue"]);
    assert_eq!(exports.classes, vec!["Room"]);
    assert!(exports.workflow_entrypoints.is_empty());
}

#[test]
fn rejects_an_invalid_workflow_class_name() {
    let source = "export function __worker_workflow_entrypoint_9Bad() {}";
    let error = discover_wasm_exports(source).unwrap_err();
    assert_eq!(error, BuildError::InvalidWorkflowEntrypointName("9Bad".to_string()));
    assert_eq!(
        error.to_string(),
        "invalid Workflow entrypoint class name in build marker: 9Bad"
    );
}

#[test]
fn rejects_a_duplicate_workflow_marker() {
    let source = "export function __worker_workflow_entrypoint_A() {}\nexport function __worker_workflow_entrypoint_A() {}\n";
    let error = discover_wasm_exports(source).unwrap_err();
    assert_eq!(error, BuildError::DuplicateWorkflowEntrypoint("A".to_string()));
    assert_eq!(error.to_string(), "duplicate Workflow entrypoint build marker for A");
}

#[test]
fn empty_module_has_no_exports() {
    let exports = discover_wasm_exports("").unwrap();
    assert!(exports.functions.is_empty());
    assert!(exports.classes.is_empty());
    assert!(validate_workflow_entrypoints(&exports).is_ok());
}

#[test]
fn generates_handlers_for_each_kind_of_export() {
    let source = "export function fetch(a) {}\nexport function scheduled(a) {}\nexport function custom(a) {}\n";
    let handlers = generate_handlers(source, false).unwrap();
    assert_eq!(
        handlers,
        "Entrypoint.prototype.fetch = function fetch (arg) {\n  return exports.fetch.call(this, arg, this.env, this.ctx);\n}\n\
Entrypoint.prototype.scheduled = function scheduled (arg) {\n  return exports.scheduled.call(this, arg, this.env, this.ctx);\n}\n\
Entrypoint.prototype.custom = exports.custom;\n"
    );
    let to_completion = generate_handlers("export function fetch(a) {}", true).unwrap();
    assert_eq!(
        to_completion,
        "Entrypoint.prototype.fetch = async function fetch(request) {\n  let response = exports.fetch(request, this.env, this.ctx);\n  this.ctx.waitUntil(response);\n  return response;\n}\n"
    );
    assert_eq!(fill_handlers("a $HANDLERS b $HANDLERS", "X"), "a X b X");
}

#[test]
fn completes_the_shim_with_the_workflow_import_and_wrappers() {
    let index = "export function __worker_workflow_entrypoint_W() {}\nexport class W {}\n";
    let shim = add_export_wrappers("$WORKFLOW_IMPORT\nbody\n", index).unwrap();
    assert!(shim.starts_with("import { WorkflowEntrypoint } from \"cloudflare:workers\";\nbody\n"));
    assert!(shim.contains("export const W = new Proxy(\n  class W extends WorkflowEntrypoint"));

    let plain = add_export_wrappers("$WORKFLOW_IMPORT\nbody\n", "export class C {}\n").unwrap();
    assert_eq!(
        plain,
        "\nbody\nexport const C = new Proxy(exports.C, classProxyHooks);\n"
    );

    let missing = add_export_wrappers("", "export function __worker_workflow_entrypoint_W() {}");
    assert_eq!(missing.unwrap_err(), BuildError::MissingWorkflowClass("W".to_string()));
}

#[test]
fn fixes_the_wasm_source_import() {
    assert_eq!(
        fix_wasm_import("import source wasm from './index_bg.wasm';\nimport source x;"),
        "import wasm from './index_bg.wasm';\nimport x;"
    );
    assert_eq!(fix_wasm_import("import a;"), "import a;");
}

#[test]
fn wrapper_alias_points_the_right_way() {
    assert_eq!(
        wrapper_alias(false),
        "// Use index.js directly, this file provided for backwards compat\n// with former shim.mjs only.\nexport * from '../index.js';\nexport { default } from '../index.js';\n"
    );
    assert_eq!(
        wrapper_alias(true),
        "export * from './worker/shim.mjs';\nexport { default } from './worker/shim.mjs';\n"
    );
}

#[test]
fn rewrites_package_json() {
    let updated = update_package_json("{\"name\": \"w\", \"main\": \"old.js\"}").unwrap();
    let value: serde_json::Value = serde_json::from_str(&updated).unwrap();
    assert_eq!(value["name"], serde_json::Value::String("w".to_string()));
    assert_eq!(value["main"], serde_json::Value::String("index.js".to_string()));
    assert_eq!(
        value["files"],
        serde_json::Value::Array(vec![
            serde_json::Value::String("index_bg.wasm".to_string()),
            serde_json::Value::String("index.js".to_string()),
            serde_json::Value::String("index.d.ts".to_string()),
        ])
    );
    assert_eq!(
        value["sideEffects"],
        serde_json::Value::Array(vec![serde_json::Value::String("./index.js".to_string())])
    );
    assert_ne!(updated, "{\"name\": \"w\", \"main\": \"old.js\"}");

    let from_null = update_package_json("null").unwrap();
    let value: serde_json::Value = serde_json::from_str(&from_null).unwrap();
    assert_eq!(value["main"], serde_json::Value::String("index.js".to_string()));

    match update_package_json("{not json") {
        Err(BuildError::InvalidPackageJson(message)) => assert_eq!(
            message,
            serde_json::from_str::<serde_json::Value>("{not json").unwrap_err().to_string()
        ),
        other => panic!("unexpected {:?}", other),
    }
    assert!(try_update_package_json("[1, 2]").is_none());
    assert!(try_update_package_json("{}").unwrap().is_ok());
}

#[test]
fn builds_tool_command_lines() {
    assert_eq!(
        wasm_pack_args("worker-build", vec!["--release".to_string()]),
        vec!["worker-build", "--no-typescript", "--target", "module", "--out-name", "index", "--release"]
    );
    let minified = esbuild_args(true);
    assert_eq!(minified.len(), 11);
    assert_eq!(minified.last().unwrap(), "--minify");
    assert_eq!(esbuild_args(false).len(), 10);
    assert_eq!(coredump_flags(Some("-a  b")), vec!["-a", "", "b"]);
    assert_eq!(coredump_flags(Some("")), vec![""]);
    assert!(coredump_flags(None).is_empty());
}

#[test]
fn output_paths_live_in_the_output_directory() {
    assert_eq!(output_path(Path::new("build"), "index.js"), Path::new("build/index.js"));
}

#[test]
fn workflow_attribute_checks_and_marker() {
    assert_eq!(check_workflow_attribute(true, 0), Ok(()));
    assert_eq!(check_workflow_attribute(false, 1), Err(WorkflowAttributeError::HasArguments));
    assert_eq!(check_workflow_attribute(true, 2), Err(WorkflowAttributeError::GenericStruct));
    assert_eq!(
        WorkflowAttributeError::GenericStruct.message(),
        "Workflow entrypoint structs cannot be generic"
    );
    let marker = workflow_marker_name("OrderWorkflow");
    assert_eq!(marker, "__worker_workflow_entrypoint_OrderWorkflow");
    let line = format!("export function {}() {{}}\nexport class OrderWorkflow {{}}\n", marker);
    let exports = discover_wasm_exports(&line).unwrap();
    assert_eq!(exports.workflow_entrypoints, vec!["OrderWorkflow"]);
    assert!(exports.functions.is_empty());
}

#[test]
fn package_json_is_pretty_printed_with_keys_in_order() {
    let updated = update_package_json("{\"version\":\"0.1.0\",\"main\":\"old.js\"}").unwrap();
    assert_eq!(
        updated,
        "{\n  \"files\": [\n    \"index_bg.wasm\",\n    \"index.js\",\n    \"index.d.ts\"\n  ],\n  \"main\": \"index.js\",\n  \"sideEffects\": [\n    \"./index.js\"\n  ],\n  \"version\": \"0.1.0\"\n}"
    );
    let again = update_package_json(&updated).unwrap();
    assert_eq!(again, updated);
}
