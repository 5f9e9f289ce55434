use worker::exports::discover_wasm_exports;
use worker::shim::{render_export_wrappers, render_legacy_workflow_exports};

#[test]
fn discovers_workflow_entrypoint_markers_without_treating_them_as_handlers() {
    let source = r#"
export function fetch(arg0, arg1, arg2) {}
export function __worker_workflow_entrypoint_OrderWorkflow() {}
export class Counter {}
export class OrderWorkflow {}
"#;

    let exports = discover_wasm_exports(source).unwrap();

    assert_eq!(exports.functions, vec!["fetch"]);
    assert_eq!(exports.classes, vec!["Counter", "OrderWorkflow"]);
    assert_eq!(exports.workflow_entrypoints, vec!["OrderWorkflow"]);
}

#[test]
fn renders_real_workflow_subclasses_and_keeps_normal_class_proxies() {
    let source = r#"
export function __worker_workflow_entrypoint_OrderWorkflow() {}
export class Counter {}
export class OrderWorkflow {}
"#;
    let exports = discover_wasm_exports(source).unwrap();

    let wrappers = render_export_wrappers(&exports).unwrap();

    assert!(wrappers.contains("class OrderWorkflow extends WorkflowEntrypoint"));
    assert!(wrappers.contains("this.inner = new exports.OrderWorkflow(ctx, env);"));
    assert!(wrappers
        .contains("export const Counter = new Proxy(exports.Counter, classProxyHooks);"));
    assert!(!wrappers.contains("new Proxy(exports.OrderWorkflow, classProxyHooks)"));
}

#[test]
fn rejects_a_workflow_marker_without_a_matching_class_export() {
    let source = "export function __worker_workflow_entrypoint_MissingWorkflow() {}";
    let exports = discover_wasm_exports(source).unwrap();

    let error = render_export_wrappers(&exports).unwrap_err();

    assert!(error
        .to_string()
        .contains("MissingWorkflow does not have a matching class export"));
}

#[test]
fn renders_workflow_subclasses_for_the_legacy_shim() {
    let source = r#"
export function __worker_workflow_entrypoint_OrderWorkflow() {}
export class OrderWorkflow {}
"#;
    let exports = discover_wasm_exports(source).unwrap();

    let wrappers = render_legacy_workflow_exports(&exports).unwrap();

    assert!(wrappers.contains("export class OrderWorkflow extends WorkflowEntrypoint"));
    assert!(wrappers.contains("this.inner = new imports.OrderWorkflow(ctx, env);"));
}
