//! The JavaScript that the Worker shim adds around a wasm-bindgen module:
//! entrypoint handlers, class wrappers and Workflow entrypoint subclasses.

use vstd::prelude::*;
use vstd::string::*;

use crate::error::{BuildError, BuildErrorView};
use crate::exports::{
    contains_name, discover_wasm_exports, discovered_exports, texts, WasmExports, WasmExportsView,
};
use crate::text::{replace_all, replace_str};

verus! {

broadcast use vstd::string::group_string_axioms;

// ---------------------------------------------------------------------------
// Validation

/// The first Workflow entrypoint in `entrypoints` that is not among `classes`.
pub open spec fn first_unmatched(entrypoints: Seq<Seq<char>>, classes: Seq<Seq<char>>) -> Option<
    Seq<char>,
>
    decreases entrypoints.len(),
{
    if entrypoints.len() == 0 {
        None
    } else if !classes.contains(entrypoints[0]) {
        Some(entrypoints[0])
    } else {
        first_unmatched(entrypoints.drop_first(), classes)
    }
}

/// `first_unmatched` finds nothing exactly when every entrypoint is a class.
pub proof fn lemma_first_unmatched(entrypoints: Seq<Seq<char>>, classes: Seq<Seq<char>>)
    ensures
        first_unmatched(entrypoints, classes) is None <==> forall|i: int|
            0 <= i < entrypoints.len() ==> classes.contains(#[trigger] entrypoints[i]),
        first_unmatched(entrypoints, classes) matches Some(n) ==> entrypoints.contains(n)
            && !classes.contains(n),
    decreases entrypoints.len(),
{
    if entrypoints.len() > 0 {
        let t = entrypoints.drop_first();
        lemma_first_unmatched(t, classes);
        assert forall|i: int| 0 < i < entrypoints.len() implies entrypoints[i] == t[i - 1] by {}
        if let Some(n) = first_unmatched(t, classes) {
            let k = choose|k: int| 0 <= k < t.len() && t[k] == n;
            assert(entrypoints[k + 1] == n);
        }
        if classes.contains(entrypoints[0]) && first_unmatched(t, classes) is None {
            assert forall|i: int| 0 <= i < entrypoints.len() implies classes.contains(
                #[trigger] entrypoints[i],
            ) by {
                if i > 0 {
                    assert(classes.contains(t[i - 1]));
                }
            }
        }
        if first_unmatched(t, classes) is Some {
            let j = choose|j: int| 0 <= j < t.len() && !classes.contains(#[trigger] t[j]);
            assert(!classes.contains(entrypoints[j + 1]));
        }
    }
}

/// What validation reports for a set of exports.
pub open spec fn validation(e: WasmExportsView) -> Result<(), BuildErrorView> {
    match first_unmatched(e.workflow_entrypoints, e.classes) {
        Some(n) => Err(BuildErrorView::MissingWorkflowClass(n)),
        None => Ok(()),
    }
}

/// Checks that every Workflow entrypoint marker has a class export of the
/// same name; the first that has none is reported.
pub fn validate_workflow_entrypoints(exports: &WasmExports) -> (r: Result<(), BuildError>)
    ensures
        match validation(exports@) {
            Ok(()) => r is Ok,
            Err(e) => r matches Err(x) && x@ == e,
        },
{
    let ghost eps = exports@.workflow_entrypoints;
    let ghost classes = exports@.classes;
    let mut i: usize = 0;
    assert(eps.skip(0) =~= eps);
    while i < exports.workflow_entrypoints.len()
        invariant
            i <= exports.workflow_entrypoints.len(),
            eps == texts(exports.workflow_entrypoints@),
            classes == texts(exports.classes@),
            first_unmatched(eps, classes) == first_unmatched(eps.skip(i as int), classes),
        decreases exports.workflow_entrypoints.len() - i,
    {
        let name = &exports.workflow_entrypoints[i];
        assert(eps.skip(i as int)[0] == name@);
        assert(eps.skip(i as int).drop_first() =~= eps.skip(i + 1));
        if !contains_name(&exports.classes, name) {
            return Err(BuildError::MissingWorkflowClass(name.clone()));
        }
        i = i + 1;
    }
    assert(eps.skip(i as int) =~= Seq::<Seq<char>>::empty());
    Ok(())
}

// ---------------------------------------------------------------------------
// Class wrappers for the module shim

/// The shim's export of a Workflow entrypoint class: a subclass of the
/// runtime's `WorkflowEntrypoint` that forwards `run` to the Rust object.
pub open spec fn workflow_subclass_export(c: Seq<char>) -> Seq<char> {
    "export const "@ + c + " = new Proxy(\n  class "@ + c
        + " extends WorkflowEntrypoint {\n    constructor(ctx, env) {\n      super(ctx, env);\n      this.inner = new exports."@
        + c
        + "(ctx, env);\n    }\n\n    run(event, step) {\n      return this.inner.run(event, step);\n    }\n  },\n  classProxyHooks,\n);\n"@
}

/// The shim's export of any other class: a proxy around the wasm-bindgen class.
pub open spec fn class_proxy_export(c: Seq<char>) -> Seq<char> {
    "export const "@ + c + " = new Proxy(exports."@ + c + ", classProxyHooks);\n"@
}

/// The shim text for one class.
pub open spec fn class_export(c: Seq<char>, entrypoints: Seq<Seq<char>>) -> Seq<char> {
    if entrypoints.contains(c) {
        workflow_subclass_export(c)
    } else {
        class_proxy_export(c)
    }
}

/// The shim text for a list of classes, in order.
pub open spec fn class_exports(classes: Seq<Seq<char>>, entrypoints: Seq<Seq<char>>) -> Seq<char>
    decreases classes.len(),
{
    if classes.len() == 0 {
        seq![]
    } else {
        class_exports(classes.drop_last(), entrypoints) + class_export(classes.last(), entrypoints)
    }
}

/// What `render_export_wrappers` produces for a set of exports.
pub open spec fn export_wrappers(e: WasmExportsView) -> Result<Seq<char>, BuildErrorView> {
    match validation(e) {
        Ok(()) => Ok(class_exports(e.classes, e.workflow_entrypoints)),
        Err(x) => Err(x),
    }
}

/// Renders the shim's export for every class, in order: Workflow entrypoint
/// classes become `WorkflowEntrypoint` subclasses, all others proxies.
/// Fails when a Workflow entrypoint has no matching class export.
pub fn render_export_wrappers(exports: &WasmExports) -> (r: Result<String, BuildError>)
    ensures
        match export_wrappers(exports@) {
            Ok(t) => r matches Ok(s) && s@ == t,
            Err(e) => r matches Err(x) && x@ == e,
        },
{
    validate_workflow_entrypoints(exports)?;
    let ghost classes = exports@.classes;
    let ghost eps = exports@.workflow_entrypoints;
    let mut out = String::new();
    let mut i: usize = 0;
    assert(classes.take(0) =~= Seq::<Seq<char>>::empty());
    while i < exports.classes.len()
        invariant
            i <= exports.classes.len(),
            classes == texts(exports.classes@),
            eps == texts(exports.workflow_entrypoints@),
            out@ == class_exports(classes.take(i as int), eps),
        decreases exports.classes.len() - i,
    {
        let c = exports.classes[i].as_str();
        assert(classes[i as int] == c@);
        if contains_name(&exports.workflow_entrypoints, &exports.classes[i]) {
            out.append("export const ");
            out.append(c);
            out.append(" = new Proxy(\n  class ");
            out.append(c);
            out.append(
                " extends WorkflowEntrypoint {\n    constructor(ctx, env) {\n      super(ctx, env);\n      this.inner = new exports.",
            );
            out.append(c);
            out.append(
                "(ctx, env);\n    }\n\n    run(event, step) {\n      return this.inner.run(event, step);\n    }\n  },\n  classProxyHooks,\n);\n",
            );
        } else {
            out.append("export const ");
            out.append(c);
            out.append(" = new Proxy(exports.");
            out.append(c);
            out.append(", classProxyHooks);\n");
        }
        assert(classes.take(i + 1).drop_last() =~= classes.take(i as int));
        i = i + 1;
    }
    assert(classes.take(i as int) =~= classes);
    Ok(out)
}

// ---------------------------------------------------------------------------
// Workflow classes for the legacy (bundler) shim

/// The legacy shim's export of a Workflow entrypoint class.
pub open spec fn legacy_workflow_export(c: Seq<char>) -> Seq<char> {
    "export class "@ + c
        + " extends WorkflowEntrypoint {\n  constructor(ctx, env) {\n    super(ctx, env);\n    this.inner = new imports."@
        + c
        + "(ctx, env);\n  }\n\n  run(event, step) {\n    return this.inner.run(event, step);\n  }\n}\n"@
}

/// The legacy shim text for a list of Workflow entrypoints, in order.
pub open spec fn legacy_workflow_exports(entrypoints: Seq<Seq<char>>) -> Seq<char>
    decreases entrypoints.len(),
{
    if entrypoints.len() == 0 {
        seq![]
    } else {
        legacy_workflow_exports(entrypoints.drop_last()) + legacy_workflow_export(
            entrypoints.last(),
        )
    }
}

/// What `render_legacy_workflow_exports` produces for a set of exports.
pub open spec fn legacy_exports(e: WasmExportsView) -> Result<Seq<char>, BuildErrorView> {
    match validation(e) {
        Ok(()) => Ok(legacy_workflow_exports(e.workflow_entrypoints)),
        Err(x) => Err(x),
    }
}

/// Renders a `WorkflowEntrypoint` subclass for every Workflow entrypoint,
/// in order, for the legacy shim. Fails when a Workflow entrypoint has no
/// matching class export.
pub fn render_legacy_workflow_exports(exports: &WasmExports) -> (r: Result<String, BuildError>)
    ensures
        match legacy_exports(exports@) {
            Ok(t) => r matches Ok(s) && s@ == t,
            Err(e) => r matches Err(x) && x@ == e,
        },
{
    validate_workflow_entrypoints(exports)?;
    let ghost eps = exports@.workflow_entrypoints;
    let mut out = String::new();
    let mut i: usize = 0;
    assert(eps.take(0) =~= Seq::<Seq<char>>::empty());
    while i < exports.workflow_entrypoints.len()
        invariant
            i <= exports.workflow_entrypoints.len(),
            eps == texts(exports.workflow_entrypoints@),
            out@ == legacy_workflow_exports(eps.take(i as int)),
        decreases exports.workflow_entrypoints.len() - i,
    {
        let c = exports.workflow_entrypoints[i].as_str();
        assert(eps[i as int] == c@);
        out.append("export class ");
        out.append(c);
        out.append(
            " extends WorkflowEntrypoint {\n  constructor(ctx, env) {\n    super(ctx, env);\n    this.inner = new imports.",
        );
        out.append(c);
        out.append(
            "(ctx, env);\n  }\n\n  run(event, step) {\n    return this.inner.run(event, step);\n  }\n}\n",
        );
        assert(eps.take(i + 1).drop_last() =~= eps.take(i as int));
        i = i + 1;
    }
    assert(eps.take(i as int) =~= eps);
    Ok(out)
}

// ---------------------------------------------------------------------------
// Entrypoint handlers

/// The handler installed for `fetch` when the Worker must run every request
/// to completion.
pub open spec fn fetch_to_completion_handler() -> Seq<char> {
    "Entrypoint.prototype.fetch = async function fetch(request) {\n  let response = exports.fetch(request, this.env, this.ctx);\n  this.ctx.waitUntil(response);\n  return response;\n}\n"@
}

/// The event handlers that receive the environment and context as extra arguments.
pub open spec fn is_event_handler(f: Seq<char>) -> bool {
    f == "fetch"@ || f == "queue"@ || f == "scheduled"@ || f == "email"@
}

/// The handler installed for an exported function.
pub open spec fn handler(f: Seq<char>, run_to_completion: bool) -> Seq<char> {
    if f == "fetch"@ && run_to_completion {
        fetch_to_completion_handler()
    } else if is_event_handler(f) {
        "Entrypoint.prototype."@ + f + " = function "@ + f + " (arg) {\n  return exports."@ + f
            + ".call(this, arg, this.env, this.ctx);\n}\n"@
    } else {
        "Entrypoint.prototype."@ + f + " = exports."@ + f + ";\n"@
    }
}

/// The handlers for a list of exported functions, in order.
pub open spec fn handlers(functions: Seq<Seq<char>>, run_to_completion: bool) -> Seq<char>
    decreases functions.len(),
{
    if functions.len() == 0 {
        seq![]
    } else {
        handlers(functions.drop_last(), run_to_completion) + handler(
            functions.last(),
            run_to_completion,
        )
    }
}

/// What `generate_handlers` produces for a module's JavaScript.
pub open spec fn generated_handlers(index_js: Seq<char>, run_to_completion: bool) -> Result<
    Seq<char>,
    BuildErrorView,
> {
    match discovered_exports(index_js) {
        Ok(e) => Ok(handlers(e.functions, run_to_completion)),
        Err(x) => Err(x),
    }
}

/// Whether `s` is exactly the text `lit`.
fn is_text(s: &String, lit: &str) -> (r: bool)
    ensures
        r == (s@ == lit@),
{
    let t = String::from_str(lit);
    *s == t
}

/// Renders the `Entrypoint` handler for every function that the module
/// exports, in order. `run_to_completion` selects the `fetch` handler that
/// keeps the request alive until its response settles.
pub fn generate_handlers(index_js: &str, run_to_completion: bool) -> (r: Result<String, BuildError>)
    ensures
        match generated_handlers(index_js@, run_to_completion) {
            Ok(t) => r matches Ok(s) && s@ == t,
            Err(e) => r matches Err(x) && x@ == e,
        },
{
    let exports = discover_wasm_exports(index_js)?;
    let ghost fs = exports@.functions;
    let mut out = String::new();
    let mut i: usize = 0;
    assert(fs.take(0) =~= Seq::<Seq<char>>::empty());
    while i < exports.functions.len()
        invariant
            i <= exports.functions.len(),
            fs == texts(exports.functions@),
            out@ == handlers(fs.take(i as int), run_to_completion),
        decreases exports.functions.len() - i,
    {
        let f = &exports.functions[i];
        assert(fs[i as int] == f@);
        let is_fetch = is_text(f, "fetch");
        if is_fetch && run_to_completion {
            out.append(
                "Entrypoint.prototype.fetch = async function fetch(request) {\n  let response = exports.fetch(request, this.env, this.ctx);\n  this.ctx.waitUntil(response);\n  return response;\n}\n",
            );
        } else if is_fetch || is_text(f, "queue") || is_text(f, "scheduled") || is_text(f, "email") {
            out.append("Entrypoint.prototype.");
            out.append(f.as_str());
            out.append(" = function ");
            out.append(f.as_str());
            out.append(" (arg) {\n  return exports.");
            out.append(f.as_str());
            out.append(".call(this, arg, this.env, this.ctx);\n}\n");
        } else {
            out.append("Entrypoint.prototype.");
            out.append(f.as_str());
            out.append(" = exports.");
            out.append(f.as_str());
            out.append(";\n");
        }
        assert(fs.take(i + 1).drop_last() =~= fs.take(i as int));
        i = i + 1;
    }
    assert(fs.take(i as int) =~= fs);
    Ok(out)
}

/// Puts the generated handlers in place of `$HANDLERS` in the shim template.
pub fn fill_handlers(template: &str, handlers_js: &str) -> (r: String)
    ensures
        r@ == replace_all(template@, "$HANDLERS"@, handlers_js@),
{
    proof {
        reveal_strlit("$HANDLERS");
    }
    replace_str(template, "$HANDLERS", handlers_js)
}

// ---------------------------------------------------------------------------
// The module shim

/// The import that the shim needs when the module has Workflow entrypoints.
pub open spec fn workflow_import(e: WasmExportsView) -> Seq<char> {
    if e.workflow_entrypoints.len() == 0 {
        ""@
    } else {
        "import { WorkflowEntrypoint } from \"cloudflare:workers\";"@
    }
}

/// What `add_export_wrappers` makes of a shim and the module's JavaScript.
pub open spec fn shim_with_exports(shim: Seq<char>, index_js: Seq<char>) -> Result<
    Seq<char>,
    BuildErrorView,
> {
    match discovered_exports(index_js) {
        Err(x) => Err(x),
        Ok(e) => match export_wrappers(e) {
            Err(x) => Err(x),
            Ok(w) => Ok(replace_all(shim, "$WORKFLOW_IMPORT"@, workflow_import(e)) + w),
        },
    }
}

/// Completes the shim for a module: `$WORKFLOW_IMPORT` becomes the
/// `WorkflowEntrypoint` import when the module has Workflow entrypoints (and
/// nothing otherwise), and the class wrappers are appended.
pub fn add_export_wrappers(shim: &str, index_js: &str) -> (r: Result<String, BuildError>)
    ensures
        match shim_with_exports(shim@, index_js@) {
            Ok(t) => r matches Ok(s) && s@ == t,
            Err(e) => r matches Err(x) && x@ == e,
        },
{
    let exports = discover_wasm_exports(index_js)?;
    let import = if exports.workflow_entrypoints.len() == 0 {
        ""
    } else {
        "import { WorkflowEntrypoint } from \"cloudflare:workers\";"
    };
    proof {
        reveal_strlit("$WORKFLOW_IMPORT");
    }
    let mut output = replace_str(shim, "$WORKFLOW_IMPORT", import);
    let wrappers = render_export_wrappers(&exports)?;
    output.append(wrappers.as_str());
    Ok(output)
}

/// Drops the `source` phase from the module's Wasm import, which the
/// bundled output cannot use.
pub fn fix_wasm_import(index_js: &str) -> (r: String)
    ensures
        r@ == replace_all(index_js@, "import source "@, "import "@),
{
    proof {
        reveal_strlit("import source ");
    }
    replace_str(index_js, "import source ", "import ")
}

/// The file that re-exports the Worker module for older configurations:
/// `worker/shim.mjs` pointing at `../index.js`, or, for the legacy shim,
/// `index.js` pointing at `./worker/shim.mjs`.
pub open spec fn wrapper_alias_text(legacy: bool) -> Seq<char> {
    let msg = if !legacy {
        "// Use index.js directly, this file provided for backwards compat\n// with former shim.mjs only.\n"@
    } else {
        ""@
    };
    let path = if !legacy {
        "../index.js"@
    } else {
        "./worker/shim.mjs"@
    };
    msg + "export * from '"@ + path + "';\nexport { default } from '"@ + path + "';\n"@
}

/// The contents of the re-exporting alias file.
pub fn wrapper_alias(legacy: bool) -> (r: String)
    ensures
        r@ == wrapper_alias_text(legacy),
{
    let msg = if !legacy {
        "// Use index.js directly, this file provided for backwards compat\n// with former shim.mjs only.\n"
    } else {
        ""
    };
    let path = if !legacy {
        "../index.js"
    } else {
        "./worker/shim.mjs"
    };
    let mut r = String::from_str(msg);
    r.append("export * from '");
    r.append(path);
    r.append("';\nexport { default } from '");
    r.append(path);
    r.append("';\n");
    r
}

} // verus!
