//! Properties that hold across the library's functions.

use vstd::prelude::*;

use crate::entrypoint::{
    echo_step, marker_name, test_workflow_transition, TestWorkflowActionView,
    TestWorkflowEventView, TestWorkflowStateView,
};
use crate::error::BuildErrorView;
use crate::exports::{
    discovered_exports, exported_class, exported_function, is_identifier_part, is_identifier_start,
    is_javascript_identifier, is_system_function, lemma_find_char_bounds, lines, marker_prefix,
    read_line, strip_cr,
    read_lines, WasmExportsView,
};
use crate::json::{JsonView, RuntimeShape};
use crate::shim::{
    class_exports, export_wrappers, handler, handlers, lemma_first_unmatched, legacy_exports,
    legacy_workflow_exports,
};
use crate::workflows::{step_type_name, WorkflowStepType};
use crate::text::{find_char, lemma_find_char, replace_all, starts_with, trim, trim_end, trim_start};

verus! {

/// Whether a set of exports is as discovery leaves it: every Workflow
/// entrypoint is a JavaScript identifier and appears once, and no handler
/// function is a system function or a Workflow marker.
pub open spec fn well_formed_exports(e: WasmExportsView) -> bool {
    &&& forall|i: int|
        0 <= i < e.workflow_entrypoints.len() ==> is_javascript_identifier(
            #[trigger] e.workflow_entrypoints[i],
        )
    &&& forall|i: int, j: int|
        0 <= i < j < e.workflow_entrypoints.len() ==> #[trigger] e.workflow_entrypoints[i]
            != #[trigger] e.workflow_entrypoints[j]
    &&& forall|i: int|
        0 <= i < e.functions.len() ==> !is_system_function(#[trigger] e.functions[i])
            && !starts_with(e.functions[i], marker_prefix())
}

/// Reading one line keeps a set of exports well formed.
proof fn lemma_read_line_well_formed(acc: WasmExportsView, line: Seq<char>)
    requires
        well_formed_exports(acc),
    ensures
        read_line(acc, line) matches Ok(next) ==> well_formed_exports(next),
{
    if let Ok(next) = read_line(acc, line) {
        if let Some(f) = exported_function(line) {
            if starts_with(f, marker_prefix()) {
                let c = f.skip(marker_prefix().len() as int);
                let eps = acc.workflow_entrypoints;
                assert(next.workflow_entrypoints == eps.push(c));
                assert forall|i: int, j: int|
                    0 <= i < j < next.workflow_entrypoints.len() implies #[trigger] next.workflow_entrypoints[i]
                    != #[trigger] next.workflow_entrypoints[j] by {
                    if j == eps.len() {
                        assert(next.workflow_entrypoints[i] == eps[i]);
                        if eps[i] == c {
                            assert(eps.contains(c));
                        }
                    } else {
                        assert(next.workflow_entrypoints[i] == eps[i]);
                        assert(next.workflow_entrypoints[j] == eps[j]);
                    }
                }
                assert forall|i: int| 0 <= i < next.workflow_entrypoints.len() implies is_javascript_identifier(
                    #[trigger] next.workflow_entrypoints[i],
                ) by {
                    if i < eps.len() {
                        assert(next.workflow_entrypoints[i] == eps[i]);
                    }
                }
            }
        }
    }
}

/// Reading lines in order keeps the exports well formed.
proof fn lemma_read_lines_well_formed(ls: Seq<Seq<char>>)
    ensures
        read_lines(ls) matches Ok(e) ==> well_formed_exports(e),
    decreases ls.len(),
{
    if ls.len() > 0 {
        lemma_read_lines_well_formed(ls.drop_last());
        if let Ok(acc) = read_lines(ls.drop_last()) {
            lemma_read_line_well_formed(acc, ls.last());
        }
    }
}

/// Discovery never treats a Workflow marker or a system function as a
/// handler, and the Workflow entrypoints it registers are distinct
/// JavaScript identifiers.
pub proof fn law_discovered_exports_well_formed(content: Seq<char>)
    ensures
        discovered_exports(content) matches Ok(e) ==> well_formed_exports(e),
{
    lemma_read_lines_well_formed(lines(content));
}

/// The module shim and the legacy shim accept the same exports: both
/// succeed exactly when every Workflow entrypoint has a class export of the
/// same name, and both report the same first unmatched entrypoint.
pub proof fn law_shims_validate_alike(e: WasmExportsView)
    ensures
        export_wrappers(e) is Ok <==> legacy_exports(e) is Ok,
        export_wrappers(e) is Ok <==> forall|i: int|
            0 <= i < e.workflow_entrypoints.len() ==> e.classes.contains(
                #[trigger] e.workflow_entrypoints[i],
            ),
        export_wrappers(e) matches Err(x) ==> legacy_exports(e) == Err::<Seq<char>, _>(x),
        export_wrappers(e) matches Err(x) ==> (x matches BuildErrorView::MissingWorkflowClass(n)
            && e.workflow_entrypoints.contains(n) && !e.classes.contains(n)),
{
    lemma_first_unmatched(e.workflow_entrypoints, e.classes);
}

/// The marker that `#[workflow]` exports for an entrypoint struct `name` is
/// read back by the build as the Workflow entrypoint `name`, and not as a
/// handler function, whatever follows the marker's opening parenthesis.
pub proof fn law_marker_is_discovered(acc: WasmExportsView, name: Seq<char>, tail: Seq<char>)
    requires
        is_javascript_identifier(name),
        !acc.workflow_entrypoints.contains(name),
    ensures
        read_line(acc, "export function "@ + marker_name(name) + "("@ + tail) == Ok::<
            WasmExportsView,
            BuildErrorView,
        >(WasmExportsView { workflow_entrypoints: acc.workflow_entrypoints.push(name), ..acc }),
{
    reveal_strlit("export function ");
    reveal_strlit("export function");
    reveal_strlit("(");
    reveal_strlit("__worker_workflow_entrypoint_");
    let p = marker_prefix();
    let m = marker_name(name);
    let line = "export function "@ + m + "("@ + tail;
    let kw = "export function"@;
    assert(line.take(kw.len() as int) =~= kw);
    let rest = line.skip(kw.len() as int);
    assert(rest =~= seq![' '] + m + seq!['('] + tail);
    let k: int = 1int + m.len();
    assert forall|j: int| 0 <= j < k implies rest[j] != '(' by {
        if j >= 1 + p.len() {
            assert(rest[j] == name[j - 1 - p.len()]);
            assert(is_identifier_part(name[j - 1 - p.len()]) || (j - 1 - p.len() == 0
                && is_identifier_start(name[0])));
        } else if j >= 1 {
            assert(rest[j] == p[j - 1]);
        }
    }
    assert(rest[k] == '(');
    lemma_find_char(rest, '(', k);
    let before = rest.take(k);
    assert(before =~= seq![' '] + m);
    assert(before.drop_first() =~= m);
    assert(trim_start(m) == m);
    assert(m.last() == name.last());
    assert(is_identifier_part(name.last()) || (name.len() == 1 && is_identifier_start(name[0])));
    assert(trim_end(m) == m);
    assert(trim(before) == m);
    assert(exported_function(line) == Some(m));
    assert(m.take(p.len() as int) =~= p);
    assert(m.skip(p.len() as int) =~= name);
}

/// A test Workflow run that has ended ignores every further event.
pub proof fn law_test_workflow_done_is_final(event: TestWorkflowEventView)
    ensures
        test_workflow_transition(TestWorkflowStateView::Done, event) == (
            TestWorkflowStateView::Done,
            TestWorkflowActionView::Ignore,
        ),
{
}

/// A test Workflow run started with any input other than `"non-retryable"`
/// runs the echo step with that input, and completes with whatever the
/// step returns.
pub proof fn law_test_workflow_echoes(value: Seq<char>, out: Seq<char>)
    requires
        value != "non-retryable"@,
    ensures
        test_workflow_transition(TestWorkflowStateView::Idle, TestWorkflowEventView::Start(value))
            == (TestWorkflowStateView::AwaitingEcho, echo_step(value)),
        test_workflow_transition(
            TestWorkflowStateView::AwaitingEcho,
            TestWorkflowEventView::StepSucceeded(out),
        ) == (TestWorkflowStateView::Done, TestWorkflowActionView::Complete(out)),
{
}

/// Replacing a text that does not occur leaves the input unchanged; in
/// particular `fix_wasm_import` leaves a module without `import source `
/// as it is.
pub proof fn law_replace_without_occurrence(s: Seq<char>, from: Seq<char>, to: Seq<char>)
    requires
        from.len() > 0,
        forall|i: int| 0 <= i && i + from.len() <= s.len() ==> #[trigger] s.subrange(i, i + from.len()) != from,
    ensures
        replace_all(s, from, to) == s,
    decreases s.len(),
{
    if s.len() >= from.len() {
        assert(s.take(from.len() as int) =~= s.subrange(0int, 0int + from.len()));
        let t = s.drop_first();
        assert forall|i: int| 0 <= i && i + from.len() <= t.len() implies #[trigger] t.subrange(i, i + from.len()) != from by {
            assert(t.subrange(i, i + from.len()) =~= s.subrange(i + 1, i + 1 + from.len()));
        }
        law_replace_without_occurrence(t, from, to);
        assert(s =~= seq![s[0]] + t);
    }
}

/// A line `export function NAME(...` exports the function `NAME` when
/// `NAME` is a JavaScript identifier.
proof fn lemma_exported_identifier(name: Seq<char>, tail: Seq<char>)
    requires
        is_javascript_identifier(name),
    ensures
        exported_function("export function "@ + name + "("@ + tail) == Some(name),
{
    reveal_strlit("export function ");
    reveal_strlit("export function");
    reveal_strlit("(");
    let line = "export function "@ + name + "("@ + tail;
    let kw = "export function"@;
    assert(line.take(kw.len() as int) =~= kw);
    let rest = line.skip(kw.len() as int);
    assert(rest =~= seq![' '] + name + seq!['('] + tail);
    let k: int = 1int + name.len();
    assert forall|j: int| 0 <= j < k implies rest[j] != '(' by {
        if j >= 1 {
            assert(rest[j] == name[j - 1]);
            assert(is_identifier_part(name[j - 1]) || (j - 1 == 0 && is_identifier_start(name[0])));
        }
    }
    assert(rest[k] == '(');
    lemma_find_char(rest, '(', k);
    let before = rest.take(k);
    assert(before =~= seq![' '] + name);
    assert(before.drop_first() =~= name);
    assert(is_identifier_start(name[0]));
    assert(trim_start(name) == name);
    assert(is_identifier_part(name.last()) || (name.len() == 1 && is_identifier_start(name[0])));
    assert(trim_end(name) == name);
    assert(trim(before) == name);
}

/// Reading a line `export function NAME(...` adds `NAME` to the handler
/// functions, after those found so far and whatever classes and Workflow
/// entrypoints were found before it, when `NAME` is neither a system
/// function of wasm-bindgen's runtime support nor a Workflow marker.
pub proof fn law_exported_function_is_kept(acc: WasmExportsView, name: Seq<char>, tail: Seq<char>)
    requires
        is_javascript_identifier(name),
        name != "__wbg_reset_state"@,
        name != "__worker_init_state"@,
        !starts_with(name, "__worker_workflow_entrypoint_"@),
    ensures
        read_line(acc, "export function "@ + name + "("@ + tail) == Ok::<
            WasmExportsView,
            BuildErrorView,
        >(WasmExportsView { functions: acc.functions.push(name), ..acc }),
{
    lemma_exported_identifier(name, tail);
}

/// The lines of a text that ends with a line break, followed by more text,
/// are its lines followed by those of the rest.
proof fn lemma_lines_concat(a: Seq<char>, b: Seq<char>)
    requires
        a.len() > 0 ==> a.last() == '\n',
    ensures
        lines(a + b) == lines(a) + lines(b),
    decreases a.len(),
{
    if a.len() == 0 {
        assert(a + b =~= b);
        assert(lines(a) =~= Seq::<Seq<char>>::empty());
        assert(lines(a) + lines(b) =~= lines(b));
    } else {
        lemma_find_char_bounds(a, '\n');
        let i = find_char(a, '\n')->0;
        let ab = a + b;
        assert forall|j: int| 0 <= j < i implies ab[j] != '\n' by {
            assert(ab[j] == a[j]);
        }
        lemma_find_char(ab, '\n', i);
        assert(ab.take(i) =~= a.take(i));
        assert(ab.skip(i + 1) =~= a.skip(i + 1) + b);
        let a2 = a.skip(i + 1);
        if a2.len() > 0 {
            assert(a2.last() == a.last());
        }
        lemma_lines_concat(a2, b);
        assert(lines(a) == seq![strip_cr(a.take(i))] + lines(a2));
        assert(lines(ab) == seq![strip_cr(a.take(i))] + lines(a2 + b));
        assert(lines(ab) =~= lines(a) + lines(b));
    }
}

/// A line without a break, followed by one, is read as that single line
/// when it does not end with a carriage return.
proof fn lemma_single_line(line: Seq<char>)
    requires
        forall|j: int| 0 <= j < line.len() ==> line[j] != '\n',
        line.len() > 0 && line.last() != '\r',
    ensures
        lines(line + seq!['\n']) == seq![line],
{
    let s = line + seq!['\n'];
    assert forall|j: int| 0 <= j < line.len() implies s[j] != '\n' by {
        assert(s[j] == line[j]);
    }
    lemma_find_char(s, '\n', line.len() as int);
    assert(s.take(line.len() as int) =~= line);
    assert(s.skip(line.len() + 1int) =~= Seq::<char>::empty());
    assert(lines(s.skip(line.len() + 1int)) =~= Seq::<Seq<char>>::empty());
    assert(lines(s) =~= seq![line]);
}

/// Appending the line `export function NAME(...` to a module adds `NAME`
/// to the handler functions it exports, after all functions found before,
/// whatever classes or Workflow entrypoints the module holds, when `NAME`
/// is neither a system function nor a Workflow marker.
pub proof fn law_module_function_appended(
    content: Seq<char>,
    name: Seq<char>,
    tail: Seq<char>,
)
    requires
        content.len() > 0 ==> content.last() == '\n',
        is_javascript_identifier(name),
        name != "__wbg_reset_state"@,
        name != "__worker_init_state"@,
        !starts_with(name, "__worker_workflow_entrypoint_"@),
        forall|j: int| 0 <= j < tail.len() ==> tail[j] != '\n',
        tail.len() > 0 ==> tail.last() != '\r',
    ensures
        discovered_exports(content) matches Ok(e) ==> discovered_exports(
            content + ("export function "@ + name + "("@ + tail) + "\n"@,
        ) == Ok::<WasmExportsView, BuildErrorView>(
            WasmExportsView { functions: e.functions.push(name), ..e },
        ),
{
    reveal_strlit("export function ");
    reveal_strlit("(");
    reveal_strlit("\n");
    let line = "export function "@ + name + "("@ + tail;
    assert forall|j: int| 0 <= j < line.len() implies line[j] != '\n' by {
        if j >= 16 + name.len() + 1 {
            assert(line[j] == tail[j - 17 - name.len()]);
        } else if j >= 16 && j < 16 + name.len() {
            assert(line[j] == name[j - 16]);
            assert(is_identifier_part(name[j - 16]) || (j == 16 && is_identifier_start(name[0])));
        }
    }
    assert(line.last() != '\r') by {
        if tail.len() == 0 {
            assert(line.last() == '(');
        } else {
            assert(line.last() == tail.last());
        }
    }
    lemma_single_line(line);
    assert("\n"@ =~= seq!['\n']);
    lemma_lines_concat(content, line + seq!['\n']);
    assert(content + line + "\n"@ =~= content + (line + seq!['\n']));
    let ls = lines(content) + seq![line];
    assert(ls.drop_last() =~= lines(content));
    if let Ok(e) = discovered_exports(content) {
        law_exported_function_is_kept(e, name, tail);
    }
}

/// Reading a line `export class NAME {...` adds `NAME` to the classes,
/// after those found so far, and leaves the functions and Workflow
/// entrypoints as they were.
pub proof fn law_exported_class_is_kept(acc: WasmExportsView, name: Seq<char>, tail: Seq<char>)
    requires
        is_javascript_identifier(name),
    ensures
        read_line(acc, "export class "@ + name + " {"@ + tail) == Ok::<
            WasmExportsView,
            BuildErrorView,
        >(WasmExportsView { classes: acc.classes.push(name), ..acc }),
{
    reveal_strlit("export class ");
    reveal_strlit("export function");
    reveal_strlit("export {");
    reveal_strlit(" {");
    let line = "export class "@ + name + " {"@ + tail;
    let kc = "export class "@;
    assert(line[7] == 'c');
    if starts_with(line, "export function"@) {
        assert(line.take(15)[7] == line[7]);
    }
    if starts_with(line, "export {"@) {
        assert(line.take(8)[7] == line[7]);
    }
    assert(exported_function(line) is None);
    assert(line.take(kc.len() as int) =~= kc);
    let rest = line.skip(kc.len() as int);
    assert(rest =~= name + seq![' ', '{'] + tail);
    let k: int = name.len() + 1int;
    assert forall|j: int| 0 <= j < k implies rest[j] != '{' by {
        if j < name.len() {
            assert(rest[j] == name[j]);
            assert(is_identifier_part(name[j]) || (j == 0 && is_identifier_start(name[0])));
        }
    }
    assert(rest[k] == '{');
    lemma_find_char(rest, '{', k);
    let before = rest.take(k);
    assert(before =~= name.push(' '));
    assert(is_identifier_start(name[0]));
    assert(trim_start(before) == before);
    assert(before.drop_last() =~= name);
    assert(is_identifier_part(name.last()) || (name.len() == 1 && is_identifier_start(name[0])));
    assert(trim_end(name) == name);
    assert(trim_end(before) == name);
    assert(exported_class(line) == Some(name));
}

/// The handler installed for each exported function: the event handlers
/// `queue`, `scheduled`, `email` (and `fetch` unless every request runs to
/// completion) receive the environment and context after their argument;
/// `fetch` run to completion keeps the request alive until its response
/// settles; every other function is installed as it is.
pub proof fn law_handler_text(f: Seq<char>, run_to_completion: bool)
    ensures
        (f == "queue"@ || f == "scheduled"@ || f == "email"@ || (f == "fetch"@
            && !run_to_completion)) ==> handler(f, run_to_completion) == "Entrypoint.prototype."@
            + f + " = function "@ + f + " (arg) {\n  return exports."@ + f
            + ".call(this, arg, this.env, this.ctx);\n}\n"@,
        (f == "fetch"@ && run_to_completion) ==> handler(f, run_to_completion)
            == "Entrypoint.prototype.fetch = async function fetch(request) {\n  let response = exports.fetch(request, this.env, this.ctx);\n  this.ctx.waitUntil(response);\n  return response;\n}\n"@,
        (f != "queue"@ && f != "scheduled"@ && f != "email"@ && f != "fetch"@) ==> handler(
            f,
            run_to_completion,
        ) == "Entrypoint.prototype."@ + f + " = exports."@ + f + ";\n"@,
{
    reveal_strlit("fetch");
    reveal_strlit("queue");
    reveal_strlit("scheduled");
    reveal_strlit("email");
    assert("queue"@[0] != "fetch"@[0]);
    assert("scheduled"@.len() != "fetch"@.len());
    assert("email"@[0] != "fetch"@[0]);
}

/// The handlers of a module are those of its functions, one after another
/// in the order the functions are exported: none for no function, and one
/// more function adds its handler at the end.
pub proof fn law_handlers_in_order(functions: Seq<Seq<char>>, f: Seq<char>, run_to_completion: bool)
    ensures
        handlers(seq![], run_to_completion) == Seq::<char>::empty(),
        handlers(functions.push(f), run_to_completion) == handlers(functions, run_to_completion)
            + handler(f, run_to_completion),
{
    assert(functions.push(f).drop_last() =~= functions);
}

/// Adding a class to the exports adds its shim text after that of the
/// classes before it: a `WorkflowEntrypoint` subclass when the class is
/// any one of the Workflow entrypoints, a proxy otherwise.
pub proof fn law_class_export_text(
    classes: Seq<Seq<char>>,
    entrypoints: Seq<Seq<char>>,
    c: Seq<char>,
)
    ensures
        class_exports(seq![], entrypoints) == Seq::<char>::empty(),
        entrypoints.contains(c) ==> class_exports(classes.push(c), entrypoints) == class_exports(
            classes,
            entrypoints,
        ) + ("export const "@ + c + " = new Proxy(\n  class "@ + c
            + " extends WorkflowEntrypoint {\n    constructor(ctx, env) {\n      super(ctx, env);\n      this.inner = new exports."@
            + c
            + "(ctx, env);\n    }\n\n    run(event, step) {\n      return this.inner.run(event, step);\n    }\n  },\n  classProxyHooks,\n);\n"@),
        !entrypoints.contains(c) ==> class_exports(classes.push(c), entrypoints) == class_exports(
            classes,
            entrypoints,
        ) + ("export const "@ + c + " = new Proxy(exports."@ + c + ", classProxyHooks);\n"@),
{
    assert(classes.push(c).drop_last() =~= classes);
}

/// Adding a Workflow entrypoint adds its legacy `WorkflowEntrypoint`
/// subclass after those of the entrypoints before it, so the legacy text
/// holds one subclass for every entrypoint, in order.
pub proof fn law_legacy_export_text(entrypoints: Seq<Seq<char>>, c: Seq<char>)
    ensures
        legacy_workflow_exports(seq![]) == Seq::<char>::empty(),
        legacy_workflow_exports(entrypoints.push(c)) == legacy_workflow_exports(entrypoints) + (
        "export class "@ + c
            + " extends WorkflowEntrypoint {\n  constructor(ctx, env) {\n    super(ctx, env);\n    this.inner = new imports."@
            + c
            + "(ctx, env);\n  }\n\n  run(event, step) {\n    return this.inner.run(event, step);\n  }\n}\n"@),
        legacy_workflow_exports(entrypoints.push(c)).len() > legacy_workflow_exports(
            entrypoints,
        ).len(),
{
    assert(entrypoints.push(c).drop_last() =~= entrypoints);
    reveal_strlit("export class ");
}

/// The runtime receives a step type as its variant's name in camelCase,
/// and distinct step types under distinct names.
pub proof fn law_step_type_names(a: WorkflowStepType, b: WorkflowStepType)
    ensures
        WorkflowStepType::Do.shape() == JsonView::Str("do"@),
        WorkflowStepType::Sleep.shape() == JsonView::Str("sleep"@),
        WorkflowStepType::WaitForEvent.shape() == JsonView::Str("waitForEvent"@),
        step_type_name(a) == step_type_name(b) ==> a == b,
{
    reveal_strlit("do");
    reveal_strlit("sleep");
    reveal_strlit("waitForEvent");
    if step_type_name(a) == step_type_name(b) && a != b {
        assert(step_type_name(a).len() != step_type_name(b).len() || step_type_name(a)[0]
            != step_type_name(b)[0]);
    }
}

} // verus!
