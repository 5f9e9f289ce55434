//! Discovery of the exports in wasm-bindgen's JavaScript output, and the
//! wrappers that the Worker shim adds around them.

use vstd::prelude::*;
use vstd::string::*;

use crate::error::{BuildError, BuildErrorView};
use crate::text::{
    chars_of, find_char, find_char_in, find_seq, find_seq_in, occurs_at, starts_with, starts_with_at,
    string_of_range, trim, trim_range,
};

verus! {

broadcast use vstd::string::group_string_axioms;

/// The prefix of the exported marker functions that `#[workflow]` emits for
/// each Workflow entrypoint class.
pub open spec fn marker_prefix() -> Seq<char> {
    "__worker_workflow_entrypoint_"@
}

/// The exports of a wasm-bindgen module that the shim must forward.
#[derive(Debug, Default, PartialEq, Eq)]
pub struct WasmExports {
    pub functions: Vec<String>,
    pub classes: Vec<String>,
    pub workflow_entrypoints: Vec<String>,
}

/// The abstract value of `WasmExports`: three lists of names.
pub struct WasmExportsView {
    pub functions: Seq<Seq<char>>,
    pub classes: Seq<Seq<char>>,
    pub workflow_entrypoints: Seq<Seq<char>>,
}

/// The texts of a list of strings.
pub open spec fn texts(v: Seq<String>) -> Seq<Seq<char>> {
    v.map_values(|s: String| s@)
}

impl View for WasmExports {
    type V = WasmExportsView;

    open spec fn view(&self) -> WasmExportsView {
        WasmExportsView {
            functions: texts(self.functions@),
            classes: texts(self.classes@),
            workflow_entrypoints: texts(self.workflow_entrypoints@),
        }
    }
}

/// The exports found before reading any line.
pub open spec fn no_exports() -> WasmExportsView {
    WasmExportsView { functions: seq![], classes: seq![], workflow_entrypoints: seq![] }
}

// ---------------------------------------------------------------------------
// Lines

/// `l` without one trailing carriage return.
pub open spec fn strip_cr(l: Seq<char>) -> Seq<char> {
    if l.len() > 0 && l.last() == '\r' {
        l.drop_last()
    } else {
        l
    }
}

/// `find_char` gives the first position that holds the character.
pub proof fn lemma_find_char_bounds(s: Seq<char>, c: char)
    ensures
        find_char(s, c) matches Some(i) ==> 0 <= i < s.len() && s[i] == c && forall|j: int|
            0 <= j < i ==> s[j] != c,
        find_char(s, c) is None ==> forall|j: int| 0 <= j < s.len() ==> s[j] != c,
    decreases s.len(),
{
    if s.len() > 0 && s[0] != c {
        lemma_find_char_bounds(s.drop_first(), c);
        assert forall|j: int| 0 < j < s.len() implies s[j] == s.drop_first()[j - 1] by {}
    }
}

/// The lines of `s`, as `str::lines` yields them: split at `\n`, a `\r`
/// directly before it dropped, and no empty line after a final `\n`.
pub open spec fn lines(s: Seq<char>) -> Seq<Seq<char>>
    decreases s.len(),
{
    if s.len() == 0 {
        seq![]
    } else {
        match find_char(s, '\n') {
            Some(i) => {
                proof {
                    lemma_find_char_bounds(s, '\n');
                }
                seq![strip_cr(s.take(i))] + lines(s.skip(i + 1))
            },
            None => seq![s],
        }
    }
}

// ---------------------------------------------------------------------------
// Reading one line

/// Whether `c` may start a JavaScript identifier (ASCII letters, `_`, `$`).
pub open spec fn is_identifier_start(c: char) -> bool {
    ('a' <= c && c <= 'z') || ('A' <= c && c <= 'Z') || c == '_' || c == '$'
}

/// Whether `c` may continue a JavaScript identifier (ASCII alphanumerics, `_`, `$`).
pub open spec fn is_identifier_part(c: char) -> bool {
    ('a' <= c && c <= 'z') || ('A' <= c && c <= 'Z') || ('0' <= c && c <= '9') || c == '_' || c
        == '$'
}

/// Whether `s` is a JavaScript identifier of the restricted form the build accepts.
pub open spec fn is_javascript_identifier(s: Seq<char>) -> bool {
    &&& s.len() > 0
    &&& is_identifier_start(s[0])
    &&& forall|i: int| 1 <= i < s.len() ==> is_identifier_part(#[trigger] s[i])
}

/// The function name that a line exports, if it exports one:
/// `export function NAME(` or `export { ... as NAME }`.
pub open spec fn exported_function(line: Seq<char>) -> Option<Seq<char>> {
    if starts_with(line, "export function"@) {
        let rest = line.skip("export function"@.len() as int);
        match find_char(rest, '(') {
            Some(p) => Some(trim(rest.take(p))),
            None => None,
        }
    } else if starts_with(line, "export {"@) {
        let rest = line.skip("export {"@.len() as int);
        match find_seq(rest, " as "@) {
            Some(p) => {
                let alias = rest.skip(p + " as "@.len());
                match find_char(alias, '}') {
                    Some(e) => Some(trim(alias.take(e))),
                    None => None,
                }
            },
            None => None,
        }
    } else {
        None
    }
}

/// The class name that a line exports, if it is `export class NAME {`.
pub open spec fn exported_class(line: Seq<char>) -> Option<Seq<char>> {
    if starts_with(line, "export class "@) {
        let rest = line.skip("export class "@.len() as int);
        match find_char(rest, '{') {
            Some(p) => Some(trim(rest.take(p))),
            None => None,
        }
    } else {
        None
    }
}

/// Functions that wasm-bindgen's runtime support exports and the shim never forwards.
pub open spec fn is_system_function(name: Seq<char>) -> bool {
    name == "__wbg_reset_state"@ || name == "__worker_init_state"@
}

/// The exports after reading one more line, or the error that line raises.
pub open spec fn read_line(acc: WasmExportsView, line: Seq<char>) -> Result<
    WasmExportsView,
    BuildErrorView,
> {
    match exported_function(line) {
        Some(f) => if starts_with(f, marker_prefix()) {
            let class_name = f.skip(marker_prefix().len() as int);
            if !is_javascript_identifier(class_name) {
                Err(BuildErrorView::InvalidWorkflowEntrypointName(class_name))
            } else if acc.workflow_entrypoints.contains(class_name) {
                Err(BuildErrorView::DuplicateWorkflowEntrypoint(class_name))
            } else {
                Ok(
                    WasmExportsView {
                        workflow_entrypoints: acc.workflow_entrypoints.push(class_name),
                        ..acc
                    },
                )
            }
        } else if is_system_function(f) {
            Ok(acc)
        } else {
            Ok(WasmExportsView { functions: acc.functions.push(f), ..acc })
        },
        None => match exported_class(line) {
            Some(c) => Ok(WasmExportsView { classes: acc.classes.push(c), ..acc }),
            None => Ok(acc),
        },
    }
}

/// The exports found in a sequence of lines, read in order; the first
/// error stops the reading.
pub open spec fn read_lines(ls: Seq<Seq<char>>) -> Result<WasmExportsView, BuildErrorView>
    decreases ls.len(),
{
    if ls.len() == 0 {
        Ok(no_exports())
    } else {
        match read_lines(ls.drop_last()) {
            Ok(acc) => read_line(acc, ls.last()),
            Err(e) => Err(e),
        }
    }
}

/// The exports that a wasm-bindgen JavaScript module declares.
pub open spec fn discovered_exports(content: Seq<char>) -> Result<WasmExportsView, BuildErrorView> {
    read_lines(lines(content))
}

// ---------------------------------------------------------------------------
// Executable reading

/// Whether `c` may start a JavaScript identifier.
fn identifier_start(c: char) -> (r: bool)
    ensures
        r == is_identifier_start(c),
{
    ('a' <= c && c <= 'z') || ('A' <= c && c <= 'Z') || c == '_' || c == '$'
}

/// Whether `c` may continue a JavaScript identifier.
fn identifier_part(c: char) -> (r: bool)
    ensures
        r == is_identifier_part(c),
{
    ('a' <= c && c <= 'z') || ('A' <= c && c <= 'Z') || ('0' <= c && c <= '9') || c == '_' || c
        == '$'
}

/// Whether `cs[lo..hi]` is a JavaScript identifier.
fn identifier_range(cs: &Vec<char>, lo: usize, hi: usize) -> (r: bool)
    requires
        lo <= hi <= cs.len(),
    ensures
        r == is_javascript_identifier(cs@.subrange(lo as int, hi as int)),
{
    let ghost s = cs@.subrange(lo as int, hi as int);
    if lo == hi || !identifier_start(cs[lo]) {
        return false;
    }
    let mut i = lo + 1;
    while i < hi
        invariant
            lo < i <= hi <= cs.len(),
            s == cs@.subrange(lo as int, hi as int),
            forall|k: int| 1 <= k < i - lo ==> is_identifier_part(#[trigger] s[k]),
        decreases hi - i,
    {
        if !identifier_part(cs[i]) {
            assert(s[i - lo] == cs@[i as int]);
            return false;
        }
        i = i + 1;
    }
    true
}

/// Whether `name` is a JavaScript identifier of the restricted form the
/// build accepts: an ASCII letter, `_` or `$`, then ASCII alphanumerics, `_` or `$`.
pub fn is_valid_javascript_identifier(name: &str) -> (r: bool)
    ensures
        r == is_javascript_identifier(name@),
{
    let cs = chars_of(name);
    assert(cs@.subrange(0, cs@.len() as int) =~= cs@);
    identifier_range(&cs, 0, cs.len())
}

/// The fixed texts that the reader compares lines against.
struct Patterns {
    export_function: Vec<char>,
    export_braces: Vec<char>,
    export_as: Vec<char>,
    export_class: Vec<char>,
    marker: Vec<char>,
    reset_state: Vec<char>,
    init_state: Vec<char>,
}

impl Patterns {
    spec fn wf(&self) -> bool {
        &&& self.export_function@ == "export function"@
        &&& self.export_braces@ == "export {"@
        &&& self.export_as@ == " as "@
        &&& self.export_class@ == "export class "@
        &&& self.marker@ == marker_prefix()
        &&& self.reset_state@ == "__wbg_reset_state"@
        &&& self.init_state@ == "__worker_init_state"@
    }

    fn new() -> (p: Patterns)
        ensures
            p.wf(),
    {
        Patterns {
            export_function: chars_of("export function"),
            export_braces: chars_of("export {"),
            export_as: chars_of(" as "),
            export_class: chars_of("export class "),
            marker: chars_of("__worker_workflow_entrypoint_"),
            reset_state: chars_of("__wbg_reset_state"),
            init_state: chars_of("__worker_init_state"),
        }
    }
}

/// Whether `cs[lo..hi]` is exactly `pat`.
fn range_equals(cs: &Vec<char>, lo: usize, hi: usize, pat: &Vec<char>) -> (r: bool)
    requires
        lo <= hi <= cs.len(),
    ensures
        r == (cs@.subrange(lo as int, hi as int) == pat@),
{
    if hi - lo != pat.len() {
        return false;
    }
    occurs_at(cs, lo, pat)
}

/// The bounds of the function name that `cs[lo..hi]` exports, if any.
fn exported_function_range(cs: &Vec<char>, lo: usize, hi: usize, p: &Patterns) -> (r: Option<
    (usize, usize),
>)
    requires
        lo <= hi <= cs.len(),
        p.wf(),
    ensures
        match exported_function(cs@.subrange(lo as int, hi as int)) {
            Some(f) => r matches Some((a, b)) && lo <= a <= b <= hi && cs@.subrange(
                a as int,
                b as int,
            ) == f,
            None => r is None,
        },
{
    let ghost line = cs@.subrange(lo as int, hi as int);
    if starts_with_at(cs, lo, hi, &p.export_function) {
        let start = lo + p.export_function.len();
        assert(line.skip(p.export_function@.len() as int) =~= cs@.subrange(start as int, hi as int));
        match find_char_in(cs, start, hi, '(') {
            Some(q) => {
                proof {
                    lemma_find_char_bounds(cs@.subrange(start as int, hi as int), '(');
                }
                assert(cs@.subrange(start as int, hi as int).take(q - start) =~= cs@.subrange(
                    start as int,
                    q as int,
                ));
                let (a, b) = trim_range(cs, start, q);
                Some((a, b))
            },
            None => None,
        }
    } else if starts_with_at(cs, lo, hi, &p.export_braces) {
        let start = lo + p.export_braces.len();
        let ghost rest = cs@.subrange(start as int, hi as int);
        assert(line.skip(p.export_braces@.len() as int) =~= rest);
        match find_seq_in(cs, start, hi, &p.export_as) {
            Some(q) => {
                proof {
                    lemma_find_seq_bounds(rest, p.export_as@);
                }
                let alias = q + p.export_as.len();
                assert(rest.skip((q - start) + p.export_as@.len()) =~= cs@.subrange(
                    alias as int,
                    hi as int,
                ));
                match find_char_in(cs, alias, hi, '}') {
                    Some(e) => {
                        proof {
                            lemma_find_char_bounds(cs@.subrange(alias as int, hi as int), '}');
                        }
                        assert(cs@.subrange(alias as int, hi as int).take(e - alias)
                            =~= cs@.subrange(alias as int, e as int));
                        let (a, b) = trim_range(cs, alias, e);
                        Some((a, b))
                    },
                    None => None,
                }
            },
            None => None,
        }
    } else {
        None
    }
}

/// `find_seq` gives a position where the whole pattern fits.
pub proof fn lemma_find_seq_bounds(s: Seq<char>, pat: Seq<char>)
    ensures
        find_seq(s, pat) matches Some(i) ==> 0 <= i && i + pat.len() <= s.len() && s.subrange(
            i,
            i + pat.len(),
        ) == pat,
    decreases s.len(),
{
    if s.len() < pat.len() {
    } else if s.take(pat.len() as int) == pat {
        assert(s.take(pat.len() as int) =~= s.subrange(0, pat.len() as int));
    } else if s.len() == 0 {
    } else {
        lemma_find_seq_bounds(s.drop_first(), pat);
        if let Some(i) = find_seq(s.drop_first(), pat) {
            assert(s.drop_first().subrange(i, i + pat.len()) =~= s.subrange(
                i + 1,
                i + 1 + pat.len(),
            ));
        }
    }
}

/// The bounds of the class name that `cs[lo..hi]` exports, if any.
fn exported_class_range(cs: &Vec<char>, lo: usize, hi: usize, p: &Patterns) -> (r: Option<
    (usize, usize),
>)
    requires
        lo <= hi <= cs.len(),
        p.wf(),
    ensures
        match exported_class(cs@.subrange(lo as int, hi as int)) {
            Some(c) => r matches Some((a, b)) && lo <= a <= b <= hi && cs@.subrange(
                a as int,
                b as int,
            ) == c,
            None => r is None,
        },
{
    let ghost line = cs@.subrange(lo as int, hi as int);
    if starts_with_at(cs, lo, hi, &p.export_class) {
        let start = lo + p.export_class.len();
        assert(line.skip(p.export_class@.len() as int) =~= cs@.subrange(start as int, hi as int));
        match find_char_in(cs, start, hi, '{') {
            Some(q) => {
                proof {
                    lemma_find_char_bounds(cs@.subrange(start as int, hi as int), '{');
                }
                assert(cs@.subrange(start as int, hi as int).take(q - start) =~= cs@.subrange(
                    start as int,
                    q as int,
                ));
                let (a, b) = trim_range(cs, start, q);
                Some((a, b))
            },
            None => None,
        }
    } else {
        None
    }
}

/// Whether a list of names holds `name`.
pub(crate) fn contains_name(names: &Vec<String>, name: &String) -> (r: bool)
    ensures
        r == texts(names@).contains(name@),
{
    let mut i: usize = 0;
    while i < names.len()
        invariant
            i <= names.len(),
            forall|k: int| 0 <= k < i ==> names@[k]@ != name@,
        decreases names.len() - i,
    {
        if names[i] == *name {
            assert(texts(names@)[i as int] == name@);
            return true;
        }
        i = i + 1;
    }
    assert forall|k: int| 0 <= k < texts(names@).len() implies texts(names@)[k] != name@ by {
        assert(texts(names@)[k] == names@[k]@);
    }
    false
}

/// Appends a name to a list, keeping its texts in step.
fn push_name(names: &mut Vec<String>, name: String)
    ensures
        texts(final(names)@) == texts(old(names)@).push(name@),
{
    names.push(name);
    assert(texts(names@) =~= texts(old(names)@).push(name@));
}

/// Reads one line `cs[lo..hi]` into `acc`.
fn read_one_line(cs: &Vec<char>, lo: usize, hi: usize, p: &Patterns, acc: &mut WasmExports) -> (r:
    Result<(), BuildError>)
    requires
        lo <= hi <= cs.len(),
        p.wf(),
    ensures
        match read_line(old(acc)@, cs@.subrange(lo as int, hi as int)) {
            Ok(next) => r is Ok && final(acc)@ == next,
            Err(e) => r matches Err(x) && x@ == e,
        },
{
    match exported_function_range(cs, lo, hi, p) {
        Some((a, b)) => {
            if starts_with_at(cs, a, b, &p.marker) {
                let m = a + p.marker.len();
                assert(cs@.subrange(a as int, b as int).skip(marker_prefix().len() as int)
                    =~= cs@.subrange(m as int, b as int));
                let class_name = string_of_range(cs, m, b);
                if !identifier_range(cs, m, b) {
                    return Err(BuildError::InvalidWorkflowEntrypointName(class_name));
                }
                if contains_name(&acc.workflow_entrypoints, &class_name) {
                    return Err(BuildError::DuplicateWorkflowEntrypoint(class_name));
                }
                push_name(&mut acc.workflow_entrypoints, class_name);
                Ok(())
            } else if range_equals(cs, a, b, &p.reset_state) || range_equals(
                cs,
                a,
                b,
                &p.init_state,
            ) {
                Ok(())
            } else {
                let name = string_of_range(cs, a, b);
                push_name(&mut acc.functions, name);
                Ok(())
            }
        },
        None => {
            match exported_class_range(cs, lo, hi, p) {
                Some((a, b)) => {
                    let name = string_of_range(cs, a, b);
                    push_name(&mut acc.classes, name);
                    Ok(())
                },
                None => Ok(()),
            }
        },
    }
}

/// Finds the functions, classes and Workflow entrypoint markers that a
/// wasm-bindgen JavaScript module exports, reading it line by line.
///
/// A function export whose name starts with the Workflow marker prefix
/// registers the rest of its name as a Workflow entrypoint class; the
/// runtime's own system functions are skipped.
pub fn discover_wasm_exports(content: &str) -> (r: Result<WasmExports, BuildError>)
    ensures
        match discovered_exports(content@) {
            Ok(e) => r matches Ok(x) && x@ == e,
            Err(e) => r matches Err(x) && x@ == e,
        },
{
    let cs = chars_of(content);
    let p = Patterns::new();
    let mut acc = WasmExports {
        functions: Vec::new(),
        classes: Vec::new(),
        workflow_entrypoints: Vec::new(),
    };
    assert(acc@ == no_exports()) by {
        assert(texts(acc.functions@) =~= seq![]);
        assert(texts(acc.classes@) =~= seq![]);
        assert(texts(acc.workflow_entrypoints@) =~= seq![]);
    }
    let ghost mut done: Seq<Seq<char>> = seq![];
    let n = cs.len();
    let mut pos: usize = 0;
    assert(cs@.skip(0) =~= cs@);
    while pos < n
        invariant
            n == cs.len(),
            cs@ == content@,
            p.wf(),
            pos <= n,
            lines(content@) == done + lines(cs@.skip(pos as int)),
            read_lines(done) == Ok::<WasmExportsView, BuildErrorView>(acc@),
        decreases n - pos,
    {
        let ghost rest = cs@.skip(pos as int);
        assert(rest =~= cs@.subrange(pos as int, n as int));
        let (line_end, next) = match find_char_in(&cs, pos, n, '\n') {
            Some(e) => {
                proof {
                    lemma_find_char_bounds(rest, '\n');
                }
                let end = if e > pos && cs[e - 1] == '\r' {
                    e - 1
                } else {
                    e
                };
                proof {
                    assert(rest.take(e - pos) =~= cs@.subrange(pos as int, e as int));
                    assert(strip_cr(rest.take(e - pos)) =~= cs@.subrange(pos as int, end as int));
                    assert(rest.skip(e - pos + 1) =~= cs@.skip(e + 1));
                }
                (end, e + 1)
            },
            None => (n, n),
        };
        let ghost line = cs@.subrange(pos as int, line_end as int);
        assert(lines(rest) == seq![line] + lines(cs@.skip(next as int))) by {
            assert(cs@.skip(n as int) =~= Seq::<char>::empty());
        }
        let step = read_one_line(&cs, pos, line_end, &p, &mut acc);
        proof {
            let ls = done.push(line);
            assert(ls.drop_last() =~= done);
            assert(done + lines(rest) =~= ls + lines(cs@.skip(next as int)));
            done = ls;
        }
        match step {
            Ok(()) => {},
            Err(e) => {
                assert(read_lines(done) == Err::<WasmExportsView, BuildErrorView>(e@));
                proof {
                    lemma_read_lines_error_stays(done, lines(cs@.skip(next as int)));
                }
                return Err(e);
            },
        }
        pos = next;
    }
    assert(cs@.skip(pos as int) =~= Seq::<char>::empty());
    assert(done + seq![] =~= done);
    Ok(acc)
}

/// Once reading fails, reading more lines fails the same way.
pub proof fn lemma_read_lines_error_stays(ls: Seq<Seq<char>>, more: Seq<Seq<char>>)
    requires
        read_lines(ls) is Err,
    ensures
        read_lines(ls + more) == read_lines(ls),
    decreases more.len(),
{
    if more.len() > 0 {
        lemma_read_lines_error_stays(ls, more.drop_last());
        assert((ls + more).drop_last() =~= ls + more.drop_last());
    } else {
        assert(ls + more =~= ls);
    }
}

} // verus!
