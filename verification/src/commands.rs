//! The command lines of the tools the build runs.

use vstd::prelude::*;
use vstd::string::*;

use crate::exports::texts;
use crate::text::{chars_of, find_char, find_char_in, string_of_range};

verus! {

broadcast use vstd::string::group_string_axioms;

/// Appends a copy of `s` to a list of arguments.
fn push_text(v: &mut Vec<String>, s: &str)
    ensures
        texts(final(v)@) == texts(old(v)@).push(s@),
{
    v.push(String::from_str(s));
    assert(texts(v@) =~= texts(old(v)@).push(s@));
}

/// The arguments handed to `wasm-pack`'s option parser: the program name,
/// the Worker defaults (no TypeScript, the `module` target, output named
/// `index`), then the user's arguments, which may override them.
pub open spec fn wasm_pack_arguments(program: Seq<char>, user: Seq<Seq<char>>) -> Seq<Seq<char>> {
    seq![program, "--no-typescript"@, "--target"@, "module"@, "--out-name"@, "index"@] + user
}

/// Builds the argument list for `wasm-pack`'s option parser.
pub fn wasm_pack_args(program: &str, user: Vec<String>) -> (r: Vec<String>)
    ensures
        texts(r@) == wasm_pack_arguments(program@, texts(user@)),
{
    let mut r: Vec<String> = Vec::new();
    assert(texts(r@) =~= seq![]);
    push_text(&mut r, program);
    push_text(&mut r, "--no-typescript");
    push_text(&mut r, "--target");
    push_text(&mut r, "module");
    push_text(&mut r, "--out-name");
    push_text(&mut r, "index");
    let ghost head = texts(r@);
    let mut i: usize = 0;
    while i < user.len()
        invariant
            i <= user.len(),
            texts(r@) == head + texts(user@).take(i as int),
        decreases user.len() - i,
    {
        let ghost before = r@;
        r.push(user[i].clone());
        assert(texts(r@) =~= texts(before).push(user@[i as int]@));
        assert(texts(user@).take(i + 1) =~= texts(user@).take(i as int).push(user@[i as int]@));
        assert(texts(r@) =~= head + texts(user@).take(i + 1));
        i = i + 1;
    }
    assert(texts(user@).take(i as int) =~= texts(user@));
    r
}

/// The arguments of the `esbuild` run that bundles the shim into `index.js`:
/// the runtime's modules stay external, and the output is minified unless
/// the user asked otherwise.
pub open spec fn esbuild_arguments(minify: bool) -> Seq<Seq<char>> {
    let base = seq![
        "--external:./index_bg.wasm"@,
        "--external:cloudflare:email"@,
        "--external:cloudflare:sockets"@,
        "--external:cloudflare:workers"@,
        "--external:cloudflare:workflows"@,
        "--format=esm"@,
        "--bundle"@,
        "./shim.js"@,
        "--outfile=index.js"@,
        "--allow-overwrite"@,
    ];
    if minify {
        base.push("--minify"@)
    } else {
        base
    }
}

/// Builds the argument list of the bundling `esbuild` run.
pub fn esbuild_args(minify: bool) -> (r: Vec<String>)
    ensures
        texts(r@) == esbuild_arguments(minify),
{
    let mut r: Vec<String> = Vec::new();
    assert(texts(r@) =~= seq![]);
    push_text(&mut r, "--external:./index_bg.wasm");
    push_text(&mut r, "--external:cloudflare:email");
    push_text(&mut r, "--external:cloudflare:sockets");
    push_text(&mut r, "--external:cloudflare:workers");
    push_text(&mut r, "--external:cloudflare:workflows");
    push_text(&mut r, "--format=esm");
    push_text(&mut r, "--bundle");
    push_text(&mut r, "./shim.js");
    push_text(&mut r, "--outfile=index.js");
    push_text(&mut r, "--allow-overwrite");
    if minify {
        push_text(&mut r, "--minify");
    }
    assert(texts(r@) =~= esbuild_arguments(minify));
    r
}

/// `s` split at every space, as `str::split(' ')` does: `n` spaces give
/// `n + 1` pieces, some of them possibly empty.
pub open spec fn split_spaces(s: Seq<char>) -> Seq<Seq<char>>
    decreases s.len(),
{
    match find_char(s, ' ') {
        Some(i) => if 0 <= i < s.len() {
            seq![s.take(i)] + split_spaces(s.skip(i + 1))
        } else {
            seq![s]
        },
        None => seq![s],
    }
}

/// The flags handed to `wasm-coredump-rewriter`: the value of
/// `COREDUMP_FLAGS` split at spaces, or none when it is unset.
pub open spec fn coredump_arguments(flags: Option<Seq<char>>) -> Seq<Seq<char>> {
    match flags {
        Some(f) => split_spaces(f),
        None => seq![],
    }
}

/// Builds the flags of the coredump rewriter from `COREDUMP_FLAGS`.
pub fn coredump_flags(flags: Option<&str>) -> (r: Vec<String>)
    ensures
        texts(r@) == coredump_arguments(
            match flags {
                Some(f) => Some(f@),
                None => None,
            },
        ),
{
    let mut r: Vec<String> = Vec::new();
    assert(texts(r@) =~= seq![]);
    let f = match flags {
        Some(f) => f,
        None => return r,
    };
    let cs = chars_of(f);
    let n = cs.len();
    let mut pos: usize = 0;
    assert(cs@.skip(0) =~= cs@);
    loop
        invariant
            pos <= n == cs.len(),
            cs@ == f@,
            flags == Some(f),
            split_spaces(f@) == texts(r@) + split_spaces(cs@.skip(pos as int)),
        decreases n - pos,
    {
        let ghost rest = cs@.skip(pos as int);
        assert(rest =~= cs@.subrange(pos as int, n as int));
        proof {
            crate::exports::lemma_find_char_bounds(rest, ' ');
        }
        match find_char_in(&cs, pos, n, ' ') {
            Some(e) => {
                let piece = string_of_range(&cs, pos, e);
                assert(rest.take(e - pos) =~= piece@);
                assert(rest.skip(e - pos + 1) =~= cs@.skip(e + 1));
                let ghost before = texts(r@);
                r.push(piece);
                assert(texts(r@) =~= before.push(piece@));
                assert(before + split_spaces(rest) =~= texts(r@) + split_spaces(cs@.skip(e + 1)));
                pos = e + 1;
            },
            None => {
                let piece = string_of_range(&cs, pos, n);
                assert(piece@ =~= rest);
                let ghost before = texts(r@);
                r.push(piece);
                assert(texts(r@) =~= before.push(piece@));
                assert(split_spaces(rest) == seq![rest]);
                assert(before + split_spaces(rest) =~= texts(r@));
                assert(texts(r@) == split_spaces(f@));
                return r;
            },
        }
    }
}

} // verus!
