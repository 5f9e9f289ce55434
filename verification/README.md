# worker

A verified library for the Cloudflare Workers Rust tooling, written in Verus.

- `src/` is the library. `exports` reads the exports of a wasm-bindgen
  JavaScript module line by line; `shim` renders the entrypoint handlers,
  the class proxies and the Workflow entrypoint subclasses; `package`
  rewrites `package.json` through `serde_json`; `commands` builds the
  command lines of wasm-pack, esbuild and the coredump rewriter; `artifacts`
  and `workflows` hold the binding options (with the JSON the runtime
  receives, built in `json`), results and metadata; `entrypoint` holds the
  checks and marker of `#[workflow]` and the decisions of the test Workflow;
  `laws` states the properties that span these functions.
- `app/` is the program around it: file and process I/O of `worker-build`,
  the JavaScript runtime handles, and the `#[workflow]` expansion.
- `tests/` runs the library on concrete inputs.
