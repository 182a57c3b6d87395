# wasmer_js

The host side of a WASIX runtime running in a browser, as a Verus library.

- `src/path.rs` — rooting of paths handed to the file system, and the chain
  of a path's ancestors.
- `src/hooks.rs` — the hooks a JavaScript host installs; the one-shot
  `populate` hook.
- `src/fs.rs` — the calls into the in-memory file system of `virtual_fs`.
- `src/directory.rs` — directories backed by that file system: listing,
  creating, removing, read-only files, and building one from a record of
  paths and contents.
- `src/copipe.rs` — a pipe served by JavaScript callbacks.
- `src/run.rs` — the decisions made when a program is started.
- `src/tty.rs` — the terminal's end-of-input event and the input-copying
  task's decisions.
- `src/js.rs` — the calls into the JavaScript host.

`app/` holds the bindings around the library: the trait implementations the
runtime calls and the reads and writes of file contents, which wait.

`virtual-fs` is used with its `js` feature: its in-memory file system stamps
times on every change, and in the browser `std::time::SystemTime::now`
panics, while the feature takes the time from JavaScript (through
`web-time`). `wasmer-types`, which `virtual-fs` depends on, is named only
to hold it at 7.4.2, as later versions need a newer Rust compiler; nothing
calls it.

`wasmer` and `wasmer-wasix` are not dependencies: with them the dependency
graph holds about 500 packages (493 with their default features off), far
more than a library of this size should pull in. So starting a program,
loading a module, exposing the runtime's own file system as a directory,
and the terminal's line discipline are not here; the decisions they make
that need no runtime (`run::program_name`, `run::check_module_bytes`,
`tty::stdin_step`) are. A directory is always backed by the in-memory file
system.

The bindings in `app/` are plain Rust types without the `wasm_bindgen`
attribute macros, so they carry no JavaScript exports.
