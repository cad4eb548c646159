# wasm_compose

A host for WebAssembly component plugins that offers them a desktop GUI:
plugins create UIs and windows as resources, and one GUI thread owns the
toolkit objects behind them.

`src/` is the library, with its contracts and proofs:

- `gui_thread` — the GUI thread's registries of UIs and windows, the handles
  it hands out, and how it carries out each command (`process_command`).
  The toolkit is reached through closures passed in by the caller.
- `gui_commands` — the commands sent to the GUI thread and the one-shot reply
  slots through which it answers.
- `socket` — the container of the plugins that fill an interface's socket,
  by cardinality, with `map`, `map_mut`, `get` and `into_collected`.
- `window`, `ids`, `resource_errors`, `text` — handles stored as resources,
  plugin and interface identifiers, resource errors, decimal text.
- `laws` — properties that relate several operations.

`app/` is ordinary Rust around it: the wasmtime host bindings, the libui
toolkit calls and the GUI thread's loop, the plugin store data, and the error
types with their derived traits.
