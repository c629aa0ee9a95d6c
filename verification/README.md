# reflex_wasm

The WebAssembly back end of the Reflex runtime: a typed stack-machine compiler and the
module plumbing around it, written in Verus with its behaviour stated as contracts and proved.

## Layout

- `src/compiler/` — the stack-machine compiler: value types and signatures
  (`signature.rs`), the typed compiler stack and its lexical-scope bindings (`stack.rs`,
  `bindings.rs`), the instruction set and its typing rules (`instruction/`), the block
  builder (`builder.rs`), the runtime builtins and globals that compiled code calls
  (`runtime/`, `globals.rs`), type errors and their messages (`error.rs`), the WebAssembly
  type mapping and code generation bookkeeping (`wasm/`: generator bindings, compiled-function
  mappings, generated instruction lists with block-depth branches, the runtime's hash
  functions, the binding of function-template variables and the mapping of a template's items
  onto the target module's, in `import_function.rs`), and the laws that relate the
  stack operations (`laws.rs`).
- `src/cli/` — module-level compilation support: entry-point naming and root configuration
  parsing, locating the runtime's exports, reading the inline heap snapshot of a module,
  function tables, ordering compiled functions by call graph depth (`call_graph.rs`), and
  adding an entry point to a module (`entry_point.rs`).
- `src/compile.rs` — the direct term compiler's view of the runtime module.
- `src/allocator.rs`, `src/cache.rs`, `src/pointer.rs` — the heap arena, the layout of the
  evaluation cache in it, and arena pointers.
- `src/exports.rs` — the logic behind the host functions the runtime imports.
- `src/wasm_module.rs` — a parsed WebAssembly module (through `walrus`) and the plain-value
  views of it that the rest of the library works on.
- `src/text.rs` — decimal numbers and lists as text, for messages.
- `app/main.rs` — a command-line tool that adds an entry point to a compiled module.
- `tests/` — tests of the library on concrete values.
