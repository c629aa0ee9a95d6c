//! A typed stack-machine compiler back end that targets WebAssembly, together with the heap
//! arena, evaluation cache layout and module plumbing that surround it.

pub mod actor;
pub mod allocator;
pub mod cache;
pub mod cli;
pub mod compile;
pub mod compiler;
pub mod exports;
pub mod pointer;
pub mod text;
pub mod wasm_module;
