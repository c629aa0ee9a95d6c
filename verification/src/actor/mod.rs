//! Configuration of the actor that runs compiled modules.
pub mod wasm_interpreter;
