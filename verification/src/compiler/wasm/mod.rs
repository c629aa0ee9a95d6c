use vstd::prelude::*;

pub mod generate;
pub mod import_function;
pub mod types;

verus! {

/// Options for turning stack machine instructions into WebAssembly.
#[derive(Debug, Clone, Copy)]
pub struct WasmGeneratorOptions {
    /// Emulate block parameters with locals, for targets that do not support them
    pub disable_block_params: bool,
}

impl WasmGeneratorOptions {
    /// The default options: block parameters are used.
    pub fn default_options() -> (result: WasmGeneratorOptions)
        ensures
            result.disable_block_params == false,
    {
        WasmGeneratorOptions { disable_block_params: false }
    }
}

} // verus!
