use vstd::prelude::*;
use vstd::string::StringExecFns;

use crate::pointer::NULL_POINTER_ADDRESS;
use crate::wasm_module::{
    add_entry_point_function, emit_wasm_module, first_function_export, module_exports,
    parse_wasm_module, wasm_exports, wasm_parses, wasm_with_entry_point, error_display, ExportEntry, ExportTarget,
};

verus! {

/// A failure to add an entry point to a WebAssembly module.
#[derive(Debug)]
pub enum WasmEntryPointError {
    ModuleLoadError(anyhow::Error),
    FunctionNotFound(String),
    InvalidAstTransformation,
}

impl WasmEntryPointError {
    /// The error message. That of a module that failed to load ends with the loader's own
    /// account of the failure.
    pub fn to_string(&self) -> (result: String)
        ensures
            match self {
                WasmEntryPointError::ModuleLoadError(_) => "Failed to load WASM module: "@.is_prefix_of(result@),
                WasmEntryPointError::FunctionNotFound(name) => result@ == "Function definition not found: "@ + name@,
                WasmEntryPointError::InvalidAstTransformation => result@ == "Invalid AST transformation"@,
            },
    {
        match self {
            WasmEntryPointError::ModuleLoadError(error) => {
                let text = String::from_str("Failed to load WASM module: ").concat(error_display(error).as_str());
                assert("Failed to load WASM module: "@.is_prefix_of(text@));
                text
            },
            WasmEntryPointError::FunctionNotFound(name) => String::from_str("Function definition not found: ").concat(name.as_str()),
            WasmEntryPointError::InvalidAstTransformation => String::from_str("Invalid AST transformation"),
        }
    }
}

/// The state pointer that an entry point passes: the given one, or the null pointer.
pub fn entry_point_state_pointer(state_pointer: Option<u32>) -> (result: u32)
    ensures
        result == match state_pointer {
            Some(pointer) => pointer,
            None => NULL_POINTER_ADDRESS,
        },
{
    match state_pointer {
        Some(pointer) => pointer,
        None => NULL_POINTER_ADDRESS,
    }
}

/// Finds the first function exported under `name`.
pub fn find_function_export(exports: &Vec<ExportEntry>, name: &str) -> (result: Option<u32>)
    ensures
        result == first_function_export(exports@.map_values(|export: ExportEntry| export@), name@),
{
    let ghost views = exports@.map_values(|export: ExportEntry| export@);
    let mut index: usize = 0;
    assert(views.subrange(0, views.len() as int) =~= views);
    while index < exports.len()
        invariant
            index <= exports@.len(),
            views == exports@.map_values(|export: ExportEntry| export@),
            first_function_export(views, name@) == first_function_export(views.subrange(index as int, views.len() as int), name@),
        decreases exports.len() - index,
    {
        let ghost rest = views.subrange(index as int, views.len() as int);
        proof {
            assert(rest.drop_first() =~= views.subrange(index + 1int, views.len() as int));
            assert(rest[0] == exports@[index as int]@);
        }
        let export = &exports[index];
        if String::from_str(name) == export.name {
            match export.target {
                ExportTarget::Function(function) => {
                    return Some(function);
                },
                _ => {},
            }
        }
        index = index + 1;
    }
    None
}

/// Adds to a WebAssembly module an exported function of no parameters that evaluates the term
/// at `expression_pointer` against the state at `state_pointer` (the null pointer where none is
/// given) by calling the module's exported `evaluate` function, and returns the new binary.
/// The module must parse and export a function named `evaluate`.
pub fn add_module_entry_point(
    wasm_bytes: &[u8],
    export_name: &str,
    expression_pointer: u32,
    state_pointer: Option<u32>,
) -> (result: Result<Vec<u8>, WasmEntryPointError>)
    ensures
        !wasm_parses(wasm_bytes@) <==> result matches Err(WasmEntryPointError::ModuleLoadError(_)),
        wasm_parses(wasm_bytes@) ==> (first_function_export(wasm_exports(wasm_bytes@), "evaluate"@) is None
            <==> result matches Err(WasmEntryPointError::FunctionNotFound(name))),
        result matches Err(WasmEntryPointError::FunctionNotFound(name)) ==> name@ == "evaluate"@,
        result matches Ok(bytes) ==> bytes@ == wasm_with_entry_point(
            wasm_bytes@,
            export_name@,
            expression_pointer,
            match state_pointer {
                Some(pointer) => pointer,
                None => NULL_POINTER_ADDRESS,
            },
            "evaluate"@,
        ),
        !(result matches Err(WasmEntryPointError::InvalidAstTransformation)),
{
    let mut module = match parse_wasm_module(wasm_bytes) {
        Ok(module) => module,
        Err(error) => {
            return Err(WasmEntryPointError::ModuleLoadError(error));
        },
    };
    let exports = module_exports(&module);
    proof {
        assert(exports@.map_values(|export: ExportEntry| export@) =~= wasm_exports(wasm_bytes@));
    }
    match find_function_export(&exports, "evaluate") {
        None => Err(WasmEntryPointError::FunctionNotFound(String::from_str("evaluate"))),
        Some(_) => {
            let state = entry_point_state_pointer(state_pointer);
            add_entry_point_function(&mut module, export_name, expression_pointer, state, "evaluate");
            Ok(emit_wasm_module(module))
        },
    }
}

} // verus!
