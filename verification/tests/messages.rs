use reflex_wasm::cli::compile::WasmCompilerError;
use reflex_wasm::cli::entry_point::WasmEntryPointError;
use reflex_wasm::compile::{RuntimeBuiltin as DirectBuiltin, WasmCompilerError as DirectCompilerError};
use reflex_wasm::compiler::error::{
    CompilerError, InvalidBlockResultTypeError, InvalidLexicalScopeValueTypeError,
    InvalidOperandStackValueTypesError, TypedStackError,
};
use reflex_wasm::compiler::globals::RuntimeGlobal;
use reflex_wasm::compiler::runtime::builtin::RuntimeBuiltin;
use reflex_wasm::compiler::signature::{ParamsSignature, TypeSignature, ValueType};
use reflex_wasm::compiler::stack::CompilerStack;
use reflex_wasm::compiler::wasm::generate::WasmGeneratorError;
use reflex_wasm::compiler::CompiledFunctionId;
use reflex_wasm::text::{decimal, pad_with_zeros};

#[test]
fn numbers_are_written_in_decimal() {
    assert_eq!(decimal(0), "0");
    assert_eq!(decimal(7), "7");
    assert_eq!(decimal(1234567890), "1234567890");
    assert_eq!(decimal(u64::MAX), "18446744073709551615");
    assert_eq!(pad_with_zeros(decimal(42), 8), "00000042");
    assert_eq!(pad_with_zeros(decimal(123456789), 8), "123456789");
}

#[test]
fn signatures_are_written_as_tuples() {
    assert_eq!(ValueType::HeapPointer.to_string(), "<pointer>");
    assert_eq!(ValueType::F32.to_string(), "f32");
    assert_eq!(ParamsSignature::Void.to_string(), "()");
    assert_eq!(ParamsSignature::Pair(ValueType::I32, ValueType::FunctionPointer).to_string(), "(i32, <function>)");
    let signature = TypeSignature::new(ParamsSignature::Single(ValueType::U64), ParamsSignature::Void);
    assert_eq!(signature.to_string(), "(u64) -> ()");
}

#[test]
fn stack_errors_describe_what_was_expected() {
    let operands = InvalidOperandStackValueTypesError {
        expected: ParamsSignature::Single(ValueType::I32),
        received: ParamsSignature::Pair(ValueType::I64, ValueType::U32),
    };
    assert_eq!(operands.to_string(), "Invalid values on operand stack: Expected (i32), received (i64, u32)");
    let scope = InvalidLexicalScopeValueTypeError {
        scope_offset: 1,
        scope_offset_types: vec![ValueType::F64, ValueType::I32],
        expected: ValueType::I64,
        received: Some(ValueType::I32),
    };
    assert_eq!(
        scope.to_string(),
        "Invalid lexical scope value type at scope offset 1: Expected i64, received i32\n 0: f64\n 1: i32"
    );
    let block = InvalidBlockResultTypeError {
        block_types: vec![ParamsSignature::Void],
        expected: ParamsSignature::Single(ValueType::I32),
        received: None,
    };
    assert_eq!(block.to_string(), "Invalid block result type: Expected (i32), received <none>\n 0: ()");
    let error = CompilerStack::new().pop_operand(ValueType::I32).unwrap_err();
    assert_eq!(error.to_string(), "Invalid values on operand stack: Expected (i32), received ()");
    assert!(matches!(error, TypedStackError::InvalidOperandStackValueTypes(_)));
}

#[test]
fn compiler_errors_name_their_cause() {
    assert_eq!(CompilerError::InvalidFunctionTarget(12).to_string(), "Invalid function index: 12");
    assert_eq!(CompilerError::UnboundVariable(3).to_string(), "Unbound variable scope offset 3");
    let error = CompilerStack::new().leave_block(&ParamsSignature::Void).unwrap_err();
    assert_eq!(
        CompilerError::StackError(error).to_string(),
        "Stack error: Invalid block result type: Expected (), received <none>"
    );
}

#[test]
fn generator_and_module_errors_name_their_cause() {
    assert_eq!(CompiledFunctionId(42).to_string(), "<fn:00000042>");
    assert_eq!(WasmGeneratorError::StackError.to_string(), "Invalid stack access");
    assert_eq!(WasmGeneratorError::InvalidCompiledFunction(CompiledFunctionId(7)).to_string(), "Invalid compiled function ID: <fn:00000007>");
    assert_eq!(WasmGeneratorError::InvalidBlockOffset(2).to_string(), "Invalid parent block offset: 2");
    assert_eq!(WasmCompilerError::MemoryNotFound.to_string(), "Memory definition not found");
    assert_eq!(WasmCompilerError::MultipleTables.to_string(), "Multiple indirect function call table definitions");
    assert_eq!(WasmCompilerError::InvalidFunctionId(CompiledFunctionId(5)).to_string(), "Invalid function ID: <fn:00000005>");
    assert_eq!(WasmCompilerError::RuntimeGlobalNotFound(RuntimeGlobal::NullPointer).to_string(), "Runtime global not found: NULL");
    assert_eq!(WasmCompilerError::RuntimeBuiltinNotFound(RuntimeBuiltin::Apply).to_string(), "Runtime function not found: apply");
    assert_eq!(
        WasmCompilerError::GeneratorError(WasmGeneratorError::StackError).to_string(),
        "Failed to generate WASM bytecode: Invalid stack access"
    );
    assert!(WasmCompilerError::ModuleLoadError(anyhow::Error::msg("bad magic")).to_string().starts_with("Failed to load WASM module: bad magic"));
}

#[test]
fn entry_point_and_direct_compiler_errors_name_their_cause() {
    assert_eq!(WasmEntryPointError::FunctionNotFound(String::from("evaluate")).to_string(), "Function definition not found: evaluate");
    assert_eq!(WasmEntryPointError::InvalidAstTransformation.to_string(), "Invalid AST transformation");
    assert_eq!(WasmEntryPointError::ModuleLoadError(anyhow::Error::msg("bad magic")).to_string(), "Failed to load WASM module: bad magic");
    assert_eq!(DirectCompilerError::RuntimeBuiltinNotFound(DirectBuiltin::InitList).to_string(), "Runtime builtin not found: initList");
    assert_eq!(DirectCompilerError::DataSectionNotFound.to_string(), "Data section definition not found");
}
