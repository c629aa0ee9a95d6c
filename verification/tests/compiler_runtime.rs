use reflex_wasm::compiler::globals::RuntimeGlobal;
use reflex_wasm::compiler::runtime::builtin::{RuntimeBuiltin, RUNTIME_BUILTIN_COUNT};
use reflex_wasm::compiler::signature::{ParamsSignature, ValueType};
use reflex_wasm::cli::compile::Arity;
use reflex_wasm::compiler::signature::ValueType as GeneratorValueType;
use reflex_wasm::compiler::wasm::generate::{
    hash_function_ids, RuntimeStdlibMappings, template_variable_bindings, HashFunctionIds, NonEmptyStack, RuntimeBuiltinMappings, RuntimeExportMappings,
    RuntimeGlobalMappings, WasmBlockType, WasmCompiledFunctionMappings, WasmGeneratorBindings,
    WasmGeneratorError, WasmGeneratorOutput, WasmInstruction,
};
use reflex_wasm::compiler::CompiledFunctionId;
use reflex_wasm::wasm_module::{ExportEntry, ExportTarget, ImportEntry};

fn export_mappings() -> RuntimeExportMappings {
    RuntimeExportMappings {
        globals: RuntimeGlobalMappings { null_pointer: 7 },
        builtins: RuntimeBuiltinMappings { functions: (0..RUNTIME_BUILTIN_COUNT as u32).map(|index| Some(index + 100)).collect() },
        stdlib: RuntimeStdlibMappings { functions: vec![200, 201] },
    }
}

#[test]
fn builtins_are_exported_under_their_runtime_names() {
    assert_eq!(RuntimeBuiltin::Initialize.name(), "_initialize");
    assert_eq!(RuntimeBuiltin::Evaluate.name(), "evaluate");
    assert_eq!(RuntimeBuiltin::CombineSignals.name(), "combineSignals");
    assert_eq!(RuntimeGlobal::NullPointer.name(), "NULL");
}

#[test]
fn builtin_signatures() {
    let initialize = RuntimeBuiltin::Initialize.signature();
    assert!(matches!(initialize.params, ParamsSignature::Void));
    assert!(matches!(initialize.results, ParamsSignature::Void));
    let apply = RuntimeBuiltin::Apply.signature();
    assert!(matches!(apply.params, ParamsSignature::Pair(ValueType::HeapPointer, ValueType::HeapPointer)));
    assert!(matches!(apply.results, ParamsSignature::Single(ValueType::HeapPointer)));
}

#[test]
fn builtin_positions_enumerate_every_builtin_once() {
    let mut names = Vec::new();
    for position in 0..RUNTIME_BUILTIN_COUNT {
        names.push(RuntimeBuiltin::from_position(position).name());
    }
    assert_eq!(names[0], "_initialize");
    let mut unique = names.clone();
    unique.sort();
    unique.dedup();
    assert_eq!(unique.len(), RUNTIME_BUILTIN_COUNT);
}

#[test]
fn non_empty_stack_keeps_its_first_value() {
    let mut stack = NonEmptyStack::new(1u32);
    stack.push(2);
    stack.push(3);
    assert_eq!(stack.pop(), Some(3));
    assert_eq!(stack.current, 2);
    assert_eq!(stack.pop(), Some(2));
    assert_eq!(stack.pop(), None);
    assert_eq!(stack.current, 1);
}

#[test]
fn scopes_map_to_locals_innermost_first() {
    let mappings = WasmCompiledFunctionMappings::new();
    let exports = export_mappings();
    let mut bindings = WasmGeneratorBindings::new(5, 6, 0, 1, 2, Vec::new(), &mappings, &exports);
    assert_eq!((bindings.state_id(), bindings.dependencies_id(), bindings.temp_id()), (0, 1, 2));
    assert_eq!(bindings.enter_scope(10), 10);
    assert_eq!(bindings.enter_dependencies_scope(11), 11);
    assert_eq!(bindings.dependencies_id(), 11);
    assert_eq!(bindings.get_local(0).ok(), Some(11));
    assert_eq!(bindings.get_local(1).ok(), Some(10));
    assert!(matches!(bindings.get_local(2), Err(WasmGeneratorError::StackError)));
    assert_eq!(bindings.leave_scope(), Some(11));
    assert_eq!(bindings.dependencies_id(), 1);
    assert_eq!(bindings.leave_scope(), Some(10));
    assert_eq!(bindings.leave_scope(), None);
}

#[test]
fn block_offsets_count_only_explicit_blocks() {
    let mappings = WasmCompiledFunctionMappings::new();
    let exports = export_mappings();
    let mut bindings = WasmGeneratorBindings::new(5, 6, 0, 1, 2, Vec::new(), &mappings, &exports);
    bindings.enter_block(WasmBlockType::Explicit);
    bindings.enter_block(WasmBlockType::Implicit);
    bindings.enter_block(WasmBlockType::Explicit);
    assert_eq!(bindings.get_target_block_offset(0), Some(0));
    assert_eq!(bindings.get_target_block_offset(1), Some(2));
    assert_eq!(bindings.get_target_block_offset(2), None);
    assert_eq!(bindings.leave_block(), Some(WasmBlockType::Explicit));
    assert_eq!(bindings.get_target_block_offset(0), Some(1));
}

#[test]
fn compiled_function_mappings_keep_the_latest_entry() {
    let mut mappings = WasmCompiledFunctionMappings::default();
    let id = CompiledFunctionId(42);
    assert_eq!(mappings.get_function_id(id), None);
    mappings.insert(id, 3, 4, Arity { required: 1, optional: 0, variadic: false });
    mappings.insert(CompiledFunctionId(43), 8, 9, Arity { required: 0, optional: 0, variadic: true });
    mappings.insert(id, 5, 6, Arity { required: 2, optional: 1, variadic: false });
    assert_eq!(mappings.get_function_id(id), Some(5));
    assert_eq!(mappings.get_indirect_call_function_index(id), Some(6));
    assert_eq!(mappings.get_function_arity(id), Some(Arity { required: 2, optional: 1, variadic: false }));
    assert_eq!(mappings.get_function_id(CompiledFunctionId(43)), Some(8));
    assert_eq!(mappings.get_function_arity(CompiledFunctionId(44)), None);
}

#[test]
fn bindings_expose_memory_table_runtime_and_compiled_functions() {
    let mut mappings = WasmCompiledFunctionMappings::new();
    mappings.insert(CompiledFunctionId(1), 30, 31, Arity { required: 0, optional: 0, variadic: false });
    let exports = export_mappings();
    let bindings = WasmGeneratorBindings::new(5, 6, 0, 1, 2, vec![10, 11], &mappings, &exports);
    assert_eq!((bindings.memory_id(), bindings.main_function_table_id(), bindings.null_pointer()), (5, 6, 7));
    assert_eq!(bindings.builtins().get(RuntimeBuiltin::Initialize), Some(100));
    assert_eq!(bindings.get_compiled_function_id(CompiledFunctionId(1)), Some(30));
    assert_eq!(bindings.get_compiled_function_indirect_call_function_index(CompiledFunctionId(1)), Some(31));
    assert_eq!(bindings.get_compiled_function_id(CompiledFunctionId(2)), None);
    assert_eq!(bindings.get_local(0).ok(), Some(11));
    assert_eq!(bindings.get_local(1).ok(), Some(10));
}

#[test]
fn breaks_are_translated_to_webassembly_block_depths() {
    let mappings = WasmCompiledFunctionMappings::new();
    let exports = export_mappings();
    let mut bindings = WasmGeneratorBindings::new(5, 6, 0, 1, 2, Vec::new(), &mappings, &exports);
    bindings.enter_block(WasmBlockType::Explicit);
    bindings.enter_block(WasmBlockType::Implicit);
    let mut output = WasmGeneratorOutput::default();
    output.push(walrus::ir::Instr::Unreachable(walrus::ir::Unreachable {}));
    assert!(output.br(0, &bindings).is_ok());
    assert!(output.br_if(0, &bindings).is_ok());
    assert!(matches!(output.br(1, &bindings), Err(WasmGeneratorError::InvalidBlockOffset(1))));
    assert!(matches!(output.br_if(1, &bindings), Err(WasmGeneratorError::InvalidBlockOffset(1))));
    let instructions = output.instructions();
    assert_eq!(instructions.len(), 3);
    assert!(matches!(instructions[0], WasmInstruction::Instruction(walrus::ir::Instr::Unreachable(_))));
    assert!(matches!(instructions[1], WasmInstruction::Break { target_block: 1 }));
    assert!(matches!(instructions[2], WasmInstruction::ConditionalBreak { target_block: 1 }));
    let mut chunk = WasmGeneratorOutput::new();
    assert!(chunk.br(0, &bindings).is_ok());
    output.push_chunk(chunk);
    assert_eq!(output.instructions().len(), 4);
}

fn function_export(name: &str, index: u32) -> ExportEntry {
    ExportEntry { name: String::from(name), target: ExportTarget::Function(index) }
}

#[test]
fn hash_functions_are_found_among_the_exports() {
    let exports = vec![
        function_export("writeTermHash", 1),
        function_export("writeI32Hash", 2),
        function_export("writeI64Hash", 3),
        function_export("writeF32Hash", 4),
        function_export("writeF64Hash", 5),
        function_export("writeI32Hash", 6),
    ];
    let ids = hash_function_ids(&exports).unwrap();
    assert_eq!(ids, HashFunctionIds { write_term: 1, write_i32: 6, write_i64: 3, write_f32: 4, write_f64: 5 });
    assert_eq!(ids.get(GeneratorValueType::HeapPointer), Some(1));
    assert_eq!(ids.get(GeneratorValueType::U32), Some(6));
    assert_eq!(ids.get(GeneratorValueType::FunctionPointer), Some(6));
    assert_eq!(ids.get(GeneratorValueType::U64), Some(3));
    assert_eq!(ids.get(GeneratorValueType::F32), Some(4));
    assert_eq!(ids.get(GeneratorValueType::F64), Some(5));
}

#[test]
fn missing_hash_functions_are_reported_in_order() {
    let exports = vec![
        function_export("writeTermHash", 1),
        ExportEntry { name: String::from("writeI32Hash"), target: ExportTarget::Global(2) },
        function_export("writeF64Hash", 5),
    ];
    assert_eq!(hash_function_ids(&exports).err(), Some(String::from("Invalid module export: \"writeI32Hash\"")));
    assert_eq!(hash_function_ids(&Vec::new()).err(), Some(String::from("Invalid module export: \"writeTermHash\"")));
}

fn import(module: &str, name: &str, kind: ExportTarget) -> ImportEntry {
    ImportEntry { module: String::from(module), name: String::from(name), kind }
}

#[test]
fn template_variables_are_bound_to_predefined_functions_and_target_exports() {
    let imports = vec![
        import("env", "abort", ExportTarget::Function(0)),
        import("$", "__INNER", ExportTarget::Function(1)),
        import("$", "__HASH", ExportTarget::Function(2)),
        import("$", "__ARGS", ExportTarget::Function(3)),
        import("$", "memory", ExportTarget::Memory(0)),
        import("$", "NULL", ExportTarget::Global(0)),
    ];
    let exports = vec![
        ExportEntry { name: String::from("memory"), target: ExportTarget::Memory(4) },
        ExportEntry { name: String::from("NULL"), target: ExportTarget::Global(5) },
        ExportEntry { name: String::from("NULL"), target: ExportTarget::Global(6) },
    ];
    let bindings = template_variable_bindings(&imports, &exports, 10, 11, 12).ok().unwrap();
    assert_eq!(
        bindings,
        vec![
            (String::from("__INNER"), ExportTarget::Function(10)),
            (String::from("__HASH"), ExportTarget::Function(11)),
            (String::from("__ARGS"), ExportTarget::Function(12)),
            (String::from("memory"), ExportTarget::Memory(4)),
            (String::from("NULL"), ExportTarget::Global(6)),
        ]
    );
}

#[test]
fn template_variables_that_cannot_be_bound_are_reported() {
    let exports = vec![ExportEntry { name: String::from("memory"), target: ExportTarget::Memory(4) }];
    let mismatched = vec![import("$", "memory", ExportTarget::Global(0)), import("$", "missing", ExportTarget::Table(0))];
    match template_variable_bindings(&mismatched, &exports, 10, 11, 12) {
        Err(error) => {
            assert!(matches!(
                &error,
                WasmGeneratorError::InvalidModuleImport { expected, received: Some(ExportTarget::Memory(4)) } if expected.name == "memory"
            ));
            assert_eq!(error.to_string(), "Invalid module import: Expected $.memory Global(0), received Memory(4)");
        },
        Ok(_) => panic!("expected an error"),
    }
    let missing = vec![import("$", "__INNER", ExportTarget::Global(1))];
    match template_variable_bindings(&missing, &exports, 10, 11, 12) {
        Err(error) => assert_eq!(error.to_string(), "Invalid module import: Expected $.__INNER Global(1), received None"),
        Ok(_) => panic!("expected an error"),
    }
}

#[test]
fn bindings_find_standard_library_functions_by_position() {
    let mappings = WasmCompiledFunctionMappings::new();
    let exports = export_mappings();
    let bindings = WasmGeneratorBindings::new(5, 6, 0, 1, 2, Vec::new(), &mappings, &exports);
    assert_eq!(bindings.get_stdlib_function_id(1), Some(201));
    assert_eq!(bindings.get_stdlib_function_id(2), None);
}
