use reflex_wasm::cli::compile::{
    get_linear_memory_id, get_main_function_table, get_table_initializer, parse_runtime_exports,
    WasmCompilerError as ModuleCompilerError,
};
use reflex_wasm::compile::{
    get_data_section_instruction_id, parse_runtime_builtins, parse_wasm_ast, RuntimeBuiltin,
    WasmCompilerError, RUNTIME_BUILTIN_COUNT,
};
use reflex_wasm::compiler::runtime::builtin::{
    RuntimeBuiltin as GeneratorBuiltin, RUNTIME_BUILTIN_COUNT as GENERATOR_BUILTIN_COUNT,
};
use reflex_wasm::compiler::wasm::generate::{
    get_cached_function_template_substitutions, get_exported_hash_functions, HashFunctionIds,
    WasmGeneratorError,
};
use reflex_wasm::compiler::wasm::import_function::template_module_id_mappings;
use reflex_wasm::wasm_module::ExportTarget;

/// An unsigned LEB128 number.
fn leb(mut value: u32) -> Vec<u8> {
    let mut bytes = Vec::new();
    loop {
        let byte = (value & 0x7f) as u8;
        value >>= 7;
        if value == 0 {
            bytes.push(byte);
            return bytes;
        }
        bytes.push(byte | 0x80);
    }
}

fn name(text: &str) -> Vec<u8> {
    let mut bytes = leb(text.len() as u32);
    bytes.extend_from_slice(text.as_bytes());
    bytes
}

/// A section with the given id whose body lists `entries`.
fn section(id: u8, entries: Vec<Vec<u8>>) -> Vec<u8> {
    let mut body = leb(entries.len() as u32);
    for entry in entries {
        body.extend(entry);
    }
    let mut bytes = vec![id];
    bytes.extend(leb(body.len() as u32));
    bytes.extend(body);
    bytes
}

/// A 32-bit constant expression (small non-negative values only).
fn i32_const(value: u8) -> Vec<u8> {
    assert!(value < 64);
    vec![0x41, value, 0x0b]
}

#[derive(Default)]
struct ModuleSpec {
    imports: Vec<Vec<u8>>,
    functions: u32,
    tables: u32,
    memories: u32,
    globals: u32,
    exports: Vec<Vec<u8>>,
    elements: Vec<Vec<u8>>,
    data: Vec<Vec<u8>>,
}

/// The binary of a module whose functions are all `() -> ()` with an empty body.
fn encode(spec: ModuleSpec) -> Vec<u8> {
    let mut bytes = vec![0x00, 0x61, 0x73, 0x6d, 0x01, 0x00, 0x00, 0x00];
    bytes.extend(section(1, vec![vec![0x60, 0x00, 0x00]]));
    if !spec.imports.is_empty() {
        bytes.extend(section(2, spec.imports));
    }
    if spec.functions > 0 {
        bytes.extend(section(3, (0..spec.functions).map(|_| vec![0x00]).collect()));
    }
    if spec.tables > 0 {
        bytes.extend(section(4, (0..spec.tables).map(|_| vec![0x70, 0x00, 0x08]).collect()));
    }
    if spec.memories > 0 {
        bytes.extend(section(5, (0..spec.memories).map(|_| vec![0x00, 0x01]).collect()));
    }
    if spec.globals > 0 {
        bytes.extend(section(6, (0..spec.globals).map(|_| [vec![0x7f, 0x00], i32_const(0)].concat()).collect()));
    }
    if !spec.exports.is_empty() {
        bytes.extend(section(7, spec.exports));
    }
    if !spec.elements.is_empty() {
        bytes.extend(section(9, spec.elements));
    }
    if spec.functions > 0 {
        bytes.extend(section(10, (0..spec.functions).map(|_| vec![0x02, 0x00, 0x0b]).collect()));
    }
    if !spec.data.is_empty() {
        bytes.extend(section(11, spec.data));
    }
    bytes
}

fn export(export_name: &str, kind: u8, index: u32) -> Vec<u8> {
    [name(export_name), vec![kind], leb(index)].concat()
}

fn function_import(module: &str, field: &str) -> Vec<u8> {
    [name(module), name(field), vec![0x00, 0x00]].concat()
}

fn memory_import(module: &str, field: &str) -> Vec<u8> {
    [name(module), name(field), vec![0x02, 0x00, 0x01]].concat()
}

/// An active element segment of table 0 at `offset` holding `functions`.
fn element(offset: u8, functions: &[u32]) -> Vec<u8> {
    let mut bytes = vec![0x00];
    bytes.extend(i32_const(offset));
    bytes.extend(leb(functions.len() as u32));
    for function in functions {
        bytes.extend(leb(*function));
    }
    bytes
}

/// An active data segment of memory 0 at `offset`.
fn data(offset: u8, value: &[u8]) -> Vec<u8> {
    let mut bytes = vec![0x00];
    bytes.extend(i32_const(offset));
    bytes.extend(leb(value.len() as u32));
    bytes.extend_from_slice(value);
    bytes
}

#[test]
fn runtime_modules_must_parse() {
    assert!(matches!(parse_wasm_ast(&[0x00, 0x61]), Err(WasmCompilerError::ModuleLoadError(_))));
    assert!(parse_wasm_ast(&encode(ModuleSpec::default())).is_ok());
}

#[test]
fn builtins_and_heap_section_are_read_from_the_runtime_module() {
    let count = RUNTIME_BUILTIN_COUNT as u32;
    let exports = (0..count)
        .map(|index| export(RuntimeBuiltin::from_position(index as usize).name(), 0x00, index))
        .collect();
    let bytes = encode(ModuleSpec {
        functions: count,
        memories: 1,
        exports,
        data: vec![data(0, &[1, 2, 3])],
        ..Default::default()
    });
    let module = parse_wasm_ast(&bytes).ok().unwrap();
    let builtins = parse_runtime_builtins(&module).ok().unwrap();
    assert_eq!(builtins.get(RuntimeBuiltin::Initialize), 0);
    assert_eq!(builtins.get(RuntimeBuiltin::SetListItem), count - 1);
    assert!(matches!(get_data_section_instruction_id(&module), Ok(0)));

    let without_builtins = parse_wasm_ast(&encode(ModuleSpec { memories: 1, data: vec![data(4, &[1])], ..Default::default() }))
        .ok()
        .unwrap();
    assert!(matches!(
        parse_runtime_builtins(&without_builtins),
        Err(WasmCompilerError::RuntimeBuiltinNotFound(RuntimeBuiltin::Initialize))
    ));
    assert!(matches!(get_data_section_instruction_id(&without_builtins), Err(WasmCompilerError::InvalidDataSection)));
}

#[test]
fn memories_and_tables_must_be_unique() {
    let single = parse_wasm_ast(&encode(ModuleSpec { memories: 1, tables: 1, ..Default::default() })).ok().unwrap();
    assert!(matches!(get_linear_memory_id(&single), Ok(0)));
    assert!(matches!(get_main_function_table(&single), Ok(0)));
    let none = parse_wasm_ast(&encode(ModuleSpec::default())).ok().unwrap();
    assert!(matches!(get_linear_memory_id(&none), Err(ModuleCompilerError::MemoryNotFound)));
    assert!(matches!(get_main_function_table(&none), Err(ModuleCompilerError::TableNotFound)));
    let imported = parse_wasm_ast(&encode(ModuleSpec {
        imports: vec![memory_import("env", "memory")],
        memories: 1,
        ..Default::default()
    }));
    if let Ok(module) = imported {
        assert!(matches!(get_linear_memory_id(&module), Err(ModuleCompilerError::MultipleMemories)));
    }
}

#[test]
fn the_table_initializer_with_the_highest_offset_is_chosen() {
    let bytes = encode(ModuleSpec {
        functions: 2,
        tables: 1,
        elements: vec![element(4, &[0]), element(1, &[1, 0]), element(4, &[1])],
        ..Default::default()
    });
    let module = parse_wasm_ast(&bytes).ok().unwrap();
    assert_eq!(get_table_initializer(&module, 0), Some(2));
    assert_eq!(get_table_initializer(&module, 1), None);
}

#[test]
fn runtime_exports_are_read_from_the_runtime_module() {
    let count = GENERATOR_BUILTIN_COUNT as u32;
    let mut exports: Vec<Vec<u8>> = (0..count)
        .map(|index| export(GeneratorBuiltin::from_position(index as usize).name(), 0x00, index))
        .collect();
    exports.push(export("NULL", 0x03, 0));
    let module = parse_wasm_ast(&encode(ModuleSpec { functions: count, globals: 1, exports, ..Default::default() }))
        .ok()
        .unwrap();
    let mappings = parse_runtime_exports(&module, &Vec::new()).ok().unwrap();
    assert_eq!(mappings.globals.null_pointer, 0);
    assert_eq!(mappings.builtins.get(GeneratorBuiltin::from_position(5)), Some(5));

    let without_null = parse_wasm_ast(&encode(ModuleSpec { functions: 1, ..Default::default() })).ok().unwrap();
    assert!(matches!(parse_runtime_exports(&without_null, &Vec::new()), Err(ModuleCompilerError::RuntimeGlobalNotFound(_))));
}

#[test]
fn hash_functions_are_read_from_a_module() {
    let names = ["writeTermHash", "writeI32Hash", "writeI64Hash", "writeF32Hash", "writeF64Hash"];
    let exports = names.iter().enumerate().map(|(index, hash_name)| export(hash_name, 0x00, index as u32)).collect();
    let module = parse_wasm_ast(&encode(ModuleSpec { functions: 5, exports, ..Default::default() })).ok().unwrap();
    assert_eq!(
        get_exported_hash_functions(&module),
        Ok(HashFunctionIds { write_term: 0, write_i32: 1, write_i64: 2, write_f32: 3, write_f64: 4 })
    );
    let empty = parse_wasm_ast(&encode(ModuleSpec::default())).ok().unwrap();
    assert_eq!(
        get_exported_hash_functions(&empty),
        Err(String::from("Invalid module export: \"writeTermHash\""))
    );
}

#[test]
fn template_variables_are_bound_from_module_imports_and_exports() {
    let template = parse_wasm_ast(&encode(ModuleSpec {
        imports: vec![function_import("$", "__INNER"), function_import("env", "log"), function_import("$", "helper")],
        ..Default::default()
    }))
    .ok()
    .unwrap();
    let target = parse_wasm_ast(&encode(ModuleSpec { functions: 2, exports: vec![export("helper", 0x00, 1)], ..Default::default() }))
        .ok()
        .unwrap();
    let bindings = get_cached_function_template_substitutions(&template, &target, 7, 8, 9).ok().unwrap();
    assert_eq!(
        bindings,
        vec![(String::from("__INNER"), ExportTarget::Function(7)), (String::from("helper"), ExportTarget::Function(1))]
    );
    let empty_target = parse_wasm_ast(&encode(ModuleSpec::default())).ok().unwrap();
    match get_cached_function_template_substitutions(&template, &empty_target, 7, 8, 9) {
        Err(WasmGeneratorError::InvalidModuleImport { expected, received }) => {
            assert_eq!(expected.name, "helper");
            assert_eq!(received, None);
        },
        other => panic!("unexpected {:?}", other.is_ok()),
    }
}

#[test]
fn template_module_items_map_to_their_substitutions() {
    let template = parse_wasm_ast(&encode(ModuleSpec {
        imports: vec![function_import("$", "__INNER")],
        functions: 1,
        ..Default::default()
    }))
    .ok()
    .unwrap();
    let substitutions = vec![(String::from("__INNER"), ExportTarget::Function(40))];
    assert_eq!(
        template_module_id_mappings(&template, &substitutions, &vec![1]),
        Ok(vec![(ExportTarget::Function(0), ExportTarget::Function(40))])
    );
    assert_eq!(
        template_module_id_mappings(&template, &substitutions, &Vec::new()),
        Err(String::from("Template function not exposed as module import: Function(1)"))
    );
}
