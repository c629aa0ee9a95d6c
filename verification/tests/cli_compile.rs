use reflex_wasm::cli::compile::{
    collect_inline_data_snapshot, find_exported_function, find_exported_global, single_linear_memory,
    parse_inline_memory_snapshot, parse_inline_memory_snapshot_checked, runtime_exports_from,
    patch_heap_snapshot_builtin_target_uid, segments_fit_address_space, split_at_separator,
    update_initial_heap_size, CompilerEntryPoint, CompilerRootConfig, ExpressionFactoryEntryPoint,
    GraphRootEntryPoint, JavaScriptCompilerRootConfig, ModuleEntryPoint, WasmCompilerError,
    WasmCompilerRuntimeOptions,
};
use reflex_wasm::compiler::globals::RuntimeGlobal;
use reflex_wasm::compiler::runtime::builtin::{RuntimeBuiltin, RUNTIME_BUILTIN_COUNT};
use reflex_wasm::pointer::ArenaPointer;
use reflex_wasm::wasm_module::{
    DataPlacement, DataSegment, ElementPlacement, ElementSegment, ExportEntry, ExportTarget,
};
use reflex_wasm::cli::compile::highest_table_initializer;
use reflex_wasm::cli::compile::{arity_lookup_answers, indirect_call_table_arities, Arity};

const HEADER: [u8; 8] = [0x00, 0x61, 0x73, 0x6d, 0x01, 0x00, 0x00, 0x00];

/// A module with one memory and two active data segments: `aa bb cc` at 4, then `11 22` at 0.
fn module_with_data() -> Vec<u8> {
    let mut bytes = HEADER.to_vec();
    bytes.extend_from_slice(&[0x05, 0x03, 0x01, 0x00, 0x01]);
    bytes.extend_from_slice(&[
        0x0b, 0x10, 0x02, 0x00, 0x41, 0x04, 0x0b, 0x03, 0xaa, 0xbb, 0xcc, 0x00, 0x41, 0x00, 0x0b, 0x02,
        0x11, 0x22,
    ]);
    bytes
}

fn export(name: &str, target: ExportTarget) -> ExportEntry {
    ExportEntry { name: String::from(name), target }
}

fn segment(placement: DataPlacement, value: &[u8]) -> DataSegment {
    DataSegment { placement, value: value.to_vec() }
}

#[test]
fn split_at_separator_splits_at_the_first_occurrence() {
    assert_eq!(split_at_separator(':', "lisp:a:b.scm"), Some(("lisp", "a:b.scm")));
    assert_eq!(split_at_separator(':', ":x"), Some(("", "x")));
    assert_eq!(split_at_separator(':', "x:"), Some(("x", "")));
    assert_eq!(split_at_separator(':', "no separator"), None);
    assert_eq!(split_at_separator('é', "aébéc"), Some(("a", "béc")));
}

#[test]
fn root_config_formats_are_matched_in_lower_case() {
    match CompilerRootConfig::from_str("LISP:./main.scm") {
        Ok(CompilerRootConfig::Lisp(config)) => assert_eq!(config.path, "./main.scm"),
        other => panic!("unexpected {:?}", other),
    }
    match CompilerRootConfig::from_str("sexpr:a") {
        Ok(CompilerRootConfig::Lisp(config)) => assert_eq!(config.path, "a"),
        other => panic!("unexpected {:?}", other),
    }
    match CompilerRootConfig::from_str("Js:index.js") {
        Ok(CompilerRootConfig::JavaScript(config)) => assert_eq!(config.path, "index.js"),
        other => panic!("unexpected {:?}", other),
    }
    match CompilerRootConfig::from_str("javascript:index.js") {
        Ok(CompilerRootConfig::JavaScript(config)) => assert_eq!(config.path, "index.js"),
        other => panic!("unexpected {:?}", other),
    }
    match CompilerRootConfig::from_str("json:data.json") {
        Ok(CompilerRootConfig::Json(config)) => assert_eq!(config.path, "data.json"),
        other => panic!("unexpected {:?}", other),
    }
}

#[test]
fn root_config_refuses_unknown_and_missing_formats() {
    match CompilerRootConfig::from_str("Python:main.py") {
        Err(message) => assert_eq!(message, "Unsupported entry point format: Python"),
        other => panic!("unexpected {:?}", other),
    }
    match CompilerRootConfig::from_str(":main.scm") {
        Err(message) => assert_eq!(message, "Missing entry point format"),
        other => panic!("unexpected {:?}", other),
    }
    match CompilerRootConfig::from_str("main.scm") {
        Err(message) => assert_eq!(message, "Missing entry point format"),
        other => panic!("unexpected {:?}", other),
    }
}

#[test]
fn root_config_from_parts_uses_the_given_lower_case_form() {
    match CompilerRootConfig::from_parts("JSON", "json", "x") {
        Ok(CompilerRootConfig::Json(config)) => assert_eq!(config.path, "x"),
        other => panic!("unexpected {:?}", other),
    }
    match CompilerRootConfig::from_parts("Lisp", "other", "x") {
        Err(message) => assert_eq!(message, "Unsupported entry point format: Lisp"),
        other => panic!("unexpected {:?}", other),
    }
}

#[test]
fn module_entry_point_names() {
    assert_eq!(ModuleEntryPoint::default().as_str(), "main");
    assert_eq!(ModuleEntryPoint::named("foo").as_str(), "foo");
    let entry_point = ModuleEntryPoint::from(String::from("bar"));
    assert_eq!(String::from(entry_point), "bar");
}

#[test]
fn entry_points_report_their_name_and_root() {
    let root = CompilerRootConfig::JavaScript(JavaScriptCompilerRootConfig { path: String::from("a.js") });
    let graph = GraphRootEntryPoint::new(ModuleEntryPoint::named("graph"), root.clone());
    assert_eq!(graph.export_name().as_str(), "graph");
    assert!(matches!(graph.root(), CompilerRootConfig::JavaScript(config) if config.path == "a.js"));
    let factory = ExpressionFactoryEntryPoint::new(ModuleEntryPoint::named("factory"), root);
    assert_eq!(factory.export_name().as_str(), "factory");
}

#[test]
fn runtime_options_default_to_no_memoization() {
    assert!(!WasmCompilerRuntimeOptions::default().memoize_lambdas);
}

#[test]
fn linear_memory_must_be_unique() {
    assert!(matches!(single_linear_memory(&vec![3]), Ok(3)));
    assert!(matches!(single_linear_memory(&vec![]), Err(WasmCompilerError::MemoryNotFound)));
    assert!(matches!(single_linear_memory(&vec![0, 1]), Err(WasmCompilerError::MultipleMemories)));
}

#[test]
fn inline_data_is_laid_out_in_order_with_zero_gaps() {
    let segments = vec![
        segment(DataPlacement::Absolute { memory: 0, offset: 4 }, &[0xaa, 0xbb, 0xcc]),
        segment(DataPlacement::Passive, &[0xee]),
        segment(DataPlacement::Absolute { memory: 1, offset: 0 }, &[0xff]),
        segment(DataPlacement::Relative { memory: 0 }, &[0xdd]),
        segment(DataPlacement::Absolute { memory: 0, offset: 0 }, &[0x11, 0x22]),
        segment(DataPlacement::Absolute { memory: 0, offset: 5 }, &[0x33]),
    ];
    assert!(segments_fit_address_space(&segments));
    assert_eq!(collect_inline_data_snapshot(&segments, 0), vec![0x11, 0x22, 0, 0, 0xaa, 0x33, 0xcc]);
    assert_eq!(collect_inline_data_snapshot(&segments, 1), vec![0xff]);
    assert_eq!(collect_inline_data_snapshot(&segments, 2), Vec::<u8>::new());
}

#[test]
fn inline_memory_snapshot_is_read_from_a_module() {
    let bytes = module_with_data();
    match parse_inline_memory_snapshot(&bytes) {
        Ok(snapshot) => assert_eq!(snapshot, vec![0x11, 0x22, 0, 0, 0xaa, 0xbb, 0xcc]),
        Err(error) => panic!("unexpected {:?}", error),
    }
    match parse_inline_memory_snapshot_checked(&bytes) {
        Some(Ok(snapshot)) => assert_eq!(snapshot, vec![0x11, 0x22, 0, 0, 0xaa, 0xbb, 0xcc]),
        other => panic!("unexpected {:?}", other),
    }
}

#[test]
fn inline_memory_snapshot_needs_a_module_with_a_memory() {
    assert!(matches!(parse_inline_memory_snapshot(&[1, 2, 3]), Err(WasmCompilerError::ModuleLoadError(_))));
    assert!(matches!(parse_inline_memory_snapshot(&HEADER), Err(WasmCompilerError::MemoryNotFound)));
    assert!(matches!(parse_inline_memory_snapshot_checked(&HEADER), Some(Err(WasmCompilerError::MemoryNotFound))));
}

#[test]
fn exports_are_found_by_name_and_kind() {
    let exports = vec![
        export("f", ExportTarget::Function(1)),
        export("g", ExportTarget::Global(2)),
        export("f", ExportTarget::Function(3)),
        export("g", ExportTarget::Memory(0)),
    ];
    assert_eq!(find_exported_function(&exports, "f"), Some(3));
    assert_eq!(find_exported_function(&exports, "g"), None);
    assert_eq!(find_exported_global(&exports, "g"), Some(2));
    assert_eq!(find_exported_global(&exports, "h"), None);
}

fn runtime_exports() -> Vec<ExportEntry> {
    let mut exports = vec![export("NULL", ExportTarget::Global(7))];
    for position in 0..RUNTIME_BUILTIN_COUNT {
        let builtin = RuntimeBuiltin::from_position(position);
        exports.push(export(builtin.name(), ExportTarget::Function(100 + position as u32)));
    }
    exports
}

#[test]
fn runtime_exports_map_every_builtin() {
    match runtime_exports_from(&runtime_exports(), &Vec::new()) {
        Ok(mappings) => {
            assert_eq!(mappings.globals.null_pointer, 7);
            assert_eq!(mappings.builtins.get(RuntimeBuiltin::Initialize), Some(100));
            assert_eq!(mappings.builtins.get(RuntimeBuiltin::Evaluate), Some(101));
            let last = RuntimeBuiltin::from_position(RUNTIME_BUILTIN_COUNT - 1);
            assert_eq!(mappings.builtins.get(last), Some(100 + (RUNTIME_BUILTIN_COUNT as u32) - 1));
        },
        Err(error) => panic!("unexpected {:?}", error),
    }
}

#[test]
fn runtime_exports_report_the_first_missing_item() {
    let without_null = runtime_exports().into_iter().filter(|e| e.name != "NULL").collect::<Vec<_>>();
    assert!(matches!(
        runtime_exports_from(&without_null, &Vec::new()),
        Err(WasmCompilerError::RuntimeGlobalNotFound(RuntimeGlobal::NullPointer))
    ));
    let without_apply = runtime_exports().into_iter().filter(|e| e.name != "apply" && e.name != "isSignal").collect::<Vec<_>>();
    assert!(matches!(
        runtime_exports_from(&without_apply, &Vec::new()),
        Err(WasmCompilerError::RuntimeBuiltinNotFound(RuntimeBuiltin::Apply))
    ));
}

#[test]
fn runtime_exports_are_looked_up_in_the_runtime_order() {
    let without_timestamp_and_signal = runtime_exports()
        .into_iter()
        .filter(|e| e.name != "createTimestamp" && e.name != "createSignal")
        .collect::<Vec<_>>();
    assert!(matches!(
        runtime_exports_from(&without_timestamp_and_signal, &Vec::new()),
        Err(WasmCompilerError::RuntimeBuiltinNotFound(RuntimeBuiltin::CreateSignal))
    ));
    let without_lazy_result = runtime_exports().into_iter().filter(|e| e.name != "createLazyResult").collect::<Vec<_>>();
    match runtime_exports_from(&without_lazy_result, &Vec::new()) {
        Ok(mappings) => {
            assert_eq!(mappings.builtins.get(RuntimeBuiltin::CreateLazyResult), None);
            assert_eq!(mappings.builtins.get(RuntimeBuiltin::CreateSignal), Some(133));
        },
        Err(error) => panic!("unexpected {:?}", error),
    }
}

#[test]
fn heap_size_grows_to_a_power_of_two_of_pages() {
    assert_eq!(update_initial_heap_size(2, 65536), 2);
    assert_eq!(update_initial_heap_size(1, 65536 * 3), 4);
    assert_eq!(update_initial_heap_size(0, 0), 1);
    assert_eq!(update_initial_heap_size(4, 65536 * 5 + 1), 8);
    assert_eq!(update_initial_heap_size(17, 65536 * 5 + 1), 17);
}

#[test]
fn builtin_target_uid_is_patched_little_endian() {
    let mut heap = vec![0u8; 12];
    patch_heap_snapshot_builtin_target_uid(&mut heap, ArenaPointer(4), 0x0403_0201);
    assert_eq!(heap, vec![0, 0, 0, 0, 1, 2, 3, 4, 0, 0, 0, 0]);
}

#[test]
fn function_table_must_be_unique() {
    assert!(matches!(reflex_wasm::cli::compile::single_function_table(&vec![2]), Ok(2)));
    assert!(matches!(reflex_wasm::cli::compile::single_function_table(&vec![]), Err(WasmCompilerError::TableNotFound)));
    assert!(matches!(reflex_wasm::cli::compile::single_function_table(&vec![0, 1]), Err(WasmCompilerError::MultipleTables)));
}

#[test]
fn table_initializer_is_the_last_at_the_highest_offset() {
    let element = |placement: ElementPlacement| ElementSegment { placement, members: vec![Some(1), None] };
    let elements = vec![
        element(ElementPlacement::Active { table: 0, offset: Some(4) }),
        element(ElementPlacement::Active { table: 0, offset: Some(9) }),
        element(ElementPlacement::Active { table: 1, offset: Some(20) }),
        element(ElementPlacement::Passive),
        element(ElementPlacement::Active { table: 0, offset: Some(9) }),
        element(ElementPlacement::Active { table: 0, offset: None }),
        element(ElementPlacement::Declared),
        element(ElementPlacement::Active { table: 0, offset: Some(-3) }),
    ];
    assert_eq!(highest_table_initializer(&elements, 0), Some(4));
    assert_eq!(highest_table_initializer(&elements, 1), Some(2));
    assert_eq!(highest_table_initializer(&elements, 2), None);
    assert_eq!(highest_table_initializer(&vec![], 0), None);
}

#[test]
fn dynamic_functions_are_appended_to_the_table() {
    use_register();
}

fn use_register() {
    let mut initializer = ElementSegment {
        placement: ElementPlacement::Active { table: 0, offset: Some(10) },
        members: vec![Some(1), None, Some(2)],
    };
    let mut table = reflex_wasm::cli::compile::TableLimits { initial: 13, maximum: Some(13) };
    let index = reflex_wasm::cli::compile::register_dynamic_function(&mut initializer, &mut table, 77);
    assert!(matches!(index, Ok(13)));
    assert_eq!(initializer.members, vec![Some(1), None, Some(2), Some(77)]);
    assert_eq!(table, reflex_wasm::cli::compile::TableLimits { initial: 14, maximum: Some(14) });
    let mut unbounded = reflex_wasm::cli::compile::TableLimits { initial: 4, maximum: None };
    let mut other = ElementSegment { placement: ElementPlacement::Active { table: 0, offset: Some(0) }, members: vec![] };
    assert!(matches!(reflex_wasm::cli::compile::register_dynamic_function(&mut other, &mut unbounded, 5), Ok(0)));
    assert_eq!(unbounded.maximum, None);
    let mut negative = ElementSegment { placement: ElementPlacement::Active { table: 0, offset: Some(-1) }, members: vec![] };
    assert!(matches!(
        reflex_wasm::cli::compile::register_dynamic_function(&mut negative, &mut unbounded, 5),
        Err(WasmCompilerError::InvalidFunctionTable)
    ));
    assert!(negative.members.is_empty());
    let mut passive = ElementSegment { placement: ElementPlacement::Passive, members: vec![] };
    assert!(matches!(
        reflex_wasm::cli::compile::register_dynamic_function(&mut passive, &mut unbounded, 5),
        Err(WasmCompilerError::InvalidFunctionTable)
    ));
}

#[test]
fn indirect_call_table_covers_every_filled_index() {
    use_table_size();
}

fn use_table_size() {
    let elements = vec![
        ElementSegment { placement: ElementPlacement::Active { table: 0, offset: Some(2) }, members: vec![Some(1), None, Some(4)] },
        ElementSegment { placement: ElementPlacement::Active { table: 1, offset: Some(50) }, members: vec![Some(1)] },
        ElementSegment { placement: ElementPlacement::Active { table: 0, offset: Some(1) }, members: vec![Some(3), None, None, None, None, None] },
        ElementSegment { placement: ElementPlacement::Passive, members: vec![Some(9); 30] },
    ];
    assert_eq!(reflex_wasm::cli::compile::indirect_call_table_size(&elements, 0), 5);
    assert_eq!(reflex_wasm::cli::compile::indirect_call_table_size(&elements, 1), 51);
    assert_eq!(reflex_wasm::cli::compile::indirect_call_table_size(&elements, 2), 0);
}

#[test]
fn table_arities_default_to_no_arguments() {
    let arities = vec![
        (1, Arity { required: 2, optional: 1, variadic: false }),
        (3, Arity { required: 0, optional: 0, variadic: true }),
        (1, Arity { required: 1, optional: 0, variadic: false }),
    ];
    let table = indirect_call_table_arities(4, &arities);
    assert_eq!(table, vec![
        Arity { required: 0, optional: 0, variadic: false },
        Arity { required: 1, optional: 0, variadic: false },
        Arity { required: 0, optional: 0, variadic: false },
        Arity { required: 0, optional: 0, variadic: true },
    ]);
    assert_eq!(arity_lookup_answers(&table), vec![(0, 0), (1, 0), (0, 0), (0, 1)]);
    assert_eq!(arity_lookup_answers(&vec![Arity { required: 2, optional: 3, variadic: true }]), vec![(5, 1)]);
}

#[test]
fn optimized_output_never_uses_block_params() {
    use_options();
}

fn use_options() {
    let options = reflex_wasm::cli::compile::WasmCompilerOptions::default();
    assert!(!options.generator.disable_block_params);
    assert!(!options.runtime.memoize_lambdas);
    let optimized = reflex_wasm::cli::compile::effective_compiler_options(&options, false);
    assert!(optimized.generator.disable_block_params);
    let unoptimized = reflex_wasm::cli::compile::effective_compiler_options(&options, true);
    assert!(!unoptimized.generator.disable_block_params);
    let mut memoized = options;
    memoized.runtime.memoize_lambdas = true;
    assert!(reflex_wasm::cli::compile::effective_compiler_options(&memoized, false).runtime.memoize_lambdas);
}

#[test]
fn compiler_error_messages_name_their_inputs() {
    assert_eq!(
        WasmCompilerError::ReadError(String::from("in.wasm"), String::from("missing")).to_string(),
        "Failed to read input file in.wasm: missing"
    );
    assert_eq!(
        WasmCompilerError::ParseError(String::from("in.js"), String::from("bad token")).to_string(),
        "Failed to parse input file in.js: bad token"
    );
    assert_eq!(
        WasmCompilerError::OptimizationError(String::from("crashed")).to_string(),
        "Failed to optimize WASM output: crashed"
    );
    assert_eq!(
        WasmCompilerError::OptimizationFileSystemError(String::from("no space")).to_string(),
        "Failed to generate optimized WASM output: no space"
    );
    assert_eq!(
        WasmCompilerError::StdlibBuiltinNotFound(String::from("Add")).to_string(),
        "Standard library function not found: Add"
    );
    assert!(WasmCompilerError::CompilerError(anyhow::Error::msg("oops")).to_string().starts_with("Failed to compile WASM output: "));
    assert!(WasmCompilerError::TemplateError(anyhow::Error::msg("oops")).to_string().starts_with("Failed to generate WASM template: "));
}

#[test]
fn standard_library_exports_are_looked_up_in_order() {
    let mut exports = runtime_exports();
    exports.push(export("Add", ExportTarget::Function(500)));
    exports.push(export("Abs", ExportTarget::Function(501)));
    let names = vec![String::from("Abs"), String::from("Add")];
    match runtime_exports_from(&exports, &names) {
        Ok(mappings) => {
            assert_eq!(mappings.stdlib.functions, vec![501, 500]);
            assert_eq!(mappings.stdlib.get_function_id(1), Some(500));
            assert_eq!(mappings.stdlib.get_function_id(2), None);
        },
        Err(error) => panic!("unexpected {:?}", error),
    }
    let missing = vec![String::from("Abs"), String::from("Zip"), String::from("Car")];
    match runtime_exports_from(&exports, &missing) {
        Err(WasmCompilerError::StdlibBuiltinNotFound(name)) => assert_eq!(name, "Zip"),
        other => panic!("unexpected {:?}", other.is_ok()),
    }
    let without_null = exports.into_iter().filter(|e| e.name != "NULL").collect::<Vec<_>>();
    assert!(matches!(
        runtime_exports_from(&without_null, &missing),
        Err(WasmCompilerError::RuntimeGlobalNotFound(_))
    ));
}
