use reflex_wasm::cli::entry_point::{
    add_module_entry_point, entry_point_state_pointer, find_function_export, WasmEntryPointError,
};
use reflex_wasm::wasm_module::{ExportEntry, ExportTarget};

/// A module exporting `evaluate: (i32, i32) -> (i32, i32)`.
fn module_with_evaluate() -> Vec<u8> {
    vec![
        0x00, 0x61, 0x73, 0x6d, 0x01, 0x00, 0x00, 0x00, // header
        0x01, 0x08, 0x01, 0x60, 0x02, 0x7f, 0x7f, 0x02, 0x7f, 0x7f, // types
        0x03, 0x02, 0x01, 0x00, // functions
        0x07, 0x0c, 0x01, 0x08, b'e', b'v', b'a', b'l', b'u', b'a', b't', b'e', 0x00, 0x00, // exports
        0x0a, 0x08, 0x01, 0x06, 0x00, 0x20, 0x00, 0x20, 0x01, 0x0b, // code
    ]
}

#[test]
fn state_pointer_defaults_to_null() {
    assert_eq!(entry_point_state_pointer(Some(12)), 12);
    assert_eq!(entry_point_state_pointer(None), 0xFFFF_FFFF);
}

#[test]
fn function_exports_are_found_first_first() {
    let exports = vec![
        ExportEntry { name: String::from("evaluate"), target: ExportTarget::Global(0) },
        ExportEntry { name: String::from("evaluate"), target: ExportTarget::Function(4) },
        ExportEntry { name: String::from("evaluate"), target: ExportTarget::Function(5) },
    ];
    assert_eq!(find_function_export(&exports, "evaluate"), Some(4));
    assert_eq!(find_function_export(&exports, "main"), None);
}

#[test]
fn entry_point_is_added_and_exported() {
    let bytes = add_module_entry_point(&module_with_evaluate(), "main", 64, None).unwrap();
    let module = walrus::Module::from_buffer(&bytes).unwrap();
    assert!(module.exports.get_func("main").is_ok());
    assert!(module.exports.get_func("evaluate").is_ok());
}

#[test]
fn entry_point_needs_an_evaluate_function() {
    let header = [0x00, 0x61, 0x73, 0x6d, 0x01, 0x00, 0x00, 0x00];
    match add_module_entry_point(&header, "main", 64, Some(8)) {
        Err(WasmEntryPointError::FunctionNotFound(name)) => assert_eq!(name, "evaluate"),
        other => panic!("unexpected {:?}", other),
    }
    assert!(matches!(
        add_module_entry_point(&[0xde, 0xad], "main", 64, None),
        Err(WasmEntryPointError::ModuleLoadError(_))
    ));
}

#[test]
fn entry_point_output_depends_only_on_the_inputs() {
    let first = add_module_entry_point(&module_with_evaluate(), "main", 64, Some(8)).unwrap();
    let second = add_module_entry_point(&module_with_evaluate(), "main", 64, Some(8)).unwrap();
    assert_eq!(first, second);
    let other = add_module_entry_point(&module_with_evaluate(), "main", 65, Some(8)).unwrap();
    assert_ne!(first, other);
}
