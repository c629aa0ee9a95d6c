use reflex_wasm::compiler::wasm::import_function::template_id_mappings;
use reflex_wasm::wasm_module::{ExportTarget, ImportEntry};

fn import(module: &str, name: &str, kind: ExportTarget) -> ImportEntry {
    ImportEntry { module: String::from(module), name: String::from(name), kind }
}

#[test]
fn template_items_map_to_the_substitutions_of_their_imports() {
    let imports = vec![
        import("$", "__INNER", ExportTarget::Function(0)),
        import("env", "log", ExportTarget::Function(1)),
        import("$", "memory", ExportTarget::Memory(0)),
    ];
    let items = vec![ExportTarget::Function(0), ExportTarget::Function(2), ExportTarget::Memory(0)];
    let substitutions = vec![
        (String::from("memory"), ExportTarget::Memory(7)),
        (String::from("__INNER"), ExportTarget::Function(40)),
        (String::from("memory"), ExportTarget::Global(3)),
    ];
    let mappings = template_id_mappings(&imports, &items, &substitutions, &vec![2]).unwrap();
    assert_eq!(
        mappings,
        vec![(ExportTarget::Function(0), ExportTarget::Function(40)), (ExportTarget::Memory(0), ExportTarget::Memory(7))]
    );
}

#[test]
fn template_items_that_cannot_be_mapped_are_reported_first_first() {
    let imports = vec![import("env", "log", ExportTarget::Function(1)), import("$", "table", ExportTarget::Table(0))];
    let items = vec![ExportTarget::Function(1), ExportTarget::Table(0)];
    assert_eq!(
        template_id_mappings(&imports, &items, &Vec::new(), &Vec::new()),
        Err(String::from("Template function not exposed as module import: Function(1)"))
    );
    assert_eq!(
        template_id_mappings(&imports, &items, &Vec::new(), &vec![1]),
        Err(String::from("Template table import not provided: \"table\""))
    );
    assert_eq!(
        template_id_mappings(&imports, &vec![ExportTarget::Global(4)], &Vec::new(), &Vec::new()),
        Err(String::from("Template global not exposed as module export: Global(4)"))
    );
}
