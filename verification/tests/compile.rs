use reflex_wasm::compile::{
    heap_snapshot_segment_position, runtime_builtins_from_exports, RuntimeBuiltin, WasmCompilerError,
    RUNTIME_BUILTIN_COUNT,
};
use reflex_wasm::wasm_module::{DataPlacement, DataSegment, ExportEntry, ExportTarget};

fn all_builtin_exports() -> Vec<ExportEntry> {
    (0..RUNTIME_BUILTIN_COUNT)
        .map(|position| ExportEntry {
            name: String::from(RuntimeBuiltin::from_position(position).name()),
            target: ExportTarget::Function(position as u32 * 2),
        })
        .collect()
}

#[test]
fn builtin_names() {
    assert_eq!(RuntimeBuiltin::Initialize.name(), "_initialize");
    assert_eq!(RuntimeBuiltin::CreateApplication.name(), "createApplication");
    assert_eq!(RuntimeBuiltin::SetListItem.name(), "setListItem");
}

#[test]
fn runtime_builtins_are_mapped_to_their_exports() {
    let mappings = runtime_builtins_from_exports(&all_builtin_exports()).unwrap();
    assert_eq!(mappings.get(RuntimeBuiltin::Initialize), 0);
    assert_eq!(mappings.get(RuntimeBuiltin::CreateInt), 12);
    assert_eq!(mappings.get(RuntimeBuiltin::SetListItem), 18);
}

#[test]
fn a_missing_builtin_is_reported_as_initialize() {
    let exports = all_builtin_exports().into_iter().filter(|e| e.name != "createInt").collect::<Vec<_>>();
    assert!(matches!(
        runtime_builtins_from_exports(&exports),
        Err(WasmCompilerError::RuntimeBuiltinNotFound(RuntimeBuiltin::Initialize))
    ));
}

#[test]
fn heap_data_section_must_be_unique_and_at_zero() {
    let at_zero = DataSegment { placement: DataPlacement::Absolute { memory: 0, offset: 0 }, value: vec![1] };
    let elsewhere = DataSegment { placement: DataPlacement::Absolute { memory: 0, offset: 8 }, value: vec![1] };
    let passive = DataSegment { placement: DataPlacement::Passive, value: vec![] };
    assert!(matches!(heap_snapshot_segment_position(&vec![at_zero.clone()]), Ok(0)));
    assert!(matches!(heap_snapshot_segment_position(&vec![]), Err(WasmCompilerError::DataSectionNotFound)));
    assert!(matches!(
        heap_snapshot_segment_position(&vec![at_zero, passive.clone()]),
        Err(WasmCompilerError::MultipleDataSections)
    ));
    assert!(matches!(heap_snapshot_segment_position(&vec![elsewhere]), Err(WasmCompilerError::InvalidDataSection)));
    assert!(matches!(heap_snapshot_segment_position(&vec![passive]), Err(WasmCompilerError::InvalidDataSection)));
}
