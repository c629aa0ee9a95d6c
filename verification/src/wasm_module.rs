//! A parsed WebAssembly module, and the plain-value views of its memories, data segments and
//! exports that the module-processing logic works on.
use vstd::prelude::*;

verus! {

#[verifier::external_type_specification]
#[verifier::external_body]
pub struct ExWalrusModule(walrus::Module);

#[verifier::external_type_specification]
#[verifier::external_body]
pub struct ExAnyhowError(anyhow::Error);

/// Where a data segment initializes linear memory.
#[derive(Clone, Copy, Debug, PartialEq, Eq, Structural)]
pub enum DataPlacement {
    /// Not placed automatically (copied in by an explicit instruction).
    Passive,
    /// Placed at a fixed address of the memory with the given index.
    Absolute { memory: u32, offset: u32 },
    /// Placed at an address held in a global, in the memory with the given index.
    Relative { memory: u32 },
}

/// One data segment of a module: where it goes and its bytes.
#[derive(Clone, Debug)]
pub struct DataSegment {
    pub placement: DataPlacement,
    pub value: Vec<u8>,
}

/// The mathematical content of a data segment.
pub struct DataSegmentView {
    pub placement: DataPlacement,
    pub value: Seq<u8>,
}

impl View for DataSegment {
    type V = DataSegmentView;

    open spec fn view(&self) -> DataSegmentView {
        DataSegmentView { placement: self.placement, value: self.value@ }
    }
}

/// An item of a module (what an export names, or what an import declares), by its index among
/// the module's items of that kind.
#[derive(Clone, Copy, Debug, PartialEq, Eq, Structural)]
pub enum ExportTarget {
    Function(u32),
    Table(u32),
    Memory(u32),
    Global(u32),
}

/// One export of a module: its name and the item it exports.
#[derive(Clone, Debug)]
pub struct ExportEntry {
    pub name: String,
    pub target: ExportTarget,
}

/// The mathematical content of an export.
pub struct ExportEntryView {
    pub name: Seq<char>,
    pub target: ExportTarget,
}

impl View for ExportEntry {
    type V = ExportEntryView;

    open spec fn view(&self) -> ExportEntryView {
        ExportEntryView { name: self.name@, target: self.target }
    }
}

/// One import of a module: the module it is imported from, its name, and the item it declares
/// (by its index among the module's items of that kind).
#[derive(Clone, Debug)]
pub struct ImportEntry {
    pub module: String,
    pub name: String,
    pub kind: ExportTarget,
}

/// The mathematical content of an import.
pub struct ImportEntryView {
    pub module: Seq<char>,
    pub name: Seq<char>,
    pub kind: ExportTarget,
}

impl View for ImportEntry {
    type V = ImportEntryView;

    open spec fn view(&self) -> ImportEntryView {
        ImportEntryView { module: self.module@, name: self.name@, kind: self.kind }
    }
}

/// Where an element segment places its function references.
#[derive(Clone, Copy, Debug, PartialEq, Eq, Structural)]
pub enum ElementPlacement {
    /// Not placed automatically.
    Passive,
    /// Only declares the functions it refers to.
    Declared,
    /// Placed into the table with the given index, at the given offset where that is a 32-bit
    /// constant (`None` for any other offset expression).
    Active { table: u32, offset: Option<i32> },
}

/// One element segment of a module: where it goes and its members (function indices, or none
/// for an empty slot).
#[derive(Clone, Debug)]
pub struct ElementSegment {
    pub placement: ElementPlacement,
    pub members: Vec<Option<u32>>,
}

/// The mathematical content of an element segment.
pub struct ElementSegmentView {
    pub placement: ElementPlacement,
    pub members: Seq<Option<u32>>,
}

impl View for ElementSegment {
    type V = ElementSegmentView;

    open spec fn view(&self) -> ElementSegmentView {
        ElementSegmentView { placement: self.placement, members: self.members@ }
    }
}

/// Whether `bytes` is a WebAssembly binary that the module parser accepts.
pub uninterp spec fn wasm_parses(bytes: Seq<u8>) -> bool;

/// The indices of the memories of the module parsed from `bytes`, in declaration order.
pub uninterp spec fn wasm_memory_ids(bytes: Seq<u8>) -> Seq<u32>;

/// The indices of the functions of the module parsed from `bytes`, in declaration order.
pub uninterp spec fn wasm_function_ids(bytes: Seq<u8>) -> Seq<u32>;

/// The indices of the globals of the module parsed from `bytes`, in declaration order.
pub uninterp spec fn wasm_global_ids(bytes: Seq<u8>) -> Seq<u32>;

/// The indices of the tables of the module parsed from `bytes`, in declaration order.
pub uninterp spec fn wasm_table_ids(bytes: Seq<u8>) -> Seq<u32>;

/// The element segments of the module parsed from `bytes`, in declaration order.
pub uninterp spec fn wasm_element_segments(bytes: Seq<u8>) -> Seq<ElementSegmentView>;

/// The data segments of the module parsed from `bytes`, in declaration order.
pub uninterp spec fn wasm_data_segments(bytes: Seq<u8>) -> Seq<DataSegmentView>;

/// The exports of the module parsed from `bytes`, in declaration order.
pub uninterp spec fn wasm_exports(bytes: Seq<u8>) -> Seq<ExportEntryView>;

/// The imports of the module parsed from `bytes`, in declaration order.
pub uninterp spec fn wasm_imports(bytes: Seq<u8>) -> Seq<ImportEntryView>;

/// The binary that `walrus` emits for the module parsed from `bytes` once a function of no
/// parameters, which pushes `expression` and `state` as 32-bit constants and calls the first
/// function exported as `target`, has been added and exported as `export_name`.
pub uninterp spec fn wasm_with_entry_point(
    bytes: Seq<u8>,
    export_name: Seq<char>,
    expression: u32,
    state: u32,
    target: Seq<char>,
) -> Seq<u8>;

/// A parsed WebAssembly module. While it is unmodified it remembers the binary it was parsed
/// from, so that what is read from it can be stated in terms of those bytes; after an edit it
/// remembers the binary that emitting it gives.
pub struct WasmModule {
    ast: walrus::Module,
    source: Ghost<Option<Seq<u8>>>,
    emitted: Ghost<Option<Seq<u8>>>,
}

impl WasmModule {
    /// The binary this module was parsed from, while it is unmodified.
    pub closed spec fn source(&self) -> Option<Seq<u8>> {
        self.source@
    }

    /// The binary that emitting this module gives, where an edit has made it known.
    pub closed spec fn emitted(&self) -> Option<Seq<u8>> {
        self.emitted@
    }
}

/// Parses a WebAssembly binary with `walrus::Module::from_buffer`. Claimed of it: whether it
/// succeeds depends on the bytes alone, and the module it gives is the one those bytes
/// describe. The error value is not described.
#[verifier::external_body]
pub(crate) fn parse_wasm_module(bytes: &[u8]) -> (result: Result<WasmModule, anyhow::Error>)
    ensures
        result is Ok <==> wasm_parses(bytes@),
        result matches Ok(module) ==> module.source() == Some(bytes@),
{
    walrus::Module::from_buffer(bytes).map(|ast| WasmModule { ast, source: Ghost(Some(bytes@)), emitted: Ghost(None) })
}

/// Lists the memories of a module through `walrus::ModuleMemories::iter`, each by its arena
/// index. Claimed: for an unmodified module, the list is the module's memories in declaration
/// order. Of a modified module nothing is claimed.
#[verifier::external_body]
pub(crate) fn module_memory_ids(module: &WasmModule) -> (result: Vec<u32>)
    ensures
        module.source() matches Some(bytes) ==> result@ == wasm_memory_ids(bytes),
{
    module.ast.memories.iter().map(|memory| memory.id().index() as u32).collect()
}

/// Lists the functions of a module through `walrus::ModuleFunctions::iter`, each by its arena
/// index. Claimed: for an unmodified module, the list is the module's functions in declaration
/// order. Of a modified module nothing is claimed.
#[verifier::external_body]
pub(crate) fn module_function_ids(module: &WasmModule) -> (result: Vec<u32>)
    ensures
        module.source() matches Some(bytes) ==> result@ == wasm_function_ids(bytes),
{
    module.ast.funcs.iter().map(|function| function.id().index() as u32).collect()
}

/// Lists the globals of a module through `walrus::ModuleGlobals::iter`, each by its arena index.
/// Claimed: for an unmodified module, the list is the module's globals in declaration order. Of
/// a modified module nothing is claimed.
#[verifier::external_body]
pub(crate) fn module_global_ids(module: &WasmModule) -> (result: Vec<u32>)
    ensures
        module.source() matches Some(bytes) ==> result@ == wasm_global_ids(bytes),
{
    module.ast.globals.iter().map(|global| global.id().index() as u32).collect()
}

/// Lists the tables of a module through `walrus::ModuleTables::iter`, each by its arena index.
/// Claimed: for an unmodified module, the list is the module's tables in declaration order. Of
/// a modified module nothing is claimed.
#[verifier::external_body]
pub(crate) fn module_table_ids(module: &WasmModule) -> (result: Vec<u32>)
    ensures
        module.source() matches Some(bytes) ==> result@ == wasm_table_ids(bytes),
{
    module.ast.tables.iter().map(|table| table.id().index() as u32).collect()
}

/// Lists the element segments of a module through `walrus::ModuleElements::iter`, each
/// converted to its placement (with its offset where that is a 32-bit constant) and the arena
/// indices of its members. Claimed: for an unmodified module, the list is the module's element
/// segments in declaration order. Of a modified module nothing is claimed.
#[verifier::external_body]
pub(crate) fn module_element_segments(module: &WasmModule) -> (result: Vec<ElementSegment>)
    ensures
        module.source() matches Some(bytes) ==> {
            &&& result@.len() == wasm_element_segments(bytes).len()
            &&& forall|i: int| 0 <= i < result@.len() ==> #[trigger] result@[i]@ == wasm_element_segments(bytes)[i]
        },
{
    module.ast.elements.iter().map(|element| ElementSegment {
        placement: match element.kind {
            walrus::ElementKind::Passive => ElementPlacement::Passive,
            walrus::ElementKind::Declared => ElementPlacement::Declared,
            walrus::ElementKind::Active { table, offset: walrus::InitExpr::Value(walrus::ir::Value::I32(offset)) } =>
                ElementPlacement::Active { table: table.index() as u32, offset: Some(offset) },
            walrus::ElementKind::Active { table, .. } => ElementPlacement::Active { table: table.index() as u32, offset: None },
        },
        members: element.members.iter().map(|member| member.map(|id| id.index() as u32)).collect(),
    }).collect()
}

/// Lists the data segments of a module through `walrus::ModuleData::iter`, each converted to
/// its placement and bytes. Claimed: for an unmodified module, the list is the module's data
/// segments in declaration order. Of a modified module nothing is claimed.
#[verifier::external_body]
pub(crate) fn module_data_segments(module: &WasmModule) -> (result: Vec<DataSegment>)
    ensures
        module.source() matches Some(bytes) ==> {
            &&& result@.len() == wasm_data_segments(bytes).len()
            &&& forall|i: int| 0 <= i < result@.len() ==> #[trigger] result@[i]@ == wasm_data_segments(bytes)[i]
        },
{
    module.ast.data.iter().map(|data| DataSegment {
        placement: match &data.kind {
            walrus::DataKind::Passive => DataPlacement::Passive,
            walrus::DataKind::Active(active) => match active.location {
                walrus::ActiveDataLocation::Absolute(offset) => DataPlacement::Absolute { memory: active.memory.index() as u32, offset },
                walrus::ActiveDataLocation::Relative(_) => DataPlacement::Relative { memory: active.memory.index() as u32 },
            },
        },
        value: data.value.clone(),
    }).collect()
}

/// Lists the exports of a module through `walrus::ModuleExports::iter`, each converted to its
/// name and the index of the item it exports. Claimed: for an unmodified module, the list is the
/// module's exports in declaration order. Of a modified module nothing is claimed.
#[verifier::external_body]
pub(crate) fn module_exports(module: &WasmModule) -> (result: Vec<ExportEntry>)
    ensures
        module.source() matches Some(bytes) ==> {
            &&& result@.len() == wasm_exports(bytes).len()
            &&& forall|i: int| 0 <= i < result@.len() ==> #[trigger] result@[i]@ == wasm_exports(bytes)[i]
        },
{
    module.ast.exports.iter().map(|export| ExportEntry {
        name: export.name.clone(),
        target: match export.item {
            walrus::ExportItem::Function(id) => ExportTarget::Function(id.index() as u32),
            walrus::ExportItem::Table(id) => ExportTarget::Table(id.index() as u32),
            walrus::ExportItem::Memory(id) => ExportTarget::Memory(id.index() as u32),
            walrus::ExportItem::Global(id) => ExportTarget::Global(id.index() as u32),
        },
    }).collect()
}

/// Lists the imports of a module through `walrus::ModuleImports::iter`, each converted to its
/// module name, name and the index of the item it declares. Claimed: for an unmodified module,
/// the list is the module's imports in declaration order. Of a modified module nothing is
/// claimed.
#[verifier::external_body]
pub(crate) fn module_imports(module: &WasmModule) -> (result: Vec<ImportEntry>)
    ensures
        module.source() matches Some(bytes) ==> {
            &&& result@.len() == wasm_imports(bytes).len()
            &&& forall|i: int| 0 <= i < result@.len() ==> #[trigger] result@[i]@ == wasm_imports(bytes)[i]
        },
{
    module.ast.imports.iter().map(|import| ImportEntry {
        module: import.module.clone(),
        name: import.name.clone(),
        kind: match import.kind {
            walrus::ImportKind::Function(id) => ExportTarget::Function(id.index() as u32),
            walrus::ImportKind::Table(id) => ExportTarget::Table(id.index() as u32),
            walrus::ImportKind::Memory(id) => ExportTarget::Memory(id.index() as u32),
            walrus::ImportKind::Global(id) => ExportTarget::Global(id.index() as u32),
        },
    }).collect()
}

/// The index of the first function exported under `name`, if there is one.
pub open spec fn first_function_export(exports: Seq<ExportEntryView>, name: Seq<char>) -> Option<u32>
    decreases exports.len(),
{
    if exports.len() == 0 {
        None
    } else if exports[0].name == name && exports[0].target is Function {
        Some(exports[0].target->Function_0)
    } else {
        first_function_export(exports.drop_first(), name)
    }
}

/// Adds a function of no parameters that pushes `expression_pointer` and `state_pointer` as
/// 32-bit constants and calls the function exported as `target` (found with
/// `walrus::ModuleExports::get_func`, which panics on no input admitted here), built with
/// `walrus::FunctionBuilder`, and exports it as `export_name` with `walrus::ModuleExports::add`.
/// Claimed: afterwards the module no longer describes its source binary, and emitting it gives
/// `wasm_with_entry_point` of that binary and these arguments (`walrus` emits deterministically).
#[verifier::external_body]
pub(crate) fn add_entry_point_function(
    module: &mut WasmModule,
    export_name: &str,
    expression_pointer: u32,
    state_pointer: u32,
    target: &str,
)
    requires
        old(module).source() matches Some(bytes) && first_function_export(wasm_exports(bytes), target@) is Some,
    ensures
        final(module).source() is None,
        final(module).emitted() == Some(
            wasm_with_entry_point(old(module).source()->0, export_name@, expression_pointer, state_pointer, target@),
        ),
{
    let target_id = module.ast.exports.get_func(target).unwrap();
    let results = [walrus::ValType::I32, walrus::ValType::I32];
    let mut builder = walrus::FunctionBuilder::new(&mut module.ast.types, &[], &results);
    builder.func_body().i32_const(expression_pointer as i32).i32_const(state_pointer as i32).call(target_id);
    let function_id = builder.finish(Vec::new(), &mut module.ast.funcs);
    module.ast.exports.add(export_name, function_id);
    module.emitted = Ghost(Some(wasm_with_entry_point(module.source@->0, export_name@, expression_pointer, state_pointer, target@)));
    module.source = Ghost(None);
}

/// Serializes the module to a WebAssembly binary with `walrus::Module::emit_wasm`. Claimed:
/// where an edit made the emitted binary known, these are its bytes.
#[verifier::external_body]
pub(crate) fn emit_wasm_module(module: WasmModule) -> (result: Vec<u8>)
    ensures
        module.emitted() matches Some(bytes) ==> result@ == bytes,
{
    let mut ast = module.ast;
    ast.emit_wasm()
}

/// Renders an error in its `Display` form (`anyhow::Error`'s `Display`, through `format!`).
/// Nothing is claimed of the text.
#[verifier::external_body]
pub(crate) fn error_display(error: &anyhow::Error) -> String {
    format!("{}", error)
}

/// Renders an error in its `Debug` form (`anyhow::Error`'s `Debug`, through `format!`), which
/// adds its chain of causes. Nothing is claimed of the text.
#[verifier::external_body]
pub(crate) fn error_debug(error: &anyhow::Error) -> String {
    format!("{:?}", error)
}

} // verus!
