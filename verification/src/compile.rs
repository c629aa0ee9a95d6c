//! The direct term compiler's view of the runtime module: the handful of runtime builtins that
//! its output calls, and the one data section that holds the initial heap.
use vstd::prelude::*;
use vstd::string::StringExecFns;

use crate::compiler::error::{compiler_error_text, CompilerError};
use crate::cli::compile::{exported_function, export_views, find_exported_function};
use crate::wasm_module::{
    error_display, module_data_segments, module_exports, parse_wasm_module, wasm_data_segments, wasm_exports, wasm_parses,
    DataPlacement, DataSegment, DataSegmentView, ExportEntry, ExportEntryView, WasmModule,
};

verus! {

/// A function of the interpreter runtime that directly compiled terms call.
#[derive(Copy, Clone, Debug, Eq, PartialEq, Hash, Structural)]
pub enum RuntimeBuiltin {
    Initialize,
    Evaluate,
    CreateApplication,
    CreateBoolean,
    CreateBuiltin,
    CreateFloat,
    CreateInt,
    AllocateList,
    InitList,
    SetListItem,
}

/// How many of these builtins there are.
pub const RUNTIME_BUILTIN_COUNT: usize = 10;

impl RuntimeBuiltin {
    /// The name under which the runtime exports this builtin.
    pub open spec fn spec_name(self) -> Seq<char> {
        match self {
            RuntimeBuiltin::Initialize => "_initialize"@,
            RuntimeBuiltin::Evaluate => "evaluate"@,
            RuntimeBuiltin::CreateApplication => "createApplication"@,
            RuntimeBuiltin::CreateBoolean => "createBoolean"@,
            RuntimeBuiltin::CreateBuiltin => "createBuiltin"@,
            RuntimeBuiltin::CreateFloat => "createFloat"@,
            RuntimeBuiltin::CreateInt => "createInt"@,
            RuntimeBuiltin::AllocateList => "allocateList"@,
            RuntimeBuiltin::InitList => "initList"@,
            RuntimeBuiltin::SetListItem => "setListItem"@,
        }
    }

    /// The name under which the runtime exports this builtin.
    pub fn name(self) -> (result: &'static str)
        ensures
            result@ == self.spec_name(),
    {
        match self {
            RuntimeBuiltin::Initialize => "_initialize",
            RuntimeBuiltin::Evaluate => "evaluate",
            RuntimeBuiltin::CreateApplication => "createApplication",
            RuntimeBuiltin::CreateBoolean => "createBoolean",
            RuntimeBuiltin::CreateBuiltin => "createBuiltin",
            RuntimeBuiltin::CreateFloat => "createFloat",
            RuntimeBuiltin::CreateInt => "createInt",
            RuntimeBuiltin::AllocateList => "allocateList",
            RuntimeBuiltin::InitList => "initList",
            RuntimeBuiltin::SetListItem => "setListItem",
        }
    }

    /// The position of this builtin in declaration order.
    pub open spec fn position(self) -> int {
        match self {
            RuntimeBuiltin::Initialize => 0,
            RuntimeBuiltin::Evaluate => 1,
            RuntimeBuiltin::CreateApplication => 2,
            RuntimeBuiltin::CreateBoolean => 3,
            RuntimeBuiltin::CreateBuiltin => 4,
            RuntimeBuiltin::CreateFloat => 5,
            RuntimeBuiltin::CreateInt => 6,
            RuntimeBuiltin::AllocateList => 7,
            RuntimeBuiltin::InitList => 8,
            RuntimeBuiltin::SetListItem => 9,
        }
    }

    /// The builtin at `position` in declaration order.
    pub fn from_position(position: usize) -> (result: RuntimeBuiltin)
        requires
            position < RUNTIME_BUILTIN_COUNT,
        ensures
            result.position() == position,
    {
        match position {
            0 => RuntimeBuiltin::Initialize,
            1 => RuntimeBuiltin::Evaluate,
            2 => RuntimeBuiltin::CreateApplication,
            3 => RuntimeBuiltin::CreateBoolean,
            4 => RuntimeBuiltin::CreateBuiltin,
            5 => RuntimeBuiltin::CreateFloat,
            6 => RuntimeBuiltin::CreateInt,
            7 => RuntimeBuiltin::AllocateList,
            8 => RuntimeBuiltin::InitList,
            _ => RuntimeBuiltin::SetListItem,
        }
    }
}

/// Distinct builtins sit at distinct positions, all below the number of builtins.
pub proof fn law_builtin_positions(a: RuntimeBuiltin, b: RuntimeBuiltin)
    ensures
        0 <= a.position() < RUNTIME_BUILTIN_COUNT,
        a.position() == b.position() ==> a == b,
{
}

/// A failure to compile terms into a runtime module.
#[derive(Debug)]
pub enum WasmCompilerError {
    ModuleLoadError(anyhow::Error),
    DataSectionNotFound,
    MultipleDataSections,
    InvalidDataSection,
    CompilerError(CompilerError),
    RuntimeBuiltinNotFound(RuntimeBuiltin),
}

impl WasmCompilerError {
    /// The error message. That of a module that failed to load ends with the loader's own
    /// account of the failure.
    pub fn to_string(&self) -> (result: String)
        ensures
            match self {
                WasmCompilerError::ModuleLoadError(_) => "Failed to load WASM module: "@.is_prefix_of(result@),
                WasmCompilerError::DataSectionNotFound => result@ == "Data section definition not found"@,
                WasmCompilerError::MultipleDataSections => result@ == "Multiple data section definitions"@,
                WasmCompilerError::InvalidDataSection => result@ == "Invalid data section definition"@,
                WasmCompilerError::CompilerError(error) => result@ == "Failed to compile WASM output: "@ + compiler_error_text(*error),
                WasmCompilerError::RuntimeBuiltinNotFound(target) => result@ == "Runtime builtin not found: "@ + target.spec_name(),
            },
    {
        match self {
            WasmCompilerError::ModuleLoadError(error) => {
                let text = String::from_str("Failed to load WASM module: ").concat(error_display(error).as_str());
                assert("Failed to load WASM module: "@.is_prefix_of(text@));
                text
            },
            WasmCompilerError::DataSectionNotFound => String::from_str("Data section definition not found"),
            WasmCompilerError::MultipleDataSections => String::from_str("Multiple data section definitions"),
            WasmCompilerError::InvalidDataSection => String::from_str("Invalid data section definition"),
            WasmCompilerError::CompilerError(error) => String::from_str("Failed to compile WASM output: ").concat(error.to_string().as_str()),
            WasmCompilerError::RuntimeBuiltinNotFound(target) => String::from_str("Runtime builtin not found: ").concat(target.name()),
        }
    }
}

/// The runtime functions that directly compiled terms call, by function index: entry `i`
/// belongs to the builtin at position `i`.
#[derive(Clone, Debug)]
pub struct RuntimeBuiltinMappings {
    pub functions: Vec<u32>,
}

impl RuntimeBuiltinMappings {
    /// Whether there is an entry for every builtin.
    pub open spec fn is_complete(&self) -> bool {
        self.functions@.len() == RUNTIME_BUILTIN_COUNT
    }

    /// The function index of `builtin`.
    pub open spec fn function(&self, builtin: RuntimeBuiltin) -> u32 {
        self.functions@[builtin.position()]
    }

    /// The function index of `builtin`.
    pub fn get(&self, builtin: RuntimeBuiltin) -> (result: u32)
        requires
            self.is_complete(),
        ensures
            result == self.function(builtin),
    {
        let mut position: usize = 0;
        while position < RUNTIME_BUILTIN_COUNT
            invariant
                position <= builtin.position(),
                self.is_complete(),
            decreases RUNTIME_BUILTIN_COUNT - position,
        {
            if RuntimeBuiltin::from_position(position) == builtin {
                return self.functions[position];
            }
            position = position + 1;
        }
        self.functions[0]
    }
}

/// Whether `result` is what locating the builtins among `exports` gives: where a builtin is not
/// exported as a function the error names `Initialize`, whichever builtin it was; otherwise
/// each builtin maps to the last function exported under its name.
pub open spec fn is_runtime_builtins_of(
    exports: Seq<ExportEntryView>,
    result: Result<RuntimeBuiltinMappings, WasmCompilerError>,
) -> bool {
    if exists|builtin: RuntimeBuiltin| exported_function(exports, builtin.spec_name()) is None {
        result matches Err(WasmCompilerError::RuntimeBuiltinNotFound(reported))
            && reported == RuntimeBuiltin::Initialize
    } else {
        result matches Ok(mappings) && mappings.is_complete()
            && forall|builtin: RuntimeBuiltin|
                Some(#[trigger] mappings.function(builtin)) == exported_function(exports, builtin.spec_name())
    }
}

/// Parses the runtime module from its binary.
pub fn parse_wasm_ast(runtime_wasm: &[u8]) -> (result: Result<WasmModule, WasmCompilerError>)
    ensures
        result matches Err(WasmCompilerError::ModuleLoadError(_)) <==> !wasm_parses(runtime_wasm@),
        result matches Ok(module) ==> module.source() == Some(runtime_wasm@),
        !(result matches Err(WasmCompilerError::DataSectionNotFound)),
        !(result matches Err(WasmCompilerError::MultipleDataSections)),
        !(result matches Err(WasmCompilerError::InvalidDataSection)),
        !(result matches Err(WasmCompilerError::RuntimeBuiltinNotFound(_))),
{
    match parse_wasm_module(runtime_wasm) {
        Ok(module) => Ok(module),
        Err(error) => Err(WasmCompilerError::ModuleLoadError(error)),
    }
}

/// Locates every builtin among the runtime module's function exports; for an unmodified
/// module, as `is_runtime_builtins_of` says of the exports of its binary.
pub fn parse_runtime_builtins(module: &WasmModule) -> (result: Result<RuntimeBuiltinMappings, WasmCompilerError>)
    ensures
        module.source() matches Some(bytes) ==> is_runtime_builtins_of(wasm_exports(bytes), result),
{
    let exports = module_exports(module);
    proof {
        if let Some(bytes) = module.source() {
            assert(export_views(exports@) =~= wasm_exports(bytes));
        }
    }
    runtime_builtins_from_exports(&exports)
}

/// Locates every builtin among the runtime's function exports (the last export of a name where
/// several share it). Where one is missing the error names `Initialize`, whichever builtin it
/// was.
pub fn runtime_builtins_from_exports(exports: &Vec<ExportEntry>) -> (result: Result<RuntimeBuiltinMappings, WasmCompilerError>)
    ensures
        is_runtime_builtins_of(export_views(exports@), result),
{
    let ghost views = export_views(exports@);
    let mut functions: Vec<u32> = Vec::new();
    let mut position: usize = 0;
    while position < RUNTIME_BUILTIN_COUNT
        invariant
            position <= RUNTIME_BUILTIN_COUNT,
            views == export_views(exports@),
            functions@.len() == position,
            forall|builtin: RuntimeBuiltin| #[trigger] builtin.position() < position
                ==> Some(functions@[builtin.position()]) == exported_function(views, builtin.spec_name()),
        decreases RUNTIME_BUILTIN_COUNT - position,
    {
        let builtin = RuntimeBuiltin::from_position(position);
        match find_exported_function(exports, builtin.name()) {
            Some(index) => {
                functions.push(index);
                proof {
                    assert forall|other: RuntimeBuiltin| #[trigger] other.position() < position + 1 implies
                        Some(functions@[other.position()]) == exported_function(views, other.spec_name()) by {
                        if other.position() == position {
                            law_builtin_positions(other, builtin);
                        }
                    }
                }
            },
            None => {
                return Err(WasmCompilerError::RuntimeBuiltinNotFound(RuntimeBuiltin::Initialize));
            },
        }
        position = position + 1;
    }
    proof {
        assert forall|builtin: RuntimeBuiltin| exported_function(views, builtin.spec_name()) is Some by {
            law_builtin_positions(builtin, builtin);
        }
    }
    Ok(RuntimeBuiltinMappings { functions })
}

/// Whether a data segment initializes linear memory from address zero.
pub open spec fn is_heap_snapshot_segment(segment: DataSegmentView) -> bool {
    segment.placement matches DataPlacement::Absolute { offset, .. } && offset == 0
}

/// Whether `result` is the position of the data section that holds the initial heap among
/// `segments`: there must be exactly one data section, and it must be written at address zero.
pub open spec fn is_heap_snapshot_position(segments: Seq<DataSegmentView>, result: Result<usize, WasmCompilerError>) -> bool {
    if segments.len() == 0 {
        result matches Err(WasmCompilerError::DataSectionNotFound)
    } else if segments.len() > 1 {
        result matches Err(WasmCompilerError::MultipleDataSections)
    } else if is_heap_snapshot_segment(segments[0]) {
        result matches Ok(0usize)
    } else {
        result matches Err(WasmCompilerError::InvalidDataSection)
    }
}

/// Picks the runtime module's data section that holds the initial heap; for an unmodified
/// module, as `is_heap_snapshot_position` says of the data segments of its binary.
pub fn get_data_section_instruction_id(module: &WasmModule) -> (result: Result<usize, WasmCompilerError>)
    ensures
        module.source() matches Some(bytes) ==> is_heap_snapshot_position(wasm_data_segments(bytes), result),
{
    let segments = module_data_segments(module);
    proof {
        if let Some(bytes) = module.source() {
            assert(segments@.map_values(|segment: DataSegment| segment@) =~= wasm_data_segments(bytes));
            assert(segments@.len() == 1 ==> segments@[0]@ == wasm_data_segments(bytes)[0]);
        }
    }
    heap_snapshot_segment_position(&segments)
}

/// Picks the data section that holds the initial heap: there must be exactly one, and it must
/// be written at address zero. Gives its position among the data segments.
pub fn heap_snapshot_segment_position(segments: &Vec<DataSegment>) -> (result: Result<usize, WasmCompilerError>)
    ensures
        is_heap_snapshot_position(segments@.map_values(|segment: DataSegment| segment@), result),
{
    assert(segments@.len() == 1 ==> segments@.map_values(|segment: DataSegment| segment@)[0] == segments@[0]@);
    if segments.len() == 0 {
        Err(WasmCompilerError::DataSectionNotFound)
    } else if segments.len() > 1 {
        Err(WasmCompilerError::MultipleDataSections)
    } else {
        match segments[0].placement {
            DataPlacement::Absolute { offset, .. } => if offset == 0 {
                Ok(0)
            } else {
                Err(WasmCompilerError::InvalidDataSection)
            },
            _ => Err(WasmCompilerError::InvalidDataSection),
        }
    }
}

} // verus!
