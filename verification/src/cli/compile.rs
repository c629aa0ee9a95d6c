use vstd::prelude::*;
use vstd::string::StringExecFns;
use vstd::string::StrSliceExecFns;

use crate::compiler::error::TypedStackError;
use crate::compiler::runtime::builtin::RuntimeBuiltin;
use crate::compiler::globals::RuntimeGlobal;
use crate::compiler::runtime::builtin::{
    law_builtin_lookup_ranks, law_builtin_positions, REQUIRED_BUILTIN_COUNT, RUNTIME_BUILTIN_COUNT,
};
use crate::exports::{pad_to_next, spec_pad_to_next, WASM_PAGE_SIZE};
use crate::compiler::wasm::generate::{
    builtin_position, generator_error_text, RuntimeBuiltinMappings, RuntimeStdlibMappings, RuntimeExportMappings, RuntimeGlobalMappings, WasmGeneratorError,
    WasmGeneratorOptions,
};
use crate::compiler::{CompiledFunctionId, CompilerOptions};
use crate::pointer::ArenaPointer;
use crate::compiler::error::stack_error_text;
use crate::compiler::function_id_text;
use crate::wasm_module::error_debug;
use crate::wasm_module::{
    module_data_segments, module_element_segments, module_exports, module_memory_ids, module_table_ids,
    parse_wasm_module, wasm_data_segments, wasm_element_segments, wasm_exports, wasm_memory_ids, wasm_parses,
    wasm_table_ids, WasmModule, DataPlacement, DataSegment, DataSegmentView, ExportEntry, ExportEntryView,
    ExportTarget, ElementPlacement, ElementSegment, ElementSegmentView,
};

verus! {

/// The name under which a compiled entry point is exported from the module.
#[derive(PartialEq, Eq, Clone, Hash, Debug)]
pub struct ModuleEntryPoint(String);

impl View for ModuleEntryPoint {
    type V = Seq<char>;

    closed spec fn view(&self) -> Seq<char> {
        self.0@
    }
}

impl ModuleEntryPoint {
    /// The entry point exported under `value`.
    pub fn named(value: &str) -> (result: ModuleEntryPoint)
        ensures
            result@ == value@,
    {
        ModuleEntryPoint(String::from_str(value))
    }

    /// The export name.
    pub fn as_str(&self) -> (result: &str)
        ensures
            result@ == self@,
    {
        self.0.as_str()
    }
}

impl Default for ModuleEntryPoint {
    /// The conventional entry point, `main`.
    fn default() -> (result: ModuleEntryPoint)
        ensures
            result@ == "main"@,
    {
        ModuleEntryPoint(String::from_str("main"))
    }
}

impl From<String> for ModuleEntryPoint {
    fn from(value: String) -> (result: ModuleEntryPoint)
        ensures
            result@ == value@,
    {
        ModuleEntryPoint(value)
    }
}

impl vstd::std_specs::convert::FromSpecImpl<String> for ModuleEntryPoint {
    open spec fn obeys_from_spec() -> bool {
        true
    }

    closed spec fn from_spec(value: String) -> ModuleEntryPoint {
        ModuleEntryPoint(value)
    }
}

impl From<ModuleEntryPoint> for String {
    fn from(value: ModuleEntryPoint) -> (result: String)
        ensures
            result@ == value@,
    {
        let ModuleEntryPoint(value) = value;
        value
    }
}

impl vstd::std_specs::convert::FromSpecImpl<ModuleEntryPoint> for String {
    open spec fn obeys_from_spec() -> bool {
        true
    }

    closed spec fn from_spec(value: ModuleEntryPoint) -> String {
        value.0
    }
}

/// The index of the first occurrence of `separator` in `value`, if any.
pub open spec fn first_index_of(value: Seq<char>, separator: char) -> Option<nat>
    decreases value.len(),
{
    if value.len() == 0 {
        None
    } else if value[0] == separator {
        Some(0)
    } else {
        match first_index_of(value.drop_first(), separator) {
            Some(index) => Some(index + 1),
            None => None,
        }
    }
}

/// The parts of `value` before and after the first `separator`, if it has one.
pub open spec fn spec_split_at_separator(separator: char, value: Seq<char>) -> Option<(Seq<char>, Seq<char>)> {
    match first_index_of(value, separator) {
        Some(index) => Some((value.subrange(0, index as int), value.subrange(index + 1int, value.len() as int))),
        None => None,
    }
}

/// Ties the first occurrence of a character to a scan that has passed over `index` characters.
proof fn lemma_first_index_of(value: Seq<char>, separator: char, index: int)
    requires
        0 <= index <= value.len(),
        forall|j: int| 0 <= j < index ==> value[j] != separator,
    ensures
        index < value.len() && value[index] == separator ==> first_index_of(value, separator) == Some(index as nat),
        index == value.len() ==> first_index_of(value, separator) is None,
    decreases index,
{
    if value.len() > 0 && index > 0 {
        assert forall|j: int| 0 <= j < index - 1 implies value.drop_first()[j] != separator by {
            assert(value.drop_first()[j] == value[j + 1]);
        }
        lemma_first_index_of(value.drop_first(), separator, index - 1);
    }
}

/// Splits `value` at the first occurrence of `separator`, leaving the separator out; `None`
/// where it does not occur.
pub fn split_at_separator<'a>(separator: char, value: &'a str) -> (result: Option<(&'a str, &'a str)>)
    ensures
        match spec_split_at_separator(separator, value@) {
            Some((left, right)) => result matches Some((l, r)) && l@ == left && r@ == right,
            None => result is None,
        },
{
    let length = value.unicode_len();
    let mut index: usize = 0;
    while index < length
        invariant
            length == value@.len(),
            index <= length,
            forall|j: int| 0 <= j < index ==> value@[j] != separator,
        decreases length - index,
    {
        if value.get_char(index) == separator {
            proof {
                lemma_first_index_of(value@, separator, index as int);
            }
            let left = value.substring_char(0, index);
            let right = value.substring_char(index + 1, length);
            return Some((left, right));
        }
        index = index + 1;
    }
    proof {
        lemma_first_index_of(value@, separator, index as int);
    }
    None
}

/// The lower-case form of a string, as `str::to_lowercase` gives it (Unicode case mapping).
pub uninterp spec fn lowercase_of(value: Seq<char>) -> Seq<char>;

/// Lower-cases a string with `str::to_lowercase`. Claimed: the result depends on the string
/// alone.
#[verifier::external_body]
fn to_lowercase(value: &str) -> (result: String)
    ensures
        result@ == lowercase_of(value@),
{
    value.to_lowercase()
}

/// The root source file of a Lisp (S-expression) entry point.
#[derive(Debug, Clone)]
pub struct LispCompilerRootConfig {
    pub path: String,
}

impl LispCompilerRootConfig {
    /// The root configuration for the source file at `path`.
    pub fn from_str(path: &str) -> (result: Result<Self, String>)
        ensures
            result matches Ok(config) && config.path@ == path@,
    {
        Ok(LispCompilerRootConfig { path: String::from_str(path) })
    }
}

/// The root source file of a JSON entry point.
#[derive(Debug, Clone)]
pub struct JsonCompilerRootConfig {
    pub path: String,
}

impl JsonCompilerRootConfig {
    /// The root configuration for the source file at `path`.
    pub fn from_str(path: &str) -> (result: Result<Self, String>)
        ensures
            result matches Ok(config) && config.path@ == path@,
    {
        Ok(JsonCompilerRootConfig { path: String::from_str(path) })
    }
}

/// The root source file of a JavaScript entry point.
#[derive(Debug, Clone)]
pub struct JavaScriptCompilerRootConfig {
    pub path: String,
}

impl JavaScriptCompilerRootConfig {
    /// The root configuration for the source file at `path`.
    pub fn from_str(path: &str) -> (result: Result<Self, String>)
        ensures
            result matches Ok(config) && config.path@ == path@,
    {
        Ok(JavaScriptCompilerRootConfig { path: String::from_str(path) })
    }
}

/// The syntax and root source file of an entry point.
#[derive(Debug, Clone)]
pub enum CompilerRootConfig {
    Lisp(LispCompilerRootConfig),
    Json(JsonCompilerRootConfig),
    JavaScript(JavaScriptCompilerRootConfig),
}

/// Whether `result` is what a root configuration of format `format` (lower-cased:
/// `lowercase_format`) and root path `root` parses to.
pub open spec fn is_root_config_for(
    result: Result<CompilerRootConfig, String>,
    format: Seq<char>,
    lowercase_format: Seq<char>,
    root: Seq<char>,
) -> bool {
    if lowercase_format == "sexpr"@ || lowercase_format == "lisp"@ {
        result matches Ok(CompilerRootConfig::Lisp(config)) && config.path@ == root
    } else if lowercase_format == "javascript"@ || lowercase_format == "js"@ {
        result matches Ok(CompilerRootConfig::JavaScript(config)) && config.path@ == root
    } else if lowercase_format == "json"@ {
        result matches Ok(CompilerRootConfig::Json(config)) && config.path@ == root
    } else {
        result matches Err(message) && message@ == "Unsupported entry point format: "@ + format
    }
}

/// Whether `a` and `b` are the same string.
pub(crate) fn same_text(a: &str, b: &str) -> (result: bool)
    ensures
        result == (a@ == b@),
{
    String::from_str(a) == String::from_str(b)
}

impl CompilerRootConfig {
    /// The root configuration for a format named `format`, whose lower-case form is
    /// `lowercase_format`, and the root path `root`: `sexpr` or `lisp`, `javascript` or `js`,
    /// and `json` are known (compared in lower case); any other format is refused with a
    /// message that names it as given.
    pub fn from_parts(format: &str, lowercase_format: &str, root: &str) -> (result: Result<Self, String>)
        ensures
            is_root_config_for(result, format@, lowercase_format@, root@),
    {
        if same_text(lowercase_format, "sexpr") || same_text(lowercase_format, "lisp") {
            match LispCompilerRootConfig::from_str(root) {
                Ok(config) => Ok(CompilerRootConfig::Lisp(config)),
                Err(message) => Err(message),
            }
        } else if same_text(lowercase_format, "javascript") || same_text(lowercase_format, "js") {
            match JavaScriptCompilerRootConfig::from_str(root) {
                Ok(config) => Ok(CompilerRootConfig::JavaScript(config)),
                Err(message) => Err(message),
            }
        } else if same_text(lowercase_format, "json") {
            match JsonCompilerRootConfig::from_str(root) {
                Ok(config) => Ok(CompilerRootConfig::Json(config)),
                Err(message) => Err(message),
            }
        } else {
            Err(String::from_str("Unsupported entry point format: ").concat(format))
        }
    }

    /// Parses `format:path`. The format is the text before the first `:` and must not be empty
    /// (else: `Missing entry point format`); it is matched case-insensitively.
    pub fn from_str(value: &str) -> (result: Result<Self, String>)
        ensures
            match spec_split_at_separator(':', value@) {
                Some((format, root)) if format.len() > 0 => is_root_config_for(
                    result,
                    format,
                    lowercase_of(format),
                    root,
                ),
                _ => result matches Err(message) && message@ == "Missing entry point format"@,
            },
    {
        match split_at_separator(':', value) {
            Some((format, root)) => {
                if format.unicode_len() > 0 {
                    let lowercase_format = to_lowercase(format);
                    Self::from_parts(format, lowercase_format.as_str(), root)
                } else {
                    Err(String::from_str("Missing entry point format"))
                }
            },
            None => Err(String::from_str("Missing entry point format")),
        }
    }
}

/// Runtime behaviour chosen at compile time.
#[derive(Clone, Copy, Debug, PartialEq, Eq, Structural)]
pub struct WasmCompilerRuntimeOptions {
    /// Whether compiled functions cache their results for each combination of arguments.
    pub memoize_lambdas: bool,
}

impl Default for WasmCompilerRuntimeOptions {
    fn default() -> (result: WasmCompilerRuntimeOptions)
        ensures
            !result.memoize_lambdas,
    {
        WasmCompilerRuntimeOptions { memoize_lambdas: false }
    }
}

/// Options for compiling a module: how expressions are compiled, how WebAssembly is generated,
/// and what the compiled code does at run time.
#[derive(Clone, Copy, Debug)]
pub struct WasmCompilerOptions {
    pub compiler: CompilerOptions,
    pub generator: WasmGeneratorOptions,
    pub runtime: WasmCompilerRuntimeOptions,
}

impl Default for WasmCompilerOptions {
    fn default() -> (result: WasmCompilerOptions)
        ensures
            result.compiler == CompilerOptions::spec_default(),
            !result.generator.disable_block_params,
            !result.runtime.memoize_lambdas,
    {
        WasmCompilerOptions {
            compiler: CompilerOptions::default_options(),
            generator: WasmGeneratorOptions::default_options(),
            runtime: WasmCompilerRuntimeOptions { memoize_lambdas: false },
        }
    }
}

/// The options a module is compiled with: as given, except that output that is to be optimized
/// never uses block parameters (the optimizer does not support them).
pub fn effective_compiler_options(options: &WasmCompilerOptions, unoptimized: bool) -> (result: WasmCompilerOptions)
    ensures
        result.compiler == options.compiler,
        result.runtime == options.runtime,
        result.generator.disable_block_params == (options.generator.disable_block_params || !unoptimized),
{
    if !unoptimized && !options.generator.disable_block_params {
        WasmCompilerOptions {
            compiler: options.compiler,
            generator: WasmGeneratorOptions { disable_block_params: true },
            runtime: options.runtime,
        }
    } else {
        *options
    }
}

/// A failure to compile or inspect a WebAssembly module.
#[derive(Debug)]
pub enum WasmCompilerError {
    /// An input file could not be read: its path and the reader's message.
    ReadError(String, String),
    /// An input file could not be parsed: its path and the parser's message.
    ParseError(String, String),
    ModuleLoadError(anyhow::Error),
    TableNotFound,
    MultipleTables,
    DataSectionNotFound,
    MultipleDataSections,
    InvalidDataSection,
    MemoryNotFound,
    MultipleMemories,
    InvalidFunctionTable,
    IndirectFunctionCallArityLookupNotFound,
    InvalidIndirectFunctionCallArityLookup,
    InvalidFunctionId(CompiledFunctionId),
    StackError(TypedStackError),
    CompilerError(anyhow::Error),
    TemplateError(anyhow::Error),
    /// The optimizer failed: its message.
    OptimizationError(String),
    /// The optimizer's files could not be handled: the file system's message.
    OptimizationFileSystemError(String),
    RuntimeGlobalNotFound(RuntimeGlobal),
    RuntimeBuiltinNotFound(RuntimeBuiltin),
    /// A standard library function that the runtime does not export, by name.
    StdlibBuiltinNotFound(String),
    GeneratorError(WasmGeneratorError),
}

/// The fixed messages of the compiler errors that carry no value.
pub open spec fn fixed_compiler_error_text(error: WasmCompilerError) -> Seq<char> {
    match error {
        WasmCompilerError::TableNotFound => "Indirect function call table definition not found"@,
        WasmCompilerError::MultipleTables => "Multiple indirect function call table definitions"@,
        WasmCompilerError::InvalidFunctionTable => "Invalid indirect function call table initializer"@,
        WasmCompilerError::IndirectFunctionCallArityLookupNotFound => "Indirect function call arity lookup function not found"@,
        WasmCompilerError::InvalidIndirectFunctionCallArityLookup => "Invalid indirect function call arity lookup function"@,
        WasmCompilerError::DataSectionNotFound => "Data section definition not found"@,
        WasmCompilerError::MultipleDataSections => "Multiple data section definitions"@,
        WasmCompilerError::MemoryNotFound => "Memory definition not found"@,
        WasmCompilerError::MultipleMemories => "Multiple memory definitions"@,
        WasmCompilerError::InvalidDataSection => "Invalid data section definition"@,
        _ => Seq::empty(),
    }
}

impl WasmCompilerError {
    /// The error message. That of a module that failed to load ends with the loader's own
    /// account of the failure.
    pub fn to_string(&self) -> (result: String)
        ensures
            match self {
                WasmCompilerError::ReadError(path, message) => result@ == "Failed to read input file "@ + path@ + ": "@ + message@,
                WasmCompilerError::ParseError(path, message) => result@ == "Failed to parse input file "@ + path@ + ": "@ + message@,
                WasmCompilerError::ModuleLoadError(_) => "Failed to load WASM module: "@.is_prefix_of(result@),
                WasmCompilerError::CompilerError(_) => "Failed to compile WASM output: "@.is_prefix_of(result@),
                WasmCompilerError::TemplateError(_) => "Failed to generate WASM template: "@.is_prefix_of(result@),
                WasmCompilerError::OptimizationError(message) => result@ == "Failed to optimize WASM output: "@ + message@,
                WasmCompilerError::OptimizationFileSystemError(message) => result@ == "Failed to generate optimized WASM output: "@ + message@,
                WasmCompilerError::StdlibBuiltinNotFound(name) => result@ == "Standard library function not found: "@ + name@,
                WasmCompilerError::InvalidFunctionId(id) => result@ == "Invalid function ID: "@ + function_id_text(*id),
                WasmCompilerError::StackError(error) => result@ == "Stack error: "@ + stack_error_text(error@),
                WasmCompilerError::RuntimeGlobalNotFound(target) => result@ == "Runtime global not found: "@ + "NULL"@
                    && *target == RuntimeGlobal::NullPointer,
                WasmCompilerError::RuntimeBuiltinNotFound(target) => result@ == "Runtime function not found: "@ + target.spec_name(),
                WasmCompilerError::GeneratorError(error) => result@ == "Failed to generate WASM bytecode: "@ + generator_error_text(*error),
                _ => result@ == fixed_compiler_error_text(*self),
            },
    {
        let text = match self {
            WasmCompilerError::ReadError(path, message) => {
                return String::from_str("Failed to read input file ").concat(path.as_str()).concat(": ").concat(message.as_str());
            },
            WasmCompilerError::ParseError(path, message) => {
                return String::from_str("Failed to parse input file ").concat(path.as_str()).concat(": ").concat(message.as_str());
            },
            WasmCompilerError::ModuleLoadError(error) => {
                let text = String::from_str("Failed to load WASM module: ").concat(error_debug(error).as_str());
                assert("Failed to load WASM module: "@.is_prefix_of(text@));
                return text;
            },
            WasmCompilerError::CompilerError(error) => {
                let text = String::from_str("Failed to compile WASM output: ").concat(error_debug(error).as_str());
                assert("Failed to compile WASM output: "@.is_prefix_of(text@));
                return text;
            },
            WasmCompilerError::TemplateError(error) => {
                let text = String::from_str("Failed to generate WASM template: ").concat(error_debug(error).as_str());
                assert("Failed to generate WASM template: "@.is_prefix_of(text@));
                return text;
            },
            WasmCompilerError::OptimizationError(message) => {
                return String::from_str("Failed to optimize WASM output: ").concat(message.as_str());
            },
            WasmCompilerError::OptimizationFileSystemError(message) => {
                return String::from_str("Failed to generate optimized WASM output: ").concat(message.as_str());
            },
            WasmCompilerError::StdlibBuiltinNotFound(name) => {
                return String::from_str("Standard library function not found: ").concat(name.as_str());
            },
            WasmCompilerError::TableNotFound => "Indirect function call table definition not found",
            WasmCompilerError::MultipleTables => "Multiple indirect function call table definitions",
            WasmCompilerError::InvalidFunctionTable => "Invalid indirect function call table initializer",
            WasmCompilerError::IndirectFunctionCallArityLookupNotFound => "Indirect function call arity lookup function not found",
            WasmCompilerError::InvalidIndirectFunctionCallArityLookup => "Invalid indirect function call arity lookup function",
            WasmCompilerError::DataSectionNotFound => "Data section definition not found",
            WasmCompilerError::MultipleDataSections => "Multiple data section definitions",
            WasmCompilerError::MemoryNotFound => "Memory definition not found",
            WasmCompilerError::MultipleMemories => "Multiple memory definitions",
            WasmCompilerError::InvalidDataSection => "Invalid data section definition",
            WasmCompilerError::InvalidFunctionId(id) => {
                return String::from_str("Invalid function ID: ").concat(id.to_string().as_str());
            },
            WasmCompilerError::StackError(error) => {
                return String::from_str("Stack error: ").concat(error.to_string().as_str());
            },
            WasmCompilerError::RuntimeGlobalNotFound(target) => {
                return String::from_str("Runtime global not found: ").concat(target.name());
            },
            WasmCompilerError::RuntimeBuiltinNotFound(target) => {
                return String::from_str("Runtime function not found: ").concat(target.name());
            },
            WasmCompilerError::GeneratorError(error) => {
                return String::from_str("Failed to generate WASM bytecode: ").concat(error.to_string().as_str());
            },
        };
        String::from_str(text)
    }
}

/// Whether `result` is the one linear memory among `memory_ids`: there must be exactly one.
pub open spec fn is_single_memory(memory_ids: Seq<u32>, result: Result<u32, WasmCompilerError>) -> bool {
    &&& memory_ids.len() == 1 ==> (result matches Ok(id) && id == memory_ids[0])
    &&& memory_ids.len() == 0 ==> (result matches Err(WasmCompilerError::MemoryNotFound))
    &&& memory_ids.len() > 1 ==> (result matches Err(WasmCompilerError::MultipleMemories))
}

/// Picks the module's one linear memory; for an unmodified module, as `is_single_memory` says
/// of the memories of its binary.
pub fn get_linear_memory_id(module: &WasmModule) -> (result: Result<u32, WasmCompilerError>)
    ensures
        module.source() matches Some(bytes) ==> is_single_memory(wasm_memory_ids(bytes), result),
{
    let memory_ids = module_memory_ids(module);
    single_linear_memory(&memory_ids)
}

/// Picks the module's one linear memory from the indices of its memories.
pub fn single_linear_memory(memory_ids: &Vec<u32>) -> (result: Result<u32, WasmCompilerError>)
    ensures
        is_single_memory(memory_ids@, result),
{
    if memory_ids.len() == 0 {
        Err(WasmCompilerError::MemoryNotFound)
    } else if memory_ids.len() == 1 {
        Ok(memory_ids[0])
    } else {
        Err(WasmCompilerError::MultipleMemories)
    }
}

/// Whether `result` is the one function table among `table_ids`: there must be exactly one.
pub open spec fn is_single_table(table_ids: Seq<u32>, result: Result<u32, WasmCompilerError>) -> bool {
    &&& table_ids.len() == 1 ==> (result matches Ok(id) && id == table_ids[0])
    &&& table_ids.len() == 0 ==> (result matches Err(WasmCompilerError::TableNotFound))
    &&& table_ids.len() > 1 ==> (result matches Err(WasmCompilerError::MultipleTables))
}

/// Picks the module's one function table; for an unmodified module, as `is_single_table` says
/// of the tables of its binary.
pub fn get_main_function_table(module: &WasmModule) -> (result: Result<u32, WasmCompilerError>)
    ensures
        module.source() matches Some(bytes) ==> is_single_table(wasm_table_ids(bytes), result),
{
    let table_ids = module_table_ids(module);
    single_function_table(&table_ids)
}

/// Picks the module's one function table from the indices of its tables.
pub fn single_function_table(table_ids: &Vec<u32>) -> (result: Result<u32, WasmCompilerError>)
    ensures
        is_single_table(table_ids@, result),
{
    if table_ids.len() == 0 {
        Err(WasmCompilerError::TableNotFound)
    } else if table_ids.len() == 1 {
        Ok(table_ids[0])
    } else {
        Err(WasmCompilerError::MultipleTables)
    }
}

/// The constant offset at which an element segment initializes the table `table_id`, if it is
/// one that does.
pub open spec fn table_initializer_offset(segment: ElementSegmentView, table_id: u32) -> Option<i32> {
    match segment.placement {
        ElementPlacement::Active { table, offset } => if table == table_id {
            offset
        } else {
            None
        },
        _ => None,
    }
}

/// Whether a segment initializes the table `table_id` at no constant offset above `bound`.
pub open spec fn offset_at_most(segment: ElementSegmentView, table_id: u32, bound: i32) -> bool {
    match table_initializer_offset(segment, table_id) {
        Some(offset) => offset <= bound,
        None => true,
    }
}

/// Whether a segment initializes the table `table_id` at no constant offset from `bound` up.
pub open spec fn offset_below(segment: ElementSegmentView, table_id: u32, bound: i32) -> bool {
    match table_initializer_offset(segment, table_id) {
        Some(offset) => offset < bound,
        None => true,
    }
}

/// Whether `result` is the position of the element segment among `views` that initializes the
/// table `table_id` at the highest constant offset (the last of them where several share it),
/// or `None` where no segment initializes it at a constant offset.
pub open spec fn is_highest_table_initializer(views: Seq<ElementSegmentView>, table_id: u32, result: Option<usize>) -> bool {
    match result {
        None => forall|i: int| 0 <= i < views.len() ==> table_initializer_offset(#[trigger] views[i], table_id) is None,
        Some(chosen) => chosen < views.len() && table_initializer_offset(views[chosen as int], table_id) is Some
            && (forall|i: int| 0 <= i < views.len() ==> offset_at_most(
                #[trigger] views[i],
                table_id,
                table_initializer_offset(views[chosen as int], table_id)->0,
            ))
            && (forall|i: int| chosen < i < views.len() ==> offset_below(
                #[trigger] views[i],
                table_id,
                table_initializer_offset(views[chosen as int], table_id)->0,
            )),
    }
}

/// Picks the element segment of the module that initializes the table `table_id` at the
/// highest constant offset; for an unmodified module, as `is_highest_table_initializer` says of
/// the element segments of its binary. Gives its position among the segments.
pub fn get_table_initializer(module: &WasmModule, table_id: u32) -> (result: Option<usize>)
    ensures
        module.source() matches Some(bytes) ==> is_highest_table_initializer(wasm_element_segments(bytes), table_id, result),
{
    let elements = module_element_segments(module);
    proof {
        if let Some(bytes) = module.source() {
            assert(elements@.map_values(|segment: ElementSegment| segment@) =~= wasm_element_segments(bytes));
        }
    }
    highest_table_initializer(&elements, table_id)
}

/// Picks the element segment that initializes the table `table_id` at the highest constant
/// offset (the last of them where several share it); `None` where no segment initializes it at
/// a constant offset. Gives its position among the segments.
pub fn highest_table_initializer(elements: &Vec<ElementSegment>, table_id: u32) -> (result: Option<usize>)
    ensures
        is_highest_table_initializer(elements@.map_values(|segment: ElementSegment| segment@), table_id, result),
{
    let ghost views = elements@.map_values(|segment: ElementSegment| segment@);
    let mut best: Option<(usize, i32)> = None;
    let mut index: usize = 0;
    while index < elements.len()
        invariant
            index <= elements@.len(),
            views == elements@.map_values(|segment: ElementSegment| segment@),
            match best {
                None => forall|i: int| 0 <= i < index ==> table_initializer_offset(#[trigger] views[i], table_id) is None,
                Some((chosen, best_offset)) => chosen < index && table_initializer_offset(views[chosen as int], table_id) == Some(best_offset)
                    && (forall|i: int| 0 <= i < index ==> offset_at_most(#[trigger] views[i], table_id, best_offset))
                    && (forall|i: int| chosen < i < index ==> offset_below(#[trigger] views[i], table_id, best_offset)),
            },
        decreases elements.len() - index,
    {
        assert(views[index as int] == elements@[index as int]@);
        let offset = match elements[index].placement {
            ElementPlacement::Active { table, offset } => if table == table_id {
                offset
            } else {
                None
            },
            _ => None,
        };
        match offset {
            Some(offset) => {
                let replace = match best {
                    None => true,
                    Some((_, best_offset)) => offset >= best_offset,
                };
                if replace {
                    best = Some((index, offset));
                }
            },
            None => {},
        }
        index = index + 1;
    }
    match best {
        Some((chosen, _)) => Some(chosen),
        None => None,
    }
}

/// The size limits of a table, in entries.
#[derive(Clone, Copy, Debug, PartialEq, Eq, Structural)]
pub struct TableLimits {
    pub initial: u32,
    pub maximum: Option<u32>,
}

/// Appends `function` to the table initializer `initializer` and grows its table, whose limits
/// are `table`, by one entry (raising the maximum where the new size exceeds it). Gives the
/// index at which the function can then be called indirectly: the initializer's offset plus
/// its former number of members, as a 32-bit index. The initializer must be placed at a
/// non-negative constant offset; otherwise nothing changes and the table is refused.
pub fn register_dynamic_function(
    initializer: &mut ElementSegment,
    table: &mut TableLimits,
    function: u32,
) -> (result: Result<u32, WasmCompilerError>)
    requires
        old(table).initial < u32::MAX,
    ensures
        match old(initializer).placement {
            ElementPlacement::Active { offset: Some(offset), .. } if offset >= 0 => {
                &&& result == Ok::<u32, WasmCompilerError>(((offset + old(initializer).members@.len()) % 0x1_0000_0000) as u32)
                &&& final(initializer).placement == old(initializer).placement
                &&& final(initializer).members@ == old(initializer).members@.push(Some(function))
                &&& final(table).initial == old(table).initial + 1
                &&& final(table).maximum == match old(table).maximum {
                    Some(maximum) => Some(if maximum >= old(table).initial + 1 { maximum } else { (old(table).initial + 1) as u32 }),
                    None => None,
                }
            },
            _ => {
                &&& result matches Err(WasmCompilerError::InvalidFunctionTable)
                &&& final(initializer)@ == old(initializer)@
                &&& *final(table) == *old(table)
            },
        },
{
    let start_offset = match initializer.placement {
        ElementPlacement::Active { offset: Some(offset), .. } => if offset >= 0 {
            offset as u64
        } else {
            return Err(WasmCompilerError::InvalidFunctionTable);
        },
        _ => {
            return Err(WasmCompilerError::InvalidFunctionTable);
        },
    };
    let next_offset = start_offset as u128 + initializer.members.len() as u128;
    let function_index = (next_offset % 0x1_0000_0000) as u32;
    initializer.members.push(Some(function));
    table.initial = table.initial + 1;
    table.maximum = match table.maximum {
        Some(maximum) => Some(if maximum >= table.initial { maximum } else { table.initial }),
        None => None,
    };
    Ok(function_index)
}

/// `memory` after writing `data` at `offset`, first growing it with zero bytes where it is too
/// short to hold the data.
pub open spec fn place_segment(memory: Seq<u8>, offset: nat, data: Seq<u8>) -> Seq<u8> {
    let end = offset + data.len();
    let length = if memory.len() < end { end } else { memory.len() };
    Seq::new(
        length as nat,
        |i: int|
            if offset <= i < end {
                data[i - offset]
            } else if i < memory.len() {
                memory[i]
            } else {
                0u8
            },
    )
}

/// Whether a data segment is written at a fixed address of the memory `memory_id`.
pub open spec fn is_inline_segment_of(segment: DataSegmentView, memory_id: u32) -> bool {
    segment.placement matches DataPlacement::Absolute { memory, .. } && memory == memory_id
}

/// The contents of linear memory `memory_id` once the segments placed at fixed addresses in it
/// have been written, in order, into an empty memory.
pub open spec fn inline_data_snapshot(segments: Seq<DataSegmentView>, memory_id: u32) -> Seq<u8>
    decreases segments.len(),
{
    if segments.len() == 0 {
        Seq::empty()
    } else {
        let prefix = inline_data_snapshot(segments.drop_last(), memory_id);
        let segment = segments.last();
        match segment.placement {
            DataPlacement::Absolute { memory, offset } => if memory == memory_id {
                place_segment(prefix, offset as nat, segment.value)
            } else {
                prefix
            },
            _ => prefix,
        }
    }
}

/// Whether every segment placed at a fixed address ends within the address space.
pub open spec fn segments_fit(segments: Seq<DataSegmentView>) -> bool {
    forall|i: int|
        0 <= i < segments.len() ==> ((#[trigger] segments[i]).placement matches DataPlacement::Absolute { offset, .. }
            ==> offset + segments[i].value.len() <= usize::MAX)
}

/// The views of a list of data segments.
pub open spec fn segment_views(segments: Seq<DataSegment>) -> Seq<DataSegmentView> {
    segments.map_values(|segment: DataSegment| segment@)
}

/// Builds the initial contents of linear memory `memory_id` from the data segments that the
/// module places at fixed addresses in it; the gaps between them are zero.
pub fn collect_inline_data_snapshot(segments: &Vec<DataSegment>, memory_id: u32) -> (result: Vec<u8>)
    requires
        segments_fit(segment_views(segments@)),
    ensures
        result@ == inline_data_snapshot(segment_views(segments@), memory_id),
{
    let ghost views = segment_views(segments@);
    let mut memory: Vec<u8> = Vec::new();
    let mut index: usize = 0;
    while index < segments.len()
        invariant
            index <= segments@.len(),
            views == segment_views(segments@),
            segments_fit(views),
            memory@ == inline_data_snapshot(views.subrange(0, index as int), memory_id),
        decreases segments.len() - index,
    {
        proof {
            assert(views.subrange(0, index + 1int).drop_last() =~= views.subrange(0, index as int));
            assert(views[index as int] == segments@[index as int]@);
        }
        let segment = &segments[index];
        match segment.placement {
            DataPlacement::Absolute { memory: target, offset } => {
                if target == memory_id {
                    let ghost before = memory@;
                    assert(views[index as int].placement matches DataPlacement::Absolute { offset, .. });
                    let start = offset as usize;
                    let end = start + segment.value.len();
                    if memory.len() < end {
                        memory.resize(end, 0u8);
                    }
                    let ghost grown = memory@;
                    let mut position: usize = 0;
                    while position < segment.value.len()
                        invariant
                            start + segment.value@.len() == end,
                            end <= memory@.len(),
                            memory@.len() == grown.len(),
                            position <= segment.value@.len(),
                            forall|i: int| 0 <= i < memory@.len() ==> #[trigger] memory@[i] == if start <= i < start + position {
                                segment.value@[i - start]
                            } else {
                                grown[i]
                            },
                        decreases segment.value.len() - position,
                    {
                        memory.set(start + position, segment.value[position]);
                        position = position + 1;
                    }
                    proof {
                        let expected = place_segment(before, offset as nat, segment.value@);
                        assert forall|i: int| 0 <= i < grown.len() && !(start <= i < end) implies grown[i] == (if i < before.len() { before[i] } else { 0u8 }) by {
                            if i >= before.len() {
                                assert(cloned::<u8>(0u8, grown[i]));
                            }
                        }
                        assert(memory@ =~= expected);
                    }
                }
            },
            _ => {},
        }
        index = index + 1;
    }
    proof {
        assert(views.subrange(0, segments@.len() as int) =~= views);
    }
    memory
}

/// Whether `result` is what reading the inline memory snapshot of the binary `bytes` gives:
/// the module must parse and have exactly one memory, whose data segments at fixed addresses
/// are collected as `collect_inline_data_snapshot` does.
pub open spec fn is_inline_memory_snapshot_of(bytes: Seq<u8>, result: Result<Vec<u8>, WasmCompilerError>) -> bool {
    &&& (!wasm_parses(bytes) <==> result matches Err(WasmCompilerError::ModuleLoadError(_)))
    &&& wasm_parses(bytes) ==> {
        let memories = wasm_memory_ids(bytes);
        &&& (memories.len() == 0 ==> result matches Err(WasmCompilerError::MemoryNotFound))
        &&& (memories.len() > 1 ==> result matches Err(WasmCompilerError::MultipleMemories))
        &&& (memories.len() == 1 ==> (result matches Ok(snapshot)
            && snapshot@ == inline_data_snapshot(wasm_data_segments(bytes), memories[0])))
    }
}

/// Reads the initial contents of the linear memory of a WebAssembly binary (see
/// `is_inline_memory_snapshot_of`). Its data segments must end within the address space.
pub fn parse_inline_memory_snapshot(wasm_bytes: &[u8]) -> (result: Result<Vec<u8>, WasmCompilerError>)
    requires
        segments_fit(wasm_data_segments(wasm_bytes@)),
    ensures
        is_inline_memory_snapshot_of(wasm_bytes@, result),
{
    let module = match parse_wasm_module(wasm_bytes) {
        Ok(module) => module,
        Err(error) => {
            return Err(WasmCompilerError::ModuleLoadError(error));
        },
    };
    let memory_id = match get_linear_memory_id(&module) {
        Ok(memory_id) => memory_id,
        Err(error) => {
            return Err(error);
        },
    };
    let segments = module_data_segments(&module);
    proof {
        assert(segment_views(segments@) =~= wasm_data_segments(wasm_bytes@));
    }
    Ok(collect_inline_data_snapshot(&segments, memory_id))
}

/// Whether every segment placed at a fixed address ends within the address space.
pub fn segments_fit_address_space(segments: &Vec<DataSegment>) -> (result: bool)
    ensures
        result == segments_fit(segment_views(segments@)),
{
    let ghost views = segment_views(segments@);
    let mut index: usize = 0;
    while index < segments.len()
        invariant
            index <= segments@.len(),
            views == segment_views(segments@),
            forall|i: int| 0 <= i < index ==> ((#[trigger] views[i]).placement matches DataPlacement::Absolute { offset, .. }
                ==> offset + views[i].value.len() <= usize::MAX),
        decreases segments.len() - index,
    {
        assert(views[index as int] == segments@[index as int]@);
        match segments[index].placement {
            DataPlacement::Absolute { offset, .. } => {
                if segments[index].value.len() > usize::MAX - (offset as usize) {
                    return false;
                }
            },
            _ => {},
        }
        index = index + 1;
    }
    true
}

/// Reads the initial contents of the linear memory of a WebAssembly binary, as
/// `parse_inline_memory_snapshot` does; `None` where a data segment of the parsed module would
/// end beyond the address space.
pub fn parse_inline_memory_snapshot_checked(wasm_bytes: &[u8]) -> (result: Option<Result<Vec<u8>, WasmCompilerError>>)
    ensures
        result is None <==> wasm_parses(wasm_bytes@) && !segments_fit(wasm_data_segments(wasm_bytes@)),
        result matches Some(snapshot) ==> is_inline_memory_snapshot_of(wasm_bytes@, snapshot),
{
    let module = match parse_wasm_module(wasm_bytes) {
        Ok(module) => module,
        Err(error) => {
            return Some(Err(WasmCompilerError::ModuleLoadError(error)));
        },
    };
    let segments = module_data_segments(&module);
    proof {
        assert(segment_views(segments@) =~= wasm_data_segments(wasm_bytes@));
    }
    if segments_fit_address_space(&segments) {
        Some(parse_inline_memory_snapshot(wasm_bytes))
    } else {
        None
    }
}

/// The views of a list of exports.
pub open spec fn export_views(exports: Seq<ExportEntry>) -> Seq<ExportEntryView> {
    exports.map_values(|export: ExportEntry| export@)
}

/// The function exported under `name`; where several are, the last of them.
pub open spec fn exported_function(exports: Seq<ExportEntryView>, name: Seq<char>) -> Option<u32>
    decreases exports.len(),
{
    if exports.len() == 0 {
        None
    } else if exports.last().name == name && exports.last().target is Function {
        Some(exports.last().target->Function_0)
    } else {
        exported_function(exports.drop_last(), name)
    }
}

/// The global exported under `name`; where several are, the last of them.
pub open spec fn exported_global(exports: Seq<ExportEntryView>, name: Seq<char>) -> Option<u32>
    decreases exports.len(),
{
    if exports.len() == 0 {
        None
    } else if exports.last().name == name && exports.last().target is Global {
        Some(exports.last().target->Global_0)
    } else {
        exported_global(exports.drop_last(), name)
    }
}

/// Finds the function exported under `name` (the last, where several are).
pub fn find_exported_function(exports: &Vec<ExportEntry>, name: &str) -> (result: Option<u32>)
    ensures
        result == exported_function(export_views(exports@), name@),
{
    let ghost views = export_views(exports@);
    let mut remaining: usize = exports.len();
    assert(views.subrange(0, remaining as int) =~= views);
    while remaining > 0
        invariant
            remaining <= exports@.len(),
            views == export_views(exports@),
            exported_function(views, name@) == exported_function(views.subrange(0, remaining as int), name@),
        decreases remaining,
    {
        let ghost prefix = views.subrange(0, remaining as int);
        proof {
            assert(prefix.drop_last() =~= views.subrange(0, remaining - 1));
            assert(prefix.last() == exports@[remaining - 1]@);
        }
        let export = &exports[remaining - 1];
        if same_text(export.name.as_str(), name) {
            match export.target {
                ExportTarget::Function(index) => {
                    return Some(index);
                },
                _ => {},
            }
        }
        remaining = remaining - 1;
    }
    None
}

/// Finds the global exported under `name` (the last, where several are).
pub fn find_exported_global(exports: &Vec<ExportEntry>, name: &str) -> (result: Option<u32>)
    ensures
        result == exported_global(export_views(exports@), name@),
{
    let ghost views = export_views(exports@);
    let mut remaining: usize = exports.len();
    assert(views.subrange(0, remaining as int) =~= views);
    while remaining > 0
        invariant
            remaining <= exports@.len(),
            views == export_views(exports@),
            exported_global(views, name@) == exported_global(views.subrange(0, remaining as int), name@),
        decreases remaining,
    {
        let ghost prefix = views.subrange(0, remaining as int);
        proof {
            assert(prefix.drop_last() =~= views.subrange(0, remaining - 1));
            assert(prefix.last() == exports@[remaining - 1]@);
        }
        let export = &exports[remaining - 1];
        if same_text(export.name.as_str(), name) {
            match export.target {
                ExportTarget::Global(index) => {
                    return Some(index);
                },
                _ => {},
            }
        }
        remaining = remaining - 1;
    }
    None
}

/// Whether the runtime exports no function under the name of `builtin`.
pub open spec fn builtin_missing(exports: Seq<ExportEntryView>, builtin: RuntimeBuiltin) -> bool {
    exported_function(exports, builtin.spec_name()) is None
}

/// Whether the runtime exports no function under the `index`th standard library name.
pub open spec fn stdlib_missing(exports: Seq<ExportEntryView>, names: Seq<Seq<char>>, index: int) -> bool {
    exported_function(exports, names[index]) is None
}

/// The views of a list of names.
pub open spec fn name_views(names: Seq<String>) -> Seq<Seq<char>> {
    names.map_values(|name: String| name@)
}

/// Whether `result` is what locating the runtime's exports that compiled code calls among
/// `views` gives: the `NULL` global, then every required runtime builtin under its name, in
/// lookup order, then the standard library functions under `stdlib_names`, in order, each the
/// last export of its name and kind; the first one that is missing is reported.
/// `CreateLazyResult` is mapped where it is exported, and is not required.
pub open spec fn is_runtime_exports_of(
    views: Seq<ExportEntryView>,
    stdlib_names: Seq<Seq<char>>,
    result: Result<RuntimeExportMappings, WasmCompilerError>,
) -> bool {
    match exported_global(views, "NULL"@) {
        None => result matches Err(WasmCompilerError::RuntimeGlobalNotFound(global))
            && global == RuntimeGlobal::NullPointer,
        Some(null_pointer) => if exists|builtin: RuntimeBuiltin| builtin.is_required() && builtin_missing(views, builtin) {
            result matches Err(WasmCompilerError::RuntimeBuiltinNotFound(builtin))
                && builtin.is_required()
                && builtin_missing(views, builtin)
                && forall|earlier: RuntimeBuiltin|
                    earlier.is_required() && earlier.lookup_rank() < builtin.lookup_rank() ==> !builtin_missing(views, earlier)
        } else if exists|index: int| 0 <= index < stdlib_names.len() && stdlib_missing(views, stdlib_names, index) {
            result matches Err(WasmCompilerError::StdlibBuiltinNotFound(name)) && exists|index: int|
                0 <= index < stdlib_names.len() && stdlib_names[index] == name@ && stdlib_missing(views, stdlib_names, index)
                    && forall|earlier: int| 0 <= earlier < index ==> !stdlib_missing(views, stdlib_names, earlier)
        } else {
            result matches Ok(mappings)
                && mappings.globals.null_pointer == null_pointer
                && mappings.builtins.is_complete()
                && (forall|builtin: RuntimeBuiltin|
                    #[trigger] mappings.builtins.function(builtin) == exported_function(views, builtin.spec_name()))
                && mappings.stdlib.functions@.len() == stdlib_names.len()
                && forall|index: int| 0 <= index < stdlib_names.len()
                    ==> Some(#[trigger] mappings.stdlib.functions@[index]) == exported_function(views, stdlib_names[index])
        },
    }
}

/// Locates the runtime module's exports that compiled code calls, the standard library
/// functions under `stdlib_names`; for an unmodified module, as `is_runtime_exports_of` says of
/// the exports of its binary.
pub fn parse_runtime_exports(module: &WasmModule, stdlib_names: &Vec<String>) -> (result: Result<RuntimeExportMappings, WasmCompilerError>)
    ensures
        module.source() matches Some(bytes) ==> is_runtime_exports_of(wasm_exports(bytes), name_views(stdlib_names@), result),
{
    let exports = module_exports(module);
    proof {
        if let Some(bytes) = module.source() {
            assert(export_views(exports@) =~= wasm_exports(bytes));
        }
    }
    runtime_exports_from(&exports, stdlib_names)
}

/// Locates the runtime's exports that compiled code calls: the `NULL` global, then every
/// required runtime builtin under its name, in lookup order (the first one that is missing is
/// reported), then `CreateLazyResult` where it is exported, then the standard library functions
/// under `stdlib_names`, in order (the first one that is missing is reported).
pub fn runtime_exports_from(exports: &Vec<ExportEntry>, stdlib_names: &Vec<String>) -> (result: Result<RuntimeExportMappings, WasmCompilerError>)
    ensures
        is_runtime_exports_of(export_views(exports@), name_views(stdlib_names@), result),
{
    let ghost views = export_views(exports@);
    let null_name = RuntimeGlobal::NullPointer.name();
    let null_pointer = match find_exported_global(exports, null_name) {
        Some(index) => index,
        None => {
            return Err(WasmCompilerError::RuntimeGlobalNotFound(RuntimeGlobal::NullPointer));
        },
    };
    let mut functions: Vec<Option<u32>> = Vec::new();
    while functions.len() < RUNTIME_BUILTIN_COUNT
        invariant
            functions@.len() <= RUNTIME_BUILTIN_COUNT,
        decreases RUNTIME_BUILTIN_COUNT - functions@.len(),
    {
        functions.push(None);
    }
    let mut rank: usize = 0;
    while rank < REQUIRED_BUILTIN_COUNT
        invariant
            rank <= REQUIRED_BUILTIN_COUNT,
            views == export_views(exports@),
            functions@.len() == RUNTIME_BUILTIN_COUNT,
            exported_global(views, "NULL"@) == Some(null_pointer),
            forall|builtin: RuntimeBuiltin| builtin.is_required() && #[trigger] builtin.lookup_rank() < rank
                ==> !builtin_missing(views, builtin)
                && functions@[builtin.position()] == exported_function(views, builtin.spec_name()),
        decreases REQUIRED_BUILTIN_COUNT - rank,
    {
        let builtin = RuntimeBuiltin::from_lookup_rank(rank);
        match find_exported_function(exports, builtin.name()) {
            Some(index) => {
                let position = builtin_position(builtin);
                let ghost before = functions@;
                functions.set(position, Some(index));
                proof {
                    assert forall|other: RuntimeBuiltin| other.is_required() && #[trigger] other.lookup_rank() < rank + 1
                        implies !builtin_missing(views, other)
                        && functions@[other.position()] == exported_function(views, other.spec_name()) by {
                        law_builtin_lookup_ranks(other, builtin);
                        law_builtin_positions(other, builtin);
                        if other.lookup_rank() < rank {
                            assert(functions@[other.position()] == before[other.position()]);
                        }
                    }
                }
            },
            None => {
                proof {
                    assert(builtin_missing(views, builtin));
                    assert forall|earlier: RuntimeBuiltin| earlier.is_required() && earlier.lookup_rank() < builtin.lookup_rank()
                        implies !builtin_missing(views, earlier) by {
                        assert(earlier.lookup_rank() < rank);
                    }
                }
                return Err(WasmCompilerError::RuntimeBuiltinNotFound(builtin));
            },
        }
        rank = rank + 1;
    }
    let optional = RuntimeBuiltin::CreateLazyResult;
    let ghost before = functions@;
    let optional_position = builtin_position(optional);
    functions.set(optional_position, find_exported_function(exports, optional.name()));
    let mappings = RuntimeBuiltinMappings { functions };
    proof {
        assert forall|builtin: RuntimeBuiltin| builtin.is_required() implies !builtin_missing(views, builtin) by {
            law_builtin_lookup_ranks(builtin, builtin);
        }
        assert forall|builtin: RuntimeBuiltin|
            #[trigger] mappings.function(builtin) == exported_function(views, builtin.spec_name()) by {
            law_builtin_lookup_ranks(builtin, builtin);
            law_builtin_positions(builtin, optional);
            if builtin.is_required() {
                assert(mappings.functions@[builtin.position()] == before[builtin.position()]);
            }
        }
    }
    let ghost names = name_views(stdlib_names@);
    let mut stdlib: Vec<u32> = Vec::new();
    let mut index: usize = 0;
    while index < stdlib_names.len()
        invariant
            index <= stdlib_names@.len(),
            views == export_views(exports@),
            names == name_views(stdlib_names@),
            stdlib@.len() == index,
            forall|i: int| 0 <= i < index ==> !#[trigger] stdlib_missing(views, names, i),
            forall|i: int| 0 <= i < index ==> Some(#[trigger] stdlib@[i]) == exported_function(views, names[i]),
            exported_global(views, "NULL"@) == Some(null_pointer),
            forall|builtin: RuntimeBuiltin| builtin.is_required() ==> !builtin_missing(views, builtin),
            mappings.is_complete(),
            forall|builtin: RuntimeBuiltin|
                #[trigger] mappings.function(builtin) == exported_function(views, builtin.spec_name()),
        decreases stdlib_names.len() - index,
    {
        let name = &stdlib_names[index];
        let name_str = name.as_str();
        assert(names[index as int] == name@);
        match find_exported_function(exports, name_str) {
            Some(function) => {
                let ghost before = stdlib@;
                stdlib.push(function);
                proof {
                    assert(name_str@ == name@);
                    assert(stdlib@[index as int] == function);
                    assert(Some(function) == exported_function(views, names[index as int]));
                    assert(!stdlib_missing(views, names, index as int));
                    assert forall|i: int| 0 <= i < index + 1 implies Some(#[trigger] stdlib@[i]) == exported_function(views, names[i]) by {
                        if i < index {
                            assert(stdlib@[i] == before[i]);
                        }
                    }
                }
            },
            None => {
                let reported = name.clone();
                proof {
                    assert(name_str@ == name@);
                    assert(stdlib_missing(views, names, index as int));
                    assert(reported@ == names[index as int]);
                    assert(!exists|builtin: RuntimeBuiltin| builtin.is_required() && builtin_missing(views, builtin));
                    assert(exists|i: int| 0 <= i < names.len() && stdlib_missing(views, names, i));
                    assert(forall|earlier: int| 0 <= earlier < index ==> !stdlib_missing(views, names, earlier));
                }
                return Err(WasmCompilerError::StdlibBuiltinNotFound(reported));
            },
        }
        index = index + 1;
    }
    proof {
        assert(!exists|builtin: RuntimeBuiltin| builtin.is_required() && builtin_missing(views, builtin));
        assert(!exists|i: int| 0 <= i < names.len() && stdlib_missing(views, names, i));
    }
    Ok(RuntimeExportMappings {
        globals: RuntimeGlobalMappings { null_pointer },
        builtins: mappings,
        stdlib: RuntimeStdlibMappings { functions: stdlib },
    })
}

/// Two to the power `exponent`.
pub open spec fn pow2(exponent: nat) -> nat
    decreases exponent,
{
    if exponent == 0 {
        1
    } else {
        2 * pow2((exponent - 1) as nat)
    }
}

/// Whether `value` is the least power of two that is at least `target`.
pub open spec fn is_next_power_of_two(value: nat, target: nat) -> bool {
    &&& exists|exponent: nat| pow2(exponent) == value
    &&& target <= value
    &&& (value == 1 || value / 2 < target)
}

/// The least power of two that is at least `value`.
fn next_power_of_two(value: u32) -> (result: u32)
    requires
        value <= 0x8000_0000,
    ensures
        is_next_power_of_two(result as nat, value as nat),
{
    let mut power: u32 = 1;
    let ghost mut exponent: nat = 0;
    while power < value
        invariant
            pow2(exponent) == power,
            power == 1 || power / 2 < value,
            value <= 0x8000_0000,
            power >= 1,
        decreases 0x1_0000_0000 - power,
    {
        power = power * 2;
        proof {
            exponent = exponent + 1;
        }
    }
    power
}

/// The pages of linear memory needed to hold a heap snapshot of `linear_memory_size` bytes.
pub open spec fn required_heap_pages(linear_memory_size: nat) -> nat {
    spec_pad_to_next(linear_memory_size, WASM_PAGE_SIZE as nat)
}

/// The initial page count of the linear memory once it must hold a heap snapshot of
/// `linear_memory_size` bytes: unchanged where it already suffices, else the least power of two
/// that does. A 32-bit linear memory holds at most 4 GiB.
pub fn update_initial_heap_size(initial_pages: u32, linear_memory_size: usize) -> (result: u32)
    requires
        linear_memory_size <= 0x1_0000_0000,
    ensures
        initial_pages >= required_heap_pages(linear_memory_size as nat) ==> result == initial_pages,
        initial_pages < required_heap_pages(linear_memory_size as nat) ==> is_next_power_of_two(
            result as nat,
            required_heap_pages(linear_memory_size as nat),
        ),
        result >= initial_pages,
        result * WASM_PAGE_SIZE >= linear_memory_size,
{
    proof {
        crate::exports::law_pad_to_next_is_least_cover(linear_memory_size as nat, WASM_PAGE_SIZE as nat);
    }
    let required_pages = pad_to_next(linear_memory_size, WASM_PAGE_SIZE);
    assert(required_pages <= 0x1_0000) by {
        vstd::arithmetic::div_mod::lemma_div_is_ordered(
            if linear_memory_size == 0 { 0int } else { linear_memory_size - 1 },
            0xFFFF_FFFFint,
            WASM_PAGE_SIZE as int,
        );
    }
    let required_pages = required_pages as u32;
    if initial_pages >= required_pages {
        return initial_pages;
    }
    next_power_of_two(required_pages)
}

/// An entry point of a compiled module: the name it is exported under and where its source is.
pub trait CompilerEntryPoint {
    fn export_name(&self) -> &ModuleEntryPoint;

    fn root(&self) -> &CompilerRootConfig;
}

/// An entry point that exports the graph root expression of its source as it is.
#[derive(Clone, Debug)]
pub struct GraphRootEntryPoint {
    export_name: ModuleEntryPoint,
    root: CompilerRootConfig,
}

impl GraphRootEntryPoint {
    pub fn new(export_name: ModuleEntryPoint, root: CompilerRootConfig) -> (result: Self)
        ensures
            result.spec_export_name() == export_name,
            result.spec_root() == root,
    {
        GraphRootEntryPoint { export_name, root }
    }

    pub closed spec fn spec_export_name(&self) -> ModuleEntryPoint {
        self.export_name
    }

    pub closed spec fn spec_root(&self) -> CompilerRootConfig {
        self.root
    }
}

impl CompilerEntryPoint for GraphRootEntryPoint {
    fn export_name(&self) -> (result: &ModuleEntryPoint)
        ensures
            *result == self.spec_export_name(),
    {
        &self.export_name
    }

    fn root(&self) -> (result: &CompilerRootConfig)
        ensures
            *result == self.spec_root(),
    {
        &self.root
    }
}

/// An entry point that exports a factory function of no arguments returning the graph root
/// expression of its source.
#[derive(Clone, Debug)]
pub struct ExpressionFactoryEntryPoint {
    export_name: ModuleEntryPoint,
    root: CompilerRootConfig,
}

impl ExpressionFactoryEntryPoint {
    pub fn new(export_name: ModuleEntryPoint, root: CompilerRootConfig) -> (result: Self)
        ensures
            result.spec_export_name() == export_name,
            result.spec_root() == root,
    {
        ExpressionFactoryEntryPoint { export_name, root }
    }

    pub closed spec fn spec_export_name(&self) -> ModuleEntryPoint {
        self.export_name
    }

    pub closed spec fn spec_root(&self) -> CompilerRootConfig {
        self.root
    }
}

impl CompilerEntryPoint for ExpressionFactoryEntryPoint {
    fn export_name(&self) -> (result: &ModuleEntryPoint)
        ensures
            *result == self.spec_export_name(),
    {
        &self.export_name
    }

    fn root(&self) -> (result: &CompilerRootConfig)
        ensures
            *result == self.spec_root(),
    {
        &self.root
    }
}

/// `heap` with `bytes` written over it from `offset` on.
pub open spec fn overwrite(heap: Seq<u8>, offset: int, bytes: Seq<u8>) -> Seq<u8> {
    heap.subrange(0, offset) + bytes + heap.subrange(offset + bytes.len(), heap.len() as int)
}

/// Writes `bytes` over `heap` from `offset` on.
fn write_bytes(heap: &mut Vec<u8>, offset: usize, bytes: &Vec<u8>)
    requires
        offset + bytes@.len() <= old(heap)@.len(),
    ensures
        final(heap)@ == overwrite(old(heap)@, offset as int, bytes@),
{
    let mut index: usize = 0;
    while index < bytes.len()
        invariant
            offset + bytes@.len() <= heap@.len(),
            heap@.len() == old(heap)@.len(),
            index <= bytes@.len(),
            forall|i: int| 0 <= i < heap@.len() ==> #[trigger] heap@[i] == if offset <= i < offset + index {
                bytes@[i - offset]
            } else {
                old(heap)@[i]
            },
        decreases bytes.len() - index,
    {
        let length = heap.len();
        assert(offset + index < length);
        heap.set(offset + index, bytes[index]);
        index = index + 1;
    }
    assert(heap@ =~= overwrite(old(heap)@, offset as int, bytes@));
}

/// Writes the final indirect-call index of a compiled function into the heap snapshot, as the
/// little-endian `u32` at `target_uid_pointer` (the target field of the function's builtin
/// term, where a placeholder was left).
pub fn patch_heap_snapshot_builtin_target_uid(
    heap_snapshot: &mut Vec<u8>,
    target_uid_pointer: ArenaPointer,
    function_index: u32,
)
    requires
        target_uid_pointer.0 + 4 <= old(heap_snapshot)@.len(),
    ensures
        final(heap_snapshot)@ == overwrite(
            old(heap_snapshot)@,
            target_uid_pointer.0 as int,
            vstd::bytes::spec_u32_to_le_bytes(function_index),
        ),
{
    let patch_bytes = vstd::bytes::u32_to_le_bytes(function_index);
    write_bytes(heap_snapshot, target_uid_pointer.0 as usize, &patch_bytes);
}

/// The first occurrence of a character is one, and nothing before it is another.
proof fn lemma_first_index_of_is_first(value: Seq<char>, separator: char)
    ensures
        match first_index_of(value, separator) {
            Some(index) => index < value.len() && value[index as int] == separator
                && forall|j: int| 0 <= j < index ==> value[j] != separator,
            None => forall|j: int| 0 <= j < value.len() ==> value[j] != separator,
        },
    decreases value.len(),
{
    if value.len() > 0 && value[0] != separator {
        lemma_first_index_of_is_first(value.drop_first(), separator);
        assert forall|j: int| 0 < j < value.len() implies value[j] == value.drop_first()[j - 1] by {}
    }
}

/// Splitting at a separator loses nothing: the part before, the separator and the part after
/// make up the text again, and the part before holds no separator; text that is not split
/// holds no separator at all.
pub proof fn law_split_rejoins(separator: char, value: Seq<char>)
    ensures
        match spec_split_at_separator(separator, value) {
            Some((left, right)) => left + seq![separator] + right == value && !left.contains(separator),
            None => !value.contains(separator),
        },
{
    lemma_first_index_of_is_first(value, separator);
    match first_index_of(value, separator) {
        Some(index) => {
            let left = value.subrange(0, index as int);
            let right = value.subrange(index + 1int, value.len() as int);
            assert(left + seq![separator] + right =~= value);
            assert forall|j: int| 0 <= j < left.len() implies left[j] != separator by {}
        },
        None => {},
    }
}

/// Segments for other memories, or not placed at a fixed address, leave a memory's snapshot
/// as it was.
pub proof fn law_inline_snapshot_ignores_other_segments(
    segments: Seq<DataSegmentView>,
    memory_id: u32,
    other: DataSegmentView,
)
    requires
        !is_inline_segment_of(other, memory_id),
    ensures
        inline_data_snapshot(segments.push(other), memory_id) == inline_data_snapshot(segments, memory_id),
{
    assert(segments.push(other).drop_last() =~= segments);
}

/// The last segment placed in a memory is written there whole, over whatever came before.
pub proof fn law_inline_snapshot_last_segment_written(
    segments: Seq<DataSegmentView>,
    memory_id: u32,
    offset: u32,
    value: Seq<u8>,
)
    ensures
        ({
            let last = DataSegmentView { placement: DataPlacement::Absolute { memory: memory_id, offset }, value };
            let snapshot = inline_data_snapshot(segments.push(last), memory_id);
            &&& snapshot.len() >= offset + value.len()
            &&& forall|j: int| 0 <= j < value.len() ==> snapshot[offset + j] == value[j]
        }),
{
    let last = DataSegmentView { placement: DataPlacement::Absolute { memory: memory_id, offset }, value };
    assert(segments.push(last).drop_last() =~= segments);
}

/// How many arguments a function takes: required and optional positional arguments, and
/// whether it takes any number more.
#[derive(Clone, Copy, Debug, PartialEq, Eq, Structural)]
pub struct Arity {
    pub required: usize,
    pub optional: usize,
    pub variadic: bool,
}

/// The table indices filled by the members of the segments that initialize the table
/// `table_id` at constant offsets: for each such segment in order, its offset (as an unsigned
/// index) plus the position of each member that is present.
pub open spec fn filled_table_indices(elements: Seq<ElementSegmentView>, table_id: u32) -> Seq<int>
    decreases elements.len(),
{
    if elements.len() == 0 {
        Seq::empty()
    } else {
        let segment = elements.last();
        let before = filled_table_indices(elements.drop_last(), table_id);
        match table_initializer_offset(segment, table_id) {
            Some(offset) => before + present_member_indices(segment.members, (offset as u32) as int),
            None => before,
        }
    }
}

/// The positions of the members that are present, shifted by `base`.
pub open spec fn present_member_indices(members: Seq<Option<u32>>, base: int) -> Seq<int>
    decreases members.len(),
{
    if members.len() == 0 {
        Seq::empty()
    } else {
        present_member_indices(members.drop_last(), base) + if members.last() is Some {
            seq![base + members.len() - 1]
        } else {
            Seq::empty()
        }
    }
}

/// The number of entries of an indirect call table whose filled indices are `indices`: one
/// more than the largest, or zero where there are none.
pub open spec fn table_size_for(indices: Seq<int>) -> int
    decreases indices.len(),
{
    if indices.len() == 0 {
        0
    } else {
        let rest = table_size_for(indices.drop_last());
        if indices.last() + 1 > rest {
            indices.last() + 1
        } else {
            rest
        }
    }
}

/// Whether every index filled by the initializers of the table `table_id` fits in 32 bits.
pub open spec fn table_indices_fit(elements: Seq<ElementSegmentView>, table_id: u32) -> bool {
    forall|i: int| 0 <= i < elements.len() ==> (table_initializer_offset(#[trigger] elements[i], table_id) matches Some(offset)
        ==> (offset as u32) + elements[i].members.len() <= u32::MAX)
}

/// The number of entries of the indirect call table `table_id`: one more than the largest
/// index that its constant-offset initializers fill, or zero.
pub fn indirect_call_table_size(elements: &Vec<ElementSegment>, table_id: u32) -> (result: u32)
    requires
        table_indices_fit(elements@.map_values(|segment: ElementSegment| segment@), table_id),
    ensures
        result == table_size_for(filled_table_indices(elements@.map_values(|segment: ElementSegment| segment@), table_id)),
{
    let ghost views = elements@.map_values(|segment: ElementSegment| segment@);
    let mut size: u32 = 0;
    let mut index: usize = 0;
    proof {
        assert(views.subrange(0, 0) =~= Seq::<ElementSegmentView>::empty());
    }
    while index < elements.len()
        invariant
            index <= views.len(),
            views == elements@.map_values(|segment: ElementSegment| segment@),
            table_indices_fit(views, table_id),
            size == table_size_for(filled_table_indices(views.subrange(0, index as int), table_id)),
        decreases elements.len() - index,
    {
        let ghost prefix = views.subrange(0, index as int);
        let ghost next = views.subrange(0, index + 1int);
        proof {
            assert(next.drop_last() =~= prefix);
            assert(next.last() == views[index as int]);
            assert(views[index as int] == elements@[index as int]@);
        }
        let segment = &elements[index];
        let offset = match segment.placement {
            ElementPlacement::Active { table, offset } => if table == table_id {
                offset
            } else {
                None
            },
            _ => None,
        };
        match offset {
            Some(offset) => {
                let base = offset as u32;
                let ghost before = filled_table_indices(prefix, table_id);
                let mut member: usize = 0;
                assert(segment.members@.subrange(0, 0) =~= Seq::<Option<u32>>::empty());
                assert(before + present_member_indices(Seq::<Option<u32>>::empty(), base as int) =~= before);
                while member < segment.members.len()
                    invariant
                        member <= segment.members@.len(),
                        base as int + segment.members@.len() <= u32::MAX,
                        size == table_size_for(before + present_member_indices(segment.members@.subrange(0, member as int), base as int)),
                    decreases segment.members.len() - member,
                {
                    let ghost members_prefix = segment.members@.subrange(0, member as int);
                    let ghost members_next = segment.members@.subrange(0, member + 1int);
                    proof {
                        assert(members_next.drop_last() =~= members_prefix);
                    }
                    match segment.members[member] {
                        Some(_) => {
                            let filled = base + member as u32;
                            proof {
                                let indices = before + present_member_indices(members_prefix, base as int);
                                let extended = before + present_member_indices(members_next, base as int);
                                assert(extended =~= indices.push(filled as int));
                                assert(extended.drop_last() =~= indices);
                            }
                            if filled + 1 > size {
                                size = filled + 1;
                            }
                        },
                        None => {
                            proof {
                                assert(before + present_member_indices(members_next, base as int)
                                    =~= before + present_member_indices(members_prefix, base as int));
                            }
                        },
                    }
                    member = member + 1;
                }
                proof {
                    assert(segment.members@.subrange(0, segment.members@.len() as int) =~= segment.members@);
                }
            },
            None => {},
        }
        index = index + 1;
    }
    proof {
        assert(views.subrange(0, views.len() as int) =~= views);
    }
    size
}

/// The arity of an indirect call table entry: that of the last function registered for it,
/// or no arguments where none is.
pub open spec fn table_entry_arity(function_arities: Seq<(u32, Arity)>, index: int) -> Arity
    decreases function_arities.len(),
{
    if function_arities.len() == 0 {
        Arity { required: 0, optional: 0, variadic: false }
    } else if function_arities.last().0 == index {
        function_arities.last().1
    } else {
        table_entry_arity(function_arities.drop_last(), index)
    }
}

/// The arity of each of the `table_size` entries of an indirect call table, given the arities
/// of the functions registered in it.
pub fn indirect_call_table_arities(table_size: u32, function_arities: &Vec<(u32, Arity)>) -> (result: Vec<Arity>)
    ensures
        result@.len() == table_size,
        forall|index: int| 0 <= index < table_size ==> #[trigger] result@[index] == table_entry_arity(function_arities@, index),
{
    let mut result: Vec<Arity> = Vec::new();
    let mut index: u32 = 0;
    while index < table_size
        invariant
            index <= table_size,
            result@.len() == index,
            forall|i: int| 0 <= i < index ==> #[trigger] result@[i] == table_entry_arity(function_arities@, i),
        decreases table_size - index,
    {
        let mut arity = Arity { required: 0, optional: 0, variadic: false };
        let mut remaining: usize = function_arities.len();
        assert(function_arities@.subrange(0, remaining as int) =~= function_arities@);
        while remaining > 0
            invariant_except_break
                arity == (Arity { required: 0, optional: 0, variadic: false }),
            invariant
                remaining <= function_arities@.len(),
                table_entry_arity(function_arities@, index as int) == table_entry_arity(function_arities@.subrange(0, remaining as int), index as int),
            ensures
                arity == table_entry_arity(function_arities@, index as int),
            decreases remaining,
        {
            let ghost prefix = function_arities@.subrange(0, remaining as int);
            assert(prefix.drop_last() =~= function_arities@.subrange(0, remaining - 1));
            let entry = function_arities[remaining - 1];
            if entry.0 == index {
                arity = entry.1;
                break;
            }
            remaining = remaining - 1;
        }
        result.push(arity);
        index = index + 1;
    }
    result
}

/// What the arity lookup function answers for an entry: the number of positional arguments
/// (as a 32-bit value) and whether there are variadic ones (one or zero).
pub open spec fn arity_answer(arity: Arity) -> (u32, u32) {
    (((arity.required + arity.optional) % 0x1_0000_0000) as u32, if arity.variadic { 1u32 } else { 0u32 })
}

/// What the arity lookup function answers for each entry of an indirect call table.
pub fn arity_lookup_answers(arities: &Vec<Arity>) -> (result: Vec<(u32, u32)>)
    ensures
        result@.len() == arities@.len(),
        forall|index: int| 0 <= index < arities@.len() ==> #[trigger] result@[index] == arity_answer(arities@[index]),
{
    let mut result: Vec<(u32, u32)> = Vec::new();
    let mut index: usize = 0;
    while index < arities.len()
        invariant
            index <= arities@.len(),
            result@.len() == index,
            forall|i: int| 0 <= i < index ==> #[trigger] result@[i] == arity_answer(arities@[i]),
        decreases arities.len() - index,
    {
        let arity = arities[index];
        let positional = ((arity.required as u128 + arity.optional as u128) % 0x1_0000_0000) as u32;
        let variadic: u32 = if arity.variadic { 1 } else { 0 };
        result.push((positional, variadic));
        index = index + 1;
    }
    result
}

} // verus!
