use vstd::prelude::*;
use vstd::string::StringExecFns;

use crate::compiler::runtime::builtin::{RuntimeBuiltin, RUNTIME_BUILTIN_COUNT};
use std::collections::HashMap;

use crate::cli::compile::{Arity, exported_function, export_views, find_exported_function, same_text};
use crate::compiler::signature::ValueType;
use crate::compiler::wasm::types::{spec_value_type, WasmValueType};
use crate::wasm_module::{
    module_exports, module_imports, wasm_exports, wasm_imports, ExportEntry, ExportEntryView, ExportTarget, ImportEntry,
    ImportEntryView, WasmModule,
};
use crate::compiler::{function_id_text, CompiledFunctionId};
use crate::text::{decimal, spec_decimal};

verus! {

/// Options for turning stack machine instructions into WebAssembly.
#[derive(Debug, Clone, Copy)]
pub struct WasmGeneratorOptions {
    /// Emulate block parameters with locals, for targets that do not support them
    pub disable_block_params: bool,
}

impl WasmGeneratorOptions {
    /// The default options: block parameters are used.
    pub fn default_options() -> (result: WasmGeneratorOptions)
        ensures
            result.disable_block_params == false,
    {
        WasmGeneratorOptions { disable_block_params: false }
    }
}

/// An error found while generating WebAssembly.
#[derive(Debug, Clone)]
pub enum WasmGeneratorError {
    StackError,
    InvalidCompiledFunction(CompiledFunctionId),
    /// A template import that the target module cannot provide: the import, and what the
    /// target module exports under its name, if anything.
    InvalidModuleImport { expected: ImportEntry, received: Option<ExportTarget> },
    InvalidBlockOffset(usize),
}

/// How a WebAssembly control flow block came about.
#[derive(PartialEq, Eq, Clone, Copy, Hash, Debug, Structural)]
pub enum WasmBlockType {
    /// Block that has been explicitly created via a `block` or `loop` instruction
    Explicit,
    /// Block that has been implicitly created via e.g. an `else` / `then` instruction
    Implicit,
}

/// A stack that always holds at least one value.
#[derive(Debug)]
pub struct NonEmptyStack<T> {
    /// The value currently at the top of the stack
    pub current: T,
    /// Stack of parent values (the last is the nearest)
    pub parents: Vec<T>,
}

impl<T> NonEmptyStack<T> {
    /// A stack holding just `current`.
    pub fn new(current: T) -> (result: NonEmptyStack<T>)
        ensures
            result.current == current,
            result.parents@.len() == 0,
    {
        NonEmptyStack { current, parents: Vec::new() }
    }

    /// Makes `value` the top of the stack.
    pub fn push(&mut self, value: T)
        ensures
            final(self).current == value,
            final(self).parents@ == old(self).parents@.push(old(self).current),
    {
        let mut existing_value = value;
        core::mem::swap(&mut self.current, &mut existing_value);
        self.parents.push(existing_value);
    }

    /// Removes and returns the top of the stack, unless it is the only value.
    pub fn pop(&mut self) -> (result: Option<T>)
        ensures
            old(self).parents@.len() == 0 ==> result is None && final(self).current == old(self).current
                && final(self).parents@ == old(self).parents@,
            old(self).parents@.len() > 0 ==> result == Some(old(self).current)
                && final(self).current == old(self).parents@.last()
                && final(self).parents@ == old(self).parents@.drop_last(),
    {
        match self.parents.pop() {
            None => None,
            Some(parent_value) => {
                let mut existing_value = parent_value;
                core::mem::swap(&mut self.current, &mut existing_value);
                Some(existing_value)
            },
        }
    }
}

/// Popping a value just pushed gives it back and restores the stack.
pub proof fn law_non_empty_stack_push_pop<T>(current: T, parents: Seq<T>, value: T)
    ensures
        parents.push(current).len() > 0,
        parents.push(current).last() == current,
        parents.push(current).drop_last() == parents,
{
    assert(parents.push(current).drop_last() =~= parents);
}

/// The position (counted from the innermost block outwards) of the `n`th explicit block
/// (counting from zero), among `blocks` given from the innermost outwards.
pub open spec fn nth_explicit_block(blocks: Seq<WasmBlockType>, n: nat) -> Option<nat>
    decreases blocks.len(),
{
    if blocks.len() == 0 {
        None
    } else if blocks[0] == WasmBlockType::Explicit {
        if n == 0 {
            Some(0)
        } else {
            match nth_explicit_block(blocks.drop_first(), (n - 1) as nat) {
                Some(position) => Some(position + 1),
                None => None,
            }
        }
    } else {
        match nth_explicit_block(blocks.drop_first(), n) {
            Some(position) => Some(position + 1),
            None => None,
        }
    }
}

/// The enclosing blocks from the innermost outwards.
pub open spec fn innermost_blocks(blocks: Seq<WasmBlockType>) -> Seq<WasmBlockType> {
    Seq::new(blocks.len(), |i: int| blocks[blocks.len() - 1 - i])
}

/// The functions compiled for the lambdas of a program, by compiled function identifier:
/// for each, its function index, its index in the indirect call table and its arity.
#[derive(Debug)]
pub struct WasmCompiledFunctionMappings {
    mappings: HashMap<u64, (u32, u32, Arity)>,
}

impl View for WasmCompiledFunctionMappings {
    type V = Map<u64, (u32, u32, Arity)>;

    closed spec fn view(&self) -> Map<u64, (u32, u32, Arity)> {
        self.mappings@
    }
}

impl WasmCompiledFunctionMappings {
    /// No mappings.
    pub fn new() -> (result: WasmCompiledFunctionMappings)
        ensures
            result@ == Map::<u64, (u32, u32, Arity)>::empty(),
    {
        WasmCompiledFunctionMappings { mappings: HashMap::new() }
    }

    /// Records (or replaces) the function index, indirect call index and arity of `target`.
    pub fn insert(&mut self, target: CompiledFunctionId, function_id: u32, function_index: u32, arity: Arity)
        ensures
            final(self)@ == old(self)@.insert(target.0, (function_id, function_index, arity)),
    {
        broadcast use vstd::std_specs::hash::group_hash_axioms;
        self.mappings.insert(target.0, (function_id, function_index, arity));
    }

    /// The entry recorded for `target`.
    fn lookup(&self, target: CompiledFunctionId) -> (result: Option<(u32, u32, Arity)>)
        ensures
            result == (if self@.contains_key(target.0) { Some(self@[target.0]) } else { None }),
    {
        broadcast use vstd::std_specs::hash::group_hash_axioms;
        match self.mappings.get(&target.0) {
            Some(entry) => Some(*entry),
            None => None,
        }
    }

    /// The function index of `target`, if it was recorded.
    pub fn get_function_id(&self, target: CompiledFunctionId) -> (result: Option<u32>)
        ensures
            result == (if self@.contains_key(target.0) { Some(self@[target.0].0) } else { None }),
    {
        match self.lookup(target) {
            Some(entry) => Some(entry.0),
            None => None,
        }
    }

    /// The indirect call table index of `target`, if it was recorded.
    pub fn get_indirect_call_function_index(&self, target: CompiledFunctionId) -> (result: Option<u32>)
        ensures
            result == (if self@.contains_key(target.0) { Some(self@[target.0].1) } else { None }),
    {
        match self.lookup(target) {
            Some(entry) => Some(entry.1),
            None => None,
        }
    }

    /// The arity of `target`, if it was recorded.
    pub fn get_function_arity(&self, target: CompiledFunctionId) -> (result: Option<Arity>)
        ensures
            result == (if self@.contains_key(target.0) { Some(self@[target.0].2) } else { None }),
    {
        match self.lookup(target) {
            Some(entry) => Some(entry.2),
            None => None,
        }
    }
}

impl Default for WasmCompiledFunctionMappings {
    fn default() -> (result: WasmCompiledFunctionMappings)
        ensures
            result@ == Map::<u64, (u32, u32, Arity)>::empty(),
    {
        WasmCompiledFunctionMappings::new()
    }
}

/// Reading back a compiled function's entry gives what was last recorded for it, and recording
/// an entry leaves the entries of every other compiled function as they were.
pub proof fn law_compiled_function_mappings_read_back(
    mappings: Map<u64, (u32, u32, Arity)>,
    target: CompiledFunctionId,
    other: CompiledFunctionId,
    function_id: u32,
    function_index: u32,
    arity: Arity,
)
    requires
        other != target,
    ensures
        mappings.insert(target.0, (function_id, function_index, arity)).contains_key(target.0),
        mappings.insert(target.0, (function_id, function_index, arity))[target.0] == (function_id, function_index, arity),
        mappings.insert(target.0, (function_id, function_index, arity)).contains_key(other.0) == mappings.contains_key(other.0),
        mappings.contains_key(other.0) ==> mappings.insert(target.0, (function_id, function_index, arity))[other.0]
            == mappings[other.0],
{
}

/// The number of explicit blocks among `blocks`.
pub open spec fn explicit_count(blocks: Seq<WasmBlockType>) -> nat
    decreases blocks.len(),
{
    if blocks.len() == 0 {
        0
    } else {
        (if blocks[0] == WasmBlockType::Explicit { 1nat } else { 0nat }) + explicit_count(blocks.drop_first())
    }
}

/// Finding the `n`th explicit block (counting from zero, among blocks given from the innermost
/// outwards) gives a position that holds an explicit block with exactly `n` explicit blocks
/// inside it, however many implicit blocks lie between; there is none exactly when at most `n`
/// blocks are explicit.
pub proof fn law_nth_explicit_block(blocks: Seq<WasmBlockType>, n: nat)
    ensures
        match nth_explicit_block(blocks, n) {
            Some(position) => position < blocks.len() && blocks[position as int] == WasmBlockType::Explicit
                && explicit_count(blocks.take(position as int)) == n,
            None => explicit_count(blocks) <= n,
        },
    decreases blocks.len(),
{
    if blocks.len() > 0 {
        let rest = blocks.drop_first();
        if blocks[0] == WasmBlockType::Explicit {
            if n == 0 {
                assert(blocks.take(0) =~= Seq::<WasmBlockType>::empty());
            } else {
                law_nth_explicit_block(rest, (n - 1) as nat);
                if let Some(position) = nth_explicit_block(rest, (n - 1) as nat) {
                    let prefix = blocks.take((position + 1) as int);
                    assert(prefix[0] == blocks[0]);
                    assert(prefix.drop_first() =~= rest.take(position as int));
                }
            }
        } else {
            law_nth_explicit_block(rest, n);
            if let Some(position) = nth_explicit_block(rest, n) {
                let prefix = blocks.take((position + 1) as int);
                assert(prefix[0] == blocks[0]);
                assert(prefix.drop_first() =~= rest.take(position as int));
            }
        }
    }
}

/// A break out of the stack machine block `target_block` levels out goes to an explicit
/// WebAssembly block with exactly `target_block` explicit blocks inside it, skipping every
/// implicit block; it fails exactly when fewer than `target_block + 1` explicit blocks enclose
/// it.
pub proof fn law_target_block_offset(enclosing_blocks: Seq<WasmBlockType>, target_block: usize)
    ensures
        match nth_explicit_block(innermost_blocks(enclosing_blocks), target_block as nat) {
            Some(position) => position < enclosing_blocks.len()
                && enclosing_blocks[enclosing_blocks.len() - 1 - position] == WasmBlockType::Explicit
                && explicit_count(innermost_blocks(enclosing_blocks).take(position as int)) == target_block,
            None => explicit_count(innermost_blocks(enclosing_blocks)) <= target_block,
        },
{
    law_nth_explicit_block(innermost_blocks(enclosing_blocks), target_block as nat);
}

/// The lexical scope and control flow state used while emitting WebAssembly for one function:
/// the linear memory and indirect call table, the locals of the lexical scopes, the
/// dependency-tracking local, the enclosing blocks, and where the compiled functions and the
/// runtime's exports are found. Locals, memories, tables and functions are identified by their
/// index.
#[derive(Debug)]
pub struct WasmGeneratorBindings<'a> {
    /// Heap linear memory
    pub memory_id: u32,
    /// Dynamic function lookup table
    pub main_function_table_id: u32,
    /// Global state argument parameter local
    pub state_id: u32,
    /// Stack of locals that track the dependencies encountered during this evaluation
    pub dependencies_id: NonEmptyStack<u32>,
    /// Temporary free-use register
    pub temp_id: u32,
    /// The functions compiled for lambdas
    pub compiled_function_mappings: &'a WasmCompiledFunctionMappings,
    /// The runtime's exported globals and builtins
    pub export_mappings: &'a RuntimeExportMappings,
    /// Locals of the lexical scopes (the last is the innermost)
    pub stack: Vec<u32>,
    /// Enclosing blocks (the last is the innermost)
    pub enclosing_blocks: Vec<WasmBlockType>,
}

impl<'a> WasmGeneratorBindings<'a> {
    /// Bindings for a function whose arguments are held in the locals `arg_stack` (the last
    /// argument innermost), with the given state, dependencies and temporary locals, and no
    /// enclosing blocks.
    pub fn new(
        memory_id: u32,
        main_function_table_id: u32,
        state_id: u32,
        dependencies_id: u32,
        temp_id: u32,
        arg_stack: Vec<u32>,
        compiled_function_mappings: &'a WasmCompiledFunctionMappings,
        export_mappings: &'a RuntimeExportMappings,
    ) -> (result: WasmGeneratorBindings<'a>)
        ensures
            result.memory_id == memory_id,
            result.main_function_table_id == main_function_table_id,
            result.state_id == state_id,
            result.dependencies_id.current == dependencies_id,
            result.dependencies_id.parents@.len() == 0,
            result.temp_id == temp_id,
            result.stack@ == arg_stack@,
            result.enclosing_blocks@.len() == 0,
            result.compiled_function_mappings == compiled_function_mappings,
            result.export_mappings == export_mappings,
    {
        WasmGeneratorBindings {
            memory_id,
            main_function_table_id,
            state_id,
            dependencies_id: NonEmptyStack::new(dependencies_id),
            temp_id,
            compiled_function_mappings,
            export_mappings,
            stack: arg_stack,
            enclosing_blocks: Vec::new(),
        }
    }

    /// The heap linear memory.
    pub fn memory_id(&self) -> (result: u32)
        ensures
            result == self.memory_id,
    {
        self.memory_id
    }

    /// The dynamic function lookup table.
    pub fn main_function_table_id(&self) -> (result: u32)
        ensures
            result == self.main_function_table_id,
    {
        self.main_function_table_id
    }

    /// The global that holds the null pointer.
    pub fn null_pointer(&self) -> (result: u32)
        ensures
            result == self.export_mappings.globals.null_pointer,
    {
        self.export_mappings.globals.null_pointer
    }

    /// The runtime's builtin functions.
    pub fn builtins(&self) -> (result: &RuntimeBuiltinMappings)
        ensures
            result == &self.export_mappings.builtins,
    {
        &self.export_mappings.builtins
    }

    /// The function index of the `index`th standard library function, if there is one.
    pub fn get_stdlib_function_id(&self, index: usize) -> (result: Option<u32>)
        ensures
            result == (if index < self.export_mappings.stdlib.functions@.len() {
                Some(self.export_mappings.stdlib.functions@[index as int])
            } else {
                None
            }),
    {
        self.export_mappings.stdlib.get_function_id(index)
    }

    /// The function compiled for `target`, if there is one.
    pub fn get_compiled_function_id(&self, target: CompiledFunctionId) -> (result: Option<u32>)
        ensures
            result == (if self.compiled_function_mappings@.contains_key(target.0) {
                Some(self.compiled_function_mappings@[target.0].0)
            } else {
                None
            }),
    {
        self.compiled_function_mappings.get_function_id(target)
    }

    /// The indirect call table index of the function compiled for `target`, if there is one.
    pub fn get_compiled_function_indirect_call_function_index(&self, target: CompiledFunctionId) -> (result: Option<u32>)
        ensures
            result == (if self.compiled_function_mappings@.contains_key(target.0) {
                Some(self.compiled_function_mappings@[target.0].1)
            } else {
                None
            }),
    {
        self.compiled_function_mappings.get_indirect_call_function_index(target)
    }

    /// The global state local.
    pub fn state_id(&self) -> (result: u32)
        ensures
            result == self.state_id,
    {
        self.state_id
    }

    /// The local that currently tracks dependencies.
    pub fn dependencies_id(&self) -> (result: u32)
        ensures
            result == self.dependencies_id.current,
    {
        self.dependencies_id.current
    }

    /// The temporary local.
    pub fn temp_id(&self) -> (result: u32)
        ensures
            result == self.temp_id,
    {
        self.temp_id
    }

    /// Enters a lexical scope held in `local_id`.
    pub fn enter_scope(&mut self, local_id: u32) -> (result: u32)
        ensures
            result == local_id,
            final(self).stack@ == old(self).stack@.push(local_id),
            final(self).dependencies_id == old(self).dependencies_id,
            final(self).enclosing_blocks@ == old(self).enclosing_blocks@,
            final(self).state_id == old(self).state_id,
            final(self).temp_id == old(self).temp_id,
    {
        self.stack.push(local_id);
        local_id
    }

    /// Enters a lexical scope held in `local_id` that also becomes the dependency-tracking
    /// local.
    pub fn enter_dependencies_scope(&mut self, local_id: u32) -> (result: u32)
        ensures
            result == local_id,
            final(self).stack@ == old(self).stack@.push(local_id),
            final(self).dependencies_id.current == local_id,
            final(self).dependencies_id.parents@ == old(self).dependencies_id.parents@.push(old(self).dependencies_id.current),
            final(self).enclosing_blocks@ == old(self).enclosing_blocks@,
            final(self).state_id == old(self).state_id,
            final(self).temp_id == old(self).temp_id,
    {
        self.dependencies_id.push(local_id);
        self.enter_scope(local_id)
    }

    /// Leaves the innermost lexical scope and returns its local; if that local was the
    /// dependency-tracking local, the previous one is restored.
    pub fn leave_scope(&mut self) -> (result: Option<u32>)
        ensures
            old(self).stack@.len() == 0 ==> result is None && final(self).stack@ == old(self).stack@
                && final(self).dependencies_id.current == old(self).dependencies_id.current
                && final(self).dependencies_id.parents@ == old(self).dependencies_id.parents@,
            old(self).stack@.len() > 0 ==> {
                &&& result == Some(old(self).stack@.last())
                &&& final(self).stack@ == old(self).stack@.drop_last()
                &&& if old(self).dependencies_id.current == old(self).stack@.last()
                    && old(self).dependencies_id.parents@.len() > 0 {
                    &&& final(self).dependencies_id.current == old(self).dependencies_id.parents@.last()
                    &&& final(self).dependencies_id.parents@ == old(self).dependencies_id.parents@.drop_last()
                } else {
                    &&& final(self).dependencies_id.current == old(self).dependencies_id.current
                    &&& final(self).dependencies_id.parents@ == old(self).dependencies_id.parents@
                }
            },
            final(self).enclosing_blocks@ == old(self).enclosing_blocks@,
            final(self).state_id == old(self).state_id,
            final(self).temp_id == old(self).temp_id,
    {
        let local_id = match self.stack.pop() {
            Some(local_id) => local_id,
            None => {
                return None;
            },
        };
        if self.dependencies_id.current == local_id {
            self.dependencies_id.pop();
        }
        Some(local_id)
    }

    /// Enters a control flow block.
    pub fn enter_block(&mut self, block_type: WasmBlockType)
        ensures
            final(self).enclosing_blocks@ == old(self).enclosing_blocks@.push(block_type),
            final(self).stack@ == old(self).stack@,
            final(self).dependencies_id == old(self).dependencies_id,
            final(self).state_id == old(self).state_id,
            final(self).temp_id == old(self).temp_id,
    {
        self.enclosing_blocks.push(block_type);
    }

    /// Leaves the innermost control flow block.
    pub fn leave_block(&mut self) -> (result: Option<WasmBlockType>)
        ensures
            old(self).enclosing_blocks@.len() == 0 ==> result is None
                && final(self).enclosing_blocks@ == old(self).enclosing_blocks@,
            old(self).enclosing_blocks@.len() > 0 ==> result == Some(old(self).enclosing_blocks@.last())
                && final(self).enclosing_blocks@ == old(self).enclosing_blocks@.drop_last(),
            final(self).stack@ == old(self).stack@,
            final(self).dependencies_id == old(self).dependencies_id,
            final(self).state_id == old(self).state_id,
            final(self).temp_id == old(self).temp_id,
    {
        self.enclosing_blocks.pop()
    }

    /// The WebAssembly block depth that a break out of the stack machine block `target_block`
    /// levels out must use: implicit blocks do not count as stack machine blocks, so the
    /// result is the position of the matching explicit block among all enclosing blocks.
    pub fn get_target_block_offset(&self, target_block: usize) -> (result: Option<usize>)
        ensures
            match nth_explicit_block(innermost_blocks(self.enclosing_blocks@), target_block as nat) {
                Some(position) => result == Some(position as usize),
                None => result is None,
            },
    {
        let num_blocks = self.enclosing_blocks.len();
        let ghost blocks = innermost_blocks(self.enclosing_blocks@);
        let mut position: usize = 0;
        let mut remaining: usize = target_block;
        assert(blocks.subrange(0, num_blocks as int) =~= blocks);
        while position < num_blocks
            invariant
                num_blocks == self.enclosing_blocks@.len(),
                blocks == innermost_blocks(self.enclosing_blocks@),
                position <= num_blocks,
                nth_explicit_block(blocks, target_block as nat) == match nth_explicit_block(blocks.subrange(position as int, num_blocks as int), remaining as nat) {
                    Some(offset) => Some((offset + position) as nat),
                    None => None::<nat>,
                },
            decreases num_blocks - position,
        {
            proof {
                let rest = blocks.subrange(position as int, num_blocks as int);
                assert(rest.drop_first() =~= blocks.subrange(position + 1, num_blocks as int));
                assert(rest[0] == self.enclosing_blocks@[num_blocks - 1 - position]);
            }
            let block = self.enclosing_blocks[num_blocks - 1 - position];
            if block == WasmBlockType::Explicit {
                if remaining == 0 {
                    return Some(position);
                }
                remaining = remaining - 1;
            }
            position = position + 1;
        }
        assert(blocks.subrange(num_blocks as int, num_blocks as int).len() == 0);
        None
    }

    /// The local of the lexical scope `offset` scopes out from the innermost.
    pub fn get_local(&self, offset: usize) -> (result: Result<u32, WasmGeneratorError>)
        ensures
            offset < self.stack@.len() ==> result == Ok::<u32, WasmGeneratorError>(self.stack@[self.stack@.len() - 1 - offset]),
            offset >= self.stack@.len() ==> result matches Err(WasmGeneratorError::StackError),
    {
        if offset < self.stack.len() {
            Ok(self.stack[self.stack.len() - 1 - offset])
        } else {
            Err(WasmGeneratorError::StackError)
        }
    }
}

#[verifier::external_type_specification]
#[verifier::external_body]
pub struct ExInstr(walrus::ir::Instr);

#[verifier::external_type_specification]
#[verifier::external_body]
pub struct ExInstrSeqType(walrus::ir::InstrSeqType);

/// One generated WebAssembly instruction, with structured control flow kept as nested
/// instruction lists so that branches can refer to their target by depth.
#[derive(Debug)]
pub enum WasmInstruction {
    /// Standard WASM instruction
    Instruction(walrus::ir::Instr),
    /// Control flow block
    Block { block_type: walrus::ir::InstrSeqType, body: WasmGeneratorOutput },
    /// Control flow loop
    Loop { block_type: walrus::ir::InstrSeqType, body: WasmGeneratorOutput },
    /// Unconditional break instruction
    Break {
        /// Index of the block to break out of (where `0` is the current block, `1` is the immediate parent of the current block, etc)
        target_block: usize,
    },
    /// Conditional break instruction
    ConditionalBreak {
        /// Index of the block to break out of (where `0` is the current block, `1` is the immediate parent of the current block, etc)
        target_block: usize,
    },
    /// If-else conditional branch instruction
    IfElse {
        block_type: walrus::ir::InstrSeqType,
        consequent: WasmGeneratorOutput,
        alternative: WasmGeneratorOutput,
    },
}

/// A sequence of generated instructions.
#[derive(Debug)]
pub struct WasmGeneratorOutput {
    instructions: Vec<WasmInstruction>,
}

impl View for WasmGeneratorOutput {
    type V = Seq<WasmInstruction>;

    closed spec fn view(&self) -> Seq<WasmInstruction> {
        self.instructions@
    }
}

impl WasmGeneratorOutput {
    /// No instructions.
    pub fn new() -> (result: WasmGeneratorOutput)
        ensures
            result@ == Seq::<WasmInstruction>::empty(),
    {
        WasmGeneratorOutput { instructions: Vec::new() }
    }

    /// Appends a standard instruction.
    pub fn push(&mut self, instruction: walrus::ir::Instr)
        ensures
            final(self)@ == old(self)@.push(WasmInstruction::Instruction(instruction)),
    {
        self.instructions.push(WasmInstruction::Instruction(instruction));
    }

    /// Appends an unconditional break out of the stack machine block `target_block` levels
    /// out, translated to its WebAssembly block depth; fails, appending nothing, where there is
    /// no such block.
    pub fn br(&mut self, target_block: usize, bindings: &WasmGeneratorBindings) -> (result: Result<(), WasmGeneratorError>)
        ensures
            match nth_explicit_block(innermost_blocks(bindings.enclosing_blocks@), target_block as nat) {
                Some(position) => result is Ok && final(self)@ == old(self)@.push(
                    WasmInstruction::Break { target_block: position as usize },
                ),
                None => result matches Err(WasmGeneratorError::InvalidBlockOffset(target))
                    && target == target_block && final(self)@ == old(self)@,
            },
    {
        match bindings.get_target_block_offset(target_block) {
            Some(target_block_offset) => {
                self.instructions.push(WasmInstruction::Break { target_block: target_block_offset });
                Ok(())
            },
            None => Err(WasmGeneratorError::InvalidBlockOffset(target_block)),
        }
    }

    /// Appends a conditional break out of the stack machine block `target_block` levels out,
    /// translated to its WebAssembly block depth; fails, appending nothing, where there is no
    /// such block.
    pub fn br_if(&mut self, target_block: usize, bindings: &WasmGeneratorBindings) -> (result: Result<(), WasmGeneratorError>)
        ensures
            match nth_explicit_block(innermost_blocks(bindings.enclosing_blocks@), target_block as nat) {
                Some(position) => result is Ok && final(self)@ == old(self)@.push(
                    WasmInstruction::ConditionalBreak { target_block: position as usize },
                ),
                None => result matches Err(WasmGeneratorError::InvalidBlockOffset(target))
                    && target == target_block && final(self)@ == old(self)@,
            },
    {
        match bindings.get_target_block_offset(target_block) {
            Some(target_block_offset) => {
                self.instructions.push(WasmInstruction::ConditionalBreak { target_block: target_block_offset });
                Ok(())
            },
            None => Err(WasmGeneratorError::InvalidBlockOffset(target_block)),
        }
    }

    /// Appends the instructions of `chunk`.
    pub fn push_chunk(&mut self, chunk: WasmGeneratorOutput)
        ensures
            final(self)@ == old(self)@ + chunk@,
    {
        let mut chunk = chunk;
        self.instructions.append(&mut chunk.instructions);
    }

    /// The instructions, in order.
    pub fn instructions(&self) -> (result: &[WasmInstruction])
        ensures
            result@ == self@,
    {
        self.instructions.as_slice()
    }
}

impl Default for WasmGeneratorOutput {
    fn default() -> (result: WasmGeneratorOutput)
        ensures
            result@ == Seq::<WasmInstruction>::empty(),
    {
        WasmGeneratorOutput::new()
    }
}

/// The runtime's exported functions that write a value of each type into a hash state, by
/// function index.
#[derive(Clone, Copy, Debug, PartialEq, Eq, Structural)]
pub struct HashFunctionIds {
    pub write_term: u32,
    pub write_i32: u32,
    pub write_i64: u32,
    pub write_f32: u32,
    pub write_f64: u32,
}

impl HashFunctionIds {
    /// The hash function for values of `value_type`: heap pointers are hashed as terms,
    /// function pointers as 32-bit integers.
    pub open spec fn hasher_for(self, value_type: ValueType) -> u32 {
        match value_type {
            ValueType::I32 | ValueType::U32 => self.write_i32,
            ValueType::I64 | ValueType::U64 => self.write_i64,
            ValueType::F32 => self.write_f32,
            ValueType::F64 => self.write_f64,
            ValueType::HeapPointer => self.write_term,
            ValueType::FunctionPointer => self.write_i32,
        }
    }

    /// The hash function for values of `value_type` (there is one for every type).
    pub fn get(&self, value_type: ValueType) -> (result: Option<u32>)
        ensures
            result == Some(self.hasher_for(value_type)),
    {
        match value_type {
            ValueType::I32 | ValueType::U32 => Some(self.write_i32),
            ValueType::I64 | ValueType::U64 => Some(self.write_i64),
            ValueType::F32 => Some(self.write_f32),
            ValueType::F64 => Some(self.write_f64),
            ValueType::HeapPointer => Some(self.write_term),
            ValueType::FunctionPointer => Some(self.write_i32),
        }
    }
}

/// Every value is hashed by the hash function for its WebAssembly representation: 32-bit
/// integers and function pointers by `writeI32Hash`, 64-bit integers by `writeI64Hash`, floats
/// by the float hash function of their width, and heap pointers (which are 32-bit too) by
/// `writeTermHash`, which hashes the term they point to.
pub proof fn law_hasher_matches_representation(ids: HashFunctionIds, value_type: ValueType)
    ensures
        value_type == ValueType::HeapPointer ==> ids.hasher_for(value_type) == ids.write_term,
        value_type != ValueType::HeapPointer ==> ids.hasher_for(value_type) == match spec_value_type(value_type) {
            WasmValueType::I32 => ids.write_i32,
            WasmValueType::I64 => ids.write_i64,
            WasmValueType::F32 => ids.write_f32,
            WasmValueType::F64 => ids.write_f64,
        },
        (value_type == ValueType::I32 || value_type == ValueType::U32 || value_type == ValueType::FunctionPointer)
            ==> ids.hasher_for(value_type) == ids.write_i32,
        (value_type == ValueType::I64 || value_type == ValueType::U64) ==> ids.hasher_for(value_type) == ids.write_i64,
        value_type == ValueType::F32 ==> ids.hasher_for(value_type) == ids.write_f32,
        value_type == ValueType::F64 ==> ids.hasher_for(value_type) == ids.write_f64,
{
}

/// The message for a missing export.
pub open spec fn missing_export_message(name: Seq<char>) -> Seq<char> {
    "Invalid module export: \""@ + name + "\""@
}

/// The hash functions among `exports` (each the last function exported under its name:
/// `writeTermHash`, `writeI32Hash`, `writeI64Hash`, `writeF32Hash` and `writeF64Hash`), or the
/// message naming the first of them, in that order, that is not exported.
pub open spec fn exported_hash_functions(exports: Seq<ExportEntryView>) -> Result<HashFunctionIds, Seq<char>> {
    let write_term = exported_function(exports, "writeTermHash"@);
    let write_i32 = exported_function(exports, "writeI32Hash"@);
    let write_i64 = exported_function(exports, "writeI64Hash"@);
    let write_f32 = exported_function(exports, "writeF32Hash"@);
    let write_f64 = exported_function(exports, "writeF64Hash"@);
    if write_term is None {
        Err(missing_export_message("writeTermHash"@))
    } else if write_i32 is None {
        Err(missing_export_message("writeI32Hash"@))
    } else if write_i64 is None {
        Err(missing_export_message("writeI64Hash"@))
    } else if write_f32 is None {
        Err(missing_export_message("writeF32Hash"@))
    } else if write_f64 is None {
        Err(missing_export_message("writeF64Hash"@))
    } else {
        Ok(HashFunctionIds {
            write_term: write_term->0,
            write_i32: write_i32->0,
            write_i64: write_i64->0,
            write_f32: write_f32->0,
            write_f64: write_f64->0,
        })
    }
}

/// Whether `result` is what `exported_hash_functions` gives for `exports`.
pub open spec fn is_exported_hash_functions(exports: Seq<ExportEntryView>, result: Result<HashFunctionIds, String>) -> bool {
    match result {
        Ok(ids) => exported_hash_functions(exports) == Ok::<HashFunctionIds, Seq<char>>(ids),
        Err(message) => exported_hash_functions(exports) == Err::<HashFunctionIds, Seq<char>>(message@),
    }
}

/// The function exported under `name`, or the message saying it is missing.
fn required_function_export(exports: &Vec<ExportEntry>, name: &str) -> (result: Result<u32, String>)
    ensures
        match exported_function(export_views(exports@), name@) {
            Some(index) => result == Ok::<u32, String>(index),
            None => result matches Err(message) && message@ == missing_export_message(name@),
        },
{
    match find_exported_function(exports, name) {
        Some(index) => Ok(index),
        None => Err(String::from_str("Invalid module export: \"").concat(name).concat("\"")),
    }
}

/// Finds the hash functions among a module's exports.
pub fn hash_function_ids(exports: &Vec<ExportEntry>) -> (result: Result<HashFunctionIds, String>)
    ensures
        is_exported_hash_functions(export_views(exports@), result),
{
    let write_term = match required_function_export(exports, "writeTermHash") {
        Ok(index) => index,
        Err(message) => {
            return Err(message);
        },
    };
    let write_i32 = match required_function_export(exports, "writeI32Hash") {
        Ok(index) => index,
        Err(message) => {
            return Err(message);
        },
    };
    let write_i64 = match required_function_export(exports, "writeI64Hash") {
        Ok(index) => index,
        Err(message) => {
            return Err(message);
        },
    };
    let write_f32 = match required_function_export(exports, "writeF32Hash") {
        Ok(index) => index,
        Err(message) => {
            return Err(message);
        },
    };
    let write_f64 = match required_function_export(exports, "writeF64Hash") {
        Ok(index) => index,
        Err(message) => {
            return Err(message);
        },
    };
    Ok(HashFunctionIds { write_term, write_i32, write_i64, write_f32, write_f64 })
}

/// Finds the hash functions among the exports of `module`; for an unmodified module, exactly
/// as `exported_hash_functions` says of the exports of its binary.
pub fn get_exported_hash_functions(module: &WasmModule) -> (result: Result<HashFunctionIds, String>)
    ensures
        module.source() matches Some(bytes) ==> is_exported_hash_functions(wasm_exports(bytes), result),
{
    let exports = module_exports(module);
    proof {
        if let Some(bytes) = module.source() {
            assert(export_views(exports@) =~= wasm_exports(bytes));
        }
    }
    hash_function_ids(&exports)
}

/// The item exported under `name`, whatever its kind; where several are, the last of them.
pub open spec fn last_export_named(exports: Seq<ExportEntryView>, name: Seq<char>) -> Option<ExportTarget>
    decreases exports.len(),
{
    if exports.len() == 0 {
        None
    } else if exports.last().name == name {
        Some(exports.last().target)
    } else {
        last_export_named(exports.drop_last(), name)
    }
}

/// Whether two items are of the same kind.
pub open spec fn same_item_kind(a: ExportTarget, b: ExportTarget) -> bool {
    match (a, b) {
        (ExportTarget::Function(_), ExportTarget::Function(_)) => true,
        (ExportTarget::Table(_), ExportTarget::Table(_)) => true,
        (ExportTarget::Memory(_), ExportTarget::Memory(_)) => true,
        (ExportTarget::Global(_), ExportTarget::Global(_)) => true,
        _ => false,
    }
}

/// Whether an import of a template names a template variable: it is imported from the module
/// named `$`.
pub open spec fn is_template_variable(import: ImportEntryView) -> bool {
    import.module == "$"@
}

/// What a template variable is bound to: the function imports `__INNER`, `__HASH` and `__ARGS`
/// are bound to the inner function, the argument hasher and the argument placeholder; any other
/// to the item of the same kind that the target module exports under its name (the last
/// export of that name). Where there is no such export, or it is of another kind, the error
/// carries that export's item, if any.
pub open spec fn template_binding(
    import: ImportEntryView,
    exports: Seq<ExportEntryView>,
    function_id: u32,
    function_hash_id: u32,
    function_args_id: u32,
) -> Result<ExportTarget, Option<ExportTarget>> {
    if import.kind is Function && import.name == "__INNER"@ {
        Ok(ExportTarget::Function(function_id))
    } else if import.kind is Function && import.name == "__HASH"@ {
        Ok(ExportTarget::Function(function_hash_id))
    } else if import.kind is Function && import.name == "__ARGS"@ {
        Ok(ExportTarget::Function(function_args_id))
    } else {
        match last_export_named(exports, import.name) {
            None => Err(None),
            Some(target) => if same_item_kind(import.kind, target) {
                Ok(target)
            } else {
                Err(Some(target))
            },
        }
    }
}

/// The bindings of the template variables among `imports`, in order, each with the variable's
/// name; or, for the first variable that cannot be bound, that import and what its error
/// carries.
pub open spec fn template_bindings(
    imports: Seq<ImportEntryView>,
    exports: Seq<ExportEntryView>,
    function_id: u32,
    function_hash_id: u32,
    function_args_id: u32,
) -> Result<Seq<(Seq<char>, ExportTarget)>, (ImportEntryView, Option<ExportTarget>)>
    decreases imports.len(),
{
    if imports.len() == 0 {
        Ok(Seq::empty())
    } else {
        match template_bindings(imports.drop_last(), exports, function_id, function_hash_id, function_args_id) {
            Err(error) => Err(error),
            Ok(bindings) => if !is_template_variable(imports.last()) {
                Ok(bindings)
            } else {
                match template_binding(imports.last(), exports, function_id, function_hash_id, function_args_id) {
                    Ok(target) => Ok(bindings.push((imports.last().name, target))),
                    Err(received) => Err((imports.last(), received)),
                }
            },
        }
    }
}

/// The views of a list of imports.
pub open spec fn import_views(imports: Seq<ImportEntry>) -> Seq<ImportEntryView> {
    imports.map_values(|import: ImportEntry| import@)
}

/// Whether `result` is what `template_bindings` gives.
pub open spec fn is_template_bindings(
    imports: Seq<ImportEntryView>,
    exports: Seq<ExportEntryView>,
    function_id: u32,
    function_hash_id: u32,
    function_args_id: u32,
    result: Result<Vec<(String, ExportTarget)>, WasmGeneratorError>,
) -> bool {
    match result {
        Ok(bindings) => template_bindings(imports, exports, function_id, function_hash_id, function_args_id) matches Ok(
            expected,
        ) && bindings@.len() == expected.len() && forall|i: int|
            0 <= i < expected.len() ==> #[trigger] bindings@[i].0@ == expected[i].0 && bindings@[i].1 == expected[i].1,
        Err(WasmGeneratorError::InvalidModuleImport { expected, received }) => template_bindings(
            imports,
            exports,
            function_id,
            function_hash_id,
            function_args_id,
        ) matches Err(error) && error.0 == expected@ && error.1 == received,
        Err(_) => false,
    }
}

/// The item exported under `name` (the last, where several are), whatever its kind.
fn find_export_named(exports: &Vec<ExportEntry>, name: &str) -> (result: Option<ExportTarget>)
    ensures
        result == last_export_named(export_views(exports@), name@),
{
    let ghost views = export_views(exports@);
    let mut remaining: usize = exports.len();
    assert(views.subrange(0, remaining as int) =~= views);
    while remaining > 0
        invariant
            remaining <= exports@.len(),
            views == export_views(exports@),
            last_export_named(views, name@) == last_export_named(views.subrange(0, remaining as int), name@),
        decreases remaining,
    {
        let ghost prefix = views.subrange(0, remaining as int);
        proof {
            assert(prefix.drop_last() =~= views.subrange(0, remaining - 1));
            assert(prefix.last() == exports@[remaining - 1]@);
        }
        let export = &exports[remaining - 1];
        if same_text(export.name.as_str(), name) {
            return Some(export.target);
        }
        remaining = remaining - 1;
    }
    None
}

/// Whether two items are of the same kind.
fn is_same_item_kind(a: ExportTarget, b: ExportTarget) -> (result: bool)
    ensures
        result == same_item_kind(a, b),
{
    match (a, b) {
        (ExportTarget::Function(_), ExportTarget::Function(_)) => true,
        (ExportTarget::Table(_), ExportTarget::Table(_)) => true,
        (ExportTarget::Memory(_), ExportTarget::Memory(_)) => true,
        (ExportTarget::Global(_), ExportTarget::Global(_)) => true,
        _ => false,
    }
}

/// What the template variable `import` is bound to (see `template_binding`).
fn bind_template_variable(
    import: &ImportEntry,
    exports: &Vec<ExportEntry>,
    function_id: u32,
    function_hash_id: u32,
    function_args_id: u32,
) -> (result: Result<ExportTarget, Option<ExportTarget>>)
    ensures
        result == template_binding(import@, export_views(exports@), function_id, function_hash_id, function_args_id),
{
    let is_function = match import.kind {
        ExportTarget::Function(_) => true,
        _ => false,
    };
    let name = import.name.as_str();
    if is_function && same_text(name, "__INNER") {
        Ok(ExportTarget::Function(function_id))
    } else if is_function && same_text(name, "__HASH") {
        Ok(ExportTarget::Function(function_hash_id))
    } else if is_function && same_text(name, "__ARGS") {
        Ok(ExportTarget::Function(function_args_id))
    } else {
        match find_export_named(exports, name) {
            None => Err(None),
            Some(target) => if is_same_item_kind(import.kind, target) {
                Ok(target)
            } else {
                Err(Some(target))
            },
        }
    }
}

/// Binds the template variables among a template's imports (those imported from the module
/// `$`) to the inner function, the argument hasher and the argument placeholder, or to the
/// target module's exports of the same name and kind, in order.
pub fn template_variable_bindings(
    imports: &Vec<ImportEntry>,
    exports: &Vec<ExportEntry>,
    function_id: u32,
    function_hash_id: u32,
    function_args_id: u32,
) -> (result: Result<Vec<(String, ExportTarget)>, WasmGeneratorError>)
    ensures
        is_template_bindings(import_views(imports@), export_views(exports@), function_id, function_hash_id, function_args_id, result),
{
    let ghost views = import_views(imports@);
    let ghost export_list = export_views(exports@);
    let mut bindings: Vec<(String, ExportTarget)> = Vec::new();
    let mut index: usize = 0;
    while index < imports.len()
        invariant
            index <= imports@.len(),
            views == import_views(imports@),
            export_list == export_views(exports@),
            template_bindings(views.subrange(0, index as int), export_list, function_id, function_hash_id, function_args_id) matches Ok(
                expected,
            ) && bindings@.len() == expected.len() && forall|i: int|
                0 <= i < expected.len() ==> #[trigger] bindings@[i].0@ == expected[i].0 && bindings@[i].1 == expected[i].1,
        decreases imports@.len() - index,
    {
        let ghost prefix = views.subrange(0, index as int);
        let ghost next = views.subrange(0, index + 1);
        proof {
            assert(next.drop_last() =~= prefix);
            assert(next.last() == imports@[index as int]@);
        }
        let import = &imports[index];
        if same_text(import.module.as_str(), "$") {
            match bind_template_variable(import, exports, function_id, function_hash_id, function_args_id) {
                Ok(target) => {
                    bindings.push((import.name.clone(), target));
                },
                Err(received) => {
                    proof {
                        assert(template_bindings(next, export_list, function_id, function_hash_id, function_args_id) is Err);
                        lemma_template_error_persists(views, (index + 1) as nat, export_list, function_id, function_hash_id, function_args_id);
                        assert(views.subrange(0, views.len() as int) =~= views);
                    }
                    let expected = ImportEntry { module: import.module.clone(), name: import.name.clone(), kind: import.kind };
                    return Err(WasmGeneratorError::InvalidModuleImport { expected, received });
                },
            }
        }
        index = index + 1;
    }
    assert(views.subrange(0, imports@.len() as int) =~= views);
    Ok(bindings)
}

/// Once a prefix of the imports fails to bind, every longer prefix fails with the same error.
proof fn lemma_template_error_persists(
    imports: Seq<ImportEntryView>,
    length: nat,
    exports: Seq<ExportEntryView>,
    function_id: u32,
    function_hash_id: u32,
    function_args_id: u32,
)
    requires
        length <= imports.len(),
        template_bindings(imports.subrange(0, length as int), exports, function_id, function_hash_id, function_args_id) is Err,
    ensures
        template_bindings(imports, exports, function_id, function_hash_id, function_args_id)
            == template_bindings(imports.subrange(0, length as int), exports, function_id, function_hash_id, function_args_id),
    decreases imports.len() - length,
{
    if length == imports.len() {
        assert(imports.subrange(0, length as int) =~= imports);
    } else {
        let longer = imports.subrange(0, (length + 1) as int);
        assert(longer.drop_last() =~= imports.subrange(0, length as int));
        lemma_template_error_persists(imports, (length + 1) as nat, exports, function_id, function_hash_id, function_args_id);
    }
}

/// Binds the template variables of `template_module` to the inner function, the argument
/// hasher, the argument placeholder and the exports of `target_module`; for unmodified modules,
/// exactly as `template_bindings` says of their binaries' imports and exports.
pub fn get_cached_function_template_substitutions(
    template_module: &WasmModule,
    target_module: &WasmModule,
    function_id: u32,
    function_hash_id: u32,
    function_args_id: u32,
) -> (result: Result<Vec<(String, ExportTarget)>, WasmGeneratorError>)
    ensures
        template_module.source() matches Some(template_bytes) ==> target_module.source() matches Some(target_bytes)
            ==> is_template_bindings(
            wasm_imports(template_bytes),
            wasm_exports(target_bytes),
            function_id,
            function_hash_id,
            function_args_id,
            result,
        ),
{
    let imports = module_imports(template_module);
    let exports = module_exports(target_module);
    proof {
        if let Some(bytes) = template_module.source() {
            assert(import_views(imports@) =~= wasm_imports(bytes));
        }
        if let Some(bytes) = target_module.source() {
            assert(export_views(exports@) =~= wasm_exports(bytes));
        }
    }
    template_variable_bindings(&imports, &exports, function_id, function_hash_id, function_args_id)
}

/// The runtime module's exported globals that compiled code refers to, by global index.
#[derive(Clone, Copy, Debug)]
pub struct RuntimeGlobalMappings {
    pub null_pointer: u32,
}

/// The runtime module's exported builtin functions, by function index: entry `i` belongs to
/// the builtin at position `i` (`None` for a builtin that the runtime does not export).
#[derive(Clone, Debug)]
pub struct RuntimeBuiltinMappings {
    pub functions: Vec<Option<u32>>,
}

impl RuntimeBuiltinMappings {
    /// Whether there is an entry for every builtin.
    pub open spec fn is_complete(&self) -> bool {
        self.functions@.len() == RUNTIME_BUILTIN_COUNT
    }

    /// The function index of `builtin`, if it is mapped.
    pub open spec fn function(&self, builtin: RuntimeBuiltin) -> Option<u32> {
        if builtin.position() < self.functions@.len() {
            self.functions@[builtin.position()]
        } else {
            None
        }
    }

    /// The function index of `builtin`, if it is mapped.
    pub fn get(&self, builtin: RuntimeBuiltin) -> (result: Option<u32>)
        ensures
            result == self.function(builtin),
    {
        let position = builtin_position(builtin);
        if position < self.functions.len() {
            self.functions[position]
        } else {
            None
        }
    }
}

/// The position of `builtin` in declaration order.
pub(crate) fn builtin_position(builtin: RuntimeBuiltin) -> (result: usize)
    ensures
        result == builtin.position(),
{
    let mut position: usize = 0;
    while position < RUNTIME_BUILTIN_COUNT
        invariant
            position <= RUNTIME_BUILTIN_COUNT,
            position <= builtin.position(),
        decreases RUNTIME_BUILTIN_COUNT - position,
    {
        if RuntimeBuiltin::from_position(position) == builtin {
            return position;
        }
        position = position + 1;
    }
    position
}

/// The runtime module's exported standard library functions, by function index: entry `i`
/// belongs to the `i`th of the standard library export names that they were looked up by.
#[derive(Clone, Debug)]
pub struct RuntimeStdlibMappings {
    pub functions: Vec<u32>,
}

impl RuntimeStdlibMappings {
    /// The function index of the `index`th standard library function, if there is one.
    pub fn get_function_id(&self, index: usize) -> (result: Option<u32>)
        ensures
            result == (if index < self.functions@.len() { Some(self.functions@[index as int]) } else { None }),
    {
        if index < self.functions.len() {
            Some(self.functions[index])
        } else {
            None
        }
    }
}

/// Where compiled code finds the runtime module's exports.
#[derive(Clone, Debug)]
pub struct RuntimeExportMappings {
    pub globals: RuntimeGlobalMappings,
    pub builtins: RuntimeBuiltinMappings,
    pub stdlib: RuntimeStdlibMappings,
}

/// The text of a module item in messages: its kind and index, such as `Function(3)`.
pub open spec fn item_text(item: ExportTarget) -> Seq<char> {
    match item {
        ExportTarget::Function(index) => "Function("@ + spec_decimal(index as nat) + ")"@,
        ExportTarget::Table(index) => "Table("@ + spec_decimal(index as nat) + ")"@,
        ExportTarget::Memory(index) => "Memory("@ + spec_decimal(index as nat) + ")"@,
        ExportTarget::Global(index) => "Global("@ + spec_decimal(index as nat) + ")"@,
    }
}

/// The text of an import in messages: module and name, then the item it declares.
pub open spec fn import_text(import: ImportEntryView) -> Seq<char> {
    import.module + "."@ + import.name + " "@ + item_text(import.kind)
}

/// The text of what was found for an import: `None`, or the item.
pub open spec fn received_item_text(received: Option<ExportTarget>) -> Seq<char> {
    match received {
        None => "None"@,
        Some(item) => item_text(item),
    }
}

/// The text of a module item.
fn item_to_string(item: ExportTarget) -> (result: String)
    ensures
        result@ == item_text(item),
{
    let (kind, index) = match item {
        ExportTarget::Function(index) => ("Function(", index),
        ExportTarget::Table(index) => ("Table(", index),
        ExportTarget::Memory(index) => ("Memory(", index),
        ExportTarget::Global(index) => ("Global(", index),
    };
    String::from_str(kind).concat(decimal(index as u64).as_str()).concat(")")
}

/// The message of a generator error.
pub open spec fn generator_error_text(error: WasmGeneratorError) -> Seq<char> {
    match error {
        WasmGeneratorError::StackError => "Invalid stack access"@,
        WasmGeneratorError::InvalidCompiledFunction(id) => "Invalid compiled function ID: "@ + function_id_text(id),
        WasmGeneratorError::InvalidModuleImport { expected, received } => "Invalid module import: Expected "@
            + import_text(expected@) + ", received "@ + received_item_text(received),
        WasmGeneratorError::InvalidBlockOffset(target) => "Invalid parent block offset: "@ + spec_decimal(target as nat),
    }
}

impl WasmGeneratorError {
    /// The error message.
    pub fn to_string(&self) -> (result: String)
        ensures
            result@ == generator_error_text(*self),
    {
        match self {
            WasmGeneratorError::StackError => String::from_str("Invalid stack access"),
            WasmGeneratorError::InvalidCompiledFunction(id) => String::from_str("Invalid compiled function ID: ").concat(id.to_string().as_str()),
            WasmGeneratorError::InvalidModuleImport { expected, received } => {
                let received_text = match received {
                    None => String::from_str("None"),
                    Some(item) => item_to_string(*item),
                };
                String::from_str("Invalid module import: Expected ")
                    .concat(expected.module.as_str())
                    .concat(".")
                    .concat(expected.name.as_str())
                    .concat(" ")
                    .concat(item_to_string(expected.kind).as_str())
                    .concat(", received ")
                    .concat(received_text.as_str())
            },
            WasmGeneratorError::InvalidBlockOffset(target) => String::from_str("Invalid parent block offset: ").concat(decimal(*target as u64).as_str()),
        }
    }
}

} // verus!
