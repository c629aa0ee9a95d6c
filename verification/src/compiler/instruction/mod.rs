use vstd::prelude::*;

use crate::compiler::bindings::CompilerVariableStackFrame;
use crate::compiler::error::{StackErrorModel, TypedStackError};
use crate::compiler::signature::{ParamsSignature, SignatureShape, ValueType};
use crate::compiler::stack::{
    spec_assert_lexical_scope, spec_assert_operands, spec_enter_block, spec_leave_block,
    spec_leave_scope, spec_pop_operands, spec_push_frame, spec_push_operands, CompilerStack,
    StackModel,
};

/// 'Low-level' instructions (generic stack machine instructions)
pub mod generic;
/// 'High-level' instructions (these make assumptions about the runtime environment - i.e. state, dependencies etc)
pub mod runtime;

verus! {

/// Virtual stack machine instruction set
///
/// The instruction set assumes three separate stacks, which correspond to the WebAssembly
/// stack, WebAssembly function locals and WebAssembly blocks respectively:
///   1. The operand stack, which stores function arguments and return values
///   2. The lexical scope stack, which is used store local variables (similar to virtual
///      registers). Each lexical scope stack frame holds a single variable, which can be loaded
///      onto the operand stack from anywhere within the lexical scope.
///   3. The control flow block stack, which stores nested code blocks. Nested instructions can
///      break out of enclosing blocks.
#[derive(Debug)]
pub enum CompiledInstruction {
    Const(generic::Const),
    Duplicate(generic::Duplicate),
    Drop(generic::Drop),
    ScopeStart(generic::ScopeStart),
    ScopeEnd(generic::ScopeEnd),
    GetScopeValue(generic::GetScopeValue),
    Block(generic::Block),
    Break(generic::Break),
    ConditionalBreak(generic::ConditionalBreak),
    If(generic::If),
    Select(generic::Select),
    Eq(generic::Eq),
    Ne(generic::Ne),
    ReadHeapValue(generic::ReadHeapValue),
    WriteHeapValue(generic::WriteHeapValue),
    NullPointer(runtime::NullPointer),
    DeclareVariable(runtime::DeclareVariable),
    LoadStateValue(runtime::LoadStateValue),
    CallRuntimeBuiltin(runtime::CallRuntimeBuiltin),
    CallStdlib(runtime::CallStdlib),
    CallCompiledFunction(runtime::CallCompiledFunction),
    CallDynamic(runtime::CallDynamic),
    Evaluate(runtime::Evaluate),
    Apply(runtime::Apply),
    CollectSignals(runtime::CollectSignals),
    BreakOnSignal(runtime::BreakOnSignal),
}

/// A sequence of instructions, executed in order.
#[derive(Debug)]
pub struct CompiledBlock {
    pub instructions: Vec<CompiledInstruction>,
}

/// Whether an executable typing outcome matches a modelled one.
pub open spec fn typed_as(result: Result<CompilerStack, TypedStackError>, model: Result<StackModel, StackErrorModel>) -> bool {
    match model {
        Ok(stack) => result matches Ok(actual) && actual@ == stack,
        Err(error) => result matches Err(actual) && actual@ == error,
    }
}

/// Pops `params` and then pushes `results`.
pub open spec fn apply_signature(stack: StackModel, params: SignatureShape, results: SignatureShape) -> Result<StackModel, StackErrorModel> {
    match spec_pop_operands(stack, params) {
        Ok(popped) => Ok(spec_push_operands(popped, results)),
        Err(error) => Err(error),
    }
}

/// Leaves the innermost block, whatever its result type (failing if there is no block).
pub open spec fn leave_any_block(stack: StackModel) -> Result<StackModel, StackErrorModel> {
    let target = if stack.blocks.len() > 0 { stack.blocks.last() } else { SignatureShape::Void };
    spec_leave_block(stack, target)
}

/// Leaves `count` blocks, whatever their result types.
pub open spec fn leave_blocks(stack: StackModel, count: nat) -> Result<StackModel, StackErrorModel>
    decreases count,
{
    if count == 0 {
        Ok(stack)
    } else {
        match leave_any_block(stack) {
            Ok(next) => leave_blocks(next, (count - 1) as nat),
            Err(error) => Err(error),
        }
    }
}

/// The typing of a break out of the block `target_block` levels out, carrying `result_type`.
pub open spec fn break_type(stack: StackModel, target_block: usize, result_type: SignatureShape) -> Result<StackModel, StackErrorModel> {
    match leave_blocks(stack, target_block as nat) {
        Ok(outer) => match spec_assert_operands(outer, result_type) {
            Ok(checked) => spec_leave_block(checked, result_type),
            Err(error) => Err(error),
        },
        Err(error) => Err(error),
    }
}

/// Checks that a block body ends with `results` on its operand stack, and leaves the block.
pub open spec fn finish_block(inner: Result<StackModel, StackErrorModel>, results: SignatureShape) -> Result<StackModel, StackErrorModel> {
    match inner {
        Ok(stack) => match spec_assert_operands(stack, results) {
            Ok(checked) => spec_leave_block(checked, results),
            Err(error) => Err(error),
        },
        Err(error) => Err(error),
    }
}

/// The typing of a block body of type `params -> results` entered from `stack`.
pub open spec fn validate_block(params: SignatureShape, results: SignatureShape, body: Seq<CompiledInstruction>, stack: StackModel) -> Result<StackModel, StackErrorModel> {
    finish_block(body_type(body, spec_enter_block(stack, params, results)), results)
}

/// `count` heap pointer types.
pub open spec fn heap_pointers(count: nat) -> Seq<ValueType> {
    Seq::new(count, |i: int| ValueType::HeapPointer)
}

/// The number of arguments a standard library call takes from the operand stack: one per
/// positional parameter, and one argument list for the variadic parameters if there are any.
pub open spec fn stdlib_arg_count(target: crate::compiler::Stdlib) -> nat {
    (target.required_args + target.optional_args + if target.variadic { 1int } else { 0int }) as nat
}

/// The effect of one instruction on the typed stack, or the type error it raises.
pub open spec fn instruction_type(instruction: CompiledInstruction, stack: StackModel) -> Result<StackModel, StackErrorModel>
    decreases instruction,
{
    match instruction {
        CompiledInstruction::Const(inner) => Ok(spec_push_operands(stack, SignatureShape::Single(inner.value.value_type()))),
        CompiledInstruction::Duplicate(inner) => match spec_assert_operands(stack, SignatureShape::Single(inner.value_type)) {
            Ok(checked) => Ok(spec_push_operands(checked, SignatureShape::Single(inner.value_type))),
            Err(error) => Err(error),
        },
        CompiledInstruction::Drop(inner) => spec_pop_operands(stack, SignatureShape::Single(inner.value_type)),
        CompiledInstruction::ScopeStart(inner) => match spec_pop_operands(stack, SignatureShape::Single(inner.value_type)) {
            Ok(popped) => Ok(spec_push_frame(popped, CompilerVariableStackFrame::Internal(inner.value_type))),
            Err(error) => Err(error),
        },
        CompiledInstruction::ScopeEnd(inner) => spec_leave_scope(stack, inner.value_type),
        CompiledInstruction::GetScopeValue(inner) => match spec_assert_lexical_scope(stack, inner.scope_offset, inner.value_type) {
            Ok(checked) => Ok(spec_push_operands(checked, SignatureShape::Single(inner.value_type))),
            Err(error) => Err(error),
        },
        CompiledInstruction::Block(inner) => {
            let params = inner.block_type.params@;
            let results = inner.block_type.results@;
            match finish_block(body_type(inner.body.instructions@, spec_enter_block(stack, params, results)), results) {
                Ok(_) => apply_signature(stack, params, results),
                Err(error) => Err(error),
            }
        },
        CompiledInstruction::Break(inner) => break_type(stack, inner.target_block, inner.result_type@),
        CompiledInstruction::ConditionalBreak(inner) => match spec_pop_operands(stack, SignatureShape::Single(ValueType::U32)) {
            Ok(popped) => match break_type(popped, inner.target_block, inner.result_type@) {
                Ok(_) => Ok(popped),
                Err(error) => Err(error),
            },
            Err(error) => Err(error),
        },
        CompiledInstruction::If(inner) => {
            let params = inner.block_type.params@;
            let results = inner.block_type.results@;
            match finish_block(body_type(inner.consequent.instructions@, spec_enter_block(stack, params, results)), results) {
                Ok(_) => match finish_block(body_type(inner.alternative.instructions@, spec_enter_block(stack, params, results)), results) {
                    Ok(_) => match spec_pop_operands(stack, SignatureShape::Single(ValueType::U32)) {
                        Ok(popped) => apply_signature(popped, params, results),
                        Err(error) => Err(error),
                    },
                    Err(error) => Err(error),
                },
                Err(error) => Err(error),
            }
        },
        CompiledInstruction::Select(inner) => apply_signature(
            stack,
            SignatureShape::Triple(inner.value_type, inner.value_type, ValueType::U32),
            SignatureShape::Single(inner.value_type),
        ),
        CompiledInstruction::Eq(inner) => apply_signature(
            stack,
            SignatureShape::Pair(inner.value_type, inner.value_type),
            SignatureShape::Single(ValueType::U32),
        ),
        CompiledInstruction::Ne(inner) => apply_signature(
            stack,
            SignatureShape::Pair(inner.value_type, inner.value_type),
            SignatureShape::Single(ValueType::U32),
        ),
        CompiledInstruction::ReadHeapValue(inner) => apply_signature(
            stack,
            SignatureShape::Single(ValueType::HeapPointer),
            SignatureShape::Single(inner.value_type),
        ),
        CompiledInstruction::WriteHeapValue(inner) => match spec_pop_operands(stack, SignatureShape::Single(inner.value_type)) {
            Ok(popped) => apply_signature(popped, SignatureShape::Single(ValueType::HeapPointer), SignatureShape::Void),
            Err(error) => Err(error),
        },
        CompiledInstruction::NullPointer(_) => Ok(spec_push_operands(stack, SignatureShape::Single(ValueType::HeapPointer))),
        CompiledInstruction::DeclareVariable(inner) => match spec_pop_operands(stack, SignatureShape::Single(inner.value_type)) {
            Ok(popped) => Ok(spec_push_frame(popped, CompilerVariableStackFrame::Variable(inner.value_type))),
            Err(error) => Err(error),
        },
        CompiledInstruction::LoadStateValue(_) => apply_signature(
            stack,
            SignatureShape::Single(ValueType::HeapPointer),
            SignatureShape::Single(ValueType::HeapPointer),
        ),
        CompiledInstruction::CallRuntimeBuiltin(inner) => apply_signature(
            stack,
            inner.target.spec_signature().0,
            inner.target.spec_signature().1,
        ),
        CompiledInstruction::CallStdlib(inner) => apply_signature(
            stack,
            SignatureShape::collected(heap_pointers(stdlib_arg_count(inner.target))),
            SignatureShape::Single(ValueType::HeapPointer),
        ),
        CompiledInstruction::CallCompiledFunction(inner) => apply_signature(
            stack,
            inner.signature.params@,
            inner.signature.results@,
        ),
        CompiledInstruction::CallDynamic(_) => apply_signature(
            stack,
            SignatureShape::Pair(ValueType::U32, ValueType::HeapPointer),
            SignatureShape::Single(ValueType::HeapPointer),
        ),
        CompiledInstruction::Evaluate(_) => apply_signature(
            stack,
            SignatureShape::Single(ValueType::HeapPointer),
            SignatureShape::Single(ValueType::HeapPointer),
        ),
        CompiledInstruction::Apply(_) => apply_signature(
            stack,
            SignatureShape::Pair(ValueType::HeapPointer, ValueType::HeapPointer),
            SignatureShape::Single(ValueType::HeapPointer),
        ),
        CompiledInstruction::CollectSignals(inner) => match spec_assert_operands(stack, SignatureShape::collected(heap_pointers(inner.count as nat))) {
            Ok(checked) => Ok(spec_push_operands(checked, SignatureShape::Single(ValueType::HeapPointer))),
            Err(error) => Err(error),
        },
        CompiledInstruction::BreakOnSignal(inner) => match spec_assert_operands(stack, SignatureShape::Single(ValueType::HeapPointer)) {
            Ok(checked) => match break_type(checked, inner.target_block, SignatureShape::Single(ValueType::HeapPointer)) {
                Ok(_) => Ok(checked),
                Err(error) => Err(error),
            },
            Err(error) => Err(error),
        },
    }
}

/// The effect of a sequence of instructions, run in order, on the typed stack: the first type
/// error stops the sequence.
pub open spec fn body_type(body: Seq<CompiledInstruction>, stack: StackModel) -> Result<StackModel, StackErrorModel>
    decreases body,
{
    if body.len() == 0 {
        Ok(stack)
    } else {
        match body_type(body.drop_last(), stack) {
            Ok(before) => instruction_type(body.last(), before),
            Err(error) => Err(error),
        }
    }
}

/// A block whose body is a prefix of a longer block fails the same way the prefix does.
proof fn lemma_body_type_error_extends(body: Seq<CompiledInstruction>, k: int, stack: StackModel)
    requires
        0 <= k <= body.len(),
        body_type(body.subrange(0, k), stack) is Err,
    ensures
        body_type(body, stack) == body_type(body.subrange(0, k), stack),
    decreases body.len() - k,
{
    if k < body.len() {
        let next = body.subrange(0, k + 1);
        assert(next.drop_last() =~= body.subrange(0, k));
        lemma_body_type_error_extends(body, k + 1, stack);
    } else {
        assert(body.subrange(0, k) =~= body);
    }
}

/// The typing of a `count`-fold exit from the innermost blocks.
fn leave_blocks_exec(stack: &CompilerStack, count: usize) -> (result: Result<CompilerStack, TypedStackError>)
    ensures
        typed_as(result, leave_blocks(stack@, count as nat)),
{
    let mut current = stack.duplicate();
    let mut i: usize = 0;
    while i < count
        invariant
            i <= count,
            leave_blocks(stack@, count as nat) == leave_blocks(current@, (count - i) as nat),
        decreases count - i,
    {
        let target = match current.active_block() {
            Some(block) => block.duplicate(),
            None => ParamsSignature::Void,
        };
        match current.leave_block(&target) {
            Ok(next) => {
                current = next;
            },
            Err(error) => {
                return Err(error);
            },
        }
        i = i + 1;
    }
    Ok(current)
}

/// The typing of a break out of the block `target_block` levels out, carrying `result_type`.
pub fn break_get_type(stack: &CompilerStack, target_block: usize, result_type: &ParamsSignature) -> (result: Result<CompilerStack, TypedStackError>)
    ensures
        typed_as(result, break_type(stack@, target_block, result_type@)),
{
    let outer = match leave_blocks_exec(stack, target_block) {
        Ok(outer) => outer,
        Err(error) => {
            return Err(error);
        },
    };
    match outer.assert_operands(result_type) {
        Ok(_) => {},
        Err(error) => {
            return Err(error);
        },
    }
    outer.leave_block(result_type)
}

/// Pops `params` and then pushes `results`.
fn apply_signature_exec(stack: &CompilerStack, params: &ParamsSignature, results: &ParamsSignature) -> (result: Result<CompilerStack, TypedStackError>)
    ensures
        typed_as(result, apply_signature(stack@, params@, results@)),
{
    match stack.pop_operands(params) {
        Ok(popped) => Ok(popped.push_operands(results)),
        Err(error) => Err(error),
    }
}

/// A signature of `count` heap pointers.
fn heap_pointer_signature(count: usize) -> (result: ParamsSignature)
    ensures
        result@ == SignatureShape::collected(heap_pointers(count as nat)),
{
    let mut items: Vec<ValueType> = Vec::new();
    let mut i: usize = 0;
    while i < count
        invariant
            i <= count,
            items@ =~= heap_pointers(i as nat),
        decreases count - i,
    {
        items.push(ValueType::HeapPointer);
        i = i + 1;
    }
    ParamsSignature::from_values(items.as_slice())
}

impl CompiledBlock {
    /// An empty block.
    pub fn new() -> (result: CompiledBlock)
        ensures
            result.instructions@.len() == 0,
    {
        CompiledBlock { instructions: Vec::new() }
    }

    /// The typed stack after running every instruction of this block in order, or the first
    /// type error.
    pub fn get_type(&self, stack: &CompilerStack) -> (result: Result<CompilerStack, TypedStackError>)
        ensures
            typed_as(result, body_type(self.instructions@, stack@)),
        decreases self, 0int,
    {
        let mut current = stack.duplicate();
        let mut i: usize = 0;
        assert(self.instructions@.subrange(0, 0) =~= Seq::<CompiledInstruction>::empty());
        while i < self.instructions.len()
            invariant
                i <= self.instructions.len(),
                body_type(self.instructions@.subrange(0, i as int), stack@) == Ok::<StackModel, StackErrorModel>(current@),
            decreases self.instructions.len() - i,
        {
            proof {
                let next = self.instructions@.subrange(0, i + 1);
                assert(next.drop_last() =~= self.instructions@.subrange(0, i as int));
                assert(next.last() == self.instructions@[i as int]);
            }
            let instruction = &self.instructions[i];
            assert(decreases_to!(self => self.instructions@[i as int]));
            match instruction.get_type(&current) {
                Ok(next) => {
                    current = next;
                },
                Err(error) => {
                    proof {
                        lemma_body_type_error_extends(self.instructions@, i + 1, stack@);
                    }
                    return Err(error);
                },
            }
            i = i + 1;
        }
        assert(self.instructions@.subrange(0, self.instructions.len() as int) =~= self.instructions@);
        Ok(current)
    }
}

/// The typing of a block body of type `params -> results` entered from `stack`.
fn validate_block_exec(block_type: &crate::compiler::signature::TypeSignature, body: &CompiledBlock, stack: &CompilerStack) -> (result: Result<CompilerStack, TypedStackError>)
    ensures
        typed_as(result, validate_block(block_type.params@, block_type.results@, body.instructions@, stack@)),
    decreases body, 1int,
{
    let inner = match stack.enter_block(block_type) {
        Ok(inner) => inner,
        Err(error) => {
            return Err(error);
        },
    };
    let finished = match body.get_type(&inner) {
        Ok(finished) => finished,
        Err(error) => {
            return Err(error);
        },
    };
    match finished.assert_operands(&block_type.results) {
        Ok(_) => {},
        Err(error) => {
            return Err(error);
        },
    }
    finished.leave_block(&block_type.results)
}

impl CompiledInstruction {
    /// The typed stack after running this instruction, or the type error it raises.
    pub fn get_type(&self, stack: &CompilerStack) -> (result: Result<CompilerStack, TypedStackError>)
        ensures
            typed_as(result, instruction_type(*self, stack@)),
        decreases self, 2int,
    {
        match self {
            CompiledInstruction::Const(inner) => Ok(stack.push_operand(inner.value.get_type())),
            CompiledInstruction::Duplicate(inner) => match stack.assert_operand(inner.value_type) {
                Ok(checked) => Ok(checked.push_operand(inner.value_type)),
                Err(error) => Err(error),
            },
            CompiledInstruction::Drop(inner) => stack.pop_operand(inner.value_type),
            CompiledInstruction::ScopeStart(inner) => match stack.pop_operand(inner.value_type) {
                Ok(popped) => Ok(popped.enter_scope(inner.value_type)),
                Err(error) => Err(error),
            },
            CompiledInstruction::ScopeEnd(inner) => stack.leave_scope(inner.value_type),
            CompiledInstruction::GetScopeValue(inner) => match stack.assert_lexical_scope(inner.scope_offset, inner.value_type) {
                Ok(checked) => Ok(checked.push_operand(inner.value_type)),
                Err(error) => Err(error),
            },
            CompiledInstruction::Block(inner) => {
                assert(decreases_to!(self => inner.body));
                match validate_block_exec(&inner.block_type, &inner.body, stack) {
                    Ok(_) => apply_signature_exec(stack, &inner.block_type.params, &inner.block_type.results),
                    Err(error) => Err(error),
                }
            },
            CompiledInstruction::Break(inner) => break_get_type(stack, inner.target_block, &inner.result_type),
            CompiledInstruction::ConditionalBreak(inner) => match stack.pop_operand(ValueType::U32) {
                Ok(popped) => match break_get_type(&popped, inner.target_block, &inner.result_type) {
                    Ok(_) => Ok(popped),
                    Err(error) => Err(error),
                },
                Err(error) => Err(error),
            },
            CompiledInstruction::If(inner) => {
                assert(decreases_to!(self => inner.consequent));
                assert(decreases_to!(self => inner.alternative));
                match validate_block_exec(&inner.block_type, &inner.consequent, stack) {
                    Ok(_) => {},
                    Err(error) => {
                        return Err(error);
                    },
                }
                match validate_block_exec(&inner.block_type, &inner.alternative, stack) {
                    Ok(_) => {},
                    Err(error) => {
                        return Err(error);
                    },
                }
                match stack.pop_operand(ValueType::U32) {
                    Ok(popped) => apply_signature_exec(&popped, &inner.block_type.params, &inner.block_type.results),
                    Err(error) => Err(error),
                }
            },
            CompiledInstruction::Select(inner) => apply_signature_exec(
                stack,
                &ParamsSignature::Triple(inner.value_type, inner.value_type, ValueType::U32),
                &ParamsSignature::Single(inner.value_type),
            ),
            CompiledInstruction::Eq(inner) => apply_signature_exec(
                stack,
                &ParamsSignature::Pair(inner.value_type, inner.value_type),
                &ParamsSignature::Single(ValueType::U32),
            ),
            CompiledInstruction::Ne(inner) => apply_signature_exec(
                stack,
                &ParamsSignature::Pair(inner.value_type, inner.value_type),
                &ParamsSignature::Single(ValueType::U32),
            ),
            CompiledInstruction::ReadHeapValue(inner) => apply_signature_exec(
                stack,
                &ParamsSignature::Single(ValueType::HeapPointer),
                &ParamsSignature::Single(inner.value_type),
            ),
            CompiledInstruction::WriteHeapValue(inner) => match stack.pop_operand(inner.value_type) {
                Ok(popped) => apply_signature_exec(
                    &popped,
                    &ParamsSignature::Single(ValueType::HeapPointer),
                    &ParamsSignature::Void,
                ),
                Err(error) => Err(error),
            },
            CompiledInstruction::NullPointer(_) => Ok(stack.push_operand(ValueType::HeapPointer)),
            CompiledInstruction::DeclareVariable(inner) => match stack.pop_operand(inner.value_type) {
                Ok(popped) => Ok(popped.declare_variable(inner.value_type)),
                Err(error) => Err(error),
            },
            CompiledInstruction::LoadStateValue(_) => apply_signature_exec(
                stack,
                &ParamsSignature::Single(ValueType::HeapPointer),
                &ParamsSignature::Single(ValueType::HeapPointer),
            ),
            CompiledInstruction::CallRuntimeBuiltin(inner) => {
                let signature = inner.target.signature();
                apply_signature_exec(stack, &signature.params, &signature.results)
            },
            CompiledInstruction::CallStdlib(inner) => {
                let target = inner.target;
                let num_args: usize = target.required_args as usize + target.optional_args as usize + if target.variadic { 1 } else { 0 };
                apply_signature_exec(
                    stack,
                    &heap_pointer_signature(num_args),
                    &ParamsSignature::Single(ValueType::HeapPointer),
                )
            },
            CompiledInstruction::CallCompiledFunction(inner) => apply_signature_exec(
                stack,
                &inner.signature.params,
                &inner.signature.results,
            ),
            CompiledInstruction::CallDynamic(_) => apply_signature_exec(
                stack,
                &ParamsSignature::Pair(ValueType::U32, ValueType::HeapPointer),
                &ParamsSignature::Single(ValueType::HeapPointer),
            ),
            CompiledInstruction::Evaluate(_) => apply_signature_exec(
                stack,
                &ParamsSignature::Single(ValueType::HeapPointer),
                &ParamsSignature::Single(ValueType::HeapPointer),
            ),
            CompiledInstruction::Apply(_) => apply_signature_exec(
                stack,
                &ParamsSignature::Pair(ValueType::HeapPointer, ValueType::HeapPointer),
                &ParamsSignature::Single(ValueType::HeapPointer),
            ),
            CompiledInstruction::CollectSignals(inner) => match stack.assert_operands(&heap_pointer_signature(inner.count)) {
                Ok(checked) => Ok(checked.push_operand(ValueType::HeapPointer)),
                Err(error) => Err(error),
            },
            CompiledInstruction::BreakOnSignal(inner) => match stack.assert_operand(ValueType::HeapPointer) {
                Ok(checked) => match break_get_type(checked, inner.target_block, &ParamsSignature::Single(ValueType::HeapPointer)) {
                    Ok(_) => Ok(checked.duplicate()),
                    Err(error) => Err(error),
                },
                Err(error) => Err(error),
            },
        }
    }
}

} // verus!
