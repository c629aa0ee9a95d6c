use vstd::prelude::*;

use crate::compiler::error::{StackErrorModel, TypedStackError};
use crate::compiler::instruction::{body_type, instruction_type, CompiledBlock, CompiledInstruction};
use crate::compiler::stack::{CompilerStack, StackModel};

verus! {

/// Builds a block one instruction at a time, type checking each instruction against the stack
/// that the preceding ones leave; the first type error is kept and later instructions are
/// ignored.
#[derive(Debug)]
pub struct CompiledBlockBuilder {
    pub result: Result<CompiledBlock, TypedStackError>,
    pub stack: CompilerStack,
}

/// Sequencing: the typing of `first + second` is the typing of `second` from the stack that
/// `first` leaves.
pub proof fn lemma_body_type_concat(first: Seq<CompiledInstruction>, second: Seq<CompiledInstruction>, stack: StackModel)
    ensures
        body_type(first + second, stack) == match body_type(first, stack) {
            Ok(middle) => body_type(second, middle),
            Err(error) => Err::<StackModel, StackErrorModel>(error),
        },
    decreases second.len(),
{
    if second.len() == 0 {
        assert(first + second =~= first);
    } else {
        lemma_body_type_concat(first, second.drop_last(), stack);
        assert((first + second).drop_last() =~= first + second.drop_last());
        assert((first + second).last() == second.last());
    }
}

impl CompiledBlockBuilder {
    /// A builder with an empty block, checking against `stack`.
    pub fn new(stack: CompilerStack) -> (result: CompiledBlockBuilder)
        ensures
            result.result matches Ok(block) && block.instructions@.len() == 0,
            result.stack@ == stack@,
    {
        CompiledBlockBuilder { stack, result: Ok(CompiledBlock::new()) }
    }

    /// Appends `instruction` if the block so far is well typed and the instruction type checks
    /// against the current stack; otherwise records the type error.
    pub fn push(self, instruction: CompiledInstruction) -> (result: CompiledBlockBuilder)
        ensures
            match self.result {
                Err(_) => result.result == self.result && result.stack@ == self.stack@,
                Ok(block) => match instruction_type(instruction, self.stack@) {
                    Ok(stack) => result.stack@ == stack && (result.result matches Ok(updated)
                        && updated.instructions@ == block.instructions@.push(instruction)),
                    Err(error) => result.stack@ == self.stack@ && (result.result matches Err(e) && e@ == error),
                },
            },
    {
        let CompiledBlockBuilder { result, stack } = self;
        match result {
            Err(error) => CompiledBlockBuilder { result: Err(error), stack },
            Ok(mut block) => match instruction.get_type(&stack) {
                Ok(updated_stack) => {
                    block.instructions.push(instruction);
                    CompiledBlockBuilder { result: Ok(block), stack: updated_stack }
                },
                Err(error) => CompiledBlockBuilder { result: Err(error), stack },
            },
        }
    }

    /// Appends every instruction of `block` if the block so far is well typed and `block` type
    /// checks against the current stack; otherwise records the type error.
    pub fn append_block(self, block: CompiledBlock) -> (result: CompiledBlockBuilder)
        ensures
            match self.result {
                Err(_) => result.result == self.result && result.stack@ == self.stack@,
                Ok(existing) => match body_type(block.instructions@, self.stack@) {
                    Ok(stack) => result.stack@ == stack && (result.result matches Ok(updated)
                        && updated.instructions@ == existing.instructions@ + block.instructions@),
                    Err(error) => result.stack@ == self.stack@ && (result.result matches Err(e) && e@ == error),
                },
            },
    {
        let CompiledBlockBuilder { result, stack } = self;
        match result {
            Err(error) => CompiledBlockBuilder { result: Err(error), stack },
            Ok(mut existing) => match block.get_type(&stack) {
                Ok(updated_stack) => {
                    let CompiledBlock { instructions: mut appended } = block;
                    existing.instructions.append(&mut appended);
                    CompiledBlockBuilder { result: Ok(existing), stack: updated_stack }
                },
                Err(error) => CompiledBlockBuilder { result: Err(error), stack },
            },
        }
    }

    /// The finished block, or the first type error.
    pub fn finish(self) -> (result: Result<CompiledBlock, TypedStackError>)
        ensures
            result == self.result,
    {
        self.result
    }

    /// The finished block together with the stack it leaves, or the first type error.
    pub fn into_parts(self) -> (result: Result<(CompiledBlock, CompilerStack), TypedStackError>)
        ensures
            match self.result {
                Ok(block) => result matches Ok((b, s)) && b == block && s@ == self.stack@,
                Err(error) => result matches Err(e) && e == error,
            },
    {
        let CompiledBlockBuilder { result, stack } = self;
        match result {
            Ok(block) => Ok((block, stack)),
            Err(error) => Err(error),
        }
    }
}

} // verus!
