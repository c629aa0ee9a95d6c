//! 'Low-level' instructions (generic stack machine instructions)
use vstd::prelude::*;

use crate::compiler::instruction::CompiledBlock;
use crate::compiler::signature::{ParamsSignature, TypeSignature, ValueType};
use crate::compiler::ConstValue;

verus! {

/// Push a constant value onto the operand stack
#[derive(Debug, Clone, Copy, PartialEq, Eq)]
pub struct Const {
    /// Value to push onto the operand stack
    pub value: ConstValue,
}

/// Push a copy of the value on top of the operand stack
#[derive(Debug, Clone, Copy, PartialEq, Eq)]
pub struct Duplicate {
    pub value_type: ValueType,
}

/// Pop the value on top of the operand stack and discard it
#[derive(Debug, Clone, Copy, PartialEq, Eq)]
pub struct Drop {
    pub value_type: ValueType,
}

/// Pop the top item of the operand stack and enter a new lexical scope whose variable is
/// assigned to that value
#[derive(Debug, Clone, Copy, PartialEq, Eq)]
pub struct ScopeStart {
    /// Type of the variable declared by the lexical scope
    pub value_type: ValueType,
}

/// Pop the latest lexical scope
#[derive(Debug, Clone, Copy, PartialEq, Eq)]
pub struct ScopeEnd {
    /// Type of the variable declared by the lexical scope
    pub value_type: ValueType,
}

/// Push a variable defined in a containing lexical scope onto the operand stack
#[derive(Debug, Clone, Copy, PartialEq, Eq)]
pub struct GetScopeValue {
    /// Type of the variable declared by the lexical scope
    /// (this must match the corresponding lexical scope's declaration)
    pub value_type: ValueType,
    /// Offset of the target lexical scope
    /// (where `0` is the current lexical scope, `1` is the immediate parent of the current lexical scope, etc)
    pub scope_offset: usize,
}

/// Enter a new control flow block
/// (this allows child instructions to break out of the block)
#[derive(Debug)]
pub struct Block {
    /// Description of operand stack items to inject into the block, along with the result type of the block
    pub block_type: TypeSignature,
    /// Instructions to execute within the block
    pub body: CompiledBlock,
}

/// Unconditionally break out of the specified control flow block
#[derive(Debug)]
pub struct Break {
    /// Index of the control flow block to break out of
    /// (where `0` is the current control flow block, `1` is the immediate parent of the current control flow block, etc)
    pub target_block: usize,
    /// Type of the values to carry out of the target block
    pub result_type: ParamsSignature,
}

/// Pop the top item of the operand stack, and if the value is not `0` then break out of the
/// specified control flow block
#[derive(Debug)]
pub struct ConditionalBreak {
    /// Index of the control flow block to break out of
    pub target_block: usize,
    /// Type of the values to carry out of the target block
    pub result_type: ParamsSignature,
}

/// Pop the top item of the operand stack, and if the value is not `0` then enter the
/// `consequent` block, otherwise enter the `alternative` block
#[derive(Debug)]
pub struct If {
    /// Description of operand stack items to inject into the consequent/alternative blocks,
    /// along with the result type of the blocks (both blocks must have the same type)
    pub block_type: TypeSignature,
    /// Control flow block to execute if the condition is satisfied
    pub consequent: CompiledBlock,
    /// Control flow block to execute if the condition is unsatisfied
    pub alternative: CompiledBlock,
}

/// Pop a condition and two values from the operand stack, and push the first value if the
/// condition is not `0`, otherwise the second
#[derive(Debug, Clone, Copy, PartialEq, Eq)]
pub struct Select {
    pub value_type: ValueType,
}

/// Pop the top two values from the operand stack, and push a constant `1` if they are equal,
/// or `0` if not
#[derive(Debug, Clone, Copy, PartialEq, Eq)]
pub struct Eq {
    pub value_type: ValueType,
}

/// Pop the top two values from the operand stack, and push a constant `1` if they are not
/// equal, or `0` if they are
#[derive(Debug, Clone, Copy, PartialEq, Eq)]
pub struct Ne {
    pub value_type: ValueType,
}

/// Pop a target heap pointer address from the operand stack, read the value at that offset
/// within the heap memory and push the value onto the operand stack
#[derive(Debug, Clone, Copy, PartialEq, Eq)]
pub struct ReadHeapValue {
    /// Type of the value being read from the heap
    pub value_type: ValueType,
}

/// Pop a value from the operand stack, then pop the target heap pointer address from the
/// operand stack, then write the value to that offset in the heap memory (nothing is pushed)
#[derive(Debug, Clone, Copy, PartialEq, Eq)]
pub struct WriteHeapValue {
    /// Type of the value being written to the heap
    pub value_type: ValueType,
}

} // verus!
