//! 'High-level' instructions (these make assumptions about the runtime environment - i.e.
//! state, dependencies etc)
use vstd::prelude::*;

use crate::compiler::runtime::builtin::RuntimeBuiltin;
use crate::compiler::signature::{TypeSignature, ValueType};
use crate::compiler::{CompiledFunctionId, Stdlib};

verus! {

/// Push a null term pointer onto the operand stack
#[derive(Debug, Clone, Copy, PartialEq, Eq)]
pub struct NullPointer;

/// Pop the top item of the operand stack and declare a new application variable whose value
/// is that item
#[derive(Debug, Clone, Copy, PartialEq, Eq)]
pub struct DeclareVariable {
    /// Type of the variable declared by the lexical scope
    pub value_type: ValueType,
}

/// Pop a state token term pointer and push the corresponding state value term pointer
#[derive(Debug, Clone, Copy, PartialEq, Eq)]
pub struct LoadStateValue;

/// Invoke one of the interpreter runtime builtin functions
#[derive(Debug, Clone, Copy, PartialEq, Eq)]
pub struct CallRuntimeBuiltin {
    /// Runtime function to invoke
    pub target: RuntimeBuiltin,
}

/// Invoke a standard library function
#[derive(Debug, Clone, Copy, PartialEq, Eq)]
pub struct CallStdlib {
    /// Standard library method to invoke
    pub target: Stdlib,
}

/// Invoke a compiled function
#[derive(Debug)]
pub struct CallCompiledFunction {
    /// Type signature of the target function
    pub signature: TypeSignature,
    /// ID of the target function
    pub target: CompiledFunctionId,
}

/// Pop a function index and an argument list and invoke the function indirectly
#[derive(Debug)]
pub struct CallDynamic {
    /// Type signature of the target function
    pub signature: TypeSignature,
}

/// Pop a term pointer and push the result of evaluating that term
#[derive(Debug, Clone, Copy, PartialEq, Eq)]
pub struct Evaluate;

/// Pop an application target and an argument list and push the application result
#[derive(Debug, Clone, Copy, PartialEq, Eq)]
pub struct Apply;

/// Test the top `count` operands for signals and push the combined signal result
#[derive(Debug, Clone, Copy, PartialEq, Eq)]
pub struct CollectSignals {
    /// Number of operand stack values to test for signals
    pub count: usize,
    /// Whether to preserve the original values on the operand stack ('peek' mode) or remove
    /// them ('pop' mode)
    pub retain_existing_items: bool,
}

/// Break out of the target block if the term on top of the operand stack is a signal
#[derive(Debug, Clone, Copy, PartialEq, Eq)]
pub struct BreakOnSignal {
    /// Index of the control flow block to break out of
    pub target_block: usize,
}

} // verus!
