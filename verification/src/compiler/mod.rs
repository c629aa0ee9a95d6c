use vstd::prelude::*;
use vstd::string::StringExecFns;

use crate::pointer::ArenaPointer;
use crate::compiler::instruction::CompiledBlock;
use crate::compiler::signature::{ParamsSignature, ValueType};
use crate::text::{decimal, pad_with_zeros, spec_decimal, zero_padded};

pub mod bindings;
pub mod builder;
pub mod error;
pub mod globals;
pub mod instruction;
pub mod laws;
pub mod runtime;
pub mod signature;
pub mod stack;
pub mod wasm;

verus! {

/// How eagerly an argument is evaluated.
#[derive(Debug, Clone, Copy, PartialEq, Eq, Hash, Structural)]
pub enum ArgType {
    Lazy,
    Eager,
    Strict,
}

/// Options that choose how eagerly the compiler evaluates the parts of an expression.
#[derive(Debug, Clone, Copy)]
pub struct CompilerOptions {
    pub lazy_record_values: ArgType,
    pub lazy_list_items: ArgType,
    pub lazy_variable_initializers: ArgType,
    pub lazy_function_args: bool,
    pub lazy_lambda_args: ArgType,
    pub lazy_constructors: ArgType,
}

impl CompilerOptions {
    /// The default options.
    pub open spec fn spec_default() -> CompilerOptions {
        CompilerOptions {
            lazy_record_values: ArgType::Strict,
            lazy_list_items: ArgType::Strict,
            lazy_variable_initializers: ArgType::Eager,
            lazy_function_args: false,
            lazy_lambda_args: ArgType::Strict,
            lazy_constructors: ArgType::Strict,
        }
    }

    /// The default options: strict records, lists, lambda arguments and constructors, eager
    /// variable initializers and strict function arguments.
    pub fn default_options() -> (result: CompilerOptions)
        ensures
            result.lazy_record_values == ArgType::Strict,
            result.lazy_list_items == ArgType::Strict,
            result.lazy_variable_initializers == ArgType::Eager,
            result.lazy_function_args == false,
            result.lazy_lambda_args == ArgType::Strict,
            result.lazy_constructors == ArgType::Strict,
    {
        CompilerOptions {
            lazy_record_values: ArgType::Strict,
            lazy_list_items: ArgType::Strict,
            lazy_variable_initializers: ArgType::Eager,
            lazy_function_args: false,
            lazy_lambda_args: ArgType::Strict,
            lazy_constructors: ArgType::Strict,
        }
    }
}

/// A standard library function, identified by its uid, together with its arity: the numbers
/// of required and optional positional parameters, and whether it takes variadic arguments.
#[derive(Debug, Clone, Copy, PartialEq, Eq, Hash, Structural)]
pub struct Stdlib {
    pub uid: u32,
    pub required_args: u16,
    pub optional_args: u16,
    pub variadic: bool,
}

/// The identity of a compiled function: the hash of the lambda term it was compiled from.
#[derive(Debug, Clone, Copy, PartialEq, Eq, Hash, Structural)]
pub struct CompiledFunctionId(pub u64);

/// A function that can be called indirectly.
#[derive(Debug, Clone, Copy, PartialEq, Eq, Hash, Structural)]
pub enum FunctionPointer {
    Stdlib(Stdlib),
    Lambda(CompiledFunctionId),
}

/// A constant operand. Floating-point constants are held as their IEEE 754 bit patterns.
#[derive(Debug, Clone, Copy, PartialEq, Eq, Hash, Structural)]
pub enum ConstValue {
    I32(i32),
    U32(u32),
    I64(i64),
    U64(u64),
    F32(u32),
    F64(u64),
    /// Pointer to an address within a linear memory
    HeapPointer(ArenaPointer),
    /// Pointer to an indirect function call wrapper
    FunctionPointer(FunctionPointer),
}

impl ConstValue {
    pub open spec fn value_type(self) -> ValueType {
        match self {
            ConstValue::I32(_) => ValueType::I32,
            ConstValue::U32(_) => ValueType::U32,
            ConstValue::I64(_) => ValueType::I64,
            ConstValue::U64(_) => ValueType::U64,
            ConstValue::F32(_) => ValueType::F32,
            ConstValue::F64(_) => ValueType::F64,
            ConstValue::HeapPointer(_) => ValueType::HeapPointer,
            ConstValue::FunctionPointer(_) => ValueType::FunctionPointer,
        }
    }

    /// The value type of this constant.
    pub fn get_type(&self) -> (result: ValueType)
        ensures
            result == self.value_type(),
    {
        match self {
            ConstValue::I32(_) => ValueType::I32,
            ConstValue::U32(_) => ValueType::U32,
            ConstValue::I64(_) => ValueType::I64,
            ConstValue::U64(_) => ValueType::U64,
            ConstValue::F32(_) => ValueType::F32,
            ConstValue::F64(_) => ValueType::F64,
            ConstValue::HeapPointer(_) => ValueType::HeapPointer,
            ConstValue::FunctionPointer(_) => ValueType::FunctionPointer,
        }
    }
}

/// A compiled function: its parameter types and its body.
#[derive(Debug)]
pub struct CompiledLambda {
    pub params: ParamsSignature,
    pub body: CompiledBlock,
}

/// The text of a compiled function identifier in messages: `<fn:` and its decimal value, padded
/// with zeros to eight digits, then `>`.
pub open spec fn function_id_text(id: CompiledFunctionId) -> Seq<char> {
    "<fn:"@ + zero_padded(spec_decimal(id.0 as nat), 8) + ">"@
}

impl CompiledFunctionId {
    /// The identifier in messages, such as `<fn:00000042>`.
    pub fn to_string(&self) -> (result: String)
        ensures
            result@ == function_id_text(*self),
    {
        String::from_str("<fn:").concat(pad_with_zeros(decimal(self.0), 8).as_str()).concat(">")
    }
}

} // verus!
