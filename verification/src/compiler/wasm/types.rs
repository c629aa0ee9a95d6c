use vstd::prelude::*;

use crate::compiler::signature::{ParamsSignature, SignatureShape, TypeSignature, ValueType};

verus! {

/// A WebAssembly value type.
#[derive(Copy, Clone, Debug, Eq, PartialEq, Hash, Structural)]
pub enum WasmValueType {
    I32,
    I64,
    F32,
    F64,
}

/// The WebAssembly type that holds a stack machine value: 32-bit integers and pointers are
/// `i32`, 64-bit integers are `i64`, floats keep their width.
pub open spec fn spec_value_type(value_type: ValueType) -> WasmValueType {
    match value_type {
        ValueType::I32 | ValueType::U32 | ValueType::HeapPointer | ValueType::FunctionPointer => WasmValueType::I32,
        ValueType::I64 | ValueType::U64 => WasmValueType::I64,
        ValueType::F32 => WasmValueType::F32,
        ValueType::F64 => WasmValueType::F64,
    }
}

/// The WebAssembly types of a sequence of stack machine types.
pub open spec fn spec_value_types(value_types: Seq<ValueType>) -> Seq<WasmValueType> {
    value_types.map_values(|value_type: ValueType| spec_value_type(value_type))
}

/// The WebAssembly type that holds a stack machine value.
pub fn parse_value_type(value_type: ValueType) -> (result: WasmValueType)
    ensures
        result == spec_value_type(value_type),
{
    match value_type {
        ValueType::I32 | ValueType::U32 | ValueType::HeapPointer | ValueType::FunctionPointer => WasmValueType::I32,
        ValueType::I64 | ValueType::U64 => WasmValueType::I64,
        ValueType::F32 => WasmValueType::F32,
        ValueType::F64 => WasmValueType::F64,
    }
}

/// The WebAssembly types of the value types of a signature.
pub fn parse_value_types(signature: &ParamsSignature) -> (result: Vec<WasmValueType>)
    ensures
        result@ == spec_value_types(signature@.values()),
{
    let values = signature.to_vec();
    let mut result: Vec<WasmValueType> = Vec::new();
    let mut i: usize = 0;
    while i < values.len()
        invariant
            i <= values.len(),
            values@ == signature@.values(),
            result@ =~= spec_value_types(values@.subrange(0, i as int)),
        decreases values.len() - i,
    {
        result.push(parse_value_type(values[i]));
        i = i + 1;
    }
    assert(values@.subrange(0, values.len() as int) =~= values@);
    result
}

/// The WebAssembly parameter and result types of a function signature.
pub fn parse_function_type_signature(signature: &TypeSignature) -> (result: (Vec<WasmValueType>, Vec<WasmValueType>))
    ensures
        result.0@ == spec_value_types(signature.params@.values()),
        result.1@ == spec_value_types(signature.results@.values()),
{
    (parse_value_types(&signature.params), parse_value_types(&signature.results))
}

/// How a block type is declared in WebAssembly: a block without parameters and with at most
/// one result uses the short form, any other block a function type.
#[derive(Debug)]
pub enum WasmBlockSignature {
    Simple(Option<WasmValueType>),
    Function(Vec<WasmValueType>, Vec<WasmValueType>),
}

/// The WebAssembly declaration of a block of type `signature`.
pub fn parse_block_type_signature(signature: &TypeSignature) -> (result: WasmBlockSignature)
    ensures
        match (signature.params@, signature.results@) {
            (SignatureShape::Void, SignatureShape::Void) => result matches WasmBlockSignature::Simple(None),
            (SignatureShape::Void, SignatureShape::Single(value_type)) =>
                result matches WasmBlockSignature::Simple(Some(t)) && t == spec_value_type(value_type),
            _ => result matches WasmBlockSignature::Function(params, results)
                && params@ == spec_value_types(signature.params@.values())
                && results@ == spec_value_types(signature.results@.values()),
        },
{
    match (&signature.params, &signature.results) {
        (ParamsSignature::Void, ParamsSignature::Void) => WasmBlockSignature::Simple(None),
        (ParamsSignature::Void, ParamsSignature::Single(result)) => WasmBlockSignature::Simple(Some(parse_value_type(*result))),
        _ => {
            let (params, results) = parse_function_type_signature(signature);
            WasmBlockSignature::Function(params, results)
        },
    }
}

} // verus!
