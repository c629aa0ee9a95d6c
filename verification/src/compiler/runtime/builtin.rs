use vstd::prelude::*;

use crate::compiler::signature::{ParamsSignature, SignatureShape, TypeSignature, ValueType};

verus! {

/// A function exported by the interpreter runtime module that compiled code can call.
#[derive(Copy, Clone, Debug, Eq, PartialEq, Hash, Structural)]
pub enum RuntimeBuiltin {
    Initialize,
    Evaluate,
    Apply,
    CombineDependencies,
    CombineSignals,
    IsSignal,
    AllocateCell,
    AllocateHashmap,
    AllocateList,
    AllocateString,
    CreateApplication,
    CreateBoolean,
    CreateBuiltin,
    CreateCustomCondition,
    CreatePendingCondition,
    CreateErrorCondition,
    CreateTypeErrorCondition,
    CreateInvalidFunctionTargetCondition,
    CreateInvalidFunctionArgsCondition,
    CreateInvalidPointerCondition,
    CreateConstructor,
    CreateEmptyList,
    CreateEffect,
    CreateFloat,
    CreateHashset,
    CreateInt,
    CreateLambda,
    CreateLazyResult,
    CreateNil,
    CreatePartial,
    CreatePointer,
    CreateRecord,
    CreateTimestamp,
    CreateSignal,
    CreateSymbol,
    CreateTree,
    CreateEmptyIterator,
    CreateEvaluateIterator,
    CreateFilterIterator,
    CreateFlattenIterator,
    CreateHashmapKeysIterator,
    CreateHashmapValuesIterator,
    CreateIndexedAccessorIterator,
    CreateIntegersIterator,
    CreateIntersperseIterator,
    CreateMapIterator,
    CreateOnceIterator,
    CreateRangeIterator,
    CreateRepeatIterator,
    CreateSkipIterator,
    CreateTakeIterator,
    CreateZipIterator,
    GetBooleanValue,
    GetListItem,
    GetListLength,
    GetStateValue,
    GetStringCharOffset,
    InitHashmap,
    InitList,
    InitString,
    InsertHashmapEntry,
    SetCellField,
    SetListItem,
}

impl RuntimeBuiltin {
    /// The parameter and result types of this builtin.
    pub open spec fn spec_signature(self) -> (SignatureShape, SignatureShape) {
        match self {
            RuntimeBuiltin::Initialize => (SignatureShape::Void, SignatureShape::Void),
            RuntimeBuiltin::Evaluate => (SignatureShape::Single(ValueType::HeapPointer), SignatureShape::Single(ValueType::HeapPointer)),
            RuntimeBuiltin::Apply => (SignatureShape::Pair(ValueType::HeapPointer, ValueType::HeapPointer), SignatureShape::Single(ValueType::HeapPointer)),
            RuntimeBuiltin::CombineDependencies => (SignatureShape::Pair(ValueType::HeapPointer, ValueType::HeapPointer), SignatureShape::Single(ValueType::HeapPointer)),
            RuntimeBuiltin::CombineSignals => (SignatureShape::Pair(ValueType::HeapPointer, ValueType::HeapPointer), SignatureShape::Single(ValueType::HeapPointer)),
            RuntimeBuiltin::IsSignal => (SignatureShape::Single(ValueType::HeapPointer), SignatureShape::Single(ValueType::U32)),
            RuntimeBuiltin::AllocateCell => (SignatureShape::Single(ValueType::U32), SignatureShape::Single(ValueType::HeapPointer)),
            RuntimeBuiltin::AllocateHashmap => (SignatureShape::Single(ValueType::U32), SignatureShape::Single(ValueType::HeapPointer)),
            RuntimeBuiltin::AllocateList => (SignatureShape::Single(ValueType::U32), SignatureShape::Single(ValueType::HeapPointer)),
            RuntimeBuiltin::AllocateString => (SignatureShape::Single(ValueType::U32), SignatureShape::Single(ValueType::HeapPointer)),
            RuntimeBuiltin::CreateApplication => (SignatureShape::Pair(ValueType::HeapPointer, ValueType::HeapPointer), SignatureShape::Single(ValueType::HeapPointer)),
            RuntimeBuiltin::CreateBoolean => (SignatureShape::Single(ValueType::U32), SignatureShape::Single(ValueType::HeapPointer)),
            RuntimeBuiltin::CreateBuiltin => (SignatureShape::Single(ValueType::FunctionPointer), SignatureShape::Single(ValueType::HeapPointer)),
            RuntimeBuiltin::CreateCustomCondition => (SignatureShape::Triple(ValueType::HeapPointer, ValueType::HeapPointer, ValueType::HeapPointer), SignatureShape::Single(ValueType::HeapPointer)),
            RuntimeBuiltin::CreatePendingCondition => (SignatureShape::Void, SignatureShape::Single(ValueType::HeapPointer)),
            RuntimeBuiltin::CreateErrorCondition => (SignatureShape::Single(ValueType::HeapPointer), SignatureShape::Single(ValueType::HeapPointer)),
            RuntimeBuiltin::CreateTypeErrorCondition => (SignatureShape::Pair(ValueType::U32, ValueType::HeapPointer), SignatureShape::Single(ValueType::HeapPointer)),
            RuntimeBuiltin::CreateInvalidFunctionTargetCondition => (SignatureShape::Single(ValueType::HeapPointer), SignatureShape::Single(ValueType::HeapPointer)),
            RuntimeBuiltin::CreateInvalidFunctionArgsCondition => (SignatureShape::Pair(ValueType::HeapPointer, ValueType::HeapPointer), SignatureShape::Single(ValueType::HeapPointer)),
            RuntimeBuiltin::CreateInvalidPointerCondition => (SignatureShape::Void, SignatureShape::Single(ValueType::HeapPointer)),
            RuntimeBuiltin::CreateConstructor => (SignatureShape::Single(ValueType::HeapPointer), SignatureShape::Single(ValueType::HeapPointer)),
            RuntimeBuiltin::CreateEmptyList => (SignatureShape::Void, SignatureShape::Single(ValueType::HeapPointer)),
            RuntimeBuiltin::CreateEffect => (SignatureShape::Single(ValueType::HeapPointer), SignatureShape::Single(ValueType::HeapPointer)),
            RuntimeBuiltin::CreateFloat => (SignatureShape::Single(ValueType::F64), SignatureShape::Single(ValueType::HeapPointer)),
            RuntimeBuiltin::CreateHashset => (SignatureShape::Single(ValueType::HeapPointer), SignatureShape::Single(ValueType::HeapPointer)),
            RuntimeBuiltin::CreateInt => (SignatureShape::Single(ValueType::F64), SignatureShape::Single(ValueType::HeapPointer)),
            RuntimeBuiltin::CreateLambda => (SignatureShape::Pair(ValueType::U32, ValueType::HeapPointer), SignatureShape::Single(ValueType::HeapPointer)),
            RuntimeBuiltin::CreateLazyResult => (SignatureShape::Pair(ValueType::HeapPointer, ValueType::HeapPointer), SignatureShape::Single(ValueType::HeapPointer)),
            RuntimeBuiltin::CreateNil => (SignatureShape::Void, SignatureShape::Single(ValueType::HeapPointer)),
            RuntimeBuiltin::CreatePartial => (SignatureShape::Pair(ValueType::HeapPointer, ValueType::HeapPointer), SignatureShape::Single(ValueType::HeapPointer)),
            RuntimeBuiltin::CreatePointer => (SignatureShape::Single(ValueType::U32), SignatureShape::Single(ValueType::HeapPointer)),
            RuntimeBuiltin::CreateRecord => (SignatureShape::Pair(ValueType::HeapPointer, ValueType::HeapPointer), SignatureShape::Single(ValueType::HeapPointer)),
            RuntimeBuiltin::CreateTimestamp => (SignatureShape::Single(ValueType::I64), SignatureShape::Single(ValueType::HeapPointer)),
            RuntimeBuiltin::CreateSignal => (SignatureShape::Single(ValueType::HeapPointer), SignatureShape::Single(ValueType::HeapPointer)),
            RuntimeBuiltin::CreateSymbol => (SignatureShape::Single(ValueType::I64), SignatureShape::Single(ValueType::HeapPointer)),
            RuntimeBuiltin::CreateTree => (SignatureShape::Pair(ValueType::HeapPointer, ValueType::HeapPointer), SignatureShape::Single(ValueType::HeapPointer)),
            RuntimeBuiltin::CreateEmptyIterator => (SignatureShape::Void, SignatureShape::Single(ValueType::HeapPointer)),
            RuntimeBuiltin::CreateEvaluateIterator => (SignatureShape::Single(ValueType::HeapPointer), SignatureShape::Single(ValueType::HeapPointer)),
            RuntimeBuiltin::CreateFilterIterator => (SignatureShape::Pair(ValueType::HeapPointer, ValueType::HeapPointer), SignatureShape::Single(ValueType::HeapPointer)),
            RuntimeBuiltin::CreateFlattenIterator => (SignatureShape::Single(ValueType::HeapPointer), SignatureShape::Single(ValueType::HeapPointer)),
            RuntimeBuiltin::CreateHashmapKeysIterator => (SignatureShape::Single(ValueType::HeapPointer), SignatureShape::Single(ValueType::HeapPointer)),
            RuntimeBuiltin::CreateHashmapValuesIterator => (SignatureShape::Single(ValueType::HeapPointer), SignatureShape::Single(ValueType::HeapPointer)),
            RuntimeBuiltin::CreateIndexedAccessorIterator => (SignatureShape::Pair(ValueType::HeapPointer, ValueType::U32), SignatureShape::Single(ValueType::HeapPointer)),
            RuntimeBuiltin::CreateIntegersIterator => (SignatureShape::Void, SignatureShape::Single(ValueType::HeapPointer)),
            RuntimeBuiltin::CreateIntersperseIterator => (SignatureShape::Pair(ValueType::HeapPointer, ValueType::HeapPointer), SignatureShape::Single(ValueType::HeapPointer)),
            RuntimeBuiltin::CreateMapIterator => (SignatureShape::Pair(ValueType::HeapPointer, ValueType::HeapPointer), SignatureShape::Single(ValueType::HeapPointer)),
            RuntimeBuiltin::CreateOnceIterator => (SignatureShape::Single(ValueType::HeapPointer), SignatureShape::Single(ValueType::HeapPointer)),
            RuntimeBuiltin::CreateRangeIterator => (SignatureShape::Pair(ValueType::I64, ValueType::U32), SignatureShape::Single(ValueType::HeapPointer)),
            RuntimeBuiltin::CreateRepeatIterator => (SignatureShape::Single(ValueType::HeapPointer), SignatureShape::Single(ValueType::HeapPointer)),
            RuntimeBuiltin::CreateSkipIterator => (SignatureShape::Pair(ValueType::HeapPointer, ValueType::U32), SignatureShape::Single(ValueType::HeapPointer)),
            RuntimeBuiltin::CreateTakeIterator => (SignatureShape::Pair(ValueType::HeapPointer, ValueType::U32), SignatureShape::Single(ValueType::HeapPointer)),
            RuntimeBuiltin::CreateZipIterator => (SignatureShape::Pair(ValueType::HeapPointer, ValueType::HeapPointer), SignatureShape::Single(ValueType::HeapPointer)),
            RuntimeBuiltin::GetBooleanValue => (SignatureShape::Single(ValueType::HeapPointer), SignatureShape::Single(ValueType::U32)),
            RuntimeBuiltin::GetListItem => (SignatureShape::Pair(ValueType::HeapPointer, ValueType::U32), SignatureShape::Single(ValueType::HeapPointer)),
            RuntimeBuiltin::GetListLength => (SignatureShape::Single(ValueType::HeapPointer), SignatureShape::Single(ValueType::U32)),
            RuntimeBuiltin::GetStateValue => (SignatureShape::Pair(ValueType::HeapPointer, ValueType::HeapPointer), SignatureShape::Pair(ValueType::HeapPointer, ValueType::HeapPointer)),
            RuntimeBuiltin::GetStringCharOffset => (SignatureShape::Pair(ValueType::HeapPointer, ValueType::U32), SignatureShape::Single(ValueType::U32)),
            RuntimeBuiltin::InitHashmap => (SignatureShape::Single(ValueType::HeapPointer), SignatureShape::Single(ValueType::HeapPointer)),
            RuntimeBuiltin::InitList => (SignatureShape::Pair(ValueType::HeapPointer, ValueType::U32), SignatureShape::Single(ValueType::HeapPointer)),
            RuntimeBuiltin::InitString => (SignatureShape::Single(ValueType::HeapPointer), SignatureShape::Single(ValueType::HeapPointer)),
            RuntimeBuiltin::InsertHashmapEntry => (SignatureShape::Triple(ValueType::HeapPointer, ValueType::HeapPointer, ValueType::HeapPointer), SignatureShape::Void),
            RuntimeBuiltin::SetCellField => (SignatureShape::Triple(ValueType::HeapPointer, ValueType::U32, ValueType::HeapPointer), SignatureShape::Void),
            RuntimeBuiltin::SetListItem => (SignatureShape::Triple(ValueType::HeapPointer, ValueType::U32, ValueType::HeapPointer), SignatureShape::Void),
        }
    }

    /// The name under which the runtime module exports this builtin.
    pub open spec fn spec_name(self) -> Seq<char> {
        match self {
            RuntimeBuiltin::Initialize => "_initialize"@,
            RuntimeBuiltin::Evaluate => "evaluate"@,
            RuntimeBuiltin::Apply => "apply"@,
            RuntimeBuiltin::CombineDependencies => "combineDependencies"@,
            RuntimeBuiltin::CombineSignals => "combineSignals"@,
            RuntimeBuiltin::IsSignal => "isSignal"@,
            RuntimeBuiltin::AllocateCell => "allocateCell"@,
            RuntimeBuiltin::AllocateHashmap => "allocateHashmap"@,
            RuntimeBuiltin::AllocateList => "allocateList"@,
            RuntimeBuiltin::AllocateString => "allocateString"@,
            RuntimeBuiltin::CreateApplication => "createApplication"@,
            RuntimeBuiltin::CreateBoolean => "createBoolean"@,
            RuntimeBuiltin::CreateBuiltin => "createBuiltin"@,
            RuntimeBuiltin::CreateCustomCondition => "createCustomCondition"@,
            RuntimeBuiltin::CreatePendingCondition => "createPendingCondition"@,
            RuntimeBuiltin::CreateErrorCondition => "createErrorCondition"@,
            RuntimeBuiltin::CreateTypeErrorCondition => "createTypeErrorCondition"@,
            RuntimeBuiltin::CreateInvalidFunctionTargetCondition => "createInvalidFunctionTargetCondition"@,
            RuntimeBuiltin::CreateInvalidFunctionArgsCondition => "createInvalidFunctionArgsCondition"@,
            RuntimeBuiltin::CreateInvalidPointerCondition => "createInvalidPointerCondition"@,
            RuntimeBuiltin::CreateConstructor => "createConstructor"@,
            RuntimeBuiltin::CreateEmptyList => "createEmptyList"@,
            RuntimeBuiltin::CreateEffect => "createEffect"@,
            RuntimeBuiltin::CreateFloat => "createFloat"@,
            RuntimeBuiltin::CreateHashset => "createHashset"@,
            RuntimeBuiltin::CreateInt => "createInt"@,
            RuntimeBuiltin::CreateLambda => "createLambda"@,
            RuntimeBuiltin::CreateLazyResult => "createLazyResult"@,
            RuntimeBuiltin::CreateNil => "createNil"@,
            RuntimeBuiltin::CreatePartial => "createPartial"@,
            RuntimeBuiltin::CreatePointer => "createPointer"@,
            RuntimeBuiltin::CreateRecord => "createRecord"@,
            RuntimeBuiltin::CreateTimestamp => "createTimestamp"@,
            RuntimeBuiltin::CreateSignal => "createSignal"@,
            RuntimeBuiltin::CreateSymbol => "createSymbol"@,
            RuntimeBuiltin::CreateTree => "createTree"@,
            RuntimeBuiltin::CreateEmptyIterator => "createEmptyIterator"@,
            RuntimeBuiltin::CreateEvaluateIterator => "createEvaluateIterator"@,
            RuntimeBuiltin::CreateFilterIterator => "createFilterIterator"@,
            RuntimeBuiltin::CreateFlattenIterator => "createFlattenIterator"@,
            RuntimeBuiltin::CreateHashmapKeysIterator => "createHashmapKeysIterator"@,
            RuntimeBuiltin::CreateHashmapValuesIterator => "createHashmapValuesIterator"@,
            RuntimeBuiltin::CreateIndexedAccessorIterator => "createIndexedAccessorIterator"@,
            RuntimeBuiltin::CreateIntegersIterator => "createIntegersIterator"@,
            RuntimeBuiltin::CreateIntersperseIterator => "createIntersperseIterator"@,
            RuntimeBuiltin::CreateMapIterator => "createMapIterator"@,
            RuntimeBuiltin::CreateOnceIterator => "createOnceIterator"@,
            RuntimeBuiltin::CreateRangeIterator => "createRangeIterator"@,
            RuntimeBuiltin::CreateRepeatIterator => "createRepeatIterator"@,
            RuntimeBuiltin::CreateSkipIterator => "createSkipIterator"@,
            RuntimeBuiltin::CreateTakeIterator => "createTakeIterator"@,
            RuntimeBuiltin::CreateZipIterator => "createZipIterator"@,
            RuntimeBuiltin::GetBooleanValue => "getBooleanValue"@,
            RuntimeBuiltin::GetListItem => "getListItem"@,
            RuntimeBuiltin::GetListLength => "getListLength"@,
            RuntimeBuiltin::GetStateValue => "getStateValue"@,
            RuntimeBuiltin::GetStringCharOffset => "getStringCharOffset"@,
            RuntimeBuiltin::InitHashmap => "initHashmap"@,
            RuntimeBuiltin::InitList => "initList"@,
            RuntimeBuiltin::InitString => "initString"@,
            RuntimeBuiltin::InsertHashmapEntry => "insertHashmapEntry"@,
            RuntimeBuiltin::SetCellField => "setCellField"@,
            RuntimeBuiltin::SetListItem => "setListItem"@,
        }
    }

    /// The type signature of this builtin.
    pub fn signature(self) -> (result: TypeSignature)
        ensures
            result.params@ == self.spec_signature().0,
            result.results@ == self.spec_signature().1,
    {
        match self {
            RuntimeBuiltin::Initialize => TypeSignature::new(ParamsSignature::Void, ParamsSignature::Void),
            RuntimeBuiltin::Evaluate => TypeSignature::new(ParamsSignature::Single(ValueType::HeapPointer), ParamsSignature::Single(ValueType::HeapPointer)),
            RuntimeBuiltin::Apply => TypeSignature::new(ParamsSignature::Pair(ValueType::HeapPointer, ValueType::HeapPointer), ParamsSignature::Single(ValueType::HeapPointer)),
            RuntimeBuiltin::CombineDependencies => TypeSignature::new(ParamsSignature::Pair(ValueType::HeapPointer, ValueType::HeapPointer), ParamsSignature::Single(ValueType::HeapPointer)),
            RuntimeBuiltin::CombineSignals => TypeSignature::new(ParamsSignature::Pair(ValueType::HeapPointer, ValueType::HeapPointer), ParamsSignature::Single(ValueType::HeapPointer)),
            RuntimeBuiltin::IsSignal => TypeSignature::new(ParamsSignature::Single(ValueType::HeapPointer), ParamsSignature::Single(ValueType::U32)),
            RuntimeBuiltin::AllocateCell => TypeSignature::new(ParamsSignature::Single(ValueType::U32), ParamsSignature::Single(ValueType::HeapPointer)),
            RuntimeBuiltin::AllocateHashmap => TypeSignature::new(ParamsSignature::Single(ValueType::U32), ParamsSignature::Single(ValueType::HeapPointer)),
            RuntimeBuiltin::AllocateList => TypeSignature::new(ParamsSignature::Single(ValueType::U32), ParamsSignature::Single(ValueType::HeapPointer)),
            RuntimeBuiltin::AllocateString => TypeSignature::new(ParamsSignature::Single(ValueType::U32), ParamsSignature::Single(ValueType::HeapPointer)),
            RuntimeBuiltin::CreateApplication => TypeSignature::new(ParamsSignature::Pair(ValueType::HeapPointer, ValueType::HeapPointer), ParamsSignature::Single(ValueType::HeapPointer)),
            RuntimeBuiltin::CreateBoolean => TypeSignature::new(ParamsSignature::Single(ValueType::U32), ParamsSignature::Single(ValueType::HeapPointer)),
            RuntimeBuiltin::CreateBuiltin => TypeSignature::new(ParamsSignature::Single(ValueType::FunctionPointer), ParamsSignature::Single(ValueType::HeapPointer)),
            RuntimeBuiltin::CreateCustomCondition => TypeSignature::new(ParamsSignature::Triple(ValueType::HeapPointer, ValueType::HeapPointer, ValueType::HeapPointer), ParamsSignature::Single(ValueType::HeapPointer)),
            RuntimeBuiltin::CreatePendingCondition => TypeSignature::new(ParamsSignature::Void, ParamsSignature::Single(ValueType::HeapPointer)),
            RuntimeBuiltin::CreateErrorCondition => TypeSignature::new(ParamsSignature::Single(ValueType::HeapPointer), ParamsSignature::Single(ValueType::HeapPointer)),
            RuntimeBuiltin::CreateTypeErrorCondition => TypeSignature::new(ParamsSignature::Pair(ValueType::U32, ValueType::HeapPointer), ParamsSignature::Single(ValueType::HeapPointer)),
            RuntimeBuiltin::CreateInvalidFunctionTargetCondition => TypeSignature::new(ParamsSignature::Single(ValueType::HeapPointer), ParamsSignature::Single(ValueType::HeapPointer)),
            RuntimeBuiltin::CreateInvalidFunctionArgsCondition => TypeSignature::new(ParamsSignature::Pair(ValueType::HeapPointer, ValueType::HeapPointer), ParamsSignature::Single(ValueType::HeapPointer)),
            RuntimeBuiltin::CreateInvalidPointerCondition => TypeSignature::new(ParamsSignature::Void, ParamsSignature::Single(ValueType::HeapPointer)),
            RuntimeBuiltin::CreateConstructor => TypeSignature::new(ParamsSignature::Single(ValueType::HeapPointer), ParamsSignature::Single(ValueType::HeapPointer)),
            RuntimeBuiltin::CreateEmptyList => TypeSignature::new(ParamsSignature::Void, ParamsSignature::Single(ValueType::HeapPointer)),
            RuntimeBuiltin::CreateEffect => TypeSignature::new(ParamsSignature::Single(ValueType::HeapPointer), ParamsSignature::Single(ValueType::HeapPointer)),
            RuntimeBuiltin::CreateFloat => TypeSignature::new(ParamsSignature::Single(ValueType::F64), ParamsSignature::Single(ValueType::HeapPointer)),
            RuntimeBuiltin::CreateHashset => TypeSignature::new(ParamsSignature::Single(ValueType::HeapPointer), ParamsSignature::Single(ValueType::HeapPointer)),
            RuntimeBuiltin::CreateInt => TypeSignature::new(ParamsSignature::Single(ValueType::F64), ParamsSignature::Single(ValueType::HeapPointer)),
            RuntimeBuiltin::CreateLambda => TypeSignature::new(ParamsSignature::Pair(ValueType::U32, ValueType::HeapPointer), ParamsSignature::Single(ValueType::HeapPointer)),
            RuntimeBuiltin::CreateLazyResult => TypeSignature::new(ParamsSignature::Pair(ValueType::HeapPointer, ValueType::HeapPointer), ParamsSignature::Single(ValueType::HeapPointer)),
            RuntimeBuiltin::CreateNil => TypeSignature::new(ParamsSignature::Void, ParamsSignature::Single(ValueType::HeapPointer)),
            RuntimeBuiltin::CreatePartial => TypeSignature::new(ParamsSignature::Pair(ValueType::HeapPointer, ValueType::HeapPointer), ParamsSignature::Single(ValueType::HeapPointer)),
            RuntimeBuiltin::CreatePointer => TypeSignature::new(ParamsSignature::Single(ValueType::U32), ParamsSignature::Single(ValueType::HeapPointer)),
            RuntimeBuiltin::CreateRecord => TypeSignature::new(ParamsSignature::Pair(ValueType::HeapPointer, ValueType::HeapPointer), ParamsSignature::Single(ValueType::HeapPointer)),
            RuntimeBuiltin::CreateTimestamp => TypeSignature::new(ParamsSignature::Single(ValueType::I64), ParamsSignature::Single(ValueType::HeapPointer)),
            RuntimeBuiltin::CreateSignal => TypeSignature::new(ParamsSignature::Single(ValueType::HeapPointer), ParamsSignature::Single(ValueType::HeapPointer)),
            RuntimeBuiltin::CreateSymbol => TypeSignature::new(ParamsSignature::Single(ValueType::I64), ParamsSignature::Single(ValueType::HeapPointer)),
            RuntimeBuiltin::CreateTree => TypeSignature::new(ParamsSignature::Pair(ValueType::HeapPointer, ValueType::HeapPointer), ParamsSignature::Single(ValueType::HeapPointer)),
            RuntimeBuiltin::CreateEmptyIterator => TypeSignature::new(ParamsSignature::Void, ParamsSignature::Single(ValueType::HeapPointer)),
            RuntimeBuiltin::CreateEvaluateIterator => TypeSignature::new(ParamsSignature::Single(ValueType::HeapPointer), ParamsSignature::Single(ValueType::HeapPointer)),
            RuntimeBuiltin::CreateFilterIterator => TypeSignature::new(ParamsSignature::Pair(ValueType::HeapPointer, ValueType::HeapPointer), ParamsSignature::Single(ValueType::HeapPointer)),
            RuntimeBuiltin::CreateFlattenIterator => TypeSignature::new(ParamsSignature::Single(ValueType::HeapPointer), ParamsSignature::Single(ValueType::HeapPointer)),
            RuntimeBuiltin::CreateHashmapKeysIterator => TypeSignature::new(ParamsSignature::Single(ValueType::HeapPointer), ParamsSignature::Single(ValueType::HeapPointer)),
            RuntimeBuiltin::CreateHashmapValuesIterator => TypeSignature::new(ParamsSignature::Single(ValueType::HeapPointer), ParamsSignature::Single(ValueType::HeapPointer)),
            RuntimeBuiltin::CreateIndexedAccessorIterator => TypeSignature::new(ParamsSignature::Pair(ValueType::HeapPointer, ValueType::U32), ParamsSignature::Single(ValueType::HeapPointer)),
            RuntimeBuiltin::CreateIntegersIterator => TypeSignature::new(ParamsSignature::Void, ParamsSignature::Single(ValueType::HeapPointer)),
            RuntimeBuiltin::CreateIntersperseIterator => TypeSignature::new(ParamsSignature::Pair(ValueType::HeapPointer, ValueType::HeapPointer), ParamsSignature::Single(ValueType::HeapPointer)),
            RuntimeBuiltin::CreateMapIterator => TypeSignature::new(ParamsSignature::Pair(ValueType::HeapPointer, ValueType::HeapPointer), ParamsSignature::Single(ValueType::HeapPointer)),
            RuntimeBuiltin::CreateOnceIterator => TypeSignature::new(ParamsSignature::Single(ValueType::HeapPointer), ParamsSignature::Single(ValueType::HeapPointer)),
            RuntimeBuiltin::CreateRangeIterator => TypeSignature::new(ParamsSignature::Pair(ValueType::I64, ValueType::U32), ParamsSignature::Single(ValueType::HeapPointer)),
            RuntimeBuiltin::CreateRepeatIterator => TypeSignature::new(ParamsSignature::Single(ValueType::HeapPointer), ParamsSignature::Single(ValueType::HeapPointer)),
            RuntimeBuiltin::CreateSkipIterator => TypeSignature::new(ParamsSignature::Pair(ValueType::HeapPointer, ValueType::U32), ParamsSignature::Single(ValueType::HeapPointer)),
            RuntimeBuiltin::CreateTakeIterator => TypeSignature::new(ParamsSignature::Pair(ValueType::HeapPointer, ValueType::U32), ParamsSignature::Single(ValueType::HeapPointer)),
            RuntimeBuiltin::CreateZipIterator => TypeSignature::new(ParamsSignature::Pair(ValueType::HeapPointer, ValueType::HeapPointer), ParamsSignature::Single(ValueType::HeapPointer)),
            RuntimeBuiltin::GetBooleanValue => TypeSignature::new(ParamsSignature::Single(ValueType::HeapPointer), ParamsSignature::Single(ValueType::U32)),
            RuntimeBuiltin::GetListItem => TypeSignature::new(ParamsSignature::Pair(ValueType::HeapPointer, ValueType::U32), ParamsSignature::Single(ValueType::HeapPointer)),
            RuntimeBuiltin::GetListLength => TypeSignature::new(ParamsSignature::Single(ValueType::HeapPointer), ParamsSignature::Single(ValueType::U32)),
            RuntimeBuiltin::GetStateValue => TypeSignature::new(ParamsSignature::Pair(ValueType::HeapPointer, ValueType::HeapPointer), ParamsSignature::Pair(ValueType::HeapPointer, ValueType::HeapPointer)),
            RuntimeBuiltin::GetStringCharOffset => TypeSignature::new(ParamsSignature::Pair(ValueType::HeapPointer, ValueType::U32), ParamsSignature::Single(ValueType::U32)),
            RuntimeBuiltin::InitHashmap => TypeSignature::new(ParamsSignature::Single(ValueType::HeapPointer), ParamsSignature::Single(ValueType::HeapPointer)),
            RuntimeBuiltin::InitList => TypeSignature::new(ParamsSignature::Pair(ValueType::HeapPointer, ValueType::U32), ParamsSignature::Single(ValueType::HeapPointer)),
            RuntimeBuiltin::InitString => TypeSignature::new(ParamsSignature::Single(ValueType::HeapPointer), ParamsSignature::Single(ValueType::HeapPointer)),
            RuntimeBuiltin::InsertHashmapEntry => TypeSignature::new(ParamsSignature::Triple(ValueType::HeapPointer, ValueType::HeapPointer, ValueType::HeapPointer), ParamsSignature::Void),
            RuntimeBuiltin::SetCellField => TypeSignature::new(ParamsSignature::Triple(ValueType::HeapPointer, ValueType::U32, ValueType::HeapPointer), ParamsSignature::Void),
            RuntimeBuiltin::SetListItem => TypeSignature::new(ParamsSignature::Triple(ValueType::HeapPointer, ValueType::U32, ValueType::HeapPointer), ParamsSignature::Void),
        }
    }

    /// The name under which the runtime module exports this builtin.
    pub fn name(self) -> (result: &'static str)
        ensures
            result@ == self.spec_name(),
    {
        match self {
            RuntimeBuiltin::Initialize => "_initialize",
            RuntimeBuiltin::Evaluate => "evaluate",
            RuntimeBuiltin::Apply => "apply",
            RuntimeBuiltin::CombineDependencies => "combineDependencies",
            RuntimeBuiltin::CombineSignals => "combineSignals",
            RuntimeBuiltin::IsSignal => "isSignal",
            RuntimeBuiltin::AllocateCell => "allocateCell",
            RuntimeBuiltin::AllocateHashmap => "allocateHashmap",
            RuntimeBuiltin::AllocateList => "allocateList",
            RuntimeBuiltin::AllocateString => "allocateString",
            RuntimeBuiltin::CreateApplication => "createApplication",
            RuntimeBuiltin::CreateBoolean => "createBoolean",
            RuntimeBuiltin::CreateBuiltin => "createBuiltin",
            RuntimeBuiltin::CreateCustomCondition => "createCustomCondition",
            RuntimeBuiltin::CreatePendingCondition => "createPendingCondition",
            RuntimeBuiltin::CreateErrorCondition => "createErrorCondition",
            RuntimeBuiltin::CreateTypeErrorCondition => "createTypeErrorCondition",
            RuntimeBuiltin::CreateInvalidFunctionTargetCondition => "createInvalidFunctionTargetCondition",
            RuntimeBuiltin::CreateInvalidFunctionArgsCondition => "createInvalidFunctionArgsCondition",
            RuntimeBuiltin::CreateInvalidPointerCondition => "createInvalidPointerCondition",
            RuntimeBuiltin::CreateConstructor => "createConstructor",
            RuntimeBuiltin::CreateEmptyList => "createEmptyList",
            RuntimeBuiltin::CreateEffect => "createEffect",
            RuntimeBuiltin::CreateFloat => "createFloat",
            RuntimeBuiltin::CreateHashset => "createHashset",
            RuntimeBuiltin::CreateInt => "createInt",
            RuntimeBuiltin::CreateLambda => "createLambda",
            RuntimeBuiltin::CreateLazyResult => "createLazyResult",
            RuntimeBuiltin::CreateNil => "createNil",
            RuntimeBuiltin::CreatePartial => "createPartial",
            RuntimeBuiltin::CreatePointer => "createPointer",
            RuntimeBuiltin::CreateRecord => "createRecord",
            RuntimeBuiltin::CreateTimestamp => "createTimestamp",
            RuntimeBuiltin::CreateSignal => "createSignal",
            RuntimeBuiltin::CreateSymbol => "createSymbol",
            RuntimeBuiltin::CreateTree => "createTree",
            RuntimeBuiltin::CreateEmptyIterator => "createEmptyIterator",
            RuntimeBuiltin::CreateEvaluateIterator => "createEvaluateIterator",
            RuntimeBuiltin::CreateFilterIterator => "createFilterIterator",
            RuntimeBuiltin::CreateFlattenIterator => "createFlattenIterator",
            RuntimeBuiltin::CreateHashmapKeysIterator => "createHashmapKeysIterator",
            RuntimeBuiltin::CreateHashmapValuesIterator => "createHashmapValuesIterator",
            RuntimeBuiltin::CreateIndexedAccessorIterator => "createIndexedAccessorIterator",
            RuntimeBuiltin::CreateIntegersIterator => "createIntegersIterator",
            RuntimeBuiltin::CreateIntersperseIterator => "createIntersperseIterator",
            RuntimeBuiltin::CreateMapIterator => "createMapIterator",
            RuntimeBuiltin::CreateOnceIterator => "createOnceIterator",
            RuntimeBuiltin::CreateRangeIterator => "createRangeIterator",
            RuntimeBuiltin::CreateRepeatIterator => "createRepeatIterator",
            RuntimeBuiltin::CreateSkipIterator => "createSkipIterator",
            RuntimeBuiltin::CreateTakeIterator => "createTakeIterator",
            RuntimeBuiltin::CreateZipIterator => "createZipIterator",
            RuntimeBuiltin::GetBooleanValue => "getBooleanValue",
            RuntimeBuiltin::GetListItem => "getListItem",
            RuntimeBuiltin::GetListLength => "getListLength",
            RuntimeBuiltin::GetStateValue => "getStateValue",
            RuntimeBuiltin::GetStringCharOffset => "getStringCharOffset",
            RuntimeBuiltin::InitHashmap => "initHashmap",
            RuntimeBuiltin::InitList => "initList",
            RuntimeBuiltin::InitString => "initString",
            RuntimeBuiltin::InsertHashmapEntry => "insertHashmapEntry",
            RuntimeBuiltin::SetCellField => "setCellField",
            RuntimeBuiltin::SetListItem => "setListItem",
        }
    }
}

/// How many runtime builtins there are.
pub const RUNTIME_BUILTIN_COUNT: usize = 63;

impl RuntimeBuiltin {
    /// The position of this builtin in declaration order.
    pub open spec fn position(self) -> int {
        match self {
            RuntimeBuiltin::Initialize => 0,
            RuntimeBuiltin::Evaluate => 1,
            RuntimeBuiltin::Apply => 2,
            RuntimeBuiltin::CombineDependencies => 3,
            RuntimeBuiltin::CombineSignals => 4,
            RuntimeBuiltin::IsSignal => 5,
            RuntimeBuiltin::AllocateCell => 6,
            RuntimeBuiltin::AllocateHashmap => 7,
            RuntimeBuiltin::AllocateList => 8,
            RuntimeBuiltin::AllocateString => 9,
            RuntimeBuiltin::CreateApplication => 10,
            RuntimeBuiltin::CreateBoolean => 11,
            RuntimeBuiltin::CreateBuiltin => 12,
            RuntimeBuiltin::CreateCustomCondition => 13,
            RuntimeBuiltin::CreatePendingCondition => 14,
            RuntimeBuiltin::CreateErrorCondition => 15,
            RuntimeBuiltin::CreateTypeErrorCondition => 16,
            RuntimeBuiltin::CreateInvalidFunctionTargetCondition => 17,
            RuntimeBuiltin::CreateInvalidFunctionArgsCondition => 18,
            RuntimeBuiltin::CreateInvalidPointerCondition => 19,
            RuntimeBuiltin::CreateConstructor => 20,
            RuntimeBuiltin::CreateEmptyList => 21,
            RuntimeBuiltin::CreateEffect => 22,
            RuntimeBuiltin::CreateFloat => 23,
            RuntimeBuiltin::CreateHashset => 24,
            RuntimeBuiltin::CreateInt => 25,
            RuntimeBuiltin::CreateLambda => 26,
            RuntimeBuiltin::CreateLazyResult => 27,
            RuntimeBuiltin::CreateNil => 28,
            RuntimeBuiltin::CreatePartial => 29,
            RuntimeBuiltin::CreatePointer => 30,
            RuntimeBuiltin::CreateRecord => 31,
            RuntimeBuiltin::CreateTimestamp => 32,
            RuntimeBuiltin::CreateSignal => 33,
            RuntimeBuiltin::CreateSymbol => 34,
            RuntimeBuiltin::CreateTree => 35,
            RuntimeBuiltin::CreateEmptyIterator => 36,
            RuntimeBuiltin::CreateEvaluateIterator => 37,
            RuntimeBuiltin::CreateFilterIterator => 38,
            RuntimeBuiltin::CreateFlattenIterator => 39,
            RuntimeBuiltin::CreateHashmapKeysIterator => 40,
            RuntimeBuiltin::CreateHashmapValuesIterator => 41,
            RuntimeBuiltin::CreateIndexedAccessorIterator => 42,
            RuntimeBuiltin::CreateIntegersIterator => 43,
            RuntimeBuiltin::CreateIntersperseIterator => 44,
            RuntimeBuiltin::CreateMapIterator => 45,
            RuntimeBuiltin::CreateOnceIterator => 46,
            RuntimeBuiltin::CreateRangeIterator => 47,
            RuntimeBuiltin::CreateRepeatIterator => 48,
            RuntimeBuiltin::CreateSkipIterator => 49,
            RuntimeBuiltin::CreateTakeIterator => 50,
            RuntimeBuiltin::CreateZipIterator => 51,
            RuntimeBuiltin::GetBooleanValue => 52,
            RuntimeBuiltin::GetListItem => 53,
            RuntimeBuiltin::GetListLength => 54,
            RuntimeBuiltin::GetStateValue => 55,
            RuntimeBuiltin::GetStringCharOffset => 56,
            RuntimeBuiltin::InitHashmap => 57,
            RuntimeBuiltin::InitList => 58,
            RuntimeBuiltin::InitString => 59,
            RuntimeBuiltin::InsertHashmapEntry => 60,
            RuntimeBuiltin::SetCellField => 61,
            RuntimeBuiltin::SetListItem => 62,
        }
    }

    /// The builtin at `position` in declaration order.
    pub fn from_position(position: usize) -> (result: RuntimeBuiltin)
        requires
            position < RUNTIME_BUILTIN_COUNT,
        ensures
            result.position() == position,
    {
        match position {
            0 => RuntimeBuiltin::Initialize,
            1 => RuntimeBuiltin::Evaluate,
            2 => RuntimeBuiltin::Apply,
            3 => RuntimeBuiltin::CombineDependencies,
            4 => RuntimeBuiltin::CombineSignals,
            5 => RuntimeBuiltin::IsSignal,
            6 => RuntimeBuiltin::AllocateCell,
            7 => RuntimeBuiltin::AllocateHashmap,
            8 => RuntimeBuiltin::AllocateList,
            9 => RuntimeBuiltin::AllocateString,
            10 => RuntimeBuiltin::CreateApplication,
            11 => RuntimeBuiltin::CreateBoolean,
            12 => RuntimeBuiltin::CreateBuiltin,
            13 => RuntimeBuiltin::CreateCustomCondition,
            14 => RuntimeBuiltin::CreatePendingCondition,
            15 => RuntimeBuiltin::CreateErrorCondition,
            16 => RuntimeBuiltin::CreateTypeErrorCondition,
            17 => RuntimeBuiltin::CreateInvalidFunctionTargetCondition,
            18 => RuntimeBuiltin::CreateInvalidFunctionArgsCondition,
            19 => RuntimeBuiltin::CreateInvalidPointerCondition,
            20 => RuntimeBuiltin::CreateConstructor,
            21 => RuntimeBuiltin::CreateEmptyList,
            22 => RuntimeBuiltin::CreateEffect,
            23 => RuntimeBuiltin::CreateFloat,
            24 => RuntimeBuiltin::CreateHashset,
            25 => RuntimeBuiltin::CreateInt,
            26 => RuntimeBuiltin::CreateLambda,
            27 => RuntimeBuiltin::CreateLazyResult,
            28 => RuntimeBuiltin::CreateNil,
            29 => RuntimeBuiltin::CreatePartial,
            30 => RuntimeBuiltin::CreatePointer,
            31 => RuntimeBuiltin::CreateRecord,
            32 => RuntimeBuiltin::CreateTimestamp,
            33 => RuntimeBuiltin::CreateSignal,
            34 => RuntimeBuiltin::CreateSymbol,
            35 => RuntimeBuiltin::CreateTree,
            36 => RuntimeBuiltin::CreateEmptyIterator,
            37 => RuntimeBuiltin::CreateEvaluateIterator,
            38 => RuntimeBuiltin::CreateFilterIterator,
            39 => RuntimeBuiltin::CreateFlattenIterator,
            40 => RuntimeBuiltin::CreateHashmapKeysIterator,
            41 => RuntimeBuiltin::CreateHashmapValuesIterator,
            42 => RuntimeBuiltin::CreateIndexedAccessorIterator,
            43 => RuntimeBuiltin::CreateIntegersIterator,
            44 => RuntimeBuiltin::CreateIntersperseIterator,
            45 => RuntimeBuiltin::CreateMapIterator,
            46 => RuntimeBuiltin::CreateOnceIterator,
            47 => RuntimeBuiltin::CreateRangeIterator,
            48 => RuntimeBuiltin::CreateRepeatIterator,
            49 => RuntimeBuiltin::CreateSkipIterator,
            50 => RuntimeBuiltin::CreateTakeIterator,
            51 => RuntimeBuiltin::CreateZipIterator,
            52 => RuntimeBuiltin::GetBooleanValue,
            53 => RuntimeBuiltin::GetListItem,
            54 => RuntimeBuiltin::GetListLength,
            55 => RuntimeBuiltin::GetStateValue,
            56 => RuntimeBuiltin::GetStringCharOffset,
            57 => RuntimeBuiltin::InitHashmap,
            58 => RuntimeBuiltin::InitList,
            59 => RuntimeBuiltin::InitString,
            60 => RuntimeBuiltin::InsertHashmapEntry,
            61 => RuntimeBuiltin::SetCellField,
            _ => RuntimeBuiltin::SetListItem,
        }
    }
}

/// Distinct builtins sit at distinct positions, all below the number of builtins.
pub proof fn law_builtin_positions(a: RuntimeBuiltin, b: RuntimeBuiltin)
    ensures
        0 <= a.position() < RUNTIME_BUILTIN_COUNT,
        a.position() == b.position() ==> a == b,
{
}

/// How many runtime builtins the runtime is required to export: all but `CreateLazyResult`.
pub const REQUIRED_BUILTIN_COUNT: usize = 62;

impl RuntimeBuiltin {
    /// Whether the runtime is required to export this builtin (all but `CreateLazyResult`,
    /// which is mapped where the runtime exports it).
    pub open spec fn is_required(self) -> bool {
        self != RuntimeBuiltin::CreateLazyResult
    }

    /// The place of this builtin in the order in which the runtime's exports are looked up
    /// (`CreateLazyResult`, which is not required, comes last).
    pub open spec fn lookup_rank(self) -> int {
        match self {
            RuntimeBuiltin::Initialize => 0,
            RuntimeBuiltin::Evaluate => 1,
            RuntimeBuiltin::Apply => 2,
            RuntimeBuiltin::CombineDependencies => 3,
            RuntimeBuiltin::CombineSignals => 4,
            RuntimeBuiltin::IsSignal => 5,
            RuntimeBuiltin::AllocateCell => 6,
            RuntimeBuiltin::AllocateHashmap => 7,
            RuntimeBuiltin::AllocateList => 8,
            RuntimeBuiltin::AllocateString => 9,
            RuntimeBuiltin::CreateApplication => 10,
            RuntimeBuiltin::CreateBoolean => 11,
            RuntimeBuiltin::CreateBuiltin => 12,
            RuntimeBuiltin::CreateCustomCondition => 13,
            RuntimeBuiltin::CreatePendingCondition => 14,
            RuntimeBuiltin::CreateErrorCondition => 15,
            RuntimeBuiltin::CreateTypeErrorCondition => 16,
            RuntimeBuiltin::CreateInvalidFunctionTargetCondition => 17,
            RuntimeBuiltin::CreateInvalidFunctionArgsCondition => 18,
            RuntimeBuiltin::CreateInvalidPointerCondition => 19,
            RuntimeBuiltin::CreateConstructor => 20,
            RuntimeBuiltin::CreateEmptyList => 21,
            RuntimeBuiltin::CreateEffect => 22,
            RuntimeBuiltin::CreateFloat => 23,
            RuntimeBuiltin::CreateHashset => 24,
            RuntimeBuiltin::CreateInt => 25,
            RuntimeBuiltin::CreateLambda => 26,
            RuntimeBuiltin::CreateNil => 27,
            RuntimeBuiltin::CreatePartial => 28,
            RuntimeBuiltin::CreatePointer => 29,
            RuntimeBuiltin::CreateRecord => 30,
            RuntimeBuiltin::CreateSignal => 31,
            RuntimeBuiltin::CreateSymbol => 32,
            RuntimeBuiltin::CreateTimestamp => 33,
            RuntimeBuiltin::CreateTree => 34,
            RuntimeBuiltin::CreateEmptyIterator => 35,
            RuntimeBuiltin::CreateEvaluateIterator => 36,
            RuntimeBuiltin::CreateFilterIterator => 37,
            RuntimeBuiltin::CreateFlattenIterator => 38,
            RuntimeBuiltin::CreateHashmapKeysIterator => 39,
            RuntimeBuiltin::CreateHashmapValuesIterator => 40,
            RuntimeBuiltin::CreateIndexedAccessorIterator => 41,
            RuntimeBuiltin::CreateIntegersIterator => 42,
            RuntimeBuiltin::CreateIntersperseIterator => 43,
            RuntimeBuiltin::CreateMapIterator => 44,
            RuntimeBuiltin::CreateOnceIterator => 45,
            RuntimeBuiltin::CreateRangeIterator => 46,
            RuntimeBuiltin::CreateRepeatIterator => 47,
            RuntimeBuiltin::CreateSkipIterator => 48,
            RuntimeBuiltin::CreateTakeIterator => 49,
            RuntimeBuiltin::CreateZipIterator => 50,
            RuntimeBuiltin::GetBooleanValue => 51,
            RuntimeBuiltin::GetListItem => 52,
            RuntimeBuiltin::GetListLength => 53,
            RuntimeBuiltin::GetStateValue => 54,
            RuntimeBuiltin::GetStringCharOffset => 55,
            RuntimeBuiltin::InitHashmap => 56,
            RuntimeBuiltin::InitList => 57,
            RuntimeBuiltin::InitString => 58,
            RuntimeBuiltin::InsertHashmapEntry => 59,
            RuntimeBuiltin::SetCellField => 60,
            RuntimeBuiltin::SetListItem => 61,
            RuntimeBuiltin::CreateLazyResult => 62,
        }
    }

    /// The required builtin at `rank` in lookup order.
    pub fn from_lookup_rank(rank: usize) -> (result: RuntimeBuiltin)
        requires
            rank < REQUIRED_BUILTIN_COUNT,
        ensures
            result.lookup_rank() == rank,
            result.is_required(),
    {
        match rank {
            0 => RuntimeBuiltin::Initialize,
            1 => RuntimeBuiltin::Evaluate,
            2 => RuntimeBuiltin::Apply,
            3 => RuntimeBuiltin::CombineDependencies,
            4 => RuntimeBuiltin::CombineSignals,
            5 => RuntimeBuiltin::IsSignal,
            6 => RuntimeBuiltin::AllocateCell,
            7 => RuntimeBuiltin::AllocateHashmap,
            8 => RuntimeBuiltin::AllocateList,
            9 => RuntimeBuiltin::AllocateString,
            10 => RuntimeBuiltin::CreateApplication,
            11 => RuntimeBuiltin::CreateBoolean,
            12 => RuntimeBuiltin::CreateBuiltin,
            13 => RuntimeBuiltin::CreateCustomCondition,
            14 => RuntimeBuiltin::CreatePendingCondition,
            15 => RuntimeBuiltin::CreateErrorCondition,
            16 => RuntimeBuiltin::CreateTypeErrorCondition,
            17 => RuntimeBuiltin::CreateInvalidFunctionTargetCondition,
            18 => RuntimeBuiltin::CreateInvalidFunctionArgsCondition,
            19 => RuntimeBuiltin::CreateInvalidPointerCondition,
            20 => RuntimeBuiltin::CreateConstructor,
            21 => RuntimeBuiltin::CreateEmptyList,
            22 => RuntimeBuiltin::CreateEffect,
            23 => RuntimeBuiltin::CreateFloat,
            24 => RuntimeBuiltin::CreateHashset,
            25 => RuntimeBuiltin::CreateInt,
            26 => RuntimeBuiltin::CreateLambda,
            27 => RuntimeBuiltin::CreateNil,
            28 => RuntimeBuiltin::CreatePartial,
            29 => RuntimeBuiltin::CreatePointer,
            30 => RuntimeBuiltin::CreateRecord,
            31 => RuntimeBuiltin::CreateSignal,
            32 => RuntimeBuiltin::CreateSymbol,
            33 => RuntimeBuiltin::CreateTimestamp,
            34 => RuntimeBuiltin::CreateTree,
            35 => RuntimeBuiltin::CreateEmptyIterator,
            36 => RuntimeBuiltin::CreateEvaluateIterator,
            37 => RuntimeBuiltin::CreateFilterIterator,
            38 => RuntimeBuiltin::CreateFlattenIterator,
            39 => RuntimeBuiltin::CreateHashmapKeysIterator,
            40 => RuntimeBuiltin::CreateHashmapValuesIterator,
            41 => RuntimeBuiltin::CreateIndexedAccessorIterator,
            42 => RuntimeBuiltin::CreateIntegersIterator,
            43 => RuntimeBuiltin::CreateIntersperseIterator,
            44 => RuntimeBuiltin::CreateMapIterator,
            45 => RuntimeBuiltin::CreateOnceIterator,
            46 => RuntimeBuiltin::CreateRangeIterator,
            47 => RuntimeBuiltin::CreateRepeatIterator,
            48 => RuntimeBuiltin::CreateSkipIterator,
            49 => RuntimeBuiltin::CreateTakeIterator,
            50 => RuntimeBuiltin::CreateZipIterator,
            51 => RuntimeBuiltin::GetBooleanValue,
            52 => RuntimeBuiltin::GetListItem,
            53 => RuntimeBuiltin::GetListLength,
            54 => RuntimeBuiltin::GetStateValue,
            55 => RuntimeBuiltin::GetStringCharOffset,
            56 => RuntimeBuiltin::InitHashmap,
            57 => RuntimeBuiltin::InitList,
            58 => RuntimeBuiltin::InitString,
            59 => RuntimeBuiltin::InsertHashmapEntry,
            60 => RuntimeBuiltin::SetCellField,
            _ => RuntimeBuiltin::SetListItem,
        }
    }
}

/// Distinct builtins have distinct lookup ranks; the required ones come first.
pub proof fn law_builtin_lookup_ranks(a: RuntimeBuiltin, b: RuntimeBuiltin)
    ensures
        0 <= a.lookup_rank() <= REQUIRED_BUILTIN_COUNT,
        a.is_required() <==> a.lookup_rank() < REQUIRED_BUILTIN_COUNT,
        a.lookup_rank() == b.lookup_rank() ==> a == b,
{
}

/// The builtin exported under `name`, if any (the first in declaration order; each test
/// compares the length first).
pub open spec fn builtin_named(name: Seq<char>) -> Option<RuntimeBuiltin> {
    if name.len() == 11 && name == "_initialize"@ {
        Some(RuntimeBuiltin::Initialize)
    } else if name.len() == 8 && name == "evaluate"@ {
        Some(RuntimeBuiltin::Evaluate)
    } else if name.len() == 5 && name == "apply"@ {
        Some(RuntimeBuiltin::Apply)
    } else if name.len() == 19 && name == "combineDependencies"@ {
        Some(RuntimeBuiltin::CombineDependencies)
    } else if name.len() == 14 && name == "combineSignals"@ {
        Some(RuntimeBuiltin::CombineSignals)
    } else if name.len() == 8 && name == "isSignal"@ {
        Some(RuntimeBuiltin::IsSignal)
    } else if name.len() == 12 && name == "allocateCell"@ {
        Some(RuntimeBuiltin::AllocateCell)
    } else if name.len() == 15 && name == "allocateHashmap"@ {
        Some(RuntimeBuiltin::AllocateHashmap)
    } else if name.len() == 12 && name == "allocateList"@ {
        Some(RuntimeBuiltin::AllocateList)
    } else if name.len() == 14 && name == "allocateString"@ {
        Some(RuntimeBuiltin::AllocateString)
    } else if name.len() == 17 && name == "createApplication"@ {
        Some(RuntimeBuiltin::CreateApplication)
    } else if name.len() == 13 && name == "createBoolean"@ {
        Some(RuntimeBuiltin::CreateBoolean)
    } else if name.len() == 13 && name == "createBuiltin"@ {
        Some(RuntimeBuiltin::CreateBuiltin)
    } else if name.len() == 21 && name == "createCustomCondition"@ {
        Some(RuntimeBuiltin::CreateCustomCondition)
    } else if name.len() == 22 && name == "createPendingCondition"@ {
        Some(RuntimeBuiltin::CreatePendingCondition)
    } else if name.len() == 20 && name == "createErrorCondition"@ {
        Some(RuntimeBuiltin::CreateErrorCondition)
    } else if name.len() == 24 && name == "createTypeErrorCondition"@ {
        Some(RuntimeBuiltin::CreateTypeErrorCondition)
    } else if name.len() == 36 && name == "createInvalidFunctionTargetCondition"@ {
        Some(RuntimeBuiltin::CreateInvalidFunctionTargetCondition)
    } else if name.len() == 34 && name == "createInvalidFunctionArgsCondition"@ {
        Some(RuntimeBuiltin::CreateInvalidFunctionArgsCondition)
    } else if name.len() == 29 && name == "createInvalidPointerCondition"@ {
        Some(RuntimeBuiltin::CreateInvalidPointerCondition)
    } else if name.len() == 17 && name == "createConstructor"@ {
        Some(RuntimeBuiltin::CreateConstructor)
    } else if name.len() == 15 && name == "createEmptyList"@ {
        Some(RuntimeBuiltin::CreateEmptyList)
    } else if name.len() == 12 && name == "createEffect"@ {
        Some(RuntimeBuiltin::CreateEffect)
    } else if name.len() == 11 && name == "createFloat"@ {
        Some(RuntimeBuiltin::CreateFloat)
    } else if name.len() == 13 && name == "createHashset"@ {
        Some(RuntimeBuiltin::CreateHashset)
    } else if name.len() == 9 && name == "createInt"@ {
        Some(RuntimeBuiltin::CreateInt)
    } else if name.len() == 12 && name == "createLambda"@ {
        Some(RuntimeBuiltin::CreateLambda)
    } else if name.len() == 16 && name == "createLazyResult"@ {
        Some(RuntimeBuiltin::CreateLazyResult)
    } else if name.len() == 9 && name == "createNil"@ {
        Some(RuntimeBuiltin::CreateNil)
    } else if name.len() == 13 && name == "createPartial"@ {
        Some(RuntimeBuiltin::CreatePartial)
    } else if name.len() == 13 && name == "createPointer"@ {
        Some(RuntimeBuiltin::CreatePointer)
    } else if name.len() == 12 && name == "createRecord"@ {
        Some(RuntimeBuiltin::CreateRecord)
    } else if name.len() == 15 && name == "createTimestamp"@ {
        Some(RuntimeBuiltin::CreateTimestamp)
    } else if name.len() == 12 && name == "createSignal"@ {
        Some(RuntimeBuiltin::CreateSignal)
    } else if name.len() == 12 && name == "createSymbol"@ {
        Some(RuntimeBuiltin::CreateSymbol)
    } else if name.len() == 10 && name == "createTree"@ {
        Some(RuntimeBuiltin::CreateTree)
    } else if name.len() == 19 && name == "createEmptyIterator"@ {
        Some(RuntimeBuiltin::CreateEmptyIterator)
    } else if name.len() == 22 && name == "createEvaluateIterator"@ {
        Some(RuntimeBuiltin::CreateEvaluateIterator)
    } else if name.len() == 20 && name == "createFilterIterator"@ {
        Some(RuntimeBuiltin::CreateFilterIterator)
    } else if name.len() == 21 && name == "createFlattenIterator"@ {
        Some(RuntimeBuiltin::CreateFlattenIterator)
    } else if name.len() == 25 && name == "createHashmapKeysIterator"@ {
        Some(RuntimeBuiltin::CreateHashmapKeysIterator)
    } else if name.len() == 27 && name == "createHashmapValuesIterator"@ {
        Some(RuntimeBuiltin::CreateHashmapValuesIterator)
    } else if name.len() == 29 && name == "createIndexedAccessorIterator"@ {
        Some(RuntimeBuiltin::CreateIndexedAccessorIterator)
    } else if name.len() == 22 && name == "createIntegersIterator"@ {
        Some(RuntimeBuiltin::CreateIntegersIterator)
    } else if name.len() == 25 && name == "createIntersperseIterator"@ {
        Some(RuntimeBuiltin::CreateIntersperseIterator)
    } else if name.len() == 17 && name == "createMapIterator"@ {
        Some(RuntimeBuiltin::CreateMapIterator)
    } else if name.len() == 18 && name == "createOnceIterator"@ {
        Some(RuntimeBuiltin::CreateOnceIterator)
    } else if name.len() == 19 && name == "createRangeIterator"@ {
        Some(RuntimeBuiltin::CreateRangeIterator)
    } else if name.len() == 20 && name == "createRepeatIterator"@ {
        Some(RuntimeBuiltin::CreateRepeatIterator)
    } else if name.len() == 18 && name == "createSkipIterator"@ {
        Some(RuntimeBuiltin::CreateSkipIterator)
    } else if name.len() == 18 && name == "createTakeIterator"@ {
        Some(RuntimeBuiltin::CreateTakeIterator)
    } else if name.len() == 17 && name == "createZipIterator"@ {
        Some(RuntimeBuiltin::CreateZipIterator)
    } else if name.len() == 15 && name == "getBooleanValue"@ {
        Some(RuntimeBuiltin::GetBooleanValue)
    } else if name.len() == 11 && name == "getListItem"@ {
        Some(RuntimeBuiltin::GetListItem)
    } else if name.len() == 13 && name == "getListLength"@ {
        Some(RuntimeBuiltin::GetListLength)
    } else if name.len() == 13 && name == "getStateValue"@ {
        Some(RuntimeBuiltin::GetStateValue)
    } else if name.len() == 19 && name == "getStringCharOffset"@ {
        Some(RuntimeBuiltin::GetStringCharOffset)
    } else if name.len() == 11 && name == "initHashmap"@ {
        Some(RuntimeBuiltin::InitHashmap)
    } else if name.len() == 8 && name == "initList"@ {
        Some(RuntimeBuiltin::InitList)
    } else if name.len() == 10 && name == "initString"@ {
        Some(RuntimeBuiltin::InitString)
    } else if name.len() == 18 && name == "insertHashmapEntry"@ {
        Some(RuntimeBuiltin::InsertHashmapEntry)
    } else if name.len() == 12 && name == "setCellField"@ {
        Some(RuntimeBuiltin::SetCellField)
    } else if name.len() == 11 && name == "setListItem"@ {
        Some(RuntimeBuiltin::SetListItem)
    } else {
        None
    }
}

/// Looking up a builtin's own name finds that builtin.
#[verifier::rlimit(100)]
pub proof fn law_builtin_named(builtin: RuntimeBuiltin)
    ensures
        builtin_named(builtin.spec_name()) == Some(builtin),
{
    match builtin {
        RuntimeBuiltin::Initialize => {
            reveal_strlit("_initialize");
        },
        RuntimeBuiltin::Evaluate => {
            reveal_strlit("evaluate");
        },
        RuntimeBuiltin::Apply => {
            reveal_strlit("apply");
        },
        RuntimeBuiltin::CombineDependencies => {
            reveal_strlit("combineDependencies");
        },
        RuntimeBuiltin::CombineSignals => {
            reveal_strlit("combineSignals");
        },
        RuntimeBuiltin::IsSignal => {
            reveal_strlit("isSignal");
            reveal_strlit("evaluate");
            assert("isSignal"@[0] != "evaluate"@[0]);
        },
        RuntimeBuiltin::AllocateCell => {
            reveal_strlit("allocateCell");
        },
        RuntimeBuiltin::AllocateHashmap => {
            reveal_strlit("allocateHashmap");
        },
        RuntimeBuiltin::AllocateList => {
            reveal_strlit("allocateList");
            reveal_strlit("allocateCell");
            assert("allocateList"@[8] != "allocateCell"@[8]);
        },
        RuntimeBuiltin::AllocateString => {
            reveal_strlit("allocateString");
            reveal_strlit("combineSignals");
            assert("allocateString"@[0] != "combineSignals"@[0]);
        },
        RuntimeBuiltin::CreateApplication => {
            reveal_strlit("createApplication");
        },
        RuntimeBuiltin::CreateBoolean => {
            reveal_strlit("createBoolean");
        },
        RuntimeBuiltin::CreateBuiltin => {
            reveal_strlit("createBuiltin");
            reveal_strlit("createBoolean");
            assert("createBuiltin"@[7] != "createBoolean"@[7]);
        },
        RuntimeBuiltin::CreateCustomCondition => {
            reveal_strlit("createCustomCondition");
        },
        RuntimeBuiltin::CreatePendingCondition => {
            reveal_strlit("createPendingCondition");
        },
        RuntimeBuiltin::CreateErrorCondition => {
            reveal_strlit("createErrorCondition");
        },
        RuntimeBuiltin::CreateTypeErrorCondition => {
            reveal_strlit("createTypeErrorCondition");
        },
        RuntimeBuiltin::CreateInvalidFunctionTargetCondition => {
            reveal_strlit("createInvalidFunctionTargetCondition");
        },
        RuntimeBuiltin::CreateInvalidFunctionArgsCondition => {
            reveal_strlit("createInvalidFunctionArgsCondition");
        },
        RuntimeBuiltin::CreateInvalidPointerCondition => {
            reveal_strlit("createInvalidPointerCondition");
        },
        RuntimeBuiltin::CreateConstructor => {
            reveal_strlit("createConstructor");
            reveal_strlit("createApplication");
            assert("createConstructor"@[6] != "createApplication"@[6]);
        },
        RuntimeBuiltin::CreateEmptyList => {
            reveal_strlit("createEmptyList");
            reveal_strlit("allocateHashmap");
            assert("createEmptyList"@[0] != "allocateHashmap"@[0]);
        },
        RuntimeBuiltin::CreateEffect => {
            reveal_strlit("createEffect");
            reveal_strlit("allocateCell");
            reveal_strlit("allocateList");
            assert("createEffect"@[0] != "allocateCell"@[0]);
            assert("createEffect"@[0] != "allocateList"@[0]);
        },
        RuntimeBuiltin::CreateFloat => {
            reveal_strlit("createFloat");
            reveal_strlit("_initialize");
            assert("createFloat"@[0] != "_initialize"@[0]);
        },
        RuntimeBuiltin::CreateHashset => {
            reveal_strlit("createHashset");
            reveal_strlit("createBoolean");
            reveal_strlit("createBuiltin");
            assert("createHashset"@[6] != "createBoolean"@[6]);
            assert("createHashset"@[6] != "createBuiltin"@[6]);
        },
        RuntimeBuiltin::CreateInt => {
            reveal_strlit("createInt");
        },
        RuntimeBuiltin::CreateLambda => {
            reveal_strlit("createLambda");
            reveal_strlit("allocateCell");
            reveal_strlit("allocateList");
            reveal_strlit("createEffect");
            assert("createLambda"@[0] != "allocateCell"@[0]);
            assert("createLambda"@[0] != "allocateList"@[0]);
            assert("createLambda"@[6] != "createEffect"@[6]);
        },
        RuntimeBuiltin::CreateLazyResult => {
            reveal_strlit("createLazyResult");
        },
        RuntimeBuiltin::CreateNil => {
            reveal_strlit("createNil");
            reveal_strlit("createInt");
            assert("createNil"@[6] != "createInt"@[6]);
        },
        RuntimeBuiltin::CreatePartial => {
            reveal_strlit("createPartial");
            reveal_strlit("createBoolean");
            reveal_strlit("createBuiltin");
            reveal_strlit("createHashset");
            assert("createPartial"@[6] != "createBoolean"@[6]);
            assert("createPartial"@[6] != "createBuiltin"@[6]);
            assert("createPartial"@[6] != "createHashset"@[6]);
        },
        RuntimeBuiltin::CreatePointer => {
            reveal_strlit("createPointer");
            reveal_strlit("createBoolean");
            reveal_strlit("createBuiltin");
            reveal_strlit("createHashset");
            reveal_strlit("createPartial");
            assert("createPointer"@[6] != "createBoolean"@[6]);
            assert("createPointer"@[6] != "createBuiltin"@[6]);
            assert("createPointer"@[6] != "createHashset"@[6]);
            assert("createPointer"@[7] != "createPartial"@[7]);
        },
        RuntimeBuiltin::CreateRecord => {
            reveal_strlit("createRecord");
            reveal_strlit("allocateCell");
            reveal_strlit("allocateList");
            reveal_strlit("createEffect");
            reveal_strlit("createLambda");
            assert("createRecord"@[0] != "allocateCell"@[0]);
            assert("createRecord"@[0] != "allocateList"@[0]);
            assert("createRecord"@[6] != "createEffect"@[6]);
            assert("createRecord"@[6] != "createLambda"@[6]);
        },
        RuntimeBuiltin::CreateTimestamp => {
            reveal_strlit("createTimestamp");
            reveal_strlit("allocateHashmap");
            reveal_strlit("createEmptyList");
            assert("createTimestamp"@[0] != "allocateHashmap"@[0]);
            assert("createTimestamp"@[6] != "createEmptyList"@[6]);
        },
        RuntimeBuiltin::CreateSignal => {
            reveal_strlit("createSignal");
            reveal_strlit("allocateCell");
            reveal_strlit("allocateList");
            reveal_strlit("createEffect");
            reveal_strlit("createLambda");
            reveal_strlit("createRecord");
            assert("createSignal"@[0] != "allocateCell"@[0]);
            assert("createSignal"@[0] != "allocateList"@[0]);
            assert("createSignal"@[6] != "createEffect"@[6]);
            assert("createSignal"@[6] != "createLambda"@[6]);
            assert("createSignal"@[6] != "createRecord"@[6]);
        },
        RuntimeBuiltin::CreateSymbol => {
            reveal_strlit("createSymbol");
            reveal_strlit("allocateCell");
            reveal_strlit("allocateList");
            reveal_strlit("createEffect");
            reveal_strlit("createLambda");
            reveal_strlit("createRecord");
            reveal_strlit("createSignal");
            assert("createSymbol"@[0] != "allocateCell"@[0]);
            assert("createSymbol"@[0] != "allocateList"@[0]);
            assert("createSymbol"@[6] != "createEffect"@[6]);
            assert("createSymbol"@[6] != "createLambda"@[6]);
            assert("createSymbol"@[6] != "createRecord"@[6]);
            assert("createSymbol"@[7] != "createSignal"@[7]);
        },
        RuntimeBuiltin::CreateTree => {
            reveal_strlit("createTree");
        },
        RuntimeBuiltin::CreateEmptyIterator => {
            reveal_strlit("createEmptyIterator");
            reveal_strlit("combineDependencies");
            assert("createEmptyIterator"@[1] != "combineDependencies"@[1]);
        },
        RuntimeBuiltin::CreateEvaluateIterator => {
            reveal_strlit("createEvaluateIterator");
            reveal_strlit("createPendingCondition");
            assert("createEvaluateIterator"@[6] != "createPendingCondition"@[6]);
        },
        RuntimeBuiltin::CreateFilterIterator => {
            reveal_strlit("createFilterIterator");
            reveal_strlit("createErrorCondition");
            assert("createFilterIterator"@[6] != "createErrorCondition"@[6]);
        },
        RuntimeBuiltin::CreateFlattenIterator => {
            reveal_strlit("createFlattenIterator");
            reveal_strlit("createCustomCondition");
            assert("createFlattenIterator"@[6] != "createCustomCondition"@[6]);
        },
        RuntimeBuiltin::CreateHashmapKeysIterator => {
            reveal_strlit("createHashmapKeysIterator");
        },
        RuntimeBuiltin::CreateHashmapValuesIterator => {
            reveal_strlit("createHashmapValuesIterator");
        },
        RuntimeBuiltin::CreateIndexedAccessorIterator => {
            reveal_strlit("createIndexedAccessorIterator");
            reveal_strlit("createInvalidPointerCondition");
            assert("createIndexedAccessorIterator"@[8] != "createInvalidPointerCondition"@[8]);
        },
        RuntimeBuiltin::CreateIntegersIterator => {
            reveal_strlit("createIntegersIterator");
            reveal_strlit("createPendingCondition");
            reveal_strlit("createEvaluateIterator");
            assert("createIntegersIterator"@[6] != "createPendingCondition"@[6]);
            assert("createIntegersIterator"@[6] != "createEvaluateIterator"@[6]);
        },
        RuntimeBuiltin::CreateIntersperseIterator => {
            reveal_strlit("createIntersperseIterator");
            reveal_strlit("createHashmapKeysIterator");
            assert("createIntersperseIterator"@[6] != "createHashmapKeysIterator"@[6]);
        },
        RuntimeBuiltin::CreateMapIterator => {
            reveal_strlit("createMapIterator");
            reveal_strlit("createApplication");
            reveal_strlit("createConstructor");
            assert("createMapIterator"@[6] != "createApplication"@[6]);
            assert("createMapIterator"@[6] != "createConstructor"@[6]);
        },
        RuntimeBuiltin::CreateOnceIterator => {
            reveal_strlit("createOnceIterator");
        },
        RuntimeBuiltin::CreateRangeIterator => {
            reveal_strlit("createRangeIterator");
            reveal_strlit("combineDependencies");
            reveal_strlit("createEmptyIterator");
            assert("createRangeIterator"@[1] != "combineDependencies"@[1]);
            assert("createRangeIterator"@[6] != "createEmptyIterator"@[6]);
        },
        RuntimeBuiltin::CreateRepeatIterator => {
            reveal_strlit("createRepeatIterator");
            reveal_strlit("createErrorCondition");
            reveal_strlit("createFilterIterator");
            assert("createRepeatIterator"@[6] != "createErrorCondition"@[6]);
            assert("createRepeatIterator"@[6] != "createFilterIterator"@[6]);
        },
        RuntimeBuiltin::CreateSkipIterator => {
            reveal_strlit("createSkipIterator");
            reveal_strlit("createOnceIterator");
            assert("createSkipIterator"@[6] != "createOnceIterator"@[6]);
        },
        RuntimeBuiltin::CreateTakeIterator => {
            reveal_strlit("createTakeIterator");
            reveal_strlit("createOnceIterator");
            reveal_strlit("createSkipIterator");
            assert("createTakeIterator"@[6] != "createOnceIterator"@[6]);
            assert("createTakeIterator"@[6] != "createSkipIterator"@[6]);
        },
        RuntimeBuiltin::CreateZipIterator => {
            reveal_strlit("createZipIterator");
            reveal_strlit("createApplication");
            reveal_strlit("createConstructor");
            reveal_strlit("createMapIterator");
            assert("createZipIterator"@[6] != "createApplication"@[6]);
            assert("createZipIterator"@[6] != "createConstructor"@[6]);
            assert("createZipIterator"@[6] != "createMapIterator"@[6]);
        },
        RuntimeBuiltin::GetBooleanValue => {
            reveal_strlit("getBooleanValue");
            reveal_strlit("allocateHashmap");
            reveal_strlit("createEmptyList");
            reveal_strlit("createTimestamp");
            assert("getBooleanValue"@[0] != "allocateHashmap"@[0]);
            assert("getBooleanValue"@[0] != "createEmptyList"@[0]);
            assert("getBooleanValue"@[0] != "createTimestamp"@[0]);
        },
        RuntimeBuiltin::GetListItem => {
            reveal_strlit("getListItem");
            reveal_strlit("_initialize");
            reveal_strlit("createFloat");
            assert("getListItem"@[0] != "_initialize"@[0]);
            assert("getListItem"@[0] != "createFloat"@[0]);
        },
        RuntimeBuiltin::GetListLength => {
            reveal_strlit("getListLength");
            reveal_strlit("createBoolean");
            reveal_strlit("createBuiltin");
            reveal_strlit("createHashset");
            reveal_strlit("createPartial");
            reveal_strlit("createPointer");
            assert("getListLength"@[0] != "createBoolean"@[0]);
            assert("getListLength"@[0] != "createBuiltin"@[0]);
            assert("getListLength"@[0] != "createHashset"@[0]);
            assert("getListLength"@[0] != "createPartial"@[0]);
            assert("getListLength"@[0] != "createPointer"@[0]);
        },
        RuntimeBuiltin::GetStateValue => {
            reveal_strlit("getStateValue");
            reveal_strlit("createBoolean");
            reveal_strlit("createBuiltin");
            reveal_strlit("createHashset");
            reveal_strlit("createPartial");
            reveal_strlit("createPointer");
            reveal_strlit("getListLength");
            assert("getStateValue"@[0] != "createBoolean"@[0]);
            assert("getStateValue"@[0] != "createBuiltin"@[0]);
            assert("getStateValue"@[0] != "createHashset"@[0]);
            assert("getStateValue"@[0] != "createPartial"@[0]);
            assert("getStateValue"@[0] != "createPointer"@[0]);
            assert("getStateValue"@[3] != "getListLength"@[3]);
        },
        RuntimeBuiltin::GetStringCharOffset => {
            reveal_strlit("getStringCharOffset");
            reveal_strlit("combineDependencies");
            reveal_strlit("createEmptyIterator");
            reveal_strlit("createRangeIterator");
            assert("getStringCharOffset"@[0] != "combineDependencies"@[0]);
            assert("getStringCharOffset"@[0] != "createEmptyIterator"@[0]);
            assert("getStringCharOffset"@[0] != "createRangeIterator"@[0]);
        },
        RuntimeBuiltin::InitHashmap => {
            reveal_strlit("initHashmap");
            reveal_strlit("_initialize");
            reveal_strlit("createFloat");
            reveal_strlit("getListItem");
            assert("initHashmap"@[0] != "_initialize"@[0]);
            assert("initHashmap"@[0] != "createFloat"@[0]);
            assert("initHashmap"@[0] != "getListItem"@[0]);
        },
        RuntimeBuiltin::InitList => {
            reveal_strlit("initList");
            reveal_strlit("evaluate");
            reveal_strlit("isSignal");
            assert("initList"@[0] != "evaluate"@[0]);
            assert("initList"@[1] != "isSignal"@[1]);
        },
        RuntimeBuiltin::InitString => {
            reveal_strlit("initString");
            reveal_strlit("createTree");
            assert("initString"@[0] != "createTree"@[0]);
        },
        RuntimeBuiltin::InsertHashmapEntry => {
            reveal_strlit("insertHashmapEntry");
            reveal_strlit("createOnceIterator");
            reveal_strlit("createSkipIterator");
            reveal_strlit("createTakeIterator");
            assert("insertHashmapEntry"@[0] != "createOnceIterator"@[0]);
            assert("insertHashmapEntry"@[0] != "createSkipIterator"@[0]);
            assert("insertHashmapEntry"@[0] != "createTakeIterator"@[0]);
        },
        RuntimeBuiltin::SetCellField => {
            reveal_strlit("setCellField");
            reveal_strlit("allocateCell");
            reveal_strlit("allocateList");
            reveal_strlit("createEffect");
            reveal_strlit("createLambda");
            reveal_strlit("createRecord");
            reveal_strlit("createSignal");
            reveal_strlit("createSymbol");
            assert("setCellField"@[0] != "allocateCell"@[0]);
            assert("setCellField"@[0] != "allocateList"@[0]);
            assert("setCellField"@[0] != "createEffect"@[0]);
            assert("setCellField"@[0] != "createLambda"@[0]);
            assert("setCellField"@[0] != "createRecord"@[0]);
            assert("setCellField"@[0] != "createSignal"@[0]);
            assert("setCellField"@[0] != "createSymbol"@[0]);
        },
        RuntimeBuiltin::SetListItem => {
            reveal_strlit("setListItem");
            reveal_strlit("_initialize");
            reveal_strlit("createFloat");
            reveal_strlit("getListItem");
            reveal_strlit("initHashmap");
            assert("setListItem"@[0] != "_initialize"@[0]);
            assert("setListItem"@[0] != "createFloat"@[0]);
            assert("setListItem"@[0] != "getListItem"@[0]);
            assert("setListItem"@[0] != "initHashmap"@[0]);
        },
    }
}

/// Distinct builtins are exported under distinct names, so looking a builtin up by its name is
/// unambiguous.
pub proof fn law_builtin_names_distinct(a: RuntimeBuiltin, b: RuntimeBuiltin)
    ensures
        a != b ==> a.spec_name() != b.spec_name(),
{
    law_builtin_named(a);
    law_builtin_named(b);
}

/// The call signature of every runtime builtin, grouped by signature: what each takes from the
/// operand stack (bottom to top) and what it leaves there. Lists take the list pointer before
/// the index or item count, and every constructor returns a single heap pointer.
pub proof fn law_builtin_signatures(builtin: RuntimeBuiltin)
    ensures
        (builtin == RuntimeBuiltin::Initialize) ==> builtin.spec_signature() == (SignatureShape::Void, SignatureShape::Void),
        (builtin == RuntimeBuiltin::Evaluate || builtin == RuntimeBuiltin::CreateErrorCondition || builtin == RuntimeBuiltin::CreateInvalidFunctionTargetCondition || builtin == RuntimeBuiltin::CreateConstructor || builtin == RuntimeBuiltin::CreateEffect || builtin == RuntimeBuiltin::CreateHashset || builtin == RuntimeBuiltin::CreateSignal || builtin == RuntimeBuiltin::CreateEvaluateIterator || builtin == RuntimeBuiltin::CreateFlattenIterator || builtin == RuntimeBuiltin::CreateHashmapKeysIterator || builtin == RuntimeBuiltin::CreateHashmapValuesIterator || builtin == RuntimeBuiltin::CreateOnceIterator || builtin == RuntimeBuiltin::CreateRepeatIterator || builtin == RuntimeBuiltin::InitHashmap || builtin == RuntimeBuiltin::InitString) ==> builtin.spec_signature() == (SignatureShape::Single(ValueType::HeapPointer), SignatureShape::Single(ValueType::HeapPointer)),
        (builtin == RuntimeBuiltin::Apply || builtin == RuntimeBuiltin::CombineDependencies || builtin == RuntimeBuiltin::CombineSignals || builtin == RuntimeBuiltin::CreateApplication || builtin == RuntimeBuiltin::CreateInvalidFunctionArgsCondition || builtin == RuntimeBuiltin::CreateLazyResult || builtin == RuntimeBuiltin::CreatePartial || builtin == RuntimeBuiltin::CreateRecord || builtin == RuntimeBuiltin::CreateTree || builtin == RuntimeBuiltin::CreateFilterIterator || builtin == RuntimeBuiltin::CreateIntersperseIterator || builtin == RuntimeBuiltin::CreateMapIterator || builtin == RuntimeBuiltin::CreateZipIterator) ==> builtin.spec_signature() == (SignatureShape::Pair(ValueType::HeapPointer, ValueType::HeapPointer), SignatureShape::Single(ValueType::HeapPointer)),
        (builtin == RuntimeBuiltin::IsSignal || builtin == RuntimeBuiltin::GetBooleanValue || builtin == RuntimeBuiltin::GetListLength) ==> builtin.spec_signature() == (SignatureShape::Single(ValueType::HeapPointer), SignatureShape::Single(ValueType::U32)),
        (builtin == RuntimeBuiltin::AllocateCell || builtin == RuntimeBuiltin::AllocateHashmap || builtin == RuntimeBuiltin::AllocateList || builtin == RuntimeBuiltin::AllocateString || builtin == RuntimeBuiltin::CreateBoolean || builtin == RuntimeBuiltin::CreatePointer) ==> builtin.spec_signature() == (SignatureShape::Single(ValueType::U32), SignatureShape::Single(ValueType::HeapPointer)),
        (builtin == RuntimeBuiltin::CreateBuiltin) ==> builtin.spec_signature() == (SignatureShape::Single(ValueType::FunctionPointer), SignatureShape::Single(ValueType::HeapPointer)),
        (builtin == RuntimeBuiltin::CreateCustomCondition) ==> builtin.spec_signature() == (SignatureShape::Triple(ValueType::HeapPointer, ValueType::HeapPointer, ValueType::HeapPointer), SignatureShape::Single(ValueType::HeapPointer)),
        (builtin == RuntimeBuiltin::CreatePendingCondition || builtin == RuntimeBuiltin::CreateInvalidPointerCondition || builtin == RuntimeBuiltin::CreateEmptyList || builtin == RuntimeBuiltin::CreateNil || builtin == RuntimeBuiltin::CreateEmptyIterator || builtin == RuntimeBuiltin::CreateIntegersIterator) ==> builtin.spec_signature() == (SignatureShape::Void, SignatureShape::Single(ValueType::HeapPointer)),
        (builtin == RuntimeBuiltin::CreateTypeErrorCondition || builtin == RuntimeBuiltin::CreateLambda) ==> builtin.spec_signature() == (SignatureShape::Pair(ValueType::U32, ValueType::HeapPointer), SignatureShape::Single(ValueType::HeapPointer)),
        (builtin == RuntimeBuiltin::CreateFloat || builtin == RuntimeBuiltin::CreateInt) ==> builtin.spec_signature() == (SignatureShape::Single(ValueType::F64), SignatureShape::Single(ValueType::HeapPointer)),
        (builtin == RuntimeBuiltin::CreateTimestamp || builtin == RuntimeBuiltin::CreateSymbol) ==> builtin.spec_signature() == (SignatureShape::Single(ValueType::I64), SignatureShape::Single(ValueType::HeapPointer)),
        (builtin == RuntimeBuiltin::CreateIndexedAccessorIterator || builtin == RuntimeBuiltin::CreateSkipIterator || builtin == RuntimeBuiltin::CreateTakeIterator || builtin == RuntimeBuiltin::GetListItem || builtin == RuntimeBuiltin::InitList) ==> builtin.spec_signature() == (SignatureShape::Pair(ValueType::HeapPointer, ValueType::U32), SignatureShape::Single(ValueType::HeapPointer)),
        (builtin == RuntimeBuiltin::CreateRangeIterator) ==> builtin.spec_signature() == (SignatureShape::Pair(ValueType::I64, ValueType::U32), SignatureShape::Single(ValueType::HeapPointer)),
        (builtin == RuntimeBuiltin::GetStateValue) ==> builtin.spec_signature() == (SignatureShape::Pair(ValueType::HeapPointer, ValueType::HeapPointer), SignatureShape::Pair(ValueType::HeapPointer, ValueType::HeapPointer)),
        (builtin == RuntimeBuiltin::GetStringCharOffset) ==> builtin.spec_signature() == (SignatureShape::Pair(ValueType::HeapPointer, ValueType::U32), SignatureShape::Single(ValueType::U32)),
        (builtin == RuntimeBuiltin::InsertHashmapEntry) ==> builtin.spec_signature() == (SignatureShape::Triple(ValueType::HeapPointer, ValueType::HeapPointer, ValueType::HeapPointer), SignatureShape::Void),
        (builtin == RuntimeBuiltin::SetCellField || builtin == RuntimeBuiltin::SetListItem) ==> builtin.spec_signature() == (SignatureShape::Triple(ValueType::HeapPointer, ValueType::U32, ValueType::HeapPointer), SignatureShape::Void),
{
}

} // verus!
