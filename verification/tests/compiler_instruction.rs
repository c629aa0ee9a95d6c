use reflex_wasm::compiler::builder::CompiledBlockBuilder;
use reflex_wasm::compiler::error::TypedStackError;
use reflex_wasm::compiler::instruction::generic::{
    Block, Break, ConditionalBreak, Const, Drop, Duplicate, GetScopeValue, If, Ne, ReadHeapValue,
    ScopeEnd, ScopeStart, Select, WriteHeapValue,
};
use reflex_wasm::compiler::instruction::runtime::{
    Apply, BreakOnSignal, CallCompiledFunction, CallDynamic, CallRuntimeBuiltin, CallStdlib,
    CollectSignals, DeclareVariable, Evaluate, LoadStateValue, NullPointer,
};
use reflex_wasm::compiler::instruction::{CompiledBlock, CompiledInstruction};
use reflex_wasm::compiler::runtime::builtin::RuntimeBuiltin;
use reflex_wasm::compiler::signature::{ParamsSignature, TypeSignature, ValueType};
use reflex_wasm::compiler::stack::CompilerStack;
use reflex_wasm::compiler::{CompiledFunctionId, ConstValue, FunctionPointer, Stdlib};
use reflex_wasm::pointer::ArenaPointer;

fn block(instructions: Vec<CompiledInstruction>) -> CompiledBlock {
    CompiledBlock { instructions }
}

fn i32_const(value: i32) -> CompiledInstruction {
    CompiledInstruction::Const(Const { value: ConstValue::I32(value) })
}

#[test]
fn constants_have_the_type_of_their_value() {
    assert_eq!(ConstValue::I32(1).get_type(), ValueType::I32);
    assert_eq!(ConstValue::F64(0).get_type(), ValueType::F64);
    assert_eq!(ConstValue::HeapPointer(ArenaPointer::null()).get_type(), ValueType::HeapPointer);
    assert_eq!(
        ConstValue::FunctionPointer(FunctionPointer::Lambda(CompiledFunctionId(3))).get_type(),
        ValueType::FunctionPointer
    );
}

#[test]
fn comparisons_consume_two_values_and_give_a_flag() {
    let program = block(vec![
        i32_const(1),
        i32_const(2),
        CompiledInstruction::Eq(reflex_wasm::compiler::instruction::generic::Eq { value_type: ValueType::I32 }),
        CompiledInstruction::Duplicate(Duplicate { value_type: ValueType::U32 }),
        CompiledInstruction::Ne(Ne { value_type: ValueType::U32 }),
    ]);
    let stack = program.get_type(&CompilerStack::new()).unwrap();
    assert_eq!(stack.operands(), vec![ValueType::U32]);
}

#[test]
fn select_picks_between_two_values_of_a_type() {
    let program = block(vec![
        CompiledInstruction::NullPointer(NullPointer),
        CompiledInstruction::NullPointer(NullPointer),
        CompiledInstruction::Const(Const { value: ConstValue::U32(1) }),
        CompiledInstruction::Select(Select { value_type: ValueType::HeapPointer }),
    ]);
    assert_eq!(program.get_type(&CompilerStack::new()).unwrap().operands(), vec![ValueType::HeapPointer]);
}

#[test]
fn the_first_type_error_stops_a_block() {
    let program = block(vec![i32_const(1), CompiledInstruction::Drop(Drop { value_type: ValueType::I64 }), i32_const(2)]);
    match program.get_type(&CompilerStack::new()) {
        Err(TypedStackError::InvalidOperandStackValueTypes(error)) => {
            assert!(matches!(error.expected, ParamsSignature::Single(ValueType::I64)));
            assert!(matches!(error.received, ParamsSignature::Single(ValueType::I32)));
        },
        other => panic!("unexpected {:?}", other),
    }
}

#[test]
fn scopes_hold_values_for_later_reads() {
    let program = block(vec![
        i32_const(7),
        CompiledInstruction::ScopeStart(ScopeStart { value_type: ValueType::I32 }),
        CompiledInstruction::GetScopeValue(GetScopeValue { value_type: ValueType::I32, scope_offset: 0 }),
        CompiledInstruction::GetScopeValue(GetScopeValue { value_type: ValueType::I32, scope_offset: 0 }),
        CompiledInstruction::Drop(Drop { value_type: ValueType::I32 }),
        CompiledInstruction::ScopeEnd(ScopeEnd { value_type: ValueType::I32 }),
    ]);
    let stack = program.get_type(&CompilerStack::new()).unwrap();
    assert_eq!(stack.operands(), vec![ValueType::I32]);
    assert!(stack.bindings().lexical_scopes().is_empty());
    let wrong = block(vec![CompiledInstruction::GetScopeValue(GetScopeValue { value_type: ValueType::I32, scope_offset: 0 })]);
    assert!(matches!(wrong.get_type(&CompilerStack::new()), Err(TypedStackError::InvalidLexicalScopeValueType(_))));
}

#[test]
fn declared_variables_become_scopes() {
    let program = block(vec![
        CompiledInstruction::NullPointer(NullPointer),
        CompiledInstruction::DeclareVariable(DeclareVariable { value_type: ValueType::HeapPointer }),
    ]);
    let stack = program.get_type(&CompilerStack::new()).unwrap();
    assert_eq!(stack.num_operands(), 0);
    assert_eq!(stack.lookup_variable(0), Some(0));
}

#[test]
fn blocks_type_check_their_body() {
    let body = block(vec![CompiledInstruction::Drop(Drop { value_type: ValueType::I32 }), CompiledInstruction::NullPointer(NullPointer)]);
    let program = block(vec![
        i32_const(1),
        CompiledInstruction::Block(Block {
            block_type: TypeSignature::new(ParamsSignature::Single(ValueType::I32), ParamsSignature::Single(ValueType::HeapPointer)),
            body,
        }),
    ]);
    assert_eq!(program.get_type(&CompilerStack::new()).unwrap().operands(), vec![ValueType::HeapPointer]);
    let bad_body = block(vec![]);
    let bad = block(vec![CompiledInstruction::Block(Block {
        block_type: TypeSignature::new(ParamsSignature::Void, ParamsSignature::Single(ValueType::I32)),
        body: bad_body,
    })]);
    assert!(matches!(bad.get_type(&CompilerStack::new()), Err(TypedStackError::InvalidOperandStackValueTypes(_))));
}

#[test]
fn breaks_leave_the_target_block_in_the_typed_stack() {
    let body = block(vec![
        i32_const(1),
        CompiledInstruction::Break(Break { target_block: 0, result_type: ParamsSignature::Single(ValueType::I32) }),
    ]);
    let program = block(vec![CompiledInstruction::Block(Block {
        block_type: TypeSignature::new(ParamsSignature::Void, ParamsSignature::Single(ValueType::I32)),
        body,
    })]);
    match program.get_type(&CompilerStack::new()) {
        Err(TypedStackError::InvalidBlockResultType(error)) => {
            assert!(error.block_types.is_empty());
            assert!(matches!(error.expected, ParamsSignature::Single(ValueType::I32)));
            assert!(error.received.is_none());
        },
        other => panic!("unexpected {:?}", other),
    }
    let conditional = block(vec![
        i32_const(1),
        CompiledInstruction::Const(Const { value: ConstValue::U32(0) }),
        CompiledInstruction::ConditionalBreak(ConditionalBreak { target_block: 0, result_type: ParamsSignature::Single(ValueType::I32) }),
    ]);
    let program = block(vec![CompiledInstruction::Block(Block {
        block_type: TypeSignature::new(ParamsSignature::Void, ParamsSignature::Single(ValueType::I32)),
        body: conditional,
    })]);
    assert_eq!(program.get_type(&CompilerStack::new()).unwrap().operands(), vec![ValueType::I32]);
    let outside = block(vec![i32_const(1), CompiledInstruction::Break(Break { target_block: 0, result_type: ParamsSignature::Single(ValueType::I32) })]);
    assert!(matches!(outside.get_type(&CompilerStack::new()), Err(TypedStackError::InvalidBlockResultType(_))));
}

#[test]
fn if_branches_share_a_block_type() {
    let branch = |value: i32| block(vec![i32_const(value)]);
    let program = block(vec![
        CompiledInstruction::Const(Const { value: ConstValue::U32(1) }),
        CompiledInstruction::If(If {
            block_type: TypeSignature::new(ParamsSignature::Void, ParamsSignature::Single(ValueType::I32)),
            consequent: branch(1),
            alternative: branch(2),
        }),
    ]);
    assert_eq!(program.get_type(&CompilerStack::new()).unwrap().operands(), vec![ValueType::I32]);
    let missing_condition = block(vec![CompiledInstruction::If(If {
        block_type: TypeSignature::new(ParamsSignature::Void, ParamsSignature::Single(ValueType::I32)),
        consequent: branch(1),
        alternative: branch(2),
    })]);
    assert!(missing_condition.get_type(&CompilerStack::new()).is_err());
}

#[test]
fn heap_access_reads_and_writes_values() {
    let program = block(vec![
        CompiledInstruction::NullPointer(NullPointer),
        CompiledInstruction::ReadHeapValue(ReadHeapValue { value_type: ValueType::U64 }),
    ]);
    assert_eq!(program.get_type(&CompilerStack::new()).unwrap().operands(), vec![ValueType::U64]);
    let unaddressed = block(vec![CompiledInstruction::ReadHeapValue(ReadHeapValue { value_type: ValueType::U64 })]);
    assert!(unaddressed.get_type(&CompilerStack::new()).is_err());
    let write = block(vec![
        CompiledInstruction::NullPointer(NullPointer),
        CompiledInstruction::Const(Const { value: ConstValue::U64(5) }),
        CompiledInstruction::WriteHeapValue(WriteHeapValue { value_type: ValueType::U64 }),
    ]);
    assert_eq!(write.get_type(&CompilerStack::new()).unwrap().operands(), Vec::<ValueType>::new());
    let wrong_order = block(vec![
        CompiledInstruction::Const(Const { value: ConstValue::U64(5) }),
        CompiledInstruction::NullPointer(NullPointer),
        CompiledInstruction::WriteHeapValue(WriteHeapValue { value_type: ValueType::U64 }),
    ]);
    assert!(wrong_order.get_type(&CompilerStack::new()).is_err());
}

#[test]
fn runtime_calls_follow_their_signatures() {
    let program = block(vec![
        CompiledInstruction::NullPointer(NullPointer),
        CompiledInstruction::LoadStateValue(LoadStateValue),
        CompiledInstruction::NullPointer(NullPointer),
        CompiledInstruction::Apply(Apply),
        CompiledInstruction::Evaluate(Evaluate),
        CompiledInstruction::CallRuntimeBuiltin(CallRuntimeBuiltin { target: RuntimeBuiltin::Evaluate }),
    ]);
    assert_eq!(program.get_type(&CompilerStack::new()).unwrap().operands(), vec![ValueType::HeapPointer]);
    let stdlib = Stdlib { uid: 1, required_args: 2, optional_args: 0, variadic: false };
    let call = block(vec![
        CompiledInstruction::NullPointer(NullPointer),
        CompiledInstruction::NullPointer(NullPointer),
        CompiledInstruction::CallStdlib(CallStdlib { target: stdlib }),
        CompiledInstruction::Const(Const { value: ConstValue::U32(4) }),
        CompiledInstruction::NullPointer(NullPointer),
        CompiledInstruction::CallDynamic(CallDynamic {
            signature: TypeSignature::new(ParamsSignature::Void, ParamsSignature::Void),
        }),
        CompiledInstruction::CallCompiledFunction(CallCompiledFunction {
            signature: TypeSignature::new(
                ParamsSignature::Pair(ValueType::HeapPointer, ValueType::HeapPointer),
                ParamsSignature::Single(ValueType::I64),
            ),
            target: CompiledFunctionId(9),
        }),
    ]);
    assert_eq!(call.get_type(&CompilerStack::new()).unwrap().operands(), vec![ValueType::I64]);
}

#[test]
fn signals_are_collected_and_short_circuit() {
    let program = block(vec![
        CompiledInstruction::NullPointer(NullPointer),
        CompiledInstruction::NullPointer(NullPointer),
        CompiledInstruction::CollectSignals(CollectSignals { count: 2, retain_existing_items: true }),
    ]);
    assert_eq!(
        program.get_type(&CompilerStack::new()).unwrap().operands(),
        vec![ValueType::HeapPointer, ValueType::HeapPointer, ValueType::HeapPointer]
    );
    let body = block(vec![
        CompiledInstruction::NullPointer(NullPointer),
        CompiledInstruction::BreakOnSignal(BreakOnSignal { target_block: 0 }),
    ]);
    let guarded = block(vec![CompiledInstruction::Block(Block {
        block_type: TypeSignature::new(ParamsSignature::Void, ParamsSignature::Single(ValueType::HeapPointer)),
        body,
    })]);
    assert_eq!(guarded.get_type(&CompilerStack::new()).unwrap().operands(), vec![ValueType::HeapPointer]);
}

#[test]
fn builder_records_instructions_until_the_first_error() {
    let builder = CompiledBlockBuilder::new(CompilerStack::new())
        .push(i32_const(1))
        .push(CompiledInstruction::Drop(Drop { value_type: ValueType::I32 }));
    let (finished, stack) = builder.into_parts().unwrap();
    assert_eq!(finished.instructions.len(), 2);
    assert_eq!(stack.num_operands(), 0);
    let failed = CompiledBlockBuilder::new(CompilerStack::new())
        .push(CompiledInstruction::Drop(Drop { value_type: ValueType::I32 }))
        .push(i32_const(1));
    assert!(failed.finish().is_err());
    let appended = CompiledBlockBuilder::new(CompilerStack::new())
        .append_block(block(vec![i32_const(1), i32_const(2)]))
        .finish()
        .unwrap();
    assert_eq!(appended.instructions.len(), 2);
}
