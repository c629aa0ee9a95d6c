use reflex_wasm::compiler::bindings::{CompilerVariableBindings, CompilerVariableStackFrame};
use reflex_wasm::compiler::error::{CompilerError, TypedStackError};
use reflex_wasm::compiler::signature::{ParamsSignature, TypeSignature, ValueType};
use reflex_wasm::compiler::stack::CompilerStack;

#[test]
fn operands_push_and_pop_in_stack_order() {
    let stack = CompilerStack::new().push_operand(ValueType::I32).push_operand(ValueType::I64);
    assert_eq!(stack.num_operands(), 2);
    assert_eq!(stack.operands(), vec![ValueType::I64, ValueType::I32]);
    let popped = stack.pop_operands(&ParamsSignature::Pair(ValueType::I32, ValueType::I64)).unwrap();
    assert_eq!(popped.num_operands(), 0);
    let top = stack.pop_operand(ValueType::I64).unwrap();
    assert_eq!(top.operands(), vec![ValueType::I32]);
    assert!(stack.assert_operand(ValueType::I64).is_ok());
    assert!(stack.assert_operands(&ParamsSignature::Pair(ValueType::I32, ValueType::I64)).is_ok());
}

#[test]
fn popping_the_wrong_types_reports_the_whole_operand_stack() {
    let stack = CompilerStack::new().push_operand(ValueType::I32).push_operand(ValueType::I64);
    match stack.pop_operand(ValueType::I32) {
        Err(TypedStackError::InvalidOperandStackValueTypes(error)) => {
            assert!(matches!(error.expected, ParamsSignature::Single(ValueType::I32)));
            assert!(matches!(error.received, ParamsSignature::Pair(ValueType::I32, ValueType::I64)));
        },
        other => panic!("unexpected {:?}", other),
    }
    assert!(matches!(
        CompilerStack::new().pop_operand(ValueType::U32),
        Err(TypedStackError::InvalidOperandStackValueTypes(_))
    ));
}

#[test]
fn scopes_are_entered_and_left_with_matching_types() {
    let stack = CompilerStack::new().declare_variable(ValueType::I32).enter_scope(ValueType::F64);
    assert_eq!(stack.bindings().lexical_scopes(), vec![ValueType::F64, ValueType::I32]);
    assert!(stack.assert_lexical_scope(1, ValueType::I32).is_ok());
    let outer = stack.leave_scope(ValueType::F64).unwrap();
    assert_eq!(outer.bindings().lexical_scopes(), vec![ValueType::I32]);
    match stack.leave_scope(ValueType::I32) {
        Err(TypedStackError::InvalidLexicalScopeValueType(error)) => {
            assert_eq!(error.scope_offset, 0);
            assert_eq!(error.scope_offset_types, vec![ValueType::F64, ValueType::I32]);
            assert_eq!(error.expected, ValueType::I32);
            assert_eq!(error.received, Some(ValueType::F64));
        },
        other => panic!("unexpected {:?}", other),
    }
    match CompilerStack::new().assert_lexical_scope(0, ValueType::I32) {
        Err(TypedStackError::InvalidLexicalScopeValueType(error)) => assert_eq!(error.received, None),
        other => panic!("unexpected {:?}", other),
    }
}

#[test]
fn variables_are_found_past_internal_scopes() {
    let stack = CompilerStack::new()
        .declare_variable(ValueType::I32)
        .enter_scope(ValueType::U32)
        .declare_variable(ValueType::I64);
    assert_eq!(stack.lookup_variable(0), Some(0));
    assert_eq!(stack.lookup_variable(1), Some(2));
    assert_eq!(stack.lookup_variable(2), None);
}

#[test]
fn free_variables_map_scope_offsets_to_stack_offsets() {
    let bindings = CompilerVariableBindings::from_free_variables(&[(2, ValueType::I64), (5, ValueType::I32)]);
    assert_eq!(bindings.lookup_variable(2), Some(0));
    assert_eq!(bindings.lookup_variable(5), Some(1));
    assert_eq!(bindings.lookup_variable(3), None);
    assert_eq!(bindings.lexical_scopes(), vec![ValueType::I64, ValueType::I32]);
    let inner = bindings.push_variable(ValueType::U64);
    assert_eq!(inner.lookup_variable(0), Some(0));
    assert_eq!(inner.lookup_variable(3), Some(1));
    assert_eq!(inner.lookup_variable(6), Some(2));
    assert_eq!(inner.get_scope_value_type(0), Some(ValueType::U64));
    assert_eq!(inner.get_scope_value_type(2), Some(ValueType::I32));
    assert_eq!(inner.get_scope_value_type(3), None);
    let internal = bindings.push_internal(ValueType::F32);
    assert_eq!(internal.lookup_variable(2), Some(1));
    let stack = CompilerStack::from_free_variables(&[(0, ValueType::HeapPointer)]);
    assert_eq!(stack.lookup_variable(0), Some(0));
}

#[test]
fn popping_a_binding_returns_the_innermost_frame() {
    let bindings = CompilerVariableBindings::empty().push_variable(ValueType::I32).push_internal(ValueType::F32);
    match bindings.pop() {
        Some((frame, rest)) => {
            assert!(matches!(frame, CompilerVariableStackFrame::Internal(ValueType::F32)));
            assert_eq!(frame.get_type(), ValueType::F32);
            assert_eq!(rest.lexical_scopes(), vec![ValueType::I32]);
        },
        None => panic!("expected a frame"),
    }
    assert!(CompilerVariableBindings::empty().pop().is_none());
}

#[test]
fn blocks_capture_their_params_and_check_their_results() {
    let stack = CompilerStack::new().push_operand(ValueType::U32).push_operand(ValueType::I32);
    let block_type = TypeSignature::new(ParamsSignature::Single(ValueType::I32), ParamsSignature::Single(ValueType::I64));
    let inner = stack.enter_block(&block_type).unwrap();
    assert_eq!(inner.operands(), vec![ValueType::I32]);
    assert!(matches!(inner.active_block(), Some(ParamsSignature::Single(ValueType::I64))));
    assert_eq!(inner.blocks().len(), 1);
    let left = inner.leave_block(&ParamsSignature::Single(ValueType::I64)).unwrap();
    assert!(left.active_block().is_none());
    match inner.leave_block(&ParamsSignature::Single(ValueType::I32)) {
        Err(TypedStackError::InvalidBlockResultType(error)) => {
            assert!(matches!(error.expected, ParamsSignature::Single(ValueType::I32)));
            assert!(matches!(error.received, Some(ParamsSignature::Single(ValueType::I64))));
            assert_eq!(error.block_types.len(), 1);
        },
        other => panic!("unexpected {:?}", other),
    }
    assert!(matches!(
        CompilerStack::new().leave_block(&ParamsSignature::Void),
        Err(TypedStackError::InvalidBlockResultType(_))
    ));
}

#[test]
fn stack_errors_become_compiler_errors() {
    let error = CompilerStack::new().pop_operand(ValueType::I32).unwrap_err();
    assert!(matches!(CompilerError::from_stack_error(error), CompilerError::StackError(_)));
}
