use vstd::prelude::*;

use crate::compiler::bindings::{
    insert_descending, sort_descending, spec_lookup_variable, search_scopes, BindingsModel,
    CompilerVariableStackFrame, ScopeSearch,
};
use crate::compiler::instruction::{generic, instruction_type, runtime, CompiledInstruction};
use crate::compiler::runtime::builtin::{law_builtin_signatures, RuntimeBuiltin};
use crate::compiler::signature::{SignatureShape, ValueType};
use crate::compiler::stack::{
    spec_enter_block, spec_leave_block, spec_leave_scope, spec_pop_operands, spec_push_frame,
    spec_push_operands, StackModel,
};

verus! {

/// Collecting value types into a signature keeps them all, in order.
pub proof fn law_collected_values(values: Seq<ValueType>)
    ensures
        SignatureShape::collected(values).values() == values,
{
    if values.len() == 1 {
        assert(seq![values[0]] =~= values);
    } else if values.len() == 2 {
        assert(seq![values[0], values[1]] =~= values);
    } else if values.len() == 3 {
        assert(seq![values[0], values[1], values[2]] =~= values);
    } else if values.len() == 0 {
        assert(Seq::<ValueType>::empty() =~= values);
    }
}

/// Appending value types to a signature appends them to its values.
pub proof fn law_appended_values(signature: SignatureShape, items: Seq<ValueType>)
    ensures
        signature.appended(items).values() == signature.values() + items,
{
    match signature {
        SignatureShape::Multiple(_) => {},
        _ => {
            law_collected_values(signature.values() + items);
        },
    }
}

/// Popping the types just pushed gives back the stack as it was.
pub proof fn law_push_then_pop_operands(stack: StackModel, types: SignatureShape)
    ensures
        spec_pop_operands(spec_push_operands(stack, types), types) == Ok::<StackModel, crate::compiler::error::StackErrorModel>(stack),
{
    let pushed = stack.operands + types.values();
    assert(pushed.subrange(pushed.len() - types.values().len(), pushed.len() as int) =~= types.values());
    assert(pushed.subrange(0, pushed.len() - types.values().len()) =~= stack.operands);
}

/// Pushing back the types just popped gives back the stack as it was.
pub proof fn law_pop_then_push_operands(stack: StackModel, types: SignatureShape)
    requires
        spec_pop_operands(stack, types) is Ok,
    ensures
        spec_push_operands(spec_pop_operands(stack, types)->Ok_0, types) == stack,
{
    let n = stack.operands.len();
    let k = types.values().len();
    assert(stack.operands.subrange(0, n - k) + stack.operands.subrange(n - k, n as int) =~= stack.operands);
}

/// Leaving an internal scope just entered with the same type gives back the stack as it was.
pub proof fn law_enter_then_leave_scope(stack: StackModel, value_type: ValueType)
    ensures
        spec_leave_scope(spec_push_frame(stack, CompilerVariableStackFrame::Internal(value_type)), value_type)
            == Ok::<StackModel, crate::compiler::error::StackErrorModel>(stack),
{
    assert(stack.bindings.local_scopes.push(CompilerVariableStackFrame::Internal(value_type)).drop_last()
        =~= stack.bindings.local_scopes);
}

/// Leaving the scope of a variable just declared with the same type gives back the stack as
/// it was.
pub proof fn law_declare_then_leave_scope(stack: StackModel, value_type: ValueType)
    ensures
        spec_leave_scope(spec_push_frame(stack, CompilerVariableStackFrame::Variable(value_type)), value_type)
            == Ok::<StackModel, crate::compiler::error::StackErrorModel>(stack),
{
    assert(stack.bindings.local_scopes.push(CompilerVariableStackFrame::Variable(value_type)).drop_last()
        =~= stack.bindings.local_scopes);
}

/// Leaving a block just entered restores the enclosing blocks and scopes; the operand stack is
/// then the block parameters.
pub proof fn law_enter_then_leave_block(stack: StackModel, params: SignatureShape, results: SignatureShape)
    ensures
        spec_leave_block(spec_enter_block(stack, params, results), results)
            == Ok::<StackModel, crate::compiler::error::StackErrorModel>(StackModel { operands: params.values(), ..stack }),
{
    assert(stack.blocks.push(results).drop_last() =~= stack.blocks);
}

/// A variable just declared is found at stack machine offset 0.
pub proof fn law_lookup_declared_variable(bindings: BindingsModel, value_type: ValueType)
    ensures
        spec_lookup_variable(
            BindingsModel { local_scopes: bindings.local_scopes.push(CompilerVariableStackFrame::Variable(value_type)), ..bindings },
            0,
        ) == Some(0int),
{
    let locals = bindings.local_scopes.push(CompilerVariableStackFrame::Variable(value_type));
    assert(locals.last() == CompilerVariableStackFrame::Variable(value_type));
}

/// Shifting a search by one passed scope shifts its outcome accordingly.
proof fn lemma_search_shift(locals: Seq<CompilerVariableStackFrame>, target: nat, passed: nat)
    ensures
        search_scopes(locals, target, passed + 1) == match search_scopes(locals, target, passed) {
            ScopeSearch::Found(offset) => ScopeSearch::Found(offset + 1),
            ScopeSearch::Pending(remaining, count) => ScopeSearch::Pending(remaining, count + 1),
        },
    decreases locals.len(),
{
    if locals.len() > 0 {
        match locals.last() {
            CompilerVariableStackFrame::Internal(_) => {
                lemma_search_shift(locals.drop_last(), target, passed + 1);
            },
            CompilerVariableStackFrame::Variable(_) => {
                if target != 0 {
                    lemma_search_shift(locals.drop_last(), (target - 1) as nat, passed + 1);
                }
            },
        }
    }
}

/// Entering an internal scope moves every variable one stack machine offset further out.
pub proof fn law_lookup_after_internal_scope(bindings: BindingsModel, value_type: ValueType, scope_offset: usize)
    ensures
        spec_lookup_variable(
            BindingsModel { local_scopes: bindings.local_scopes.push(CompilerVariableStackFrame::Internal(value_type)), ..bindings },
            scope_offset,
        ) == match spec_lookup_variable(bindings, scope_offset) {
            Some(offset) => Some(offset + 1),
            None => None::<int>,
        },
{
    let locals = bindings.local_scopes.push(CompilerVariableStackFrame::Internal(value_type));
    assert(locals.drop_last() =~= bindings.local_scopes);
    lemma_search_shift(bindings.local_scopes, scope_offset as nat, 0);
}

/// Declaring a variable moves every other variable one application offset and one stack
/// machine offset further out.
pub proof fn law_lookup_after_declaration(bindings: BindingsModel, value_type: ValueType, scope_offset: usize)
    requires
        scope_offset < usize::MAX,
    ensures
        spec_lookup_variable(
            BindingsModel { local_scopes: bindings.local_scopes.push(CompilerVariableStackFrame::Variable(value_type)), ..bindings },
            (scope_offset + 1) as usize,
        ) == match spec_lookup_variable(bindings, scope_offset) {
            Some(offset) => Some(offset + 1),
            None => None::<int>,
        },
{
    let locals = bindings.local_scopes.push(CompilerVariableStackFrame::Variable(value_type));
    assert(locals.drop_last() =~= bindings.local_scopes);
    lemma_search_shift(bindings.local_scopes, scope_offset as nat, 0);
}

/// Whether the entries are ordered by non-increasing scope offset.
pub open spec fn descending(items: Seq<(usize, ValueType)>) -> bool {
    forall|i: int, j: int| 0 <= i < j < items.len() ==> items[i].0 >= items[j].0
}

proof fn lemma_insert_descending_properties(sorted: Seq<(usize, ValueType)>, item: (usize, ValueType))
    requires
        descending(sorted),
    ensures
        descending(insert_descending(sorted, item)),
        insert_descending(sorted, item).to_multiset() == sorted.to_multiset().insert(item),
    decreases sorted.len(),
{
    broadcast use vstd::seq_lib::group_to_multiset_ensures;
    if sorted.len() == 0 {
        assert(seq![item] =~= Seq::<(usize, ValueType)>::empty().push(item));
    } else if sorted[0].0 <= item.0 {
        let result = seq![item] + sorted;
        assert forall|i: int, j: int| 0 <= i < j < result.len() implies result[i].0 >= result[j].0 by {
            if i > 0 {
                assert(result[i] == sorted[i - 1]);
            }
            assert(result[j] == sorted[j - 1]);
        }
        vstd::seq_lib::lemma_multiset_commutative(seq![item], sorted);
        assert(seq![item] =~= Seq::<(usize, ValueType)>::empty().push(item));
    } else {
        let rest = sorted.drop_first();
        assert forall|i: int, j: int| 0 <= i < j < rest.len() implies rest[i].0 >= rest[j].0 by {
            assert(rest[i] == sorted[i + 1]);
            assert(rest[j] == sorted[j + 1]);
        }
        lemma_insert_descending_properties(rest, item);
        let inner = insert_descending(rest, item);
        let result = seq![sorted[0]] + inner;
        assert forall|i: int, j: int| 0 <= i < j < result.len() implies result[i].0 >= result[j].0 by {
            if i == 0 {
                assert(result[j] == inner[j - 1]);
                assert(inner.to_multiset().contains(inner[j - 1]));
                if inner[j - 1] != item {
                    assert(rest.to_multiset().contains(inner[j - 1]));
                    let k = choose|k: int| 0 <= k < rest.len() && rest[k] == inner[j - 1];
                    assert(sorted[k + 1] == rest[k]);
                }
            } else {
                assert(result[i] == inner[i - 1]);
                assert(result[j] == inner[j - 1]);
            }
        }
        vstd::seq_lib::lemma_multiset_commutative(seq![sorted[0]], inner);
        vstd::seq_lib::lemma_multiset_commutative(seq![sorted[0]], rest);
        assert(seq![sorted[0]] + rest =~= sorted);
    }
}

/// Free variables are ordered from the outermost (highest scope offset) inwards, and none is
/// lost or added.
pub proof fn law_free_variables_sorted(items: Seq<(usize, ValueType)>)
    ensures
        descending(sort_descending(items)),
        sort_descending(items).to_multiset() == items.to_multiset(),
    decreases items.len(),
{
    broadcast use vstd::seq_lib::group_to_multiset_ensures;
    if items.len() > 0 {
        law_free_variables_sorted(items.drop_last());
        lemma_insert_descending_properties(sort_descending(items.drop_last()), items.last());
        assert(items.drop_last().push(items.last()) =~= items);
    } else {
        assert(sort_descending(items) =~= Seq::<(usize, ValueType)>::empty());
    }
}

/// Typing `ScopeStart(t)` on a stack whose top operand is `t` pops that operand and opens an
/// internal (stack machine) scope, not a variable: the operand stack loses its top, the blocks
/// are unchanged, one `Internal(t)` frame is pushed on the lexical scopes, and every variable is
/// then found one stack machine offset further out, at the same application offset.
pub proof fn law_scope_start_opens_internal_scope(stack: StackModel, value_type: ValueType, scope_offset: usize)
    requires
        stack.operands.len() > 0,
        stack.operands.last() == value_type,
    ensures
        instruction_type(CompiledInstruction::ScopeStart(generic::ScopeStart { value_type }), stack) matches Ok(result)
            && result.operands == stack.operands.drop_last()
            && result.blocks == stack.blocks
            && result.bindings.free_variables == stack.bindings.free_variables
            && result.bindings.local_scopes == stack.bindings.local_scopes.push(CompilerVariableStackFrame::Internal(value_type))
            && spec_lookup_variable(result.bindings, scope_offset) == match spec_lookup_variable(stack.bindings, scope_offset) {
                Some(offset) => Some(offset + 1),
                None => None::<int>,
            },
{
    let operands = stack.operands;
    assert(operands.subrange(operands.len() - 1, operands.len() as int) =~= seq![value_type]);
    assert(SignatureShape::Single(value_type).values() =~= seq![value_type]);
    assert(operands.subrange(0, operands.len() - 1) =~= operands.drop_last());
    law_lookup_after_internal_scope(stack.bindings, value_type, scope_offset);
}

/// Popping `types` from operands that end with them leaves the operands before them.
proof fn lemma_pop_suffix(stack: StackModel, base: Seq<ValueType>, types: SignatureShape)
    requires
        stack.operands == base + types.values(),
    ensures
        spec_pop_operands(stack, types) == Ok::<StackModel, crate::compiler::error::StackErrorModel>(
            StackModel { operands: base, ..stack },
        ),
{
    let operands = stack.operands;
    assert(operands.subrange(operands.len() - types.values().len(), operands.len() as int) =~= types.values());
    assert(operands.subrange(0, operands.len() - types.values().len()) =~= base);
}

/// Typing `DeclareVariable(t)` on a stack whose top operand is `t` pops that operand and
/// declares a variable: one `Variable(t)` frame is pushed, the new variable is found at
/// application offset 0 and stack machine offset 0, and every other variable one application
/// offset and one stack machine offset further out.
pub proof fn law_declare_variable_typing(stack: StackModel, value_type: ValueType, scope_offset: usize)
    requires
        stack.operands.len() > 0,
        stack.operands.last() == value_type,
        scope_offset < usize::MAX,
    ensures
        instruction_type(CompiledInstruction::DeclareVariable(runtime::DeclareVariable { value_type }), stack) matches Ok(result)
            && result.operands == stack.operands.drop_last()
            && result.blocks == stack.blocks
            && result.bindings.free_variables == stack.bindings.free_variables
            && result.bindings.local_scopes == stack.bindings.local_scopes.push(CompilerVariableStackFrame::Variable(value_type))
            && spec_lookup_variable(result.bindings, 0) == Some(0int)
            && spec_lookup_variable(result.bindings, (scope_offset + 1) as usize) == match spec_lookup_variable(stack.bindings, scope_offset) {
                Some(offset) => Some(offset + 1),
                None => None::<int>,
            },
{
    assert(stack.operands.drop_last() + SignatureShape::Single(value_type).values() =~= stack.operands);
    lemma_pop_suffix(stack, stack.operands.drop_last(), SignatureShape::Single(value_type));
    law_lookup_declared_variable(stack.bindings, value_type);
    law_lookup_after_declaration(stack.bindings, value_type, scope_offset);
}

/// Reading a heap value takes the address from the top of the operand stack and leaves the
/// value in its place; writing one takes the value and then the address beneath it, and
/// leaves nothing.
pub proof fn law_heap_access_typing(stack: StackModel, base: Seq<ValueType>, value_type: ValueType)
    ensures
        stack.operands == base.push(ValueType::HeapPointer) ==> instruction_type(
            CompiledInstruction::ReadHeapValue(generic::ReadHeapValue { value_type }),
            stack,
        ) == Ok::<StackModel, crate::compiler::error::StackErrorModel>(StackModel { operands: base.push(value_type), ..stack }),
        stack.operands == base.push(ValueType::HeapPointer).push(value_type) ==> instruction_type(
            CompiledInstruction::WriteHeapValue(generic::WriteHeapValue { value_type }),
            stack,
        ) == Ok::<StackModel, crate::compiler::error::StackErrorModel>(StackModel { operands: base, ..stack }),
        stack.operands.len() == 0 ==> instruction_type(
            CompiledInstruction::ReadHeapValue(generic::ReadHeapValue { value_type }),
            stack,
        ) is Err,
{
    if stack.operands == base.push(ValueType::HeapPointer) {
        assert(base + SignatureShape::Single(ValueType::HeapPointer).values() =~= base.push(ValueType::HeapPointer));
        lemma_pop_suffix(stack, base, SignatureShape::Single(ValueType::HeapPointer));
        assert(base + SignatureShape::Single(value_type).values() =~= base.push(value_type));
    }
    if stack.operands == base.push(ValueType::HeapPointer).push(value_type) {
        let middle = StackModel { operands: base.push(ValueType::HeapPointer), ..stack };
        assert(base.push(ValueType::HeapPointer) + SignatureShape::Single(value_type).values() =~= stack.operands);
        lemma_pop_suffix(stack, base.push(ValueType::HeapPointer), SignatureShape::Single(value_type));
        assert(base + SignatureShape::Single(ValueType::HeapPointer).values() =~= middle.operands);
        lemma_pop_suffix(middle, base, SignatureShape::Single(ValueType::HeapPointer));
        assert(base + SignatureShape::Void.values() =~= base);
    }
}

/// Calling `GetListItem` takes the list pointer and then the index above it, and leaves the
/// item pointer; every runtime builtin call pops its parameters and pushes its results.
pub proof fn law_list_item_call_typing(stack: StackModel, base: Seq<ValueType>)
    requires
        stack.operands == base.push(ValueType::HeapPointer).push(ValueType::U32),
    ensures
        instruction_type(
            CompiledInstruction::CallRuntimeBuiltin(runtime::CallRuntimeBuiltin { target: RuntimeBuiltin::GetListItem }),
            stack,
        ) == Ok::<StackModel, crate::compiler::error::StackErrorModel>(
            StackModel { operands: base.push(ValueType::HeapPointer), ..stack },
        ),
{
    law_builtin_signatures(RuntimeBuiltin::GetListItem);
    let params = SignatureShape::Pair(ValueType::HeapPointer, ValueType::U32);
    assert(base + params.values() =~= stack.operands);
    lemma_pop_suffix(stack, base, params);
    assert(base + SignatureShape::Single(ValueType::HeapPointer).values() =~= base.push(ValueType::HeapPointer));
}

} // verus!
