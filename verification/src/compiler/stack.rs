use vstd::prelude::*;

use crate::compiler::bindings::{
    spec_free_variables, spec_lexical_scopes, spec_lookup_variable, BindingsModel,
    CompilerVariableBindings, CompilerVariableStackFrame,
};
use crate::compiler::error::{
    InvalidBlockResultTypeError, InvalidLexicalScopeValueTypeError,
    InvalidOperandStackValueTypesError, StackErrorModel, TypedStackError,
};
use crate::compiler::signature::{
    ParamsSignature, SignatureShape, TypeSignature, ValueType, copy_value_types,
};

verus! {

/// The mathematical content of a [`CompilerStack`].
pub ghost struct StackModel {
    /// Operand types from the bottom of the stack to the top.
    pub operands: Seq<ValueType>,
    /// Result types of the enclosing control flow blocks, from the outermost to the innermost.
    pub blocks: Seq<SignatureShape>,
    pub bindings: BindingsModel,
}

/// The typing state of the stack machine: the operand stack, the control flow block stack and
/// the lexical scope stack.
#[derive(Debug)]
pub struct CompilerStack {
    /// Operand types; the last entry is the top of the stack.
    pub operands: Vec<ValueType>,
    /// Result types of the enclosing blocks; the last entry is the innermost block.
    pub blocks: Vec<ParamsSignature>,
    pub bindings: CompilerVariableBindings,
}

impl View for CompilerStack {
    type V = StackModel;

    open spec fn view(&self) -> StackModel {
        StackModel {
            operands: self.operands@,
            blocks: self.blocks@.map_values(|block: ParamsSignature| block@),
            bindings: self.bindings@,
        }
    }
}

/// The operands left after popping `types` off the top of `operands`, if the top of the stack
/// holds exactly those types (in order, the last type on top).
pub open spec fn spec_popped(operands: Seq<ValueType>, types: Seq<ValueType>) -> Option<Seq<ValueType>> {
    if operands.len() >= types.len() && operands.subrange(operands.len() - types.len(), operands.len() as int) == types {
        Some(operands.subrange(0, operands.len() - types.len()))
    } else {
        None
    }
}

/// A sequence reversed (the innermost element first).
pub open spec fn innermost_first<T>(items: Seq<T>) -> Seq<T> {
    Seq::new(items.len(), |i: int| items[items.len() - 1 - i])
}

/// The outcome of popping `types` off `stack`.
pub open spec fn spec_pop_operands(stack: StackModel, types: SignatureShape) -> Result<StackModel, StackErrorModel> {
    match spec_popped(stack.operands, types.values()) {
        Some(rest) => Ok(StackModel { operands: rest, ..stack }),
        None => Err(StackErrorModel::Operands(types, SignatureShape::collected(stack.operands))),
    }
}

/// The outcome of checking that `types` are on top of `stack` (the stack is unchanged).
pub open spec fn spec_assert_operands(stack: StackModel, types: SignatureShape) -> Result<StackModel, StackErrorModel> {
    match spec_pop_operands(stack, types) {
        Ok(_) => Ok(stack),
        Err(error) => Err(error),
    }
}

/// `stack` with `types` pushed on top of its operands.
pub open spec fn spec_push_operands(stack: StackModel, types: SignatureShape) -> StackModel {
    StackModel { operands: stack.operands + types.values(), ..stack }
}

/// `stack` with one more lexical scope frame.
pub open spec fn spec_push_frame(stack: StackModel, frame: CompilerVariableStackFrame) -> StackModel {
    StackModel {
        bindings: BindingsModel { local_scopes: stack.bindings.local_scopes.push(frame), ..stack.bindings },
        ..stack
    }
}

/// The outcome of leaving the innermost lexical scope, which must hold a `value_type`.
pub open spec fn spec_leave_scope(stack: StackModel, value_type: ValueType) -> Result<StackModel, StackErrorModel> {
    let locals = stack.bindings.local_scopes;
    if locals.len() > 0 && locals.last().value_type() == value_type {
        Ok(StackModel {
            bindings: BindingsModel { local_scopes: locals.drop_last(), ..stack.bindings },
            ..stack
        })
    } else {
        Err(StackErrorModel::Scope(
            0,
            spec_lexical_scopes(stack.bindings),
            value_type,
            if locals.len() > 0 { Some(locals.last().value_type()) } else { None },
        ))
    }
}

/// The outcome of checking that the lexical scope `scope_offset` out holds a `value_type`.
pub open spec fn spec_assert_lexical_scope(stack: StackModel, scope_offset: usize, value_type: ValueType) -> Result<StackModel, StackErrorModel> {
    let scopes = spec_lexical_scopes(stack.bindings);
    if scope_offset < scopes.len() && scopes[scope_offset as int] == value_type {
        Ok(stack)
    } else {
        Err(StackErrorModel::Scope(
            scope_offset,
            scopes,
            value_type,
            if scope_offset < scopes.len() { Some(scopes[scope_offset as int]) } else { None },
        ))
    }
}

/// The stack inside a new block of type `params -> results`: the operands are exactly the
/// block parameters.
pub open spec fn spec_enter_block(stack: StackModel, params: SignatureShape, results: SignatureShape) -> StackModel {
    StackModel { operands: params.values(), blocks: stack.blocks.push(results), ..stack }
}

/// The outcome of leaving the innermost block, whose result type must be `result_type`.
pub open spec fn spec_leave_block(stack: StackModel, result_type: SignatureShape) -> Result<StackModel, StackErrorModel> {
    let blocks = stack.blocks;
    if blocks.len() > 0 && blocks.last() == result_type {
        Ok(StackModel { blocks: blocks.drop_last(), ..stack })
    } else {
        Err(StackErrorModel::Block(
            innermost_first(blocks),
            result_type,
            if blocks.len() > 0 { Some(blocks.last()) } else { None },
        ))
    }
}

/// The empty stack model.
pub open spec fn empty_stack() -> StackModel {
    StackModel {
        operands: Seq::empty(),
        blocks: Seq::empty(),
        bindings: BindingsModel { free_variables: None, local_scopes: Seq::empty() },
    }
}

/// Copies a list of signatures.
pub fn copy_signatures(signatures: &Vec<ParamsSignature>) -> (result: Vec<ParamsSignature>)
    ensures
        result@.map_values(|s: ParamsSignature| s@) == signatures@.map_values(|s: ParamsSignature| s@),
{
    let mut result: Vec<ParamsSignature> = Vec::new();
    let mut i: usize = 0;
    while i < signatures.len()
        invariant
            i <= signatures.len(),
            result@.len() == i,
            forall|j: int| 0 <= j < i ==> result@[j]@ == signatures@[j]@,
        decreases signatures.len() - i,
    {
        result.push(signatures[i].duplicate());
        i = i + 1;
    }
    assert(result@.map_values(|s: ParamsSignature| s@) =~= signatures@.map_values(|s: ParamsSignature| s@));
    result
}

impl CompilerStack {
    /// A stack with no operands, blocks or scopes.
    pub fn new() -> (result: CompilerStack)
        ensures
            result@ == empty_stack(),
    {
        let result = CompilerStack {
            operands: Vec::new(),
            blocks: Vec::new(),
            bindings: CompilerVariableBindings::empty(),
        };
        assert(result@.blocks =~= Seq::<SignatureShape>::empty());
        result
    }

    /// A copy of this stack.
    pub fn duplicate(&self) -> (result: CompilerStack)
        ensures
            result@ == self@,
    {
        CompilerStack {
            operands: copy_value_types(&self.operands),
            blocks: copy_signatures(&self.blocks),
            bindings: self.bindings.duplicate(),
        }
    }

    /// A stack whose only bindings are the given free variables (see
    /// [`CompilerVariableBindings::from_free_variables`]).
    pub fn from_free_variables(scope_offsets: &[(usize, ValueType)]) -> (result: CompilerStack)
        ensures
            result@.operands == Seq::<ValueType>::empty(),
            result@.blocks == Seq::<SignatureShape>::empty(),
            result@.bindings.free_variables == Some(spec_free_variables(scope_offsets@)),
            result@.bindings.local_scopes == Seq::<CompilerVariableStackFrame>::empty(),
    {
        let result = CompilerStack {
            operands: Vec::new(),
            blocks: Vec::new(),
            bindings: CompilerVariableBindings::from_free_variables(scope_offsets),
        };
        assert(result@.blocks =~= Seq::<SignatureShape>::empty());
        result
    }

    /// This stack with `value_types` pushed onto the operand stack, the last type on top.
    pub fn push_operands(&self, value_types: &ParamsSignature) -> (result: CompilerStack)
        ensures
            result@ == spec_push_operands(self@, value_types@),
    {
        let mut result = self.duplicate();
        let values = value_types.to_vec();
        let ghost start = result.operands@;
        let mut i: usize = 0;
        while i < values.len()
            invariant
                i <= values.len(),
                result@.blocks == self@.blocks,
                result@.bindings == self@.bindings,
                start == self@.operands,
                result.operands@ =~= start + values@.subrange(0, i as int),
            decreases values.len() - i,
        {
            result.operands.push(values[i]);
            i = i + 1;
        }
        assert(values@.subrange(0, values.len() as int) =~= values@);
        result
    }

    /// This stack with one value of `value_type` pushed.
    pub fn push_operand(&self, value_type: ValueType) -> (result: CompilerStack)
        ensures
            result@ == spec_push_operands(self@, SignatureShape::Single(value_type)),
    {
        self.push_operands(&ParamsSignature::Single(value_type))
    }

    /// Whether `value_types` are on top of the operand stack.
    fn top_matches(&self, value_types: &Vec<ValueType>) -> (result: bool)
        ensures
            result == spec_popped(self@.operands, value_types@) is Some,
    {
        let n = self.operands.len();
        let k = value_types.len();
        if n < k {
            return false;
        }
        let mut j: usize = 0;
        while j < k
            invariant
                n == self.operands@.len(),
                k == value_types@.len(),
                k <= n,
                j <= k,
                forall|m: int| 0 <= m < j ==> self.operands@[n - k + m] == value_types@[m],
            decreases k - j,
        {
            if self.operands[n - k + j] != value_types[j] {
                assert(self.operands@.subrange(n - k, n as int)[j as int] != value_types@[j as int]);
                return false;
            }
            j = j + 1;
        }
        assert(self.operands@.subrange(n - k, n as int) =~= value_types@);
        true
    }

    /// This stack with `value_types` popped off the top of the operand stack, or an error if
    /// the top of the operand stack does not hold exactly those types.
    pub fn pop_operands(&self, value_types: &ParamsSignature) -> (result: Result<CompilerStack, TypedStackError>)
        ensures
            match spec_pop_operands(self@, value_types@) {
                Ok(model) => result matches Ok(stack) && stack@ == model,
                Err(model) => result matches Err(error) && error@ == model,
            },
    {
        let values = value_types.to_vec();
        if self.top_matches(&values) {
            let mut result = self.duplicate();
            let n = result.operands.len();
            result.operands.truncate(n - values.len());
            assert(result.operands@ =~= self@.operands.subrange(0, self@.operands.len() - values@.len()));
            Ok(result)
        } else {
            let received = ParamsSignature::from_values(self.operands.as_slice());
            Err(TypedStackError::InvalidOperandStackValueTypes(InvalidOperandStackValueTypesError {
                expected: value_types.duplicate(),
                received,
            }))
        }
    }

    /// This stack with one value of `value_type` popped.
    pub fn pop_operand(&self, value_type: ValueType) -> (result: Result<CompilerStack, TypedStackError>)
        ensures
            match spec_pop_operands(self@, SignatureShape::Single(value_type)) {
                Ok(model) => result matches Ok(stack) && stack@ == model,
                Err(model) => result matches Err(error) && error@ == model,
            },
    {
        self.pop_operands(&ParamsSignature::Single(value_type))
    }

    /// This stack itself, if `value_types` are on top of the operand stack.
    pub fn assert_operands(&self, value_types: &ParamsSignature) -> (result: Result<&CompilerStack, TypedStackError>)
        ensures
            match spec_assert_operands(self@, value_types@) {
                Ok(model) => result matches Ok(stack) && stack == self && stack@ == model,
                Err(model) => result matches Err(error) && error@ == model,
            },
    {
        match self.pop_operands(value_types) {
            Ok(_) => Ok(self),
            Err(error) => Err(error),
        }
    }

    /// This stack itself, if a `value_type` is on top of the operand stack.
    pub fn assert_operand(&self, value_type: ValueType) -> (result: Result<&CompilerStack, TypedStackError>)
        ensures
            match spec_assert_operands(self@, SignatureShape::Single(value_type)) {
                Ok(model) => result matches Ok(stack) && stack == self && stack@ == model,
                Err(model) => result matches Err(error) && error@ == model,
            },
    {
        self.assert_operands(&ParamsSignature::Single(value_type))
    }

    /// Number of values on the operand stack.
    pub fn num_operands(&self) -> (result: usize)
        ensures
            result == self@.operands.len(),
    {
        self.operands.len()
    }

    /// The operand types from the top of the stack down.
    pub fn operands(&self) -> (result: Vec<ValueType>)
        ensures
            result@ == innermost_first(self@.operands),
    {
        let n = self.operands.len();
        let mut result: Vec<ValueType> = Vec::new();
        let mut i: usize = 0;
        while i < n
            invariant
                n == self.operands@.len(),
                i <= n,
                result@ =~= Seq::new(i as nat, |j: int| self.operands@[n - 1 - j]),
            decreases n - i,
        {
            result.push(self.operands[n - 1 - i]);
            i = i + 1;
        }
        result
    }

    /// This stack with a new internal lexical scope holding a `value_type`.
    pub fn enter_scope(&self, value_type: ValueType) -> (result: CompilerStack)
        ensures
            result@ == spec_push_frame(self@, CompilerVariableStackFrame::Internal(value_type)),
    {
        CompilerStack {
            operands: copy_value_types(&self.operands),
            blocks: copy_signatures(&self.blocks),
            bindings: self.bindings.push_internal(value_type),
        }
    }

    /// This stack with a new application variable of `value_type` declared.
    pub fn declare_variable(&self, value_type: ValueType) -> (result: CompilerStack)
        ensures
            result@ == spec_push_frame(self@, CompilerVariableStackFrame::Variable(value_type)),
    {
        CompilerStack {
            operands: copy_value_types(&self.operands),
            blocks: copy_signatures(&self.blocks),
            bindings: self.bindings.push_variable(value_type),
        }
    }

    /// The stack machine scope offset of the application variable at `scope_offset` (see
    /// [`CompilerVariableBindings::lookup_variable`]).
    pub fn lookup_variable(&self, scope_offset: usize) -> (result: Option<usize>)
        ensures
            match spec_lookup_variable(self@.bindings, scope_offset) {
                Some(offset) => if offset <= usize::MAX { result == Some(offset as usize) } else { result is None },
                None => result is None,
            },
    {
        self.bindings.lookup_variable(scope_offset)
    }

    /// This stack without its innermost lexical scope, which must hold a `value_type`.
    pub fn leave_scope(&self, value_type: ValueType) -> (result: Result<CompilerStack, TypedStackError>)
        ensures
            match spec_leave_scope(self@, value_type) {
                Ok(model) => result matches Ok(stack) && stack@ == model,
                Err(model) => result matches Err(error) && error@ == model,
            },
    {
        let popped = self.bindings.pop();
        match popped {
            Some((frame, remaining)) => {
                let existing_type = frame.get_type();
                if existing_type == value_type {
                    return Ok(CompilerStack {
                        operands: copy_value_types(&self.operands),
                        blocks: copy_signatures(&self.blocks),
                        bindings: remaining,
                    });
                }
                Err(TypedStackError::InvalidLexicalScopeValueType(InvalidLexicalScopeValueTypeError {
                    scope_offset: 0,
                    scope_offset_types: self.bindings.lexical_scopes(),
                    expected: value_type,
                    received: Some(existing_type),
                }))
            },
            None => Err(TypedStackError::InvalidLexicalScopeValueType(InvalidLexicalScopeValueTypeError {
                scope_offset: 0,
                scope_offset_types: self.bindings.lexical_scopes(),
                expected: value_type,
                received: None,
            })),
        }
    }

    /// This stack itself, if the lexical scope `scope_offset` out holds a `value_type`.
    pub fn assert_lexical_scope(&self, scope_offset: usize, value_type: ValueType) -> (result: Result<&CompilerStack, TypedStackError>)
        ensures
            match spec_assert_lexical_scope(self@, scope_offset, value_type) {
                Ok(model) => result matches Ok(stack) && stack == self && stack@ == model,
                Err(model) => result matches Err(error) && error@ == model,
            },
    {
        let existing = self.bindings.get_scope_value_type(scope_offset);
        match existing {
            Some(existing_type) => {
                if existing_type == value_type {
                    return Ok(self);
                }
                Err(TypedStackError::InvalidLexicalScopeValueType(InvalidLexicalScopeValueTypeError {
                    scope_offset,
                    scope_offset_types: self.bindings.lexical_scopes(),
                    expected: value_type,
                    received: Some(existing_type),
                }))
            },
            None => Err(TypedStackError::InvalidLexicalScopeValueType(InvalidLexicalScopeValueTypeError {
                scope_offset,
                scope_offset_types: self.bindings.lexical_scopes(),
                expected: value_type,
                received: None,
            })),
        }
    }

    /// The variable bindings of this stack.
    pub fn bindings(&self) -> (result: &CompilerVariableBindings)
        ensures
            result@ == self@.bindings,
    {
        &self.bindings
    }

    /// The stack inside a new block of type `block_type`: the block parameters become the whole
    /// operand stack and the block result type becomes the innermost block.
    pub fn enter_block(&self, block_type: &TypeSignature) -> (result: Result<CompilerStack, TypedStackError>)
        ensures
            result matches Ok(stack) && stack@ == spec_enter_block(self@, block_type.params@, block_type.results@),
    {
        let mut blocks = copy_signatures(&self.blocks);
        let ghost before = blocks@;
        blocks.push(block_type.results.duplicate());
        let result = CompilerStack {
            operands: block_type.params.to_vec(),
            blocks,
            bindings: self.bindings.duplicate(),
        };
        assert(result@.blocks =~= self@.blocks.push(block_type.results@));
        Ok(result)
    }

    /// This stack without its innermost block, whose result type must be `result_type`.
    pub fn leave_block(&self, result_type: &ParamsSignature) -> (result: Result<CompilerStack, TypedStackError>)
        ensures
            match spec_leave_block(self@, result_type@) {
                Ok(model) => result matches Ok(stack) && stack@ == model,
                Err(model) => result matches Err(error) && error@ == model,
            },
    {
        let n = self.blocks.len();
        if n > 0 && self.blocks[n - 1].equals(result_type) {
            let mut blocks = copy_signatures(&self.blocks);
            blocks.truncate(n - 1);
            let result = CompilerStack {
                operands: copy_value_types(&self.operands),
                blocks,
                bindings: self.bindings.duplicate(),
            };
            assert(result@.blocks =~= self@.blocks.drop_last());
            return Ok(result);
        }
        let received = if n > 0 { Some(self.blocks[n - 1].duplicate()) } else { None };
        Err(TypedStackError::InvalidBlockResultType(InvalidBlockResultTypeError {
            block_types: self.blocks(),
            expected: result_type.duplicate(),
            received,
        }))
    }

    /// The result type of the innermost block, if any.
    pub fn active_block(&self) -> (result: Option<&ParamsSignature>)
        ensures
            self@.blocks.len() == 0 ==> result is None,
            self@.blocks.len() > 0 ==> (result matches Some(block) && block@ == self@.blocks.last()),
    {
        let n = self.blocks.len();
        if n > 0 {
            Some(&self.blocks[n - 1])
        } else {
            None
        }
    }

    /// The result types of the enclosing blocks, from the innermost outwards.
    pub fn blocks(&self) -> (result: Vec<ParamsSignature>)
        ensures
            result@.map_values(|s: ParamsSignature| s@) == innermost_first(self@.blocks),
    {
        let n = self.blocks.len();
        let mut result: Vec<ParamsSignature> = Vec::new();
        let mut i: usize = 0;
        while i < n
            invariant
                n == self.blocks@.len(),
                i <= n,
                result@.len() == i,
                forall|j: int| 0 <= j < i ==> result@[j]@ == self.blocks@[n - 1 - j]@,
            decreases n - i,
        {
            result.push(self.blocks[n - 1 - i].duplicate());
            i = i + 1;
        }
        assert(result@.map_values(|s: ParamsSignature| s@) =~= innermost_first(self@.blocks));
        result
    }
}

} // verus!
