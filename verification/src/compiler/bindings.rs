use vstd::prelude::*;

use crate::compiler::signature::{copy_value_types, ParamsSignature, SignatureShape, ValueType};

verus! {

/// One frame of the lexical scope stack.
#[derive(Debug, Clone, Copy, PartialEq, Eq, Structural)]
pub enum CompilerVariableStackFrame {
    /// Application-level variable declaration
    Variable(ValueType),
    /// Internal stack machine stack frame
    Internal(ValueType),
}

impl CompilerVariableStackFrame {
    pub open spec fn value_type(self) -> ValueType {
        match self {
            CompilerVariableStackFrame::Variable(value_type) => value_type,
            CompilerVariableStackFrame::Internal(value_type) => value_type,
        }
    }

    /// The type of the value held by this frame.
    pub fn get_type(&self) -> (result: ValueType)
        ensures
            result == self.value_type(),
    {
        match self {
            CompilerVariableStackFrame::Variable(value_type) => *value_type,
            CompilerVariableStackFrame::Internal(value_type) => *value_type,
        }
    }
}

/// Free variables captured from the enclosing environment.
#[derive(Debug)]
pub struct CompilerFreeVariables {
    /// Pairs of application scope offset and stack machine offset; a later pair for the same
    /// scope offset takes precedence over an earlier one.
    pub mappings: Vec<(usize, usize)>,
    /// Types of the captured variables, ordered from outermost to innermost
    pub value_types: ParamsSignature,
}

/// The mathematical content of [`CompilerFreeVariables`].
pub ghost struct FreeVariablesModel {
    pub mappings: Seq<(usize, usize)>,
    pub value_types: SignatureShape,
}

/// The variable bindings visible to compiled code.
#[derive(Debug)]
pub struct CompilerVariableBindings {
    /// Free variables captured from the global environment
    pub free_variables: Option<CompilerFreeVariables>,
    /// Stack of lexical scopes (the last frame is the innermost)
    pub local_scopes: Vec<CompilerVariableStackFrame>,
}

/// The mathematical content of [`CompilerVariableBindings`].
pub ghost struct BindingsModel {
    pub free_variables: Option<FreeVariablesModel>,
    pub local_scopes: Seq<CompilerVariableStackFrame>,
}

impl View for CompilerVariableBindings {
    type V = BindingsModel;

    open spec fn view(&self) -> BindingsModel {
        BindingsModel {
            free_variables: match self.free_variables {
                Some(free) => Some(FreeVariablesModel { mappings: free.mappings@, value_types: free.value_types@ }),
                None => None,
            },
            local_scopes: self.local_scopes@,
        }
    }
}

/// The stack machine offset that `mappings` gives `key`: the last pair with that key wins.
pub open spec fn mapping_lookup(mappings: Seq<(usize, usize)>, key: usize) -> Option<usize>
    decreases mappings.len(),
{
    if mappings.len() == 0 {
        None
    } else if mappings.last().0 == key {
        Some(mappings.last().1)
    } else {
        mapping_lookup(mappings.drop_last(), key)
    }
}

/// Progress of a search through the lexical scopes for a variable.
pub ghost enum ScopeSearch {
    /// The variable lives in the local scope at this stack machine offset.
    Found(nat),
    /// Not found among the local scopes: the remaining application offset to resolve among the
    /// free variables, and the number of local scopes passed.
    Pending(nat, nat),
}

/// Searches the local scopes from the innermost (last) outwards for the variable at application
/// scope offset `target`, having already passed `passed` scopes.
pub open spec fn search_scopes(locals: Seq<CompilerVariableStackFrame>, target: nat, passed: nat) -> ScopeSearch
    decreases locals.len(),
{
    if locals.len() == 0 {
        ScopeSearch::Pending(target, passed)
    } else {
        match locals.last() {
            CompilerVariableStackFrame::Internal(_) => search_scopes(locals.drop_last(), target, passed + 1),
            CompilerVariableStackFrame::Variable(_) => {
                if target == 0 {
                    ScopeSearch::Found(passed)
                } else {
                    search_scopes(locals.drop_last(), (target - 1) as nat, passed + 1)
                }
            },
        }
    }
}

/// The stack machine offset of the variable at application scope offset `scope_offset`, if
/// the bindings resolve it (as a mathematical integer).
pub open spec fn spec_lookup_variable(bindings: BindingsModel, scope_offset: usize) -> Option<int> {
    match search_scopes(bindings.local_scopes, scope_offset as nat, 0) {
        ScopeSearch::Found(offset) => Some(offset as int),
        ScopeSearch::Pending(target, passed) => match bindings.free_variables {
            None => None,
            Some(free) => {
                if target > usize::MAX {
                    None
                } else {
                    match mapping_lookup(free.mappings, target as usize) {
                        Some(offset) => Some(offset + passed),
                        None => None,
                    }
                }
            },
        },
    }
}

/// The value type of every lexical scope, from the innermost outwards: the local scopes first,
/// then the free variables from the innermost to the outermost.
pub open spec fn spec_lexical_scopes(bindings: BindingsModel) -> Seq<ValueType> {
    let locals = bindings.local_scopes;
    let local_types = Seq::new(locals.len(), |i: int| locals[locals.len() - 1 - i].value_type());
    let free_types = match bindings.free_variables {
        Some(free) => {
            let values = free.value_types.values();
            Seq::new(values.len(), |i: int| values[values.len() - 1 - i])
        },
        None => Seq::empty(),
    };
    local_types + free_types
}

/// Inserts `item` before the first entry whose scope offset is not greater than its own.
pub open spec fn insert_descending(sorted: Seq<(usize, ValueType)>, item: (usize, ValueType)) -> Seq<(usize, ValueType)>
    decreases sorted.len(),
{
    if sorted.len() == 0 {
        seq![item]
    } else if sorted[0].0 <= item.0 {
        seq![item] + sorted
    } else {
        seq![sorted[0]] + insert_descending(sorted.drop_first(), item)
    }
}

/// The free variables ordered from outermost (highest scope offset) to innermost; entries with
/// equal offsets appear in the reverse of their input order.
pub open spec fn sort_descending(items: Seq<(usize, ValueType)>) -> Seq<(usize, ValueType)>
    decreases items.len(),
{
    if items.len() == 0 {
        Seq::empty()
    } else {
        insert_descending(sort_descending(items.drop_last()), items.last())
    }
}

/// The free variable model built from `scope_offsets`.
pub open spec fn spec_free_variables(scope_offsets: Seq<(usize, ValueType)>) -> FreeVariablesModel {
    let sorted = sort_descending(scope_offsets);
    FreeVariablesModel {
        mappings: Seq::new(sorted.len(), |i: int| (sorted[i].0, (sorted.len() - 1 - i) as usize)),
        value_types: SignatureShape::collected(Seq::new(sorted.len(), |i: int| sorted[i].1)),
    }
}

/// The position at which [`insert_descending`] places `item`.
pub open spec fn insertion_index(sorted: Seq<(usize, ValueType)>, item: (usize, ValueType)) -> int
    decreases sorted.len(),
{
    if sorted.len() == 0 {
        0
    } else if sorted[0].0 <= item.0 {
        0
    } else {
        1 + insertion_index(sorted.drop_first(), item)
    }
}

proof fn lemma_insert_descending(sorted: Seq<(usize, ValueType)>, item: (usize, ValueType))
    ensures
        0 <= insertion_index(sorted, item) <= sorted.len(),
        insert_descending(sorted, item) == sorted.insert(insertion_index(sorted, item), item),
        forall|j: int| 0 <= j < insertion_index(sorted, item) ==> sorted[j].0 > item.0,
        insertion_index(sorted, item) < sorted.len() ==> sorted[insertion_index(sorted, item)].0 <= item.0,
    decreases sorted.len(),
{
    if sorted.len() == 0 {
        assert(seq![item] =~= sorted.insert(0, item));
    } else if sorted[0].0 <= item.0 {
        assert(seq![item] + sorted =~= sorted.insert(0, item));
    } else {
        let rest = sorted.drop_first();
        lemma_insert_descending(rest, item);
        let k = insertion_index(rest, item);
        assert(seq![sorted[0]] + rest.insert(k, item) =~= sorted.insert(k + 1, item));
        assert forall|j: int| 0 <= j < k + 1 implies sorted[j].0 > item.0 by {
            if j > 0 {
                assert(sorted[j] == rest[j - 1]);
            }
        }
        if k < rest.len() {
            assert(sorted[k + 1] == rest[k]);
        }
    }
}

/// Inserts `item` into `sorted` at the position [`insert_descending`] gives.
fn insert_sorted(sorted: &mut Vec<(usize, ValueType)>, item: (usize, ValueType))
    ensures
        final(sorted)@ == insert_descending(old(sorted)@, item),
{
    proof {
        lemma_insert_descending(old(sorted)@, item);
    }
    let ghost k = insertion_index(old(sorted)@, item);
    let mut i: usize = 0;
    while i < sorted.len() && sorted[i].0 > item.0
        invariant
            i <= sorted.len(),
            i <= k,
            sorted@ == old(sorted)@,
            0 <= k <= sorted@.len(),
            forall|j: int| 0 <= j < k ==> sorted@[j].0 > item.0,
            k < sorted@.len() ==> sorted@[k].0 <= item.0,
        decreases sorted.len() - i,
    {
        i = i + 1;
    }
    sorted.insert(i, item);
}

/// Sorts free variable declarations as [`sort_descending`] describes.
fn sort_scope_offsets(scope_offsets: &[(usize, ValueType)]) -> (result: Vec<(usize, ValueType)>)
    ensures
        result@ == sort_descending(scope_offsets@),
{
    let mut sorted: Vec<(usize, ValueType)> = Vec::new();
    let mut i: usize = 0;
    while i < scope_offsets.len()
        invariant
            i <= scope_offsets.len(),
            sorted@ == sort_descending(scope_offsets@.subrange(0, i as int)),
        decreases scope_offsets.len() - i,
    {
        proof {
            let next = scope_offsets@.subrange(0, i + 1);
            assert(next.drop_last() =~= scope_offsets@.subrange(0, i as int));
            assert(next.last() == scope_offsets@[i as int]);
        }
        insert_sorted(&mut sorted, scope_offsets[i]);
        i = i + 1;
    }
    assert(scope_offsets@.subrange(0, scope_offsets.len() as int) =~= scope_offsets@);
    sorted
}

/// Copies a list of scope frames.
fn copy_frames(frames: &Vec<CompilerVariableStackFrame>) -> (result: Vec<CompilerVariableStackFrame>)
    ensures
        result@ == frames@,
{
    let mut result: Vec<CompilerVariableStackFrame> = Vec::new();
    let mut i: usize = 0;
    while i < frames.len()
        invariant
            i <= frames.len(),
            result@ == frames@.subrange(0, i as int),
        decreases frames.len() - i,
    {
        result.push(frames[i]);
        i = i + 1;
    }
    result
}

/// Copies a list of offset mappings.
fn copy_mappings(mappings: &Vec<(usize, usize)>) -> (result: Vec<(usize, usize)>)
    ensures
        result@ == mappings@,
{
    let mut result: Vec<(usize, usize)> = Vec::new();
    let mut i: usize = 0;
    while i < mappings.len()
        invariant
            i <= mappings.len(),
            result@ == mappings@.subrange(0, i as int),
        decreases mappings.len() - i,
    {
        result.push(mappings[i]);
        i = i + 1;
    }
    result
}

/// Looks up `key` in `mappings`, the last matching pair winning.
fn find_mapping(mappings: &Vec<(usize, usize)>, key: usize) -> (result: Option<usize>)
    ensures
        result == mapping_lookup(mappings@, key),
{
    let mut i: usize = mappings.len();
    assert(mappings@.subrange(0, i as int) =~= mappings@);
    while i > 0
        invariant
            i <= mappings.len(),
            mapping_lookup(mappings@, key) == mapping_lookup(mappings@.subrange(0, i as int), key),
        decreases i,
    {
        let ghost prefix = mappings@.subrange(0, i as int);
        assert(prefix.drop_last() =~= mappings@.subrange(0, i - 1));
        if mappings[i - 1].0 == key {
            return Some(mappings[i - 1].1);
        }
        i = i - 1;
    }
    None
}

impl CompilerVariableBindings {
    /// Bindings with no free variables and no local scopes.
    pub fn empty() -> (result: CompilerVariableBindings)
        ensures
            result@.free_variables is None,
            result@.local_scopes == Seq::<CompilerVariableStackFrame>::empty(),
    {
        CompilerVariableBindings { free_variables: None, local_scopes: Vec::new() }
    }

    /// A copy of these bindings.
    pub fn duplicate(&self) -> (result: CompilerVariableBindings)
        ensures
            result@ == self@,
    {
        let free_variables = match &self.free_variables {
            Some(free) => Some(CompilerFreeVariables {
                mappings: copy_mappings(&free.mappings),
                value_types: free.value_types.duplicate(),
            }),
            None => None,
        };
        CompilerVariableBindings { free_variables, local_scopes: copy_frames(&self.local_scopes) }
    }

    /// Bindings that capture the given free variables, each given as its application scope
    /// offset and value type: they are sorted from outermost (highest offset) to innermost,
    /// and the innermost is mapped to stack machine offset 0.
    pub fn from_free_variables(scope_offsets: &[(usize, ValueType)]) -> (result: CompilerVariableBindings)
        ensures
            result@.free_variables == Some(spec_free_variables(scope_offsets@)),
            result@.local_scopes == Seq::<CompilerVariableStackFrame>::empty(),
    {
        let sorted = sort_scope_offsets(scope_offsets);
        let n = sorted.len();
        let mut mappings: Vec<(usize, usize)> = Vec::new();
        let mut types: Vec<ValueType> = Vec::new();
        let mut i: usize = 0;
        while i < n
            invariant
                n == sorted@.len(),
                i <= n,
                mappings@ =~= Seq::new(i as nat, |j: int| (sorted@[j].0, (n - 1 - j) as usize)),
                types@ =~= Seq::new(i as nat, |j: int| sorted@[j].1),
            decreases n - i,
        {
            mappings.push((sorted[i].0, n - 1 - i));
            types.push(sorted[i].1);
            i = i + 1;
        }
        let value_types = ParamsSignature::from_values(types.as_slice());
        CompilerVariableBindings {
            free_variables: Some(CompilerFreeVariables { mappings, value_types }),
            local_scopes: Vec::new(),
        }
    }

    /// These bindings with one more frame pushed as the innermost scope.
    pub fn push(&self, binding: CompilerVariableStackFrame) -> (result: CompilerVariableBindings)
        ensures
            result@.free_variables == self@.free_variables,
            result@.local_scopes == self@.local_scopes.push(binding),
    {
        let mut result = self.duplicate();
        result.local_scopes.push(binding);
        result
    }

    /// These bindings with an internal stack machine scope pushed.
    pub fn push_internal(&self, value_type: ValueType) -> (result: CompilerVariableBindings)
        ensures
            result@.free_variables == self@.free_variables,
            result@.local_scopes == self@.local_scopes.push(CompilerVariableStackFrame::Internal(value_type)),
    {
        self.push(CompilerVariableStackFrame::Internal(value_type))
    }

    /// These bindings with an application variable declaration pushed.
    pub fn push_variable(&self, value_type: ValueType) -> (result: CompilerVariableBindings)
        ensures
            result@.free_variables == self@.free_variables,
            result@.local_scopes == self@.local_scopes.push(CompilerVariableStackFrame::Variable(value_type)),
    {
        self.push(CompilerVariableStackFrame::Variable(value_type))
    }

    /// The innermost frame and the bindings without it, or `None` when there is no local scope.
    pub fn pop(&self) -> (result: Option<(CompilerVariableStackFrame, CompilerVariableBindings)>)
        ensures
            self@.local_scopes.len() == 0 ==> result is None,
            self@.local_scopes.len() > 0 ==> (result matches Some((frame, rest)) && {
                &&& frame == self@.local_scopes.last()
                &&& rest@.free_variables == self@.free_variables
                &&& rest@.local_scopes == self@.local_scopes.drop_last()
            }),
    {
        if self.local_scopes.len() == 0 {
            return None;
        }
        let mut rest = self.duplicate();
        let frame = rest.local_scopes.pop();
        match frame {
            Some(frame) => Some((frame, rest)),
            None => None,
        }
    }

    /// The value type of every lexical scope, from the innermost outwards.
    pub fn lexical_scopes(&self) -> (result: Vec<ValueType>)
        ensures
            result@ == spec_lexical_scopes(self@),
    {
        let mut result: Vec<ValueType> = Vec::new();
        let n = self.local_scopes.len();
        let mut i: usize = 0;
        while i < n
            invariant
                n == self.local_scopes@.len(),
                i <= n,
                result@ =~= Seq::new(i as nat, |j: int| self.local_scopes@[n - 1 - j].value_type()),
            decreases n - i,
        {
            let frame = self.local_scopes[n - 1 - i].get_type();
            result.push(frame);
            i = i + 1;
        }
        match &self.free_variables {
            Some(free) => {
                let values = free.value_types.to_vec();
                let m = values.len();
                let mut k: usize = 0;
                while k < m
                    invariant
                        n == self.local_scopes@.len(),
                        m == values@.len(),
                        values@ == free.value_types@.values(),
                        k <= m,
                        result@ =~= Seq::new(n as nat, |j: int| self.local_scopes@[n - 1 - j].value_type())
                            + Seq::new(k as nat, |j: int| values@[m - 1 - j]),
                    decreases m - k,
                {
                    result.push(values[m - 1 - k]);
                    k = k + 1;
                }
            },
            None => {
                assert(result@ =~= result@ + Seq::<ValueType>::empty());
            },
        }
        result
    }

    /// The value type of the lexical scope `offset` scopes out from the innermost.
    pub fn get_scope_value_type(&self, offset: usize) -> (result: Option<ValueType>)
        ensures
            offset < spec_lexical_scopes(self@).len() ==> result == Some(spec_lexical_scopes(self@)[offset as int]),
            offset >= spec_lexical_scopes(self@).len() ==> result is None,
    {
        let scopes = self.lexical_scopes();
        if offset < scopes.len() {
            Some(scopes[offset])
        } else {
            None
        }
    }

    /// The stack machine offset of the variable at application scope offset `scope_offset`,
    /// counted from the innermost lexical scope, or `None` if no binding resolves it (or the
    /// offset does not fit a `usize`).
    pub fn lookup_variable(&self, scope_offset: usize) -> (result: Option<usize>)
        ensures
            match spec_lookup_variable(self@, scope_offset) {
                Some(offset) => if offset <= usize::MAX { result == Some(offset as usize) } else { result is None },
                None => result is None,
            },
    {
        let n = self.local_scopes.len();
        let mut target: usize = scope_offset;
        let mut passed: usize = 0;
        assert(self.local_scopes@.subrange(0, n as int) =~= self.local_scopes@);
        while passed < n
            invariant
                n == self.local_scopes@.len(),
                passed <= n,
                search_scopes(self.local_scopes@, scope_offset as nat, 0)
                    == search_scopes(self.local_scopes@.subrange(0, n - passed), target as nat, passed as nat),
            decreases n - passed,
        {
            let ghost prefix = self.local_scopes@.subrange(0, n - passed);
            assert(prefix.drop_last() =~= self.local_scopes@.subrange(0, n - passed - 1));
            assert(prefix.last() == self.local_scopes@[n - passed - 1]);
            match self.local_scopes[n - 1 - passed] {
                CompilerVariableStackFrame::Internal(_) => {},
                CompilerVariableStackFrame::Variable(_) => {
                    if target == 0 {
                        return Some(passed);
                    }
                    target = target - 1;
                },
            }
            passed = passed + 1;
        }
        assert(self.local_scopes@.subrange(0, 0) =~= Seq::<CompilerVariableStackFrame>::empty());
        match &self.free_variables {
            None => None,
            Some(free) => match find_mapping(&free.mappings, target) {
                Some(offset) => offset.checked_add(passed),
                None => None,
            },
        }
    }
}

} // verus!
