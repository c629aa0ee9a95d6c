//! Ordering compiled functions so that every function comes after the functions it refers to:
//! each function's depth in the call graph is computed (memoized), and functions are emitted
//! shallowest first.
use vstd::prelude::*;

use crate::cli::compile::WasmCompilerError;
use crate::compiler::instruction::{CompiledBlock, CompiledInstruction};
use crate::compiler::{CompiledFunctionId, CompiledLambda, ConstValue, FunctionPointer};

verus! {

/// The compiled function with identifier `id`, if there is one.
pub open spec fn find_lambda(functions: Seq<(CompiledFunctionId, CompiledLambda)>, id: CompiledFunctionId) -> Option<CompiledLambda>
    decreases functions.len(),
{
    if functions.len() == 0 {
        None
    } else if functions[0].0 == id {
        Some(functions[0].1)
    } else {
        find_lambda(functions.drop_first(), id)
    }
}

/// The compiled function that an instruction refers to directly, if any: a constant pointer to
/// it, or a direct call of it.
pub open spec fn called_target(instruction: CompiledInstruction) -> Option<CompiledFunctionId> {
    match instruction {
        CompiledInstruction::Const(inner) => match inner.value {
            ConstValue::FunctionPointer(FunctionPointer::Lambda(target)) => Some(target),
            _ => None,
        },
        CompiledInstruction::CallCompiledFunction(inner) => Some(inner.target),
        _ => None,
    }
}

/// The larger of two depths.
pub open spec fn deeper(a: nat, b: nat) -> nat {
    if a >= b {
        a
    } else {
        b
    }
}

/// The call graph depth of an instruction, exploring at most `fuel` nested function bodies:
/// `None` where that is not enough, an error naming the first function referred to that does
/// not exist, or the depth. A reference to a function is one deeper than that function's body,
/// a nested block is as deep as its body, a conditional as its deeper branch (the second is
/// explored only where the first has no error), and anything else has depth zero.
pub open spec fn instruction_depth(
    functions: Seq<(CompiledFunctionId, CompiledLambda)>,
    instruction: CompiledInstruction,
    fuel: nat,
) -> Option<Result<nat, CompiledFunctionId>>
    decreases fuel, instruction,
{
    match called_target(instruction) {
        Some(target) => if fuel == 0 {
            None
        } else {
            match find_lambda(functions, target) {
                None => Some(Err(target)),
                Some(lambda) => match block_depth(functions, lambda.body.instructions@, (fuel - 1) as nat) {
                    Some(Ok(depth)) => Some(Ok(depth + 1)),
                    other => other,
                },
            }
        },
        None => match instruction {
            CompiledInstruction::Block(inner) => block_depth(functions, inner.body.instructions@, fuel),
            CompiledInstruction::If(inner) => match block_depth(functions, inner.consequent.instructions@, fuel) {
                Some(Ok(consequent)) => match block_depth(functions, inner.alternative.instructions@, fuel) {
                    Some(Ok(alternative)) => Some(Ok(deeper(consequent, alternative))),
                    other => other,
                },
                other => other,
            },
            _ => Some(Ok(0)),
        },
    }
}

/// The call graph depth of a sequence of instructions: the deepest of them, or the error of
/// the first that has one (every instruction is explored either way).
pub open spec fn block_depth(
    functions: Seq<(CompiledFunctionId, CompiledLambda)>,
    body: Seq<CompiledInstruction>,
    fuel: nat,
) -> Option<Result<nat, CompiledFunctionId>>
    decreases fuel, body,
{
    if body.len() == 0 {
        Some(Ok(0))
    } else {
        let prefix = block_depth(functions, body.drop_last(), fuel);
        let last = instruction_depth(functions, body.last(), fuel);
        match (prefix, last) {
            (Some(Ok(a)), Some(Ok(b))) => Some(Ok(deeper(a, b))),
            (Some(Err(error)), Some(_)) => Some(Err(error)),
            (Some(Ok(_)), Some(Err(error))) => Some(Err(error)),
            _ => None,
        }
    }
}

/// The call graph depth of the body of the function `id`, exploring at most `fuel` nested
/// function bodies (its own included).
pub open spec fn function_depth(
    functions: Seq<(CompiledFunctionId, CompiledLambda)>,
    id: CompiledFunctionId,
    fuel: nat,
) -> Option<Result<nat, CompiledFunctionId>> {
    if fuel == 0 {
        None
    } else {
        match find_lambda(functions, id) {
            None => Some(Err(id)),
            Some(lambda) => block_depth(functions, lambda.body.instructions@, (fuel - 1) as nat),
        }
    }
}

/// Exploring with more fuel gives the same outcome wherever less was enough; outcomes are
/// bounded by the fuel.
proof fn lemma_instruction_depth_fuel(
    functions: Seq<(CompiledFunctionId, CompiledLambda)>,
    instruction: CompiledInstruction,
    fuel: nat,
)
    requires
        instruction_depth(functions, instruction, fuel) is Some,
    ensures
        instruction_depth(functions, instruction, fuel + 1) == instruction_depth(functions, instruction, fuel),
        instruction_depth(functions, instruction, fuel) matches Some(Ok(depth)) ==> depth <= fuel,
    decreases fuel, instruction,
{
    match called_target(instruction) {
        Some(target) => {
            match find_lambda(functions, target) {
                None => {},
                Some(lambda) => {
                    lemma_block_depth_fuel(functions, lambda.body.instructions@, (fuel - 1) as nat);
                },
            }
        },
        None => match instruction {
            CompiledInstruction::Block(inner) => {
                lemma_block_depth_fuel(functions, inner.body.instructions@, fuel);
            },
            CompiledInstruction::If(inner) => {
                lemma_block_depth_fuel(functions, inner.consequent.instructions@, fuel);
                if block_depth(functions, inner.consequent.instructions@, fuel) is Some
                    && block_depth(functions, inner.consequent.instructions@, fuel)->0 is Ok {
                    lemma_block_depth_fuel(functions, inner.alternative.instructions@, fuel);
                }
            },
            _ => {},
        },
    }
}

/// Exploring a sequence of instructions with more fuel gives the same outcome wherever less was
/// enough; outcomes are bounded by the fuel.
proof fn lemma_block_depth_fuel(
    functions: Seq<(CompiledFunctionId, CompiledLambda)>,
    body: Seq<CompiledInstruction>,
    fuel: nat,
)
    requires
        block_depth(functions, body, fuel) is Some,
    ensures
        block_depth(functions, body, fuel + 1) == block_depth(functions, body, fuel),
        block_depth(functions, body, fuel) matches Some(Ok(depth)) ==> depth <= fuel,
    decreases fuel, body,
{
    if body.len() > 0 {
        lemma_block_depth_fuel(functions, body.drop_last(), fuel);
        lemma_instruction_depth_fuel(functions, body.last(), fuel);
    }
}

/// A function's depth, once explored, stays the same with any more fuel.
proof fn lemma_function_depth_fuel(
    functions: Seq<(CompiledFunctionId, CompiledLambda)>,
    id: CompiledFunctionId,
    fuel: nat,
    more: nat,
)
    requires
        function_depth(functions, id, fuel) is Some,
        fuel <= more,
    ensures
        function_depth(functions, id, more) == function_depth(functions, id, fuel),
        function_depth(functions, id, fuel) matches Some(Ok(depth)) ==> depth < fuel,
    decreases more - fuel,
{
    if let Some(lambda) = find_lambda(functions, id) {
        lemma_block_depth_fuel(functions, lambda.body.instructions@, (fuel - 1) as nat);
    }
    if fuel < more {
        lemma_function_depth_fuel(functions, id, fuel + 1, more);
    }
}

/// Whether an instruction refers to the function `target`, directly or in a nested block.
pub open spec fn instruction_refers_to(instruction: CompiledInstruction, target: CompiledFunctionId) -> bool
    decreases instruction,
{
    called_target(instruction) == Some(target) || match instruction {
        CompiledInstruction::Block(inner) => block_refers_to(inner.body.instructions@, target),
        CompiledInstruction::If(inner) => block_refers_to(inner.consequent.instructions@, target)
            || block_refers_to(inner.alternative.instructions@, target),
        _ => false,
    }
}

/// Whether a sequence of instructions refers to the function `target`.
pub open spec fn block_refers_to(body: Seq<CompiledInstruction>, target: CompiledFunctionId) -> bool
    decreases body,
{
    body.len() > 0 && (block_refers_to(body.drop_last(), target) || instruction_refers_to(body.last(), target))
}

/// Whether the depth cache holds an entry for `id`.
pub open spec fn cache_contains(cache: Seq<(CompiledFunctionId, usize)>, id: CompiledFunctionId) -> bool {
    exists|k: int| 0 <= k < cache.len() && (#[trigger] cache[k]).0 == id
}

/// Whether every cached depth is the depth of that function (explored with `fuel`), and every
/// function that a cached function refers to is cached too.
pub open spec fn cache_is_valid(
    functions: Seq<(CompiledFunctionId, CompiledLambda)>,
    cache: Seq<(CompiledFunctionId, usize)>,
    fuel: nat,
) -> bool {
    &&& forall|k: int| 0 <= k < cache.len() ==> function_depth(functions, (#[trigger] cache[k]).0, fuel)
        == Some(Ok::<nat, CompiledFunctionId>(cache[k].1 as nat))
    &&& forall|k: int, target: CompiledFunctionId| 0 <= k < cache.len() && #[trigger] block_refers_to(
        find_lambda(functions, cache[k].0)->0.body.instructions@,
        target,
    ) ==> cache_contains(cache, target)
}

/// Whether `prefix` is the start of `whole`.
pub open spec fn extends<T>(whole: Seq<T>, prefix: Seq<T>) -> bool {
    prefix.len() <= whole.len() && whole.subrange(0, prefix.len() as int) == prefix
}

/// The outcome of a depth computation as the executable functions report it.
pub open spec fn reported_as(result: Result<usize, WasmCompilerError>, outcome: Option<Result<nat, CompiledFunctionId>>) -> bool {
    match outcome {
        Some(Ok(depth)) => result == Ok::<usize, WasmCompilerError>(depth as usize),
        Some(Err(id)) => result matches Err(WasmCompilerError::InvalidFunctionId(reported)) && reported == id,
        None => false,
    }
}

/// Every prefix and every instruction of a sequence with a defined depth has a defined depth.
proof fn lemma_block_parts_defined(
    functions: Seq<(CompiledFunctionId, CompiledLambda)>,
    body: Seq<CompiledInstruction>,
    fuel: nat,
    length: int,
)
    requires
        block_depth(functions, body, fuel) is Some,
        0 <= length <= body.len(),
    ensures
        block_depth(functions, body.subrange(0, length), fuel) is Some,
        length < body.len() ==> instruction_depth(functions, body[length], fuel) is Some,
    decreases body.len() - length,
{
    if length < body.len() {
        lemma_block_parts_defined(functions, body, fuel, length + 1);
        let next = body.subrange(0, length + 1);
        assert(next.drop_last() =~= body.subrange(0, length));
        assert(next.last() == body[length]);
    } else {
        assert(body.subrange(0, length) =~= body);
    }
}

/// A cache entry stays in a cache that grows.
proof fn lemma_contains_grows(
    before: Seq<(CompiledFunctionId, usize)>,
    after: Seq<(CompiledFunctionId, usize)>,
    id: CompiledFunctionId,
)
    requires
        extends(after, before),
        cache_contains(before, id),
    ensures
        cache_contains(after, id),
{
    let k = choose|k: int| 0 <= k < before.len() && (#[trigger] before[k]).0 == id;
    assert(after[k] == after.subrange(0, before.len() as int)[k]);
}

/// Whether every function that a function of `set` refers to is in `set` too.
pub open spec fn closed_under_references(functions: Seq<(CompiledFunctionId, CompiledLambda)>, set: Set<CompiledFunctionId>) -> bool {
    forall|id: CompiledFunctionId, target: CompiledFunctionId|
        #[trigger] set.contains(id) && find_lambda(functions, id) is Some
            && #[trigger] block_refers_to(find_lambda(functions, id)->0.body.instructions@, target)
            ==> set.contains(target)
}

/// Whether every cached function is in `set`.
pub open spec fn cache_within(cache: Seq<(CompiledFunctionId, usize)>, set: Set<CompiledFunctionId>) -> bool {
    forall|k: int| 0 <= k < cache.len() ==> set.contains((#[trigger] cache[k]).0)
}

/// A sequence of instructions refers to every function that one of its instructions refers to.
proof fn lemma_block_refers_to_member(body: Seq<CompiledInstruction>, index: int, target: CompiledFunctionId)
    requires
        0 <= index < body.len(),
        instruction_refers_to(body[index], target),
    ensures
        block_refers_to(body, target),
    decreases body.len(),
{
    if index < body.len() - 1 {
        let rest = body.drop_last();
        assert(rest[index] == body[index]);
        lemma_block_refers_to_member(rest, index, target);
    }
}

/// The cached depth of `id`, if there is one.
fn cached_depth(cache: &Vec<(CompiledFunctionId, usize)>, id: CompiledFunctionId) -> (result: Option<usize>)
    ensures
        result matches Some(depth) ==> exists|k: int| 0 <= k < cache@.len() && #[trigger] cache@[k] == (id, depth),
        result is None ==> !cache_contains(cache@, id),
{
    let mut index: usize = 0;
    while index < cache.len()
        invariant
            index <= cache@.len(),
            forall|k: int| 0 <= k < index ==> (#[trigger] cache@[k]).0 != id,
        decreases cache.len() - index,
    {
        let entry = cache[index];
        if entry.0 == id {
            assert(cache@[index as int] == (id, entry.1));
            return Some(entry.1);
        }
        index = index + 1;
    }
    None
}

/// The compiled function with identifier `id`, if there is one.
fn lookup_lambda(functions: &Vec<(CompiledFunctionId, CompiledLambda)>, id: CompiledFunctionId) -> (result: Option<&CompiledLambda>)
    ensures
        match find_lambda(functions@, id) {
            Some(lambda) => result matches Some(found) && *found == lambda,
            None => result is None,
        },
{
    let mut index: usize = 0;
    assert(functions@.subrange(0, functions@.len() as int) =~= functions@);
    while index < functions.len()
        invariant
            index <= functions@.len(),
            find_lambda(functions@, id) == find_lambda(functions@.subrange(index as int, functions@.len() as int), id),
        decreases functions.len() - index,
    {
        let ghost rest = functions@.subrange(index as int, functions@.len() as int);
        assert(rest.drop_first() =~= functions@.subrange(index + 1int, functions@.len() as int));
        if functions[index].0 == id {
            return Some(&functions[index].1);
        }
        index = index + 1;
    }
    None
}

/// The call graph depth of the function `id` (its body explored with `fuel`), reusing and
/// extending the cache of depths already found.
fn get_compiled_function_call_graph_depth(
    id: CompiledFunctionId,
    functions: &Vec<(CompiledFunctionId, CompiledLambda)>,
    cache: &mut Vec<(CompiledFunctionId, usize)>,
    Ghost(fuel): Ghost<nat>,
    Ghost(top): Ghost<nat>,
) -> (result: Result<usize, WasmCompilerError>)
    requires
        cache_is_valid(functions@, old(cache)@, top),
        function_depth(functions@, id, fuel + 1) is Some,
        fuel + 1 <= top <= functions@.len() + 1,
        functions@.len() < usize::MAX,
    ensures
        cache_is_valid(functions@, final(cache)@, top),
        extends(final(cache)@, old(cache)@),
        reported_as(result, function_depth(functions@, id, fuel + 1)),
        result is Ok ==> cache_contains(final(cache)@, id),
        forall|set: Set<CompiledFunctionId>|
            closed_under_references(functions@, set) && set.contains(id) && #[trigger] cache_within(old(cache)@, set)
                ==> cache_within(final(cache)@, set),
    decreases fuel, 2int, id,
{
    let ghost start = cache@;
    proof {
        assert(cache@.subrange(0, cache@.len() as int) =~= cache@);
    }
    match cached_depth(cache, id) {
        Some(depth) => {
            proof {
                let k = choose|k: int| 0 <= k < cache@.len() && #[trigger] cache@[k] == (id, depth);
                assert(function_depth(functions@, cache@[k].0, top) == Some(Ok::<nat, CompiledFunctionId>(cache@[k].1 as nat)));
                lemma_function_depth_fuel(functions@, id, fuel + 1, top);
            }
            return Ok(depth);
        },
        None => {},
    }
    match lookup_lambda(functions, id) {
        None => Err(WasmCompilerError::InvalidFunctionId(id)),
        Some(lambda) => {
            let block_result = get_compiled_block_call_graph_depth(&lambda.body, functions, cache, Ghost(fuel), Ghost(top));
            let ghost before = cache@;
            proof {
                assert forall|set: Set<CompiledFunctionId>|
                    closed_under_references(functions@, set) && set.contains(id) && #[trigger] cache_within(start, set)
                        implies cache_within(before, set) by {
                    assert forall|target: CompiledFunctionId| #[trigger] block_refers_to(lambda.body.instructions@, target)
                        implies set.contains(target) by {
                        assert(block_refers_to(find_lambda(functions@, id)->0.body.instructions@, target));
                    }
                }
            }
            let depth = match block_result {
                Ok(depth) => depth,
                Err(error) => {
                    return Err(error);
                },
            };
            proof {
                lemma_function_depth_fuel(functions@, id, fuel + 1, top);
            }
            cache.push((id, depth));
            proof {
                assert(cache@[before.len() as int] == (id, depth));
                assert(cache@.subrange(0, before.len() as int) =~= before);
                assert(cache@.subrange(0, old(cache)@.len() as int) =~= before.subrange(0, old(cache)@.len() as int));
                assert forall|k: int| 0 <= k < cache@.len() implies function_depth(functions@, (#[trigger] cache@[k]).0, top)
                    == Some(Ok::<nat, CompiledFunctionId>(cache@[k].1 as nat)) by {
                    if k < before.len() {
                        assert(cache@[k] == before[k]);
                    }
                }
                assert forall|k: int, target: CompiledFunctionId| 0 <= k < cache@.len() && #[trigger] block_refers_to(
                    find_lambda(functions@, cache@[k].0)->0.body.instructions@,
                    target,
                ) implies cache_contains(cache@, target) by {
                    if k < before.len() {
                        assert(cache@[k] == before[k]);
                    }
                    assert(cache_contains(before, target));
                    lemma_contains_grows(before, cache@, target);
                }
                assert(cache_contains(cache@, id)) by {
                    assert(cache@[before.len() as int].0 == id);
                }
                assert forall|set: Set<CompiledFunctionId>|
                    closed_under_references(functions@, set) && set.contains(id) && #[trigger] cache_within(start, set)
                        implies cache_within(cache@, set) by {
                    assert(cache_within(before, set));
                    assert forall|k: int| 0 <= k < cache@.len() implies set.contains((#[trigger] cache@[k]).0) by {
                        if k < before.len() {
                            assert(cache@[k] == before[k]);
                        }
                    }
                }
            }
            Ok(depth)
        },
    }
}

/// The call graph depth of a block: the deepest of its instructions, or the first error (every
/// instruction is explored either way).
fn get_compiled_block_call_graph_depth(
    block: &CompiledBlock,
    functions: &Vec<(CompiledFunctionId, CompiledLambda)>,
    cache: &mut Vec<(CompiledFunctionId, usize)>,
    Ghost(fuel): Ghost<nat>,
    Ghost(top): Ghost<nat>,
) -> (result: Result<usize, WasmCompilerError>)
    requires
        cache_is_valid(functions@, old(cache)@, top),
        block_depth(functions@, block.instructions@, fuel) is Some,
        fuel < top <= functions@.len() + 1,
        functions@.len() < usize::MAX,
    ensures
        cache_is_valid(functions@, final(cache)@, top),
        extends(final(cache)@, old(cache)@),
        reported_as(result, block_depth(functions@, block.instructions@, fuel)),
        result is Ok ==> forall|target: CompiledFunctionId|
            #[trigger] block_refers_to(block.instructions@, target) ==> cache_contains(final(cache)@, target),
        forall|set: Set<CompiledFunctionId>|
            closed_under_references(functions@, set) && (forall|target: CompiledFunctionId|
                #[trigger] block_refers_to(block.instructions@, target) ==> set.contains(target))
                && #[trigger] cache_within(old(cache)@, set) ==> cache_within(final(cache)@, set),
    decreases fuel, 1int, block,
{
    let ghost body = block.instructions@;
    let ghost start = cache@;
    let mut outcome: Result<usize, WasmCompilerError> = Ok(0);
    let mut index: usize = 0;
    proof {
        assert(body.subrange(0, 0) =~= Seq::<CompiledInstruction>::empty());
        assert(cache@.subrange(0, cache@.len() as int) =~= cache@);
    }
    while index < block.instructions.len()
        invariant
            body == block.instructions@,
            cache_is_valid(functions@, cache@, top),
            extends(cache@, start),
            index <= body.len(),
            block_depth(functions@, body, fuel) is Some,
            fuel < top <= functions@.len() + 1,
            functions@.len() < usize::MAX,
            reported_as(outcome, block_depth(functions@, body.subrange(0, index as int), fuel)),
            outcome is Ok ==> forall|target: CompiledFunctionId|
                #[trigger] block_refers_to(body.subrange(0, index as int), target) ==> cache_contains(cache@, target),
            forall|set: Set<CompiledFunctionId>|
                closed_under_references(functions@, set) && (forall|target: CompiledFunctionId|
                    #[trigger] block_refers_to(body, target) ==> set.contains(target))
                    && #[trigger] cache_within(start, set) ==> cache_within(cache@, set),
        decreases body.len() - index,
    {
        proof {
            lemma_block_parts_defined(functions@, body, fuel, index as int);
        }
        let ghost before = cache@;
        assert(decreases_to!(block => block.instructions@[index as int]));
        let instruction_result = get_compiled_instruction_call_graph_depth(
            &block.instructions[index],
            functions,
            cache,
            Ghost(fuel),
            Ghost(top),
        );
        let ghost next = body.subrange(0, index + 1int);
        let ghost prior_ok = outcome is Ok;
        let ghost instruction_ok = instruction_result is Ok;
        proof {
            assert(next.drop_last() =~= body.subrange(0, index as int));
            assert(next.last() == body[index as int]);
            lemma_block_depth_fuel(functions@, body.subrange(0, index as int), fuel);
            lemma_instruction_depth_fuel(functions@, body[index as int], fuel);
            assert(cache@.subrange(0, start.len() as int) =~= before.subrange(0, start.len() as int));
        }
        proof {
            assert forall|set: Set<CompiledFunctionId>|
                closed_under_references(functions@, set) && (forall|target: CompiledFunctionId|
                    #[trigger] block_refers_to(body, target) ==> set.contains(target))
                    && #[trigger] cache_within(start, set) implies cache_within(cache@, set) by {
                assert(cache_within(before, set));
                assert forall|target: CompiledFunctionId| #[trigger] instruction_refers_to(body[index as int], target)
                    implies set.contains(target) by {
                    lemma_block_refers_to_member(body, index as int, target);
                }
            }
        }
        outcome = match outcome {
            Ok(deepest) => match instruction_result {
                Ok(depth) => Ok(if depth > deepest { depth } else { deepest }),
                Err(error) => Err(error),
            },
            Err(error) => Err(error),
        };
        proof {
            if outcome is Ok {
                assert(prior_ok && instruction_ok);
                assert forall|target: CompiledFunctionId| #[trigger] block_refers_to(next, target) implies cache_contains(cache@, target) by {
                    if block_refers_to(body.subrange(0, index as int), target) {
                        lemma_contains_grows(before, cache@, target);
                    } else {
                        assert(instruction_refers_to(body[index as int], target));
                    }
                }
            }
        }
        index = index + 1;
    }
    proof {
        assert(body.subrange(0, body.len() as int) =~= body);
    }
    outcome
}

/// The call graph depth of a reference to the function `target` from an instruction explored
/// with `fuel`: one deeper than the function's body.
fn get_target_call_graph_depth(
    target: CompiledFunctionId,
    functions: &Vec<(CompiledFunctionId, CompiledLambda)>,
    cache: &mut Vec<(CompiledFunctionId, usize)>,
    Ghost(fuel): Ghost<nat>,
    Ghost(top): Ghost<nat>,
) -> (result: Result<usize, WasmCompilerError>)
    requires
        cache_is_valid(functions@, old(cache)@, top),
        fuel > 0,
        function_depth(functions@, target, fuel) is Some,
        fuel <= top <= functions@.len() + 1,
        functions@.len() < usize::MAX,
    ensures
        cache_is_valid(functions@, final(cache)@, top),
        extends(final(cache)@, old(cache)@),
        reported_as(result, match function_depth(functions@, target, fuel) {
            Some(Ok(depth)) => Some(Ok(depth + 1)),
            other => other,
        }),
        result is Ok ==> cache_contains(final(cache)@, target),
        forall|set: Set<CompiledFunctionId>|
            closed_under_references(functions@, set) && set.contains(target) && #[trigger] cache_within(old(cache)@, set)
                ==> cache_within(final(cache)@, set),
    decreases fuel, 0int, target,
{
    let depth = match get_compiled_function_call_graph_depth(target, functions, cache, Ghost((fuel - 1) as nat), Ghost(top)) {
        Ok(depth) => depth,
        Err(error) => {
            return Err(error);
        },
    };
    proof {
        lemma_function_depth_fuel(functions@, target, fuel, fuel);
        assert(depth < fuel);
    }
    Ok(depth + 1)
}

/// The call graph depth of an instruction (see `instruction_depth`).
fn get_compiled_instruction_call_graph_depth(
    instruction: &CompiledInstruction,
    functions: &Vec<(CompiledFunctionId, CompiledLambda)>,
    cache: &mut Vec<(CompiledFunctionId, usize)>,
    Ghost(fuel): Ghost<nat>,
    Ghost(top): Ghost<nat>,
) -> (result: Result<usize, WasmCompilerError>)
    requires
        cache_is_valid(functions@, old(cache)@, top),
        instruction_depth(functions@, *instruction, fuel) is Some,
        fuel < top <= functions@.len() + 1,
        functions@.len() < usize::MAX,
    ensures
        cache_is_valid(functions@, final(cache)@, top),
        extends(final(cache)@, old(cache)@),
        reported_as(result, instruction_depth(functions@, *instruction, fuel)),
        result is Ok ==> forall|target: CompiledFunctionId|
            #[trigger] instruction_refers_to(*instruction, target) ==> cache_contains(final(cache)@, target),
        forall|set: Set<CompiledFunctionId>|
            closed_under_references(functions@, set) && (forall|target: CompiledFunctionId|
                #[trigger] instruction_refers_to(*instruction, target) ==> set.contains(target))
                && #[trigger] cache_within(old(cache)@, set) ==> cache_within(final(cache)@, set),
    decreases fuel, 1int, instruction,
{
    let ghost start = cache@;
    proof {
        assert(cache@.subrange(0, cache@.len() as int) =~= cache@);
    }
    match instruction {
        CompiledInstruction::Const(inner) => match inner.value {
            ConstValue::FunctionPointer(FunctionPointer::Lambda(target)) => {
                assert(called_target(*instruction) == Some(target));
                let result = get_target_call_graph_depth(target, functions, cache, Ghost(fuel), Ghost(top));
                proof {
                    assert forall|other: CompiledFunctionId| #[trigger] instruction_refers_to(*instruction, other) implies other == target by {}
                    assert forall|set: Set<CompiledFunctionId>|
                        closed_under_references(functions@, set) && (forall|other: CompiledFunctionId|
                            #[trigger] instruction_refers_to(*instruction, other) ==> set.contains(other))
                            && #[trigger] cache_within(start, set) implies cache_within(cache@, set) by {
                        assert(instruction_refers_to(*instruction, target));
                    }
                }
                result
            },
            _ => Ok(0),
        },
        CompiledInstruction::CallCompiledFunction(inner) => {
            assert(called_target(*instruction) == Some(inner.target));
            let result = get_target_call_graph_depth(inner.target, functions, cache, Ghost(fuel), Ghost(top));
            proof {
                assert forall|other: CompiledFunctionId| #[trigger] instruction_refers_to(*instruction, other) implies other == inner.target by {}
                assert forall|set: Set<CompiledFunctionId>|
                    closed_under_references(functions@, set) && (forall|other: CompiledFunctionId|
                        #[trigger] instruction_refers_to(*instruction, other) ==> set.contains(other))
                        && #[trigger] cache_within(start, set) implies cache_within(cache@, set) by {
                    assert(instruction_refers_to(*instruction, inner.target));
                }
            }
            result
        },
        CompiledInstruction::Block(inner) => {
            let result = get_compiled_block_call_graph_depth(&inner.body, functions, cache, Ghost(fuel), Ghost(top));
            proof {
                assert(instruction_depth(functions@, *instruction, fuel) == block_depth(functions@, inner.body.instructions@, fuel));
                assert forall|other: CompiledFunctionId| #[trigger] instruction_refers_to(*instruction, other) implies block_refers_to(inner.body.instructions@, other) by {}
                assert forall|set: Set<CompiledFunctionId>|
                    closed_under_references(functions@, set) && (forall|other: CompiledFunctionId|
                        #[trigger] instruction_refers_to(*instruction, other) ==> set.contains(other))
                        && #[trigger] cache_within(start, set) implies cache_within(cache@, set) by {
                    assert forall|other: CompiledFunctionId| #[trigger] block_refers_to(inner.body.instructions@, other)
                        implies set.contains(other) by {
                        assert(instruction_refers_to(*instruction, other));
                    }
                }
            }
            result
        },
        CompiledInstruction::If(inner) => {
            let consequent_result = get_compiled_block_call_graph_depth(&inner.consequent, functions, cache, Ghost(fuel), Ghost(top));
            let ghost middle = cache@;
            proof {
                assert forall|set: Set<CompiledFunctionId>|
                    closed_under_references(functions@, set) && (forall|other: CompiledFunctionId|
                        #[trigger] instruction_refers_to(*instruction, other) ==> set.contains(other))
                        && #[trigger] cache_within(start, set) implies cache_within(middle, set) by {
                    assert forall|other: CompiledFunctionId| #[trigger] block_refers_to(inner.consequent.instructions@, other)
                        implies set.contains(other) by {
                        assert(instruction_refers_to(*instruction, other));
                    }
                }
            }
            let consequent = match consequent_result {
                Ok(depth) => depth,
                Err(error) => {
                    return Err(error);
                },
            };
            let alternative_result = get_compiled_block_call_graph_depth(&inner.alternative, functions, cache, Ghost(fuel), Ghost(top));
            proof {
                assert(cache@.subrange(0, old(cache)@.len() as int) =~= middle.subrange(0, old(cache)@.len() as int));
                assert forall|set: Set<CompiledFunctionId>|
                    closed_under_references(functions@, set) && (forall|other: CompiledFunctionId|
                        #[trigger] instruction_refers_to(*instruction, other) ==> set.contains(other))
                        && #[trigger] cache_within(start, set) implies cache_within(cache@, set) by {
                    assert(cache_within(middle, set));
                    assert forall|other: CompiledFunctionId| #[trigger] block_refers_to(inner.alternative.instructions@, other)
                        implies set.contains(other) by {
                        assert(instruction_refers_to(*instruction, other));
                    }
                }
            }
            let alternative = match alternative_result {
                Ok(depth) => depth,
                Err(error) => {
                    return Err(error);
                },
            };
            proof {
                lemma_block_depth_fuel(functions@, inner.consequent.instructions@, fuel);
                lemma_block_depth_fuel(functions@, inner.alternative.instructions@, fuel);
                assert forall|target: CompiledFunctionId| #[trigger] instruction_refers_to(*instruction, target) implies cache_contains(cache@, target) by {
                    if block_refers_to(inner.consequent.instructions@, target) {
                        assert(cache_contains(middle, target));
                        lemma_contains_grows(middle, cache@, target);
                    } else {
                        assert(block_refers_to(inner.alternative.instructions@, target));
                    }
                }
            }
            Ok(if consequent >= alternative { consequent } else { alternative })
        },
        _ => Ok(0),
    }
}

/// Whether the function `id` is listed.
pub open spec fn lists(entries: Seq<(CompiledFunctionId, CompiledLambda)>, id: CompiledFunctionId) -> bool {
    exists|k: int| 0 <= k < entries.len() && (#[trigger] entries[k]).0 == id
}

/// Whether no two compiled functions share an identifier.
pub open spec fn distinct_ids(functions: Seq<(CompiledFunctionId, CompiledLambda)>) -> bool {
    forall|i: int, j: int| 0 <= i < j < functions.len() ==> functions[i].0 != functions[j].0
}

/// The call graph depth of the function `id`, explored as deep as there are functions, plus one.
pub open spec fn call_graph_depth(functions: Seq<(CompiledFunctionId, CompiledLambda)>, id: CompiledFunctionId) -> Option<Result<nat, CompiledFunctionId>> {
    function_depth(functions, id, functions.len() + 1)
}

/// Whether the depth of the function `id` was found.
pub open spec fn depth_found(functions: Seq<(CompiledFunctionId, CompiledLambda)>, id: CompiledFunctionId) -> bool {
    call_graph_depth(functions, id) matches Some(Ok(_))
}

/// Whether finding the depth of the function `id` ends in an error.
pub open spec fn depth_failed(functions: Seq<(CompiledFunctionId, CompiledLambda)>, id: CompiledFunctionId) -> bool {
    call_graph_depth(functions, id) matches Some(Err(_))
}

/// Whether `result` reports the missing function that finding the depth of `id` ran into.
pub open spec fn reports_failure<T>(
    functions: Seq<(CompiledFunctionId, CompiledLambda)>,
    id: CompiledFunctionId,
    result: Result<T, WasmCompilerError>,
) -> bool {
    match call_graph_depth(functions, id) {
        Some(Err(missing)) => result matches Err(WasmCompilerError::InvalidFunctionId(reported)) && reported == missing,
        _ => false,
    }
}

/// The depth of a function whose depth was found (zero otherwise).
pub open spec fn depth_of(functions: Seq<(CompiledFunctionId, CompiledLambda)>, id: CompiledFunctionId) -> nat {
    match call_graph_depth(functions, id) {
        Some(Ok(depth)) => depth,
        _ => 0,
    }
}

/// Whether computing the depths of `roots`, in order, ends: each root up to the first whose
/// depth is an error has a depth. (A chain of calls that comes back to a function it started
/// from never ends.)
pub open spec fn roots_terminate(functions: Seq<(CompiledFunctionId, CompiledLambda)>, roots: Seq<CompiledFunctionId>) -> bool {
    forall|i: int|
        0 <= i < roots.len() && (forall|j: int| 0 <= j < i ==> depth_found(functions, #[trigger] roots[j]))
            ==> call_graph_depth(functions, #[trigger] roots[i]) is Some
}

/// Whether `set` holds every function of `ids`.
pub open spec fn contains_all(set: Set<CompiledFunctionId>, ids: Seq<CompiledFunctionId>) -> bool {
    forall|j: int| 0 <= j < ids.len() ==> set.contains(#[trigger] ids[j])
}

/// Whether the entry `a` comes before `b`: shallower first, then by identifier.
pub open spec fn ordered_before(a: (CompiledFunctionId, CompiledLambda, usize), b: (CompiledFunctionId, CompiledLambda, usize)) -> bool {
    a.2 < b.2 || (a.2 == b.2 && a.0.0 < b.0.0)
}

/// Whether a list of entries is strictly ordered shallowest first, then by identifier.
pub open spec fn is_ordered(entries: Seq<(CompiledFunctionId, CompiledLambda, usize)>) -> bool {
    forall|k: int, l: int| 0 <= k < l < entries.len() ==> ordered_before(#[trigger] entries[k], #[trigger] entries[l])
}

/// Inserts `entry` into an ordered list at the place that keeps it ordered.
fn insert_by_depth(sorted: &mut Vec<(CompiledFunctionId, CompiledLambda, usize)>, entry: (CompiledFunctionId, CompiledLambda, usize))
    requires
        is_ordered(old(sorted)@),
        forall|k: int| 0 <= k < old(sorted)@.len() ==> (#[trigger] old(sorted)@[k]).0 != entry.0,
    ensures
        is_ordered(final(sorted)@),
        final(sorted)@.len() == old(sorted)@.len() + 1,
        exists|position: int| 0 <= position <= old(sorted)@.len() && final(sorted)@ == old(sorted)@.insert(position, entry),
{
    let mut position: usize = 0;
    while position < sorted.len()
        invariant
            position <= sorted@.len(),
            sorted@ == old(sorted)@,
            forall|k: int| 0 <= k < position ==> ordered_before(#[trigger] sorted@[k], entry),
            forall|k: int| 0 <= k < sorted@.len() ==> (#[trigger] sorted@[k]).0 != entry.0,
        ensures
            position <= sorted@.len(),
            sorted@ == old(sorted)@,
            forall|k: int| 0 <= k < position ==> ordered_before(#[trigger] sorted@[k], entry),
            position < sorted@.len() ==> ordered_before(entry, sorted@[position as int]),
        decreases sorted.len() - position,
    {
        let depth = sorted[position].2;
        let id = sorted[position].0;
        if entry.2 < depth || (entry.2 == depth && entry.0.0 < id.0) {
            break;
        }
        assert(sorted@[position as int].0 != entry.0);
        position = position + 1;
    }
    let ghost before = sorted@;
    proof {
        assert(position < before.len() ==> ordered_before(entry, before[position as int]));
    }
    sorted.insert(position, entry);
    proof {
        before.insert_ensures(position as int, entry);
        assert(sorted@ =~= before.insert(position as int, entry));
        assert forall|k: int, l: int| 0 <= k < l < sorted@.len() implies ordered_before(#[trigger] sorted@[k], #[trigger] sorted@[l]) by {
            if l < position {
            } else if l == position {
            } else if k < position {
                assert(sorted@[l] == before[l - 1]);
            } else if k == position {
                assert(sorted@[l] == before[l - 1]);
                if position + 1 < l {
                    assert(ordered_before(before[position as int], before[l - 1]));
                }
            } else {
                assert(sorted@[k] == before[k - 1]);
                assert(sorted@[l] == before[l - 1]);
            }
        }
    }
}

/// With distinct identifiers, the function found for an entry's identifier is that entry's.
proof fn lemma_find_entry(functions: Seq<(CompiledFunctionId, CompiledLambda)>, index: int)
    requires
        distinct_ids(functions),
        0 <= index < functions.len(),
    ensures
        find_lambda(functions, functions[index].0) == Some(functions[index].1),
    decreases index,
{
    if index > 0 {
        assert(functions[0].0 != functions[index].0);
        let rest = functions.drop_first();
        assert forall|i: int, j: int| 0 <= i < j < rest.len() implies rest[i].0 != rest[j].0 by {
            assert(rest[i] == functions[i + 1] && rest[j] == functions[j + 1]);
        }
        assert(rest[index - 1] == functions[index]);
        lemma_find_entry(rest, index - 1);
    }
}

/// A function that is found is the function of some entry.
proof fn lemma_found_entry(functions: Seq<(CompiledFunctionId, CompiledLambda)>, id: CompiledFunctionId)
    requires
        find_lambda(functions, id) is Some,
    ensures
        exists|index: int| 0 <= index < functions.len() && (#[trigger] functions[index]).0 == id
            && functions[index].1 == find_lambda(functions, id)->0,
    decreases functions.len(),
{
    if functions[0].0 != id {
        let rest = functions.drop_first();
        lemma_found_entry(rest, id);
        let index = choose|index: int| 0 <= index < rest.len() && (#[trigger] rest[index]).0 == id
            && rest[index].1 == find_lambda(rest, id)->0;
        assert(functions[index + 1] == rest[index]);
    } else {
        assert(functions[0].0 == id);
    }
}

/// The bookkeeping of one step of listing the functions whose depth was found: the entry of
/// the function at `position` has been inserted at `inserted` into the ordered list, and its
/// origin recorded.
#[verifier::rlimit(40)]
proof fn lemma_inserted_entry(
    functions: Seq<(CompiledFunctionId, CompiledLambda)>,
    cache: Seq<(CompiledFunctionId, usize)>,
    before: Seq<(CompiledFunctionId, CompiledLambda, usize)>,
    origin: Seq<int>,
    inserted: int,
    position: int,
    entry: (CompiledFunctionId, CompiledLambda, usize),
)
    requires
        0 <= position < functions.len(),
        0 <= inserted <= before.len(),
        origin.len() == before.len(),
        functions[position] == (entry.0, entry.1),
        entry.2 == depth_of(functions, entry.0),
        depth_found(functions, entry.0),
        cache_contains(cache, entry.0),
        forall|k: int| 0 <= k < before.len() ==> position < #[trigger] origin[k] < functions.len()
            && functions[origin[k]].0 == before[k].0 && functions[origin[k]].1 == before[k].1,
        forall|k: int| 0 <= k < before.len() ==> (#[trigger] before[k]).2 == depth_of(functions, before[k].0)
            && depth_found(functions, before[k].0)
            && cache_contains(cache, before[k].0),
        forall|i: int| position < i < functions.len() && cache_contains(cache, (#[trigger] functions[i]).0)
            ==> exists|k: int| 0 <= k < before.len() && #[trigger] origin[k] == i,
    ensures
        ({
            let after = before.insert(inserted, entry);
            let moved = origin.insert(inserted, position);
            &&& forall|k: int| 0 <= k < after.len() ==> position <= #[trigger] moved[k] < functions.len()
                && functions[moved[k]].0 == after[k].0 && functions[moved[k]].1 == after[k].1
            &&& forall|k: int| 0 <= k < after.len() ==> (#[trigger] after[k]).2 == depth_of(functions, after[k].0)
                && depth_found(functions, after[k].0)
                && cache_contains(cache, after[k].0)
            &&& forall|i: int| position <= i < functions.len() && cache_contains(cache, (#[trigger] functions[i]).0)
                ==> exists|k: int| 0 <= k < after.len() && #[trigger] moved[k] == i
        }),
{
    let after = before.insert(inserted, entry);
    let moved = origin.insert(inserted, position);
    before.insert_ensures(inserted, entry);
    origin.insert_ensures(inserted, position);
    assert forall|k: int| 0 <= k < after.len() implies position <= #[trigger] moved[k] < functions.len()
        && functions[moved[k]].0 == after[k].0 && functions[moved[k]].1 == after[k].1 by {
        if k < inserted {
            assert(after[k] == before[k] && moved[k] == origin[k]);
        } else if k > inserted {
            assert(after[k] == before[k - 1] && moved[k] == origin[k - 1]);
        }
    }
    assert forall|k: int| 0 <= k < after.len() implies (#[trigger] after[k]).2 == depth_of(functions, after[k].0)
        && depth_found(functions, after[k].0)
        && cache_contains(cache, after[k].0) by {
        if k < inserted {
            assert(after[k] == before[k]);
        } else if k > inserted {
            assert(after[k] == before[k - 1]);
        }
    }
    assert forall|i: int| position <= i < functions.len() && cache_contains(cache, (#[trigger] functions[i]).0)
        implies exists|k: int| 0 <= k < after.len() && #[trigger] moved[k] == i by {
        if i == position {
            assert(moved[inserted] == i);
        } else {
            let k = choose|k: int| 0 <= k < before.len() && #[trigger] origin[k] == i;
            if k < inserted {
                assert(moved[k] == origin[k]);
            } else {
                assert(moved[k + 1] == origin[k]);
            }
        }
    }
}

/// Orders compiled functions so that each comes after every function it refers to: the depth
/// of each root in the call graph is found in turn (the first root with an error ends the
/// search with that error), and the functions reachable from the roots are listed, shallowest
/// first and then by identifier. The list holds the roots and every function that a listed
/// function refers to, and nothing that lies outside any set of functions that holds the roots
/// and every function its members refer to.
#[verifier::rlimit(60)]
pub fn sort_compiled_functions_by_call_graph_depth(
    compiled_functions: Vec<(CompiledFunctionId, CompiledLambda)>,
    roots: &Vec<CompiledFunctionId>,
) -> (result: Result<Vec<(CompiledFunctionId, CompiledLambda)>, WasmCompilerError>)
    requires
        distinct_ids(compiled_functions@),
        roots_terminate(compiled_functions@, roots@),
        compiled_functions@.len() < usize::MAX,
    ensures
        ({
            let functions = compiled_functions@;
            if exists|i: int| 0 <= i < roots@.len() && depth_failed(functions, #[trigger] roots@[i]) {
                exists|i: int| 0 <= i < roots@.len()
                    && (forall|j: int| 0 <= j < i ==> depth_found(functions, #[trigger] roots@[j]))
                    && reports_failure(functions, roots@[i], result)
            } else {
                result matches Ok(sorted) && {
                    &&& forall|k: int| 0 <= k < sorted@.len() ==> find_lambda(functions, (#[trigger] sorted@[k]).0) == Some(sorted@[k].1)
                        && depth_found(functions, sorted@[k].0)
                    &&& forall|k: int, l: int| 0 <= k < l < sorted@.len() ==> ({
                        let a = (#[trigger] sorted@[k]).0;
                        let b = (#[trigger] sorted@[l]).0;
                        depth_of(functions, a) < depth_of(functions, b)
                            || (depth_of(functions, a) == depth_of(functions, b) && a.0 < b.0)
                    })
                    &&& forall|i: int| 0 <= i < roots@.len() ==> lists(sorted@, #[trigger] roots@[i])
                    &&& forall|k: int, target: CompiledFunctionId| 0 <= k < sorted@.len() && #[trigger] block_refers_to((#[trigger] sorted@[k]).1.body.instructions@, target)
                        ==> lists(sorted@, target)
                    &&& forall|set: Set<CompiledFunctionId>|
                        closed_under_references(functions, set) && #[trigger] contains_all(set, roots@)
                            ==> forall|k: int| 0 <= k < sorted@.len() ==> set.contains((#[trigger] sorted@[k]).0)
                }
            }
        }),
{
    let ghost functions = compiled_functions@;
    let ghost top: nat = functions.len() + 1;
    let mut cache: Vec<(CompiledFunctionId, usize)> = Vec::new();
    let mut index: usize = 0;
    while index < roots.len()
        invariant
            functions == compiled_functions@,
            top == functions.len() + 1,
            distinct_ids(functions),
            roots_terminate(functions, roots@),
            functions.len() < usize::MAX,
            index <= roots@.len(),
            cache_is_valid(functions, cache@, top),
            forall|j: int| 0 <= j < index ==> depth_found(functions, #[trigger] roots@[j]),
            forall|j: int| 0 <= j < index ==> cache_contains(cache@, #[trigger] roots@[j]),
            forall|set: Set<CompiledFunctionId>|
                closed_under_references(functions, set) && #[trigger] contains_all(set, roots@) ==> cache_within(cache@, set),
        decreases roots.len() - index,
    {
        let ghost before = cache@;
        let root = roots[index];
        match get_compiled_function_call_graph_depth(root, &compiled_functions, &mut cache, Ghost(functions.len() as nat), Ghost(top)) {
            Ok(_) => {
                proof {
                    assert forall|j: int| 0 <= j < index + 1 implies cache_contains(cache@, #[trigger] roots@[j]) by {
                        if j < index {
                            lemma_contains_grows(before, cache@, roots@[j]);
                        }
                    }
                    assert forall|set: Set<CompiledFunctionId>|
                        closed_under_references(functions, set) && #[trigger] contains_all(set, roots@)
                            implies cache_within(cache@, set) by {
                        assert(cache_within(before, set));
                        assert(set.contains(roots@[index as int]));
                    }
                }
            },
            Err(error) => {
                proof {
                    assert(depth_failed(functions, roots@[index as int]));
                }
                return Err(error);
            },
        }
        index = index + 1;
    }
    proof {
        assert(!exists|i: int| 0 <= i < roots@.len() && depth_failed(functions, #[trigger] roots@[i]));
    }
    let mut remaining = compiled_functions;
    let mut sorted: Vec<(CompiledFunctionId, CompiledLambda, usize)> = Vec::new();
    let ghost mut origin: Seq<int> = Seq::empty();
    while remaining.len() > 0
        invariant
            top == functions.len() + 1,
            distinct_ids(functions),
            functions.len() < usize::MAX,
            cache_is_valid(functions, cache@, top),
            remaining@.len() <= functions.len(),
            remaining@ == functions.subrange(0, remaining@.len() as int),
            forall|j: int| 0 <= j < roots@.len() ==> cache_contains(cache@, #[trigger] roots@[j]),
            is_ordered(sorted@),
            origin.len() == sorted@.len(),
            forall|k: int| 0 <= k < sorted@.len() ==> remaining@.len() <= #[trigger] origin[k] < functions.len()
                && functions[origin[k]].0 == sorted@[k].0 && functions[origin[k]].1 == sorted@[k].1,
            forall|k: int| 0 <= k < sorted@.len() ==> (#[trigger] sorted@[k]).2 == depth_of(functions, sorted@[k].0)
                && depth_found(functions, sorted@[k].0)
                && cache_contains(cache@, sorted@[k].0),
            forall|i: int| remaining@.len() <= i < functions.len() && cache_contains(cache@, (#[trigger] functions[i]).0)
                ==> exists|k: int| 0 <= k < sorted@.len() && #[trigger] origin[k] == i,
            forall|set: Set<CompiledFunctionId>|
                closed_under_references(functions, set) && #[trigger] contains_all(set, roots@) ==> cache_within(cache@, set),
        decreases remaining.len(),
    {
        let ghost position = remaining@.len() - 1;
        let (id, lambda) = remaining.pop().unwrap();
        proof {
            assert(functions[position] == (id, lambda));
            assert(remaining@ =~= functions.subrange(0, position));
        }
        let ghost before = sorted@;
        match cached_depth(&cache, id) {
            Some(depth) => {
                proof {
                    let k = choose|k: int| 0 <= k < cache@.len() && #[trigger] cache@[k] == (id, depth);
                    assert(function_depth(functions, cache@[k].0, top) == Some(Ok::<nat, CompiledFunctionId>(cache@[k].1 as nat)));
                    assert(cache_contains(cache@, id));
                    assert forall|k: int| 0 <= k < before.len() implies (#[trigger] before[k]).0 != id by {
                        assert(functions[position].0 != functions[origin[k]].0);
                    }
                }
                insert_by_depth(&mut sorted, (id, lambda, depth));
                proof {
                    let inserted = choose|p: int| 0 <= p <= before.len() && sorted@ == before.insert(p, (id, lambda, depth));
                    lemma_inserted_entry(functions, cache@, before, origin, inserted, position, (id, lambda, depth));
                    origin = origin.insert(inserted, position);
                }
            },
            None => {
                proof {
                    assert forall|i: int| position <= i < functions.len() && cache_contains(cache@, (#[trigger] functions[i]).0)
                        implies exists|k: int| 0 <= k < sorted@.len() && #[trigger] origin[k] == i by {
                        assert(i != position);
                    }
                }
            },
        }
    }
    let ghost entries = sorted@;
    proof {
        assert(remaining@.len() == 0);
    }
    let mut result: Vec<(CompiledFunctionId, CompiledLambda)> = Vec::new();
    while sorted.len() > 0
        invariant
            result@.len() + sorted@.len() == entries.len(),
            sorted@ == entries.subrange(result@.len() as int, entries.len() as int),
            forall|k: int| 0 <= k < result@.len() ==> (#[trigger] result@[k]).0 == entries[k].0 && result@[k].1 == entries[k].1,
        decreases sorted.len(),
    {
        let ghost done = result@.len();
        let (id, lambda, _depth) = sorted.remove(0);
        result.push((id, lambda));
        proof {
            assert(sorted@ =~= entries.subrange(done + 1int, entries.len() as int));
        }
    }
    proof {
        assert forall|k: int| 0 <= k < result@.len() implies find_lambda(functions, (#[trigger] result@[k]).0) == Some(result@[k].1) by {
            lemma_find_entry(functions, origin[k]);
        }
        assert forall|i: int| 0 <= i < roots@.len() implies lists(result@, #[trigger] roots@[i]) by {
            assert(cache_contains(cache@, roots@[i]));
            let c = choose|c: int| 0 <= c < cache@.len() && (#[trigger] cache@[c]).0 == roots@[i];
            assert(function_depth(functions, cache@[c].0, top) is Some);
            lemma_found_entry(functions, roots@[i]);
            let f = choose|f: int| 0 <= f < functions.len() && (#[trigger] functions[f]).0 == roots@[i]
                && functions[f].1 == find_lambda(functions, roots@[i])->0;
            let k = choose|k: int| 0 <= k < entries.len() && #[trigger] origin[k] == f;
            assert(result@[k].0 == roots@[i]);
        }
        assert forall|k: int, target: CompiledFunctionId| 0 <= k < result@.len() && #[trigger] block_refers_to((#[trigger] result@[k]).1.body.instructions@, target)
            implies lists(result@, target) by {
            lemma_find_entry(functions, origin[k]);
            assert(cache_contains(cache@, entries[k].0));
            let c = choose|c: int| 0 <= c < cache@.len() && (#[trigger] cache@[c]).0 == entries[k].0;
            assert(block_refers_to(find_lambda(functions, cache@[c].0)->0.body.instructions@, target));
            assert(cache_contains(cache@, target));
            let d = choose|d: int| 0 <= d < cache@.len() && (#[trigger] cache@[d]).0 == target;
            assert(function_depth(functions, cache@[d].0, top) is Some);
            lemma_found_entry(functions, target);
            let f = choose|f: int| 0 <= f < functions.len() && (#[trigger] functions[f]).0 == target
                && functions[f].1 == find_lambda(functions, target)->0;
            let l = choose|l: int| 0 <= l < entries.len() && #[trigger] origin[l] == f;
            assert(result@[l].0 == target);
        }
        assert forall|set: Set<CompiledFunctionId>|
            closed_under_references(functions, set) && #[trigger] contains_all(set, roots@)
                implies forall|k: int| 0 <= k < result@.len() ==> set.contains((#[trigger] result@[k]).0) by {
            assert(cache_within(cache@, set));
            assert forall|k: int| 0 <= k < result@.len() implies set.contains((#[trigger] result@[k]).0) by {
                assert(cache_contains(cache@, entries[k].0));
                let c = choose|c: int| 0 <= c < cache@.len() && (#[trigger] cache@[c]).0 == entries[k].0;
                assert(set.contains(cache@[c].0));
            }
        }
    }
    Ok(result)
}

/// Within an instruction whose depth was found, every function it refers to has a depth found
/// with the same fuel, less than the instruction's own.
proof fn lemma_instruction_referred_depth(
    functions: Seq<(CompiledFunctionId, CompiledLambda)>,
    instruction: CompiledInstruction,
    fuel: nat,
    target: CompiledFunctionId,
)
    requires
        instruction_depth(functions, instruction, fuel) matches Some(Ok(_)),
        instruction_refers_to(instruction, target),
    ensures
        function_depth(functions, target, fuel) matches Some(Ok(depth))
            && depth < instruction_depth(functions, instruction, fuel)->0->Ok_0,
    decreases fuel, instruction,
{
    if called_target(instruction) == Some(target) {
    } else {
        match called_target(instruction) {
            Some(_) => {},
            None => match instruction {
                CompiledInstruction::Block(inner) => {
                    lemma_block_referred_depth(functions, inner.body.instructions@, fuel, target);
                },
                CompiledInstruction::If(inner) => {
                    if block_refers_to(inner.consequent.instructions@, target) {
                        lemma_block_referred_depth(functions, inner.consequent.instructions@, fuel, target);
                    } else {
                        lemma_block_referred_depth(functions, inner.alternative.instructions@, fuel, target);
                    }
                },
                _ => {},
            },
        }
    }
}

/// Within a sequence of instructions whose depth was found, every function it refers to has a
/// depth found with the same fuel, less than the sequence's own.
proof fn lemma_block_referred_depth(
    functions: Seq<(CompiledFunctionId, CompiledLambda)>,
    body: Seq<CompiledInstruction>,
    fuel: nat,
    target: CompiledFunctionId,
)
    requires
        block_depth(functions, body, fuel) matches Some(Ok(_)),
        block_refers_to(body, target),
    ensures
        function_depth(functions, target, fuel) matches Some(Ok(depth))
            && depth < block_depth(functions, body, fuel)->0->Ok_0,
    decreases fuel, body,
{
    if block_refers_to(body.drop_last(), target) {
        lemma_block_referred_depth(functions, body.drop_last(), fuel, target);
    } else {
        lemma_instruction_referred_depth(functions, body.last(), fuel, target);
    }
}

/// Every function that a function with a depth refers to has a depth, and a smaller one: so
/// listing functions shallowest first puts every function after the functions it refers to.
pub proof fn law_callees_are_shallower(
    functions: Seq<(CompiledFunctionId, CompiledLambda)>,
    id: CompiledFunctionId,
    target: CompiledFunctionId,
)
    requires
        depth_found(functions, id),
        block_refers_to(find_lambda(functions, id)->0.body.instructions@, target),
    ensures
        depth_found(functions, target),
        depth_of(functions, target) < depth_of(functions, id),
{
    let fuel = functions.len() + 1;
    let body = find_lambda(functions, id)->0.body.instructions@;
    lemma_block_referred_depth(functions, body, (fuel - 1) as nat, target);
    lemma_function_depth_fuel(functions, target, (fuel - 1) as nat, fuel as nat);
}

} // verus!
