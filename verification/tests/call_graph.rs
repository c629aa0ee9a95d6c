use reflex_wasm::cli::call_graph::sort_compiled_functions_by_call_graph_depth;
use reflex_wasm::cli::compile::WasmCompilerError;
use reflex_wasm::compiler::instruction::generic::{Block, Const, If};
use reflex_wasm::compiler::instruction::runtime::CallCompiledFunction;
use reflex_wasm::compiler::instruction::{CompiledBlock, CompiledInstruction};
use reflex_wasm::compiler::signature::{ParamsSignature, TypeSignature};
use reflex_wasm::compiler::{CompiledFunctionId, CompiledLambda, ConstValue, FunctionPointer};

fn call(target: u64) -> CompiledInstruction {
    CompiledInstruction::CallCompiledFunction(CallCompiledFunction {
        signature: TypeSignature::new(ParamsSignature::Void, ParamsSignature::Void),
        target: CompiledFunctionId(target),
    })
}

fn pointer(target: u64) -> CompiledInstruction {
    CompiledInstruction::Const(Const { value: ConstValue::FunctionPointer(FunctionPointer::Lambda(CompiledFunctionId(target))) })
}

fn lambda(id: u64, body: Vec<CompiledInstruction>) -> (CompiledFunctionId, CompiledLambda) {
    (CompiledFunctionId(id), CompiledLambda { params: ParamsSignature::Void, body: CompiledBlock { instructions: body } })
}

fn ids(sorted: &[(CompiledFunctionId, CompiledLambda)]) -> Vec<u64> {
    sorted.iter().map(|(id, _)| id.0).collect()
}

#[test]
fn callees_come_before_their_callers() {
    let functions = vec![
        lambda(1, vec![call(2), pointer(3)]),
        lambda(2, vec![call(3)]),
        lambda(3, vec![]),
        lambda(4, vec![]),
    ];
    let roots = vec![CompiledFunctionId(1), CompiledFunctionId(4)];
    let sorted = sort_compiled_functions_by_call_graph_depth(functions, &roots).unwrap();
    assert_eq!(ids(&sorted), vec![3, 4, 2, 1]);
}

#[test]
fn nested_blocks_and_branches_are_searched() {
    let inner = CompiledBlock { instructions: vec![call(7)] };
    let functions = vec![
        lambda(5, vec![CompiledInstruction::Block(Block {
            block_type: TypeSignature::new(ParamsSignature::Void, ParamsSignature::Void),
            body: inner,
        })]),
        lambda(6, vec![CompiledInstruction::If(If {
            block_type: TypeSignature::new(ParamsSignature::Void, ParamsSignature::Void),
            consequent: CompiledBlock { instructions: vec![] },
            alternative: CompiledBlock { instructions: vec![call(5)] },
        })]),
        lambda(7, vec![]),
    ];
    let sorted = sort_compiled_functions_by_call_graph_depth(functions, &vec![CompiledFunctionId(6)]).unwrap();
    assert_eq!(ids(&sorted), vec![7, 5, 6]);
}

#[test]
fn functions_unreached_from_the_roots_are_left_out() {
    let functions = vec![lambda(1, vec![]), lambda(2, vec![])];
    let sorted = sort_compiled_functions_by_call_graph_depth(functions, &vec![CompiledFunctionId(2)]).unwrap();
    assert_eq!(ids(&sorted), vec![2]);
}

#[test]
fn equal_depths_are_ordered_by_identifier() {
    let functions = vec![lambda(9, vec![]), lambda(3, vec![]), lambda(5, vec![])];
    let roots = vec![CompiledFunctionId(5), CompiledFunctionId(9), CompiledFunctionId(3)];
    let sorted = sort_compiled_functions_by_call_graph_depth(functions, &roots).unwrap();
    assert_eq!(ids(&sorted), vec![3, 5, 9]);
}

#[test]
fn a_missing_function_is_reported() {
    let functions = vec![lambda(1, vec![call(2), call(8)]), lambda(2, vec![call(9)])];
    match sort_compiled_functions_by_call_graph_depth(functions, &vec![CompiledFunctionId(1)]) {
        Err(WasmCompilerError::InvalidFunctionId(id)) => assert_eq!(id, CompiledFunctionId(9)),
        other => panic!("unexpected {:?}", other.map(|sorted| ids(&sorted))),
    }
    match sort_compiled_functions_by_call_graph_depth(vec![], &vec![CompiledFunctionId(4)]) {
        Err(WasmCompilerError::InvalidFunctionId(id)) => assert_eq!(id, CompiledFunctionId(4)),
        other => panic!("unexpected {:?}", other.map(|sorted| ids(&sorted))),
    }
}
