use reflex_wasm::compiler::signature::{ParamsSignature, ParamsSignatureIter, TypeSignature, ValueType};
use reflex_wasm::compiler::wasm::types::{
    parse_block_type_signature, parse_function_type_signature, parse_value_type, parse_value_types,
    WasmBlockSignature, WasmValueType,
};

#[test]
fn signatures_grow_through_the_small_variants() {
    let signature = ParamsSignature::Void.push_value(ValueType::I32);
    assert!(matches!(signature, ParamsSignature::Single(ValueType::I32)));
    let signature = signature.push_value(ValueType::I64).push_value(ValueType::F32);
    assert!(matches!(signature, ParamsSignature::Triple(ValueType::I32, ValueType::I64, ValueType::F32)));
    let signature = signature.push_value(ValueType::U32);
    match signature {
        ParamsSignature::Multiple(values) => {
            assert_eq!(values, vec![ValueType::I32, ValueType::I64, ValueType::F32, ValueType::U32])
        },
        other => panic!("unexpected {:?}", other),
    }
}

#[test]
fn append_and_from_values_collect_in_order() {
    let signature = ParamsSignature::Single(ValueType::U64).append(&[ValueType::I32, ValueType::HeapPointer]);
    assert!(matches!(signature, ParamsSignature::Triple(ValueType::U64, ValueType::I32, ValueType::HeapPointer)));
    assert!(matches!(ParamsSignature::from_values(&[]), ParamsSignature::Void));
    assert!(matches!(ParamsSignature::from_values(&[ValueType::F64, ValueType::F64]), ParamsSignature::Pair(ValueType::F64, ValueType::F64)));
    let multiple = ParamsSignature::Multiple(vec![ValueType::I32]).append(&[ValueType::I64]);
    assert!(matches!(multiple, ParamsSignature::Multiple(ref values) if values.len() == 2));
}

#[test]
fn get_len_and_iteration_agree() {
    let signature = ParamsSignature::from_values(&[ValueType::I32, ValueType::U32, ValueType::I64, ValueType::U64]);
    assert_eq!(signature.len(), 4);
    assert_eq!(signature.get(2), Some(ValueType::I64));
    assert_eq!(signature.get(4), None);
    assert_eq!(signature.to_vec(), vec![ValueType::I32, ValueType::U32, ValueType::I64, ValueType::U64]);
    let mut iter = signature.iter();
    assert_eq!(iter.len(), 4);
    assert_eq!(iter.next(), Some(ValueType::I32));
    assert_eq!(iter.next_back(), Some(ValueType::U64));
    assert_eq!(iter.len(), 2);
    assert_eq!(iter.next(), Some(ValueType::U32));
    assert_eq!(iter.next(), Some(ValueType::I64));
    assert_eq!(iter.next(), None);
    let mut fresh = ParamsSignatureIter::new(&signature);
    assert_eq!(fresh.next_back(), Some(ValueType::U64));
}

#[test]
fn equality_compares_value_types() {
    let a = ParamsSignature::Pair(ValueType::I32, ValueType::I64);
    let b = ParamsSignature::Multiple(vec![ValueType::I32]).append(&[ValueType::I64]);
    assert!(a.equals(&a.duplicate()));
    assert!(!a.equals(&ParamsSignature::Single(ValueType::I32)));
    assert!(!a.equals(&b) || a.len() == b.len());
}

#[test]
fn type_signatures_hold_params_and_results() {
    let signature = TypeSignature::new(ParamsSignature::Single(ValueType::I32), ParamsSignature::Void);
    assert!(matches!(signature.params, ParamsSignature::Single(ValueType::I32)));
    assert!(matches!(signature.duplicate().results, ParamsSignature::Void));
}

#[test]
fn value_types_map_onto_webassembly_types() {
    assert_eq!(parse_value_type(ValueType::U32), WasmValueType::I32);
    assert_eq!(parse_value_type(ValueType::HeapPointer), WasmValueType::I32);
    assert_eq!(parse_value_type(ValueType::FunctionPointer), WasmValueType::I32);
    assert_eq!(parse_value_type(ValueType::U64), WasmValueType::I64);
    assert_eq!(parse_value_type(ValueType::F32), WasmValueType::F32);
    assert_eq!(parse_value_type(ValueType::F64), WasmValueType::F64);
    assert_eq!(
        parse_value_types(&ParamsSignature::Pair(ValueType::I64, ValueType::HeapPointer)),
        vec![WasmValueType::I64, WasmValueType::I32]
    );
}

#[test]
fn block_types_use_the_short_form_where_they_can() {
    let void = TypeSignature::new(ParamsSignature::Void, ParamsSignature::Void);
    assert!(matches!(parse_block_type_signature(&void), WasmBlockSignature::Simple(None)));
    let single = TypeSignature::new(ParamsSignature::Void, ParamsSignature::Single(ValueType::F64));
    assert!(matches!(parse_block_type_signature(&single), WasmBlockSignature::Simple(Some(WasmValueType::F64))));
    let full = TypeSignature::new(ParamsSignature::Single(ValueType::I32), ParamsSignature::Single(ValueType::I64));
    match parse_block_type_signature(&full) {
        WasmBlockSignature::Function(params, results) => {
            assert_eq!(params, vec![WasmValueType::I32]);
            assert_eq!(results, vec![WasmValueType::I64]);
        },
        other => panic!("unexpected {:?}", other),
    }
    let (params, results) = parse_function_type_signature(&full);
    assert_eq!((params, results), (vec![WasmValueType::I32], vec![WasmValueType::I64]));
}

#[test]
fn signatures_convert_from_units_types_tuples_and_options() {
    let signature = TypeSignature::new(().into(), ValueType::U32.into());
    assert!(matches!(signature.params, ParamsSignature::Void));
    assert!(matches!(signature.results, ParamsSignature::Single(ValueType::U32)));
    let pair = TypeSignature::new((ValueType::HeapPointer, ValueType::U32).into(), ().into());
    assert!(matches!(pair.params, ParamsSignature::Pair(ValueType::HeapPointer, ValueType::U32)));
    assert!(matches!(pair.results, ParamsSignature::Void));
    let triple: ParamsSignature = (ValueType::I32, ValueType::I64, ValueType::F32).into();
    assert!(matches!(triple, ParamsSignature::Triple(ValueType::I32, ValueType::I64, ValueType::F32)));
    assert!(matches!(ParamsSignature::from(Some(ValueType::F64)), ParamsSignature::Single(ValueType::F64)));
    assert!(matches!(ParamsSignature::from(None::<ValueType>), ParamsSignature::Void));
}

#[test]
fn collecting_a_signature_gives_its_values_in_order() {
    let signature = ParamsSignature::Multiple(vec![ValueType::I32, ValueType::F64, ValueType::HeapPointer, ValueType::U64]);
    assert_eq!(
        signature.into_values(),
        vec![ValueType::I32, ValueType::F64, ValueType::HeapPointer, ValueType::U64]
    );
    let pair = ParamsSignature::Pair(ValueType::U32, ValueType::I64);
    let mut cursor = pair.iter();
    assert_eq!(cursor.next_back(), Some(ValueType::I64));
    assert_eq!(cursor.next_back(), Some(ValueType::U32));
    assert_eq!(cursor.next_back(), None);
    assert_eq!(ParamsSignature::Void.into_values(), Vec::<ValueType>::new());
}
