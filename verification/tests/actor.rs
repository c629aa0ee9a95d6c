use reflex_wasm::actor::wasm_interpreter::WasmInterpreterMetricNames;

#[test]
fn default_metric_names_follow_the_field_names() {
    let names = WasmInterpreterMetricNames::default();
    assert_eq!(names.query_worker_compile_duration, "query_worker_compile_duration");
    assert_eq!(names.query_worker_evaluate_duration, "query_worker_evaluate_duration");
    assert_eq!(names.query_worker_gc_duration, "query_worker_gc_duration");
    assert_eq!(names.query_worker_state_dependency_count, "query_worker_state_dependency_count");
    assert_eq!(names.query_worker_evaluation_cache_entry_count, "query_worker_evaluation_cache_entry_count");
    assert_eq!(names.query_worker_evaluation_cache_deep_size, "query_worker_evaluation_cache_deep_size");
}
