use vstd::prelude::*;

verus! {

/// The names under which the interpreter actor reports its metrics.
#[derive(Clone, Copy, Debug)]
pub struct WasmInterpreterMetricNames {
    pub query_worker_compile_duration: &'static str,
    pub query_worker_evaluate_duration: &'static str,
    pub query_worker_gc_duration: &'static str,
    pub query_worker_state_dependency_count: &'static str,
    pub query_worker_evaluation_cache_entry_count: &'static str,
    pub query_worker_evaluation_cache_deep_size: &'static str,
}

impl Default for WasmInterpreterMetricNames {
    /// Each metric named after its field.
    fn default() -> (result: WasmInterpreterMetricNames)
        ensures
            result.query_worker_compile_duration@ == "query_worker_compile_duration"@,
            result.query_worker_evaluate_duration@ == "query_worker_evaluate_duration"@,
            result.query_worker_gc_duration@ == "query_worker_gc_duration"@,
            result.query_worker_state_dependency_count@ == "query_worker_state_dependency_count"@,
            result.query_worker_evaluation_cache_entry_count@ == "query_worker_evaluation_cache_entry_count"@,
            result.query_worker_evaluation_cache_deep_size@ == "query_worker_evaluation_cache_deep_size"@,
    {
        WasmInterpreterMetricNames {
            query_worker_compile_duration: "query_worker_compile_duration",
            query_worker_evaluate_duration: "query_worker_evaluate_duration",
            query_worker_gc_duration: "query_worker_gc_duration",
            query_worker_state_dependency_count: "query_worker_state_dependency_count",
            query_worker_evaluation_cache_deep_size: "query_worker_evaluation_cache_deep_size",
            query_worker_evaluation_cache_entry_count: "query_worker_evaluation_cache_entry_count",
        }
    }
}

} // verus!
