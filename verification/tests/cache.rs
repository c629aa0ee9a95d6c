use reflex_wasm::allocator::VecAllocator;
use reflex_wasm::cache::{
    chunks_to_u64, u64_to_chunks, ArenaRef, EvaluationCache, EvaluationCacheBucket,
};
use reflex_wasm::pointer::ArenaPointer;

#[test]
fn keys_split_into_low_and_high_halves() {
    assert_eq!(u64_to_chunks(0x1122_3344_5566_7788), [0x5566_7788, 0x1122_3344]);
    assert_eq!(chunks_to_u64([0x5566_7788, 0x1122_3344]), 0x1122_3344_5566_7788);
    assert_eq!(chunks_to_u64(u64_to_chunks(u64::MAX)), u64::MAX);
}

#[test]
fn new_bucket_holds_its_key_value_and_dependencies() {
    let bucket = EvaluationCacheBucket::new(0x0000_0002_0000_0001, ArenaPointer(8), ArenaPointer(16));
    assert_eq!(bucket.key, [1, 2]);
    assert_eq!(bucket.value, ArenaPointer(8));
    assert_eq!(bucket.dependencies, ArenaPointer(16));
}

#[test]
fn uninitialized_bucket_is_empty() {
    let bucket = EvaluationCacheBucket::uninitialized();
    assert_eq!(bucket.key, [0, 0]);
    assert_eq!(bucket.value, ArenaPointer::null());
    assert_eq!(bucket.dependencies, ArenaPointer::null());
}

#[test]
fn cache_header_reads_entry_and_bucket_counts() {
    let arena = VecAllocator::from_vec_u32(vec![99, 5, 8, 3]);
    let cache = ArenaRef::<EvaluationCache>::new(&arena, ArenaPointer(4));
    assert_eq!(cache.num_entries(), 5);
    assert_eq!(cache.num_buckets(), 3);
}

#[test]
fn bucket_reads_key_value_and_dependencies() {
    let arena = VecAllocator::from_vec_u32(vec![0xAAAA, 0x1, 0x40, 0xFFFF_FFFF, 7, 0, 0x80, 0x90]);
    let empty = ArenaRef::<EvaluationCacheBucket>::new(&arena, ArenaPointer(0));
    assert_eq!(empty.key(), 0x1_0000_AAAA);
    assert_eq!(empty.value().pointer, ArenaPointer(0x40));
    assert!(empty.dependencies().is_none());
    let full = ArenaRef::<EvaluationCacheBucket>::new(&arena, ArenaPointer(16));
    assert_eq!(full.key(), 7);
    assert_eq!(full.dependencies().map(|deps| deps.pointer), Some(ArenaPointer(0x90)));
}
