use vstd::prelude::*;

use crate::allocator::VecAllocator;
use crate::pointer::{ArenaPointer, NULL_POINTER_ADDRESS};

verus! {

/// Splits a 64-bit value into its low and high 32-bit halves.
pub fn u64_to_chunks(value: u64) -> (result: [u32; 2])
    ensures
        result[0] == value % 0x1_0000_0000,
        result[1] == value / 0x1_0000_0000,
{
    let low = (value & 0xFFFF_FFFF) as u32;
    let high = (value >> 32) as u32;
    assert((value & 0xFFFF_FFFF) == value % 0x1_0000_0000) by (bit_vector);
    assert((value >> 32) == value / 0x1_0000_0000) by (bit_vector);
    [low, high]
}

/// Joins low and high 32-bit halves into a 64-bit value.
pub fn chunks_to_u64(chunks: [u32; 2]) -> (result: u64)
    ensures
        result == chunks[0] + chunks[1] * 0x1_0000_0000,
{
    let low = chunks[0];
    let high = chunks[1];
    let result = (low as u64) | ((high as u64) << 32);
    assert(((low as u64) | ((high as u64) << 32)) == low + high * 0x1_0000_0000) by (bit_vector);
    result
}

/// Splitting a 64-bit value into halves and joining them gives the value back.
pub proof fn law_chunks_round_trip(value: u64)
    ensures
        (value % 0x1_0000_0000) + (value / 0x1_0000_0000) * 0x1_0000_0000 == value,
{
}

/// A marker for a reference to an arena-allocated term of any type.
pub struct Term;

/// A marker for a reference to an arena-allocated tree term.
pub struct TreeTerm;

/// A typed reference to a value stored in a heap arena at `pointer`.
pub struct ArenaRef<'a, T> {
    pub arena: &'a VecAllocator,
    pub pointer: ArenaPointer,
    pub marker: core::marker::PhantomData<T>,
}

impl<'a, T> ArenaRef<'a, T> {
    /// A reference to the value at `pointer` in `arena`.
    pub fn new(arena: &'a VecAllocator, pointer: ArenaPointer) -> (result: ArenaRef<'a, T>)
        ensures
            result.arena == arena,
            result.pointer == pointer,
    {
        ArenaRef { arena, pointer, marker: core::marker::PhantomData }
    }

    /// Whether the arena holds the `count` words starting at this reference.
    pub open spec fn holds_words(&self, count: nat) -> bool {
        self.pointer.0 / 4 + count <= self.arena.0@.len()
    }

    /// The word `index` words into the referenced value.
    pub open spec fn word(&self, index: int) -> u32 {
        self.arena.0@[self.pointer.0 / 4 + index]
    }

    /// Reads the word `index` words into the referenced value.
    fn read_word(&self, index: usize) -> (result: u32)
        requires
            index < 8,
            self.holds_words((index + 1) as nat),
        ensures
            result == self.word(index as int),
    {
        self.arena.0[(self.pointer.0 / 4) as usize + index]
    }
}

/// The header of an arena-allocated array: the number of slots and the number in use.
#[derive(Debug, Clone, Copy, PartialEq, Eq, Structural)]
pub struct ArrayHeader {
    pub capacity: u32,
    pub length: u32,
}

/// The evaluation cache as laid out in the heap: the number of live entries followed by an
/// array of buckets.
#[derive(Debug, Clone, Copy, PartialEq, Eq, Structural)]
pub struct EvaluationCache {
    pub num_entries: u32,
    pub buckets: ArrayHeader,
}

/// One evaluation cache bucket as laid out in the heap: the cache key as two 32-bit halves
/// (low half first), a pointer to the cached value, and a pointer to its dependencies (null
/// when there are none).
#[derive(Debug, Clone, Copy)]
pub struct EvaluationCacheBucket {
    pub key: [u32; 2],
    pub value: ArenaPointer,
    pub dependencies: ArenaPointer,
}

impl EvaluationCacheBucket {
    /// A bucket that caches `value` (with its `dependencies`) under `key`.
    pub fn new(key: u64, value: ArenaPointer, dependencies: ArenaPointer) -> (result: EvaluationCacheBucket)
        ensures
            result.key[0] + result.key[1] * 0x1_0000_0000 == key,
            result.value == value,
            result.dependencies == dependencies,
    {
        EvaluationCacheBucket { key: u64_to_chunks(key), value, dependencies }
    }

    /// An empty bucket: key zero and both pointers uninitialized.
    pub fn uninitialized() -> (result: EvaluationCacheBucket)
        ensures
            result.key[0] == 0 && result.key[1] == 0,
            result.value.0 == NULL_POINTER_ADDRESS,
            result.dependencies.0 == NULL_POINTER_ADDRESS,
    {
        EvaluationCacheBucket {
            key: u64_to_chunks(0x0000000000000000),
            value: ArenaPointer::uninitialized(),
            dependencies: ArenaPointer::uninitialized(),
        }
    }
}

impl<'a> ArenaRef<'a, EvaluationCache> {
    /// The number of live entries recorded in the cache header.
    pub fn num_entries(&self) -> (result: usize)
        requires
            self.holds_words(3),
        ensures
            result == self.word(0),
    {
        self.read_word(0) as usize
    }

    /// The number of buckets in use, as recorded in the bucket array header.
    pub fn num_buckets(&self) -> (result: usize)
        requires
            self.holds_words(3),
        ensures
            result == self.word(2),
    {
        self.read_word(2) as usize
    }
}

impl<'a> ArenaRef<'a, EvaluationCacheBucket> {
    /// The bucket's cache key.
    pub fn key(&self) -> (result: u64)
        requires
            self.holds_words(4),
        ensures
            result == self.word(0) + self.word(1) * 0x1_0000_0000,
    {
        chunks_to_u64([self.read_word(0), self.read_word(1)])
    }

    /// The cached value.
    pub fn value(&self) -> (result: ArenaRef<'a, Term>)
        requires
            self.holds_words(4),
        ensures
            result.arena == self.arena,
            result.pointer.0 == self.word(2),
    {
        ArenaRef::new(self.arena, ArenaPointer(self.read_word(2)))
    }

    /// The dependencies of the cached value, or `None` when the pointer is null.
    pub fn dependencies(&self) -> (result: Option<ArenaRef<'a, TreeTerm>>)
        requires
            self.holds_words(4),
        ensures
            self.word(3) == NULL_POINTER_ADDRESS ==> result is None,
            self.word(3) != NULL_POINTER_ADDRESS ==> (result matches Some(dependencies)
                && dependencies.arena == self.arena && dependencies.pointer.0 == self.word(3)),
    {
        match ArenaPointer(self.read_word(3)).as_non_null() {
            Some(pointer) => Some(ArenaRef::new(self.arena, pointer)),
            None => None,
        }
    }
}

/// Reading the key of a bucket whose heap words hold the key halves of
/// `EvaluationCacheBucket::new(key, ..)` gives `key` back.
pub proof fn law_bucket_key_read_back<'a>(
    stored: ArenaRef<'a, EvaluationCacheBucket>,
    bucket: EvaluationCacheBucket,
    key: u64,
)
    requires
        bucket.key[0] + bucket.key[1] * 0x1_0000_0000 == key,
        stored.holds_words(4),
        stored.word(0) == bucket.key[0],
        stored.word(1) == bucket.key[1],
    ensures
        stored.word(0) + stored.word(1) * 0x1_0000_0000 == key,
{
}

} // verus!
