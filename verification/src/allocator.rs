use vstd::prelude::*;
use vstd::bytes::{spec_u32_from_le_bytes, spec_u32_to_le_bytes, u32_from_le_bytes, u32_to_le_bytes};

use crate::pointer::ArenaPointer;

verus! {

/// A pointer to a term within the heap arena.
pub type TermPointer = ArenaPointer;

/// `value` rounded up to the next multiple of 4.
pub open spec fn spec_pad_to_4(value: int) -> int {
    if value % 4 == 0 { value } else { value + (4 - value % 4) }
}

/// `value` rounded up to the next multiple of 4 bytes.
pub fn pad_to_4_byte_offset(value: usize) -> (result: usize)
    requires
        value <= usize::MAX - 3,
    ensures
        result == spec_pad_to_4(value as int),
        result % 4 == 0,
        value <= result < value + 4,
{
    if value == 0 {
        0
    } else {
        (((value - 1) / 4) + 1) * 4
    }
}

/// The little-endian bytes of a sequence of words.
pub open spec fn words_le_bytes(words: Seq<u32>) -> Seq<u8>
    decreases words.len(),
{
    if words.len() == 0 {
        Seq::empty()
    } else {
        words_le_bytes(words.drop_last()) + spec_u32_to_le_bytes(words.last())
    }
}

/// The words whose little-endian bytes are `bytes` (whose length is a multiple of 4).
pub open spec fn le_bytes_words(bytes: Seq<u8>) -> Seq<u32> {
    Seq::new(bytes.len() / 4, |i: int| spec_u32_from_le_bytes(bytes.subrange(4 * i, 4 * i + 4)))
}

/// An arena of 32-bit words, addressed by byte offsets.
pub trait ArenaAllocator: Sized {
    /// The words held by the arena.
    spec fn words(&self) -> Seq<u32>;

    /// The size of the arena in bytes.
    fn len(&self) -> (result: usize)
        requires
            self.words().len() * 4 <= usize::MAX,
        ensures
            result == self.words().len() * 4,
    ;

    /// Appends a value at the end of the arena and returns its offset. The value is given as
    /// the words of its full static layout, and `size` is the number of bytes it actually
    /// occupies: when that is less than the static layout, the unused tail is given back.
    fn allocate(&mut self, value: &[u32], size: usize) -> (result: TermPointer)
        requires
            (old(self).words().len() + value@.len()) * 4 <= u32::MAX,
            size <= usize::MAX - 3,
        ensures
            result.0 == old(self).words().len() * 4,
            final(self).words() == old(self).words() + (if spec_pad_to_4(size as int) < value@.len() * 4 {
                value@.subrange(0, spec_pad_to_4(size as int) / 4)
            } else {
                value@
            }),
    ;

    /// The word at byte offset `offset` (rounded down to a word boundary).
    fn get(&self, offset: TermPointer) -> (result: u32)
        requires
            (offset.0 / 4) < self.words().len(),
        ensures
            result == self.words()[(offset.0 / 4) as int],
    ;

    /// Overwrites the word at byte offset `offset` (rounded down to a word boundary).
    fn set(&mut self, offset: TermPointer, value: u32)
        requires
            (offset.0 / 4) < old(self).words().len(),
        ensures
            final(self).words() == old(self).words().update((offset.0 / 4) as int, value),
    ;

    /// `count` consecutive words starting at byte offset `offset`.
    fn slice(&self, offset: TermPointer, count: usize) -> (result: Vec<u32>)
        requires
            (offset.0 / 4) + count <= self.words().len(),
        ensures
            result@ == self.words().subrange((offset.0 / 4) as int, offset.0 / 4 + count),
    ;

    /// Grows the arena by `size` bytes (rounded up to whole words) of zeros; `offset` must be
    /// the current end of the arena.
    fn extend(&mut self, offset: TermPointer, size: usize)
        requires
            offset.0 == old(self).words().len() * 4,
            size <= usize::MAX - 3,
        ensures
            final(self).words() == old(self).words() + Seq::new((spec_pad_to_4(size as int) / 4) as nat, |i: int| 0u32),
    ;

    /// Shrinks the arena by `size` bytes (rounded up to whole words); `offset` must be the
    /// current end of the arena.
    fn shrink(&mut self, offset: TermPointer, size: usize)
        requires
            offset.0 == old(self).words().len() * 4,
            size <= usize::MAX - 3,
            spec_pad_to_4(size as int) <= offset.0,
        ensures
            final(self).words() == old(self).words().subrange(0, (offset.0 - spec_pad_to_4(size as int)) / 4),
    ;
}

/// A growable arena backed by a vector of words.
#[derive(Debug)]
pub struct VecAllocator(pub Vec<u32>);

impl VecAllocator {
    /// An arena holding `data`.
    pub fn from_vec_u32(data: Vec<u32>) -> (result: VecAllocator)
        ensures
            result.0@ == data@,
    {
        VecAllocator(data)
    }

    /// An empty arena.
    pub fn new() -> (result: VecAllocator)
        ensures
            result.0@ == Seq::<u32>::empty(),
    {
        VecAllocator(Vec::new())
    }

    /// The words of the arena.
    pub fn as_slice(&self) -> (result: &[u32])
        ensures
            result@ == self.0@,
    {
        self.0.as_slice()
    }

    /// The arena's words, giving up the arena.
    pub fn into_inner(self) -> (result: Vec<u32>)
        ensures
            result@ == self.0@,
    {
        self.0
    }

    /// The arena's storage reinterpreted as bytes with the same element count: the first
    /// `len` bytes of its little-endian bytes, where `len` is its number of words.
    pub fn as_bytes(&self) -> (result: Vec<u8>)
        ensures
            result@ == words_le_bytes(self.0@).take(self.0@.len() as int),
    {
        let mut result: Vec<u8> = Vec::new();
        let mut i: usize = 0;
        while i < self.0.len()
            invariant
                i <= self.0.len(),
                result@ == words_le_bytes(self.0@.subrange(0, i as int)),
                result@.len() == 4 * i,
            decreases self.0.len() - i,
        {
            let mut bytes = u32_to_le_bytes(self.0[i]);
            proof {
                let next = self.0@.subrange(0, i + 1);
                assert(next.drop_last() =~= self.0@.subrange(0, i as int));
            }
            result.append(&mut bytes);
            i = i + 1;
        }
        assert(self.0@.subrange(0, self.0.len() as int) =~= self.0@);
        result.truncate(self.0.len());
        assert(result@ =~= words_le_bytes(self.0@).take(self.0@.len() as int));
        result
    }

    /// The arena's storage reinterpreted as bytes, giving up the arena: as `as_bytes`, the
    /// first `len` little-endian bytes, where `len` is its number of words.
    pub fn into_bytes(self) -> (result: Vec<u8>)
        ensures
            result@ == words_le_bytes(self.0@).take(self.0@.len() as int),
    {
        self.as_bytes()
    }

    /// An arena whose words have the little-endian bytes `bytes` (a trailing partial word is
    /// left out).
    pub fn from_bytes(bytes: &[u8]) -> (result: VecAllocator)
        ensures
            result.0@ == le_bytes_words(bytes@),
    {
        let total = bytes.len();
        let n = total / 4;
        let mut data: Vec<u32> = Vec::new();
        let mut i: usize = 0;
        while i < n
            invariant
                total == bytes@.len(),
                n == total / 4,
                i <= n,
                data@ =~= Seq::new(i as nat, |j: int| spec_u32_from_le_bytes(bytes@.subrange(4 * j, 4 * j + 4))),
            decreases n - i,
        {
            assert(4 * i + 4 <= bytes@.len()) by (nonlinear_arith)
                requires i < n, n == total / 4, total == bytes@.len();
            let mut chunk: Vec<u8> = Vec::new();
            chunk.push(bytes[4 * i]);
            chunk.push(bytes[4 * i + 1]);
            chunk.push(bytes[4 * i + 2]);
            chunk.push(bytes[4 * i + 3]);
            assert(chunk@ =~= bytes@.subrange(4 * i as int, 4 * i + 4));
            data.push(u32_from_le_bytes(chunk.as_slice()));
            i = i + 1;
        }
        VecAllocator(data)
    }
}

impl ArenaAllocator for VecAllocator {
    open spec fn words(&self) -> Seq<u32> {
        self.0@
    }

    fn len(&self) -> (result: usize) {
        self.0.len() * 4
    }

    fn allocate(&mut self, value: &[u32], size: usize) -> (result: TermPointer) {
        let offset = ArenaPointer((self.0.len() * 4) as u32);
        let static_size = value.len() * 4;
        let actual_size = pad_to_4_byte_offset(size);
        let ghost start = self.0@;
        let start_len = self.0.len();
        let mut i: usize = 0;
        while i < value.len()
            invariant
                i <= value.len(),
                start_len == start.len(),
                self.0@ =~= start + value@.subrange(0, i as int),
            decreases value.len() - i,
        {
            self.0.push(value[i]);
            i = i + 1;
        }
        assert(value@.subrange(0, value.len() as int) =~= value@);
        if actual_size < static_size {
            let keep = start_len + actual_size / 4;
            self.0.truncate(keep);
            assert(self.0@ =~= start + value@.subrange(0, spec_pad_to_4(size as int) / 4));
        }
        offset
    }

    fn get(&self, offset: TermPointer) -> (result: u32) {
        self.0[(offset.0 / 4) as usize]
    }

    fn set(&mut self, offset: TermPointer, value: u32) {
        self.0.set((offset.0 / 4) as usize, value);
    }

    fn slice(&self, offset: TermPointer, count: usize) -> (result: Vec<u32>) {
        let start = (offset.0 / 4) as usize;
        let mut result: Vec<u32> = Vec::new();
        let mut i: usize = 0;
        while i < count
            invariant
                start == offset.0 / 4,
                start + count <= self.0@.len(),
                self.0@.len() == self.0.len(),
                i <= count,
                result@ =~= self.0@.subrange(start as int, start + i),
            decreases count - i,
        {
            result.push(self.0[start + i]);
            i = i + 1;
        }
        result
    }

    fn extend(&mut self, offset: TermPointer, size: usize) {
        let count = pad_to_4_byte_offset(size) / 4;
        let ghost start = self.0@;
        let mut i: usize = 0;
        while i < count
            invariant
                i <= count,
                self.0@ =~= start + Seq::new(i as nat, |j: int| 0u32),
            decreases count - i,
        {
            self.0.push(0);
            i = i + 1;
        }
    }

    fn shrink(&mut self, offset: TermPointer, size: usize) {
        let keep = ((offset.0 as usize) - pad_to_4_byte_offset(size)) / 4;
        self.0.truncate(keep);
    }
}

/// An arena laid out over a word buffer whose first word holds the arena's length.
pub struct SliceAllocator(pub Vec<u32>);

impl SliceAllocator {
    /// The arena's words (including the length header).
    pub fn data(&self) -> (result: &[u32])
        ensures
            result@ == self.0@,
    {
        self.0.as_slice()
    }

    /// The arena's length, as recorded in its header word.
    pub fn len(&self) -> (result: usize)
        requires
            self.0@.len() > 0,
        ensures
            result == self.0@[0],
    {
        self.0[0] as usize
    }

    /// Records `value` as the arena's length in its header word.
    pub fn set_len(&mut self, value: usize)
        requires
            old(self).0@.len() > 0,
            value <= u32::MAX,
        ensures
            final(self).0@ == old(self).0@.update(0, value as u32),
    {
        self.0.set(0, value as u32);
    }

    /// Shrinks the arena by `size` bytes; `offset` must be the current length.
    pub fn shrink(&mut self, offset: TermPointer, size: usize)
        requires
            old(self).0@.len() > 0,
            offset.0 == old(self).0@[0],
            size <= offset.0,
        ensures
            final(self).0@ == old(self).0@.update(0, (offset.0 - size) as u32),
    {
        self.set_len(offset.0 as usize - size);
    }
}

/// Writing the bytes of a word sequence and reading them back gives the words again.
pub proof fn law_bytes_round_trip(words: Seq<u32>)
    ensures
        words_le_bytes(words).len() == words.len() * 4,
        le_bytes_words(words_le_bytes(words)) == words,
    decreases words.len(),
{
    vstd::bytes::lemma_auto_spec_u32_to_from_le_bytes();
    if words.len() > 0 {
        law_bytes_round_trip(words.drop_last());
        let prefix = words_le_bytes(words.drop_last());
        let bytes = words_le_bytes(words);
        assert(bytes =~= prefix + spec_u32_to_le_bytes(words.last()));
        assert forall|i: int| 0 <= i < words.len() implies le_bytes_words(bytes)[i] == words[i] by {
            if i < words.len() - 1 {
                assert(bytes.subrange(4 * i, 4 * i + 4) =~= prefix.subrange(4 * i, 4 * i + 4));
                assert(le_bytes_words(prefix)[i] == words.drop_last()[i]);
            } else {
                assert(bytes.subrange(4 * i, 4 * i + 4) =~= spec_u32_to_le_bytes(words.last()));
            }
        }
        assert(le_bytes_words(bytes) =~= words);
    } else {
        assert(le_bytes_words(words_le_bytes(words)) =~= words);
    }
}

/// An arena made from a vector of words (`from_vec_u32`) holds exactly those words, so that
/// `as_slice` gives them back, and its size in bytes (`len`) is four times their number.
pub proof fn law_from_vec_round_trip(arena: VecAllocator, data: Seq<u32>)
    requires
        arena.0@ == data,
    ensures
        arena.words() == data,
        arena.words().len() * 4 == data.len() * 4,
{
}

} // verus!
