use reflex_wasm::allocator::{pad_to_4_byte_offset, ArenaAllocator, SliceAllocator, VecAllocator};
use reflex_wasm::pointer::ArenaPointer;

#[test]
fn pad_to_4_rounds_up_to_word_boundaries() {
    assert_eq!(pad_to_4_byte_offset(0), 0);
    assert_eq!(pad_to_4_byte_offset(1), 4);
    assert_eq!(pad_to_4_byte_offset(4), 4);
    assert_eq!(pad_to_4_byte_offset(5), 8);
    assert_eq!(pad_to_4_byte_offset(13), 16);
}

#[test]
fn allocate_appends_values_and_returns_their_offsets() {
    let mut arena = VecAllocator::new();
    assert_eq!(arena.allocate(&[1, 2, 3], 12), ArenaPointer(0));
    assert_eq!(arena.allocate(&[4, 5], 5), ArenaPointer(12));
    assert_eq!(arena.as_slice(), &[1, 2, 3, 4, 5]);
    assert_eq!(arena.len(), 20);
}

#[test]
fn allocate_gives_back_the_unused_tail_of_a_static_layout() {
    let mut arena = VecAllocator::from_vec_u32(vec![9]);
    assert_eq!(arena.allocate(&[6, 7, 8], 4), ArenaPointer(4));
    assert_eq!(arena.as_slice(), &[9, 6]);
}

#[test]
fn get_set_and_slice_address_words_by_byte_offset() {
    let mut arena = VecAllocator::from_vec_u32(vec![10, 20, 30, 40]);
    assert_eq!(arena.get(ArenaPointer(4)), 20);
    assert_eq!(arena.get(ArenaPointer(7)), 20);
    arena.set(ArenaPointer(8), 33);
    assert_eq!(arena.slice(ArenaPointer(4), 2), vec![20, 33]);
    assert_eq!(arena.into_inner(), vec![10, 20, 33, 40]);
}

#[test]
fn extend_and_shrink_change_the_end_of_the_arena() {
    let mut arena = VecAllocator::from_vec_u32(vec![1, 2]);
    arena.extend(ArenaPointer(8), 6);
    assert_eq!(arena.as_slice(), &[1, 2, 0, 0]);
    arena.shrink(ArenaPointer(16), 5);
    assert_eq!(arena.as_slice(), &[1, 2]);
}

#[test]
fn bytes_reinterpret_the_words_with_the_same_count() {
    let arena = VecAllocator::from_vec_u32(vec![0x0403_0201, 0xDDCC_BBAA]);
    assert_eq!(arena.as_bytes(), vec![0x01, 0x02]);
    let bytes = vec![0x01, 0x02, 0x03, 0x04, 0xAA, 0xBB, 0xCC, 0xDD];
    let restored = VecAllocator::from_bytes(&bytes);
    assert_eq!(restored.as_slice(), &[0x0403_0201, 0xDDCC_BBAA]);
    assert_eq!(restored.into_bytes(), vec![0x01, 0x02]);
}

#[test]
fn from_bytes_leaves_out_a_trailing_partial_word() {
    let arena = VecAllocator::from_bytes(&[1, 0, 0, 0, 2, 0]);
    assert_eq!(arena.as_slice(), &[1]);
}

#[test]
fn slice_allocator_keeps_its_length_in_the_header_word() {
    let mut arena = SliceAllocator(vec![12, 7, 8]);
    assert_eq!(arena.len(), 12);
    arena.set_len(16);
    assert_eq!(arena.data(), &[16, 7, 8]);
    arena.shrink(ArenaPointer(16), 4);
    assert_eq!(arena.len(), 12);
}
