use reflex_wasm::pointer::{ArenaPointer, NULL_POINTER_ADDRESS};

#[test]
fn null_pointer_is_all_ones() {
    assert_eq!(ArenaPointer::null(), ArenaPointer(NULL_POINTER_ADDRESS));
    assert_eq!(ArenaPointer::null(), ArenaPointer(0xFFFF_FFFF));
    assert_eq!(ArenaPointer::uninitialized(), ArenaPointer::null());
    assert!(ArenaPointer::null().is_null());
    assert!(!ArenaPointer(0).is_null());
}

#[test]
fn as_non_null_leaves_out_the_null_pointer() {
    assert_eq!(ArenaPointer::null().as_non_null(), None);
    assert_eq!(ArenaPointer(8).as_non_null(), Some(ArenaPointer(8)));
}

#[test]
fn offset_adds_bytes() {
    assert_eq!(ArenaPointer(8).offset(4), ArenaPointer(12));
}
