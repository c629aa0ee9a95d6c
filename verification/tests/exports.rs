use reflex_wasm::exports::{linear_memory_growth, pad_to_next, parse_string_timestamp, WASM_PAGE_SIZE};

#[test]
fn pad_to_next_counts_whole_intervals() {
    assert_eq!(pad_to_next(0, 4), 1);
    assert_eq!(pad_to_next(1, 4), 1);
    assert_eq!(pad_to_next(4, 4), 1);
    assert_eq!(pad_to_next(5, 4), 2);
    assert_eq!(pad_to_next(65536, WASM_PAGE_SIZE), 1);
    assert_eq!(pad_to_next(65537, WASM_PAGE_SIZE), 2);
}

#[test]
fn pad_to_next_is_the_least_cover() {
    for value in 1..200usize {
        let steps = pad_to_next(value, 7);
        assert!(steps * 7 >= value);
        assert!((steps - 1) * 7 < value);
    }
}

#[test]
fn memory_large_enough_does_not_grow() {
    assert_eq!(linear_memory_growth(65536, 65536), None);
    assert_eq!(linear_memory_growth(131072, 10), None);
}

#[test]
fn memory_grows_by_the_missing_pages() {
    assert_eq!(linear_memory_growth(65536, 65537), Some(1));
    assert_eq!(linear_memory_growth(0, 200_000), Some(4));
    assert_eq!(linear_memory_growth(100_000, 200_000), Some(3));
}

#[test]
fn timestamps_are_read_as_rfc3339() {
    assert_eq!(parse_string_timestamp("1970-01-01T00:00:01Z"), Some(1000));
    assert_eq!(parse_string_timestamp("1970-01-01T01:00:00+01:00"), Some(0));
}

#[test]
fn timestamps_without_offset_are_read_as_utc() {
    assert_eq!(parse_string_timestamp("1970-01-01T00:00:02.5"), Some(2500));
}

#[test]
fn other_text_is_no_timestamp() {
    assert_eq!(parse_string_timestamp("yesterday"), None);
    assert_eq!(parse_string_timestamp(""), None);
}
