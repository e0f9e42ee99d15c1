use oled_text::DisplayError;
use oled_text::cache::CellCache;

#[test]
fn fresh_cache_is_dirty_for_valid_requests() {
    let cache = CellCache::new();
    for code in [0u8, 33, 96] {
        assert_eq!(cache.is_dirty(0, 0, code, 0), Ok(true));
        assert_eq!(cache.is_dirty(7, 20, code, 1), Ok(true));
    }
}

#[test]
fn set_records_the_exact_pair() {
    let mut cache = CellCache::new();
    cache.set(3, 10, 42, 1).unwrap();
    assert_eq!(cache.is_dirty(3, 10, 42, 1), Ok(false));
    // a different code, flag, or position still reads dirty
    assert_eq!(cache.is_dirty(3, 10, 42, 0), Ok(true));
    assert_eq!(cache.is_dirty(3, 10, 41, 1), Ok(true));
    assert_eq!(cache.is_dirty(3, 11, 42, 1), Ok(true));
}

#[test]
fn reset_clears_every_cell() {
    let mut cache = CellCache::new();
    cache.set(0, 0, 5, 1).unwrap();
    cache.set(7, 20, 9, 0).unwrap();
    cache.reset();
    for row in 0..8 {
        for col in 0..21 {
            assert_eq!(cache.is_dirty(row, col, 0, 0), Ok(false));
        }
    }
}

#[test]
fn positions_off_the_grid_are_refused() {
    let mut cache = CellCache::new();
    assert_eq!(cache.is_dirty(8, 0, 0, 0), Err(DisplayError::IndexOutOfBounds));
    assert_eq!(cache.is_dirty(0, 21, 0, 0), Err(DisplayError::IndexOutOfBounds));
    assert_eq!(cache.set(8, 0, 0, 0), Err(DisplayError::IndexOutOfBounds));
    assert_eq!(cache.set(0, 21, 0, 0), Err(DisplayError::IndexOutOfBounds));
    // the refused set left the grid untouched
    assert_eq!(cache.is_dirty(7, 20, 0, 0), Ok(true));
}
