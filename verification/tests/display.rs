use oled_text::DisplayError;
use oled_text::driver::Display;
use oled_text::encoder::BusOp;

const INIT_BYTES: [u8; 25] = [
    0xAE, 0xD5, 0x80, 0xA8, 0x3F, 0xD3, 0x00, 0x40, 0x8D, 0x14, 0x20, 0x01, 0xA1, 0xC8, 0xDA,
    0x12, 0x81, 0xCF, 0xD9, 0xF1, 0xDB, 0x40, 0xA4, 0xA6, 0xAF,
];

fn command_bytes(op: &BusOp) -> &Vec<u8> {
    match op {
        BusOp::Command(b) => b,
        BusOp::Data(_) => panic!("expected a command write"),
    }
}

fn data_bytes(op: &BusOp) -> &Vec<u8> {
    match op {
        BusOp::Command(_) => panic!("expected a data write"),
        BusOp::Data(b) => b,
    }
}

fn ready_display() -> Display {
    let mut d = Display::new();
    d.init();
    d.clear(0x00).unwrap();
    d
}

#[test]
fn operations_before_init_are_refused() {
    let mut d = Display::new();
    assert_eq!(d.clear(0x00).unwrap_err(), DisplayError::NotInitialized);
    assert_eq!(
        d.draw_text(0, 0, 0, b"HI").unwrap_err(),
        DisplayError::NotInitialized
    );
}

#[test]
fn init_emits_the_fixed_sequence() {
    let mut d = Display::new();
    let ops = d.init();
    assert_eq!(ops.len(), 1);
    assert_eq!(command_bytes(&ops[0]), &INIT_BYTES.to_vec());
}

#[test]
fn clear_emits_window_and_full_frame() {
    let mut d = Display::new();
    d.init();
    let ops = d.clear(0x5A).unwrap();
    assert_eq!(ops.len(), 2);
    assert_eq!(command_bytes(&ops[0]), &vec![0x21, 0, 127, 0x22, 0, 7]);
    assert_eq!(data_bytes(&ops[1]), &vec![0x5A; 1024]);
}

#[test]
fn clear_leaves_every_cell_clean() {
    let mut d = Display::new();
    d.init();
    d.draw_text(3, 4, 1, b"XYZ").unwrap();
    d.clear(0x00).unwrap();
    for row in 0..8 {
        for col in 0..21 {
            assert_eq!(d.is_dirty(row, col, 0, 0), Ok(false));
        }
    }
}

#[test]
fn second_identical_draw_is_silent() {
    let mut d = ready_display();
    let first = d.draw_text(2, 5, 1, b"HELLO").unwrap();
    assert_eq!(first.len(), 10);
    let second = d.draw_text(2, 5, 1, b"HELLO").unwrap();
    assert!(second.is_empty());
}

#[test]
fn changed_cells_are_rewritten_after_a_matching_draw() {
    let mut d = ready_display();
    d.draw_text(2, 5, 0, b"AB").unwrap();
    // same text, now inverted: both cells differ again
    let ops = d.draw_text(2, 5, 1, b"AB").unwrap();
    assert_eq!(ops.len(), 4);
}

#[test]
fn only_the_changed_cell_is_written() {
    let mut d = ready_display();
    d.draw_text(0, 0, 0, b"AB").unwrap();
    let ops = d.draw_text(0, 0, 0, b"AC").unwrap();
    // one cell changed: its window and its payload
    assert_eq!(ops.len(), 2);
    assert_eq!(command_bytes(&ops[0]), &vec![0x21, 6, 127, 0x22, 0, 0]);
}

#[test]
fn full_row_touches_all_21_columns_and_no_others() {
    let mut d = ready_display();
    let text = b"ABCDEFGHIJKLMNOPQRSTU";
    assert_eq!(text.len(), 21);
    let ops = d.draw_text(4, 0, 0, text).unwrap();
    // the cleared cache differs everywhere, so every cell is written
    assert_eq!(ops.len(), 42);
    let mut columns = Vec::new();
    for pair in ops.chunks(2) {
        let window = command_bytes(&pair[0]);
        assert_eq!(window.len(), 6);
        assert_eq!(window[0], 0x21);
        assert_eq!(window[2], 127);
        assert_eq!(window[3], 0x22);
        assert_eq!(window[4], 4);
        assert_eq!(window[5], 4);
        assert_eq!(window[1] % 6, 0);
        columns.push(window[1] / 6);
        assert_eq!(data_bytes(&pair[1]).len(), 6);
    }
    let expected: Vec<u8> = (0..21).collect();
    assert_eq!(columns, expected);
    // every other cell still reads clean for the cleared value
    for row in 0..8 {
        for col in 0..21 {
            if row != 4 {
                assert_eq!(d.is_dirty(row, col, 0, 0), Ok(false));
            }
        }
    }
}

#[test]
fn text_past_the_right_edge_is_rejected() {
    let mut d = ready_display();
    assert_eq!(
        d.draw_text(0, 20, 0, b"AB").unwrap_err(),
        DisplayError::IndexOutOfBounds
    );
    // the rejected request left no trace in the cache
    assert_eq!(d.is_dirty(0, 20, 0, 0), Ok(false));
    // a single character still fits in the last column
    assert!(d.draw_text(0, 20, 0, b"A").is_ok());
}

#[test]
fn positions_off_the_grid_are_rejected() {
    let mut d = ready_display();
    assert_eq!(
        d.draw_text(8, 0, 0, b"A").unwrap_err(),
        DisplayError::IndexOutOfBounds
    );
    assert_eq!(
        d.draw_text(0, 21, 0, b"").unwrap_err(),
        DisplayError::IndexOutOfBounds
    );
    assert_eq!(d.is_dirty(8, 0, 0, 0), Err(DisplayError::IndexOutOfBounds));
}

#[test]
fn bytes_outside_the_table_are_rejected() {
    let mut d = ready_display();
    assert_eq!(
        d.draw_text(0, 0, 0, &[0x1F]).unwrap_err(),
        DisplayError::InvalidCharacter
    );
    assert_eq!(
        d.draw_text(0, 0, 0, &[0x41, 0x81]).unwrap_err(),
        DisplayError::InvalidCharacter
    );
    // the whole request is refused: the valid first byte was not drawn
    assert_eq!(d.is_dirty(0, 0, 0x41 - 32, 0), Ok(true));
    // the two codes past ASCII tilde are valid
    assert!(d.draw_text(0, 0, 0, &[0x7F, 0x80]).is_ok());
}

#[test]
fn end_to_end_hello_emits_the_exact_bytes() {
    let mut d = Display::new();

    let init_ops = d.init();
    assert_eq!(init_ops.len(), 1);
    assert_eq!(command_bytes(&init_ops[0]), &INIT_BYTES.to_vec());

    let clear_ops = d.clear(0x00).unwrap();
    assert_eq!(clear_ops.len(), 2);
    assert_eq!(command_bytes(&clear_ops[0]), &vec![0x21, 0, 127, 0x22, 0, 7]);
    assert_eq!(data_bytes(&clear_ops[1]), &vec![0x00; 1024]);

    let ops = d.draw_text(0, 0, 0, b"HELLO").unwrap();
    assert_eq!(ops.len(), 10);
    let glyphs: [[u8; 5]; 5] = [
        [0x7F, 0x08, 0x08, 0x08, 0x7F], // H
        [0x7F, 0x49, 0x49, 0x49, 0x41], // E
        [0x7F, 0x40, 0x40, 0x40, 0x40], // L
        [0x7F, 0x40, 0x40, 0x40, 0x40], // L
        [0x3E, 0x41, 0x41, 0x41, 0x3E], // O
    ];
    for (i, g) in glyphs.iter().enumerate() {
        let window = command_bytes(&ops[2 * i]);
        assert_eq!(window, &vec![0x21, 6 * i as u8, 127, 0x22, 0, 0]);
        let payload = data_bytes(&ops[2 * i + 1]);
        let expected: Vec<u8> = g.iter().copied().chain([0x00]).collect();
        assert_eq!(payload, &expected);
    }
}

#[test]
fn inverse_draw_sends_complemented_bytes() {
    let mut d = ready_display();
    let ops = d.draw_text(7, 3, 1, b"H").unwrap();
    assert_eq!(ops.len(), 2);
    assert_eq!(command_bytes(&ops[0]), &vec![0x21, 18, 127, 0x22, 7, 7]);
    assert_eq!(
        data_bytes(&ops[1]),
        &vec![!0x7Fu8, !0x08, !0x08, !0x08, !0x7F, 0xFF]
    );
}

#[test]
fn inverse_flag_other_than_one_renders_normally() {
    let mut d = ready_display();
    let ops = d.draw_text(0, 0, 2, b"H").unwrap();
    assert_eq!(ops.len(), 2);
    assert_eq!(
        data_bytes(&ops[1]),
        &vec![0x7F, 0x08, 0x08, 0x08, 0x7F, 0x00]
    );
    // and it caches as the normal rendering
    let second = d.draw_text(0, 0, 0, b"H").unwrap();
    assert!(second.is_empty());
}

#[test]
fn fresh_display_treats_every_cell_as_dirty() {
    let mut d = Display::new();
    d.init();
    // no clear yet: even a space must be written out
    let ops = d.draw_text(0, 0, 0, b" ").unwrap();
    assert_eq!(ops.len(), 2);
}
