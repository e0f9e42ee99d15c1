use oled_text::DisplayError;
use oled_text::encoder::encode_glyph_payload;
use oled_text::glyph::glyph;

#[test]
fn space_glyph_is_blank() {
    assert_eq!(glyph(0), Ok([0x00, 0x00, 0x00, 0x00, 0x00]));
}

#[test]
fn degree_sign_is_the_last_entry() {
    assert_eq!(glyph(96), Ok([0x00, 0x02, 0x05, 0x02, 0x00]));
    assert_eq!(glyph(97), Err(DisplayError::InvalidCharacter));
    assert_eq!(glyph(255), Err(DisplayError::InvalidCharacter));
}

#[test]
fn table_covers_exactly_97_codes() {
    for code in 0u8..=96 {
        assert!(glyph(code).is_ok(), "code {} missing", code);
    }
    for code in 97u8..=255 {
        assert_eq!(glyph(code), Err(DisplayError::InvalidCharacter));
    }
}

#[test]
fn capital_a_glyph_matches_the_font() {
    // 'A' is raw byte 65, table code 33
    assert_eq!(glyph(33), Ok([0x7E, 0x11, 0x11, 0x11, 0x7E]));
}

#[test]
fn inverse_payload_complements_every_byte() {
    for code in [0u8, 33, 64, 96] {
        let g = glyph(code).unwrap();
        let normal = encode_glyph_payload(&g, false);
        let inverted = encode_glyph_payload(&g, true);
        assert_eq!(normal.len(), 6);
        assert_eq!(inverted.len(), 6);
        for j in 0..6 {
            assert_eq!(inverted[j], !normal[j], "byte {} of code {}", j, code);
        }
        assert_eq!(normal[5], 0x00);
        assert_eq!(inverted[5], 0xFF);
    }
}

#[test]
fn normal_payload_is_the_glyph_plus_spacer() {
    let g = glyph(33).unwrap();
    let normal = encode_glyph_payload(&g, false);
    assert_eq!(normal, vec![0x7E, 0x11, 0x11, 0x11, 0x7E, 0x00]);
    let inverted = encode_glyph_payload(&g, true);
    assert_eq!(inverted, vec![0x81, 0xEE, 0xEE, 0xEE, 0x81, 0xFF]);
}
