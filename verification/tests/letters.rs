use oled_text::letters::AsciiLetter;
use oled_text::letters::generate_string;

#[test]
fn generator_starts_at_capital_a() {
    let mut letter = AsciiLetter::new();
    assert_eq!(letter.get_and_increment(), 65);
    assert_eq!(letter.get_and_increment(), 66);
}

#[test]
fn generator_wraps_from_y_to_space() {
    let mut letter = AsciiLetter::new();
    let mut last: u8 = 0;
    // step up to 'y' (121), the last code before the wrap
    for _ in 0..57 {
        last = letter.get_and_increment();
    }
    assert_eq!(last, 121);
    assert_eq!(letter.get_and_increment(), 32);
    assert_eq!(letter.get_and_increment(), 33);
}

#[test]
fn generated_string_is_one_row_of_consecutive_codes() {
    let mut letter = AsciiLetter::new();
    let s = generate_string(&mut letter);
    assert_eq!(s, "ABCDEFGHIJKLMNOPQRSTU");
    let s2 = generate_string(&mut letter);
    assert_eq!(s2, "VWXYZ[\\]^_`abcdefghij");
    assert_eq!(letter.get_and_increment(), b'k');
}
