use pawgate::text::{chars_of, is_whitespace_char, trim_slice};

fn trimmed(text: &str) -> String {
    let chars: Vec<char> = text.chars().collect();
    trim_slice(&chars).iter().collect()
}

#[test]
fn white_space_is_what_the_standard_library_calls_white_space() {
    for code in 0..=0x10FFFFu32 {
        if let Some(c) = char::from_u32(code) {
            assert_eq!(is_whitespace_char(c), c.is_whitespace(), "U+{:04X}", code);
        }
    }
}

#[test]
fn trimming_is_what_the_standard_library_does() {
    let samples = [
        "",
        " ",
        " \t\r\n",
        "a",
        " a",
        "a ",
        "  ctrl  ",
        "\u{a0}page up\u{3000}",
        " a b ",
        "\u{200b}a\u{200b}",
        "\u{2000}\u{2001}x\u{2028}\u{2029}\u{202f}\u{205f}",
        "\u{85}\u{1680}y\u{b}\u{c}",
    ];
    for sample in samples {
        assert_eq!(trimmed(sample), sample.trim(), "{:?}", sample);
    }
    assert_eq!(trimmed("  ctrl  "), "ctrl");
    assert_eq!(trimmed(" a b "), "a b");
    assert_eq!(trimmed(" \t "), "");
}

#[test]
fn the_characters_of_a_text_come_in_order() {
    assert_eq!(chars_of(""), Vec::<char>::new());
    assert_eq!(chars_of("ctrl+b"), vec!['c', 't', 'r', 'l', '+', 'b']);
    assert_eq!(chars_of("\u{e9}\u{1F600}z"), vec!['\u{e9}', '\u{1F600}', 'z']);
}
