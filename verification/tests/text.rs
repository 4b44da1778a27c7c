use zcode_glm::text::is_whitespace_char;
use zcode_glm::text::trim_end_matches_char;
use zcode_glm::text::trim_whitespace;

#[test]
fn trim_whitespace_matches_str_trim() {
    let samples = [
        "",
        "   ",
        "  glm-pasted-key\n",
        "\tkey with inner space\r\n",
        "\u{3000}全角\u{a0}",
        "no-space",
        "\u{2028}x\u{85}",
    ];
    for s in samples {
        assert_eq!(trim_whitespace(s), s.trim(), "input {s:?}");
    }
}

#[test]
fn trim_end_matches_char_matches_std() {
    for s in ["a//", "//a", "", "/", "a/b/", "ä/"] {
        assert_eq!(trim_end_matches_char(s, '/'), s.trim_end_matches('/'), "input {s:?}");
    }
}

#[test]
fn whitespace_is_unicode_white_space() {
    for u in 0u32..=0x3100 {
        if let Some(c) = char::from_u32(u) {
            assert_eq!(is_whitespace_char(c), c.is_whitespace(), "char {u:#x}");
        }
    }
}
