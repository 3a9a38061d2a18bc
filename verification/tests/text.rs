use get_selected_text::text::{char_is_whitespace, chars_of, latin1_string, split_on, trimmed};

#[test]
fn chars_of_gives_every_character() {
    assert_eq!(chars_of("añ€😀"), vec!['a', 'ñ', '€', '😀']);
    assert_eq!(chars_of(""), Vec::<char>::new());
}

#[test]
fn latin1_maps_each_byte_to_its_code_point() {
    assert_eq!(latin1_string(&vec![0x41, 0xE9, 0xFF, 0x00]), "A\u{e9}\u{ff}\u{0}");
    assert_eq!(latin1_string(&vec![]), "");
    // Two bytes that encode one character in UTF-8 are two characters here.
    assert_eq!(latin1_string(&vec![0xC3, 0xA9]), "\u{c3}\u{a9}");
}

#[test]
fn whitespace_is_the_unicode_property() {
    let white = [
        '\u{9}', '\u{a}', '\u{b}', '\u{c}', '\u{d}', ' ', '\u{85}', '\u{a0}', '\u{1680}',
        '\u{2000}', '\u{2005}', '\u{200a}', '\u{2028}', '\u{2029}', '\u{202f}', '\u{205f}',
        '\u{3000}',
    ];
    for c in white {
        assert!(char_is_whitespace(c), "{:?}", c);
    }
    for c in ['a', '\u{8}', '\u{e}', '\u{1f}', '\u{200b}', '\u{180e}', '\u{feff}', '0', '\u{0}'] {
        assert!(!char_is_whitespace(c), "{:?}", c);
    }
}

#[test]
fn whitespace_agrees_with_std_on_every_character() {
    for u in 0..=0x10FFFFu32 {
        if let Some(c) = char::from_u32(u) {
            assert_eq!(char_is_whitespace(c), c.is_whitespace(), "{:?}", c);
        }
    }
}

#[test]
fn trimmed_removes_both_ends_only() {
    assert_eq!(trimmed("  a b \n"), "a b");
    assert_eq!(trimmed("\u{3000}x\u{a0}"), "x");
    assert_eq!(trimmed("   "), "");
    assert_eq!(trimmed(""), "");
    assert_eq!(trimmed("abc"), "abc");
    assert_eq!(trimmed("\n\"/a b\"\n\"/c\"\n"), "\"/a b\"\n\"/c\"");
}

#[test]
fn trimmed_agrees_with_std() {
    for s in ["", " ", "a", " a", "a ", "\t a \u{2003}b\r\n", "\u{200b} x", "é \u{85}"] {
        assert_eq!(trimmed(s), s.trim());
    }
}

#[test]
fn split_keeps_empty_fields() {
    assert_eq!(split_on("", '\n'), vec![""]);
    assert_eq!(split_on("a", '\n'), vec!["a"]);
    assert_eq!(split_on("a\nb\nc", '\n'), vec!["a", "b", "c"]);
    assert_eq!(split_on("a\n", '\n'), vec!["a", ""]);
    assert_eq!(split_on("\na", '\n'), vec!["", "a"]);
    assert_eq!(split_on("\n\n", '\n'), vec!["", "", ""]);
}

#[test]
fn split_agrees_with_std_and_joins_back() {
    for s in ["", "x", "\n", "a\nb", "a\n\nb\n", "é\n€", "no newline at all"] {
        let parts = split_on(s, '\n');
        let expected: Vec<String> = s.split('\n').map(|p| p.to_owned()).collect();
        assert_eq!(parts, expected);
        assert_eq!(parts.len(), s.matches('\n').count() + 1);
        assert_eq!(parts.join("\n"), s);
        assert!(parts.iter().all(|p| !p.contains('\n')));
    }
}
