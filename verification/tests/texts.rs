use morty_steam_auth::text::{
    begins_with, contains_text, decimal_text, ends_with, join, read_number, text_up_to, trim,
    trim_leading, trim_start,
};

#[test]
fn numbers_are_written_and_read_back() {
    for n in [0, 7, 10, 99, 100, 76561198000000001, u64::MAX] {
        assert_eq!(decimal_text(n), n.to_string());
        assert_eq!(read_number(&decimal_text(n)), Some(n));
    }
    for text in ["", "+", "-1", "1 ", "١", "18446744073709551616", "00", "+7"] {
        assert_eq!(read_number(text), text.parse().ok());
    }
}

#[test]
fn white_space_is_trimmed_as_elsewhere() {
    for text in ["", " ", " a b ", "\u{a0}x\u{3000}", "\u{200b}x", "\t\r\nx\u{85}"] {
        assert_eq!(trim(text), text.trim());
        assert_eq!(trim_start(text), text.trim_start());
    }
}

#[test]
fn pieces_are_found_as_elsewhere() {
    for (text, part) in [("abc", "bc"), ("abc", ""), ("", ""), ("ab", "abc"), ("äöü", "ö"), ("aab", "ab")] {
        assert_eq!(contains_text(text, part), text.contains(part));
        assert_eq!(begins_with(text, part), text.starts_with(part));
        assert_eq!(ends_with(text, part), text.ends_with(part));
    }
    assert_eq!(text_up_to("a,b,c", ','), "a");
    assert_eq!(text_up_to("abc", ','), "abc");
    assert_eq!(trim_leading(",,a,", ','), "a,");
    assert_eq!(join(&["a".to_owned(), "b".to_owned()], " · "), "a · b");
    assert_eq!(join(&[], ", "), "");
}
