use ech_gui::platform::Platform;
use ech_gui::text::{chars_of, contains, joined, lines, rfind, same_text};

#[test]
fn chars_are_the_characters_in_order() {
    assert_eq!(chars_of("a:b"), vec!['a', ':', 'b']);
    assert_eq!(chars_of("本机"), vec!['本', '机']);
    assert_eq!(chars_of(""), Vec::<char>::new());
}

#[test]
fn same_text_compares_by_character() {
    assert!(same_text("", ""));
    assert!(same_text("abc", "abc"));
    assert!(!same_text("abc", "abd"));
    assert!(!same_text("abc", "ab"));
    assert!(!same_text("ab", "abc"));
    assert!(same_text("默认", "默认"));
}

#[test]
fn joined_concatenates() {
    assert_eq!(joined("启动进程失败: ", "denied"), "启动进程失败: denied");
    assert_eq!(joined("", ""), "");
    assert_eq!(joined("a", ""), "a");
}

#[test]
fn rfind_gives_the_last_position() {
    assert_eq!(rfind(&chars_of("a:b:c"), ':'), Some(3));
    assert_eq!(rfind(&chars_of(":"), ':'), Some(0));
    assert_eq!(rfind(&chars_of("abc"), ':'), None);
    assert_eq!(rfind(&chars_of(""), ':'), None);
    assert_eq!(rfind(&chars_of("本机:端口"), ':'), Some(2));
}

#[test]
fn contains_finds_a_text_anywhere() {
    assert!(contains("Enabled: Yes", "Enabled: Yes"));
    assert!(contains("xxEnabled: Yes", "Enabled: Yes"));
    assert!(contains("Enabled: Yesxx", "Yes"));
    assert!(contains("abc", ""));
    assert!(contains("", ""));
    assert!(!contains("", "a"));
    assert!(!contains("ab", "abc"));
    assert!(!contains("aab", "aba"));
    assert!(contains("aaab", "aab"));
}

#[test]
fn lines_end_at_line_feeds() {
    assert_eq!(lines("a\nb\nc"), vec!["a", "b", "c"]);
    assert_eq!(lines("a\nb\n"), vec!["a", "b"]);
    assert_eq!(lines("a\n\nb"), vec!["a", "", "b"]);
    assert_eq!(lines("\n"), vec![""]);
    assert_eq!(lines(""), Vec::<String>::new());
    assert_eq!(lines("one"), vec!["one"]);
}

#[test]
fn lines_drop_a_carriage_return_before_the_line_feed_only() {
    assert_eq!(lines("a\r\nb\r\n"), vec!["a", "b"]);
    assert_eq!(lines("a\r\r\nb"), vec!["a\r", "b"]);
    assert_eq!(lines("a\rb\nc\r"), vec!["a\rb", "c\r"]);
    assert_eq!(lines("\r\n"), vec![""]);
}

#[test]
fn lines_agree_with_the_standard_library() {
    for text in ["", "\n", "a", "a\n", "a\r\n", "a\r", "\r", "\n\n", "x\ny\r\nz\r", "\r\n\r\n", "é\n本\r\n"] {
        let expected: Vec<String> = text.lines().map(|l| l.to_string()).collect();
        assert_eq!(lines(text), expected);
    }
}

#[test]
fn unix_platforms_carry_permission_bits() {
    assert!(Platform::MacOS.is_unix());
    assert!(Platform::Other.is_unix());
    assert!(!Platform::Windows.is_unix());
}
