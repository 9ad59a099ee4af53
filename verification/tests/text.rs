use ewrs::paths::{char_is_separator, join_path, split_path, Style};
use ewrs::text::{
    char_is_space, chars_of, first_line_of, i32_to_string, nth_word, read_u32, scan_spaces,
    scan_word, u32_to_string,
};

fn chars(s: &str) -> Vec<char> {
    s.chars().collect()
}

fn word(s: &str, n: usize) -> Option<String> {
    let v = chars(s);
    nth_word(&v, n).map(|(a, b)| v[a..b].iter().collect())
}

fn number(s: &str) -> Option<u32> {
    let v = chars(s);
    read_u32(&v, 0, v.len())
}

#[test]
fn white_space_is_what_the_standard_library_says() {
    let mut c = 0u32;
    while c <= 0x10FFFF {
        if let Some(ch) = char::from_u32(c) {
            assert_eq!(char_is_space(ch), ch.is_whitespace(), "U+{:04X}", c);
        }
        c += 1;
    }
}

#[test]
fn chars_of_gives_every_character() {
    assert_eq!(chars_of(""), Vec::<char>::new());
    assert_eq!(chars_of("a\u{e9}\u{1F600}z"), vec!['a', '\u{e9}', '\u{1F600}', 'z']);
}

#[test]
fn scanning_stops_where_it_should() {
    let v = chars("  ab \t c");
    assert_eq!(scan_spaces(&v, 0), 2);
    assert_eq!(scan_spaces(&v, 2), 2);
    assert_eq!(scan_word(&v, 2), 4);
    assert_eq!(scan_word(&v, 4), 4);
    assert_eq!(scan_spaces(&v, 4), 7);
    assert_eq!(scan_word(&v, 7), 8);
    assert_eq!(scan_spaces(&v, 8), 8);
    assert_eq!(scan_word(&v, 8), 8);
}

#[test]
fn words_are_split_like_split_whitespace() {
    for s in ["", " ", "a", " a", "a ", "12345 6789 tcp", "  x\t\ty\u{3000}z\n", "\u{a0}q\u{85}r"] {
        let expected: Vec<&str> = s.split_whitespace().collect();
        for n in 0..expected.len() + 2 {
            assert_eq!(word(s, n).as_deref(), expected.get(n).copied(), "{:?} word {}", s, n);
        }
    }
    assert_eq!(nth_word(&chars("ab  cd"), 1), Some((4, 6)));
}

#[test]
fn first_line_ends_before_the_line_feed() {
    assert_eq!(first_line_of(""), chars(""));
    assert_eq!(first_line_of("abc"), chars("abc"));
    assert_eq!(first_line_of("abc\n"), chars("abc"));
    assert_eq!(first_line_of("abc\r\ndef\n"), chars("abc\r"));
    assert_eq!(first_line_of("\nabc"), chars(""));
}

#[test]
fn numbers_are_read_like_the_standard_library_reads_them() {
    for s in [
        "", "+", "-", "0", "+0", "-0", "7", "007", "+42", "++1", "4294967295", "4294967296",
        "04294967295", "99999999999999999999999", "00000000000000000000000000001", "12a", "a12",
        " 1", "1 ", "1_000", "\u{661}", "0x10", "+-1",
    ] {
        assert_eq!(number(s), s.parse::<u32>().ok(), "{:?}", s);
    }
    assert_eq!(number("6789"), Some(6789));
    assert_eq!(read_u32(&chars("ab 123 cd"), 3, 6), Some(123));
    assert_eq!(read_u32(&chars("ab 123 cd"), 3, 7), None);
    assert_eq!(read_u32(&chars("123"), 1, 1), None);
}

#[test]
fn numbers_are_written_in_decimal() {
    for n in [0u32, 1, 9, 10, 11, 99, 100, 1000, 6764, 65535, 4294967295] {
        assert_eq!(u32_to_string(n), n.to_string());
    }
    for n in [0i32, 1, -1, 9, -9, 10, -10, 255, -255, i32::MAX, i32::MIN] {
        assert_eq!(i32_to_string(n), n.to_string());
    }
    assert_eq!(u32_to_string(1000), "1000");
    assert_eq!(i32_to_string(-2147483648), "-2147483648");
}

#[test]
fn written_numbers_read_back() {
    for n in [0u32, 5, 10, 4294967295, 123456789] {
        assert_eq!(number(&u32_to_string(n)), Some(n));
    }
}

#[test]
fn separators_of_each_style() {
    assert!(char_is_separator(Style::Unix, '/'));
    assert!(!char_is_separator(Style::Unix, '\\'));
    assert!(char_is_separator(Style::Windows, '/'));
    assert!(char_is_separator(Style::Windows, '\\'));
    assert!(!char_is_separator(Style::Windows, ':'));
}

#[test]
fn joining_puts_one_separator_between() {
    assert_eq!(join_path(Style::Unix, "/tmp", "emacs1000"), "/tmp/emacs1000");
    assert_eq!(join_path(Style::Unix, "/run/user/1001/", "emacs"), "/run/user/1001/emacs");
    assert_eq!(join_path(Style::Unix, "", "emacs"), "emacs");
    assert_eq!(join_path(Style::Unix, "/", "emacs"), "/emacs");
    assert_eq!(join_path(Style::Unix, "a\\", "b"), "a\\/b");
    assert_eq!(join_path(Style::Windows, "C:\\Users\\Alice", ".emacs.d"), "C:\\Users\\Alice\\.emacs.d");
    assert_eq!(join_path(Style::Windows, "C:\\", "x"), "C:\\x");
    assert_eq!(join_path(Style::Windows, "C:/bin/", "x"), "C:/bin/x");
    assert_eq!(join_path(Style::Windows, "", "x"), "x");
    assert_eq!(join_path(Style::Unix, "d\u{e9}", "n"), "d\u{e9}/n");
}

#[test]
fn splitting_parts_at_the_last_separator() {
    let split = |style, p: &str| split_path(style, p);
    assert_eq!(
        split(Style::Windows, "C:\\emacs\\bin\\emacs.exe"),
        (String::from("C:\\emacs\\bin\\"), String::from("emacs.exe"))
    );
    assert_eq!(
        split(Style::Windows, "C:/emacs/bin\\emacs.exe"),
        (String::from("C:/emacs/bin\\"), String::from("emacs.exe"))
    );
    assert_eq!(split(Style::Windows, "emacs.exe"), (String::new(), String::from("emacs.exe")));
    assert_eq!(split(Style::Windows, "C:\\dir\\"), (String::from("C:\\dir\\"), String::new()));
    assert_eq!(split(Style::Windows, ""), (String::new(), String::new()));
    assert_eq!(split(Style::Unix, "/usr/bin/emacs"), (String::from("/usr/bin/"), String::from("emacs")));
    assert_eq!(split(Style::Unix, "a\\b"), (String::new(), String::from("a\\b")));
    for p in ["/usr/bin/emacs", "x", "/", "a/b/", "\u{e9}/\u{1F600}"] {
        let (dir, name) = split(Style::Unix, p);
        assert_eq!(join_path(Style::Unix, &dir, &name), p);
    }
}
