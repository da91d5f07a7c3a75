use print_my_bridge::text::char_is_space;
use print_my_bridge::text::chars_of;
use print_my_bridge::text::clone_texts;
use print_my_bridge::text::contains;
use print_my_bridge::text::contains_text;
use print_my_bridge::text::decimal_text;
use print_my_bridge::text::find;
use print_my_bridge::text::find_first_word;
use print_my_bridge::text::matches_at;
use print_my_bridge::text::split_lines;
use print_my_bridge::text::starts_with;
use print_my_bridge::text::strip_prefix;
use print_my_bridge::text::strip_through;

const SAMPLES: [&str; 16] = [
    "",
    "\n",
    "\r\n",
    "a",
    "a\n",
    "a\r\n",
    "a\r",
    "a\rb\n",
    "one\ntwo\nthree",
    "one\r\ntwo\r\n\r\nthree\r\n",
    "\n\nx",
    "x\n\n",
    "\r\r\n",
    "printer Office_Printer is idle.  enabled since Mon 01 Jan\n\tready to print\n",
    "système par défaut\u{a0}: été\n",
    "  leading and trailing  \n",
];

#[test]
fn split_lines_agrees_with_the_standard_library() {
    for text in SAMPLES {
        let expected: Vec<String> = text.lines().map(|l| l.to_string()).collect();
        assert_eq!(split_lines(text), expected, "lines of {:?}", text);
    }
}

#[test]
fn split_lines_strips_one_carriage_return_before_a_line_feed() {
    assert_eq!(split_lines("a\r\r\nb"), vec!["a\r".to_string(), "b".to_string()]);
    assert_eq!(split_lines("a\r"), vec!["a\r".to_string()]);
    assert_eq!(split_lines("\n"), vec!["".to_string()]);
    assert_eq!(split_lines(""), Vec::<String>::new());
}

#[test]
fn first_word_agrees_with_split_whitespace() {
    let texts = [
        "",
        " ",
        "word",
        "  word  next",
        "\t\n word",
        "\u{a0}\u{2003}word\u{3000}next",
        "\u{85}x",
        "a\u{200b}b c",
        "\u{1680}\u{2028}\u{2029}\u{202f}\u{205f}",
    ];
    for text in texts {
        let expected = text.split_whitespace().next().map(|w| w.to_string());
        assert_eq!(find_first_word(text), expected, "first word of {:?}", text);
    }
}

#[test]
fn char_is_space_agrees_with_the_standard_library() {
    let mut code = 0u32;
    while code <= 0x10FFFF {
        if let Some(c) = char::from_u32(code) {
            assert_eq!(char_is_space(c), c.is_whitespace(), "U+{:04X}", code);
        }
        code += 1;
    }
}

#[test]
fn contains_and_starts_with_agree_with_the_standard_library() {
    let texts = ["", "a", "abc", "aab", "printer is idle", "is idl", "xis idle", "ééé is busy"];
    let patterns = ["", "a", "ab", "b", "is idle", "is busy", "é", "abcd"];
    for text in texts {
        for pattern in patterns {
            assert_eq!(contains(text, pattern), text.contains(pattern), "{:?} in {:?}", pattern, text);
            assert_eq!(
                starts_with(text, pattern),
                text.starts_with(pattern),
                "{:?} before {:?}",
                pattern,
                text
            );
        }
    }
}

#[test]
fn find_gives_the_least_index() {
    let text = chars_of("abcabc");
    assert_eq!(find(&text, &chars_of("bc")), Some(1));
    assert_eq!(find(&text, &chars_of("abc")), Some(0));
    assert_eq!(find(&text, &chars_of("")), Some(0));
    assert_eq!(find(&text, &chars_of("cb")), None);
    assert_eq!(find(&text, &chars_of("abcabca")), None);
    assert_eq!(find(&chars_of(""), &chars_of("")), Some(0));
}

#[test]
fn matches_at_checks_one_position() {
    let text = chars_of("héllo");
    assert!(matches_at(&text, &chars_of("llo"), 2));
    assert!(!matches_at(&text, &chars_of("llo"), 1));
    assert!(!matches_at(&text, &chars_of("llo"), 3));
    assert!(matches_at(&text, &chars_of(""), 5));
    assert!(!matches_at(&text, &chars_of(""), 6));
    assert!(!matches_at(&text, &chars_of("x"), usize::MAX));
}

#[test]
fn chars_of_counts_characters_not_bytes() {
    assert_eq!(chars_of("hé"), vec!['h', 'é']);
    assert_eq!(chars_of(""), Vec::<char>::new());
}

#[test]
fn strip_prefix_returns_the_rest() {
    assert_eq!(strip_prefix("printer X", "printer "), Some("X".to_string()));
    assert_eq!(strip_prefix("printer ", "printer "), Some("".to_string()));
    assert_eq!(strip_prefix("printer", "printer "), None);
    assert_eq!(strip_prefix("éa éb", "éa "), Some("éb".to_string()));
    assert_eq!(strip_prefix("abc", ""), Some("abc".to_string()));
}

#[test]
fn strip_through_returns_what_follows_the_first_occurrence() {
    let texts = ["", ":", "a:b", "a:b:c", "no colon", "é: ü", "::", "end:"];
    for text in texts {
        let expected = text.split_once(':').map(|(_, rest)| rest.to_string());
        assert_eq!(strip_through(text, ':'), expected, "after the colon of {:?}", text);
    }
    assert_eq!(strip_through("a:b:c", ':'), Some("b:c".to_string()));
    assert_eq!(strip_through("aéb", 'é'), Some("b".to_string()));
}

#[test]
fn decimal_text_agrees_with_display() {
    for n in [0u64, 1, 9, 10, 11, 99, 100, 101, 8765, 65535, 4294967295, u64::MAX] {
        assert_eq!(decimal_text(n), n.to_string());
    }
}

#[test]
fn contains_text_and_clone_texts() {
    let list = vec!["pdf".to_string(), "html".to_string()];
    assert!(contains_text(&list, "pdf"));
    assert!(contains_text(&list, "html"));
    assert!(!contains_text(&list, "pd"));
    assert!(!contains_text(&list, "PDF"));
    assert!(!contains_text(&Vec::new(), ""));
    assert_eq!(clone_texts(&list), list);
}
