use launchpad::home::{expand_tilde, expand_tilde_in};
use launchpad::text::{cat, join_path, same_text, text_after_first};

#[test]
fn cat_appends_the_second_text() {
    assert_eq!(cat("abc", "def"), "abcdef");
    assert_eq!(cat("", "x"), "x");
    assert_eq!(cat("x", ""), "x");
}

#[test]
fn same_text_compares_characters() {
    assert!(same_text("Schemes:", "Schemes:"));
    assert!(!same_text("Schemes:", "Schemes"));
    assert!(same_text("", ""));
}

#[test]
fn join_path_adds_one_separator() {
    assert_eq!(join_path("/home/me", ".launchpad"), "/home/me/.launchpad");
    assert_eq!(join_path("/home/me/", ".launchpad"), "/home/me/.launchpad");
    assert_eq!(join_path("", "config.toml"), "config.toml");
    assert_eq!(join_path("/etc", "/abs"), "/abs");
}

#[test]
fn join_path_agrees_with_std() {
    for (base, name) in [("a", "b"), ("a/", "b"), ("", "b"), ("/x/y", "z.toml"), ("a", "/b")] {
        let expected = std::path::Path::new(base).join(name);
        assert_eq!(join_path(base, name), expected.to_string_lossy());
    }
}

#[test]
fn text_after_first_splits_at_the_first_occurrence() {
    assert_eq!(text_after_first("a = b", '='), Some(" b".to_string()));
    assert_eq!(text_after_first("a=b=c", '='), Some("b=c".to_string()));
    assert_eq!(text_after_first("a=", '='), Some(String::new()));
    assert_eq!(text_after_first("=", '='), Some(String::new()));
    assert_eq!(text_after_first("abc", '='), None);
    assert_eq!(text_after_first("", '='), None);
    assert_eq!(text_after_first("é=ü", '='), Some("ü".to_string()));
}

#[test]
fn tilde_is_replaced_by_the_given_home() {
    let home = Some("/Users/me".to_string());
    assert_eq!(expand_tilde_in("~/keys/a.p8", &home), "/Users/me/keys/a.p8");
    assert_eq!(expand_tilde_in("~", &home), "/Users/me");
}

#[test]
fn tilde_of_another_user_is_kept() {
    let home = Some("/Users/me".to_string());
    assert_eq!(expand_tilde_in("~other/a.p8", &home), "~other/a.p8");
    assert_eq!(expand_tilde_in("/abs/~/a.p8", &home), "/abs/~/a.p8");
    assert_eq!(expand_tilde_in("", &home), "");
}

#[test]
fn tilde_is_kept_without_a_home() {
    assert_eq!(expand_tilde_in("~/keys/a.p8", &None), "~/keys/a.p8");
}

#[test]
fn paths_without_tilde_are_never_expanded() {
    assert_eq!(expand_tilde("/abs/key.p8"), "/abs/key.p8");
    assert_eq!(expand_tilde("relative/key.p8"), "relative/key.p8");
}

#[test]
fn lines_agree_with_std() {
    for text in [
        "", "a", "a\n", "a\r\n", "a\r", "\n", "\r\n", "a\n\nb", "a\rb\n", "\r", "a\n\r",
        "a\r\r\n", "one\ntwo\nthree", "one\r\ntwo\r\n\r\nthree\r\n", "é\nü\n", "\n\n\n",
    ] {
        let expected: Vec<String> = text.lines().map(String::from).collect();
        assert_eq!(launchpad::text::lines(text), expected, "lines of {:?}", text);
    }
}

#[test]
fn lines_of_two_lines() {
    assert_eq!(launchpad::text::lines("Xcode 15.2\r\nBuild 1\n"), vec!["Xcode 15.2", "Build 1"]);
}

#[test]
fn is_space_agrees_with_std() {
    let mut code: u32 = 0;
    while code <= 0x10FFFF {
        if let Some(c) = char::from_u32(code) {
            assert_eq!(launchpad::text::is_space(c), c.is_whitespace(), "U+{:04X}", code);
        }
        code += 1;
    }
}

#[test]
fn trim_agrees_with_std() {
    for text in [
        "", " ", "a", "  a  ", "\t a b \r\n", "\u{a0}x\u{3000}", "a\u{2003}", "\u{feff}a",
        " \u{85} ", "x y", "\n", "   leading", "trailing   ",
    ] {
        assert_eq!(launchpad::text::trim(text), text.trim(), "trim of {:?}", text);
    }
}

#[test]
fn last_word_agrees_with_std() {
    for text in ["", "  ", "a", "fastlane 2.219.0", "  a  b\t c \n", "x\u{a0}y", "one "] {
        let expected = text.split_whitespace().last().map(String::from);
        assert_eq!(launchpad::text::last_word(text), expected, "last word of {:?}", text);
    }
}

#[test]
fn substring_tests_agree_with_std() {
    let texts = ["", "a", "ab", "abc", "aab", "abab", "Schemes:", "project.xcworkspace", "é", "aé"];
    for hay in texts {
        for needle in texts {
            assert_eq!(launchpad::text::contains(hay, needle), hay.contains(needle));
            assert_eq!(launchpad::text::starts_with(hay, needle), hay.starts_with(needle));
            assert_eq!(launchpad::text::ends_with(hay, needle), hay.ends_with(needle));
        }
    }
}

#[test]
fn contains_finds_a_late_match() {
    assert!(launchpad::text::contains("xxPRODUCT_BUNDLE_IDENTIFIER", "PRODUCT_BUNDLE_IDENTIFIER"));
    assert!(launchpad::text::contains("aaab", "aab"));
    assert!(!launchpad::text::contains("aaba", "abb"));
    assert!(launchpad::text::ends_with("App.xcodeproj", ".xcodeproj"));
    assert!(!launchpad::text::ends_with("xcodeproj", ".xcodeproj"));
    assert!(launchpad::text::starts_with("project.xcworkspace", "project."));
}

#[test]
fn replace_agrees_with_std() {
    for (text, from, to) in [
        ("a{{X}}b{{X}}", "{{X}}", "yy"),
        ("aaaa", "aa", "b"),
        ("aaa", "aa", "b"),
        ("abc", "x", "y"),
        ("", "x", "y"),
        ("abc", "abc", ""),
        ("abcabc", "bc", "bcbc"),
        ("é{{X}}", "{{X}}", "ü"),
        ("{{X", "{{X}}", "no"),
    ] {
        assert_eq!(launchpad::text::replace(text, from, to), text.replace(from, to));
    }
}

#[test]
fn replace_with_empty_pattern_keeps_the_text() {
    assert_eq!(launchpad::text::replace("abc", "", "-"), "abc");
}
