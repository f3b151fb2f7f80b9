use sample_config::text::{replace, same_text, trim, trim_end, trim_end_matches, Strip};

#[test]
fn replace_puts_the_new_text_for_every_occurrence() {
    assert_eq!(replace("a\nb\n", '\n', "\n  "), "a\n  b\n  ");
    assert_eq!(replace("\n\n", '\n', "\n#"), "\n#\n#");
    assert_eq!(replace("one\ntwo", '\n', "\n//"), "one\n//two");
    assert_eq!(replace("a,b", ',', ""), "ab");
}

#[test]
fn replace_leaves_a_text_without_the_character_as_it_is() {
    assert_eq!(replace("", '\n', "\n  "), "");
    assert_eq!(replace("plain text", '\n', "\n  "), "plain text");
    assert_eq!(replace("größer → 越", '\n', "\n  "), "größer → 越");
}

#[test]
fn replace_agrees_with_the_standard_library() {
    let texts = ["", "\n", "a\n\nb", "x\n  y\n", "no line break", "\r\n", "é\nü\n越"];
    for text in texts {
        assert_eq!(replace(text, '\n', "\n  "), text.replace('\n', "\n  "));
        assert_eq!(replace(text, '\n', "\n#"), text.replace('\n', "\n#"));
    }
}

#[test]
fn trim_drops_whitespace_at_both_ends() {
    assert_eq!(trim("  \t x y \n"), "x y");
    assert_eq!(trim("x"), "x");
    assert_eq!(trim("\n\n  a: 1\n  b: 2\n\n"), "a: 1\n  b: 2");
    assert_eq!(trim("{\n}\n"), "{\n}");
}

#[test]
fn trim_of_blank_text_is_empty() {
    assert_eq!(trim(""), "");
    assert_eq!(trim(" "), "");
    assert_eq!(trim(" \n\t\r "), "");
}

#[test]
fn trim_knows_the_whitespace_of_unicode() {
    assert_eq!(trim("\u{a0}x\u{2003}"), "x");
    assert_eq!(trim("\u{3000}越\u{2028}"), "越");
    assert_eq!(trim("\u{85}a b\u{1680}"), "a b");
    // A zero width space is no whitespace.
    assert_eq!(trim("\u{200b}x\u{200b}"), "\u{200b}x\u{200b}");
}

#[test]
fn trim_agrees_with_the_standard_library() {
    let texts = [
        "",
        " ",
        "a",
        " a",
        "a ",
        " a b ",
        "\t\n a\u{a0}b \u{2009}",
        "\u{feff}a",
        "  é  ",
        "\u{1c}x\u{1f}",
    ];
    for text in texts {
        assert_eq!(trim(text), text.trim());
        assert_eq!(trim_end(text), text.trim_end());
    }
}

#[test]
fn trim_end_keeps_the_start() {
    assert_eq!(trim_end("  x  "), "  x");
    assert_eq!(trim_end(" Level.\n"), " Level.");
    assert_eq!(trim_end(" one\n two\n\n"), " one\n two");
    assert_eq!(trim_end("\n \n"), "");
    assert_eq!(trim_end(""), "");
}

#[test]
fn trim_end_matches_drops_the_whole_run() {
    assert_eq!(trim_end_matches("a,", ','), "a");
    assert_eq!(trim_end_matches("a,,,", ','), "a");
    assert_eq!(trim_end_matches(",,,", ','), "");
    assert_eq!(trim_end_matches("", ','), "");
    assert_eq!(trim_end_matches("a,b", ','), "a,b");
    assert_eq!(trim_end_matches(",a", ','), ",a");
}

#[test]
fn trim_end_matches_stops_at_another_character() {
    assert_eq!(trim_end_matches("a, ,", ','), "a, ");
    assert_eq!(trim_end_matches("a,\n", ','), "a,\n");
    let texts = ["", ",", "a,", "a,,b,,", "越,,", ", ,"];
    for text in texts {
        assert_eq!(trim_end_matches(text, ','), text.trim_end_matches(','));
    }
}

#[test]
fn same_text_compares_character_by_character() {
    assert!(same_text("doc", "doc"));
    assert!(same_text("", ""));
    assert!(same_text("größer", "größer"));
    assert!(!same_text("doc", "docs"));
    assert!(!same_text("docs", "doc"));
    assert!(!same_text("doc", "dot"));
    assert!(!same_text("", "x"));
    assert!(!same_text("Doc", "doc"));
}

#[test]
fn strip_tests_one_character() {
    assert!(Strip::Whitespace.test(' '));
    assert!(Strip::Whitespace.test('\n'));
    assert!(Strip::Whitespace.test('\u{a0}'));
    assert!(!Strip::Whitespace.test('a'));
    assert!(!Strip::Whitespace.test(','));
    assert!(Strip::Char(',').test(','));
    assert!(!Strip::Char(',').test(' '));
    assert!(!Strip::Char(',').test('.'));
}
