use procdeck::text::{blank, chars_of, contains_chars, lex_lt, trim, white_space};

fn chars(s: &str) -> Vec<char> {
    s.chars().collect()
}

#[test]
fn white_space_is_the_unicode_property() {
    let mut code: u32 = 0;
    while code <= 0x10FFFF {
        if let Some(c) = char::from_u32(code) {
            assert_eq!(white_space(c), c.is_whitespace(), "U+{:04X}", code);
        }
        code += 1;
    }
}

#[test]
fn blank_means_only_white_space() {
    for s in ["", " ", "\t\r\n", " \u{2028}\u{205f} ", "a", " a ", "  .", "\u{200b}", "\u{feff}"] {
        assert_eq!(blank(s), s.trim().is_empty(), "{:?}", s);
    }
}

#[test]
fn chars_of_gives_every_character() {
    for s in ["", "abc", "Grüße", "日本語", "a\u{1F600}b"] {
        assert_eq!(chars_of(s), chars(s));
    }
}

#[test]
fn trim_matches_std() {
    for s in [
        "",
        " ",
        "   ",
        "abc",
        "  abc",
        "abc  ",
        "  abc  ",
        " a b c ",
        "\t\nfire fox\r\n",
        "\u{3000}日本\u{2003}語\u{a0}",
        "\u{200b} x \u{200b}",
        " ü ",
    ] {
        assert_eq!(trim(s), s.trim(), "{:?}", s);
    }
}

#[test]
fn contains_matches_std() {
    let hays = ["", "a", "abc", "aaa", "abcabd", "firefox", "naïve café", "12345", "-17"];
    let needles = ["", "a", "b", "ab", "bc", "abd", "abcd", "fox", "é", "café!", "34", "-1", "aaaa"];
    for hay in hays {
        for needle in needles {
            assert_eq!(
                contains_chars(&chars(hay), &chars(needle)),
                hay.contains(needle),
                "{:?} in {:?}",
                needle,
                hay
            );
        }
    }
}

#[test]
fn lex_order_matches_std() {
    let names = ["", "a", "A", "ab", "abc", "abd", "b", "Z", "z", "é", "e", "zz", "日本", "日", "\u{1F600}", "~", "a b", "a-b"];
    for a in names {
        for b in names {
            assert_eq!(lex_lt(&chars(a), &chars(b)), a < b, "{:?} < {:?}", a, b);
        }
    }
}
