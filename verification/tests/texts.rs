use crossbind::text::{
    char_is_space, chars_of, contains_char, squeeze, followed_by, join_first, replace_all, split, split_words, starts_with,
    text_eq, trim,
};

#[test]
fn white_space_is_what_the_standard_library_says() {
    for code in 0u32..0x3100 {
        if let Some(c) = char::from_u32(code) {
            assert_eq!(char_is_space(c), c.is_whitespace(), "U+{:04X}", code);
        }
    }
    assert!(!char_is_space('\u{200B}'));
    assert!(!char_is_space('\u{FEFF}'));
}

#[test]
fn characters_and_equality() {
    assert_eq!(chars_of("héllo"), vec!['h', 'é', 'l', 'l', 'o']);
    assert!(chars_of("").is_empty());
    assert!(text_eq("i32", "i32"));
    assert!(!text_eq("i32", "u32"));
    assert!(!text_eq("i32", "i3"));
    assert!(text_eq("", ""));
    assert!(starts_with("Option<i32>", "Option<"));
    assert!(starts_with("Option<", "Option<"));
    assert!(!starts_with("Optio", "Option<"));
    assert!(!starts_with("option<i32>", "Option<"));
    assert!(starts_with("anything", ""));
    assert_eq!(followed_by("math", ".hpp"), "math.hpp");
}

#[test]
fn trimming() {
    assert_eq!(trim("  int  "), "int");
    assert_eq!(trim("\t\nconst char*\r\n"), "const char*");
    assert_eq!(trim("a b"), "a b");
    assert_eq!(trim("   "), "");
    assert_eq!(trim(""), "");
    assert_eq!(trim("\u{3000}x\u{a0}"), "x");
    for s in ["", " ", " a", "a ", "  a  b  ", "\n\nfoo\tbar\n"] {
        assert_eq!(trim(s), s.trim());
    }
}

#[test]
fn splitting_on_a_separator() {
    assert_eq!(split("int a, float b", ','), vec!["int a", " float b"]);
    assert_eq!(split("", ','), vec![""]);
    assert_eq!(split(",", ','), vec!["", ""]);
    assert_eq!(split("a,,b,", ','), vec!["a", "", "b", ""]);
    for s in ["", ",", "a", "a,b", ",a,", "x, y ,z", ",,,"] {
        let expected: Vec<String> = s.split(',').map(|p| p.to_string()).collect();
        assert_eq!(split(s, ','), expected);
    }
}

#[test]
fn splitting_into_words() {
    assert_eq!(split_words("const  char *  name"), vec!["const", "char", "*", "name"]);
    assert!(split_words("").is_empty());
    assert!(split_words(" \t\n").is_empty());
    assert_eq!(split_words("x"), vec!["x"]);
    for s in ["", " ", "a", " a", "a ", "a b", "  unsigned   int\tcount\n", "\u{a0}p\u{2003}q"] {
        let expected: Vec<String> = s.split_whitespace().map(|p| p.to_string()).collect();
        assert_eq!(split_words(s), expected);
    }
}

#[test]
fn joining() {
    let parts: Vec<String> = vec!["const".into(), "char".into(), "*".into(), "name".into()];
    assert_eq!(join_first(&parts, 3, " "), "const char *");
    assert_eq!(join_first(&parts, 4, ", "), "const, char, *, name");
    assert_eq!(join_first(&parts, 1, " "), "const");
    assert_eq!(join_first(&parts, 0, " "), "");
}

#[test]
fn replacing() {
    assert_eq!(
        replace_all("name = \"{{module}}\"\n[lib]\nname = \"{{module}}\"", "{{module}}", "math"),
        "name = \"math\"\n[lib]\nname = \"math\""
    );
    assert_eq!(replace_all("aaa", "aa", "b"), "ba");
    assert_eq!(replace_all("abc", "", "x"), "abc");
    assert_eq!(replace_all("", "a", "x"), "");
    assert_eq!(replace_all("ab", "abc", "x"), "ab");
    assert_eq!(replace_all("{{module}}", "{{module}}", "{{module}}"), "{{module}}");
    for (text, pattern, with) in [
        ("hello world", "o", "0"),
        ("{{module}}{{module}}", "{{module}}", "m"),
        ("{{{module}}}", "{{module}}", "m"),
        ("xyx", "x", ""),
        ("aXbXc", "X", "--"),
    ] {
        assert_eq!(replace_all(text, pattern, with), text.replace(pattern, with));
    }
}

#[test]
fn squeezing_and_searching() {
    assert_eq!(squeeze("Option < & str >"), "Option<&str>");
    assert_eq!(squeeze("  a \t b\nc "), "abc");
    assert_eq!(squeeze(""), "");
    assert_eq!(squeeze(" \n"), "");
    assert!(contains_char("Vec < u8 >", '<'));
    assert!(!contains_char("i32", '<'));
    assert!(!contains_char("", '<'));
}
