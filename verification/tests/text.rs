use scrollock::text::{
    chars_of, contains, ends_with, is_whitespace, joined, lines, same, split_once, starts_with,
    to_lower, trim,
};

const SAMPLES: &[&str] = &[
    "",
    " ",
    "a",
    " a ",
    "\t\u{a0}x y\u{3000}\n",
    "a\nb",
    "a\r\nb\r\n",
    "a\r",
    "\n",
    "\n\n",
    "\r\n",
    "a\n\nb\n",
    "a\rb\n\r\n",
    "key=value=more",
    "=",
    "==",
    "ÄÖü ß",
    "AbC.desktop",
    "aaab",
    "abab",
];

#[test]
fn white_space_is_that_of_the_standard_library() {
    for code in 0..=0x10_FFFF {
        if let Some(c) = char::from_u32(code) {
            assert_eq!(is_whitespace(c), c.is_whitespace(), "{code:x}");
        }
    }
}

#[test]
fn operations_agree_with_the_standard_library() {
    for s in SAMPLES {
        assert_eq!(chars_of(s), s.chars().collect::<Vec<_>>());
        assert_eq!(trim(s), s.trim());
        assert_eq!(to_lower(s), s.to_ascii_lowercase());
        assert_eq!(lines(s), s.lines().collect::<Vec<_>>(), "{s:?}");
        for t in SAMPLES {
            assert_eq!(same(s, t), s == t);
            assert_eq!(starts_with(s, t), s.starts_with(t));
            assert_eq!(ends_with(s, t), s.ends_with(t));
            assert_eq!(contains(s, t), s.contains(t), "{s:?} {t:?}");
            assert_eq!(split_once(s, t), s.split_once(t), "{s:?} {t:?}");
            assert_eq!(joined(s, t), format!("{s}{t}"));
        }
        for t in ["=", ">>", ",", "ab", "b"] {
            assert_eq!(split_once(s, t), s.split_once(t), "{s:?} {t:?}");
        }
    }
}
