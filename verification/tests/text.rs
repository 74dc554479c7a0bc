use vison::text::{display_width, is_cjk, markdown_text_content, markdown_to_html};

#[test]
fn markdown_strip_basic() {
    assert_eq!(markdown_text_content("**bold**"), "bold");
    assert_eq!(markdown_text_content("__bold__"), "bold");
    assert_eq!(markdown_text_content("*italic*"), "italic");
    assert_eq!(markdown_text_content("_italic_"), "italic");
    assert_eq!(markdown_text_content("`code`"), "code");
    assert_eq!(markdown_text_content("__my bolded name__"), "my bolded name");
    assert_eq!(markdown_text_content("*my italicized name*"), "my italicized name");
    assert_eq!(
        markdown_text_content("Text: **Bolded text** _italicized text_"),
        "Text: Bolded text italicized text"
    );
    assert_eq!(
        markdown_text_content("Doc Ref: *Italicized* __Bolded__"),
        "Doc Ref: Italicized Bolded"
    );
    assert_eq!(
        markdown_text_content("&lt;&lt;Requirement&gt;&gt;"),
        "&lt;&lt;Requirement&gt;&gt;"
    );
    assert_eq!(markdown_text_content("plain text"), "plain text");
}

#[test]
fn markdown_underscore_word_boundary_rules() {
    assert_eq!(
        markdown_text_content("test_entity_name_that_is_extra_long"),
        "test_entity_name_that_is_extra_long"
    );
    assert_eq!(markdown_text_content("_italic_"), "italic");
    assert_eq!(markdown_text_content("prefix _italic_ suffix"), "prefix italic suffix");
    assert_eq!(markdown_text_content("Text: _italicized text_"), "Text: italicized text");
    assert_eq!(markdown_text_content("word_italic_word"), "word_italic_word");
    assert_eq!(markdown_text_content("__bold text__"), "bold text");
    assert_eq!(markdown_text_content("word__bold__word"), "word__bold__word");
}

#[test]
fn ascii_only() {
    assert_eq!(display_width("hello"), 5);
}

#[test]
fn empty_string() {
    assert_eq!(display_width(""), 0);
}

#[test]
fn single_ascii() {
    assert_eq!(display_width("A"), 1);
}

#[test]
fn cjk_chinese() {
    assert_eq!(display_width("\u{4F60}\u{597D}\u{4E16}"), 6);
}

#[test]
fn cjk_japanese_hiragana_katakana() {
    assert_eq!(display_width("\u{3042}\u{3044}\u{3046}"), 6);
    assert_eq!(display_width("\u{30A2}\u{30A4}\u{30A6}"), 6);
}

#[test]
fn cjk_korean() {
    assert_eq!(display_width("\u{3131}\u{3134}\u{3137}"), 6);
}

#[test]
fn mixed_ascii_cjk() {
    assert_eq!(display_width("Hello\u{4E16}\u{754C}"), 9);
}

#[test]
fn fullwidth_forms() {
    assert_eq!(display_width("\u{FF21}"), 2);
    assert_eq!(display_width("\u{FF01}"), 2);
}

#[test]
fn cjk_compatibility_ideographs() {
    assert_eq!(display_width("\u{F900}"), 2);
}

#[test]
fn cjk_extension_b() {
    assert_eq!(display_width("\u{20000}"), 2);
}

#[test]
fn latin_accented() {
    assert_eq!(display_width("caf\u{00E9}"), 4);
}

#[test]
fn emoji_basic() {
    assert_eq!(display_width("\u{1F600}"), 1);
}

#[test]
fn mixed_multiline_single_line() {
    assert_eq!(display_width("ab\ncd"), 5);
}

#[test]
fn fullwidth_yen_sign() {
    assert_eq!(display_width("\u{FFE5}"), 2);
}

#[test]
fn cjk_radicals() {
    assert_eq!(display_width("\u{2E80}"), 2);
}

#[test]
fn long_mixed_string() {
    assert_eq!(display_width("Test\u{6D4B}\u{8BD5}Demo\u{6F14}\u{793A}"), 16);
}

// ---- further cases ----

#[test]
fn is_cjk_range_edges() {
    assert!(is_cjk('\u{2E80}'));
    assert!(is_cjk('\u{9FFF}'));
    assert!(!is_cjk('\u{2E7F}'));
    assert!(!is_cjk('\u{A000}'));
    assert!(is_cjk('\u{FE30}'));
    assert!(is_cjk('\u{FE4F}'));
    assert!(!is_cjk('\u{FE50}'));
    assert!(is_cjk('\u{FF60}'));
    assert!(!is_cjk('\u{FF61}'));
    assert!(is_cjk('\u{FFE6}'));
    assert!(!is_cjk('\u{FFE7}'));
    assert!(is_cjk('\u{2FA1F}'));
    assert!(!is_cjk('\u{2FA20}'));
    assert!(!is_cjk('a'));
}

#[test]
fn markdown_html_constructs() {
    assert_eq!(markdown_to_html("**bold**"), "<strong>bold</strong>");
    assert_eq!(markdown_to_html("__bold__"), "<strong>bold</strong>");
    assert_eq!(markdown_to_html("*it*"), "<em>it</em>");
    assert_eq!(markdown_to_html("_it_"), "<em>it</em>");
    assert_eq!(markdown_to_html("`x*y*`"), "<code>x*y*</code>");
    assert_eq!(markdown_to_html("***both***"), "<em><strong>both</strong></em>");
    assert_eq!(markdown_to_html("a **b *c* d** e"), "a <strong>b <em>c</em> d</strong> e");
    assert_eq!(markdown_to_html("word_italic_word"), "word_italic_word");
    assert_eq!(markdown_to_html("word__bold__word"), "word__bold__word");
    assert_eq!(markdown_to_html(""), "");
    assert_eq!(markdown_to_html("plain"), "plain");
}

#[test]
fn markdown_unclosed_and_empty_delimiters() {
    assert_eq!(markdown_text_content("**open"), "**open");
    assert_eq!(markdown_text_content("a * b"), "a * b");
    assert_eq!(markdown_text_content("**"), "**");
    assert_eq!(markdown_text_content("__"), "__");
    assert_eq!(markdown_text_content("`open"), "`open");
    assert_eq!(markdown_text_content("***x***"), "x");
    assert_eq!(markdown_text_content("`a`b`"), "ab`");
    assert_eq!(markdown_text_content("\u{4F60}**\u{597D}**"), "\u{4F60}\u{597D}");
    assert_eq!(markdown_text_content(""), "");
}

#[test]
fn markup_free_text_is_unchanged() {
    let s = "Hello, &amp; world! 12-3 <tag>";
    assert_eq!(markdown_text_content(s), s);
    assert_eq!(markdown_to_html(s), s);
}

#[test]
fn text_content_never_longer() {
    for s in ["**a**", "_b_", "x", "`c`", "***d***", "__e", "a_b_c"] {
        assert!(markdown_text_content(s).chars().count() <= s.chars().count());
    }
}

#[test]
fn display_width_bounds() {
    for s in ["abc", "\u{4F60}\u{597D}", "a\u{4F60}"] {
        let n = s.chars().count();
        let w = display_width(s);
        assert!(n <= w && w <= 2 * n);
    }
    assert_eq!(display_width("abc"), 3);
}

fn strip_markup_tags(s: &str) -> String {
    let mut t = s.to_string();
    for tag in ["<strong>", "</strong>", "<em>", "</em>", "<code>", "</code>"] {
        t = t.replace(tag, "");
    }
    t
}

#[test]
fn html_without_tags_is_text_content() {
    for s in ["***a*** b **c** _d_ `e` __f__", "x*y*z", "word_with_under", "a ** b", "`*not*`"] {
        assert_eq!(strip_markup_tags(&markdown_to_html(s)), markdown_text_content(s));
    }
    assert_eq!(markdown_to_html("**a** `b`"), "<strong>a</strong> <code>b</code>");
}

#[test]
fn text_content_not_longer_in_bytes() {
    for s in ["**é**", "_日本_", "`ü`", "plain ü", "***x***"] {
        assert!(markdown_text_content(s).len() <= s.len());
    }
    assert_eq!(markdown_text_content("**é**"), "é");
}
