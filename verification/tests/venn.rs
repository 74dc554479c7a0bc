use vison::theme::ThemeVariables;
use vison::venn::{escape_text, format_alpha, minify_font_family, normalize_color_for_span};
use vison::venn_css::style_block;

#[test]
fn venn_minify_font_family_outside_quotes() {
    assert_eq!(
        minify_font_family("\"trebuchet ms\", verdana, arial"),
        "\"trebuchet ms\",verdana,arial"
    );
    assert_eq!(minify_font_family("\"a, b\", c"), "\"a, b\",c");
    assert_eq!(minify_font_family("a,  b"), "a, b");
}

#[test]
fn hex_colours_to_rgb() {
    assert_eq!(normalize_color_for_span("#f00"), "rgb(255, 0, 0)");
    assert_eq!(normalize_color_for_span(" #abc "), "rgb(170, 187, 204)");
    assert_eq!(normalize_color_for_span("#ff8000"), "rgb(255, 128, 0)");
    assert_eq!(normalize_color_for_span("#ff000080"), "rgba(255, 0, 0, 0.502)");
    assert_eq!(normalize_color_for_span("#00000000"), "rgba(0, 0, 0, 0)");
    assert_eq!(normalize_color_for_span("#000000ff"), "rgba(0, 0, 0, 1)");
}

#[test]
fn other_colours_unchanged() {
    assert_eq!(normalize_color_for_span("red"), "red");
    assert_eq!(normalize_color_for_span(" red "), " red ");
    assert_eq!(normalize_color_for_span("#ggg"), "#ggg");
    assert_eq!(normalize_color_for_span(" #12345"), " #12345");
    assert_eq!(normalize_color_for_span("#\u{e9}\u{e9}\u{e9}"), "#\u{e9}\u{e9}\u{e9}");
}

#[test]
fn hex_groups_accept_a_plus_sign() {
    assert_eq!(normalize_color_for_span("#+f+f+f"), "rgb(15, 15, 15)");
    assert_eq!(normalize_color_for_span("#+++"), "#+++");
}

#[test]
fn alpha_formatting() {
    assert_eq!(format_alpha(255), "1");
    assert_eq!(format_alpha(0), "0");
    assert_eq!(format_alpha(128), "0.502");
    assert_eq!(format_alpha(51), "0.2");
    assert_eq!(format_alpha(1), "0.004");
    assert_eq!(format_alpha(254), "0.996");
}

#[test]
fn alpha_matches_float_rounding() {
    for a in 1u8..255 {
        let f = (a as f64) / 255.0;
        let s = format!("{:.3}", f);
        let expected = s.trim_end_matches('0').trim_end_matches('.').to_string();
        assert_eq!(format_alpha(a), expected);
    }
}

#[test]
fn venn_escape_text() {
    assert_eq!(escape_text("a<b>&c"), "a&lt;b&gt;&amp;c");
}

#[test]
fn venn_style_block_defaults() {
    let th = ThemeVariables::new();
    let css = style_block("v", &th);
    assert!(css.starts_with("<style>#v{font-family:\"trebuchet ms\",verdana,arial,sans-serif;font-size:16px;fill:#333;}"));
    assert!(css.contains("#v .venn-title{font-size:32px;fill:#333;font-family:\"trebuchet ms\",verdana,arial,sans-serif;}"));
    assert!(css.ends_with("#v :root{--mermaid-font-family:\"trebuchet ms\",verdana,arial,sans-serif;}</style>"));
}

#[test]
fn venn_style_block_title_colour_fallbacks() {
    let mut th = ThemeVariables::new();
    th.title_color = Some("#t00".to_string());
    th.text_color = Some("#x00".to_string());
    th.use_gradient = Some(true);
    let css = style_block("v", &th);
    assert!(css.contains("#v .venn-title{font-size:32px;fill:#t00;"));
    assert!(css.contains("#v .venn-text-node{font-family:\"trebuchet ms\",verdana,arial,sans-serif;color:#x00;}"));
    assert!(css.contains("[data-look=\"neo\"].node path{stroke:url(#v-gradient);stroke-width:1px;}"));
    th.venn_title_text_color = Some("#v00".to_string());
    assert!(style_block("v", &th).contains(".venn-title{font-size:32px;fill:#v00;"));
}
