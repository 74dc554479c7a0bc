use vison::theme::ThemeVariables;
use vison::treemap::{
    d3_fmt_comma_text, d3_fmt_default_text, d3_fmt_exp_text,
    color_scale, color_scale_label, color_scale_peer, html_escape, is_label_key,
    leaf_rect_style, minify_font_family, normalise_decl, normalise_label_extra, parse_precision,
    scale_value, section_label_style, section_rect_style, section_value_style, styles2string,
    styles3string, ScaleCache, ScaleKind,
};
use vison::treemap_css::{build_style_block, TreemapClassDef};

fn strings(v: &[&str]) -> Vec<String> {
    v.iter().map(|s| s.to_string()).collect()
}

#[test]
fn treemap_minify_font_family() {
    assert_eq!(minify_font_family("a, b, c"), "a,b,c");
    assert_eq!(minify_font_family("\"x, y\",  z"), "\"x,y\", z");
}

#[test]
fn precision_parsing() {
    assert_eq!(parse_precision(".2"), Some(2));
    assert_eq!(parse_precision(".+3"), Some(3));
    assert_eq!(parse_precision(".010"), Some(10));
    assert_eq!(parse_precision("2"), None);
    assert_eq!(parse_precision("."), None);
    assert_eq!(parse_precision(".+"), None);
    assert_eq!(parse_precision(".x"), None);
    assert_eq!(parse_precision(".-1"), None);
    assert_eq!(parse_precision(".99999999999999999999999"), None);
}

#[test]
fn treemap_styles_split() {
    let css = strings(&["fill:red", "color:blue", " stroke:#FFD600 ", "", "Stroke-Width:2px"]);
    let (node, border) = styles2string(&css);
    assert_eq!(node, "fill:red !important;stroke:#FFD600 !important;Stroke-Width:2px !important");
    assert_eq!(border, strings(&["stroke:#FFD600 !important", "Stroke-Width:2px !important"]));
    let (node3, border3, label) = styles3string(&css);
    assert_eq!(node3, node);
    assert_eq!(border3, border);
    assert_eq!(label, "color:blue !important");
    assert_eq!(leaf_rect_style(&css), node);
}

#[test]
fn section_rect_styles() {
    let css = strings(&["fill:red", "stroke:blue"]);
    assert_eq!(section_rect_style(&css, true), "display: none;");
    assert_eq!(
        section_rect_style(&css, false),
        "fill:red !important;stroke:blue !important;stroke:blue !important"
    );
    assert_eq!(section_rect_style(&[], false), ";");
}

#[test]
fn treemap_label_keys_and_plain_helpers() {
    assert!(is_label_key("font-size"));
    assert!(is_label_key("hyphens"));
    assert!(!is_label_key("text-shadow"));
    assert_eq!(normalise_decl("a:b"), "a:b");
    assert_eq!(html_escape("<a & b>"), "&lt;a &amp; b&gt;");
}

#[test]
fn label_extra_normalisation() {
    assert_eq!(normalise_label_extra("color:red;font-size:12px;"), "color: red;font-size: 12px");
    assert_eq!(normalise_label_extra("  "), "");
    assert_eq!(normalise_label_extra("a ; b : c "), "a;b: c");
}

#[test]
fn scale_cache_slots() {
    let mut c = ScaleCache::new();
    assert_eq!(c.slot_for(ScaleKind::Main, "a"), 0);
    assert_eq!(c.slot_for(ScaleKind::Main, "b"), 1);
    assert_eq!(c.slot_for(ScaleKind::Main, "a"), 0);
    assert_eq!(c.slot_for(ScaleKind::Peer, "b"), 0);
    assert_eq!(c.slot_for(ScaleKind::Label, "z"), 0);
    c.reset();
    assert_eq!(c.slot_for(ScaleKind::Main, "b"), 0);
}

fn scale_theme() -> ThemeVariables {
    let mut th = ThemeVariables::new();
    th.c_scale0 = Some("#100".to_string());
    th.c_scale11 = Some("#111".to_string());
    th.c_scale_peer0 = Some("#200".to_string());
    th.c_scale_label0 = Some("#300".to_string());
    th.c_scale_label1 = Some("#301".to_string());
    th
}

#[test]
fn scale_values_cycle() {
    let th = scale_theme();
    assert_eq!(scale_value(&th, 0, ScaleKind::Main), Some("transparent".to_string()));
    assert_eq!(scale_value(&th, 1, ScaleKind::Main), Some("#100".to_string()));
    assert_eq!(scale_value(&th, 12, ScaleKind::Main), Some("#111".to_string()));
    assert_eq!(scale_value(&th, 13, ScaleKind::Peer), Some("transparent".to_string()));
    assert_eq!(scale_value(&th, 14, ScaleKind::Peer), Some("#200".to_string()));
    assert_eq!(scale_value(&th, 2, ScaleKind::Main), None);
    assert_eq!(scale_value(&th, 12, ScaleKind::Label), Some("#300".to_string()));
    assert_eq!(scale_value(&th, 13, ScaleKind::Label), Some("#301".to_string()));
}

#[test]
fn color_scales_by_name() {
    let th = scale_theme();
    let mut c = ScaleCache::new();
    assert_eq!(color_scale(&mut c, &th, ""), "transparent");
    assert_eq!(color_scale(&mut c, &th, "A"), "#100");
    assert_eq!(color_scale(&mut c, &th, "B"), "#000");
    assert_eq!(color_scale(&mut c, &th, "A"), "#100");
    assert_eq!(color_scale_peer(&mut c, &th, "A"), "transparent");
    assert_eq!(color_scale_label(&mut c, &th, "A"), "#300");
    assert_eq!(color_scale_label(&mut c, &th, "B"), "#301");
}

#[test]
fn section_text_styles() {
    let th = scale_theme();
    let mut c = ScaleCache::new();
    let css = strings(&["color:red", "fill:blue"]);
    assert_eq!(
        section_label_style(&mut c, &th, "x", &css),
        "dominant-baseline: middle; font-size: 12px; fill:#300; white-space: nowrap; overflow: hidden; text-overflow: ellipsis;fill:red !important"
    );
    assert_eq!(
        section_value_style(&mut c, &th, "x", &css),
        "text-anchor: end; dominant-baseline: middle; font-size: 10px; fill:#300; white-space: nowrap; overflow: hidden; text-overflow: ellipsis;fill:red !important"
    );
}

#[test]
fn treemap_style_block_defaults_and_classes() {
    let th = ThemeVariables::new();
    let classes = vec![TreemapClassDef { id: "hot".to_string(), styles: strings(&["fill:red", " ", "stroke:blue "]) }];
    let css = build_style_block("t", &th, &classes);
    assert!(css.starts_with("<style>#t{font-family:\"trebuchet ms\",verdana,arial,sans-serif;font-size:16px;fill:#333;}@keyframes edge-animation-frame{from{stroke-dashoffset:0;}}"));
    assert!(css.contains("#t .treemapTitle{fill:#333;font-size:14px;}"));
    assert!(css.contains("#t [data-look=\"neo\"].node path{stroke:#9370DB;stroke-width:1px;}"));
    assert!(css.ends_with(":root{--mermaid-font-family:\"trebuchet ms\",verdana,arial,sans-serif;}#t .hot>*{fill:red!important;stroke:blue!important;}#t .hot span{fill:red!important;stroke:blue!important;}</style>"));
}

#[test]
fn treemap_style_block_gradient() {
    let mut th = ThemeVariables::new();
    th.use_gradient = Some(true);
    let css = build_style_block("t", &th, &[]);
    assert!(css.contains("#t [data-look=\"neo\"].node circle{stroke:url(#t-gradient);filter:"));
    assert!(css.contains("#t .node .neo-node{stroke:#9370DB;}"));
}

#[test]
fn number_text_helpers() {
    assert_eq!(d3_fmt_comma_text("1234567.50"), "1,234,567.50");
    assert_eq!(d3_fmt_comma_text("-1234"), "-1,234");
    assert_eq!(d3_fmt_comma_text("123"), "123");
    assert_eq!(d3_fmt_comma_text("-"), "-");
    assert_eq!(d3_fmt_default_text("1.2300e+5"), "1.23e+5");
    assert_eq!(d3_fmt_default_text("12.000"), "12");
    assert_eq!(d3_fmt_default_text("100"), "100");
    assert_eq!(d3_fmt_default_text("0.5"), "0.5");
    assert_eq!(d3_fmt_exp_text("1.5e5"), "1.5e+5");
    assert_eq!(d3_fmt_exp_text("1.5e-5"), "1.5e-5");
    assert_eq!(d3_fmt_exp_text("12"), "12");
    assert_eq!(d3_fmt_exp_text("1e"), "1e+");
}
