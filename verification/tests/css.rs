use vison::css::{base_preamble, neo_look_block};
use vison::theme::ThemeVariables;

// The default theme sets its font family to the same list that an unset
// value falls back to, so the empty theme stands for it here.

#[test]
fn preamble_starts_with_root_rule() {
    let th = ThemeVariables::new();
    let css = base_preamble("foo", &th);
    assert!(css.starts_with("#foo{font-family:"));
    assert!(css.contains("@keyframes edge-animation-frame{from{stroke-dashoffset:0;}}"));
    assert!(css.contains("#foo svg{font-family:"));
    assert!(css.contains("#foo p{margin:0;}"));
}

#[test]
fn preamble_strips_comma_spaces_from_font_family() {
    let th = ThemeVariables::new();
    let css = base_preamble("x", &th);
    assert!(css.contains(r#"font-family:"trebuchet ms",verdana,arial,sans-serif"#));
}

#[test]
fn neo_block_ends_with_root_mermaid_variable() {
    let th = ThemeVariables::new();
    let css = neo_look_block("y", &th);
    assert!(css.ends_with(r#""trebuchet ms",verdana,arial,sans-serif;}"#));
    assert!(css.contains(r#"#y [data-look="neo"].node rect"#));
}

#[test]
fn preamble_exact_with_theme_values() {
    let mut th = ThemeVariables::new();
    th.font_family = Some("a, \"b, c\"".to_string());
    th.stroke_width = Some(2);
    th.line_color = Some("#123".to_string());
    let css = base_preamble("i", &th);
    assert_eq!(
        css,
        "#i{font-family:a,\"b, c\";font-size:16px;fill:#333;}@keyframes edge-animation-frame{from{stroke-dashoffset:0;}}@keyframes dash{to{stroke-dashoffset:0;}}#i .edge-animation-slow{stroke-dasharray:9,5!important;stroke-dashoffset:900;animation:dash 50s linear infinite;stroke-linecap:round;}#i .edge-animation-fast{stroke-dasharray:9,5!important;stroke-dashoffset:900;animation:dash 20s linear infinite;stroke-linecap:round;}#i .error-icon{fill:#552222;}#i .error-text{fill:#552222;stroke:#552222;}#i .edge-thickness-normal{stroke-width:2px;}#i .edge-thickness-thick{stroke-width:3.5px;}#i .edge-pattern-solid{stroke-dasharray:0;}#i .edge-thickness-invisible{stroke-width:0;fill:none;}#i .edge-pattern-dashed{stroke-dasharray:3;}#i .edge-pattern-dotted{stroke-dasharray:2;}#i .marker{fill:#123;stroke:#123;}#i .marker.cross{stroke:#123;}#i svg{font-family:a,\"b, c\";font-size:16px;}#i p{margin:0;}"
    );
}

#[test]
fn neo_block_uses_node_border_and_shadow() {
    let mut th = ThemeVariables::new();
    th.node_border = Some("#nb".to_string());
    th.drop_shadow = Some("none".to_string());
    let css = neo_look_block("y", &th);
    assert!(css.starts_with("#y .node .neo-node{stroke:#nb;}#y [data-look=\"neo\"].node rect,#y [data-look=\"neo\"].cluster rect,#y [data-look=\"neo\"].node polygon{stroke:#nb;filter:none;}"));
}
