use vison::shell::PointText;
use vison::state::{
    emit_state_end, emit_state_start, node_shape, NodePlacement, StateNodeShape,
    STATE_END_INNER_PATH, STATE_END_OUTER_PATH,
    class_def_css, decode_mermaid_entities, edge_label_body, emit_cluster, emit_edge_path,
    is_label_style_key, merge_node_styles, style_block, styles2_string, xml_escape, ClusterText,
    EdgeText, StateClassDef,
    emit_rect_with_title, label_is_bold, RectWithTitleText,
};
use vison::state_css::state_specific_css;
use vison::theme::ThemeVariables;

#[test]
fn state_xml_escape() {
    assert_eq!(xml_escape("a<b>&c #lt;"), "a&lt;b&gt;&amp;c #lt;");
    assert_eq!(xml_escape(""), "");
}

#[test]
fn decode_named_and_numeric_entities() {
    assert_eq!(decode_mermaid_entities("no entities"), "no entities");
    assert_eq!(decode_mermaid_entities("a #colon; b"), "a : b");
    assert_eq!(decode_mermaid_entities("#35;"), "#");
    assert_eq!(decode_mermaid_entities("#lt;#gt;"), "<>");
    assert_eq!(decode_mermaid_entities("#nbsp;"), "\u{a0}");
    assert_eq!(decode_mermaid_entities("#lbrack;#rcub;"), "[}");
}

#[test]
fn decode_keeps_unknown_and_unparsable() {
    assert_eq!(decode_mermaid_entities("#unknown;"), "#unknown;");
    assert_eq!(decode_mermaid_entities("#55296;"), "&#55296;");
    assert_eq!(decode_mermaid_entities("#99999999999;"), "#99999999999;");
    assert_eq!(decode_mermaid_entities("#;"), "#;");
    assert_eq!(decode_mermaid_entities("x#y"), "x#y");
}

#[test]
fn decode_keeps_text_outside_entities() {
    assert_eq!(decode_mermaid_entities("caf\u{e9}"), "caf\u{e9}");
    assert_eq!(decode_mermaid_entities("caf\u{e9} #amp;"), "caf\u{e9} &");
    assert_eq!(decode_mermaid_entities("\u{e9}#colon;"), "\u{e9}:");
}

#[test]
fn merge_styles_last_declaration_wins() {
    let compiled = vec!["fill:#fff".to_string(), "color: blue".to_string()];
    assert_eq!(
        merge_node_styles(Some(&compiled), Some("fill:#636, stroke : red")),
        "fill:#636,color:blue,stroke:red"
    );
    assert_eq!(merge_node_styles(None, None), "");
    assert_eq!(merge_node_styles(None, Some("nocolon,,x:1")), "x:1");
}

#[test]
fn styles2_string_splits_label_styles() {
    let (node, label, div) = styles2_string("fill:#636,border:1px solid red,color:white");
    assert_eq!(node, "fill:#636 !important;border:1px solid red !important");
    assert_eq!(label, "color:white !important");
    assert_eq!(div, "color: white !important; ");
    let (node, label, div) = styles2_string(" , font-size : 12px, x");
    assert_eq!(node, "");
    assert_eq!(label, "font-size:12px !important");
    assert_eq!(div, "font-size: 12px !important; ");
}

#[test]
fn label_style_keys() {
    assert!(is_label_style_key("color"));
    assert!(is_label_style_key("text-shadow"));
    assert!(!is_label_style_key("fill"));
    assert!(!is_label_style_key("Color"));
}

#[test]
fn class_def_rules() {
    let defs = vec![
        StateClassDef { name: "bad".to_string(), styles: "fill:#f00,color: white;".to_string() },
        StateClassDef { name: "empty".to_string(), styles: " ; ".to_string() },
        StateClassDef {
            name: "bg".to_string(),
            styles: "background-color:red,fill-color:blue".to_string(),
        },
    ];
    assert_eq!(
        class_def_css("sd", &defs),
        "#sd .bad>*{fill:#f00!important;color:white!important;}#sd .bad span{fill:#f00!important;color:white!important;}#sd .bad tspan{fill:white!important;}\
#sd .bg>*{background-color:red!important;fill-color:blue!important;}#sd .bg span{background-color:red!important;fill-color:blue!important;}#sd .bg tspan{background-fill:red!important;bgFill-fill:blue!important;}"
    );
    assert_eq!(class_def_css("sd", &[]), "");
}

fn pt(x: &str, y: &str) -> PointText {
    PointText { x: x.to_string(), y: y.to_string() }
}

#[test]
fn edge_path_with_marker() {
    let e = EdgeText {
        id: "e1".to_string(),
        thickness: None,
        pattern: None,
        classes: None,
        points: Some(vec![pt("0", "0"), pt("10", "5")]),
    };
    assert_eq!(
        emit_edge_path("svg", &e, "M0,0L10,5"),
        "<path d=\"M0,0L10,5\" id=\"svg-e1\" class=\" edge-thickness-normal edge-pattern-solid transition\" style=\"fill:none;;;fill:none\" data-edge=\"true\" data-et=\"edge\" data-id=\"e1\" data-points=\"W3sieCI6MCwieSI6MH0seyJ4IjoxMCwieSI6NX1d\" data-look=\"classic\" marker-end=\"url(#svg_stateDiagram-barbEnd)\"></path>"
    );
}

#[test]
fn note_edge_path_has_no_marker() {
    let e = EdgeText {
        id: "n".to_string(),
        thickness: Some("thick".to_string()),
        pattern: Some("dotted".to_string()),
        classes: Some("transition note-edge".to_string()),
        points: Some(vec![pt("0", "0"), pt("10", "5")]),
    };
    let got = emit_edge_path("s", &e, "M");
    assert!(got.ends_with("data-look=\"classic\"></path>"));
    assert!(got.contains("class=\" edge-thickness-thick edge-pattern-dotted transition note-edge\""));
}

#[test]
fn edge_path_needs_two_points() {
    let mut e = EdgeText {
        id: "e".to_string(),
        thickness: None,
        pattern: None,
        classes: None,
        points: Some(vec![pt("1", "1")]),
    };
    assert_eq!(emit_edge_path("s", &e, "M"), "");
    e.points = None;
    assert_eq!(emit_edge_path("s", &e, "M"), "");
}

fn cluster(shape: Option<&str>) -> ClusterText {
    ClusterText {
        id: "c1".to_string(),
        dom_id: Some("state-c<1>".to_string()),
        shape: shape.map(|s| s.to_string()),
        label: Some("A & B".to_string()),
        css_classes: None,
        abs_x: "5".to_string(),
        abs_y: "6".to_string(),
        rel_x: "-20".to_string(),
        rel_y: "-10".to_string(),
        width: "40".to_string(),
        height: "20".to_string(),
    }
}

#[test]
fn note_group_cluster() {
    assert_eq!(
        emit_cluster("s", &cluster(Some("noteGroup"))),
        "<g class=\"note-cluster\" id=\"s-state-c&lt;1&gt;\"><rect x=\"5\" y=\"6\" width=\"40\" height=\"20\" fill=\"none\"></rect></g>"
    );
}

#[test]
fn state_cluster() {
    assert_eq!(
        emit_cluster("s", &cluster(None)),
        "<g class=\" statediagram-state statediagram-cluster\" id=\"s-state-c&lt;1&gt;\" data-id=\"state-c&lt;1&gt;\" data-look=\"classic\"><g><rect class=\"outer\" x=\"-20\" y=\"-10\" width=\"40\" height=\"20\" data-look=\"classic\"></rect></g><g class=\"cluster-label\"><foreignObject width=\"0\" height=\"0\"><div xmlns=\"http://www.w3.org/1999/xhtml\">A &amp; B</div></foreignObject></g></g>"
    );
}

#[test]
fn edge_label_bodies() {
    assert_eq!(edge_label_body(""), (String::new(), false));
    assert_eq!(edge_label_body("  "), ("<p>  </p>".to_string(), false));
    assert_eq!(edge_label_body("a\nb<c"), ("a<br/>b&lt;c".to_string(), true));
    assert_eq!(edge_label_body("x #lt; y"), ("x &lt; y".to_string(), true));
}

#[test]
fn state_css_defaults() {
    let th = ThemeVariables::new();
    let css = state_specific_css("d", &th);
    assert!(css.starts_with("#d defs [id$=\"-barbEnd\"]{fill:#333333;stroke:#333333;}#d g.stateGroup text{fill:#9370DB;stroke:none;font-size:10px;}"));
    assert!(css.contains("#d .node rect{fill:#ECECFF;stroke:#9370DB;stroke-width:1px;}"));
    assert!(css.contains("#d .cluster-label,#d .nodeLabel{color:#131300;}"));
    assert!(css.ends_with("#d [data-look=\"neo\"].statediagram-cluster rect.outer{rx:5px;ry:5px;filter:drop-shadow(1px 2px 2px rgba(185, 185, 185, 1));}"));
}

#[test]
fn state_css_theme_values() {
    let mut th = ThemeVariables::new();
    th.main_bkg = Some("#eee".to_string());
    th.stroke_width = Some(-2);
    th.radius = Some(8);
    th.drop_shadow = Some("url(#drop-shadow)".to_string());
    let css = state_specific_css("d", &th);
    // The state background falls back to the main background.
    assert!(css.contains("#d .node rect{fill:#eee;stroke:#9370DB;stroke-width:-2px;}"));
    assert!(css.ends_with("rect.outer{rx:8px;ry:8px;filter:url(d-drop-shadow);}"));
}

#[test]
fn state_style_block_wraps_all_parts() {
    let th = ThemeVariables::new();
    let defs = vec![StateClassDef { name: "x".to_string(), styles: "fill:red".to_string() }];
    let css = style_block("d", &th, &defs);
    assert!(css.starts_with("<style>#d{font-family:\"trebuchet ms\",verdana,arial,sans-serif;font-size:16px;fill:#333;}"));
    assert!(css.ends_with(":root{--mermaid-font-family:\"trebuchet ms\",verdana,arial,sans-serif;}#d .x>*{fill:red!important;}#d .x span{fill:red!important;}</style>"));
    let plain = style_block("d", &th, &[]);
    assert!(plain.ends_with(";}</style>"));
}

fn placed() -> NodePlacement {
    NodePlacement {
        id: "root_start".to_string(),
        dom_id: None,
        x: "7".to_string(),
        y: "8.5".to_string(),
    }
}

#[test]
fn start_marker() {
    assert_eq!(
        emit_state_start("s", &placed(), "7", "14"),
        "<g class=\"node default\" id=\"s-root_start\" data-look=\"classic\" transform=\"translate(7, 8.5)\"><circle class=\"state-start\" r=\"7\" width=\"14\" height=\"14\"></circle></g>"
    );
}

#[test]
fn end_marker_uses_theme_colours() {
    let mut th = ThemeVariables::new();
    th.node_border = Some("#nb".to_string());
    let mut n = placed();
    n.dom_id = Some("state-end-1".to_string());
    let got = emit_state_end("s", &n, &th);
    let expected = format!(
        "<g class=\"node default\" id=\"s-state-end-1\" data-look=\"classic\" transform=\"translate(7, 8.5)\"><g class=\"outer-path\"><path d=\"{o}\" stroke=\"none\" stroke-width=\"0\" fill=\"#ECECFF\" style=\"\"></path><path d=\"{o}\" stroke=\"#333333\" stroke-width=\"2\" fill=\"none\" stroke-dasharray=\"0 0\" style=\"\"></path><g><path d=\"{i}\" stroke=\"none\" stroke-width=\"0\" fill=\"#nb\" style=\"\"></path><path d=\"{i}\" stroke=\"#nb\" stroke-width=\"2\" fill=\"none\" stroke-dasharray=\"0 0\" style=\"\"></path></g></g></g>",
        o = STATE_END_OUTER_PATH,
        i = STATE_END_INNER_PATH,
    );
    assert_eq!(got, expected);
    assert!(STATE_END_OUTER_PATH.starts_with("M7 0 C7 0.40517908122283747"));
    assert!(STATE_END_INNER_PATH.starts_with("M2.5 0 C2.5 0.14470681472244193"));
}

#[test]
fn node_shapes_by_name() {
    assert_eq!(node_shape(None), StateNodeShape::State);
    assert_eq!(node_shape(Some("start")), StateNodeShape::Start);
    assert_eq!(node_shape(Some("stateEnd")), StateNodeShape::End);
    assert_eq!(node_shape(Some("join")), StateNodeShape::ForkJoin);
    assert_eq!(node_shape(Some("rectWithTitle")), StateNodeShape::RectWithTitle);
    assert_eq!(node_shape(Some("note")), StateNodeShape::Note);
    assert_eq!(node_shape(Some("choice")), StateNodeShape::Other);
}

fn titled(label_style: Option<&str>) -> RectWithTitleText {
    RectWithTitleText {
        id: "S1".to_string(),
        dom_id: None,
        css_classes: None,
        css_compiled_styles: None,
        label_style: label_style.map(|s| s.to_string()),
        label: Some("Title".to_string()),
        description: Some(vec!["d1".to_string(), "d2".to_string()]),
        x: "10".to_string(),
        y: "20".to_string(),
        rect_x: "-24".to_string(),
        rect_y: "-12".to_string(),
        rect_width: "48".to_string(),
        rect_height: "24".to_string(),
        divider_x2: "24".to_string(),
        divider_y: "8".to_string(),
        label_x: "-20".to_string(),
        label_y: "-9".to_string(),
        line_height: "16".to_string(),
        title_width: "40".to_string(),
        title_x: "0".to_string(),
        desc_width: "30".to_string(),
        desc_x: "5".to_string(),
        desc_y: "25".to_string(),
    }
}

#[test]
fn rect_with_title_exact() {
    let th = ThemeVariables::new();
    let out = emit_rect_with_title("s", &titled(None), &th).unwrap();
    let fo = "<div style=\"display: table-cell; white-space: nowrap; line-height: 1.5;\" xmlns=\"http://www.w3.org/1999/xhtml\"><span class=\"nodeLabel \"><p>";
    let expected = format!(
        "<g class=\"node undefined\" id=\"s-S1\" data-look=\"classic\" transform=\"translate(10, 20)\"><g><rect class=\"outer title-state\" style=\"\" x=\"-24\" y=\"-12\" width=\"48\" height=\"24\"></rect><line class=\"divider\" x1=\"-24\" x2=\"24\" y1=\"8\" y2=\"8\"></line></g><g class=\"label\" style=\"\" transform=\"translate(-20, -9)\"><foreignObject width=\"40\" height=\"16\" transform=\"translate( 0, 0)\">{fo}Title</p></span></div></foreignObject><foreignObject width=\"30\" height=\"16\" transform=\"translate( 5, 25)\">{fo}d1&lt;br/&gt;d2</p></span></div></foreignObject></g></g>"
    );
    assert_eq!(out, expected);
}

#[test]
fn rect_with_title_splits_its_style() {
    let th = ThemeVariables::new();
    let mut n = titled(Some("fill:red,color:blue"));
    n.css_classes = Some("big".to_string());
    n.dom_id = Some("a&b".to_string());
    let out = emit_rect_with_title("s", &n, &th).unwrap();
    assert!(out.starts_with("<g class=\"node big\" id=\"s-a&amp;b\""));
    assert!(out.contains("<rect class=\"outer title-state\" style=\"fill:red !important\""));
    assert!(out.contains("<g class=\"label\" style=\"color:blue !important\""));
}

#[test]
fn bold_label_detection() {
    assert!(label_is_bold("font-weight:bold"));
    assert!(label_is_bold("fill:red, font-weight : bold ;;"));
    assert!(!label_is_bold("font-weight:bolder"));
    assert!(!label_is_bold(""));
    assert!(!label_is_bold("fill:red"));
}
