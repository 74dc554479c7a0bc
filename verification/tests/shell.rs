use vison::theme::ThemeVariables;
use vison::shell::{
    emit_gradient_defs,
    base64_encode, close_layer, close_root_group, close_seed_group, close_unified_svg,
    colored_marker, data_edge_attrs, emit_a11y_elements, emit_defs_shell, emit_style_block,
    extract_stroke_color, marker_color_id, open_layer, open_root_group, open_seed_group,
    open_unified_svg, open_unified_svg_with_a11y, seed_group, PointText,
};

fn decode_b64(s: &str) -> String {
    let tbl: [i32; 128] = {
        let mut t = [-1i32; 128];
        let alphabet = b"ABCDEFGHIJKLMNOPQRSTUVWXYZabcdefghijklmnopqrstuvwxyz0123456789+/";
        let mut i = 0;
        while i < alphabet.len() {
            t[alphabet[i] as usize] = i as i32;
            i += 1;
        }
        t
    };
    let mut out = Vec::new();
    let mut buf: u32 = 0;
    let mut bits: u32 = 0;
    for &b in s.as_bytes() {
        if b == b'=' {
            break;
        }
        let v = tbl[b as usize];
        if v < 0 {
            continue;
        }
        buf = (buf << 6) | (v as u32);
        bits += 6;
        if bits >= 8 {
            bits -= 8;
            out.push((buf >> bits) as u8);
            buf &= (1 << bits) - 1;
        }
    }
    String::from_utf8(out).unwrap()
}

fn pt(x: &str, y: &str) -> PointText {
    PointText { x: x.to_string(), y: y.to_string() }
}

#[test]
fn open_svg_matches_upstream_attribute_order() {
    let got = open_unified_svg(
        "my-id",
        "154.7",
        ("-67.6", "-46.1", "154.7", "407.3"),
        Some("erDiagram"),
        "er",
    );
    let head = r#"<svg id="my-id" width="100%" xmlns="http://www.w3.org/2000/svg" class="erDiagram" style="max-width: 154.7px;" viewBox="-67.6 -46.1 154.7 407.3" role="graphics-document document" aria-roledescription="er">"#;
    assert_eq!(got, head);
}

#[test]
fn open_svg_without_class_attribute() {
    let got = open_unified_svg("x", "100", ("0", "0", "100", "50"), None, "block");
    assert!(!got.contains(" class="));
    assert!(got.contains(r#"aria-roledescription="block""#));
}

#[test]
fn open_svg_with_a11y_attributes() {
    let got = open_unified_svg_with_a11y("d", "10", ("0", "0", "10", "10"), None, "er", true, true);
    assert!(got.ends_with(
        r#"aria-roledescription="er" aria-describedby="chart-desc-d" aria-labelledby="chart-title-d">"#
    ));
}

#[test]
fn drop_shadow_defs_contain_both_filters() {
    let s = emit_defs_shell("svg1", true, true);
    assert!(s.contains(r#"id="svg1-drop-shadow""#));
    assert!(s.contains(r#"id="svg1-drop-shadow-small""#));
    assert!(s.contains(r#"dx="4""#));
    assert!(s.contains(r#"dx="2""#));
}

#[test]
fn defs_shell_flags() {
    assert_eq!(emit_defs_shell("a", false, false), "");
    let only_small = emit_defs_shell("a", false, true);
    assert!(only_small.starts_with(r#"<defs><filter id="a-drop-shadow-small""#));
    assert!(!only_small.contains(r#"dx="4""#));
}

#[test]
fn marker_color_id_strips_non_alphanum() {
    assert_eq!(marker_color_id("#f66"), "_f66");
    assert_eq!(marker_color_id(" orange"), "_orange");
    assert_eq!(marker_color_id("orange"), "orange");
    assert_eq!(marker_color_id("#D50000"), "_D50000");
    assert_eq!(marker_color_id("greenyellow"), "greenyellow");
}

#[test]
fn colored_marker_point_end_byte_exact() {
    let got = colored_marker(
        "point",
        "End",
        "flowchart-v2",
        "ref-ext-fixtures-cypress-flowchart-197",
        "#f66",
    );
    let expected = r##"<marker id="ref-ext-fixtures-cypress-flowchart-197_flowchart-v2-pointEnd__f66" class="marker flowchart-v2" viewBox="0 0 10 10" refX="5" refY="5" markerUnits="userSpaceOnUse" markerWidth="8" markerHeight="8" orient="auto"><path d="M 0 0 L 10 5 L 0 10 z" class="arrowMarkerPath" style="stroke-width: 1; stroke-dasharray: 1,0;" stroke="#f66" fill="#f66"></path></marker>"##;
    assert_eq!(got, expected);
}

#[test]
fn colored_marker_with_leading_space_orange() {
    let got = colored_marker(
        "point",
        "End",
        "flowchart-v2",
        "ref-ext-fixtures-cypress-flowchart-143",
        " orange",
    );
    let expected = r##"<marker id="ref-ext-fixtures-cypress-flowchart-143_flowchart-v2-pointEnd__orange" class="marker flowchart-v2" viewBox="0 0 10 10" refX="5" refY="5" markerUnits="userSpaceOnUse" markerWidth="8" markerHeight="8" orient="auto"><path d="M 0 0 L 10 5 L 0 10 z" class="arrowMarkerPath" style="stroke-width: 1; stroke-dasharray: 1,0;" stroke=" orange" fill=" orange"></path></marker>"##;
    assert_eq!(got, expected);
}

#[test]
fn colored_marker_other_families() {
    let c = colored_marker("circle", "Start", "k", "p", "red");
    assert_eq!(
        c,
        r#"<marker id="p_k-circleStart_red" class="marker k" viewBox="0 0 10 10" refX="-1" refY="5" markerUnits="userSpaceOnUse" markerWidth="11" markerHeight="11" orient="auto"><circle cx="5" cy="5" r="5" class="arrowMarkerPath" style="stroke-width: 1; stroke-dasharray: 1,0;" stroke="red"></circle></marker>"#
    );
    let x = colored_marker("cross", "End", "k", "p", "red");
    assert!(x.starts_with(r#"<marker id="p_k-crossEnd_red" class="marker cross k" viewBox="0 0 11 11" refX="12" refY="5.2""#));
    assert_eq!(colored_marker("barb", "End", "k", "p", "red"), "");
    assert_eq!(colored_marker("point", "Middle", "k", "p", "red"), "");
}

#[test]
fn extract_stroke_color_finds_first_match() {
    assert_eq!(
        extract_stroke_color("fill:#bbf;stroke:#f66;stroke-width:2px;color:white;"),
        Some("#f66".to_string())
    );
    assert_eq!(extract_stroke_color("color:orange, stroke: orange;"), Some(" orange".to_string()));
    assert_eq!(extract_stroke_color("fill:none;stroke-width:1px;"), None);
    assert_eq!(extract_stroke_color(";;"), None);
}

#[test]
fn extract_stroke_color_boundaries() {
    assert_eq!(extract_stroke_color("mystroke:red;stroke:blue"), Some("blue".to_string()));
    assert_eq!(extract_stroke_color("stroke:"), None);
    assert_eq!(extract_stroke_color("stroke:;"), None);
    assert_eq!(extract_stroke_color("stroke:;stroke:red"), Some("red".to_string()));
    assert_eq!(extract_stroke_color("a-stroke:red"), None);
}

#[test]
fn data_edge_attrs_round_trip() {
    let pts = vec![pt("1", "2.5"), pt("3", "4")];
    let got = data_edge_attrs(&pts);
    let attr_prefix = r#"data-edge="true" data-points=""#;
    assert!(got.starts_with(attr_prefix));
    let b64 = &got[attr_prefix.len()..got.len() - 1];
    let bytes = decode_b64(b64);
    assert_eq!(bytes, r#"[{"x":1,"y":2.5},{"x":3,"y":4}]"#);
}

#[test]
fn data_edge_attrs_empty_polyline() {
    assert_eq!(data_edge_attrs(&[]), r#"data-edge="true" data-points="W10=""#);
}

#[test]
fn base64_encode_padding() {
    assert_eq!(base64_encode(b""), "");
    assert_eq!(base64_encode(b"f"), "Zg==");
    assert_eq!(base64_encode(b"fo"), "Zm8=");
    assert_eq!(base64_encode(b"foo"), "Zm9v");
    assert_eq!(base64_encode(b"foobar"), "Zm9vYmFy");
    assert_eq!(base64_encode(&[0xff, 0xfe, 0x00]), "//4A");
}

#[test]
fn a11y_elements_escape_text() {
    assert_eq!(emit_a11y_elements("d", None, None), "");
    assert_eq!(
        emit_a11y_elements("d", Some("A<B & 'c'"), Some("\"x\"")),
        r#"<title id="chart-title-d">A&lt;B &amp; &#39;c&#39;</title><desc id="chart-desc-d">&quot;x&quot;</desc>"#
    );
}

#[test]
fn fixed_tags() {
    assert_eq!(close_unified_svg(), "</svg>");
    assert_eq!(seed_group(), "<g></g>");
    assert_eq!(open_seed_group(), "<g>");
    assert_eq!(close_seed_group(), "</g>");
    assert_eq!(open_root_group(), r#"<g class="root">"#);
    assert_eq!(close_root_group(), "</g>");
    assert_eq!(open_layer("nodes"), r#"<g class="nodes">"#);
    assert_eq!(close_layer(), "</g>");
    assert_eq!(emit_style_block("a{b:c}"), "<style>a{b:c}</style>");
}

#[test]
fn gradient_defs_only_with_gradient() {
    let mut th = ThemeVariables::new();
    assert_eq!(emit_gradient_defs("g", &th), "");
    th.use_gradient = Some(true);
    th.gradient_start = Some("#a".to_string());
    assert_eq!(
        emit_gradient_defs("g", &th),
        "<linearGradient id=\"g-gradient\" gradientUnits=\"objectBoundingBox\" x1=\"0%\" y1=\"0%\" x2=\"100%\" y2=\"0%\"><stop offset=\"0%\" stop-color=\"#a\" stop-opacity=\"1\"></stop><stop offset=\"100%\" stop-color=\"\" stop-opacity=\"1\"></stop></linearGradient>"
    );
}
