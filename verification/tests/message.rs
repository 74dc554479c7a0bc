use vison::message::{
    emit_message, self_path_start_offset, ArrowKind, CentralConnection, MessageLine, MessageText,
};

fn base(arrow: ArrowKind) -> MessageText {
    MessageText {
        is_self: false,
        from: "A".to_string(),
        to: "B".to_string(),
        lines: vec![MessageLine { y: "10".to_string(), text: "hi".to_string() }],
        arrow,
        text_x: "50".to_string(),
        line_start_y: "30".to_string(),
        line_x1: "0".to_string(),
        line_x2: "100".to_string(),
        self_path_d: String::new(),
        idx: 0,
        seq_number: None,
        seq_x: "5".to_string(),
        seq_text_y: "34".to_string(),
        central: None,
        from_cx: "0".to_string(),
        to_cx: "100".to_string(),
    }
}

const TEXT_HI: &str = "<text x=\"50\" y=\"10\" text-anchor=\"middle\" dominant-baseline=\"middle\" alignment-baseline=\"middle\" style=\"font-family: &quot;trebuchet ms&quot;, verdana, arial; font-size: 16px; font-weight: 400;\" class=\"messageText\" dy=\"1em\">hi</text>";

#[test]
fn solid_arrow_message_exact() {
    let out = emit_message("s", &base(ArrowKind::SolidArrow));
    let expected = format!(
        "{TEXT_HI}<line x1=\"0\" y1=\"30\" x2=\"100\" y2=\"30\" class=\"messageLine0\" data-et=\"message\" data-id=\"i0\" data-from=\"A\" data-to=\"B\" stroke-width=\"2\" stroke=\"none\" style=\"fill: none;\" marker-end=\"url(#s-arrowhead)\"></line>"
    );
    assert_eq!(out, expected);
}

#[test]
fn dotted_cross_with_circle_and_number_exact() {
    let mut m = base(ArrowKind::DottedCross);
    m.lines = vec![];
    m.idx = 2;
    m.seq_number = Some(3);
    m.central = Some(CentralConnection::AtTo);
    let out = emit_message("s", &m);
    let expected = "<line x1=\"0\" y1=\"30\" x2=\"100\" y2=\"30\" style=\"stroke-dasharray: 3, 3; fill: none;\" class=\"messageLine1\" data-et=\"message\" data-id=\"i2\" data-from=\"A\" data-to=\"B\" stroke-width=\"2\" stroke=\"none\" marker-end=\"url(#s-crosshead)\"></line><g><circle cx=\"100\" cy=\"30\" r=\"5\" width=\"10\" height=\"10\"></circle></g><line x1=\"5\" y1=\"30\" x2=\"5\" y2=\"30\" stroke-width=\"0\" marker-start=\"url(#s-sequencenumber)\"></line><text x=\"5\" y=\"34\" font-family=\"sans-serif\" font-size=\"12px\" text-anchor=\"middle\" class=\"sequenceNumber\">3</text>";
    assert_eq!(out, expected);
}

#[test]
fn open_line_has_no_marker() {
    let out = emit_message("s", &base(ArrowKind::SolidLine));
    assert!(out.ends_with("stroke=\"none\" style=\"fill: none;\"></line>"));
    assert!(!out.contains("marker"));
}

#[test]
fn bidirectional_has_both_markers() {
    let out = emit_message("d", &base(ArrowKind::BiDotted));
    assert!(out.contains("class=\"messageLine1\""));
    assert!(out.contains(
        "marker-start=\"url(#d-arrowhead)\" marker-end=\"url(#d-arrowhead)\"></line>"
    ));
}

#[test]
fn half_arrow_markers() {
    let out = emit_message("s", &base(ArrowKind::StickBottomDotted));
    assert!(out.contains("marker-end=\"url(#s-stickBottomArrowHead)\"></line>"));
    let out = emit_message("s", &base(ArrowKind::SolidTopReverse));
    assert!(out.contains("marker-start=\"url(#s-solidBottomArrowHead)\"></line>"));
    let out = emit_message("s", &base(ArrowKind::DottedPoint));
    assert!(out.contains("marker-end=\"url(#s-filled-head)\"></line>"));
}

#[test]
fn numbered_reverse_self_message_lists_x2_before_x1() {
    let mut m = base(ArrowKind::StickTopReverse);
    m.is_self = true;
    m.to = "A".to_string();
    m.lines = vec![];
    m.idx = 1;
    m.self_path_d = "M 10,30 C 80,20 70,60 10,50".to_string();
    m.line_x1 = "16".to_string();
    m.line_x2 = "7".to_string();
    m.seq_number = Some(1);
    let out = emit_message("s", &m);
    assert!(out.starts_with(
        "<path d=\"M 10,30 C 80,20 70,60 10,50\" class=\"messageLine0\" data-et=\"message\" data-id=\"i1\" data-from=\"A\" data-to=\"A\""
    ));
    assert!(out.contains(
        "marker-start=\"url(#s-stickBottomArrowHead)\" x2=\"7\" x1=\"16\"></path>"
    ));
}

#[test]
fn unnumbered_self_message_has_no_coordinates() {
    let mut m = base(ArrowKind::SolidArrow);
    m.is_self = true;
    m.lines = vec![];
    m.self_path_d = "M 0,0".to_string();
    let out = emit_message("s", &m);
    assert!(out.ends_with("marker-end=\"url(#s-arrowhead)\"></path>"));
}

#[test]
fn empty_label_line_is_zero_width_space() {
    let mut m = base(ArrowKind::SolidArrow);
    m.lines = vec![MessageLine { y: "1".to_string(), text: String::new() }];
    let out = emit_message("s", &m);
    assert!(out.contains("dy=\"1em\">\u{200B}</text>"));
}

#[test]
fn label_and_actor_names_are_escaped() {
    let mut m = base(ArrowKind::SolidArrow);
    m.from = "a\"b".to_string();
    m.lines = vec![MessageLine { y: "1".to_string(), text: "x<y".to_string() }];
    let out = emit_message("s", &m);
    assert!(out.contains(">x&lt;y</text>"));
    assert!(out.contains("data-from=\"a&quot;b\""));
}

#[test]
fn self_path_offset_only_for_reverse_half_arrows() {
    assert_eq!(self_path_start_offset(ArrowKind::SolidTopReverse), 10);
    assert_eq!(self_path_start_offset(ArrowKind::StickBottomReverseDotted), 10);
    assert_eq!(self_path_start_offset(ArrowKind::SolidTop), 0);
    assert_eq!(self_path_start_offset(ArrowKind::SolidArrow), 0);
}
