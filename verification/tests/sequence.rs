use vison::sequence::{
    actor_rect_style,
    attr_escape, compute_stick_ids, placeholder, push_popup_g_open,
    resolve_hash_entities_for_measure, split_br, try_consume_hash_entity,
    try_consume_hash_entity_name, utf8_char_len, xml_escape,
};

#[test]
fn split_br_on_every_tag_form() {
    let got = split_br("a<br>b<BR/>c< br>d<br />e<bR\t/ >f");
    assert_eq!(got, vec!["a", "b", "c< br>d", "e", "f"]);
}

#[test]
fn split_br_without_tags_keeps_text() {
    assert_eq!(split_br("plain text"), vec!["plain text"]);
    assert_eq!(split_br(""), vec![""]);
    assert_eq!(split_br("<br>"), vec!["", ""]);
    assert_eq!(split_br("x<br"), vec!["x<br"]);
}

#[test]
fn xml_escape_entities_and_placeholders() {
    assert_eq!(
        xml_escape("a<b>&c #lt; #123; #x y;"),
        "a&lt;b&gt;&amp;c &lt; &#123; #x y;"
    );
    assert_eq!(xml_escape("caf\u{e9} \"q\""), "caf\u{e9} \"q\"");
    assert_eq!(xml_escape("#;"), "#;");
    assert_eq!(xml_escape("#a_1;"), "&a_1;");
}

#[test]
fn attr_escape_quotes() {
    assert_eq!(attr_escape("say \"hi\" #quot;"), "say &quot;hi&quot; &quot;");
    assert_eq!(attr_escape("<&>"), "&lt;&amp;&gt;");
}

#[test]
fn hash_entity_consumption() {
    assert_eq!(try_consume_hash_entity(b"#amp;x", 0), Some(("&amp;".to_string(), 5)));
    assert_eq!(try_consume_hash_entity(b"x#12;", 1), Some(("&#12;".to_string(), 5)));
    assert_eq!(try_consume_hash_entity(b"x#12;", 0), None);
    assert_eq!(try_consume_hash_entity(b"#a b;", 0), None);
    assert_eq!(try_consume_hash_entity(b"#abc", 0), None);
    assert_eq!(try_consume_hash_entity(b"#", 3), None);
}

#[test]
fn hash_entity_name_consumption() {
    assert_eq!(
        try_consume_hash_entity_name(b"#12;", 0),
        Some(("12".to_string(), true, 4))
    );
    assert_eq!(
        try_consume_hash_entity_name(b"ab#colon;", 2),
        Some(("colon".to_string(), false, 9))
    );
    assert_eq!(try_consume_hash_entity_name(b"#;", 0), None);
    assert_eq!(try_consume_hash_entity_name(b"#a-b;", 0), None);
}

#[test]
fn measure_form_of_placeholders() {
    assert_eq!(
        resolve_hash_entities_for_measure("A #lt; B #35; C"),
        "A \u{FB02}\u{B0}lt\u{B6}\u{DF} B \u{FB02}\u{B0}\u{B0}35\u{B6}\u{DF} C"
    );
    // Bytes outside entities come out as Latin-1 characters.
    assert_eq!(resolve_hash_entities_for_measure("\u{e9}"), "\u{c3}\u{a9}");
    assert_eq!(resolve_hash_entities_for_measure("#x"), "#x");
}

#[test]
fn utf8_lead_byte_lengths() {
    assert_eq!(utf8_char_len(0x41), 1);
    assert_eq!(utf8_char_len(0x80), 1);
    assert_eq!(utf8_char_len(0xC3), 2);
    assert_eq!(utf8_char_len(0xE2), 3);
    assert_eq!(utf8_char_len(0xF0), 4);
}

#[test]
fn popup_toggle_opening_tag() {
    let mut s = String::from("<g>");
    push_popup_g_open(&mut s, 3);
    assert_eq!(
        s,
        "<g><g onclick=\"var pu = document.getElementById('actor3_popup'); if (pu != null) { pu.style.display = pu.style.display == 'block' ? 'none' : 'block'; }\" cursor=\"pointer\">"
    );
}

#[test]
fn stick_ids_reuse_top_pair_of_last_actor() {
    let ids = compute_stick_ids(&[true, false, true], 3);
    assert_eq!(ids.top, vec![(0, 1), (0, 0), (2, 3)]);
    assert_eq!(ids.bottom, vec![(2, 3), (0, 0), (2, 3)]);
}

#[test]
fn stick_ids_fresh_bottom_pair() {
    let ids = compute_stick_ids(&[true, true], 5);
    assert_eq!(ids.top, vec![(0, 1), (2, 3)]);
    assert_eq!(ids.bottom, vec![(4, 5), (4, 5)]);
    let ids = compute_stick_ids(&[false, true], 0);
    assert_eq!(ids.top, vec![(0, 0), (0, 1)]);
    assert_eq!(ids.bottom, vec![(0, 0), (2, 3)]);
}

#[test]
fn placeholder_svg() {
    assert_eq!(
        placeholder("s1"),
        "<svg id=\"s1\" width=\"100%\" xmlns=\"http://www.w3.org/2000/svg\" viewBox=\"0 0 100 100\" role=\"graphics-document document\" aria-roledescription=\"sequence\"></svg>"
    );
}

#[test]
fn actor_rect_styles() {
    assert_eq!(actor_rect_style(Some("fancy")), ("#EDF2AE", "fancy"));
    assert_eq!(actor_rect_style(None), ("#eaeaea", "actor"));
}
