//! One message of a sequence diagram as SVG: its label lines, the arrow line
//! (or self-loop path) with its class, dashing and marker references, the
//! central-connection circles and the autonumber marker. Coordinates arrive
//! printed; what is decided here is which elements, classes and markers the
//! arrow kind calls for.
use vstd::prelude::*;
use crate::chars::{append_decimal, append_int, decimal, int_text, push_char};
use crate::sequence::{attr_escape, escape_from, xml_escape};
use crate::shell::opt_view;

verus! {

/// How a message arrow is drawn, one variant per arrow syntax: solid or
/// dotted line, with an arrowhead, none, a cross, a filled point, heads on
/// both ends, or a half arrowhead (filled or stick, top or bottom) at the
/// receiver or, for the `Reverse` kinds, at the sender.
#[derive(PartialEq, Eq, Structural, Clone, Copy, Debug)]
pub enum ArrowKind {
    SolidArrow,
    DottedArrow,
    SolidLine,
    DottedLine,
    SolidCross,
    DottedCross,
    SolidPoint,
    DottedPoint,
    BiSolid,
    BiDotted,
    SolidTop,
    SolidBottom,
    StickTop,
    StickBottom,
    SolidTopDotted,
    SolidBottomDotted,
    StickTopDotted,
    StickBottomDotted,
    SolidTopReverse,
    SolidBottomReverse,
    StickTopReverse,
    StickBottomReverse,
    SolidTopReverseDotted,
    SolidBottomReverseDotted,
    StickTopReverseDotted,
    StickBottomReverseDotted,
}

/// Where a central-connection circle is drawn on the message line.
#[derive(PartialEq, Eq, Structural, Clone, Copy, Debug)]
pub enum CentralConnection {
    AtTo,
    AtFrom,
    Dual,
}

/// One label line of a message with its printed baseline.
pub struct MessageLine {
    pub y: String,
    pub text: String,
}

/// A message with its printed geometry.
///
/// `self_path_d` is the path data of a self-message (`M x,y C ...`);
/// `line_x1`, `line_x2` and `line_start_y` place the arrow line;
/// `seq_x` and `seq_text_y` place the autonumber marker and its text;
/// `from_cx` and `to_cx` are the lifeline centres of sender and receiver.
pub struct MessageText {
    pub is_self: bool,
    pub from: String,
    pub to: String,
    pub lines: Vec<MessageLine>,
    pub arrow: ArrowKind,
    pub text_x: String,
    pub line_start_y: String,
    pub line_x1: String,
    pub line_x2: String,
    pub self_path_d: String,
    pub idx: u64,
    pub seq_number: Option<i64>,
    pub seq_x: String,
    pub seq_text_y: String,
    pub central: Option<CentralConnection>,
    pub from_cx: String,
    pub to_cx: String,
}

/// Dotted kinds: their line gets class `messageLine1` and a dash pattern.
pub open spec fn is_dashed(a: ArrowKind) -> bool {
    match a {
        ArrowKind::DottedArrow | ArrowKind::DottedLine | ArrowKind::DottedCross
        | ArrowKind::DottedPoint | ArrowKind::BiDotted | ArrowKind::SolidTopDotted
        | ArrowKind::SolidBottomDotted | ArrowKind::StickTopDotted
        | ArrowKind::StickBottomDotted | ArrowKind::SolidTopReverseDotted
        | ArrowKind::SolidBottomReverseDotted | ArrowKind::StickTopReverseDotted
        | ArrowKind::StickBottomReverseDotted => true,
        _ => false,
    }
}

/// The half-arrowhead marker (id suffix) at the receiver's end.
pub open spec fn half_end_marker(a: ArrowKind) -> Option<Seq<char>> {
    match a {
        ArrowKind::SolidTop | ArrowKind::SolidTopDotted => Some("-solidTopArrowHead"@),
        ArrowKind::SolidBottom | ArrowKind::SolidBottomDotted => Some("-solidBottomArrowHead"@),
        ArrowKind::StickTop | ArrowKind::StickTopDotted => Some("-stickTopArrowHead"@),
        ArrowKind::StickBottom | ArrowKind::StickBottomDotted => Some("-stickBottomArrowHead"@),
        _ => None,
    }
}

/// The half-arrowhead marker at the sender's end for the reverse kinds; it is
/// the mirrored marker (top and bottom swapped), as the marker is drawn
/// reversed at the start of the line.
pub open spec fn half_start_marker(a: ArrowKind) -> Option<Seq<char>> {
    match a {
        ArrowKind::SolidTopReverse | ArrowKind::SolidTopReverseDotted => Some(
            "-solidBottomArrowHead"@,
        ),
        ArrowKind::SolidBottomReverse | ArrowKind::SolidBottomReverseDotted => Some(
            "-solidTopArrowHead"@,
        ),
        ArrowKind::StickTopReverse | ArrowKind::StickTopReverseDotted => Some(
            "-stickBottomArrowHead"@,
        ),
        ArrowKind::StickBottomReverse | ArrowKind::StickBottomReverseDotted => Some(
            "-stickTopArrowHead"@,
        ),
        _ => None,
    }
}

/// The marker attributes of the arrow line: arrowheads at both ends, an
/// arrowhead, a cross or a filled point at the end, a half arrowhead at the
/// end or at the start, or none.
pub open spec fn marker_attr(id: Seq<char>, a: ArrowKind) -> Seq<char> {
    if a == ArrowKind::BiSolid || a == ArrowKind::BiDotted {
        "\" marker-start=\"url(#"@ + id + "-arrowhead)\" marker-end=\"url(#"@ + id + "-arrowhead)"@
    } else if a == ArrowKind::SolidArrow || a == ArrowKind::DottedArrow {
        "\" marker-end=\"url(#"@ + id + "-arrowhead)"@
    } else if a == ArrowKind::SolidCross || a == ArrowKind::DottedCross {
        "\" marker-end=\"url(#"@ + id + "-crosshead)"@
    } else if a == ArrowKind::SolidPoint || a == ArrowKind::DottedPoint {
        "\" marker-end=\"url(#"@ + id + "-filled-head)"@
    } else {
        match half_end_marker(a) {
            Some(mk) => "\" marker-end=\"url(#"@ + id + mk + ")"@,
            None => match half_start_marker(a) {
                Some(mk) => "\" marker-start=\"url(#"@ + id + mk + ")"@,
                None => Seq::empty(),
            },
        }
    }
}

/// The attributes shared by the arrow line and the self-loop path, after
/// their coordinates: dash style, class, data attributes, stroke and markers.
pub open spec fn line_attrs(id: Seq<char>, m: MessageText) -> Seq<char> {
    let d = is_dashed(m.arrow);
    (if d {
        "\" style=\"stroke-dasharray: 3, 3; fill: none;"@
    } else {
        Seq::empty()
    }) + "\" class=\"messageLine"@ + (if d {
        "1"@
    } else {
        "0"@
    }) + "\" data-et=\"message\" data-id=\"i"@ + decimal(m.idx as nat) + "\" data-from=\""@
        + escape_from(m.from@, 0, true) + "\" data-to=\""@ + escape_from(m.to@, 0, true) + (if d {
        "\" stroke-width=\"2\" stroke=\"none"@
    } else {
        "\" stroke-width=\"2\" stroke=\"none\" style=\"fill: none;"@
    }) + marker_attr(id, m.arrow)
}

/// The font family of message labels.
pub open spec fn message_font() -> Seq<char> {
    "\"trebuchet ms\", verdana, arial"@
}

/// One label line; an empty line is drawn as a zero-width space so that it
/// still has a height.
pub open spec fn text_line_svg(x: Seq<char>, l: MessageLine) -> Seq<char> {
    "<text x=\""@ + x + "\" y=\""@ + l.y@
        + "\" text-anchor=\"middle\" dominant-baseline=\"middle\" alignment-baseline=\"middle\" style=\"font-family: "@
        + escape_from(message_font(), 0, true)
        + "; font-size: 16px; font-weight: 400;\" class=\"messageText\" dy=\"1em\">"@ + (if l.text@.len()
        == 0 {
        seq!['\u{200B}']
    } else {
        escape_from(l.text@, 0, false)
    }) + "</text>"@
}

/// The label lines, in order.
pub open spec fn text_lines_svg(x: Seq<char>, lines: Seq<MessageLine>) -> Seq<char>
    decreases lines.len(),
{
    if lines.len() == 0 {
        Seq::empty()
    } else {
        text_lines_svg(x, lines.drop_last()) + text_line_svg(x, lines.last())
    }
}

/// The line coordinates a numbered self-message carries after its markers:
/// `x1`, preceded by `x2` when the head sits at the sender.
pub open spec fn self_coords(m: MessageText) -> Seq<char> {
    if m.seq_number is Some {
        (if half_start_marker(m.arrow) is Some {
            "\" x2=\""@ + m.line_x2@
        } else {
            Seq::empty()
        }) + "\" x1=\""@ + m.line_x1@
    } else {
        Seq::empty()
    }
}

/// The arrow itself: a cubic path for a self-message, a straight line
/// otherwise.
pub open spec fn arrow_svg(id: Seq<char>, m: MessageText) -> Seq<char> {
    if m.is_self {
        "<path d=\""@ + m.self_path_d@ + line_attrs(id, m) + self_coords(m) + "\"></path>"@
    } else {
        "<line x1=\""@ + m.line_x1@ + "\" y1=\""@ + m.line_start_y@ + "\" x2=\""@ + m.line_x2@
            + "\" y2=\""@ + m.line_start_y@ + line_attrs(id, m) + "\"></line>"@
    }
}

/// A central-connection circle.
pub open spec fn circle_svg(cx: Seq<char>, cy: Seq<char>) -> Seq<char> {
    "<circle cx=\""@ + cx + "\" cy=\""@ + cy + "\" r=\"5\" width=\"10\" height=\"10\"></circle>"@
}

/// The central-connection circles: at the receiver, at the sender, or both.
pub open spec fn central_svg(m: MessageText) -> Seq<char> {
    match m.central {
        Some(CentralConnection::AtTo) => "<g>"@ + circle_svg(m.to_cx@, m.line_start_y@) + "</g>"@,
        Some(CentralConnection::AtFrom) => "<g>"@ + circle_svg(m.from_cx@, m.line_start_y@)
            + "</g>"@,
        Some(CentralConnection::Dual) => "<g>"@ + circle_svg(m.from_cx@, m.line_start_y@)
            + circle_svg(m.to_cx@, m.line_start_y@) + "</g>"@,
        None => Seq::empty(),
    }
}

/// The autonumber marker line and number, when the message is numbered.
pub open spec fn seq_number_svg(id: Seq<char>, m: MessageText) -> Seq<char> {
    match m.seq_number {
        Some(n) => "<line x1=\""@ + m.seq_x@ + "\" y1=\""@ + m.line_start_y@ + "\" x2=\""@
            + m.seq_x@ + "\" y2=\""@ + m.line_start_y@
            + "\" stroke-width=\"0\" marker-start=\"url(#"@ + id
            + "-sequencenumber)\"></line><text x=\""@ + m.seq_x@ + "\" y=\""@ + m.seq_text_y@
            + "\" font-family=\"sans-serif\" font-size=\"12px\" text-anchor=\"middle\" class=\"sequenceNumber\">"@
            + int_text(n as int) + "</text>"@,
        None => Seq::empty(),
    }
}

/// The whole message: label lines, arrow, circles, autonumber.
pub open spec fn message_svg(id: Seq<char>, m: MessageText) -> Seq<char> {
    text_lines_svg(m.text_x@, m.lines@) + arrow_svg(id, m) + central_svg(m) + seq_number_svg(id, m)
}

fn dashed(a: ArrowKind) -> (r: bool)
    ensures
        r == is_dashed(a),
{
    match a {
        ArrowKind::DottedArrow | ArrowKind::DottedLine | ArrowKind::DottedCross
        | ArrowKind::DottedPoint | ArrowKind::BiDotted | ArrowKind::SolidTopDotted
        | ArrowKind::SolidBottomDotted | ArrowKind::StickTopDotted
        | ArrowKind::StickBottomDotted | ArrowKind::SolidTopReverseDotted
        | ArrowKind::SolidBottomReverseDotted | ArrowKind::StickTopReverseDotted
        | ArrowKind::StickBottomReverseDotted => true,
        _ => false,
    }
}

fn end_marker(a: ArrowKind) -> (r: Option<&'static str>)
    ensures
        opt_view(r) == half_end_marker(a),
{
    match a {
        ArrowKind::SolidTop | ArrowKind::SolidTopDotted => Some("-solidTopArrowHead"),
        ArrowKind::SolidBottom | ArrowKind::SolidBottomDotted => Some("-solidBottomArrowHead"),
        ArrowKind::StickTop | ArrowKind::StickTopDotted => Some("-stickTopArrowHead"),
        ArrowKind::StickBottom | ArrowKind::StickBottomDotted => Some("-stickBottomArrowHead"),
        _ => None,
    }
}

fn start_marker(a: ArrowKind) -> (r: Option<&'static str>)
    ensures
        opt_view(r) == half_start_marker(a),
{
    match a {
        ArrowKind::SolidTopReverse | ArrowKind::SolidTopReverseDotted => Some(
            "-solidBottomArrowHead",
        ),
        ArrowKind::SolidBottomReverse | ArrowKind::SolidBottomReverseDotted => Some(
            "-solidTopArrowHead",
        ),
        ArrowKind::StickTopReverse | ArrowKind::StickTopReverseDotted => Some(
            "-stickBottomArrowHead",
        ),
        ArrowKind::StickBottomReverse | ArrowKind::StickBottomReverseDotted => Some(
            "-stickTopArrowHead",
        ),
        _ => None,
    }
}

/// Horizontal shift of the start of a self-message's path: 10 when the
/// arrow's head sits at the sender (reverse half arrows), else 0.
pub fn self_path_start_offset(a: ArrowKind) -> (r: u8)
    ensures
        r == (if half_start_marker(a) is Some {
            10u8
        } else {
            0u8
        }),
        r == 10 || r == 0,
        r == 10 <==> (a == ArrowKind::SolidTopReverse || a == ArrowKind::SolidBottomReverse || a == ArrowKind::StickTopReverse || a == ArrowKind::StickBottomReverse || a == ArrowKind::SolidTopReverseDotted || a == ArrowKind::SolidBottomReverseDotted || a == ArrowKind::StickTopReverseDotted || a == ArrowKind::StickBottomReverseDotted),
{
    match start_marker(a) {
        Some(_) => 10,
        None => 0,
    }
}

fn push_marker_attr(out: &mut String, id: &str, a: ArrowKind)
    ensures
        final(out)@ == old(out)@ + marker_attr(id@, a),
{
    if a == ArrowKind::BiSolid || a == ArrowKind::BiDotted {
        out.append("\" marker-start=\"url(#");
        out.append(id);
        out.append("-arrowhead)\" marker-end=\"url(#");
        out.append(id);
        out.append("-arrowhead)");
    } else if a == ArrowKind::SolidArrow || a == ArrowKind::DottedArrow {
        out.append("\" marker-end=\"url(#");
        out.append(id);
        out.append("-arrowhead)");
    } else if a == ArrowKind::SolidCross || a == ArrowKind::DottedCross {
        out.append("\" marker-end=\"url(#");
        out.append(id);
        out.append("-crosshead)");
    } else if a == ArrowKind::SolidPoint || a == ArrowKind::DottedPoint {
        out.append("\" marker-end=\"url(#");
        out.append(id);
        out.append("-filled-head)");
    } else {
        match end_marker(a) {
            Some(mk) => {
                out.append("\" marker-end=\"url(#");
                out.append(id);
                out.append(mk);
                out.append(")");
            },
            None => match start_marker(a) {
                Some(mk) => {
                    out.append("\" marker-start=\"url(#");
                    out.append(id);
                    out.append(mk);
                    out.append(")");
                },
                None => {},
            },
        }
    }
    assert(out@ =~= old(out)@ + marker_attr(id@, a));
}

fn push_line_attrs(out: &mut String, id: &str, m: &MessageText)
    ensures
        final(out)@ == old(out)@ + line_attrs(id@, *m),
{
    let d = dashed(m.arrow);
    if d {
        out.append("\" style=\"stroke-dasharray: 3, 3; fill: none;");
    }
    out.append("\" class=\"messageLine");
    if d {
        out.append("1");
    } else {
        out.append("0");
    }
    out.append("\" data-et=\"message\" data-id=\"i");
    append_decimal(out, m.idx);
    out.append("\" data-from=\"");
    let from = attr_escape(m.from.as_str());
    out.append(from.as_str());
    out.append("\" data-to=\"");
    let to = attr_escape(m.to.as_str());
    out.append(to.as_str());
    if d {
        out.append("\" stroke-width=\"2\" stroke=\"none");
    } else {
        out.append("\" stroke-width=\"2\" stroke=\"none\" style=\"fill: none;");
    }
    push_marker_attr(out, id, m.arrow);
    proof {
        reveal_strlit("");
    }
    assert(out@ =~= old(out)@ + line_attrs(id@, *m));
}

fn push_text_line(out: &mut String, x: &str, l: &MessageLine)
    ensures
        final(out)@ == old(out)@ + text_line_svg(x@, *l),
{
    out.append("<text x=\"");
    out.append(x);
    out.append("\" y=\"");
    out.append(l.y.as_str());
    out.append(
        "\" text-anchor=\"middle\" dominant-baseline=\"middle\" alignment-baseline=\"middle\" style=\"font-family: ",
    );
    let family = attr_escape("\"trebuchet ms\", verdana, arial");
    out.append(family.as_str());
    out.append("; font-size: 16px; font-weight: 400;\" class=\"messageText\" dy=\"1em\">");
    if l.text.as_str().unicode_len() == 0 {
        push_char(out, '\u{200B}');
    } else {
        let t = xml_escape(l.text.as_str());
        out.append(t.as_str());
    }
    out.append("</text>");
    assert(out@ =~= old(out)@ + text_line_svg(x@, *l));
}

fn push_text_lines(out: &mut String, x: &str, lines: &Vec<MessageLine>)
    ensures
        final(out)@ == old(out)@ + text_lines_svg(x@, lines@),
{
    let mut j: usize = 0;
    while j < lines.len()
        invariant
            j <= lines.len(),
            out@ == old(out)@ + text_lines_svg(x@, lines@.subrange(0, j as int)),
        decreases lines.len() - j,
    {
        push_text_line(out, x, &lines[j]);
        proof {
            let next = lines@.subrange(0, j + 1);
            assert(next.drop_last() =~= lines@.subrange(0, j as int));
            assert(next.last() == lines@[j as int]);
        }
        j = j + 1;
    }
    assert(lines@.subrange(0, lines.len() as int) =~= lines@);
}

fn push_arrow(out: &mut String, id: &str, m: &MessageText)
    ensures
        final(out)@ == old(out)@ + arrow_svg(id@, *m),
{
    if m.is_self {
        out.append("<path d=\"");
        out.append(m.self_path_d.as_str());
        push_line_attrs(out, id, m);
        let ghost mid = out@;
        if m.seq_number.is_some() {
            if start_marker(m.arrow).is_some() {
                out.append("\" x2=\"");
                out.append(m.line_x2.as_str());
            }
            out.append("\" x1=\"");
            out.append(m.line_x1.as_str());
        }
        proof {
            reveal_strlit("");
        }
        assert(out@ =~= mid + self_coords(*m));
        out.append("\"></path>");
    } else {
        out.append("<line x1=\"");
        out.append(m.line_x1.as_str());
        out.append("\" y1=\"");
        out.append(m.line_start_y.as_str());
        out.append("\" x2=\"");
        out.append(m.line_x2.as_str());
        out.append("\" y2=\"");
        out.append(m.line_start_y.as_str());
        push_line_attrs(out, id, m);
        out.append("\"></line>");
    }
    assert(out@ =~= old(out)@ + arrow_svg(id@, *m));
}

fn push_circle(out: &mut String, cx: &str, cy: &str)
    ensures
        final(out)@ == old(out)@ + circle_svg(cx@, cy@),
{
    out.append("<circle cx=\"");
    out.append(cx);
    out.append("\" cy=\"");
    out.append(cy);
    out.append("\" r=\"5\" width=\"10\" height=\"10\"></circle>");
    assert(out@ =~= old(out)@ + circle_svg(cx@, cy@));
}

fn push_central(out: &mut String, m: &MessageText)
    ensures
        final(out)@ == old(out)@ + central_svg(*m),
{
    match m.central {
        Some(cc) => {
            out.append("<g>");
            match cc {
                CentralConnection::AtTo => push_circle(out, m.to_cx.as_str(), m.line_start_y.as_str()),
                CentralConnection::AtFrom => push_circle(
                    out,
                    m.from_cx.as_str(),
                    m.line_start_y.as_str(),
                ),
                CentralConnection::Dual => {
                    push_circle(out, m.from_cx.as_str(), m.line_start_y.as_str());
                    push_circle(out, m.to_cx.as_str(), m.line_start_y.as_str());
                },
            }
            out.append("</g>");
        },
        None => {},
    }
    assert(out@ =~= old(out)@ + central_svg(*m));
}

fn push_seq_number(out: &mut String, id: &str, m: &MessageText)
    ensures
        final(out)@ == old(out)@ + seq_number_svg(id@, *m),
{
    match m.seq_number {
        Some(n) => {
            out.append("<line x1=\"");
            out.append(m.seq_x.as_str());
            out.append("\" y1=\"");
            out.append(m.line_start_y.as_str());
            out.append("\" x2=\"");
            out.append(m.seq_x.as_str());
            out.append("\" y2=\"");
            out.append(m.line_start_y.as_str());
            out.append("\" stroke-width=\"0\" marker-start=\"url(#");
            out.append(id);
            out.append("-sequencenumber)\"></line><text x=\"");
            out.append(m.seq_x.as_str());
            out.append("\" y=\"");
            out.append(m.seq_text_y.as_str());
            out.append(
                "\" font-family=\"sans-serif\" font-size=\"12px\" text-anchor=\"middle\" class=\"sequenceNumber\">",
            );
            append_int(out, n);
            out.append("</text>");
        },
        None => {},
    }
    assert(out@ =~= old(out)@ + seq_number_svg(id@, *m));
}

/// The SVG of one message: one `<text>` per label line, then the arrow (a
/// `<line>`, or a cubic `<path>` for a message to oneself) with class
/// `messageLine1` and a dash pattern for dotted kinds (`messageLine0`
/// otherwise) and the markers of its kind, then the central-connection
/// circles and the autonumber marker when present.
pub fn emit_message(id: &str, m: &MessageText) -> (r: String)
    ensures
        r@ == message_svg(id@, *m),
{
    let mut out = String::new();
    push_text_lines(&mut out, m.text_x.as_str(), &m.lines);
    push_arrow(&mut out, id, m);
    push_central(&mut out, m);
    push_seq_number(&mut out, id, m);
    proof {
        reveal_strlit("");
    }
    assert(out@ =~= message_svg(id@, *m));
    out
}

/// Law: the dotted kinds (arrows and lines spelt with two dashes, dotted
/// crosses, points, double arrows and half arrows) are drawn with the dash
/// pattern `3, 3` and class `messageLine1`; the solid kinds without a dash
/// pattern, with class `messageLine0` and `fill: none`.
pub proof fn law_dashed_by_kind(id: Seq<char>, m: MessageText)
    ensures
        (m.arrow == ArrowKind::DottedArrow
            || m.arrow == ArrowKind::DottedLine
            || m.arrow == ArrowKind::DottedCross
            || m.arrow == ArrowKind::DottedPoint
            || m.arrow == ArrowKind::BiDotted
            || m.arrow == ArrowKind::SolidTopDotted
            || m.arrow == ArrowKind::SolidBottomDotted
            || m.arrow == ArrowKind::StickTopDotted
            || m.arrow == ArrowKind::StickBottomDotted
            || m.arrow == ArrowKind::SolidTopReverseDotted
            || m.arrow == ArrowKind::SolidBottomReverseDotted
            || m.arrow == ArrowKind::StickTopReverseDotted
            || m.arrow == ArrowKind::StickBottomReverseDotted) ==> line_attrs(id, m)
            == "\" style=\"stroke-dasharray: 3, 3; fill: none;\" class=\"messageLine1\" data-et=\"message\" data-id=\"i"@
                + decimal(m.idx as nat) + "\" data-from=\""@ + escape_from(m.from@, 0, true)
                + "\" data-to=\""@ + escape_from(m.to@, 0, true)
                + "\" stroke-width=\"2\" stroke=\"none"@ + marker_attr(id, m.arrow),
        (m.arrow == ArrowKind::SolidArrow
            || m.arrow == ArrowKind::SolidLine
            || m.arrow == ArrowKind::SolidCross
            || m.arrow == ArrowKind::SolidPoint
            || m.arrow == ArrowKind::BiSolid
            || m.arrow == ArrowKind::SolidTop
            || m.arrow == ArrowKind::SolidBottom
            || m.arrow == ArrowKind::StickTop
            || m.arrow == ArrowKind::StickBottom
            || m.arrow == ArrowKind::SolidTopReverse
            || m.arrow == ArrowKind::SolidBottomReverse
            || m.arrow == ArrowKind::StickTopReverse
            || m.arrow == ArrowKind::StickBottomReverse) ==> line_attrs(id, m)
            == "\" class=\"messageLine0\" data-et=\"message\" data-id=\"i"@
                + decimal(m.idx as nat) + "\" data-from=\""@ + escape_from(m.from@, 0, true)
                + "\" data-to=\""@ + escape_from(m.to@, 0, true)
                + "\" stroke-width=\"2\" stroke=\"none\" style=\"fill: none;"@ + marker_attr(id, m.arrow),
{
    reveal_strlit("\" style=\"stroke-dasharray: 3, 3; fill: none;");
    reveal_strlit("\" class=\"messageLine");
    reveal_strlit("1");
    reveal_strlit("0");
    reveal_strlit("\" data-et=\"message\" data-id=\"i");
    reveal_strlit("\" style=\"stroke-dasharray: 3, 3; fill: none;\" class=\"messageLine1\" data-et=\"message\" data-id=\"i");
    reveal_strlit("\" class=\"messageLine0\" data-et=\"message\" data-id=\"i");
    let tail = decimal(m.idx as nat) + "\" data-from=\""@ + escape_from(m.from@, 0, true)
        + "\" data-to=\""@ + escape_from(m.to@, 0, true);
    if is_dashed(m.arrow) {
        assert("\" style=\"stroke-dasharray: 3, 3; fill: none;"@ + "\" class=\"messageLine"@ + "1"@
            + "\" data-et=\"message\" data-id=\"i"@
            =~= "\" style=\"stroke-dasharray: 3, 3; fill: none;\" class=\"messageLine1\" data-et=\"message\" data-id=\"i"@);
    } else {
        assert(Seq::<char>::empty() + "\" class=\"messageLine"@ + "0"@ + "\" data-et=\"message\" data-id=\"i"@
            =~= "\" class=\"messageLine0\" data-et=\"message\" data-id=\"i"@);
    }
    assert(line_attrs(id, m) =~= (if is_dashed(m.arrow) {
        "\" style=\"stroke-dasharray: 3, 3; fill: none;\" class=\"messageLine1\" data-et=\"message\" data-id=\"i"@
    } else {
        "\" class=\"messageLine0\" data-et=\"message\" data-id=\"i"@
    }) + tail + (if is_dashed(m.arrow) {
        "\" stroke-width=\"2\" stroke=\"none"@
    } else {
        "\" stroke-width=\"2\" stroke=\"none\" style=\"fill: none;"@
    }) + marker_attr(id, m.arrow));
}

/// Law: the markers of each arrow kind: arrowheads at both ends for the
/// double arrows; an arrowhead, a cross or a filled point at the receiver
/// for the plain arrows, crosses and points; none for open lines; the
/// matching half arrowhead at the receiver for the half arrows, and the
/// mirrored one (top and bottom swapped) at the sender for their reverse
/// kinds.
pub proof fn law_markers_by_kind(id: Seq<char>, a: ArrowKind)
    ensures
        a == ArrowKind::SolidArrow ==> marker_attr(id, a) == "\" marker-end=\"url(#"@ + id + "-arrowhead)"@,
        a == ArrowKind::DottedArrow ==> marker_attr(id, a) == "\" marker-end=\"url(#"@ + id + "-arrowhead)"@,
        a == ArrowKind::SolidCross ==> marker_attr(id, a) == "\" marker-end=\"url(#"@ + id + "-crosshead)"@,
        a == ArrowKind::DottedCross ==> marker_attr(id, a) == "\" marker-end=\"url(#"@ + id + "-crosshead)"@,
        a == ArrowKind::SolidPoint ==> marker_attr(id, a) == "\" marker-end=\"url(#"@ + id + "-filled-head)"@,
        a == ArrowKind::DottedPoint ==> marker_attr(id, a) == "\" marker-end=\"url(#"@ + id + "-filled-head)"@,
        a == ArrowKind::BiSolid ==> marker_attr(id, a) == "\" marker-start=\"url(#"@ + id + "-arrowhead)\" marker-end=\"url(#"@ + id + "-arrowhead)"@,
        a == ArrowKind::BiDotted ==> marker_attr(id, a) == "\" marker-start=\"url(#"@ + id + "-arrowhead)\" marker-end=\"url(#"@ + id + "-arrowhead)"@,
        a == ArrowKind::SolidLine ==> marker_attr(id, a) == Seq::<char>::empty(),
        a == ArrowKind::DottedLine ==> marker_attr(id, a) == Seq::<char>::empty(),
        a == ArrowKind::SolidTop ==> marker_attr(id, a) == "\" marker-end=\"url(#"@ + id + "-solidTopArrowHead)"@,
        a == ArrowKind::SolidTopDotted ==> marker_attr(id, a) == "\" marker-end=\"url(#"@ + id + "-solidTopArrowHead)"@,
        a == ArrowKind::SolidBottom ==> marker_attr(id, a) == "\" marker-end=\"url(#"@ + id + "-solidBottomArrowHead)"@,
        a == ArrowKind::SolidBottomDotted ==> marker_attr(id, a) == "\" marker-end=\"url(#"@ + id + "-solidBottomArrowHead)"@,
        a == ArrowKind::StickTop ==> marker_attr(id, a) == "\" marker-end=\"url(#"@ + id + "-stickTopArrowHead)"@,
        a == ArrowKind::StickTopDotted ==> marker_attr(id, a) == "\" marker-end=\"url(#"@ + id + "-stickTopArrowHead)"@,
        a == ArrowKind::StickBottom ==> marker_attr(id, a) == "\" marker-end=\"url(#"@ + id + "-stickBottomArrowHead)"@,
        a == ArrowKind::StickBottomDotted ==> marker_attr(id, a) == "\" marker-end=\"url(#"@ + id + "-stickBottomArrowHead)"@,
        a == ArrowKind::SolidTopReverse ==> marker_attr(id, a) == "\" marker-start=\"url(#"@ + id + "-solidBottomArrowHead)"@,
        a == ArrowKind::SolidTopReverseDotted ==> marker_attr(id, a) == "\" marker-start=\"url(#"@ + id + "-solidBottomArrowHead)"@,
        a == ArrowKind::SolidBottomReverse ==> marker_attr(id, a) == "\" marker-start=\"url(#"@ + id + "-solidTopArrowHead)"@,
        a == ArrowKind::SolidBottomReverseDotted ==> marker_attr(id, a) == "\" marker-start=\"url(#"@ + id + "-solidTopArrowHead)"@,
        a == ArrowKind::StickTopReverse ==> marker_attr(id, a) == "\" marker-start=\"url(#"@ + id + "-stickBottomArrowHead)"@,
        a == ArrowKind::StickTopReverseDotted ==> marker_attr(id, a) == "\" marker-start=\"url(#"@ + id + "-stickBottomArrowHead)"@,
        a == ArrowKind::StickBottomReverse ==> marker_attr(id, a) == "\" marker-start=\"url(#"@ + id + "-stickTopArrowHead)"@,
        a == ArrowKind::StickBottomReverseDotted ==> marker_attr(id, a) == "\" marker-start=\"url(#"@ + id + "-stickTopArrowHead)"@,
{
    reveal_strlit("-solidBottomArrowHead");
    reveal_strlit("-solidBottomArrowHead)");
    reveal_strlit("-solidTopArrowHead");
    reveal_strlit("-solidTopArrowHead)");
    reveal_strlit("-stickBottomArrowHead");
    reveal_strlit("-stickBottomArrowHead)");
    reveal_strlit("-stickTopArrowHead");
    reveal_strlit("-stickTopArrowHead)");
    reveal_strlit(")");
    match a {
        ArrowKind::SolidTop | ArrowKind::SolidTopDotted => {
            assert("-solidTopArrowHead"@ + ")"@ =~= "-solidTopArrowHead)"@);
        },
        ArrowKind::SolidBottom | ArrowKind::SolidBottomDotted | ArrowKind::SolidTopReverse
        | ArrowKind::SolidTopReverseDotted => {
            assert("-solidBottomArrowHead"@ + ")"@ =~= "-solidBottomArrowHead)"@);
        },
        ArrowKind::StickTop | ArrowKind::StickTopDotted | ArrowKind::StickBottomReverse
        | ArrowKind::StickBottomReverseDotted => {
            assert("-stickTopArrowHead"@ + ")"@ =~= "-stickTopArrowHead)"@);
        },
        ArrowKind::StickBottom | ArrowKind::StickBottomDotted | ArrowKind::StickTopReverse
        | ArrowKind::StickTopReverseDotted => {
            assert("-stickBottomArrowHead"@ + ")"@ =~= "-stickBottomArrowHead)"@);
        },
        ArrowKind::SolidBottomReverse | ArrowKind::SolidBottomReverseDotted => {
            assert("-solidTopArrowHead"@ + ")"@ =~= "-solidTopArrowHead)"@);
        },
        _ => {},
    }
    assert("\" marker-end=\"url(#"@ + id + "-solidTopArrowHead"@ + ")"@ =~= "\" marker-end=\"url(#"@ + id + ("-solidTopArrowHead"@ + ")"@));
    assert("\" marker-end=\"url(#"@ + id + "-solidBottomArrowHead"@ + ")"@ =~= "\" marker-end=\"url(#"@ + id + ("-solidBottomArrowHead"@ + ")"@));
    assert("\" marker-end=\"url(#"@ + id + "-stickTopArrowHead"@ + ")"@ =~= "\" marker-end=\"url(#"@ + id + ("-stickTopArrowHead"@ + ")"@));
    assert("\" marker-end=\"url(#"@ + id + "-stickBottomArrowHead"@ + ")"@ =~= "\" marker-end=\"url(#"@ + id + ("-stickBottomArrowHead"@ + ")"@));
    assert("\" marker-start=\"url(#"@ + id + "-solidTopArrowHead"@ + ")"@ =~= "\" marker-start=\"url(#"@ + id + ("-solidTopArrowHead"@ + ")"@));
    assert("\" marker-start=\"url(#"@ + id + "-solidBottomArrowHead"@ + ")"@ =~= "\" marker-start=\"url(#"@ + id + ("-solidBottomArrowHead"@ + ")"@));
    assert("\" marker-start=\"url(#"@ + id + "-stickTopArrowHead"@ + ")"@ =~= "\" marker-start=\"url(#"@ + id + ("-stickTopArrowHead"@ + ")"@));
    assert("\" marker-start=\"url(#"@ + id + "-stickBottomArrowHead"@ + ")"@ =~= "\" marker-start=\"url(#"@ + id + ("-stickBottomArrowHead"@ + ")"@));
}

/// Law: a message is its label lines, then a straight `<line>` from
/// (`line_x1`, `line_start_y`) to (`line_x2`, `line_start_y`), or for a
/// message to oneself a `<path>` along `self_path_d`, carrying the line
/// attributes of its kind, then its circles and its autonumber marker.
pub proof fn law_message_layout(id: Seq<char>, m: MessageText)
    ensures
        !m.is_self ==> message_svg(id, m) == text_lines_svg(m.text_x@, m.lines@) + "<line x1=\""@
            + m.line_x1@ + "\" y1=\""@ + m.line_start_y@ + "\" x2=\""@ + m.line_x2@ + "\" y2=\""@
            + m.line_start_y@ + line_attrs(id, m) + "\"></line>"@ + central_svg(m) + seq_number_svg(id, m),
        m.is_self ==> message_svg(id, m) == text_lines_svg(m.text_x@, m.lines@) + "<path d=\""@
            + m.self_path_d@ + line_attrs(id, m) + self_coords(m) + "\"></path>"@ + central_svg(m)
            + seq_number_svg(id, m),
        m.lines@.len() == 0 ==> text_lines_svg(m.text_x@, m.lines@).len() == 0,
        m.central is None ==> central_svg(m).len() == 0,
        m.seq_number is None ==> seq_number_svg(id, m).len() == 0,
{
}

/// Law: an unlabelled, unnumbered reply (`-->>`) between two actors, with no
/// circles, is a dashed line of class `messageLine1` ending in an arrowhead.
pub proof fn law_dotted_reply_message(id: Seq<char>, m: MessageText)
    requires
        m.arrow == ArrowKind::DottedArrow,
        !m.is_self,
        m.lines@.len() == 0,
        m.central is None,
        m.seq_number is None,
    ensures
        message_svg(id, m) == "<line x1=\""@ + m.line_x1@ + "\" y1=\""@ + m.line_start_y@
            + "\" x2=\""@ + m.line_x2@ + "\" y2=\""@ + m.line_start_y@
            + "\" style=\"stroke-dasharray: 3, 3; fill: none;\" class=\"messageLine1\" data-et=\"message\" data-id=\"i"@
            + decimal(m.idx as nat) + "\" data-from=\""@ + escape_from(m.from@, 0, true)
            + "\" data-to=\""@ + escape_from(m.to@, 0, true)
            + "\" stroke-width=\"2\" stroke=\"none"@ + "\" marker-end=\"url(#"@ + id
            + "-arrowhead)"@ + "\"></line>"@,
{
    law_message_layout(id, m);
    law_dashed_by_kind(id, m);
    law_markers_by_kind(id, m.arrow);
    assert(message_svg(id, m) =~= "<line x1=\""@ + m.line_x1@ + "\" y1=\""@ + m.line_start_y@
        + "\" x2=\""@ + m.line_x2@ + "\" y2=\""@ + m.line_start_y@ + line_attrs(id, m)
        + "\"></line>"@);
}

/// The message font family as it reads inside an attribute.
proof fn lemma_font_escaped()
    ensures
        escape_from(message_font(), 0, true) == "&quot;trebuchet ms&quot;, verdana, arial"@,
{
    reveal_strlit("\"trebuchet ms\", verdana, arial");
    reveal_strlit("&quot;trebuchet ms&quot;, verdana, arial");
    reveal_strlit("&quot;");
    reveal_with_fuel(escape_from, 33);
    assert(escape_from(message_font(), 0, true) =~= "&quot;trebuchet ms&quot;, verdana, arial"@);
}

/// Law: each label line is a centred `<text>` at `(text_x, y)` in the
/// message font, 16px, holding the line's text escaped, or a zero-width
/// space when the line is empty; the lines follow one another in order.
pub proof fn law_message_label_lines(x: Seq<char>, lines: Seq<MessageLine>, l: MessageLine)
    ensures
        text_line_svg(x, l) == "<text x=\""@ + x + "\" y=\""@ + l.y@
            + "\" text-anchor=\"middle\" dominant-baseline=\"middle\" alignment-baseline=\"middle\" style=\"font-family: "@
            + "&quot;trebuchet ms&quot;, verdana, arial"@
            + "; font-size: 16px; font-weight: 400;\" class=\"messageText\" dy=\"1em\">"@
            + (if l.text@.len() == 0 {
            seq!['\u{200B}']
        } else {
            escape_from(l.text@, 0, false)
        }) + "</text>"@,
        text_lines_svg(x, Seq::empty()).len() == 0,
        text_lines_svg(x, lines.push(l)) == text_lines_svg(x, lines) + text_line_svg(x, l),
{
    lemma_font_escaped();
    assert(lines.push(l).drop_last() =~= lines);
}

/// Law: the central-connection circles (radius 5) sit on the message line at
/// the receiver's lifeline, the sender's, or both (sender first), inside one
/// group; the autonumber draws a zero-length line carrying the
/// sequence-number marker at `seq_x` and the number in 12px sans-serif.
pub proof fn law_message_extras(id: Seq<char>, m: MessageText)
    ensures
        m.central == Some(CentralConnection::AtTo) ==> central_svg(m) == "<g><circle cx=\""@
            + m.to_cx@ + "\" cy=\""@ + m.line_start_y@
            + "\" r=\"5\" width=\"10\" height=\"10\"></circle></g>"@,
        m.central == Some(CentralConnection::AtFrom) ==> central_svg(m) == "<g><circle cx=\""@
            + m.from_cx@ + "\" cy=\""@ + m.line_start_y@
            + "\" r=\"5\" width=\"10\" height=\"10\"></circle></g>"@,
        m.central == Some(CentralConnection::Dual) ==> central_svg(m) == "<g><circle cx=\""@
            + m.from_cx@ + "\" cy=\""@ + m.line_start_y@
            + "\" r=\"5\" width=\"10\" height=\"10\"></circle><circle cx=\""@ + m.to_cx@
            + "\" cy=\""@ + m.line_start_y@ + "\" r=\"5\" width=\"10\" height=\"10\"></circle></g>"@,
        m.seq_number matches Some(n) ==> seq_number_svg(id, m) == "<line x1=\""@ + m.seq_x@
            + "\" y1=\""@ + m.line_start_y@ + "\" x2=\""@ + m.seq_x@ + "\" y2=\""@
            + m.line_start_y@ + "\" stroke-width=\"0\" marker-start=\"url(#"@ + id
            + "-sequencenumber)\"></line><text x=\""@ + m.seq_x@ + "\" y=\""@ + m.seq_text_y@
            + "\" font-family=\"sans-serif\" font-size=\"12px\" text-anchor=\"middle\" class=\"sequenceNumber\">"@
            + int_text(n as int) + "</text>"@,
{
    reveal_strlit("<g>");
    reveal_strlit("</g>");
    reveal_strlit("<circle cx=\"");
    reveal_strlit("<g><circle cx=\"");
    reveal_strlit("\" r=\"5\" width=\"10\" height=\"10\"></circle>");
    reveal_strlit("\" r=\"5\" width=\"10\" height=\"10\"></circle></g>");
    reveal_strlit("\" r=\"5\" width=\"10\" height=\"10\"></circle><circle cx=\"");
    let cy = m.line_start_y@;
    let tail = "\" r=\"5\" width=\"10\" height=\"10\"></circle>"@;
    assert("<g>"@ + "<circle cx=\""@ =~= "<g><circle cx=\""@);
    assert(tail + "</g>"@ =~= "\" r=\"5\" width=\"10\" height=\"10\"></circle></g>"@);
    assert(tail + "<circle cx=\""@ =~= "\" r=\"5\" width=\"10\" height=\"10\"></circle><circle cx=\""@);
    assert("<g>"@ + circle_svg(m.to_cx@, cy) + "</g>"@ =~= "<g><circle cx=\""@ + m.to_cx@
        + "\" cy=\""@ + cy + "\" r=\"5\" width=\"10\" height=\"10\"></circle></g>"@);
    assert("<g>"@ + circle_svg(m.from_cx@, cy) + "</g>"@ =~= "<g><circle cx=\""@ + m.from_cx@
        + "\" cy=\""@ + cy + "\" r=\"5\" width=\"10\" height=\"10\"></circle></g>"@);
    assert("<g>"@ + circle_svg(m.from_cx@, cy) + circle_svg(m.to_cx@, cy) + "</g>"@
        =~= "<g><circle cx=\""@ + m.from_cx@ + "\" cy=\""@ + cy
        + "\" r=\"5\" width=\"10\" height=\"10\"></circle><circle cx=\""@ + m.to_cx@ + "\" cy=\""@
        + cy + "\" r=\"5\" width=\"10\" height=\"10\"></circle></g>"@);
}

} // verus!
