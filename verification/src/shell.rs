//! The SVG shell shared by the unified diagram renderers: the fixed `<g>`
//! hierarchy tags, the drop-shadow filter definitions, accessibility
//! elements, the `data-points` base64 serializer, and the per-colour marker
//! variants of the flowchart point / circle / cross markers.
use vstd::prelude::*;
use crate::theme::{str_or, text_or, ThemeVariables};
use crate::chars::{
    chars_of, find_sub, find_sub_exec, is_alnum, is_ascii_alnum, lemma_find_sub, push_char, str_eq,
    string_from_chars, subvec,
};

verus! {

// ---------------------------------------------------------------------------
// Base64
// ---------------------------------------------------------------------------

/// The base64 alphabet symbol for a 6-bit value (RFC 4648, `A-Z a-z 0-9 + /`).
pub open spec fn b64_sym(v: u8) -> char {
    if v < 26 {
        (65 + v) as char
    } else if v < 52 {
        (97 + (v - 26)) as char
    } else if v < 62 {
        (48 + (v - 52)) as char
    } else if v == 62 {
        '+'
    } else {
        '/'
    }
}

/// The four symbols encoding three bytes.
pub open spec fn enc_chunk(a: u8, b: u8, c: u8) -> Seq<char> {
    seq![
        b64_sym(a >> 2),
        b64_sym(((a & 3) << 4) | (b >> 4)),
        b64_sym(((b & 15) << 2) | (c >> 6)),
        b64_sym(c & 63),
    ]
}

/// Padded base64 encoding of `d`, as JavaScript's `btoa` produces it: no
/// line wrapping, `=` padding for a final group of one or two bytes.
pub open spec fn b64_encode(d: Seq<u8>) -> Seq<char>
    decreases d.len(),
{
    if d.len() == 0 {
        Seq::empty()
    } else if d.len() == 1 {
        seq![b64_sym(d[0] >> 2), b64_sym((d[0] & 3) << 4), '=', '=']
    } else if d.len() == 2 {
        seq![b64_sym(d[0] >> 2), b64_sym(((d[0] & 3) << 4) | (d[1] >> 4)), b64_sym((d[1] & 15) << 2), '=']
    } else {
        enc_chunk(d[0], d[1], d[2]) + b64_encode(d.skip(3))
    }
}

/// A character of the base64 alphabet (`A-Z a-z 0-9 + /`).
pub open spec fn is_b64_symbol(c: char) -> bool {
    ('A' <= c && c <= 'Z') || ('a' <= c && c <= 'z') || ('0' <= c && c <= '9') || c == '+' || c
        == '/'
}

/// How many `=` pad the encoding of `n` bytes.
pub open spec fn b64_pad(n: nat) -> nat {
    ((3 - n % 3) % 3) as nat
}

proof fn lemma_b64_sym(v: u8)
    ensures
        is_b64_symbol(b64_sym(v)),
{
}

/// The base64 text of `n` bytes is `4 * ceil(n / 3)` characters long: alphabet
/// symbols, then exactly `(3 - n mod 3) mod 3` padding `=`, and no other `=`.
pub proof fn law_base64_shape(d: Seq<u8>)
    ensures
        b64_encode(d).len() == 4 * ((d.len() + 2) / 3),
        forall|k: int|
            0 <= k < b64_encode(d).len() - b64_pad(d.len()) ==> is_b64_symbol(
                #[trigger] b64_encode(d)[k],
            ),
        forall|k: int|
            b64_encode(d).len() - b64_pad(d.len()) <= k < b64_encode(d).len() ==> #[trigger] b64_encode(
                d,
            )[k] == '=',
    decreases d.len(),
{
    let e = b64_encode(d);
    if d.len() == 0 {
    } else if d.len() == 1 {
        lemma_b64_sym(d[0] >> 2);
        lemma_b64_sym((d[0] & 3) << 4);
    } else if d.len() == 2 {
        lemma_b64_sym(d[0] >> 2);
        lemma_b64_sym(((d[0] & 3) << 4) | (d[1] >> 4));
        lemma_b64_sym((d[1] & 15) << 2);
    } else {
        let rest = d.skip(3);
        law_base64_shape(rest);
        let c = enc_chunk(d[0], d[1], d[2]);
        lemma_b64_sym(d[0] >> 2);
        lemma_b64_sym(((d[0] & 3) << 4) | (d[1] >> 4));
        lemma_b64_sym(((d[1] & 15) << 2) | (d[2] >> 6));
        lemma_b64_sym(d[2] & 63);
        assert(e == c + b64_encode(rest));
        assert(b64_pad(rest.len()) == b64_pad(d.len()));
        assert forall|k: int| 0 <= k < e.len() - b64_pad(d.len()) implies is_b64_symbol(
            #[trigger] e[k],
        ) by {
            if k >= 4 {
                assert(e[k] == b64_encode(rest)[k - 4]);
            }
        }
        assert forall|k: int| e.len() - b64_pad(d.len()) <= k < e.len() implies #[trigger] e[k]
            == '=' by {
            assert(e[k] == b64_encode(rest)[k - 4]);
        }
    }
}

fn b64_sym_exec(v: u8) -> (c: char)
    requires
        v < 64,
    ensures
        c == b64_sym(v),
{
    if v < 26 {
        (65 + v) as char
    } else if v < 52 {
        (97 + (v - 26)) as char
    } else if v < 62 {
        (48 + (v - 52)) as char
    } else if v == 62 {
        '+'
    } else {
        '/'
    }
}

/// JS `btoa()`-compatible base64: plain alphabet, no line wrapping, `=`
/// padding.
pub fn base64_encode(data: &[u8]) -> (r: String)
    ensures
        r@ == b64_encode(data@),
{
    let mut out = String::new();
    let n = data.len();
    let mut i: usize = 0;
    assert(data@.skip(0) == data@);
    while n - i >= 3
        invariant
            i <= n,
            n == data@.len(),
            b64_encode(data@) == out@ + b64_encode(data@.skip(i as int)),
        decreases n - i,
    {
        let a = data[i];
        let b = data[i + 1];
        let c = data[i + 2];
        assert((a >> 2) < 64 && (((a & 3) << 4) | (b >> 4)) < 64 && (((b & 15) << 2) | (c >> 6))
            < 64 && (c & 63) < 64) by (bit_vector);
        let ghost before = out@;
        push_char(&mut out, b64_sym_exec(a >> 2));
        push_char(&mut out, b64_sym_exec(((a & 3) << 4) | (b >> 4)));
        push_char(&mut out, b64_sym_exec(((b & 15) << 2) | (c >> 6)));
        push_char(&mut out, b64_sym_exec(c & 63));
        proof {
            let rest = data@.skip(i as int);
            assert(rest[0] == a && rest[1] == b && rest[2] == c);
            assert(rest.skip(3) == data@.skip(i + 3));
            assert(out@ == before + enc_chunk(a, b, c));
        }
        i = i + 3;
    }
    let ghost before = out@;
    let rem = n - i;
    if rem == 1 {
        let a = data[i];
        assert((a >> 2) < 64 && ((a & 3) << 4) < 64) by (bit_vector);
        push_char(&mut out, b64_sym_exec(a >> 2));
        push_char(&mut out, b64_sym_exec((a & 3) << 4));
        push_char(&mut out, '=');
        push_char(&mut out, '=');
        assert(data@.skip(i as int)[0] == a);
    } else if rem == 2 {
        let a = data[i];
        let b = data[i + 1];
        assert((a >> 2) < 64 && (((a & 3) << 4) | (b >> 4)) < 64 && ((b & 15) << 2) < 64)
            by (bit_vector);
        push_char(&mut out, b64_sym_exec(a >> 2));
        push_char(&mut out, b64_sym_exec(((a & 3) << 4) | (b >> 4)));
        push_char(&mut out, b64_sym_exec((b & 15) << 2));
        push_char(&mut out, '=');
        assert(data@.skip(i as int)[0] == a && data@.skip(i as int)[1] == b);
    } else {
        assert(data@.skip(i as int).len() == 0);
    }
    out
}

// ---------------------------------------------------------------------------
// Fixed tags of the shell
// ---------------------------------------------------------------------------

/// Closing tag of the `<svg>` shell.
pub fn close_unified_svg() -> (r: &'static str)
    ensures
        r@ == "</svg>"@,
{
    "</svg>"
}

/// The empty `<g></g>` seed child that the shell leaves under `<svg>`.
pub fn seed_group() -> (r: &'static str)
    ensures
        r@ == "<g></g>"@,
{
    "<g></g>"
}

/// Opening tag of the seed `<g>`; pair with [`close_seed_group`].
pub fn open_seed_group() -> (r: &'static str)
    ensures
        r@ == "<g>"@,
{
    "<g>"
}

/// Closing tag of the seed group.
pub fn close_seed_group() -> (r: &'static str)
    ensures
        r@ == "</g>"@,
{
    "</g>"
}

/// Opening tag of the root `<g class="root">` container.
pub fn open_root_group() -> (r: &'static str)
    ensures
        r@ == "<g class=\"root\">"@,
{
    "<g class=\"root\">"
}

/// Closing tag of the root group.
pub fn close_root_group() -> (r: &'static str)
    ensures
        r@ == "</g>"@,
{
    "</g>"
}

/// Open a sub-layer of the root group (`clusters`, `edgePaths`,
/// `edgeLabels`, `nodes`).
pub fn open_layer(name: &str) -> (r: String)
    ensures
        r@ == "<g class=\""@ + name@ + "\">"@,
{
    let mut s = String::new();
    s.append("<g class=\"");
    s.append(name);
    s.append("\">");
    s
}

/// Close the currently-open sub-layer.
pub fn close_layer() -> (r: &'static str)
    ensures
        r@ == "</g>"@,
{
    "</g>"
}

/// Wrap a pre-composed CSS body in a `<style>` element.
pub fn emit_style_block(css: &str) -> (r: String)
    ensures
        r@ == "<style>"@ + css@ + "</style>"@,
{
    let mut s = String::new();
    s.append("<style>");
    s.append(css);
    s.append("</style>");
    s
}

/// The `<defs>` holding the regular drop-shadow filter of diagram `id`.
pub open spec fn drop_shadow_def(id: Seq<char>) -> Seq<char> {
    "<defs><filter id=\""@ + id
        + "-drop-shadow\" height=\"130%\" width=\"130%\"><feDropShadow dx=\"4\" dy=\"4\" stdDeviation=\"0\" flood-opacity=\"0.06\" flood-color=\"#000000\"></feDropShadow></filter></defs>"@
}

/// The `<defs>` holding the small drop-shadow filter of diagram `id`.
pub open spec fn drop_shadow_small_def(id: Seq<char>) -> Seq<char> {
    "<defs><filter id=\""@ + id
        + "-drop-shadow-small\" height=\"150%\" width=\"150%\"><feDropShadow dx=\"2\" dy=\"2\" stdDeviation=\"0\" flood-opacity=\"0.06\" flood-color=\"#000000\"></feDropShadow></filter></defs>"@
}

/// Emit the trailing drop-shadow filter `<defs>` pair: `<id>-drop-shadow`
/// (4px offset, 130% extent) when `include_regular`, then
/// `<id>-drop-shadow-small` (2px offset, 150% extent) when `include_small`.
pub fn emit_defs_shell(id: &str, include_regular: bool, include_small: bool) -> (r: String)
    ensures
        r@ == (if include_regular {
            drop_shadow_def(id@)
        } else {
            Seq::empty()
        }) + (if include_small {
            drop_shadow_small_def(id@)
        } else {
            Seq::empty()
        }),
{
    let mut s = String::new();
    if include_regular {
        s.append("<defs><filter id=\"");
        s.append(id);
        s.append(
            "-drop-shadow\" height=\"130%\" width=\"130%\"><feDropShadow dx=\"4\" dy=\"4\" stdDeviation=\"0\" flood-opacity=\"0.06\" flood-color=\"#000000\"></feDropShadow></filter></defs>",
        );
    }
    let ghost mid = s@;
    if include_small {
        s.append("<defs><filter id=\"");
        s.append(id);
        s.append(
            "-drop-shadow-small\" height=\"150%\" width=\"150%\"><feDropShadow dx=\"2\" dy=\"2\" stdDeviation=\"0\" flood-opacity=\"0.06\" flood-color=\"#000000\"></feDropShadow></filter></defs>",
        );
        assert(s@ == mid + drop_shadow_small_def(id@));
    } else {
        assert(s@ == mid + Seq::<char>::empty());
    }
    s
}

// ---------------------------------------------------------------------------
// Accessibility elements
// ---------------------------------------------------------------------------

/// Escaped form of one character of element text.
pub open spec fn text_escape_char(c: char) -> Seq<char> {
    if c == '<' {
        "&lt;"@
    } else if c == '>' {
        "&gt;"@
    } else if c == '&' {
        "&amp;"@
    } else if c == '"' {
        "&quot;"@
    } else if c == '\'' {
        "&#39;"@
    } else {
        seq![c]
    }
}

/// Element text with `< > & " '` escaped.
pub open spec fn text_escape(s: Seq<char>) -> Seq<char>
    decreases s.len(),
{
    if s.len() == 0 {
        Seq::empty()
    } else {
        text_escape(s.drop_last()) + text_escape_char(s.last())
    }
}

fn append_escaped_text(out: &mut String, t: &str)
    ensures
        final(out)@ == old(out)@ + text_escape(t@),
{
    let v = chars_of(t);
    let mut i: usize = 0;
    while i < v.len()
        invariant
            i <= v.len(),
            v@ == t@,
            out@ == old(out)@ + text_escape(v@.take(i as int)),
        decreases v.len() - i,
    {
        let c = v[i];
        let ghost before = out@;
        if c == '<' {
            out.append("&lt;");
        } else if c == '>' {
            out.append("&gt;");
        } else if c == '&' {
            out.append("&amp;");
        } else if c == '"' {
            out.append("&quot;");
        } else if c == '\'' {
            out.append("&#39;");
        } else {
            push_char(out, c);
        }
        assert(out@ == before + text_escape_char(c));
        assert(v@.take(i + 1).drop_last() == v@.take(i as int));
        i = i + 1;
    }
    assert(v@.take(v.len() as int) == v@);
}

/// Element text with `< > & " '` escaped (`&lt;`, `&gt;`, `&amp;`,
/// `&quot;`, `&#39;`); text without them is returned as it is.
fn xml_escape_text(s: &str) -> (r: String)
    ensures
        r@ == text_escape(s@),
{
    let mut out = String::new();
    append_escaped_text(&mut out, s);
    out
}

/// The `<title>` and `<desc>` accessibility elements of diagram `id`.
pub open spec fn a11y_elements(id: Seq<char>, title: Option<Seq<char>>, descr: Option<Seq<char>>) -> Seq<char> {
    (match title {
        Some(t) => "<title id=\"chart-title-"@ + id + "\">"@ + text_escape(t) + "</title>"@,
        None => Seq::empty(),
    }) + (match descr {
        Some(d) => "<desc id=\"chart-desc-"@ + id + "\">"@ + text_escape(d) + "</desc>"@,
        None => Seq::empty(),
    })
}

/// The view of an optional string slice.
pub open spec fn opt_view(o: Option<&str>) -> Option<Seq<char>> {
    match o {
        Some(s) => Some(s@),
        None => None,
    }
}

/// Emit `<title>` and/or `<desc>` accessibility elements (text escaped),
/// to follow the opening `<svg>` tag when `accTitle` / `accDescr` are set.
pub fn emit_a11y_elements(id: &str, acc_title: Option<&str>, acc_descr: Option<&str>) -> (r: String)
    ensures
        r@ == a11y_elements(id@, opt_view(acc_title), opt_view(acc_descr)),
{
    let mut out = String::new();
    if let Some(t) = acc_title {
        out.append("<title id=\"chart-title-");
        out.append(id);
        out.append("\">");
        let e = xml_escape_text(t);
        out.append(e.as_str());
        out.append("</title>");
    }
    let ghost mid = out@;
    if let Some(d) = acc_descr {
        out.append("<desc id=\"chart-desc-");
        out.append(id);
        out.append("\">");
        let e = xml_escape_text(d);
        out.append(e.as_str());
        out.append("</desc>");
        assert(out@ == mid + ("<desc id=\"chart-desc-"@ + id@ + "\">"@ + text_escape(d@) + "</desc>"@));
    } else {
        assert(out@ == mid + Seq::<char>::empty());
    }
    out
}

// ---------------------------------------------------------------------------
// Coloured marker variants
// ---------------------------------------------------------------------------

/// One character of a marker colour id: ASCII letters and digits stay,
/// everything else becomes `_` (the regex `/[^\dA-Za-z]/g` → `_`).
pub open spec fn color_id_char(c: char) -> char {
    if is_alnum(c) {
        c
    } else {
        '_'
    }
}

/// The DOM id suffix derived from a stroke colour.
pub open spec fn color_id(s: Seq<char>) -> Seq<char> {
    s.map_values(|c: char| color_id_char(c))
}

fn append_color_id(out: &mut String, stroke_color: &str)
    ensures
        final(out)@ == old(out)@ + color_id(stroke_color@),
{
    let v = chars_of(stroke_color);
    let ghost start = out@;
    let mut i: usize = 0;
    while i < v.len()
        invariant
            i <= v.len(),
            v@ == stroke_color@,
            out@ == start + color_id(v@.take(i as int)),
        decreases v.len() - i,
    {
        let c = v[i];
        if is_ascii_alnum(c) {
            push_char(out, c);
        } else {
            push_char(out, '_');
        }
        assert(color_id(v@.take(i + 1)) =~= color_id(v@.take(i as int)).push(color_id_char(c)));
        i = i + 1;
    }
    assert(v@.take(v.len() as int) == v@);
}

/// Sanitize a stroke-color string into the DOM id suffix used for
/// per-color marker variants: every character that is not an ASCII letter
/// or digit becomes `_`, so `#f66` becomes `_f66` and ` orange` `_orange`.
pub fn marker_color_id(stroke_color: &str) -> (r: String)
    ensures
        r@ == color_id(stroke_color@),
{
    let mut out = String::new();
    append_color_id(&mut out, stroke_color);
    out
}

/// Id of a coloured marker: `{id_prefix}_{kind}-{family}{position}_{colorId}`.
pub open spec fn marker_raw_id(
    family: Seq<char>,
    position: Seq<char>,
    kind: Seq<char>,
    id_prefix: Seq<char>,
    stroke: Seq<char>,
) -> Seq<char> {
    id_prefix + "_"@ + kind + "-"@ + family + position + "_"@ + color_id(stroke)
}

/// The opening of a marker element with the given id.
pub open spec fn marker_head(raw: Seq<char>) -> Seq<char> {
    "<marker id=\""@ + raw + "\""@
}

/// The ` refX` attribute of a marker.
pub open spec fn ref_piece(ref_x: Seq<char>) -> Seq<char> {
    " refX=\""@ + ref_x + "\""@
}

/// The ` stroke` attribute of a marker's shape.
pub open spec fn stroke_piece(stroke: Seq<char>) -> Seq<char> {
    " stroke=\""@ + stroke + "\""@
}

/// A marker: its head, `m1`, its `refX`, `m2`, its stroke, `m3`, and the
/// closing tag.
pub open spec fn marker_of(
    raw: Seq<char>,
    m1: Seq<char>,
    ref_x: Seq<char>,
    m2: Seq<char>,
    stroke: Seq<char>,
    m3: Seq<char>,
) -> Seq<char> {
    marker_head(raw) + m1 + ref_piece(ref_x) + m2 + stroke_piece(stroke) + m3 + "</marker>"@
}

/// Filled arrowhead marker (`point` family), stroked and filled in `stroke`.
pub open spec fn point_marker(raw: Seq<char>, kind: Seq<char>, ref_x: Seq<char>, d: Seq<char>, stroke: Seq<char>) -> Seq<char> {
    marker_of(
        raw,
        " class=\"marker "@ + kind + "\" viewBox=\"0 0 10 10\""@,
        ref_x,
        " refY=\"5\" markerUnits=\"userSpaceOnUse\" markerWidth=\"8\" markerHeight=\"8\" orient=\"auto\"><path d=\""@
            + d + "\" class=\"arrowMarkerPath\" style=\"stroke-width: 1; stroke-dasharray: 1,0;\""@,
        stroke,
        " fill=\""@ + stroke + "\"></path>"@,
    )
}

/// Unfilled circle marker (`circle` family), stroked in `stroke`.
pub open spec fn circle_marker(raw: Seq<char>, kind: Seq<char>, ref_x: Seq<char>, stroke: Seq<char>) -> Seq<char> {
    marker_of(
        raw,
        " class=\"marker "@ + kind + "\" viewBox=\"0 0 10 10\""@,
        ref_x,
        " refY=\"5\" markerUnits=\"userSpaceOnUse\" markerWidth=\"11\" markerHeight=\"11\" orient=\"auto\"><circle cx=\"5\" cy=\"5\" r=\"5\" class=\"arrowMarkerPath\" style=\"stroke-width: 1; stroke-dasharray: 1,0;\""@,
        stroke,
        "></circle>"@,
    )
}

/// Unfilled cross marker (`cross` family), stroked in `stroke`.
pub open spec fn cross_marker(raw: Seq<char>, kind: Seq<char>, ref_x: Seq<char>, stroke: Seq<char>) -> Seq<char> {
    marker_of(
        raw,
        " class=\"marker cross "@ + kind + "\" viewBox=\"0 0 11 11\""@,
        ref_x,
        " refY=\"5.2\" markerUnits=\"userSpaceOnUse\" markerWidth=\"11\" markerHeight=\"11\" orient=\"auto\"><path d=\"M 1,1 l 9,9 M 10,1 l -9,9\" class=\"arrowMarkerPath\" style=\"stroke-width: 2; stroke-dasharray: 1,0;\""@,
        stroke,
        "></path>"@,
    )
}

/// The coloured marker for `family` at `position`, or the empty sequence
/// for a family other than `point` / `circle` / `cross` or a position other
/// than `End` / `Start`.
pub open spec fn spec_colored_marker(
    family: Seq<char>,
    position: Seq<char>,
    kind: Seq<char>,
    id_prefix: Seq<char>,
    stroke: Seq<char>,
) -> Seq<char> {
    let raw = marker_raw_id(family, position, kind, id_prefix, stroke);
    if family == "point"@ {
        if position == "End"@ {
            point_marker(raw, kind, "5"@, "M 0 0 L 10 5 L 0 10 z"@, stroke)
        } else if position == "Start"@ {
            point_marker(raw, kind, "4.5"@, "M 0 5 L 10 10 L 10 0 z"@, stroke)
        } else {
            Seq::empty()
        }
    } else if family == "circle"@ {
        if position == "End"@ {
            circle_marker(raw, kind, "11"@, stroke)
        } else if position == "Start"@ {
            circle_marker(raw, kind, "-1"@, stroke)
        } else {
            Seq::empty()
        }
    } else if family == "cross"@ {
        if position == "End"@ {
            cross_marker(raw, kind, "12"@, stroke)
        } else if position == "Start"@ {
            cross_marker(raw, kind, "-1"@, stroke)
        } else {
            Seq::empty()
        }
    } else {
        Seq::empty()
    }
}

fn build_marker(raw: &String, m1: &str, ref_x: &str, m2: &str, stroke: &str, m3: &str) -> (r: String)
    ensures
        r@ == marker_of(raw@, m1@, ref_x@, m2@, stroke@, m3@),
{
    let mut s = String::new();
    s.append("<marker id=\"");
    s.append(raw.as_str());
    s.append("\"");
    s.append(m1);
    s.append(" refX=\"");
    s.append(ref_x);
    s.append("\"");
    s.append(m2);
    s.append(" stroke=\"");
    s.append(stroke);
    s.append("\"");
    s.append(m3);
    s.append("</marker>");
    proof {
        assert(s@ =~= marker_of(raw@, m1@, ref_x@, m2@, stroke@, m3@));
    }
    s
}

fn marker_class(prefix: &str, kind: &str, view_box: &str) -> (r: String)
    ensures
        r@ == prefix@ + kind@ + view_box@,
{
    let mut s = String::new();
    s.append(prefix);
    s.append(kind);
    s.append(view_box);
    s
}

fn build_point_marker(raw: &String, kind: &str, ref_x: &str, d: &str, stroke: &str) -> (r: String)
    ensures
        r@ == point_marker(raw@, kind@, ref_x@, d@, stroke@),
{
    let m1 = marker_class(" class=\"marker ", kind, "\" viewBox=\"0 0 10 10\"");
    let m2 = marker_class(
        " refY=\"5\" markerUnits=\"userSpaceOnUse\" markerWidth=\"8\" markerHeight=\"8\" orient=\"auto\"><path d=\"",
        d,
        "\" class=\"arrowMarkerPath\" style=\"stroke-width: 1; stroke-dasharray: 1,0;\"",
    );
    let m3 = marker_class(" fill=\"", stroke, "\"></path>");
    build_marker(raw, m1.as_str(), ref_x, m2.as_str(), stroke, m3.as_str())
}

fn build_circle_marker(raw: &String, kind: &str, ref_x: &str, stroke: &str) -> (r: String)
    ensures
        r@ == circle_marker(raw@, kind@, ref_x@, stroke@),
{
    let m1 = marker_class(" class=\"marker ", kind, "\" viewBox=\"0 0 10 10\"");
    build_marker(
        raw,
        m1.as_str(),
        ref_x,
        " refY=\"5\" markerUnits=\"userSpaceOnUse\" markerWidth=\"11\" markerHeight=\"11\" orient=\"auto\"><circle cx=\"5\" cy=\"5\" r=\"5\" class=\"arrowMarkerPath\" style=\"stroke-width: 1; stroke-dasharray: 1,0;\"",
        stroke,
        "></circle>",
    )
}

fn build_cross_marker(raw: &String, kind: &str, ref_x: &str, stroke: &str) -> (r: String)
    ensures
        r@ == cross_marker(raw@, kind@, ref_x@, stroke@),
{
    let m1 = marker_class(" class=\"marker cross ", kind, "\" viewBox=\"0 0 11 11\"");
    build_marker(
        raw,
        m1.as_str(),
        ref_x,
        " refY=\"5.2\" markerUnits=\"userSpaceOnUse\" markerWidth=\"11\" markerHeight=\"11\" orient=\"auto\"><path d=\"M 1,1 l 9,9 M 10,1 l -9,9\" class=\"arrowMarkerPath\" style=\"stroke-width: 2; stroke-dasharray: 1,0;\"",
        stroke,
        "></path>",
    )
}

/// Emit a colored variant of one of the flowchart point/circle/cross
/// markers. `family` is `"point"`, `"circle"` or `"cross"`; `position` is
/// `"End"` or `"Start"`. The marker id is
/// `{id_prefix}_{kind}-{family}{position}_{colorId}` and `stroke_color` is
/// written unmodified into the `stroke=` (and, for points, `fill=`)
/// attributes. Returns the empty string for any other family or position.
pub fn colored_marker(family: &str, position: &str, kind: &str, id_prefix: &str, stroke_color: &str) -> (r: String)
    ensures
        r@ == spec_colored_marker(family@, position@, kind@, id_prefix@, stroke_color@),
{
    let mut raw = String::new();
    raw.append(id_prefix);
    raw.append("_");
    raw.append(kind);
    raw.append("-");
    raw.append(family);
    raw.append(position);
    raw.append("_");
    append_color_id(&mut raw, stroke_color);
    let is_end = str_eq(position, "End");
    let is_start = str_eq(position, "Start");
    if str_eq(family, "point") {
        if is_end {
            build_point_marker(&raw, kind, "5", "M 0 0 L 10 5 L 0 10 z", stroke_color)
        } else if is_start {
            build_point_marker(&raw, kind, "4.5", "M 0 5 L 10 10 L 10 0 z", stroke_color)
        } else {
            String::new()
        }
    } else if str_eq(family, "circle") {
        if is_end {
            build_circle_marker(&raw, kind, "11", stroke_color)
        } else if is_start {
            build_circle_marker(&raw, kind, "-1", stroke_color)
        } else {
            String::new()
        }
    } else if str_eq(family, "cross") {
        if is_end {
            build_cross_marker(&raw, kind, "12", stroke_color)
        } else if is_start {
            build_cross_marker(&raw, kind, "-1", stroke_color)
        } else {
            String::new()
        }
    } else {
        String::new()
    }
}

// ---------------------------------------------------------------------------
// Stroke colour of a path style
// ---------------------------------------------------------------------------

/// The stroke colour found in `s` searching from `start`: the text after the
/// first `stroke:` (not preceded by an ASCII letter, digit or `-`) that is
/// followed by at least one character other than `;`, up to the next `;` or
/// the end, leading whitespace included (the regex `/stroke:([^;]+)/`).
pub open spec fn stroke_color_from(s: Seq<char>, start: int) -> Option<Seq<char>>
    decreases s.len() - start,
{
    let m = "stroke:"@;
    proof {
        reveal_strlit("stroke:");
        lemma_find_sub(s, start, m);
    }
    match find_sub(s, start, m) {
        None => None,
        Some(abs) => {
            if abs > 0 && (is_alnum(s[abs - 1]) || s[abs - 1] == '-') {
                stroke_color_from(s, abs + m.len())
            } else {
                let after = abs + m.len();
                let end = match find_sub(s, after, seq![';']) {
                    Some(e) => e,
                    None => s.len() as int,
                };
                if end == after {
                    stroke_color_from(s, after)
                } else {
                    Some(s.subrange(after, end))
                }
            }
        },
    }
}

/// Extract the stroke color from a flowchart-style `pathStyle` string,
/// matching the regex `/stroke:([^;]+)/`: the captured text keeps its
/// leading whitespace, `stroke-width:` never matches, and a `stroke:` with
/// nothing before the next `;` is passed over. Returns `None` when the style
/// has no such `stroke:` segment.
pub fn extract_stroke_color(path_style: &str) -> (r: Option<String>)
    ensures
        r matches Some(c) ==> stroke_color_from(path_style@, 0) == Some(c@),
        r is None ==> stroke_color_from(path_style@, 0) is None,
{
    proof {
        reveal_strlit("stroke:");
    }
    let v = chars_of(path_style);
    let m = chars_of("stroke:");
    let mut semi: Vec<char> = Vec::new();
    semi.push(';');
    assert(semi@ == seq![';']);
    let mut start: usize = 0;
    while start <= v.len()
        invariant
            v@ == path_style@,
            m@ == "stroke:"@,
            m@.len() == 7,
            semi@ == seq![';'],
            stroke_color_from(v@, 0) == stroke_color_from(v@, start as int),
        decreases v.len() + 1 - start,
    {
        proof {
            lemma_find_sub(v@, start as int, m@);
        }
        match find_sub_exec(&v, start, &m) {
            None => {
                return None;
            },
            Some(abs) => {
                if abs > 0 && (is_ascii_alnum(v[abs - 1]) || v[abs - 1] == '-') {
                    start = abs + 7;
                } else {
                    let after = abs + 7;
                    proof {
                        lemma_find_sub(v@, after as int, semi@);
                    }
                    let end = match find_sub_exec(&v, after, &semi) {
                        Some(e) => e,
                        None => v.len(),
                    };
                    if end == after {
                        start = after;
                    } else {
                        let sub = subvec(&v, after, end);
                        return Some(string_from_chars(&sub));
                    }
                }
            },
        }
    }
    None
}

// ---------------------------------------------------------------------------
// Outer <svg> tag and data-points attributes
// ---------------------------------------------------------------------------

/// The ` class="…"` fragment of the outer tag, empty when there is no class.
pub open spec fn class_fragment(class_attr: Option<Seq<char>>) -> Seq<char> {
    match class_attr {
        Some(c) => " class=\""@ + c + "\""@,
        None => Seq::empty(),
    }
}

/// The `aria-describedby` / `aria-labelledby` attributes, in that order.
pub open spec fn a11y_attrs(id: Seq<char>, has_acc_descr: bool, has_acc_title: bool) -> Seq<char> {
    (if has_acc_descr {
        " aria-describedby=\"chart-desc-"@ + id + "\""@
    } else {
        Seq::empty()
    }) + (if has_acc_title {
        " aria-labelledby=\"chart-title-"@ + id + "\""@
    } else {
        Seq::empty()
    })
}

/// The opening `<svg>` tag with attributes in the order `id → width →
/// xmlns → class → style → viewBox → role → aria-roledescription`, then the
/// optional accessibility attributes. Numbers are given in printed form.
pub open spec fn svg_open_tag(
    id: Seq<char>,
    max_width: Seq<char>,
    vx: Seq<char>,
    vy: Seq<char>,
    vw: Seq<char>,
    vh: Seq<char>,
    class_attr: Option<Seq<char>>,
    aria: Seq<char>,
    has_acc_descr: bool,
    has_acc_title: bool,
) -> Seq<char> {
    "<svg id=\""@ + id + "\" width=\"100%\" xmlns=\"http://www.w3.org/2000/svg\""@ + class_fragment(
        class_attr,
    ) + " style=\"max-width: "@ + max_width + "px;\" viewBox=\""@ + vx + " "@ + vy + " "@ + vw
        + " "@ + vh + "\" role=\"graphics-document document\" aria-roledescription=\""@ + aria
        + "\""@ + a11y_attrs(id, has_acc_descr, has_acc_title) + ">"@
}

/// The opening `<svg>` tag of the shell, with optional `aria-describedby` /
/// `aria-labelledby` attributes (ids `chart-desc-{id}` / `chart-title-{id}`).
/// `max_width` and the four `view_box` numbers are passed already printed in
/// JavaScript number form; `class_attr = None` omits the `class` attribute.
pub fn open_unified_svg_with_a11y(
    id: &str,
    max_width: &str,
    view_box: (&str, &str, &str, &str),
    class_attr: Option<&str>,
    aria: &str,
    has_acc_descr: bool,
    has_acc_title: bool,
) -> (r: String)
    ensures
        r@ == svg_open_tag(
            id@,
            max_width@,
            view_box.0@,
            view_box.1@,
            view_box.2@,
            view_box.3@,
            opt_view(class_attr),
            aria@,
            has_acc_descr,
            has_acc_title,
        ),
{
    let (vx, vy, vw, vh) = view_box;
    let mut s = String::new();
    s.append("<svg id=\"");
    s.append(id);
    s.append("\" width=\"100%\" xmlns=\"http://www.w3.org/2000/svg\"");
    let ghost p0 = s@;
    if let Some(c) = class_attr {
        s.append(" class=\"");
        s.append(c);
        s.append("\"");
    }
    assert(s@ == p0 + class_fragment(opt_view(class_attr)));
    s.append(" style=\"max-width: ");
    s.append(max_width);
    s.append("px;\" viewBox=\"");
    s.append(vx);
    s.append(" ");
    s.append(vy);
    s.append(" ");
    s.append(vw);
    s.append(" ");
    s.append(vh);
    s.append("\" role=\"graphics-document document\" aria-roledescription=\"");
    s.append(aria);
    s.append("\"");
    let ghost p1 = s@;
    if has_acc_descr {
        s.append(" aria-describedby=\"chart-desc-");
        s.append(id);
        s.append("\"");
    }
    let ghost p2 = s@;
    if has_acc_title {
        s.append(" aria-labelledby=\"chart-title-");
        s.append(id);
        s.append("\"");
    }
    assert(s@ == p1 + a11y_attrs(id@, has_acc_descr, has_acc_title));
    s.append(">");
    s
}

/// [`open_unified_svg_with_a11y`] without accessibility attributes.
pub fn open_unified_svg(
    id: &str,
    max_width: &str,
    view_box: (&str, &str, &str, &str),
    class_attr: Option<&str>,
    aria: &str,
) -> (r: String)
    ensures
        r@ == svg_open_tag(
            id@,
            max_width@,
            view_box.0@,
            view_box.1@,
            view_box.2@,
            view_box.3@,
            opt_view(class_attr),
            aria@,
            false,
            false,
        ),
{
    open_unified_svg_with_a11y(id, max_width, view_box, class_attr, aria, false, false)
}

/// A polyline vertex whose coordinates are already printed in JavaScript
/// `Number#toString` form (integers without `.0`, e.g. `1`, `2.5`).
pub struct PointText {
    pub x: String,
    pub y: String,
}

/// The printed coordinates of a vertex.
pub open spec fn point_view(p: PointText) -> (Seq<char>, Seq<char>) {
    (p.x@, p.y@)
}

/// `{"x":…,"y":…}`
pub open spec fn point_json(p: (Seq<char>, Seq<char>)) -> Seq<char> {
    "{\"x\":"@ + p.0 + ",\"y\":"@ + p.1 + "}"@
}

/// The comma-separated JSON objects of the vertices.
pub open spec fn points_json_body(ps: Seq<(Seq<char>, Seq<char>)>) -> Seq<char>
    decreases ps.len(),
{
    if ps.len() == 0 {
        Seq::empty()
    } else if ps.len() == 1 {
        point_json(ps[0])
    } else {
        points_json_body(ps.drop_last()) + ","@ + point_json(ps.last())
    }
}

/// `JSON.stringify(points)` of a polyline.
pub open spec fn points_json(ps: Seq<(Seq<char>, Seq<char>)>) -> Seq<char> {
    "["@ + points_json_body(ps) + "]"@
}

/// `data-edge="true" data-points="<base64 of the UTF-8 of the JSON>"`.
pub open spec fn spec_data_edge_attrs(ps: Seq<(Seq<char>, Seq<char>)>) -> Seq<char> {
    "data-edge=\"true\" data-points=\""@ + b64_encode(vstd::utf8::encode_utf8(points_json(ps)))
        + "\""@
}

/// The base64 of the UTF-8 of `JSON.stringify(points)`.
pub open spec fn points_base64_text(ps: Seq<(Seq<char>, Seq<char>)>) -> Seq<char> {
    b64_encode(vstd::utf8::encode_utf8(points_json(ps)))
}

/// The views of a list of printed vertices.
pub open spec fn points_view(points: Seq<PointText>) -> Seq<(Seq<char>, Seq<char>)> {
    points.map_values(|p: PointText| point_view(p))
}

/// Base64 of the JSON array of the vertices, each as `{"x":…,"y":…}`.
pub(crate) fn points_base64(points: &[PointText]) -> (r: String)
    ensures
        r@ == points_base64_text(points_view(points@)),
{
    let ghost ps = points_view(points@);
    let mut json = String::new();
    json.append("[");
    let ghost start = json@;
    let mut i: usize = 0;
    while i < points.len()
        invariant
            i <= points.len(),
            ps == points_view(points@),
            json@ == start + points_json_body(ps.take(i as int)),
        decreases points.len() - i,
    {
        let ghost before = json@;
        if i > 0 {
            json.append(",");
        }
        json.append("{\"x\":");
        json.append(points[i].x.as_str());
        json.append(",\"y\":");
        json.append(points[i].y.as_str());
        json.append("}");
        proof {
            assert(ps.take(i + 1).drop_last() == ps.take(i as int));
            assert(ps.take(i + 1).last() == ps[i as int]);
            assert(ps[i as int] == point_view(points@[i as int]));
            if i == 0 {
                assert(ps.take(0) =~= Seq::<(Seq<char>, Seq<char>)>::empty());
                assert(json@ == before + point_json(ps[0]));
            } else {
                assert(json@ == before + ","@ + point_json(ps[i as int]));
            }
        }
        i = i + 1;
    }
    assert(ps.take(points.len() as int) == ps);
    json.append("]");
    let bytes = json.as_str().as_bytes();
    base64_encode(bytes)
}

/// Serialize a polyline into the `data-edge` + `data-points` attribute pair
/// stamped on every edge `<path>`: `data-points` is the base64 of
/// `JSON.stringify(points)`, each vertex as `{"x":…,"y":…}`.
pub fn data_edge_attrs(points: &[PointText]) -> (r: String)
    ensures
        r@ == spec_data_edge_attrs(points@.map_values(|p: PointText| point_view(p))),
{
    let b64 = points_base64(points);
    let mut s = String::new();
    s.append("data-edge=\"true\" data-points=\"");
    s.append(b64.as_str());
    s.append("\"");
    s
}

/// The `<linearGradient>` the neo look strokes with, present only when the
/// theme asks for a gradient; unset end colours print as empty.
pub open spec fn gradient_defs(id: Seq<char>, t: ThemeVariables) -> Seq<char> {
    if t.use_gradient != Some(true) {
        Seq::empty()
    } else {
        gradient_open(id) + gradient_stop_at("0%"@, text_or(t.gradient_start, Seq::empty()))
            + gradient_stop_at("100%"@, text_or(t.gradient_stop, Seq::empty()))
            + "</linearGradient>"@
    }
}

/// The opening tag of the gradient of diagram `id`.
pub open spec fn gradient_open(id: Seq<char>) -> Seq<char> {
    "<linearGradient id=\""@ + id + "-gradient\""@
        + " gradientUnits=\"objectBoundingBox\" x1=\"0%\" y1=\"0%\" x2=\"100%\" y2=\"0%\">"@
}

/// A gradient stop of the given colour at the given offset.
pub open spec fn gradient_stop_at(offset: Seq<char>, color: Seq<char>) -> Seq<char> {
    "<stop offset=\""@ + offset + "\" stop-color=\""@ + color + "\""@
        + " stop-opacity=\"1\"></stop>"@
}

fn append_gradient_stop(out: &mut String, offset: &str, color: &str)
    ensures
        final(out)@ == old(out)@ + gradient_stop_at(offset@, color@),
{
    let mut st = String::new();
    st.append("<stop offset=\"");
    st.append(offset);
    st.append("\" stop-color=\"");
    st.append(color);
    st.append("\"");
    st.append(" stop-opacity=\"1\"></stop>");
    out.append(st.as_str());
}

/// Emit the gradient definition of a theme (see [`gradient_defs`]).
pub fn emit_gradient_defs(id: &str, theme: &ThemeVariables) -> (r: String)
    ensures
        r@ == gradient_defs(id@, *theme),
{
    let mut out = String::new();
    if theme.use_gradient != Some(true) {
        return out;
    }
    proof {
        reveal_strlit("");
    }
    let mut open = String::new();
    open.append("<linearGradient id=\"");
    open.append(id);
    open.append("-gradient\"");
    open.append(
        " gradientUnits=\"objectBoundingBox\" x1=\"0%\" y1=\"0%\" x2=\"100%\" y2=\"0%\">",
    );
    out.append(open.as_str());
    append_gradient_stop(&mut out, "0%", str_or(&theme.gradient_start, ""));
    append_gradient_stop(&mut out, "100%", str_or(&theme.gradient_stop, ""));
    out.append("</linearGradient>");
    proof {
        assert(out@ =~= gradient_defs(id@, *theme));
    }
    out
}

/// `b` stands at position `a.len()` of `a + b + c`.
pub proof fn lemma_infix(a: Seq<char>, b: Seq<char>, c: Seq<char>)
    ensures
        (a + b + c).subrange(a.len() as int, (a.len() + b.len()) as int) == b,
        (a + b).take(a.len() as int) == a,
        (a + b).skip(a.len() as int) == b,
{
    assert((a + b + c).subrange(a.len() as int, (a.len() + b.len()) as int) =~= b);
    assert((a + b).take(a.len() as int) =~= a);
    assert((a + b).skip(a.len() as int) =~= b);
}

/// Gradient definitions are empty unless the theme turns gradients on; then
/// they open a `linearGradient` with id `<id>-gradient`, hold the start
/// colour's stop at `0%` before the stop colour's stop at `100%`, and end
/// with `</linearGradient>`.
pub proof fn law_gradient_defs_shape(id: Seq<char>, t: ThemeVariables)
    ensures
        t.use_gradient != Some(true) ==> gradient_defs(id, t).len() == 0,
        t.use_gradient == Some(true) ==> ({
            let r = gradient_defs(id, t);
            let head = "<linearGradient id=\""@ + id + "-gradient\""@;
            let s0 = gradient_stop_at("0%"@, text_or(t.gradient_start, Seq::empty()));
            let s1 = gradient_stop_at("100%"@, text_or(t.gradient_stop, Seq::empty()));
            let i = gradient_open(id).len() as int;
            let j = i + s0.len();
            &&& r.take(head.len() as int) == head
            &&& r.subrange(i, i + s0.len()) == s0
            &&& r.subrange(j, j + s1.len()) == s1
            &&& r.skip(r.len() - "</linearGradient>"@.len()) == "</linearGradient>"@
        }),
{
    if t.use_gradient == Some(true) {
        let o = gradient_open(id);
        let head = "<linearGradient id=\""@ + id + "-gradient\""@;
        let tail_open = " gradientUnits=\"objectBoundingBox\" x1=\"0%\" y1=\"0%\" x2=\"100%\" y2=\"0%\">"@;
        let s0 = gradient_stop_at("0%"@, text_or(t.gradient_start, Seq::empty()));
        let s1 = gradient_stop_at("100%"@, text_or(t.gradient_stop, Seq::empty()));
        let end = "</linearGradient>"@;
        let r = gradient_defs(id, t);
        assert(r == o + s0 + s1 + end);
        lemma_infix(o, s0, s1 + end);
        assert(o + s0 + s1 + end =~= o + s0 + (s1 + end));
        lemma_infix(o + s0, s1, end);
        assert(r =~= head + (tail_open + s0 + s1 + end));
        lemma_infix(head, tail_open + s0 + s1 + end, Seq::empty());
        lemma_infix(o + s0 + s1, end, Seq::empty());
    }
}

/// The `refX` of a marker family at a position: 5 / 4.5 for points, 11 /
/// -1 for circles, 12 / -1 for crosses (end / start).
pub open spec fn marker_ref_x(family: Seq<char>, position: Seq<char>) -> Seq<char> {
    if family == "point"@ {
        if position == "End"@ {
            "5"@
        } else {
            "4.5"@
        }
    } else if family == "circle"@ {
        if position == "End"@ {
            "11"@
        } else {
            "-1"@
        }
    } else if position == "End"@ {
        "12"@
    } else {
        "-1"@
    }
}

/// `p` occurs in `r`.
pub open spec fn occurs_in(r: Seq<char>, p: Seq<char>) -> bool {
    exists|k: int| 0 <= k && k + p.len() <= r.len() && #[trigger] r.subrange(k, k + p.len()) == p
}

proof fn lemma_marker_shape(
    raw: Seq<char>,
    m1: Seq<char>,
    ref_x: Seq<char>,
    m2: Seq<char>,
    stroke: Seq<char>,
    m3: Seq<char>,
)
    ensures
        ({
            let r = marker_of(raw, m1, ref_x, m2, stroke, m3);
            &&& r.take(marker_head(raw).len() as int) == marker_head(raw)
            &&& r.skip(r.len() - "</marker>"@.len()) == "</marker>"@
            &&& occurs_in(r, ref_piece(ref_x))
            &&& occurs_in(r, stroke_piece(stroke))
        }),
{
    let h = marker_head(raw);
    let rp = ref_piece(ref_x);
    let sp = stroke_piece(stroke);
    let end = "</marker>"@;
    let r = marker_of(raw, m1, ref_x, m2, stroke, m3);
    assert(r =~= h + (m1 + rp + m2 + sp + m3 + end));
    lemma_infix(h, m1 + rp + m2 + sp + m3 + end, Seq::empty());
    assert(r =~= (h + m1 + rp + m2 + sp + m3) + end);
    lemma_infix(h + m1 + rp + m2 + sp + m3, end, Seq::empty());
    assert(r =~= (h + m1) + rp + (m2 + sp + m3 + end));
    lemma_infix(h + m1, rp, m2 + sp + m3 + end);
    let k1 = (h + m1).len() as int;
    assert(r.subrange(k1, k1 + rp.len()) == rp);
    assert(r =~= (h + m1 + rp + m2) + sp + (m3 + end));
    lemma_infix(h + m1 + rp + m2, sp, m3 + end);
    let k2 = (h + m1 + rp + m2).len() as int;
    assert(r.subrange(k2, k2 + sp.len()) == sp);
}

/// Every coloured marker of a known family and position starts with
/// `<marker id="<prefix>_<kind>-<family><position>_<colour id>"`, ends with
/// `</marker>`, holds ` stroke="<colour>"` with the colour as given, and
/// has the `refX` of its family and position.
pub proof fn law_colored_marker_shape(
    family: Seq<char>,
    position: Seq<char>,
    kind: Seq<char>,
    id_prefix: Seq<char>,
    stroke: Seq<char>,
)
    requires
        family == "point"@ || family == "circle"@ || family == "cross"@,
        position == "End"@ || position == "Start"@,
    ensures
        ({
            let r = spec_colored_marker(family, position, kind, id_prefix, stroke);
            let head = marker_head(marker_raw_id(family, position, kind, id_prefix, stroke));
            &&& r.take(head.len() as int) == head
            &&& r.skip(r.len() - "</marker>"@.len()) == "</marker>"@
            &&& occurs_in(r, ref_piece(marker_ref_x(family, position)))
            &&& occurs_in(r, stroke_piece(stroke))
        }),
{
    reveal_strlit("End");
    reveal_strlit("Start");
    reveal_strlit("point");
    reveal_strlit("circle");
    reveal_strlit("cross");
    assert("End"@.len() != "Start"@.len());
    assert("point"@.len() != "circle"@.len() && "circle"@.len() != "cross"@.len());
    assert("point"@[0] != "cross"@[0]);
    let raw = marker_raw_id(family, position, kind, id_prefix, stroke);
    if family == "point"@ {
        let d = if position == "End"@ {
            "M 0 0 L 10 5 L 0 10 z"@
        } else {
            "M 0 5 L 10 10 L 10 0 z"@
        };
        lemma_marker_shape(
            raw,
            " class=\"marker "@ + kind + "\" viewBox=\"0 0 10 10\""@,
            marker_ref_x(family, position),
            " refY=\"5\" markerUnits=\"userSpaceOnUse\" markerWidth=\"8\" markerHeight=\"8\" orient=\"auto\"><path d=\""@
                + d + "\" class=\"arrowMarkerPath\" style=\"stroke-width: 1; stroke-dasharray: 1,0;\""@,
            stroke,
            " fill=\""@ + stroke + "\"></path>"@,
        );
    } else if family == "circle"@ {
        lemma_marker_shape(
            raw,
            " class=\"marker "@ + kind + "\" viewBox=\"0 0 10 10\""@,
            marker_ref_x(family, position),
            " refY=\"5\" markerUnits=\"userSpaceOnUse\" markerWidth=\"11\" markerHeight=\"11\" orient=\"auto\"><circle cx=\"5\" cy=\"5\" r=\"5\" class=\"arrowMarkerPath\" style=\"stroke-width: 1; stroke-dasharray: 1,0;\""@,
            stroke,
            "></circle>"@,
        );
    } else {
        lemma_marker_shape(
            raw,
            " class=\"marker cross "@ + kind + "\" viewBox=\"0 0 11 11\""@,
            marker_ref_x(family, position),
            " refY=\"5.2\" markerUnits=\"userSpaceOnUse\" markerWidth=\"11\" markerHeight=\"11\" orient=\"auto\"><path d=\"M 1,1 l 9,9 M 10,1 l -9,9\" class=\"arrowMarkerPath\" style=\"stroke-width: 2; stroke-dasharray: 1,0;\""@,
            stroke,
            "></path>"@,
        );
    }
}

/// A `stroke:` at `k` that is not preceded by an ASCII letter, digit or `-`.
pub open spec fn stroke_at(s: Seq<char>, k: int) -> bool {
    0 <= k && k + 7 <= s.len() && s.subrange(k, k + 7) == "stroke:"@ && (k == 0 || !(is_alnum(
        s[k - 1],
    ) || s[k - 1] == '-'))
}

/// The text from `a` up to the next `;` or the end.
pub open spec fn until_semicolon(s: Seq<char>, a: int) -> Seq<char> {
    match find_sub(s, a, seq![';']) {
        Some(e) => s.subrange(a, e),
        None => s.subrange(a, s.len() as int),
    }
}

proof fn lemma_find_sub_first(s: Seq<char>, from: int, m: Seq<char>)
    requires
        0 <= from,
        m.len() > 0,
    ensures
        find_sub(s, from, m) matches Some(p) ==> forall|q: int|
            from <= q < p ==> !(q + m.len() <= s.len() && #[trigger] s.subrange(q, q + m.len())
                == m),
        find_sub(s, from, m) is None ==> forall|q: int|
            from <= q ==> !(q + m.len() <= s.len() && #[trigger] s.subrange(q, q + m.len()) == m),
    decreases s.len() - from,
{
    if !(from + m.len() > s.len()) && s.subrange(from, from + m.len()) != m {
        lemma_find_sub_first(s, from + 1, m);
    }
}

proof fn lemma_stroke_no_overlap(s: Seq<char>, abs: int, k: int)
    requires
        0 <= abs,
        abs + 7 <= s.len(),
        s.subrange(abs, abs + 7) == "stroke:"@,
        abs < k < abs + 7,
    ensures
        !stroke_at(s, k),
{
    reveal_strlit("stroke:");
    if stroke_at(s, k) {
        assert(s.subrange(k, k + 7)[0] == s[k]);
        assert(s.subrange(abs, abs + 7)[k - abs] == s[k]);
    }
}

proof fn lemma_stroke_first(s: Seq<char>, start: int)
    requires
        0 <= start <= s.len(),
        forall|k: int| #[trigger] stroke_at(s, k) ==> k + 7 < s.len() && s[k + 7] != ';',
    ensures
        (forall|k: int| start <= k ==> !#[trigger] stroke_at(s, k)) ==> stroke_color_from(s, start)
            is None,
        forall|k: int|
            start <= k && #[trigger] stroke_at(s, k) && (forall|j: int|
                start <= j < k ==> !stroke_at(s, j)) ==> stroke_color_from(s, start) == Some(
                until_semicolon(s, k + 7),
            ),
    decreases s.len() - start,
{
    reveal_strlit("stroke:");
    let m = "stroke:"@;
    lemma_find_sub(s, start, m);
    lemma_find_sub_first(s, start, m);
    match find_sub(s, start, m) {
        None => {
            assert forall|k: int| start <= k && #[trigger] stroke_at(s, k) implies false by {
                assert(s.subrange(k, k + 7) == m);
            }
        },
        Some(abs) => {
            assert(s.subrange(abs, abs + 7) == m);
            assert forall|j: int| start <= j < abs && #[trigger] stroke_at(s, j) implies false by {
                assert(s.subrange(j, j + 7) == m);
            }
            if abs > 0 && (is_alnum(s[abs - 1]) || s[abs - 1] == '-') {
                assert(!stroke_at(s, abs));
                assert(stroke_color_from(s, start) == stroke_color_from(s, abs + 7));
                lemma_stroke_first(s, abs + 7);
                assert forall|k: int| abs < k < abs + 7 implies !#[trigger] stroke_at(s, k) by {
                    lemma_stroke_no_overlap(s, abs, k);
                }
                assert forall|k: int|
                    start <= k && #[trigger] stroke_at(s, k) && (forall|j: int|
                        start <= j < k ==> !stroke_at(s, j)) implies stroke_color_from(s, start)
                    == Some(until_semicolon(s, k + 7)) by {
                    assert(abs + 7 <= k);
                    assert forall|j: int| abs + 7 <= j < k implies !stroke_at(s, j) by {}
                }
            } else {
                assert(stroke_at(s, abs));
                lemma_find_sub(s, abs + 7, seq![';']);
                let end = match find_sub(s, abs + 7, seq![';']) {
                    Some(e) => e,
                    None => s.len() as int,
                };
                assert(end != abs + 7) by {
                    if end == abs + 7 && find_sub(s, abs + 7, seq![';']) is Some {
                        assert(s.subrange(abs + 7, abs + 8) == seq![';']);
                        assert(s[abs + 7] == s.subrange(abs + 7, abs + 8)[0]);
                    }
                }
                assert(stroke_color_from(s, start) == Some(until_semicolon(s, abs + 7)));
            }
        },
    }
}

/// The stroke colour is the text after the first `stroke:` that is not
/// preceded by a letter, digit or `-`, up to the next `;` or the end (when
/// no such `stroke:` is directly followed by `;` or the end); `None` when
/// there is no such `stroke:`.
pub proof fn law_stroke_first_match(s: Seq<char>)
    requires
        forall|k: int| #[trigger] stroke_at(s, k) ==> k + 7 < s.len() && s[k + 7] != ';',
    ensures
        (forall|k: int| !#[trigger] stroke_at(s, k)) ==> stroke_color_from(s, 0) is None,
        forall|k: int|
            #[trigger] stroke_at(s, k) && (forall|j: int| 0 <= j < k ==> !stroke_at(s, j))
                ==> stroke_color_from(s, 0) == Some(until_semicolon(s, k + 7)),
{
    lemma_stroke_first(s, 0);
    assert forall|k: int| #[trigger] stroke_at(s, k) && (forall|j: int| 0 <= j < k ==> !stroke_at(s, j))
        implies stroke_color_from(s, 0) == Some(until_semicolon(s, k + 7)) by {
        assert(0 <= k);
    }
}

} // verus!
