//! The state-diagram CSS rules, with the theme colours they interpolate.
use vstd::prelude::*;
use crate::chars::{append_int, int_text, replace_all, replace_str};
use crate::theme::{int_or, str_or, str_or2, text_or, text_or2, ThemeVariables};

verus! {

fn owned(s: &str) -> (r: String)
    ensures
        r@ == s@,
{
    let mut r = String::new();
    r.append(s);
    r
}

/// The `transition_color` value of the state CSS for a theme.
pub open spec fn css_transition_color(t: ThemeVariables) -> Seq<char> {
    text_or(t.transition_color, "#333333"@)
}

/// The `node_border` value of the state CSS for a theme.
pub open spec fn css_node_border(t: ThemeVariables) -> Seq<char> {
    text_or(t.node_border, "#9370DB"@)
}

/// The `text_color` value of the state CSS for a theme.
pub open spec fn css_text_color(t: ThemeVariables) -> Seq<char> {
    text_or(t.text_color, "#333"@)
}

/// The `main_bkg` value of the state CSS for a theme.
pub open spec fn css_main_bkg(t: ThemeVariables) -> Seq<char> {
    text_or(t.main_bkg, "#ECECFF"@)
}

/// The `line_color` value of the state CSS for a theme.
pub open spec fn css_line_color(t: ThemeVariables) -> Seq<char> {
    text_or(t.line_color, "#333333"@)
}

/// The `stroke_width` value of the state CSS for a theme.
pub open spec fn css_stroke_width(t: ThemeVariables) -> Seq<char> {
    int_text(int_or(t.stroke_width, 1))
}

/// The `state_label_color` value of the state CSS for a theme.
pub open spec fn css_state_label_color(t: ThemeVariables) -> Seq<char> {
    text_or(t.state_label_color, "#131300"@)
}

/// The `special_state_color` value of the state CSS for a theme.
pub open spec fn css_special_state_color(t: ThemeVariables) -> Seq<char> {
    text_or(t.special_state_color, "#333333"@)
}

/// The `inner_end_bg` value of the state CSS for a theme.
pub open spec fn css_inner_end_bg(t: ThemeVariables) -> Seq<char> {
    text_or(t.inner_end_background, "#333333"@)
}

/// The `background` value of the state CSS for a theme.
pub open spec fn css_background(t: ThemeVariables) -> Seq<char> {
    text_or(t.background, "white"@)
}

/// The `composite_bg` value of the state CSS for a theme.
pub open spec fn css_composite_bg(t: ThemeVariables) -> Seq<char> {
    text_or2(t.composite_background, t.background, "white"@)
}

/// The `composite_title_bg` value of the state CSS for a theme.
pub open spec fn css_composite_title_bg(t: ThemeVariables) -> Seq<char> {
    text_or(t.composite_title_background, "#ECECFF"@)
}

/// The `state_bkg` value of the state CSS for a theme.
pub open spec fn css_state_bkg(t: ThemeVariables) -> Seq<char> {
    text_or2(t.state_bkg, t.main_bkg, "#ECECFF"@)
}

/// The `state_border` value of the state CSS for a theme.
pub open spec fn css_state_border(t: ThemeVariables) -> Seq<char> {
    text_or2(t.state_border, t.node_border, "#9370DB"@)
}

/// The `alt_bg` value of the state CSS for a theme.
pub open spec fn css_alt_bg(t: ThemeVariables) -> Seq<char> {
    text_or(t.alt_background, "#efefef"@)
}

/// The `note_bkg` value of the state CSS for a theme.
pub open spec fn css_note_bkg(t: ThemeVariables) -> Seq<char> {
    text_or(t.note_bkg_color, "#fff5ad"@)
}

/// The `note_border` value of the state CSS for a theme.
pub open spec fn css_note_border(t: ThemeVariables) -> Seq<char> {
    text_or(t.note_border_color, "#aaaa33"@)
}

/// The `note_text` value of the state CSS for a theme.
pub open spec fn css_note_text(t: ThemeVariables) -> Seq<char> {
    text_or(t.note_text_color, "#333"@)
}

/// The `label_bg` value of the state CSS for a theme.
pub open spec fn css_label_bg(t: ThemeVariables) -> Seq<char> {
    text_or(t.label_background_color, "#ECECFF"@)
}

/// The `edge_label_bg` value of the state CSS for a theme.
pub open spec fn css_edge_label_bg(t: ThemeVariables) -> Seq<char> {
    text_or(t.edge_label_background, "rgba(232,232,232, 0.8)"@)
}

/// The `transition_label_color` value of the state CSS for a theme.
pub open spec fn css_transition_label_color(t: ThemeVariables) -> Seq<char> {
    text_or2(t.transition_label_color, t.tertiary_text_color, "#333"@)
}

/// The `radius` value of the state CSS for a theme.
pub open spec fn css_radius(t: ThemeVariables) -> Seq<char> {
    int_text(int_or(t.radius, 5))
}

/// The `neo_ds` value of the state CSS for a theme.
pub open spec fn css_neo_ds(id: Seq<char>, t: ThemeVariables) -> Seq<char> {
    replace_all(text_or(t.drop_shadow, "drop-shadow(1px 2px 2px rgba(185, 185, 185, 1))"@), "url(#drop-shadow)"@, "url("@ + id + "-drop-shadow)"@)
}

/// The theme values the state CSS interpolates, resolved to text.
struct StateCssVals {
    transition_color: String,
    node_border: String,
    text_color: String,
    main_bkg: String,
    line_color: String,
    stroke_width: String,
    state_label_color: String,
    special_state_color: String,
    inner_end_bg: String,
    background: String,
    composite_bg: String,
    composite_title_bg: String,
    state_bkg: String,
    state_border: String,
    alt_bg: String,
    note_bkg: String,
    note_border: String,
    note_text: String,
    label_bg: String,
    edge_label_bg: String,
    transition_label_color: String,
    radius: String,
    neo_ds: String,
}

impl StateCssVals {
    spec fn resolved(&self, id: Seq<char>, t: ThemeVariables) -> bool {
        &&& self.transition_color@ == css_transition_color(t)
        &&& self.node_border@ == css_node_border(t)
        &&& self.text_color@ == css_text_color(t)
        &&& self.main_bkg@ == css_main_bkg(t)
        &&& self.line_color@ == css_line_color(t)
        &&& self.stroke_width@ == css_stroke_width(t)
        &&& self.state_label_color@ == css_state_label_color(t)
        &&& self.special_state_color@ == css_special_state_color(t)
        &&& self.inner_end_bg@ == css_inner_end_bg(t)
        &&& self.background@ == css_background(t)
        &&& self.composite_bg@ == css_composite_bg(t)
        &&& self.composite_title_bg@ == css_composite_title_bg(t)
        &&& self.state_bkg@ == css_state_bkg(t)
        &&& self.state_border@ == css_state_border(t)
        &&& self.alt_bg@ == css_alt_bg(t)
        &&& self.note_bkg@ == css_note_bkg(t)
        &&& self.note_border@ == css_note_border(t)
        &&& self.note_text@ == css_note_text(t)
        &&& self.label_bg@ == css_label_bg(t)
        &&& self.edge_label_bg@ == css_edge_label_bg(t)
        &&& self.transition_label_color@ == css_transition_label_color(t)
        &&& self.radius@ == css_radius(t)
        &&& self.neo_ds@ == css_neo_ds(id, t)
    }
}

fn resolve_vals(id: &str, theme: &ThemeVariables) -> (r: StateCssVals)
    ensures
        r.resolved(id@, *theme),
{
    let transition_color = owned(str_or(&theme.transition_color, "#333333"));
    let node_border = owned(str_or(&theme.node_border, "#9370DB"));
    let text_color = owned(str_or(&theme.text_color, "#333"));
    let main_bkg = owned(str_or(&theme.main_bkg, "#ECECFF"));
    let line_color = owned(str_or(&theme.line_color, "#333333"));
    let state_label_color = owned(str_or(&theme.state_label_color, "#131300"));
    let special_state_color = owned(str_or(&theme.special_state_color, "#333333"));
    let inner_end_bg = owned(str_or(&theme.inner_end_background, "#333333"));
    let background = owned(str_or(&theme.background, "white"));
    let composite_bg = owned(str_or2(&theme.composite_background, &theme.background, "white"));
    let composite_title_bg = owned(str_or(&theme.composite_title_background, "#ECECFF"));
    let state_bkg = owned(str_or2(&theme.state_bkg, &theme.main_bkg, "#ECECFF"));
    let state_border = owned(str_or2(&theme.state_border, &theme.node_border, "#9370DB"));
    let alt_bg = owned(str_or(&theme.alt_background, "#efefef"));
    let note_bkg = owned(str_or(&theme.note_bkg_color, "#fff5ad"));
    let note_border = owned(str_or(&theme.note_border_color, "#aaaa33"));
    let note_text = owned(str_or(&theme.note_text_color, "#333"));
    let label_bg = owned(str_or(&theme.label_background_color, "#ECECFF"));
    let edge_label_bg = owned(str_or(&theme.edge_label_background, "rgba(232,232,232, 0.8)"));
    let transition_label_color = owned(str_or2(&theme.transition_label_color, &theme.tertiary_text_color, "#333"));
    let mut stroke_width = String::new();
    append_int(&mut stroke_width, match theme.stroke_width {
        Some(n) => n,
        None => 1,
    });
    let mut radius = String::new();
    append_int(&mut radius, match theme.radius {
        Some(n) => n,
        None => 5,
    });
    let mut target = String::new();
    target.append("url(");
    target.append(id);
    target.append("-drop-shadow)");
    proof {
        reveal_strlit("url(#drop-shadow)");
    }
    let neo_ds = replace_str(
        str_or(&theme.drop_shadow, "drop-shadow(1px 2px 2px rgba(185, 185, 185, 1))"),
        "url(#drop-shadow)",
        target.as_str(),
    );
    StateCssVals { transition_color, node_border, text_color, main_bkg, line_color, stroke_width, state_label_color, special_state_color, inner_end_bg, background, composite_bg, composite_title_bg, state_bkg, state_border, alt_bg, note_bkg, note_border, note_text, label_bg, edge_label_bg, transition_label_color, radius, neo_ds }
}

/// `prefix` followed by rules 1 to 8 of the state CSS.
pub open spec fn state_css_part1(prefix: Seq<char>, id: Seq<char>, t: ThemeVariables) -> Seq<char> {
    prefix + "#"@ + id + " defs [id$=\"-barbEnd\"]{fill:"@ + css_transition_color(t) + ";stroke:"@ + css_transition_color(t) + ";}"@
        + "#"@ + id + " g.stateGroup text{fill:"@ + css_node_border(t) + ";stroke:none;font-size:10px;}"@
        + "#"@ + id + " g.stateGroup text{fill:"@ + css_text_color(t) + ";stroke:none;font-size:10px;}"@
        + "#"@ + id + " g.stateGroup .state-title{font-weight:bolder;fill:"@ + css_state_label_color(t) + ";}"@
        + "#"@ + id + " g.stateGroup rect{fill:"@ + css_main_bkg(t) + ";stroke:"@ + css_node_border(t) + ";}"@
        + "#"@ + id + " g.stateGroup line{stroke:"@ + css_line_color(t) + ";stroke-width:"@ + css_stroke_width(t) + ";}"@
        + "#"@ + id + " .transition{stroke:"@ + css_transition_color(t) + ";stroke-width:"@ + css_stroke_width(t) + ";fill:none;}"@
        + "#"@ + id + " .stateGroup .composit{fill:"@ + css_background(t) + ";border-bottom:1px;}"@
}

fn emit_part1(out: &mut String, id: &str, v: &StateCssVals, Ghost(t): Ghost<ThemeVariables>)
    requires
        v.resolved(id@, t),
    ensures
        final(out)@ == state_css_part1(old(out)@, id@, t),
{
    out.append("#");
    out.append(id);
    out.append(" defs [id$=\"-barbEnd\"]{fill:");
    out.append(v.transition_color.as_str());
    out.append(";stroke:");
    out.append(v.transition_color.as_str());
    out.append(";}");
    out.append("#");
    out.append(id);
    out.append(" g.stateGroup text{fill:");
    out.append(v.node_border.as_str());
    out.append(";stroke:none;font-size:10px;}");
    out.append("#");
    out.append(id);
    out.append(" g.stateGroup text{fill:");
    out.append(v.text_color.as_str());
    out.append(";stroke:none;font-size:10px;}");
    out.append("#");
    out.append(id);
    out.append(" g.stateGroup .state-title{font-weight:bolder;fill:");
    out.append(v.state_label_color.as_str());
    out.append(";}");
    out.append("#");
    out.append(id);
    out.append(" g.stateGroup rect{fill:");
    out.append(v.main_bkg.as_str());
    out.append(";stroke:");
    out.append(v.node_border.as_str());
    out.append(";}");
    out.append("#");
    out.append(id);
    out.append(" g.stateGroup line{stroke:");
    out.append(v.line_color.as_str());
    out.append(";stroke-width:");
    out.append(v.stroke_width.as_str());
    out.append(";}");
    out.append("#");
    out.append(id);
    out.append(" .transition{stroke:");
    out.append(v.transition_color.as_str());
    out.append(";stroke-width:");
    out.append(v.stroke_width.as_str());
    out.append(";fill:none;}");
    out.append("#");
    out.append(id);
    out.append(" .stateGroup .composit{fill:");
    out.append(v.background.as_str());
    out.append(";border-bottom:1px;}");
}

/// `prefix` followed by rules 9 to 16 of the state CSS.
pub open spec fn state_css_part2(prefix: Seq<char>, id: Seq<char>, t: ThemeVariables) -> Seq<char> {
    prefix + "#"@ + id + " .stateGroup .alt-composit{fill:#e0e0e0;border-bottom:1px;}"@
        + "#"@ + id + " .state-note{stroke:"@ + css_note_border(t) + ";fill:"@ + css_note_bkg(t) + ";}"@
        + "#"@ + id + " .state-note text{fill:"@ + css_note_text(t) + ";stroke:none;font-size:10px;}"@
        + "#"@ + id + " .stateLabel .box{stroke:none;stroke-width:0;fill:"@ + css_main_bkg(t) + ";opacity:0.5;}"@
        + "#"@ + id + " .edgeLabel .label rect{fill:"@ + css_label_bg(t) + ";opacity:0.5;}"@
        + "#"@ + id + " .edgeLabel{background-color:"@ + css_edge_label_bg(t) + ";text-align:center;}"@
        + "#"@ + id + " .edgeLabel p{background-color:"@ + css_edge_label_bg(t) + ";}"@
        + "#"@ + id + " .edgeLabel rect{opacity:0.5;background-color:"@ + css_edge_label_bg(t) + ";fill:"@ + css_edge_label_bg(t) + ";}"@
}

fn emit_part2(out: &mut String, id: &str, v: &StateCssVals, Ghost(t): Ghost<ThemeVariables>)
    requires
        v.resolved(id@, t),
    ensures
        final(out)@ == state_css_part2(old(out)@, id@, t),
{
    out.append("#");
    out.append(id);
    out.append(" .stateGroup .alt-composit{fill:#e0e0e0;border-bottom:1px;}");
    out.append("#");
    out.append(id);
    out.append(" .state-note{stroke:");
    out.append(v.note_border.as_str());
    out.append(";fill:");
    out.append(v.note_bkg.as_str());
    out.append(";}");
    out.append("#");
    out.append(id);
    out.append(" .state-note text{fill:");
    out.append(v.note_text.as_str());
    out.append(";stroke:none;font-size:10px;}");
    out.append("#");
    out.append(id);
    out.append(" .stateLabel .box{stroke:none;stroke-width:0;fill:");
    out.append(v.main_bkg.as_str());
    out.append(";opacity:0.5;}");
    out.append("#");
    out.append(id);
    out.append(" .edgeLabel .label rect{fill:");
    out.append(v.label_bg.as_str());
    out.append(";opacity:0.5;}");
    out.append("#");
    out.append(id);
    out.append(" .edgeLabel{background-color:");
    out.append(v.edge_label_bg.as_str());
    out.append(";text-align:center;}");
    out.append("#");
    out.append(id);
    out.append(" .edgeLabel p{background-color:");
    out.append(v.edge_label_bg.as_str());
    out.append(";}");
    out.append("#");
    out.append(id);
    out.append(" .edgeLabel rect{opacity:0.5;background-color:");
    out.append(v.edge_label_bg.as_str());
    out.append(";fill:");
    out.append(v.edge_label_bg.as_str());
    out.append(";}");
}

/// `prefix` followed by rules 17 to 24 of the state CSS.
pub open spec fn state_css_part3(prefix: Seq<char>, id: Seq<char>, t: ThemeVariables) -> Seq<char> {
    prefix + "#"@ + id + " .edgeLabel .label text{fill:"@ + css_transition_label_color(t) + ";}"@
        + "#"@ + id + " .label div .edgeLabel{color:"@ + css_transition_label_color(t) + ";}"@
        + "#"@ + id + " .stateLabel text{fill:"@ + css_state_label_color(t) + ";font-size:10px;font-weight:bold;}"@
        + "#"@ + id + " .node circle.state-start{fill:"@ + css_special_state_color(t) + ";stroke:"@ + css_special_state_color(t) + ";}"@
        + "#"@ + id + " .node .fork-join{fill:"@ + css_special_state_color(t) + ";stroke:"@ + css_special_state_color(t) + ";}"@
        + "#"@ + id + " .node circle.state-end{fill:"@ + css_inner_end_bg(t) + ";stroke:"@ + css_background(t) + ";stroke-width:1.5;}"@
        + "#"@ + id + " .end-state-inner{fill:"@ + css_composite_bg(t) + ";stroke-width:1.5;}"@
        + "#"@ + id + " .node rect{fill:"@ + css_state_bkg(t) + ";stroke:"@ + css_state_border(t) + ";stroke-width:"@ + css_stroke_width(t) + "px;}"@
}

fn emit_part3(out: &mut String, id: &str, v: &StateCssVals, Ghost(t): Ghost<ThemeVariables>)
    requires
        v.resolved(id@, t),
    ensures
        final(out)@ == state_css_part3(old(out)@, id@, t),
{
    out.append("#");
    out.append(id);
    out.append(" .edgeLabel .label text{fill:");
    out.append(v.transition_label_color.as_str());
    out.append(";}");
    out.append("#");
    out.append(id);
    out.append(" .label div .edgeLabel{color:");
    out.append(v.transition_label_color.as_str());
    out.append(";}");
    out.append("#");
    out.append(id);
    out.append(" .stateLabel text{fill:");
    out.append(v.state_label_color.as_str());
    out.append(";font-size:10px;font-weight:bold;}");
    out.append("#");
    out.append(id);
    out.append(" .node circle.state-start{fill:");
    out.append(v.special_state_color.as_str());
    out.append(";stroke:");
    out.append(v.special_state_color.as_str());
    out.append(";}");
    out.append("#");
    out.append(id);
    out.append(" .node .fork-join{fill:");
    out.append(v.special_state_color.as_str());
    out.append(";stroke:");
    out.append(v.special_state_color.as_str());
    out.append(";}");
    out.append("#");
    out.append(id);
    out.append(" .node circle.state-end{fill:");
    out.append(v.inner_end_bg.as_str());
    out.append(";stroke:");
    out.append(v.background.as_str());
    out.append(";stroke-width:1.5;}");
    out.append("#");
    out.append(id);
    out.append(" .end-state-inner{fill:");
    out.append(v.composite_bg.as_str());
    out.append(";stroke-width:1.5;}");
    out.append("#");
    out.append(id);
    out.append(" .node rect{fill:");
    out.append(v.state_bkg.as_str());
    out.append(";stroke:");
    out.append(v.state_border.as_str());
    out.append(";stroke-width:");
    out.append(v.stroke_width.as_str());
    out.append("px;}");
}

/// `prefix` followed by rules 25 to 32 of the state CSS.
pub open spec fn state_css_part4(prefix: Seq<char>, id: Seq<char>, t: ThemeVariables) -> Seq<char> {
    prefix + "#"@ + id + " .node polygon{fill:"@ + css_main_bkg(t) + ";stroke:"@ + css_state_border(t) + ";stroke-width:"@ + css_stroke_width(t) + "px;}"@
        + "#"@ + id + " [id$=\"-barbEnd\"]{fill:"@ + css_line_color(t) + ";}"@
        + "#"@ + id + " .statediagram-cluster rect{fill:"@ + css_composite_title_bg(t) + ";stroke:"@ + css_state_border(t) + ";stroke-width:"@ + css_stroke_width(t) + "px;}"@
        + "#"@ + id + " .cluster-label,#"@ + id + " .nodeLabel{color:"@ + css_state_label_color(t) + ";}"@
        + "#"@ + id + " .statediagram-cluster rect.outer{rx:5px;ry:5px;}"@
        + "#"@ + id + " .statediagram-state .divider{stroke:"@ + css_state_border(t) + ";}"@
        + "#"@ + id + " .statediagram-state .title-state{rx:5px;ry:5px;}"@
        + "#"@ + id + " .statediagram-cluster.statediagram-cluster .inner{fill:"@ + css_composite_bg(t) + ";}"@
}

fn emit_part4(out: &mut String, id: &str, v: &StateCssVals, Ghost(t): Ghost<ThemeVariables>)
    requires
        v.resolved(id@, t),
    ensures
        final(out)@ == state_css_part4(old(out)@, id@, t),
{
    out.append("#");
    out.append(id);
    out.append(" .node polygon{fill:");
    out.append(v.main_bkg.as_str());
    out.append(";stroke:");
    out.append(v.state_border.as_str());
    out.append(";stroke-width:");
    out.append(v.stroke_width.as_str());
    out.append("px;}");
    out.append("#");
    out.append(id);
    out.append(" [id$=\"-barbEnd\"]{fill:");
    out.append(v.line_color.as_str());
    out.append(";}");
    out.append("#");
    out.append(id);
    out.append(" .statediagram-cluster rect{fill:");
    out.append(v.composite_title_bg.as_str());
    out.append(";stroke:");
    out.append(v.state_border.as_str());
    out.append(";stroke-width:");
    out.append(v.stroke_width.as_str());
    out.append("px;}");
    out.append("#");
    out.append(id);
    out.append(" .cluster-label,#");
    out.append(id);
    out.append(" .nodeLabel{color:");
    out.append(v.state_label_color.as_str());
    out.append(";}");
    out.append("#");
    out.append(id);
    out.append(" .statediagram-cluster rect.outer{rx:5px;ry:5px;}");
    out.append("#");
    out.append(id);
    out.append(" .statediagram-state .divider{stroke:");
    out.append(v.state_border.as_str());
    out.append(";}");
    out.append("#");
    out.append(id);
    out.append(" .statediagram-state .title-state{rx:5px;ry:5px;}");
    out.append("#");
    out.append(id);
    out.append(" .statediagram-cluster.statediagram-cluster .inner{fill:");
    out.append(v.composite_bg.as_str());
    out.append(";}");
}

/// `prefix` followed by rules 33 to 40 of the state CSS.
pub open spec fn state_css_part5(prefix: Seq<char>, id: Seq<char>, t: ThemeVariables) -> Seq<char> {
    prefix + "#"@ + id + " .statediagram-cluster.statediagram-cluster-alt .inner{fill:"@ + css_alt_bg(t) + ";}"@
        + "#"@ + id + " .statediagram-cluster .inner{rx:0;ry:0;}"@
        + "#"@ + id + " .statediagram-state rect.basic{rx:5px;ry:5px;}"@
        + "#"@ + id + " .statediagram-state rect.divider{stroke-dasharray:10,10;fill:"@ + css_alt_bg(t) + ";}"@
        + "#"@ + id + " .note-edge{stroke-dasharray:5;}"@
        + "#"@ + id + " .statediagram-note rect{fill:"@ + css_note_bkg(t) + ";stroke:"@ + css_note_border(t) + ";stroke-width:1px;rx:0;ry:0;}"@
        + "#"@ + id + " .statediagram-note rect{fill:"@ + css_note_bkg(t) + ";stroke:"@ + css_note_border(t) + ";stroke-width:1px;rx:0;ry:0;}"@
        + "#"@ + id + " .statediagram-note text{fill:"@ + css_note_text(t) + ";}"@
}

fn emit_part5(out: &mut String, id: &str, v: &StateCssVals, Ghost(t): Ghost<ThemeVariables>)
    requires
        v.resolved(id@, t),
    ensures
        final(out)@ == state_css_part5(old(out)@, id@, t),
{
    out.append("#");
    out.append(id);
    out.append(" .statediagram-cluster.statediagram-cluster-alt .inner{fill:");
    out.append(v.alt_bg.as_str());
    out.append(";}");
    out.append("#");
    out.append(id);
    out.append(" .statediagram-cluster .inner{rx:0;ry:0;}");
    out.append("#");
    out.append(id);
    out.append(" .statediagram-state rect.basic{rx:5px;ry:5px;}");
    out.append("#");
    out.append(id);
    out.append(" .statediagram-state rect.divider{stroke-dasharray:10,10;fill:");
    out.append(v.alt_bg.as_str());
    out.append(";}");
    out.append("#");
    out.append(id);
    out.append(" .note-edge{stroke-dasharray:5;}");
    out.append("#");
    out.append(id);
    out.append(" .statediagram-note rect{fill:");
    out.append(v.note_bkg.as_str());
    out.append(";stroke:");
    out.append(v.note_border.as_str());
    out.append(";stroke-width:1px;rx:0;ry:0;}");
    out.append("#");
    out.append(id);
    out.append(" .statediagram-note rect{fill:");
    out.append(v.note_bkg.as_str());
    out.append(";stroke:");
    out.append(v.note_border.as_str());
    out.append(";stroke-width:1px;rx:0;ry:0;}");
    out.append("#");
    out.append(id);
    out.append(" .statediagram-note text{fill:");
    out.append(v.note_text.as_str());
    out.append(";}");
}

/// `prefix` followed by rules 41 to 46 of the state CSS.
pub open spec fn state_css_part6(prefix: Seq<char>, id: Seq<char>, t: ThemeVariables) -> Seq<char> {
    prefix + "#"@ + id + " .statediagram-note .nodeLabel{color:"@ + css_note_text(t) + ";}"@
        + "#"@ + id + " .statediagram .edgeLabel{color:red;}"@
        + "#"@ + id + " [id$=\"-dependencyStart\"],#"@ + id + " [id$=\"-dependencyEnd\"]{fill:"@ + css_line_color(t) + ";stroke:"@ + css_line_color(t) + ";stroke-width:"@ + css_stroke_width(t) + ";}"@
        + "#"@ + id + " .statediagramTitleText{text-anchor:middle;font-size:18px;fill:"@ + css_text_color(t) + ";}"@
        + "#"@ + id + " [data-look=\"neo\"].statediagram-cluster rect{fill:"@ + css_main_bkg(t) + ";stroke:"@ + css_state_border(t) + ";stroke-width:"@ + css_stroke_width(t) + ";}"@
        + "#"@ + id + " [data-look=\"neo\"].statediagram-cluster rect.outer{rx:"@ + css_radius(t) + "px;ry:"@ + css_radius(t) + "px;filter:"@ + css_neo_ds(id, t) + ";}"@
}

fn emit_part6(out: &mut String, id: &str, v: &StateCssVals, Ghost(t): Ghost<ThemeVariables>)
    requires
        v.resolved(id@, t),
    ensures
        final(out)@ == state_css_part6(old(out)@, id@, t),
{
    out.append("#");
    out.append(id);
    out.append(" .statediagram-note .nodeLabel{color:");
    out.append(v.note_text.as_str());
    out.append(";}");
    out.append("#");
    out.append(id);
    out.append(" .statediagram .edgeLabel{color:red;}");
    out.append("#");
    out.append(id);
    out.append(" [id$=\"-dependencyStart\"],#");
    out.append(id);
    out.append(" [id$=\"-dependencyEnd\"]{fill:");
    out.append(v.line_color.as_str());
    out.append(";stroke:");
    out.append(v.line_color.as_str());
    out.append(";stroke-width:");
    out.append(v.stroke_width.as_str());
    out.append(";}");
    out.append("#");
    out.append(id);
    out.append(" .statediagramTitleText{text-anchor:middle;font-size:18px;fill:");
    out.append(v.text_color.as_str());
    out.append(";}");
    out.append("#");
    out.append(id);
    out.append(" [data-look=\"neo\"].statediagram-cluster rect{fill:");
    out.append(v.main_bkg.as_str());
    out.append(";stroke:");
    out.append(v.state_border.as_str());
    out.append(";stroke-width:");
    out.append(v.stroke_width.as_str());
    out.append(";}");
    out.append("#");
    out.append(id);
    out.append(" [data-look=\"neo\"].statediagram-cluster rect.outer{rx:");
    out.append(v.radius.as_str());
    out.append("px;ry:");
    out.append(v.radius.as_str());
    out.append("px;filter:");
    out.append(v.neo_ds.as_str());
    out.append(";}");
}

/// The state-specific CSS for a theme.
pub open spec fn state_css(id: Seq<char>, t: ThemeVariables) -> Seq<char> {
    state_css_part6(
        state_css_part5(
            state_css_part4(
                state_css_part3(
                    state_css_part2(state_css_part1(Seq::empty(), id, t), id, t),
                    id,
                    t,
                ),
                id,
                t,
            ),
            id,
            t,
        ),
        id,
        t,
    )
}

/// The state-diagram CSS rules (transitions, states, notes, clusters, edge
/// labels, start and end markers, the neo look), with each theme colour
/// falling back to its default when the theme leaves it unset.
pub fn state_specific_css(id: &str, theme: &ThemeVariables) -> (r: String)
    ensures
        r@ == state_css(id@, *theme),
{
    let v = resolve_vals(id, theme);
    let mut s = String::new();
    emit_part1(&mut s, id, &v, Ghost(*theme));
    emit_part2(&mut s, id, &v, Ghost(*theme));
    emit_part3(&mut s, id, &v, Ghost(*theme));
    emit_part4(&mut s, id, &v, Ghost(*theme));
    emit_part5(&mut s, id, &v, Ghost(*theme));
    emit_part6(&mut s, id, &v, Ghost(*theme));
    s
}

} // verus!
