//! Diagram kinds that share the unified SVG shell, and the CSS preamble and
//! neo-look rules every style block shares.
use vstd::prelude::*;
use crate::chars::{append_int, int_text};
use crate::theme::{int_or, str_or, text_or, ThemeVariables};
use crate::venn::{minify_font, minify_font_family};

verus! {

/// The diagram kinds that share the unified shell + CSS machinery.
#[derive(Debug, Clone, Copy, PartialEq, Eq, Structural)]
pub enum DiagramKind {
    Er,
    Block,
    Flowchart,
    State,
    Class,
    Requirement,
}

impl DiagramKind {
    /// The `aria-roledescription` value and registration key of the kind.
    pub open spec fn spec_aria(self) -> Seq<char> {
        match self {
            DiagramKind::Er => "er"@,
            DiagramKind::Block => "block"@,
            DiagramKind::Flowchart => "flowchart-v2"@,
            DiagramKind::State => "stateDiagram"@,
            DiagramKind::Class => "classDiagram"@,
            DiagramKind::Requirement => "requirement"@,
        }
    }

    /// The SVG `class=` value on the outer element for the kind.
    pub open spec fn spec_svg_class(self) -> Seq<char> {
        match self {
            DiagramKind::Er => "erDiagram"@,
            DiagramKind::Block => "block"@,
            DiagramKind::Flowchart => "flowchart"@,
            DiagramKind::State => "statediagram"@,
            DiagramKind::Class => "classDiagram"@,
            DiagramKind::Requirement => "requirementDiagram"@,
        }
    }

    /// The string used in `aria-roledescription` and as the registration key.
    pub fn aria(self) -> (r: &'static str)
        ensures
            r@ == self.spec_aria(),
    {
        match self {
            DiagramKind::Er => "er",
            DiagramKind::Block => "block",
            DiagramKind::Flowchart => "flowchart-v2",
            DiagramKind::State => "stateDiagram",
            DiagramKind::Class => "classDiagram",
            DiagramKind::Requirement => "requirement",
        }
    }

    /// The value of the SVG `class=` attribute on the outer element.
    pub fn svg_class(self) -> (r: &'static str)
        ensures
            r@ == self.spec_svg_class(),
    {
        match self {
            DiagramKind::Er => "erDiagram",
            DiagramKind::Block => "block",
            DiagramKind::Flowchart => "flowchart",
            DiagramKind::State => "statediagram",
            DiagramKind::Class => "classDiagram",
            DiagramKind::Requirement => "requirementDiagram",
        }
    }
}

// ---------------------------------------------------------------------------
// The shared preamble and neo-look rules of every style block
// ---------------------------------------------------------------------------

fn owned(s: &str) -> (r: String)
    ensures
        r@ == s@,
{
    let mut r = String::new();
    r.append(s);
    r
}

/// The `font_family` value of the shared CSS for a theme.
pub open spec fn base_font_family(t: ThemeVariables) -> Seq<char> {
    minify_font(text_or(t.font_family, "\"trebuchet ms\", verdana, arial, sans-serif"@))
}

/// The `font_size` value of the shared CSS for a theme.
pub open spec fn base_font_size(t: ThemeVariables) -> Seq<char> {
    text_or(t.font_size, "16px"@)
}

/// The `text_color` value of the shared CSS for a theme.
pub open spec fn base_text_color(t: ThemeVariables) -> Seq<char> {
    text_or(t.text_color, "#333"@)
}

/// The `error_bkg` value of the shared CSS for a theme.
pub open spec fn base_error_bkg(t: ThemeVariables) -> Seq<char> {
    text_or(t.error_bkg_color, "#552222"@)
}

/// The `error_text` value of the shared CSS for a theme.
pub open spec fn base_error_text(t: ThemeVariables) -> Seq<char> {
    text_or(t.error_text_color, "#552222"@)
}

/// The `line_color` value of the shared CSS for a theme.
pub open spec fn base_line_color(t: ThemeVariables) -> Seq<char> {
    text_or(t.line_color, "#333333"@)
}

/// The `stroke_width` value of the shared CSS for a theme.
pub open spec fn base_stroke_width(t: ThemeVariables) -> Seq<char> {
    int_text(int_or(t.stroke_width, 1))
}

/// The `node_border` value of the shared CSS for a theme.
pub open spec fn base_node_border(t: ThemeVariables) -> Seq<char> {
    text_or(t.node_border, "#9370DB"@)
}

/// The `drop_shadow` value of the shared CSS for a theme.
pub open spec fn base_drop_shadow(t: ThemeVariables) -> Seq<char> {
    text_or(t.drop_shadow, "drop-shadow(1px 2px 2px rgba(185, 185, 185, 1))"@)
}

/// The theme values the shared CSS interpolates, resolved to text.
struct BaseVars {
    font_family: String,
    font_size: String,
    text_color: String,
    error_bkg: String,
    error_text: String,
    line_color: String,
    stroke_width: String,
    node_border: String,
    drop_shadow: String,
}

impl BaseVars {
    spec fn resolved(&self, t: ThemeVariables) -> bool {
        &&& self.font_family@ == base_font_family(t)
        &&& self.font_size@ == base_font_size(t)
        &&& self.text_color@ == base_text_color(t)
        &&& self.error_bkg@ == base_error_bkg(t)
        &&& self.error_text@ == base_error_text(t)
        &&& self.line_color@ == base_line_color(t)
        &&& self.stroke_width@ == base_stroke_width(t)
        &&& self.node_border@ == base_node_border(t)
        &&& self.drop_shadow@ == base_drop_shadow(t)
    }

    fn resolve(theme: &ThemeVariables) -> (r: BaseVars)
        ensures
            r.resolved(*theme),
    {
        let font_size = owned(str_or(&theme.font_size, "16px"));
        let text_color = owned(str_or(&theme.text_color, "#333"));
        let error_bkg = owned(str_or(&theme.error_bkg_color, "#552222"));
        let error_text = owned(str_or(&theme.error_text_color, "#552222"));
        let line_color = owned(str_or(&theme.line_color, "#333333"));
        let node_border = owned(str_or(&theme.node_border, "#9370DB"));
        let drop_shadow = owned(str_or(&theme.drop_shadow, "drop-shadow(1px 2px 2px rgba(185, 185, 185, 1))"));
        let font_family = minify_font_family(
            str_or(&theme.font_family, "\"trebuchet ms\", verdana, arial, sans-serif"),
        );
        let mut stroke_width = String::new();
        append_int(&mut stroke_width, match theme.stroke_width {
            Some(n) => n,
            None => 1,
        });
        BaseVars {
            font_family,
            font_size,
            text_color,
            error_bkg,
            error_text,
            line_color,
            stroke_width,
            node_border,
            drop_shadow,
        }
    }
}

/// `prefix` followed by rules 1 to 9 of the shared preamble.
pub open spec fn preamble_part1(prefix: Seq<char>, id: Seq<char>, t: ThemeVariables) -> Seq<char> {
    prefix + "#"@ + id + "{font-family:"@ + base_font_family(t) + ";font-size:"@ + base_font_size(t) + ";fill:"@ + base_text_color(t) + ";}"@
        + "@keyframes edge-animation-frame{from{stroke-dashoffset:0;}}"@
        + "@keyframes dash{to{stroke-dashoffset:0;}}"@
        + "#"@ + id + " .edge-animation-slow{stroke-dasharray:9,5!important;stroke-dashoffset:900;animation:dash 50s linear infinite;stroke-linecap:round;}"@
        + "#"@ + id + " .edge-animation-fast{stroke-dasharray:9,5!important;stroke-dashoffset:900;animation:dash 20s linear infinite;stroke-linecap:round;}"@
        + "#"@ + id + " .error-icon{fill:"@ + base_error_bkg(t) + ";}"@
        + "#"@ + id + " .error-text{fill:"@ + base_error_text(t) + ";stroke:"@ + base_error_text(t) + ";}"@
        + "#"@ + id + " .edge-thickness-normal{stroke-width:"@ + base_stroke_width(t) + "px;}"@
        + "#"@ + id + " .edge-thickness-thick{stroke-width:3.5px;}"@
}

fn emit_preamble_part1(out: &mut String, id: &str, v: &BaseVars, Ghost(t): Ghost<ThemeVariables>)
    requires
        v.resolved(t),
    ensures
        final(out)@ == preamble_part1(old(out)@, id@, t),
{
    out.append("#");
    out.append(id);
    out.append("{font-family:");
    out.append(v.font_family.as_str());
    out.append(";font-size:");
    out.append(v.font_size.as_str());
    out.append(";fill:");
    out.append(v.text_color.as_str());
    out.append(";}");
    out.append("@keyframes edge-animation-frame{from{stroke-dashoffset:0;}}");
    out.append("@keyframes dash{to{stroke-dashoffset:0;}}");
    out.append("#");
    out.append(id);
    out.append(" .edge-animation-slow{stroke-dasharray:9,5!important;stroke-dashoffset:900;animation:dash 50s linear infinite;stroke-linecap:round;}");
    out.append("#");
    out.append(id);
    out.append(" .edge-animation-fast{stroke-dasharray:9,5!important;stroke-dashoffset:900;animation:dash 20s linear infinite;stroke-linecap:round;}");
    out.append("#");
    out.append(id);
    out.append(" .error-icon{fill:");
    out.append(v.error_bkg.as_str());
    out.append(";}");
    out.append("#");
    out.append(id);
    out.append(" .error-text{fill:");
    out.append(v.error_text.as_str());
    out.append(";stroke:");
    out.append(v.error_text.as_str());
    out.append(";}");
    out.append("#");
    out.append(id);
    out.append(" .edge-thickness-normal{stroke-width:");
    out.append(v.stroke_width.as_str());
    out.append("px;}");
    out.append("#");
    out.append(id);
    out.append(" .edge-thickness-thick{stroke-width:3.5px;}");
}

/// `prefix` followed by rules 10 to 17 of the shared preamble.
pub open spec fn preamble_part2(prefix: Seq<char>, id: Seq<char>, t: ThemeVariables) -> Seq<char> {
    prefix + "#"@ + id + " .edge-pattern-solid{stroke-dasharray:0;}"@
        + "#"@ + id + " .edge-thickness-invisible{stroke-width:0;fill:none;}"@
        + "#"@ + id + " .edge-pattern-dashed{stroke-dasharray:3;}"@
        + "#"@ + id + " .edge-pattern-dotted{stroke-dasharray:2;}"@
        + "#"@ + id + " .marker{fill:"@ + base_line_color(t) + ";stroke:"@ + base_line_color(t) + ";}"@
        + "#"@ + id + " .marker.cross{stroke:"@ + base_line_color(t) + ";}"@
        + "#"@ + id + " svg{font-family:"@ + base_font_family(t) + ";font-size:"@ + base_font_size(t) + ";}"@
        + "#"@ + id + " p{margin:0;}"@
}

fn emit_preamble_part2(out: &mut String, id: &str, v: &BaseVars, Ghost(t): Ghost<ThemeVariables>)
    requires
        v.resolved(t),
    ensures
        final(out)@ == preamble_part2(old(out)@, id@, t),
{
    out.append("#");
    out.append(id);
    out.append(" .edge-pattern-solid{stroke-dasharray:0;}");
    out.append("#");
    out.append(id);
    out.append(" .edge-thickness-invisible{stroke-width:0;fill:none;}");
    out.append("#");
    out.append(id);
    out.append(" .edge-pattern-dashed{stroke-dasharray:3;}");
    out.append("#");
    out.append(id);
    out.append(" .edge-pattern-dotted{stroke-dasharray:2;}");
    out.append("#");
    out.append(id);
    out.append(" .marker{fill:");
    out.append(v.line_color.as_str());
    out.append(";stroke:");
    out.append(v.line_color.as_str());
    out.append(";}");
    out.append("#");
    out.append(id);
    out.append(" .marker.cross{stroke:");
    out.append(v.line_color.as_str());
    out.append(";}");
    out.append("#");
    out.append(id);
    out.append(" svg{font-family:");
    out.append(v.font_family.as_str());
    out.append(";font-size:");
    out.append(v.font_size.as_str());
    out.append(";}");
    out.append("#");
    out.append(id);
    out.append(" p{margin:0;}");
}

/// `prefix` followed by rules 1 to 9 of the neo-look block.
pub open spec fn neo_look_part1(prefix: Seq<char>, id: Seq<char>, t: ThemeVariables) -> Seq<char> {
    prefix + "#"@ + id + " .node .neo-node{stroke:"@ + base_node_border(t) + ";}"@
        + "#"@ + id + " [data-look=\"neo\"].node rect,#"@ + id + " [data-look=\"neo\"].cluster rect,#"@ + id + " [data-look=\"neo\"].node polygon{stroke:"@ + base_node_border(t) + ";filter:"@ + base_drop_shadow(t) + ";}"@
        + "#"@ + id + " [data-look=\"neo\"].node path{stroke:"@ + base_node_border(t) + ";stroke-width:"@ + base_stroke_width(t) + "px;}"@
        + "#"@ + id + " [data-look=\"neo\"].node .outer-path{filter:"@ + base_drop_shadow(t) + ";}"@
        + "#"@ + id + " [data-look=\"neo\"].node .neo-line path{stroke:"@ + base_node_border(t) + ";filter:none;}"@
        + "#"@ + id + " [data-look=\"neo\"].node circle{stroke:"@ + base_node_border(t) + ";filter:"@ + base_drop_shadow(t) + ";}"@
        + "#"@ + id + " [data-look=\"neo\"].node circle .state-start{fill:#000000;}"@
        + "#"@ + id + " [data-look=\"neo\"].icon-shape .icon{fill:"@ + base_node_border(t) + ";filter:"@ + base_drop_shadow(t) + ";}"@
        + "#"@ + id + " [data-look=\"neo\"].icon-shape .icon-neo path{stroke:"@ + base_node_border(t) + ";filter:"@ + base_drop_shadow(t) + ";}"@
}

fn emit_neo_look_part1(out: &mut String, id: &str, v: &BaseVars, Ghost(t): Ghost<ThemeVariables>)
    requires
        v.resolved(t),
    ensures
        final(out)@ == neo_look_part1(old(out)@, id@, t),
{
    out.append("#");
    out.append(id);
    out.append(" .node .neo-node{stroke:");
    out.append(v.node_border.as_str());
    out.append(";}");
    out.append("#");
    out.append(id);
    out.append(" [data-look=\"neo\"].node rect,#");
    out.append(id);
    out.append(" [data-look=\"neo\"].cluster rect,#");
    out.append(id);
    out.append(" [data-look=\"neo\"].node polygon{stroke:");
    out.append(v.node_border.as_str());
    out.append(";filter:");
    out.append(v.drop_shadow.as_str());
    out.append(";}");
    out.append("#");
    out.append(id);
    out.append(" [data-look=\"neo\"].node path{stroke:");
    out.append(v.node_border.as_str());
    out.append(";stroke-width:");
    out.append(v.stroke_width.as_str());
    out.append("px;}");
    out.append("#");
    out.append(id);
    out.append(" [data-look=\"neo\"].node .outer-path{filter:");
    out.append(v.drop_shadow.as_str());
    out.append(";}");
    out.append("#");
    out.append(id);
    out.append(" [data-look=\"neo\"].node .neo-line path{stroke:");
    out.append(v.node_border.as_str());
    out.append(";filter:none;}");
    out.append("#");
    out.append(id);
    out.append(" [data-look=\"neo\"].node circle{stroke:");
    out.append(v.node_border.as_str());
    out.append(";filter:");
    out.append(v.drop_shadow.as_str());
    out.append(";}");
    out.append("#");
    out.append(id);
    out.append(" [data-look=\"neo\"].node circle .state-start{fill:#000000;}");
    out.append("#");
    out.append(id);
    out.append(" [data-look=\"neo\"].icon-shape .icon{fill:");
    out.append(v.node_border.as_str());
    out.append(";filter:");
    out.append(v.drop_shadow.as_str());
    out.append(";}");
    out.append("#");
    out.append(id);
    out.append(" [data-look=\"neo\"].icon-shape .icon-neo path{stroke:");
    out.append(v.node_border.as_str());
    out.append(";filter:");
    out.append(v.drop_shadow.as_str());
    out.append(";}");
}

/// `prefix` followed by rules 10 to 10 of the neo-look block.
pub open spec fn neo_look_part2(prefix: Seq<char>, id: Seq<char>, t: ThemeVariables) -> Seq<char> {
    prefix + "#"@ + id + " :root{--mermaid-font-family:"@ + base_font_family(t) + ";}"@
}

fn emit_neo_look_part2(out: &mut String, id: &str, v: &BaseVars, Ghost(t): Ghost<ThemeVariables>)
    requires
        v.resolved(t),
    ensures
        final(out)@ == neo_look_part2(old(out)@, id@, t),
{
    out.append("#");
    out.append(id);
    out.append(" :root{--mermaid-font-family:");
    out.append(v.font_family.as_str());
    out.append(";}");
}

/// The preamble that opens every style block: the root font and fill
/// rule, the edge-animation keyframes and helpers, the error, edge-thickness,
/// edge-pattern and marker rules, and the `svg` and `p` defaults.
pub open spec fn preamble_css(id: Seq<char>, t: ThemeVariables) -> Seq<char> {
    preamble_part2(preamble_part1(Seq::empty(), id, t), id, t)
}

/// The preamble of a style block (see [`preamble_css`]), without the
/// `<style>` tag.
pub fn base_preamble(id: &str, theme: &ThemeVariables) -> (r: String)
    ensures
        r@ == preamble_css(id@, *theme),
{
    let v = BaseVars::resolve(theme);
    let mut s = String::new();
    emit_preamble_part1(&mut s, id, &v, Ghost(*theme));
    emit_preamble_part2(&mut s, id, &v, Ghost(*theme));
    s
}

/// The neo-look rules that close every style block, stroked with the node
/// border colour, and the font-family custom property.
pub open spec fn neo_look_css(id: Seq<char>, t: ThemeVariables) -> Seq<char> {
    neo_look_part2(neo_look_part1(Seq::empty(), id, t), id, t)
}

/// The neo-look tail of a style block (see [`neo_look_css`]).
pub fn neo_look_block(id: &str, theme: &ThemeVariables) -> (r: String)
    ensures
        r@ == neo_look_css(id@, *theme),
{
    let v = BaseVars::resolve(theme);
    let mut s = String::new();
    emit_neo_look_part1(&mut s, id, &v, Ghost(*theme));
    emit_neo_look_part2(&mut s, id, &v, Ghost(*theme));
    s
}

} // verus!
