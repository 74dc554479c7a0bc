//! The `<style>` block of the Venn renderer and the theme values it
//! interpolates.
use vstd::prelude::*;
use crate::theme::{str_or, text_or, ThemeVariables};
use crate::venn::{minify_font, minify_font_family};

verus! {

fn owned(s: &str) -> (r: String)
    ensures
        r@ == s@,
{
    let mut r = String::new();
    r.append(s);
    r
}

/// The `font_family` value of the Venn CSS for a theme.
pub open spec fn venn_font_family(t: ThemeVariables) -> Seq<char> {
    minify_font(text_or(t.font_family, "\"trebuchet ms\", verdana, arial, sans-serif"@))
}

/// The `font_size` value of the Venn CSS for a theme.
pub open spec fn venn_font_size(t: ThemeVariables) -> Seq<char> {
    text_or(t.font_size, "16px"@)
}

/// The `text_color` value of the Venn CSS for a theme.
pub open spec fn venn_text_color(t: ThemeVariables) -> Seq<char> {
    text_or(t.text_color, "#333"@)
}

/// The `venn_title_color` value of the Venn CSS for a theme.
pub open spec fn venn_venn_title_color(t: ThemeVariables) -> Seq<char> {
    text_or(t.venn_title_text_color, text_or(t.title_color, "#333"@))
}

/// The `venn_set_text_color` value of the Venn CSS for a theme.
pub open spec fn venn_venn_set_text_color(t: ThemeVariables) -> Seq<char> {
    text_or(t.venn_set_text_color, text_or(t.text_color, "#333"@))
}

/// The `error_bkg` value of the Venn CSS for a theme.
pub open spec fn venn_error_bkg(t: ThemeVariables) -> Seq<char> {
    text_or(t.error_bkg_color, "#552222"@)
}

/// The `error_text` value of the Venn CSS for a theme.
pub open spec fn venn_error_text(t: ThemeVariables) -> Seq<char> {
    text_or(t.error_text_color, "#552222"@)
}

/// The `line_color` value of the Venn CSS for a theme.
pub open spec fn venn_line_color(t: ThemeVariables) -> Seq<char> {
    text_or(t.line_color, "#333333"@)
}

/// The `node_border` value of the Venn CSS for a theme.
pub open spec fn venn_node_border(t: ThemeVariables) -> Seq<char> {
    text_or(t.node_border, "#9370DB"@)
}

/// The `drop_shadow` value of the Venn CSS for a theme.
pub open spec fn venn_drop_shadow(t: ThemeVariables) -> Seq<char> {
    text_or(t.drop_shadow, "drop-shadow(1px 2px 2px rgba(185, 185, 185, 1))"@)
}

/// The `neo_stroke` value of the Venn CSS for a theme.
pub open spec fn venn_neo_stroke(id: Seq<char>, t: ThemeVariables) -> Seq<char> {
    if t.use_gradient == Some(true) {
        "url(#"@ + id + "-gradient)"@
    } else {
        text_or(t.node_border, "#9370DB"@)
    }
}

/// The theme values the Venn CSS interpolates, resolved to text.
struct VennCssVals {
    font_family: String,
    font_size: String,
    text_color: String,
    venn_title_color: String,
    venn_set_text_color: String,
    error_bkg: String,
    error_text: String,
    line_color: String,
    node_border: String,
    drop_shadow: String,
    neo_stroke: String,
}

impl VennCssVals {
    spec fn resolved(&self, id: Seq<char>, t: ThemeVariables) -> bool {
        &&& self.font_family@ == venn_font_family(t)
        &&& self.font_size@ == venn_font_size(t)
        &&& self.text_color@ == venn_text_color(t)
        &&& self.venn_title_color@ == venn_venn_title_color(t)
        &&& self.venn_set_text_color@ == venn_venn_set_text_color(t)
        &&& self.error_bkg@ == venn_error_bkg(t)
        &&& self.error_text@ == venn_error_text(t)
        &&& self.line_color@ == venn_line_color(t)
        &&& self.node_border@ == venn_node_border(t)
        &&& self.drop_shadow@ == venn_drop_shadow(t)
        &&& self.neo_stroke@ == venn_neo_stroke(id, t)
    }
}

fn resolve_vals(id: &str, theme: &ThemeVariables) -> (r: VennCssVals)
    ensures
        r.resolved(id@, *theme),
{
    let font_size = owned(str_or(&theme.font_size, "16px"));
    let text_color = owned(str_or(&theme.text_color, "#333"));
    let venn_title_color = owned(str_or(&theme.venn_title_text_color, str_or(&theme.title_color, "#333")));
    let venn_set_text_color = owned(str_or(&theme.venn_set_text_color, str_or(&theme.text_color, "#333")));
    let error_bkg = owned(str_or(&theme.error_bkg_color, "#552222"));
    let error_text = owned(str_or(&theme.error_text_color, "#552222"));
    let line_color = owned(str_or(&theme.line_color, "#333333"));
    let node_border = owned(str_or(&theme.node_border, "#9370DB"));
    let drop_shadow = owned(str_or(&theme.drop_shadow, "drop-shadow(1px 2px 2px rgba(185, 185, 185, 1))"));
    let font_family = minify_font_family(
        str_or(&theme.font_family, "\"trebuchet ms\", verdana, arial, sans-serif"),
    );
    let neo_stroke = match theme.use_gradient {
        Some(true) => {
            let mut g = String::new();
            g.append("url(#");
            g.append(id);
            g.append("-gradient)");
            g
        },
        _ => owned(str_or(&theme.node_border, "#9370DB")),
    };
    VennCssVals {
        font_family,
        font_size,
        text_color,
        venn_title_color,
        venn_set_text_color,
        error_bkg,
        error_text,
        line_color,
        node_border,
        drop_shadow,
        neo_stroke,
    }
}

/// `prefix` followed by pieces 1 to 8 of the Venn style block.
pub open spec fn venn_css_part1(prefix: Seq<char>, id: Seq<char>, t: ThemeVariables) -> Seq<char> {
    prefix + "<style>"@
        + "#"@ + id + "{font-family:"@ + venn_font_family(t) + ";font-size:"@ + venn_font_size(t) + ";fill:"@ + venn_text_color(t) + ";}"@
        + "@keyframes edge-animation-frame{from{stroke-dashoffset:0;}}"@
        + "@keyframes dash{to{stroke-dashoffset:0;}}"@
        + "#"@ + id + " .edge-animation-slow{stroke-dasharray:9,5!important;stroke-dashoffset:900;animation:dash 50s linear infinite;stroke-linecap:round;}"@
        + "#"@ + id + " .edge-animation-fast{stroke-dasharray:9,5!important;stroke-dashoffset:900;animation:dash 20s linear infinite;stroke-linecap:round;}"@
        + "#"@ + id + " .error-icon{fill:"@ + venn_error_bkg(t) + ";}"@
        + "#"@ + id + " .error-text{fill:"@ + venn_error_text(t) + ";stroke:"@ + venn_error_text(t) + ";}"@
}

fn emit_part1(out: &mut String, id: &str, v: &VennCssVals, Ghost(t): Ghost<ThemeVariables>)
    requires
        v.resolved(id@, t),
    ensures
        final(out)@ == venn_css_part1(old(out)@, id@, t),
{
    out.append("<style>");
    out.append("#");
    out.append(id);
    out.append("{font-family:");
    out.append(v.font_family.as_str());
    out.append(";font-size:");
    out.append(v.font_size.as_str());
    out.append(";fill:");
    out.append(v.text_color.as_str());
    out.append(";}");
    out.append("@keyframes edge-animation-frame{from{stroke-dashoffset:0;}}");
    out.append("@keyframes dash{to{stroke-dashoffset:0;}}");
    out.append("#");
    out.append(id);
    out.append(" .edge-animation-slow{stroke-dasharray:9,5!important;stroke-dashoffset:900;animation:dash 50s linear infinite;stroke-linecap:round;}");
    out.append("#");
    out.append(id);
    out.append(" .edge-animation-fast{stroke-dasharray:9,5!important;stroke-dashoffset:900;animation:dash 20s linear infinite;stroke-linecap:round;}");
    out.append("#");
    out.append(id);
    out.append(" .error-icon{fill:");
    out.append(v.error_bkg.as_str());
    out.append(";}");
    out.append("#");
    out.append(id);
    out.append(" .error-text{fill:");
    out.append(v.error_text.as_str());
    out.append(";stroke:");
    out.append(v.error_text.as_str());
    out.append(";}");
}

/// `prefix` followed by pieces 9 to 16 of the Venn style block.
pub open spec fn venn_css_part2(prefix: Seq<char>, id: Seq<char>, t: ThemeVariables) -> Seq<char> {
    prefix + "#"@ + id + " .edge-thickness-normal{stroke-width:1px;}"@
        + "#"@ + id + " .edge-thickness-thick{stroke-width:3.5px;}"@
        + "#"@ + id + " .edge-pattern-solid{stroke-dasharray:0;}"@
        + "#"@ + id + " .edge-thickness-invisible{stroke-width:0;fill:none;}"@
        + "#"@ + id + " .edge-pattern-dashed{stroke-dasharray:3;}"@
        + "#"@ + id + " .edge-pattern-dotted{stroke-dasharray:2;}"@
        + "#"@ + id + " .marker{fill:"@ + venn_line_color(t) + ";stroke:"@ + venn_line_color(t) + ";}"@
        + "#"@ + id + " .marker.cross{stroke:"@ + venn_line_color(t) + ";}"@
}

fn emit_part2(out: &mut String, id: &str, v: &VennCssVals, Ghost(t): Ghost<ThemeVariables>)
    requires
        v.resolved(id@, t),
    ensures
        final(out)@ == venn_css_part2(old(out)@, id@, t),
{
    out.append("#");
    out.append(id);
    out.append(" .edge-thickness-normal{stroke-width:1px;}");
    out.append("#");
    out.append(id);
    out.append(" .edge-thickness-thick{stroke-width:3.5px;}");
    out.append("#");
    out.append(id);
    out.append(" .edge-pattern-solid{stroke-dasharray:0;}");
    out.append("#");
    out.append(id);
    out.append(" .edge-thickness-invisible{stroke-width:0;fill:none;}");
    out.append("#");
    out.append(id);
    out.append(" .edge-pattern-dashed{stroke-dasharray:3;}");
    out.append("#");
    out.append(id);
    out.append(" .edge-pattern-dotted{stroke-dasharray:2;}");
    out.append("#");
    out.append(id);
    out.append(" .marker{fill:");
    out.append(v.line_color.as_str());
    out.append(";stroke:");
    out.append(v.line_color.as_str());
    out.append(";}");
    out.append("#");
    out.append(id);
    out.append(" .marker.cross{stroke:");
    out.append(v.line_color.as_str());
    out.append(";}");
}

/// `prefix` followed by pieces 17 to 24 of the Venn style block.
pub open spec fn venn_css_part3(prefix: Seq<char>, id: Seq<char>, t: ThemeVariables) -> Seq<char> {
    prefix + "#"@ + id + " svg{font-family:"@ + venn_font_family(t) + ";font-size:"@ + venn_font_size(t) + ";}"@
        + "#"@ + id + " p{margin:0;}"@
        + "#"@ + id + " .venn-title{font-size:32px;fill:"@ + venn_venn_title_color(t) + ";font-family:"@ + venn_font_family(t) + ";}"@
        + "#"@ + id + " .venn-circle text{font-size:48px;font-family:"@ + venn_font_family(t) + ";}"@
        + "#"@ + id + " .venn-intersection text{font-size:48px;fill:"@ + venn_venn_set_text_color(t) + ";font-family:"@ + venn_font_family(t) + ";}"@
        + "#"@ + id + " .venn-text-node{font-family:"@ + venn_font_family(t) + ";color:"@ + venn_venn_set_text_color(t) + ";}"@
        + "#"@ + id + " .node .neo-node{stroke:"@ + venn_node_border(t) + ";}"@
        + "#"@ + id + " [data-look=\"neo\"].node rect,#"@ + id + " [data-look=\"neo\"].cluster rect,#"@ + id + " [data-look=\"neo\"].node polygon{stroke:"@ + venn_neo_stroke(id, t) + ";filter:"@ + venn_drop_shadow(t) + ";}"@
}

fn emit_part3(out: &mut String, id: &str, v: &VennCssVals, Ghost(t): Ghost<ThemeVariables>)
    requires
        v.resolved(id@, t),
    ensures
        final(out)@ == venn_css_part3(old(out)@, id@, t),
{
    out.append("#");
    out.append(id);
    out.append(" svg{font-family:");
    out.append(v.font_family.as_str());
    out.append(";font-size:");
    out.append(v.font_size.as_str());
    out.append(";}");
    out.append("#");
    out.append(id);
    out.append(" p{margin:0;}");
    out.append("#");
    out.append(id);
    out.append(" .venn-title{font-size:32px;fill:");
    out.append(v.venn_title_color.as_str());
    out.append(";font-family:");
    out.append(v.font_family.as_str());
    out.append(";}");
    out.append("#");
    out.append(id);
    out.append(" .venn-circle text{font-size:48px;font-family:");
    out.append(v.font_family.as_str());
    out.append(";}");
    out.append("#");
    out.append(id);
    out.append(" .venn-intersection text{font-size:48px;fill:");
    out.append(v.venn_set_text_color.as_str());
    out.append(";font-family:");
    out.append(v.font_family.as_str());
    out.append(";}");
    out.append("#");
    out.append(id);
    out.append(" .venn-text-node{font-family:");
    out.append(v.font_family.as_str());
    out.append(";color:");
    out.append(v.venn_set_text_color.as_str());
    out.append(";}");
    out.append("#");
    out.append(id);
    out.append(" .node .neo-node{stroke:");
    out.append(v.node_border.as_str());
    out.append(";}");
    out.append("#");
    out.append(id);
    out.append(" [data-look=\"neo\"].node rect,#");
    out.append(id);
    out.append(" [data-look=\"neo\"].cluster rect,#");
    out.append(id);
    out.append(" [data-look=\"neo\"].node polygon{stroke:");
    out.append(v.neo_stroke.as_str());
    out.append(";filter:");
    out.append(v.drop_shadow.as_str());
    out.append(";}");
}

/// `prefix` followed by pieces 25 to 32 of the Venn style block.
pub open spec fn venn_css_part4(prefix: Seq<char>, id: Seq<char>, t: ThemeVariables) -> Seq<char> {
    prefix + "#"@ + id + " [data-look=\"neo\"].node path{stroke:"@ + venn_neo_stroke(id, t) + ";stroke-width:1px;}"@
        + "#"@ + id + " [data-look=\"neo\"].node .outer-path{filter:"@ + venn_drop_shadow(t) + ";}"@
        + "#"@ + id + " [data-look=\"neo\"].node .neo-line path{stroke:"@ + venn_node_border(t) + ";filter:none;}"@
        + "#"@ + id + " [data-look=\"neo\"].node circle{stroke:"@ + venn_neo_stroke(id, t) + ";filter:"@ + venn_drop_shadow(t) + ";}"@
        + "#"@ + id + " [data-look=\"neo\"].node circle .state-start{fill:#000000;}"@
        + "#"@ + id + " [data-look=\"neo\"].icon-shape .icon{fill:"@ + venn_neo_stroke(id, t) + ";filter:"@ + venn_drop_shadow(t) + ";}"@
        + "#"@ + id + " [data-look=\"neo\"].icon-shape .icon-neo path{stroke:"@ + venn_neo_stroke(id, t) + ";filter:"@ + venn_drop_shadow(t) + ";}"@
        + "#"@ + id + " :root{--mermaid-font-family:"@ + venn_font_family(t) + ";}"@
}

fn emit_part4(out: &mut String, id: &str, v: &VennCssVals, Ghost(t): Ghost<ThemeVariables>)
    requires
        v.resolved(id@, t),
    ensures
        final(out)@ == venn_css_part4(old(out)@, id@, t),
{
    out.append("#");
    out.append(id);
    out.append(" [data-look=\"neo\"].node path{stroke:");
    out.append(v.neo_stroke.as_str());
    out.append(";stroke-width:1px;}");
    out.append("#");
    out.append(id);
    out.append(" [data-look=\"neo\"].node .outer-path{filter:");
    out.append(v.drop_shadow.as_str());
    out.append(";}");
    out.append("#");
    out.append(id);
    out.append(" [data-look=\"neo\"].node .neo-line path{stroke:");
    out.append(v.node_border.as_str());
    out.append(";filter:none;}");
    out.append("#");
    out.append(id);
    out.append(" [data-look=\"neo\"].node circle{stroke:");
    out.append(v.neo_stroke.as_str());
    out.append(";filter:");
    out.append(v.drop_shadow.as_str());
    out.append(";}");
    out.append("#");
    out.append(id);
    out.append(" [data-look=\"neo\"].node circle .state-start{fill:#000000;}");
    out.append("#");
    out.append(id);
    out.append(" [data-look=\"neo\"].icon-shape .icon{fill:");
    out.append(v.neo_stroke.as_str());
    out.append(";filter:");
    out.append(v.drop_shadow.as_str());
    out.append(";}");
    out.append("#");
    out.append(id);
    out.append(" [data-look=\"neo\"].icon-shape .icon-neo path{stroke:");
    out.append(v.neo_stroke.as_str());
    out.append(";filter:");
    out.append(v.drop_shadow.as_str());
    out.append(";}");
    out.append("#");
    out.append(id);
    out.append(" :root{--mermaid-font-family:");
    out.append(v.font_family.as_str());
    out.append(";}");
}

/// The Venn `<style>` block: the shared diagram rules, the title, circle,
/// intersection and text-node rules, the neo-look rules (stroked with the
/// gradient when the theme asks for one) and the font-family custom
/// property.
pub open spec fn venn_style_block(id: Seq<char>, t: ThemeVariables) -> Seq<char> {
    venn_css_part4(venn_css_part3(venn_css_part2(venn_css_part1(Seq::empty(), id, t), id, t), id, t), id, t) + "</style>"@
}

/// Build the `<style>` element of a Venn diagram (see [`venn_style_block`]).
pub fn style_block(id: &str, theme: &ThemeVariables) -> (r: String)
    ensures
        r@ == venn_style_block(id@, *theme),
{
    let v = resolve_vals(id, theme);
    let mut s = String::new();
    emit_part1(&mut s, id, &v, Ghost(*theme));
    emit_part2(&mut s, id, &v, Ghost(*theme));
    emit_part3(&mut s, id, &v, Ghost(*theme));
    emit_part4(&mut s, id, &v, Ghost(*theme));
    s.append("</style>");
    s
}

} // verus!
