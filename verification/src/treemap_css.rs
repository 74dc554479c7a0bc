//! The `<style>` block of the treemap renderer, with the theme values it
//! interpolates and the per-class rules.
use vstd::prelude::*;
use crate::chars::{append_int, int_text, replace_all, replace_str, trim, trim_chars, chars_of};
use crate::theme::{int_or, str_or, text_or, ThemeVariables};

verus! {

fn owned(s: &str) -> (r: String)
    ensures
        r@ == s@,
{
    let mut r = String::new();
    r.append(s);
    r
}

/// The `font_family_min` value of the treemap CSS for a theme.
pub open spec fn tm_font_family_min(t: ThemeVariables) -> Seq<char> {
    replace_all(text_or(t.font_family, "\"trebuchet ms\", verdana, arial, sans-serif"@), ", "@, ","@)
}

/// The `font_size` value of the treemap CSS for a theme.
pub open spec fn tm_font_size(t: ThemeVariables) -> Seq<char> {
    text_or(t.font_size, "16px"@)
}

/// The `text_color` value of the treemap CSS for a theme.
pub open spec fn tm_text_color(t: ThemeVariables) -> Seq<char> {
    text_or(t.text_color, "#333"@)
}

/// The `error_bkg` value of the treemap CSS for a theme.
pub open spec fn tm_error_bkg(t: ThemeVariables) -> Seq<char> {
    text_or(t.error_bkg_color, "#552222"@)
}

/// The `error_text` value of the treemap CSS for a theme.
pub open spec fn tm_error_text(t: ThemeVariables) -> Seq<char> {
    text_or(t.error_text_color, "#552222"@)
}

/// The `line_color` value of the treemap CSS for a theme.
pub open spec fn tm_line_color(t: ThemeVariables) -> Seq<char> {
    text_or(t.line_color, "#333333"@)
}

/// The `label_color` value of the treemap CSS for a theme.
pub open spec fn tm_label_color(t: ThemeVariables) -> Seq<char> {
    text_or(t.text_color, "#333"@)
}

/// The `title_color` value of the treemap CSS for a theme.
pub open spec fn tm_title_color(t: ThemeVariables) -> Seq<char> {
    text_or(t.title_color, "#333"@)
}

/// The `node_border` value of the treemap CSS for a theme.
pub open spec fn tm_node_border(t: ThemeVariables) -> Seq<char> {
    text_or(t.node_border, "#9370DB"@)
}

/// The `gradient_stroke` value of the treemap CSS for a theme.
pub open spec fn tm_gradient_stroke(id: Seq<char>, t: ThemeVariables) -> Seq<char> {
    if t.use_gradient == Some(true) {
        "url(#"@ + id + "-gradient)"@
    } else {
        text_or(t.node_border, "#9370DB"@)
    }
}

/// The `drop_shadow` value of the treemap CSS for a theme.
pub open spec fn tm_drop_shadow(t: ThemeVariables) -> Seq<char> {
    text_or(t.drop_shadow, "drop-shadow(1px 2px 2px rgba(185, 185, 185, 1))"@)
}

/// The `stroke_width_px` value of the treemap CSS for a theme.
pub open spec fn tm_stroke_width_px(t: ThemeVariables) -> Seq<char> {
    int_text(int_or(t.stroke_width, 1))
}

/// The theme values the treemap CSS interpolates, resolved to text.
struct TreemapCssVals {
    font_family_min: String,
    font_size: String,
    text_color: String,
    error_bkg: String,
    error_text: String,
    line_color: String,
    label_color: String,
    title_color: String,
    node_border: String,
    gradient_stroke: String,
    drop_shadow: String,
    stroke_width_px: String,
}

impl TreemapCssVals {
    spec fn resolved(&self, id: Seq<char>, t: ThemeVariables) -> bool {
        &&& self.font_family_min@ == tm_font_family_min(t)
        &&& self.font_size@ == tm_font_size(t)
        &&& self.text_color@ == tm_text_color(t)
        &&& self.error_bkg@ == tm_error_bkg(t)
        &&& self.error_text@ == tm_error_text(t)
        &&& self.line_color@ == tm_line_color(t)
        &&& self.label_color@ == tm_label_color(t)
        &&& self.title_color@ == tm_title_color(t)
        &&& self.node_border@ == tm_node_border(t)
        &&& self.gradient_stroke@ == tm_gradient_stroke(id, t)
        &&& self.drop_shadow@ == tm_drop_shadow(t)
        &&& self.stroke_width_px@ == tm_stroke_width_px(t)
    }
}

fn resolve_vals(id: &str, theme: &ThemeVariables) -> (r: TreemapCssVals)
    ensures
        r.resolved(id@, *theme),
{
    let font_size = owned(str_or(&theme.font_size, "16px"));
    let text_color = owned(str_or(&theme.text_color, "#333"));
    let error_bkg = owned(str_or(&theme.error_bkg_color, "#552222"));
    let error_text = owned(str_or(&theme.error_text_color, "#552222"));
    let line_color = owned(str_or(&theme.line_color, "#333333"));
    let label_color = owned(str_or(&theme.text_color, "#333"));
    let title_color = owned(str_or(&theme.title_color, "#333"));
    let node_border = owned(str_or(&theme.node_border, "#9370DB"));
    let drop_shadow = owned(str_or(&theme.drop_shadow, "drop-shadow(1px 2px 2px rgba(185, 185, 185, 1))"));
    proof {
        reveal_strlit(", ");
    }
    let font_family_min = replace_str(
        str_or(&theme.font_family, "\"trebuchet ms\", verdana, arial, sans-serif"),
        ", ",
        ",",
    );
    let gradient_stroke = match theme.use_gradient {
        Some(true) => {
            let mut g = String::new();
            g.append("url(#");
            g.append(id);
            g.append("-gradient)");
            g
        },
        _ => owned(str_or(&theme.node_border, "#9370DB")),
    };
    let mut stroke_width_px = String::new();
    append_int(&mut stroke_width_px, match theme.stroke_width {
        Some(n) => n,
        None => 1,
    });
    TreemapCssVals {
        font_family_min,
        font_size,
        text_color,
        error_bkg,
        error_text,
        line_color,
        label_color,
        title_color,
        node_border,
        gradient_stroke,
        drop_shadow,
        stroke_width_px,
    }
}

/// `prefix` followed by pieces 1 to 8 of the treemap style block.
pub open spec fn treemap_css_part1(prefix: Seq<char>, id: Seq<char>, t: ThemeVariables) -> Seq<char> {
    prefix + "<style>"@
        + "#"@ + id + "{font-family:"@ + tm_font_family_min(t) + ";font-size:"@ + tm_font_size(t) + ";fill:"@ + tm_text_color(t) + ";}"@
        + "@keyframes edge-animation-frame{from{stroke-dashoffset:0;}}"@
        + "@keyframes dash{to{stroke-dashoffset:0;}}"@
        + "#"@ + id + " .edge-animation-slow{stroke-dasharray:9,5!important;stroke-dashoffset:900;animation:dash 50s linear infinite;stroke-linecap:round;}"@
        + "#"@ + id + " .edge-animation-fast{stroke-dasharray:9,5!important;stroke-dashoffset:900;animation:dash 20s linear infinite;stroke-linecap:round;}"@
        + "#"@ + id + " .error-icon{fill:"@ + tm_error_bkg(t) + ";}"@
        + "#"@ + id + " .error-text{fill:"@ + tm_error_text(t) + ";stroke:"@ + tm_error_text(t) + ";}"@
}

fn emit_part1(out: &mut String, id: &str, v: &TreemapCssVals, Ghost(t): Ghost<ThemeVariables>)
    requires
        v.resolved(id@, t),
    ensures
        final(out)@ == treemap_css_part1(old(out)@, id@, t),
{
    out.append("<style>");
    out.append("#");
    out.append(id);
    out.append("{font-family:");
    out.append(v.font_family_min.as_str());
    out.append(";font-size:");
    out.append(v.font_size.as_str());
    out.append(";fill:");
    out.append(v.text_color.as_str());
    out.append(";}");
    out.append("@keyframes edge-animation-frame{from{stroke-dashoffset:0;}}");
    out.append("@keyframes dash{to{stroke-dashoffset:0;}}");
    out.append("#");
    out.append(id);
    out.append(" .edge-animation-slow{stroke-dasharray:9,5!important;stroke-dashoffset:900;animation:dash 50s linear infinite;stroke-linecap:round;}");
    out.append("#");
    out.append(id);
    out.append(" .edge-animation-fast{stroke-dasharray:9,5!important;stroke-dashoffset:900;animation:dash 20s linear infinite;stroke-linecap:round;}");
    out.append("#");
    out.append(id);
    out.append(" .error-icon{fill:");
    out.append(v.error_bkg.as_str());
    out.append(";}");
    out.append("#");
    out.append(id);
    out.append(" .error-text{fill:");
    out.append(v.error_text.as_str());
    out.append(";stroke:");
    out.append(v.error_text.as_str());
    out.append(";}");
}

/// `prefix` followed by pieces 9 to 16 of the treemap style block.
pub open spec fn treemap_css_part2(prefix: Seq<char>, id: Seq<char>, t: ThemeVariables) -> Seq<char> {
    prefix + "#"@ + id + " .edge-thickness-normal{stroke-width:1px;}"@
        + "#"@ + id + " .edge-thickness-thick{stroke-width:3.5px;}"@
        + "#"@ + id + " .edge-pattern-solid{stroke-dasharray:0;}"@
        + "#"@ + id + " .edge-thickness-invisible{stroke-width:0;fill:none;}"@
        + "#"@ + id + " .edge-pattern-dashed{stroke-dasharray:3;}"@
        + "#"@ + id + " .edge-pattern-dotted{stroke-dasharray:2;}"@
        + "#"@ + id + " .marker{fill:"@ + tm_line_color(t) + ";stroke:"@ + tm_line_color(t) + ";}"@
        + "#"@ + id + " .marker.cross{stroke:"@ + tm_line_color(t) + ";}"@
}

fn emit_part2(out: &mut String, id: &str, v: &TreemapCssVals, Ghost(t): Ghost<ThemeVariables>)
    requires
        v.resolved(id@, t),
    ensures
        final(out)@ == treemap_css_part2(old(out)@, id@, t),
{
    out.append("#");
    out.append(id);
    out.append(" .edge-thickness-normal{stroke-width:1px;}");
    out.append("#");
    out.append(id);
    out.append(" .edge-thickness-thick{stroke-width:3.5px;}");
    out.append("#");
    out.append(id);
    out.append(" .edge-pattern-solid{stroke-dasharray:0;}");
    out.append("#");
    out.append(id);
    out.append(" .edge-thickness-invisible{stroke-width:0;fill:none;}");
    out.append("#");
    out.append(id);
    out.append(" .edge-pattern-dashed{stroke-dasharray:3;}");
    out.append("#");
    out.append(id);
    out.append(" .edge-pattern-dotted{stroke-dasharray:2;}");
    out.append("#");
    out.append(id);
    out.append(" .marker{fill:");
    out.append(v.line_color.as_str());
    out.append(";stroke:");
    out.append(v.line_color.as_str());
    out.append(";}");
    out.append("#");
    out.append(id);
    out.append(" .marker.cross{stroke:");
    out.append(v.line_color.as_str());
    out.append(";}");
}

/// `prefix` followed by pieces 17 to 24 of the treemap style block.
pub open spec fn treemap_css_part3(prefix: Seq<char>, id: Seq<char>, t: ThemeVariables) -> Seq<char> {
    prefix + "#"@ + id + " svg{font-family:"@ + tm_font_family_min(t) + ";font-size:"@ + tm_font_size(t) + ";}"@
        + "#"@ + id + " p{margin:0;}"@
        + "#"@ + id + " .treemapNode.section{stroke:black;stroke-width:1;fill:#efefef;}"@
        + "#"@ + id + " .treemapNode.leaf{stroke:black;stroke-width:1;fill:#efefef;}"@
        + "#"@ + id + " .treemapLabel{fill:"@ + tm_label_color(t) + ";font-size:12px;}"@
        + "#"@ + id + " .treemapValue{fill:"@ + tm_label_color(t) + ";font-size:10px;}"@
        + "#"@ + id + " .treemapTitle{fill:"@ + tm_title_color(t) + ";font-size:14px;}"@
        + "#"@ + id + " .node .neo-node{stroke:"@ + tm_node_border(t) + ";}"@
}

fn emit_part3(out: &mut String, id: &str, v: &TreemapCssVals, Ghost(t): Ghost<ThemeVariables>)
    requires
        v.resolved(id@, t),
    ensures
        final(out)@ == treemap_css_part3(old(out)@, id@, t),
{
    out.append("#");
    out.append(id);
    out.append(" svg{font-family:");
    out.append(v.font_family_min.as_str());
    out.append(";font-size:");
    out.append(v.font_size.as_str());
    out.append(";}");
    out.append("#");
    out.append(id);
    out.append(" p{margin:0;}");
    out.append("#");
    out.append(id);
    out.append(" .treemapNode.section{stroke:black;stroke-width:1;fill:#efefef;}");
    out.append("#");
    out.append(id);
    out.append(" .treemapNode.leaf{stroke:black;stroke-width:1;fill:#efefef;}");
    out.append("#");
    out.append(id);
    out.append(" .treemapLabel{fill:");
    out.append(v.label_color.as_str());
    out.append(";font-size:12px;}");
    out.append("#");
    out.append(id);
    out.append(" .treemapValue{fill:");
    out.append(v.label_color.as_str());
    out.append(";font-size:10px;}");
    out.append("#");
    out.append(id);
    out.append(" .treemapTitle{fill:");
    out.append(v.title_color.as_str());
    out.append(";font-size:14px;}");
    out.append("#");
    out.append(id);
    out.append(" .node .neo-node{stroke:");
    out.append(v.node_border.as_str());
    out.append(";}");
}

/// `prefix` followed by pieces 25 to 32 of the treemap style block.
pub open spec fn treemap_css_part4(prefix: Seq<char>, id: Seq<char>, t: ThemeVariables) -> Seq<char> {
    prefix + "#"@ + id + " [data-look=\"neo\"].node rect,#"@ + id + " [data-look=\"neo\"].cluster rect,#"@ + id + " [data-look=\"neo\"].node polygon{stroke:"@ + tm_gradient_stroke(id, t) + ";filter:"@ + tm_drop_shadow(t) + ";}"@
        + "#"@ + id + " [data-look=\"neo\"].node path{stroke:"@ + tm_gradient_stroke(id, t) + ";stroke-width:"@ + tm_stroke_width_px(t) + "px;}"@
        + "#"@ + id + " [data-look=\"neo\"].node .outer-path{filter:"@ + tm_drop_shadow(t) + ";}"@
        + "#"@ + id + " [data-look=\"neo\"].node .neo-line path{stroke:"@ + tm_node_border(t) + ";filter:none;}"@
        + "#"@ + id + " [data-look=\"neo\"].node circle{stroke:"@ + tm_gradient_stroke(id, t) + ";filter:"@ + tm_drop_shadow(t) + ";}"@
        + "#"@ + id + " [data-look=\"neo\"].node circle .state-start{fill:#000000;}"@
        + "#"@ + id + " [data-look=\"neo\"].icon-shape .icon{fill:"@ + tm_gradient_stroke(id, t) + ";filter:"@ + tm_drop_shadow(t) + ";}"@
        + "#"@ + id + " [data-look=\"neo\"].icon-shape .icon-neo path{stroke:"@ + tm_gradient_stroke(id, t) + ";filter:"@ + tm_drop_shadow(t) + ";}"@
}

fn emit_part4(out: &mut String, id: &str, v: &TreemapCssVals, Ghost(t): Ghost<ThemeVariables>)
    requires
        v.resolved(id@, t),
    ensures
        final(out)@ == treemap_css_part4(old(out)@, id@, t),
{
    out.append("#");
    out.append(id);
    out.append(" [data-look=\"neo\"].node rect,#");
    out.append(id);
    out.append(" [data-look=\"neo\"].cluster rect,#");
    out.append(id);
    out.append(" [data-look=\"neo\"].node polygon{stroke:");
    out.append(v.gradient_stroke.as_str());
    out.append(";filter:");
    out.append(v.drop_shadow.as_str());
    out.append(";}");
    out.append("#");
    out.append(id);
    out.append(" [data-look=\"neo\"].node path{stroke:");
    out.append(v.gradient_stroke.as_str());
    out.append(";stroke-width:");
    out.append(v.stroke_width_px.as_str());
    out.append("px;}");
    out.append("#");
    out.append(id);
    out.append(" [data-look=\"neo\"].node .outer-path{filter:");
    out.append(v.drop_shadow.as_str());
    out.append(";}");
    out.append("#");
    out.append(id);
    out.append(" [data-look=\"neo\"].node .neo-line path{stroke:");
    out.append(v.node_border.as_str());
    out.append(";filter:none;}");
    out.append("#");
    out.append(id);
    out.append(" [data-look=\"neo\"].node circle{stroke:");
    out.append(v.gradient_stroke.as_str());
    out.append(";filter:");
    out.append(v.drop_shadow.as_str());
    out.append(";}");
    out.append("#");
    out.append(id);
    out.append(" [data-look=\"neo\"].node circle .state-start{fill:#000000;}");
    out.append("#");
    out.append(id);
    out.append(" [data-look=\"neo\"].icon-shape .icon{fill:");
    out.append(v.gradient_stroke.as_str());
    out.append(";filter:");
    out.append(v.drop_shadow.as_str());
    out.append(";}");
    out.append("#");
    out.append(id);
    out.append(" [data-look=\"neo\"].icon-shape .icon-neo path{stroke:");
    out.append(v.gradient_stroke.as_str());
    out.append(";filter:");
    out.append(v.drop_shadow.as_str());
    out.append(";}");
}

/// `prefix` followed by pieces 33 to 33 of the treemap style block.
pub open spec fn treemap_css_part5(prefix: Seq<char>, id: Seq<char>, t: ThemeVariables) -> Seq<char> {
    prefix + "#"@ + id + " :root{--mermaid-font-family:"@ + tm_font_family_min(t) + ";}"@
}

fn emit_part5(out: &mut String, id: &str, v: &TreemapCssVals, Ghost(t): Ghost<ThemeVariables>)
    requires
        v.resolved(id@, t),
    ensures
        final(out)@ == treemap_css_part5(old(out)@, id@, t),
{
    out.append("#");
    out.append(id);
    out.append(" :root{--mermaid-font-family:");
    out.append(v.font_family_min.as_str());
    out.append(";}");
}

/// A `classDef` of a treemap: the class name and its declarations.
pub struct TreemapClassDef {
    pub id: String,
    pub styles: Vec<String>,
}

/// The declarations of a class, each trimmed and followed by
/// `!important;`, empty ones left out.
pub open spec fn class_body(styles: Seq<Seq<char>>) -> Seq<char>
    decreases styles.len(),
{
    if styles.len() == 0 {
        Seq::empty()
    } else {
        class_body(styles.drop_last()) + if trim(styles.last()).len() == 0 {
            Seq::<char>::empty()
        } else {
            trim(styles.last()) + "!important;"@
        }
    }
}

/// `prefix` followed by the `>*` and ` span` rules of each class, in order.
pub open spec fn treemap_class_rules(prefix: Seq<char>, id: Seq<char>, classes: Seq<TreemapClassDef>) -> Seq<char>
    decreases classes.len(),
{
    if classes.len() == 0 {
        prefix
    } else {
        let c = classes.last();
        let body = class_body(c.styles@.map_values(|x: String| x@));
        treemap_class_rules(prefix, id, classes.drop_last()) + "#"@ + id + " ."@ + c.id@ + ">*{"@ + body
            + "}"@ + "#"@ + id + " ."@ + c.id@ + " span{"@ + body + "}"@
    }
}

fn class_body_exec(styles: &Vec<String>) -> (r: String)
    ensures
        r@ == class_body(styles@.map_values(|x: String| x@)),
{
    let ghost sv = styles@.map_values(|x: String| x@);
    let mut body = String::new();
    let mut i: usize = 0;
    while i < styles.len()
        invariant
            i <= styles.len(),
            sv == styles@.map_values(|x: String| x@),
            body@ == class_body(sv.take(i as int)),
        decreases styles.len() - i,
    {
        assert(sv.take(i + 1).drop_last() == sv.take(i as int));
        let d = trim_chars(&chars_of(styles[i].as_str()));
        let ghost before = body@;
        if d.len() > 0 {
            crate::chars::append_chars(&mut body, &d);
            body.append("!important;");
        }
        assert(body@ =~= before + if d@.len() == 0 {
            Seq::<char>::empty()
        } else {
            d@ + "!important;"@
        });
        i = i + 1;
    }
    assert(sv.take(styles.len() as int) == sv);
    body
}

fn emit_class_rules(css: &mut String, id: &str, classes: &[TreemapClassDef])
    ensures
        final(css)@ == treemap_class_rules(old(css)@, id@, classes@),
{
    let ghost head = css@;
    let mut i: usize = 0;
    while i < classes.len()
        invariant
            i <= classes.len(),
            css@ == treemap_class_rules(head, id@, classes@.take(i as int)),
        decreases classes.len() - i,
    {
        assert(classes@.take(i + 1).drop_last() == classes@.take(i as int));
        let c = &classes[i];
        let body = class_body_exec(&c.styles);
        css.append("#");
        css.append(id);
        css.append(" .");
        css.append(c.id.as_str());
        css.append(">*{");
        css.append(body.as_str());
        css.append("}");
        css.append("#");
        css.append(id);
        css.append(" .");
        css.append(c.id.as_str());
        css.append(" span{");
        css.append(body.as_str());
        css.append("}");
        i = i + 1;
    }
    assert(classes@.take(classes.len() as int) == classes@);
}

/// The treemap `<style>` block: the shared diagram rules, the treemap node,
/// label, value and title rules, the neo-look rules (stroked with the
/// gradient when the theme asks for one), the font-family custom property,
/// and the rules of each class.
pub open spec fn treemap_style_block(id: Seq<char>, t: ThemeVariables, classes: Seq<TreemapClassDef>) -> Seq<char> {
    treemap_class_rules(treemap_css_part5(treemap_css_part4(treemap_css_part3(treemap_css_part2(treemap_css_part1(Seq::empty(), id, t), id, t), id, t), id, t), id, t), id, classes) + "</style>"@
}

/// Build the `<style>` element of a treemap (see [`treemap_style_block`]).
pub fn build_style_block(id: &str, theme: &ThemeVariables, classes: &[TreemapClassDef]) -> (r: String)
    ensures
        r@ == treemap_style_block(id@, *theme, classes@),
{
    let v = resolve_vals(id, theme);
    let mut css = String::new();
    emit_part1(&mut css, id, &v, Ghost(*theme));
    emit_part2(&mut css, id, &v, Ghost(*theme));
    emit_part3(&mut css, id, &v, Ghost(*theme));
    emit_part4(&mut css, id, &v, Ghost(*theme));
    emit_part5(&mut css, id, &v, Ghost(*theme));
    emit_class_rules(&mut css, id, classes);
    css.append("</style>");
    css
}

} // verus!
