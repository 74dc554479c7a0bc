//! Theme variables: a flat record of every theme value, each optional so
//! that a record can hold a complete built-in theme or a partial user
//! override, and the overlay of an override on a baseline.
use vstd::prelude::*;

verus! {

/// The override `b` when it is set, the baseline `a` otherwise.
pub open spec fn overlay<T>(a: Option<T>, b: Option<T>) -> Option<T> {
    match b {
        Some(x) => Some(x),
        None => a,
    }
}

fn overlay_opt<T>(a: Option<T>, b: Option<T>) -> (r: Option<T>)
    ensures
        r == overlay(a, b),
{
    match b {
        Some(x) => Some(x),
        None => a,
    }
}

/// Radar chart theme subgroup (its `radar` key). The two opacities are kept as
/// their decimal text.
#[derive(Debug, Clone, PartialEq)]
pub struct RadarVars {
    pub axis_color: Option<String>,  // radar.axisColor
    pub axis_label_font_size: Option<i64>,  // radar.axisLabelFontSize
    pub axis_stroke_width: Option<i64>,  // radar.axisStrokeWidth
    pub curve_opacity: Option<String>,  // radar.curveOpacity
    pub curve_stroke_width: Option<i64>,  // radar.curveStrokeWidth
    pub graticule_color: Option<String>,  // radar.graticuleColor
    pub graticule_opacity: Option<String>,  // radar.graticuleOpacity
    pub graticule_stroke_width: Option<i64>,  // radar.graticuleStrokeWidth
    pub legend_box_size: Option<i64>,  // radar.legendBoxSize
    pub legend_font_size: Option<i64>,  // radar.legendFontSize
}

impl RadarVars {
    /// The record with every field unset.
    pub open spec fn empty() -> Self {
        RadarVars {
            axis_color: None,
            axis_label_font_size: None,
            axis_stroke_width: None,
            curve_opacity: None,
            curve_stroke_width: None,
            graticule_color: None,
            graticule_opacity: None,
            graticule_stroke_width: None,
            legend_box_size: None,
            legend_font_size: None,
        }
    }

    /// Field by field, the fields set in `o` replace those of `self`.
    pub open spec fn overlaid(self, o: Self) -> Self {
        RadarVars {
            axis_color: overlay(self.axis_color, o.axis_color),
            axis_label_font_size: overlay(self.axis_label_font_size, o.axis_label_font_size),
            axis_stroke_width: overlay(self.axis_stroke_width, o.axis_stroke_width),
            curve_opacity: overlay(self.curve_opacity, o.curve_opacity),
            curve_stroke_width: overlay(self.curve_stroke_width, o.curve_stroke_width),
            graticule_color: overlay(self.graticule_color, o.graticule_color),
            graticule_opacity: overlay(self.graticule_opacity, o.graticule_opacity),
            graticule_stroke_width: overlay(self.graticule_stroke_width, o.graticule_stroke_width),
            legend_box_size: overlay(self.legend_box_size, o.legend_box_size),
            legend_font_size: overlay(self.legend_font_size, o.legend_font_size),
        }
    }

    /// A record with every field unset.
    pub fn new() -> (r: Self)
        ensures
            r == Self::empty(),
    {
        RadarVars {
            axis_color: None,
            axis_label_font_size: None,
            axis_stroke_width: None,
            curve_opacity: None,
            curve_stroke_width: None,
            graticule_color: None,
            graticule_opacity: None,
            graticule_stroke_width: None,
            legend_box_size: None,
            legend_font_size: None,
        }
    }
}

impl Default for RadarVars {
    fn default() -> (r: Self)
        ensures
            r == Self::empty(),
    {
        Self::new()
    }
}

/// `dst` with the fields set in `src` replacing its own.
fn overlay_radar(dst: RadarVars, src: RadarVars) -> (r: RadarVars)
    ensures
        r == dst.overlaid(src),
{
    RadarVars {
        axis_color: overlay_opt(dst.axis_color, src.axis_color),
        axis_label_font_size: overlay_opt(dst.axis_label_font_size, src.axis_label_font_size),
        axis_stroke_width: overlay_opt(dst.axis_stroke_width, src.axis_stroke_width),
        curve_opacity: overlay_opt(dst.curve_opacity, src.curve_opacity),
        curve_stroke_width: overlay_opt(dst.curve_stroke_width, src.curve_stroke_width),
        graticule_color: overlay_opt(dst.graticule_color, src.graticule_color),
        graticule_opacity: overlay_opt(dst.graticule_opacity, src.graticule_opacity),
        graticule_stroke_width: overlay_opt(dst.graticule_stroke_width, src.graticule_stroke_width),
        legend_box_size: overlay_opt(dst.legend_box_size, src.legend_box_size),
        legend_font_size: overlay_opt(dst.legend_font_size, src.legend_font_size),
    }
}

/// XY chart theme subgroup (its `xyChart` key).
#[derive(Debug, Clone, PartialEq)]
pub struct XyChartVars {
    pub background_color: Option<String>,  // xyChart.backgroundColor
    pub data_label_color: Option<String>,  // xyChart.dataLabelColor
    pub plot_color_palette: Option<String>,  // xyChart.plotColorPalette
    pub title_color: Option<String>,  // xyChart.titleColor
    pub x_axis_label_color: Option<String>,  // xyChart.xAxisLabelColor
    pub x_axis_line_color: Option<String>,  // xyChart.xAxisLineColor
    pub x_axis_tick_color: Option<String>,  // xyChart.xAxisTickColor
    pub x_axis_title_color: Option<String>,  // xyChart.xAxisTitleColor
    pub y_axis_label_color: Option<String>,  // xyChart.yAxisLabelColor
    pub y_axis_line_color: Option<String>,  // xyChart.yAxisLineColor
    pub y_axis_tick_color: Option<String>,  // xyChart.yAxisTickColor
    pub y_axis_title_color: Option<String>,  // xyChart.yAxisTitleColor
}

impl XyChartVars {
    /// The record with every field unset.
    pub open spec fn empty() -> Self {
        XyChartVars {
            background_color: None,
            data_label_color: None,
            plot_color_palette: None,
            title_color: None,
            x_axis_label_color: None,
            x_axis_line_color: None,
            x_axis_tick_color: None,
            x_axis_title_color: None,
            y_axis_label_color: None,
            y_axis_line_color: None,
            y_axis_tick_color: None,
            y_axis_title_color: None,
        }
    }

    /// Field by field, the fields set in `o` replace those of `self`.
    pub open spec fn overlaid(self, o: Self) -> Self {
        XyChartVars {
            background_color: overlay(self.background_color, o.background_color),
            data_label_color: overlay(self.data_label_color, o.data_label_color),
            plot_color_palette: overlay(self.plot_color_palette, o.plot_color_palette),
            title_color: overlay(self.title_color, o.title_color),
            x_axis_label_color: overlay(self.x_axis_label_color, o.x_axis_label_color),
            x_axis_line_color: overlay(self.x_axis_line_color, o.x_axis_line_color),
            x_axis_tick_color: overlay(self.x_axis_tick_color, o.x_axis_tick_color),
            x_axis_title_color: overlay(self.x_axis_title_color, o.x_axis_title_color),
            y_axis_label_color: overlay(self.y_axis_label_color, o.y_axis_label_color),
            y_axis_line_color: overlay(self.y_axis_line_color, o.y_axis_line_color),
            y_axis_tick_color: overlay(self.y_axis_tick_color, o.y_axis_tick_color),
            y_axis_title_color: overlay(self.y_axis_title_color, o.y_axis_title_color),
        }
    }

    /// A record with every field unset.
    pub fn new() -> (r: Self)
        ensures
            r == Self::empty(),
    {
        XyChartVars {
            background_color: None,
            data_label_color: None,
            plot_color_palette: None,
            title_color: None,
            x_axis_label_color: None,
            x_axis_line_color: None,
            x_axis_tick_color: None,
            x_axis_title_color: None,
            y_axis_label_color: None,
            y_axis_line_color: None,
            y_axis_tick_color: None,
            y_axis_title_color: None,
        }
    }
}

impl Default for XyChartVars {
    fn default() -> (r: Self)
        ensures
            r == Self::empty(),
    {
        Self::new()
    }
}

/// `dst` with the fields set in `src` replacing its own.
fn overlay_xy_chart(dst: XyChartVars, src: XyChartVars) -> (r: XyChartVars)
    ensures
        r == dst.overlaid(src),
{
    XyChartVars {
        background_color: overlay_opt(dst.background_color, src.background_color),
        data_label_color: overlay_opt(dst.data_label_color, src.data_label_color),
        plot_color_palette: overlay_opt(dst.plot_color_palette, src.plot_color_palette),
        title_color: overlay_opt(dst.title_color, src.title_color),
        x_axis_label_color: overlay_opt(dst.x_axis_label_color, src.x_axis_label_color),
        x_axis_line_color: overlay_opt(dst.x_axis_line_color, src.x_axis_line_color),
        x_axis_tick_color: overlay_opt(dst.x_axis_tick_color, src.x_axis_tick_color),
        x_axis_title_color: overlay_opt(dst.x_axis_title_color, src.x_axis_title_color),
        y_axis_label_color: overlay_opt(dst.y_axis_label_color, src.y_axis_label_color),
        y_axis_line_color: overlay_opt(dst.y_axis_line_color, src.y_axis_line_color),
        y_axis_tick_color: overlay_opt(dst.y_axis_tick_color, src.y_axis_tick_color),
        y_axis_title_color: overlay_opt(dst.y_axis_title_color, src.y_axis_title_color),
    }
}

/// Packet diagram theme subgroup (its `packet` key); only the `dark` and
/// `forest` themes set it.
#[derive(Debug, Clone, PartialEq)]
pub struct PacketVars {
    pub block_fill_color: Option<String>,  // packet.blockFillColor
    pub block_stroke_color: Option<String>,  // packet.blockStrokeColor
    pub end_byte_color: Option<String>,  // packet.endByteColor
    pub label_color: Option<String>,  // packet.labelColor
    pub start_byte_color: Option<String>,  // packet.startByteColor
    pub title_color: Option<String>,  // packet.titleColor
}

impl PacketVars {
    /// The record with every field unset.
    pub open spec fn empty() -> Self {
        PacketVars {
            block_fill_color: None,
            block_stroke_color: None,
            end_byte_color: None,
            label_color: None,
            start_byte_color: None,
            title_color: None,
        }
    }

    /// Field by field, the fields set in `o` replace those of `self`.
    pub open spec fn overlaid(self, o: Self) -> Self {
        PacketVars {
            block_fill_color: overlay(self.block_fill_color, o.block_fill_color),
            block_stroke_color: overlay(self.block_stroke_color, o.block_stroke_color),
            end_byte_color: overlay(self.end_byte_color, o.end_byte_color),
            label_color: overlay(self.label_color, o.label_color),
            start_byte_color: overlay(self.start_byte_color, o.start_byte_color),
            title_color: overlay(self.title_color, o.title_color),
        }
    }

    /// A record with every field unset.
    pub fn new() -> (r: Self)
        ensures
            r == Self::empty(),
    {
        PacketVars {
            block_fill_color: None,
            block_stroke_color: None,
            end_byte_color: None,
            label_color: None,
            start_byte_color: None,
            title_color: None,
        }
    }
}

impl Default for PacketVars {
    fn default() -> (r: Self)
        ensures
            r == Self::empty(),
    {
        Self::new()
    }
}

/// `dst` with the fields set in `src` replacing its own.
fn overlay_packet(dst: PacketVars, src: PacketVars) -> (r: PacketVars)
    ensures
        r == dst.overlaid(src),
{
    PacketVars {
        block_fill_color: overlay_opt(dst.block_fill_color, src.block_fill_color),
        block_stroke_color: overlay_opt(dst.block_stroke_color, src.block_stroke_color),
        end_byte_color: overlay_opt(dst.end_byte_color, src.end_byte_color),
        label_color: overlay_opt(dst.label_color, src.label_color),
        start_byte_color: overlay_opt(dst.start_byte_color, src.start_byte_color),
        title_color: overlay_opt(dst.title_color, src.title_color),
    }
}

/// Merge of an optional nested group: unchanged when the override has no
/// group; otherwise the override's set fields laid over the baseline group
/// (or over an empty group when the baseline has none).
pub open spec fn merged_group<T>(base: Option<T>, over: Option<T>, empty: T, lay: spec_fn(T, T) -> T) -> Option<T> {
    match over {
        None => base,
        Some(src) => Some(
            lay(
                match base {
                    Some(d) => d,
                    None => empty,
                },
                src,
            ),
        ),
    }
}

/// Flat collection of every theme variable. All fields are optional so an
/// instance can represent either a complete built-in theme or a partial user
/// override; [`ThemeVariables::merge`] layers one on another.
#[derive(Debug, Clone, PartialEq)]
pub struct ThemeVariables {
    pub theme_color_limit: Option<i64>,  // THEME_COLOR_LIMIT
    pub activation_bkg_color: Option<String>,  // activationBkgColor
    pub activation_border_color: Option<String>,  // activationBorderColor
    pub active_task_bkg_color: Option<String>,  // activeTaskBkgColor
    pub active_task_border_color: Option<String>,  // activeTaskBorderColor
    pub actor_bkg: Option<String>,  // actorBkg
    pub actor_border: Option<String>,  // actorBorder
    pub actor_line_color: Option<String>,  // actorLineColor
    pub actor_text_color: Option<String>,  // actorTextColor
    pub alt_background: Option<String>,  // altBackground
    pub alt_section_bkg_color: Option<String>,  // altSectionBkgColor
    pub arch_edge_arrow_color: Option<String>,  // archEdgeArrowColor
    pub arch_edge_color: Option<String>,  // archEdgeColor
    pub arch_edge_width: Option<String>,  // archEdgeWidth
    pub arch_group_border_color: Option<String>,  // archGroupBorderColor
    pub arch_group_border_width: Option<String>,  // archGroupBorderWidth
    pub arrowhead_color: Option<String>,  // arrowheadColor
    pub attribute_background_color_even: Option<String>,  // attributeBackgroundColorEven
    pub attribute_background_color_odd: Option<String>,  // attributeBackgroundColorOdd
    pub background: Option<String>,  // background
    pub border1: Option<String>,  // border1
    pub border2: Option<String>,  // border2
    pub branch_label_color: Option<String>,  // branchLabelColor
    pub c_scale0: Option<String>,  // cScale0
    pub c_scale1: Option<String>,  // cScale1
    pub c_scale2: Option<String>,  // cScale2
    pub c_scale3: Option<String>,  // cScale3
    pub c_scale4: Option<String>,  // cScale4
    pub c_scale5: Option<String>,  // cScale5
    pub c_scale6: Option<String>,  // cScale6
    pub c_scale7: Option<String>,  // cScale7
    pub c_scale8: Option<String>,  // cScale8
    pub c_scale9: Option<String>,  // cScale9
    pub c_scale10: Option<String>,  // cScale10
    pub c_scale11: Option<String>,  // cScale11
    pub c_scale12: Option<String>,  // cScale12
    pub c_scale_inv0: Option<String>,  // cScaleInv0
    pub c_scale_inv1: Option<String>,  // cScaleInv1
    pub c_scale_inv2: Option<String>,  // cScaleInv2
    pub c_scale_inv3: Option<String>,  // cScaleInv3
    pub c_scale_inv4: Option<String>,  // cScaleInv4
    pub c_scale_inv5: Option<String>,  // cScaleInv5
    pub c_scale_inv6: Option<String>,  // cScaleInv6
    pub c_scale_inv7: Option<String>,  // cScaleInv7
    pub c_scale_inv8: Option<String>,  // cScaleInv8
    pub c_scale_inv9: Option<String>,  // cScaleInv9
    pub c_scale_inv10: Option<String>,  // cScaleInv10
    pub c_scale_inv11: Option<String>,  // cScaleInv11
    pub c_scale_label0: Option<String>,  // cScaleLabel0
    pub c_scale_label1: Option<String>,  // cScaleLabel1
    pub c_scale_label2: Option<String>,  // cScaleLabel2
    pub c_scale_label3: Option<String>,  // cScaleLabel3
    pub c_scale_label4: Option<String>,  // cScaleLabel4
    pub c_scale_label5: Option<String>,  // cScaleLabel5
    pub c_scale_label6: Option<String>,  // cScaleLabel6
    pub c_scale_label7: Option<String>,  // cScaleLabel7
    pub c_scale_label8: Option<String>,  // cScaleLabel8
    pub c_scale_label9: Option<String>,  // cScaleLabel9
    pub c_scale_label10: Option<String>,  // cScaleLabel10
    pub c_scale_label11: Option<String>,  // cScaleLabel11
    pub c_scale_peer0: Option<String>,  // cScalePeer0
    pub c_scale_peer1: Option<String>,  // cScalePeer1
    pub c_scale_peer2: Option<String>,  // cScalePeer2
    pub c_scale_peer3: Option<String>,  // cScalePeer3
    pub c_scale_peer4: Option<String>,  // cScalePeer4
    pub c_scale_peer5: Option<String>,  // cScalePeer5
    pub c_scale_peer6: Option<String>,  // cScalePeer6
    pub c_scale_peer7: Option<String>,  // cScalePeer7
    pub c_scale_peer8: Option<String>,  // cScalePeer8
    pub c_scale_peer9: Option<String>,  // cScalePeer9
    pub c_scale_peer10: Option<String>,  // cScalePeer10
    pub c_scale_peer11: Option<String>,  // cScalePeer11
    pub class_text: Option<String>,  // classText
    pub cluster_bkg: Option<String>,  // clusterBkg
    pub cluster_border: Option<String>,  // clusterBorder
    pub commit_label_background: Option<String>,  // commitLabelBackground
    pub commit_label_color: Option<String>,  // commitLabelColor
    pub commit_label_font_size: Option<String>,  // commitLabelFontSize
    pub composite_background: Option<String>,  // compositeBackground
    pub composite_border: Option<String>,  // compositeBorder
    pub composite_title_background: Option<String>,  // compositeTitleBackground
    pub contrast: Option<String>,  // contrast
    pub crit_bkg_color: Option<String>,  // critBkgColor
    pub crit_border_color: Option<String>,  // critBorderColor
    pub critical: Option<String>,  // critical
    pub dark_text_color: Option<String>,  // darkTextColor
    pub default_link_color: Option<String>,  // defaultLinkColor
    pub done: Option<String>,  // done
    pub done_task_bkg_color: Option<String>,  // doneTaskBkgColor
    pub done_task_border_color: Option<String>,  // doneTaskBorderColor
    pub drop_shadow: Option<String>,  // dropShadow
    pub edge_label_background: Option<String>,  // edgeLabelBackground
    pub error_bkg_color: Option<String>,  // errorBkgColor
    pub error_text_color: Option<String>,  // errorTextColor
    pub exclude_bkg_color: Option<String>,  // excludeBkgColor
    pub fill_type0: Option<String>,  // fillType0
    pub fill_type1: Option<String>,  // fillType1
    pub fill_type2: Option<String>,  // fillType2
    pub fill_type3: Option<String>,  // fillType3
    pub fill_type4: Option<String>,  // fillType4
    pub fill_type5: Option<String>,  // fillType5
    pub fill_type6: Option<String>,  // fillType6
    pub fill_type7: Option<String>,  // fillType7
    pub font_family: Option<String>,  // fontFamily
    pub font_size: Option<String>,  // fontSize
    pub font_weight: Option<String>,  // fontWeight
    pub git0: Option<String>,  // git0
    pub git1: Option<String>,  // git1
    pub git2: Option<String>,  // git2
    pub git3: Option<String>,  // git3
    pub git4: Option<String>,  // git4
    pub git5: Option<String>,  // git5
    pub git6: Option<String>,  // git6
    pub git7: Option<String>,  // git7
    pub git_branch_label0: Option<String>,  // gitBranchLabel0
    pub git_branch_label1: Option<String>,  // gitBranchLabel1
    pub git_branch_label2: Option<String>,  // gitBranchLabel2
    pub git_branch_label3: Option<String>,  // gitBranchLabel3
    pub git_branch_label4: Option<String>,  // gitBranchLabel4
    pub git_branch_label5: Option<String>,  // gitBranchLabel5
    pub git_branch_label6: Option<String>,  // gitBranchLabel6
    pub git_branch_label7: Option<String>,  // gitBranchLabel7
    pub git_inv0: Option<String>,  // gitInv0
    pub git_inv1: Option<String>,  // gitInv1
    pub git_inv2: Option<String>,  // gitInv2
    pub git_inv3: Option<String>,  // gitInv3
    pub git_inv4: Option<String>,  // gitInv4
    pub git_inv5: Option<String>,  // gitInv5
    pub git_inv6: Option<String>,  // gitInv6
    pub git_inv7: Option<String>,  // gitInv7
    pub gradient_start: Option<String>,  // gradientStart
    pub gradient_stop: Option<String>,  // gradientStop
    pub grid_color: Option<String>,  // gridColor
    pub inner_end_background: Option<String>,  // innerEndBackground
    pub label_background: Option<String>,  // labelBackground
    pub label_background_color: Option<String>,  // labelBackgroundColor
    pub label_box_bkg_color: Option<String>,  // labelBoxBkgColor
    pub label_box_border_color: Option<String>,  // labelBoxBorderColor
    pub label_color: Option<String>,  // labelColor
    pub label_text_color: Option<String>,  // labelTextColor
    pub line_color: Option<String>,  // lineColor
    pub loop_text_color: Option<String>,  // loopTextColor
    pub main_bkg: Option<String>,  // mainBkg
    pub main_contrast_color: Option<String>,  // mainContrastColor
    pub node_bkg: Option<String>,  // nodeBkg
    pub node_border: Option<String>,  // nodeBorder
    pub node_text_color: Option<String>,  // nodeTextColor
    pub note: Option<String>,  // note
    pub note_bkg_color: Option<String>,  // noteBkgColor
    pub note_border_color: Option<String>,  // noteBorderColor
    pub note_font_weight: Option<String>,  // noteFontWeight
    pub note_text_color: Option<String>,  // noteTextColor
    pub person_bkg: Option<String>,  // personBkg
    pub person_border: Option<String>,  // personBorder
    pub pie0: Option<String>,  // pie0
    pub pie1: Option<String>,  // pie1
    pub pie2: Option<String>,  // pie2
    pub pie3: Option<String>,  // pie3
    pub pie4: Option<String>,  // pie4
    pub pie5: Option<String>,  // pie5
    pub pie6: Option<String>,  // pie6
    pub pie7: Option<String>,  // pie7
    pub pie8: Option<String>,  // pie8
    pub pie9: Option<String>,  // pie9
    pub pie10: Option<String>,  // pie10
    pub pie11: Option<String>,  // pie11
    pub pie12: Option<String>,  // pie12
    pub pie_legend_text_color: Option<String>,  // pieLegendTextColor
    pub pie_legend_text_size: Option<String>,  // pieLegendTextSize
    pub pie_opacity: Option<String>,  // pieOpacity
    pub pie_outer_stroke_color: Option<String>,  // pieOuterStrokeColor
    pub pie_outer_stroke_width: Option<String>,  // pieOuterStrokeWidth
    pub pie_section_text_color: Option<String>,  // pieSectionTextColor
    pub pie_section_text_size: Option<String>,  // pieSectionTextSize
    pub pie_stroke_color: Option<String>,  // pieStrokeColor
    pub pie_stroke_width: Option<String>,  // pieStrokeWidth
    pub pie_title_text_color: Option<String>,  // pieTitleTextColor
    pub pie_title_text_size: Option<String>,  // pieTitleTextSize
    pub primary_border_color: Option<String>,  // primaryBorderColor
    pub primary_color: Option<String>,  // primaryColor
    pub primary_text_color: Option<String>,  // primaryTextColor
    pub quadrant1_fill: Option<String>,  // quadrant1Fill
    pub quadrant1_text_fill: Option<String>,  // quadrant1TextFill
    pub quadrant2_fill: Option<String>,  // quadrant2Fill
    pub quadrant2_text_fill: Option<String>,  // quadrant2TextFill
    pub quadrant3_fill: Option<String>,  // quadrant3Fill
    pub quadrant3_text_fill: Option<String>,  // quadrant3TextFill
    pub quadrant4_fill: Option<String>,  // quadrant4Fill
    pub quadrant4_text_fill: Option<String>,  // quadrant4TextFill
    pub quadrant_external_border_stroke_fill: Option<String>,  // quadrantExternalBorderStrokeFill
    pub quadrant_internal_border_stroke_fill: Option<String>,  // quadrantInternalBorderStrokeFill
    pub quadrant_point_fill: Option<String>,  // quadrantPointFill
    pub quadrant_point_text_fill: Option<String>,  // quadrantPointTextFill
    pub quadrant_title_fill: Option<String>,  // quadrantTitleFill
    pub quadrant_x_axis_text_fill: Option<String>,  // quadrantXAxisTextFill
    pub quadrant_y_axis_text_fill: Option<String>,  // quadrantYAxisTextFill
    pub radius: Option<i64>,  // radius
    pub relation_color: Option<String>,  // relationColor
    pub relation_label_background: Option<String>,  // relationLabelBackground
    pub relation_label_color: Option<String>,  // relationLabelColor
    pub requirement_background: Option<String>,  // requirementBackground
    pub requirement_border_color: Option<String>,  // requirementBorderColor
    pub requirement_border_size: Option<String>,  // requirementBorderSize
    pub requirement_text_color: Option<String>,  // requirementTextColor
    pub row_even: Option<String>,  // rowEven
    pub row_odd: Option<String>,  // rowOdd
    pub scale_label_color: Option<String>,  // scaleLabelColor
    pub second_bkg: Option<String>,  // secondBkg
    pub secondary_border_color: Option<String>,  // secondaryBorderColor
    pub secondary_color: Option<String>,  // secondaryColor
    pub secondary_text_color: Option<String>,  // secondaryTextColor
    pub section_bkg_color: Option<String>,  // sectionBkgColor
    pub section_bkg_color2: Option<String>,  // sectionBkgColor2
    pub sequence_number_color: Option<String>,  // sequenceNumberColor
    pub signal_color: Option<String>,  // signalColor
    pub signal_text_color: Option<String>,  // signalTextColor
    pub special_state_color: Option<String>,  // specialStateColor
    pub state_bkg: Option<String>,  // stateBkg
    pub state_border: Option<String>,  // stateBorder
    pub state_label_color: Option<String>,  // stateLabelColor
    pub stroke_width: Option<i64>,  // strokeWidth
    pub surface0: Option<String>,  // surface0
    pub surface1: Option<String>,  // surface1
    pub surface2: Option<String>,  // surface2
    pub surface3: Option<String>,  // surface3
    pub surface4: Option<String>,  // surface4
    pub surface_peer0: Option<String>,  // surfacePeer0
    pub surface_peer1: Option<String>,  // surfacePeer1
    pub surface_peer2: Option<String>,  // surfacePeer2
    pub surface_peer3: Option<String>,  // surfacePeer3
    pub surface_peer4: Option<String>,  // surfacePeer4
    pub tag_label_background: Option<String>,  // tagLabelBackground
    pub tag_label_border: Option<String>,  // tagLabelBorder
    pub tag_label_color: Option<String>,  // tagLabelColor
    pub tag_label_font_size: Option<String>,  // tagLabelFontSize
    pub task_bkg_color: Option<String>,  // taskBkgColor
    pub task_border_color: Option<String>,  // taskBorderColor
    pub task_text_clickable_color: Option<String>,  // taskTextClickableColor
    pub task_text_color: Option<String>,  // taskTextColor
    pub task_text_dark_color: Option<String>,  // taskTextDarkColor
    pub task_text_light_color: Option<String>,  // taskTextLightColor
    pub task_text_outside_color: Option<String>,  // taskTextOutsideColor
    pub tertiary_border_color: Option<String>,  // tertiaryBorderColor
    pub tertiary_color: Option<String>,  // tertiaryColor
    pub tertiary_text_color: Option<String>,  // tertiaryTextColor
    pub text: Option<String>,  // text
    pub text_color: Option<String>,  // textColor
    pub title_color: Option<String>,  // titleColor
    pub today_line_color: Option<String>,  // todayLineColor
    pub transition_color: Option<String>,  // transitionColor
    pub transition_label_color: Option<String>,  // transitionLabelColor
    pub use_gradient: Option<bool>,  // useGradient
    pub venn1: Option<String>,  // venn1
    pub venn2: Option<String>,  // venn2
    pub venn3: Option<String>,  // venn3
    pub venn4: Option<String>,  // venn4
    pub venn5: Option<String>,  // venn5
    pub venn6: Option<String>,  // venn6
    pub venn7: Option<String>,  // venn7
    pub venn8: Option<String>,  // venn8
    pub venn_set_text_color: Option<String>,  // vennSetTextColor
    pub venn_title_text_color: Option<String>,  // vennTitleTextColor
    pub vert_line_color: Option<String>,  // vertLineColor
    pub packet: Option<PacketVars>,
    pub radar: Option<RadarVars>,
    pub xy_chart: Option<XyChartVars>,
}

impl ThemeVariables {
    /// The record with every field unset.
    pub open spec fn empty() -> Self {
        ThemeVariables {
            theme_color_limit: None,
            activation_bkg_color: None,
            activation_border_color: None,
            active_task_bkg_color: None,
            active_task_border_color: None,
            actor_bkg: None,
            actor_border: None,
            actor_line_color: None,
            actor_text_color: None,
            alt_background: None,
            alt_section_bkg_color: None,
            arch_edge_arrow_color: None,
            arch_edge_color: None,
            arch_edge_width: None,
            arch_group_border_color: None,
            arch_group_border_width: None,
            arrowhead_color: None,
            attribute_background_color_even: None,
            attribute_background_color_odd: None,
            background: None,
            border1: None,
            border2: None,
            branch_label_color: None,
            c_scale0: None,
            c_scale1: None,
            c_scale2: None,
            c_scale3: None,
            c_scale4: None,
            c_scale5: None,
            c_scale6: None,
            c_scale7: None,
            c_scale8: None,
            c_scale9: None,
            c_scale10: None,
            c_scale11: None,
            c_scale12: None,
            c_scale_inv0: None,
            c_scale_inv1: None,
            c_scale_inv2: None,
            c_scale_inv3: None,
            c_scale_inv4: None,
            c_scale_inv5: None,
            c_scale_inv6: None,
            c_scale_inv7: None,
            c_scale_inv8: None,
            c_scale_inv9: None,
            c_scale_inv10: None,
            c_scale_inv11: None,
            c_scale_label0: None,
            c_scale_label1: None,
            c_scale_label2: None,
            c_scale_label3: None,
            c_scale_label4: None,
            c_scale_label5: None,
            c_scale_label6: None,
            c_scale_label7: None,
            c_scale_label8: None,
            c_scale_label9: None,
            c_scale_label10: None,
            c_scale_label11: None,
            c_scale_peer0: None,
            c_scale_peer1: None,
            c_scale_peer2: None,
            c_scale_peer3: None,
            c_scale_peer4: None,
            c_scale_peer5: None,
            c_scale_peer6: None,
            c_scale_peer7: None,
            c_scale_peer8: None,
            c_scale_peer9: None,
            c_scale_peer10: None,
            c_scale_peer11: None,
            class_text: None,
            cluster_bkg: None,
            cluster_border: None,
            commit_label_background: None,
            commit_label_color: None,
            commit_label_font_size: None,
            composite_background: None,
            composite_border: None,
            composite_title_background: None,
            contrast: None,
            crit_bkg_color: None,
            crit_border_color: None,
            critical: None,
            dark_text_color: None,
            default_link_color: None,
            done: None,
            done_task_bkg_color: None,
            done_task_border_color: None,
            drop_shadow: None,
            edge_label_background: None,
            error_bkg_color: None,
            error_text_color: None,
            exclude_bkg_color: None,
            fill_type0: None,
            fill_type1: None,
            fill_type2: None,
            fill_type3: None,
            fill_type4: None,
            fill_type5: None,
            fill_type6: None,
            fill_type7: None,
            font_family: None,
            font_size: None,
            font_weight: None,
            git0: None,
            git1: None,
            git2: None,
            git3: None,
            git4: None,
            git5: None,
            git6: None,
            git7: None,
            git_branch_label0: None,
            git_branch_label1: None,
            git_branch_label2: None,
            git_branch_label3: None,
            git_branch_label4: None,
            git_branch_label5: None,
            git_branch_label6: None,
            git_branch_label7: None,
            git_inv0: None,
            git_inv1: None,
            git_inv2: None,
            git_inv3: None,
            git_inv4: None,
            git_inv5: None,
            git_inv6: None,
            git_inv7: None,
            gradient_start: None,
            gradient_stop: None,
            grid_color: None,
            inner_end_background: None,
            label_background: None,
            label_background_color: None,
            label_box_bkg_color: None,
            label_box_border_color: None,
            label_color: None,
            label_text_color: None,
            line_color: None,
            loop_text_color: None,
            main_bkg: None,
            main_contrast_color: None,
            node_bkg: None,
            node_border: None,
            node_text_color: None,
            note: None,
            note_bkg_color: None,
            note_border_color: None,
            note_font_weight: None,
            note_text_color: None,
            person_bkg: None,
            person_border: None,
            pie0: None,
            pie1: None,
            pie2: None,
            pie3: None,
            pie4: None,
            pie5: None,
            pie6: None,
            pie7: None,
            pie8: None,
            pie9: None,
            pie10: None,
            pie11: None,
            pie12: None,
            pie_legend_text_color: None,
            pie_legend_text_size: None,
            pie_opacity: None,
            pie_outer_stroke_color: None,
            pie_outer_stroke_width: None,
            pie_section_text_color: None,
            pie_section_text_size: None,
            pie_stroke_color: None,
            pie_stroke_width: None,
            pie_title_text_color: None,
            pie_title_text_size: None,
            primary_border_color: None,
            primary_color: None,
            primary_text_color: None,
            quadrant1_fill: None,
            quadrant1_text_fill: None,
            quadrant2_fill: None,
            quadrant2_text_fill: None,
            quadrant3_fill: None,
            quadrant3_text_fill: None,
            quadrant4_fill: None,
            quadrant4_text_fill: None,
            quadrant_external_border_stroke_fill: None,
            quadrant_internal_border_stroke_fill: None,
            quadrant_point_fill: None,
            quadrant_point_text_fill: None,
            quadrant_title_fill: None,
            quadrant_x_axis_text_fill: None,
            quadrant_y_axis_text_fill: None,
            radius: None,
            relation_color: None,
            relation_label_background: None,
            relation_label_color: None,
            requirement_background: None,
            requirement_border_color: None,
            requirement_border_size: None,
            requirement_text_color: None,
            row_even: None,
            row_odd: None,
            scale_label_color: None,
            second_bkg: None,
            secondary_border_color: None,
            secondary_color: None,
            secondary_text_color: None,
            section_bkg_color: None,
            section_bkg_color2: None,
            sequence_number_color: None,
            signal_color: None,
            signal_text_color: None,
            special_state_color: None,
            state_bkg: None,
            state_border: None,
            state_label_color: None,
            stroke_width: None,
            surface0: None,
            surface1: None,
            surface2: None,
            surface3: None,
            surface4: None,
            surface_peer0: None,
            surface_peer1: None,
            surface_peer2: None,
            surface_peer3: None,
            surface_peer4: None,
            tag_label_background: None,
            tag_label_border: None,
            tag_label_color: None,
            tag_label_font_size: None,
            task_bkg_color: None,
            task_border_color: None,
            task_text_clickable_color: None,
            task_text_color: None,
            task_text_dark_color: None,
            task_text_light_color: None,
            task_text_outside_color: None,
            tertiary_border_color: None,
            tertiary_color: None,
            tertiary_text_color: None,
            text: None,
            text_color: None,
            title_color: None,
            today_line_color: None,
            transition_color: None,
            transition_label_color: None,
            use_gradient: None,
            venn1: None,
            venn2: None,
            venn3: None,
            venn4: None,
            venn5: None,
            venn6: None,
            venn7: None,
            venn8: None,
            venn_set_text_color: None,
            venn_title_text_color: None,
            vert_line_color: None,
            packet: None,
            radar: None,
            xy_chart: None,
        }
    }

    /// `self` with `overrides` laid over it: every scalar field set in
    /// `overrides` replaces the baseline's; the nested `packet`, `radar` and
    /// `xy_chart` groups are merged field by field.
    pub open spec fn merged(self, overrides: Self) -> Self {
        ThemeVariables {
            theme_color_limit: overlay(self.theme_color_limit, overrides.theme_color_limit),
            activation_bkg_color: overlay(self.activation_bkg_color, overrides.activation_bkg_color),
            activation_border_color: overlay(self.activation_border_color, overrides.activation_border_color),
            active_task_bkg_color: overlay(self.active_task_bkg_color, overrides.active_task_bkg_color),
            active_task_border_color: overlay(self.active_task_border_color, overrides.active_task_border_color),
            actor_bkg: overlay(self.actor_bkg, overrides.actor_bkg),
            actor_border: overlay(self.actor_border, overrides.actor_border),
            actor_line_color: overlay(self.actor_line_color, overrides.actor_line_color),
            actor_text_color: overlay(self.actor_text_color, overrides.actor_text_color),
            alt_background: overlay(self.alt_background, overrides.alt_background),
            alt_section_bkg_color: overlay(self.alt_section_bkg_color, overrides.alt_section_bkg_color),
            arch_edge_arrow_color: overlay(self.arch_edge_arrow_color, overrides.arch_edge_arrow_color),
            arch_edge_color: overlay(self.arch_edge_color, overrides.arch_edge_color),
            arch_edge_width: overlay(self.arch_edge_width, overrides.arch_edge_width),
            arch_group_border_color: overlay(self.arch_group_border_color, overrides.arch_group_border_color),
            arch_group_border_width: overlay(self.arch_group_border_width, overrides.arch_group_border_width),
            arrowhead_color: overlay(self.arrowhead_color, overrides.arrowhead_color),
            attribute_background_color_even: overlay(self.attribute_background_color_even, overrides.attribute_background_color_even),
            attribute_background_color_odd: overlay(self.attribute_background_color_odd, overrides.attribute_background_color_odd),
            background: overlay(self.background, overrides.background),
            border1: overlay(self.border1, overrides.border1),
            border2: overlay(self.border2, overrides.border2),
            branch_label_color: overlay(self.branch_label_color, overrides.branch_label_color),
            c_scale0: overlay(self.c_scale0, overrides.c_scale0),
            c_scale1: overlay(self.c_scale1, overrides.c_scale1),
            c_scale2: overlay(self.c_scale2, overrides.c_scale2),
            c_scale3: overlay(self.c_scale3, overrides.c_scale3),
            c_scale4: overlay(self.c_scale4, overrides.c_scale4),
            c_scale5: overlay(self.c_scale5, overrides.c_scale5),
            c_scale6: overlay(self.c_scale6, overrides.c_scale6),
            c_scale7: overlay(self.c_scale7, overrides.c_scale7),
            c_scale8: overlay(self.c_scale8, overrides.c_scale8),
            c_scale9: overlay(self.c_scale9, overrides.c_scale9),
            c_scale10: overlay(self.c_scale10, overrides.c_scale10),
            c_scale11: overlay(self.c_scale11, overrides.c_scale11),
            c_scale12: overlay(self.c_scale12, overrides.c_scale12),
            c_scale_inv0: overlay(self.c_scale_inv0, overrides.c_scale_inv0),
            c_scale_inv1: overlay(self.c_scale_inv1, overrides.c_scale_inv1),
            c_scale_inv2: overlay(self.c_scale_inv2, overrides.c_scale_inv2),
            c_scale_inv3: overlay(self.c_scale_inv3, overrides.c_scale_inv3),
            c_scale_inv4: overlay(self.c_scale_inv4, overrides.c_scale_inv4),
            c_scale_inv5: overlay(self.c_scale_inv5, overrides.c_scale_inv5),
            c_scale_inv6: overlay(self.c_scale_inv6, overrides.c_scale_inv6),
            c_scale_inv7: overlay(self.c_scale_inv7, overrides.c_scale_inv7),
            c_scale_inv8: overlay(self.c_scale_inv8, overrides.c_scale_inv8),
            c_scale_inv9: overlay(self.c_scale_inv9, overrides.c_scale_inv9),
            c_scale_inv10: overlay(self.c_scale_inv10, overrides.c_scale_inv10),
            c_scale_inv11: overlay(self.c_scale_inv11, overrides.c_scale_inv11),
            c_scale_label0: overlay(self.c_scale_label0, overrides.c_scale_label0),
            c_scale_label1: overlay(self.c_scale_label1, overrides.c_scale_label1),
            c_scale_label2: overlay(self.c_scale_label2, overrides.c_scale_label2),
            c_scale_label3: overlay(self.c_scale_label3, overrides.c_scale_label3),
            c_scale_label4: overlay(self.c_scale_label4, overrides.c_scale_label4),
            c_scale_label5: overlay(self.c_scale_label5, overrides.c_scale_label5),
            c_scale_label6: overlay(self.c_scale_label6, overrides.c_scale_label6),
            c_scale_label7: overlay(self.c_scale_label7, overrides.c_scale_label7),
            c_scale_label8: overlay(self.c_scale_label8, overrides.c_scale_label8),
            c_scale_label9: overlay(self.c_scale_label9, overrides.c_scale_label9),
            c_scale_label10: overlay(self.c_scale_label10, overrides.c_scale_label10),
            c_scale_label11: overlay(self.c_scale_label11, overrides.c_scale_label11),
            c_scale_peer0: overlay(self.c_scale_peer0, overrides.c_scale_peer0),
            c_scale_peer1: overlay(self.c_scale_peer1, overrides.c_scale_peer1),
            c_scale_peer2: overlay(self.c_scale_peer2, overrides.c_scale_peer2),
            c_scale_peer3: overlay(self.c_scale_peer3, overrides.c_scale_peer3),
            c_scale_peer4: overlay(self.c_scale_peer4, overrides.c_scale_peer4),
            c_scale_peer5: overlay(self.c_scale_peer5, overrides.c_scale_peer5),
            c_scale_peer6: overlay(self.c_scale_peer6, overrides.c_scale_peer6),
            c_scale_peer7: overlay(self.c_scale_peer7, overrides.c_scale_peer7),
            c_scale_peer8: overlay(self.c_scale_peer8, overrides.c_scale_peer8),
            c_scale_peer9: overlay(self.c_scale_peer9, overrides.c_scale_peer9),
            c_scale_peer10: overlay(self.c_scale_peer10, overrides.c_scale_peer10),
            c_scale_peer11: overlay(self.c_scale_peer11, overrides.c_scale_peer11),
            class_text: overlay(self.class_text, overrides.class_text),
            cluster_bkg: overlay(self.cluster_bkg, overrides.cluster_bkg),
            cluster_border: overlay(self.cluster_border, overrides.cluster_border),
            commit_label_background: overlay(self.commit_label_background, overrides.commit_label_background),
            commit_label_color: overlay(self.commit_label_color, overrides.commit_label_color),
            commit_label_font_size: overlay(self.commit_label_font_size, overrides.commit_label_font_size),
            composite_background: overlay(self.composite_background, overrides.composite_background),
            composite_border: overlay(self.composite_border, overrides.composite_border),
            composite_title_background: overlay(self.composite_title_background, overrides.composite_title_background),
            contrast: overlay(self.contrast, overrides.contrast),
            crit_bkg_color: overlay(self.crit_bkg_color, overrides.crit_bkg_color),
            crit_border_color: overlay(self.crit_border_color, overrides.crit_border_color),
            critical: overlay(self.critical, overrides.critical),
            dark_text_color: overlay(self.dark_text_color, overrides.dark_text_color),
            default_link_color: overlay(self.default_link_color, overrides.default_link_color),
            done: overlay(self.done, overrides.done),
            done_task_bkg_color: overlay(self.done_task_bkg_color, overrides.done_task_bkg_color),
            done_task_border_color: overlay(self.done_task_border_color, overrides.done_task_border_color),
            drop_shadow: overlay(self.drop_shadow, overrides.drop_shadow),
            edge_label_background: overlay(self.edge_label_background, overrides.edge_label_background),
            error_bkg_color: overlay(self.error_bkg_color, overrides.error_bkg_color),
            error_text_color: overlay(self.error_text_color, overrides.error_text_color),
            exclude_bkg_color: overlay(self.exclude_bkg_color, overrides.exclude_bkg_color),
            fill_type0: overlay(self.fill_type0, overrides.fill_type0),
            fill_type1: overlay(self.fill_type1, overrides.fill_type1),
            fill_type2: overlay(self.fill_type2, overrides.fill_type2),
            fill_type3: overlay(self.fill_type3, overrides.fill_type3),
            fill_type4: overlay(self.fill_type4, overrides.fill_type4),
            fill_type5: overlay(self.fill_type5, overrides.fill_type5),
            fill_type6: overlay(self.fill_type6, overrides.fill_type6),
            fill_type7: overlay(self.fill_type7, overrides.fill_type7),
            font_family: overlay(self.font_family, overrides.font_family),
            font_size: overlay(self.font_size, overrides.font_size),
            font_weight: overlay(self.font_weight, overrides.font_weight),
            git0: overlay(self.git0, overrides.git0),
            git1: overlay(self.git1, overrides.git1),
            git2: overlay(self.git2, overrides.git2),
            git3: overlay(self.git3, overrides.git3),
            git4: overlay(self.git4, overrides.git4),
            git5: overlay(self.git5, overrides.git5),
            git6: overlay(self.git6, overrides.git6),
            git7: overlay(self.git7, overrides.git7),
            git_branch_label0: overlay(self.git_branch_label0, overrides.git_branch_label0),
            git_branch_label1: overlay(self.git_branch_label1, overrides.git_branch_label1),
            git_branch_label2: overlay(self.git_branch_label2, overrides.git_branch_label2),
            git_branch_label3: overlay(self.git_branch_label3, overrides.git_branch_label3),
            git_branch_label4: overlay(self.git_branch_label4, overrides.git_branch_label4),
            git_branch_label5: overlay(self.git_branch_label5, overrides.git_branch_label5),
            git_branch_label6: overlay(self.git_branch_label6, overrides.git_branch_label6),
            git_branch_label7: overlay(self.git_branch_label7, overrides.git_branch_label7),
            git_inv0: overlay(self.git_inv0, overrides.git_inv0),
            git_inv1: overlay(self.git_inv1, overrides.git_inv1),
            git_inv2: overlay(self.git_inv2, overrides.git_inv2),
            git_inv3: overlay(self.git_inv3, overrides.git_inv3),
            git_inv4: overlay(self.git_inv4, overrides.git_inv4),
            git_inv5: overlay(self.git_inv5, overrides.git_inv5),
            git_inv6: overlay(self.git_inv6, overrides.git_inv6),
            git_inv7: overlay(self.git_inv7, overrides.git_inv7),
            gradient_start: overlay(self.gradient_start, overrides.gradient_start),
            gradient_stop: overlay(self.gradient_stop, overrides.gradient_stop),
            grid_color: overlay(self.grid_color, overrides.grid_color),
            inner_end_background: overlay(self.inner_end_background, overrides.inner_end_background),
            label_background: overlay(self.label_background, overrides.label_background),
            label_background_color: overlay(self.label_background_color, overrides.label_background_color),
            label_box_bkg_color: overlay(self.label_box_bkg_color, overrides.label_box_bkg_color),
            label_box_border_color: overlay(self.label_box_border_color, overrides.label_box_border_color),
            label_color: overlay(self.label_color, overrides.label_color),
            label_text_color: overlay(self.label_text_color, overrides.label_text_color),
            line_color: overlay(self.line_color, overrides.line_color),
            loop_text_color: overlay(self.loop_text_color, overrides.loop_text_color),
            main_bkg: overlay(self.main_bkg, overrides.main_bkg),
            main_contrast_color: overlay(self.main_contrast_color, overrides.main_contrast_color),
            node_bkg: overlay(self.node_bkg, overrides.node_bkg),
            node_border: overlay(self.node_border, overrides.node_border),
            node_text_color: overlay(self.node_text_color, overrides.node_text_color),
            note: overlay(self.note, overrides.note),
            note_bkg_color: overlay(self.note_bkg_color, overrides.note_bkg_color),
            note_border_color: overlay(self.note_border_color, overrides.note_border_color),
            note_font_weight: overlay(self.note_font_weight, overrides.note_font_weight),
            note_text_color: overlay(self.note_text_color, overrides.note_text_color),
            person_bkg: overlay(self.person_bkg, overrides.person_bkg),
            person_border: overlay(self.person_border, overrides.person_border),
            pie0: overlay(self.pie0, overrides.pie0),
            pie1: overlay(self.pie1, overrides.pie1),
            pie2: overlay(self.pie2, overrides.pie2),
            pie3: overlay(self.pie3, overrides.pie3),
            pie4: overlay(self.pie4, overrides.pie4),
            pie5: overlay(self.pie5, overrides.pie5),
            pie6: overlay(self.pie6, overrides.pie6),
            pie7: overlay(self.pie7, overrides.pie7),
            pie8: overlay(self.pie8, overrides.pie8),
            pie9: overlay(self.pie9, overrides.pie9),
            pie10: overlay(self.pie10, overrides.pie10),
            pie11: overlay(self.pie11, overrides.pie11),
            pie12: overlay(self.pie12, overrides.pie12),
            pie_legend_text_color: overlay(self.pie_legend_text_color, overrides.pie_legend_text_color),
            pie_legend_text_size: overlay(self.pie_legend_text_size, overrides.pie_legend_text_size),
            pie_opacity: overlay(self.pie_opacity, overrides.pie_opacity),
            pie_outer_stroke_color: overlay(self.pie_outer_stroke_color, overrides.pie_outer_stroke_color),
            pie_outer_stroke_width: overlay(self.pie_outer_stroke_width, overrides.pie_outer_stroke_width),
            pie_section_text_color: overlay(self.pie_section_text_color, overrides.pie_section_text_color),
            pie_section_text_size: overlay(self.pie_section_text_size, overrides.pie_section_text_size),
            pie_stroke_color: overlay(self.pie_stroke_color, overrides.pie_stroke_color),
            pie_stroke_width: overlay(self.pie_stroke_width, overrides.pie_stroke_width),
            pie_title_text_color: overlay(self.pie_title_text_color, overrides.pie_title_text_color),
            pie_title_text_size: overlay(self.pie_title_text_size, overrides.pie_title_text_size),
            primary_border_color: overlay(self.primary_border_color, overrides.primary_border_color),
            primary_color: overlay(self.primary_color, overrides.primary_color),
            primary_text_color: overlay(self.primary_text_color, overrides.primary_text_color),
            quadrant1_fill: overlay(self.quadrant1_fill, overrides.quadrant1_fill),
            quadrant1_text_fill: overlay(self.quadrant1_text_fill, overrides.quadrant1_text_fill),
            quadrant2_fill: overlay(self.quadrant2_fill, overrides.quadrant2_fill),
            quadrant2_text_fill: overlay(self.quadrant2_text_fill, overrides.quadrant2_text_fill),
            quadrant3_fill: overlay(self.quadrant3_fill, overrides.quadrant3_fill),
            quadrant3_text_fill: overlay(self.quadrant3_text_fill, overrides.quadrant3_text_fill),
            quadrant4_fill: overlay(self.quadrant4_fill, overrides.quadrant4_fill),
            quadrant4_text_fill: overlay(self.quadrant4_text_fill, overrides.quadrant4_text_fill),
            quadrant_external_border_stroke_fill: overlay(self.quadrant_external_border_stroke_fill, overrides.quadrant_external_border_stroke_fill),
            quadrant_internal_border_stroke_fill: overlay(self.quadrant_internal_border_stroke_fill, overrides.quadrant_internal_border_stroke_fill),
            quadrant_point_fill: overlay(self.quadrant_point_fill, overrides.quadrant_point_fill),
            quadrant_point_text_fill: overlay(self.quadrant_point_text_fill, overrides.quadrant_point_text_fill),
            quadrant_title_fill: overlay(self.quadrant_title_fill, overrides.quadrant_title_fill),
            quadrant_x_axis_text_fill: overlay(self.quadrant_x_axis_text_fill, overrides.quadrant_x_axis_text_fill),
            quadrant_y_axis_text_fill: overlay(self.quadrant_y_axis_text_fill, overrides.quadrant_y_axis_text_fill),
            radius: overlay(self.radius, overrides.radius),
            relation_color: overlay(self.relation_color, overrides.relation_color),
            relation_label_background: overlay(self.relation_label_background, overrides.relation_label_background),
            relation_label_color: overlay(self.relation_label_color, overrides.relation_label_color),
            requirement_background: overlay(self.requirement_background, overrides.requirement_background),
            requirement_border_color: overlay(self.requirement_border_color, overrides.requirement_border_color),
            requirement_border_size: overlay(self.requirement_border_size, overrides.requirement_border_size),
            requirement_text_color: overlay(self.requirement_text_color, overrides.requirement_text_color),
            row_even: overlay(self.row_even, overrides.row_even),
            row_odd: overlay(self.row_odd, overrides.row_odd),
            scale_label_color: overlay(self.scale_label_color, overrides.scale_label_color),
            second_bkg: overlay(self.second_bkg, overrides.second_bkg),
            secondary_border_color: overlay(self.secondary_border_color, overrides.secondary_border_color),
            secondary_color: overlay(self.secondary_color, overrides.secondary_color),
            secondary_text_color: overlay(self.secondary_text_color, overrides.secondary_text_color),
            section_bkg_color: overlay(self.section_bkg_color, overrides.section_bkg_color),
            section_bkg_color2: overlay(self.section_bkg_color2, overrides.section_bkg_color2),
            sequence_number_color: overlay(self.sequence_number_color, overrides.sequence_number_color),
            signal_color: overlay(self.signal_color, overrides.signal_color),
            signal_text_color: overlay(self.signal_text_color, overrides.signal_text_color),
            special_state_color: overlay(self.special_state_color, overrides.special_state_color),
            state_bkg: overlay(self.state_bkg, overrides.state_bkg),
            state_border: overlay(self.state_border, overrides.state_border),
            state_label_color: overlay(self.state_label_color, overrides.state_label_color),
            stroke_width: overlay(self.stroke_width, overrides.stroke_width),
            surface0: overlay(self.surface0, overrides.surface0),
            surface1: overlay(self.surface1, overrides.surface1),
            surface2: overlay(self.surface2, overrides.surface2),
            surface3: overlay(self.surface3, overrides.surface3),
            surface4: overlay(self.surface4, overrides.surface4),
            surface_peer0: overlay(self.surface_peer0, overrides.surface_peer0),
            surface_peer1: overlay(self.surface_peer1, overrides.surface_peer1),
            surface_peer2: overlay(self.surface_peer2, overrides.surface_peer2),
            surface_peer3: overlay(self.surface_peer3, overrides.surface_peer3),
            surface_peer4: overlay(self.surface_peer4, overrides.surface_peer4),
            tag_label_background: overlay(self.tag_label_background, overrides.tag_label_background),
            tag_label_border: overlay(self.tag_label_border, overrides.tag_label_border),
            tag_label_color: overlay(self.tag_label_color, overrides.tag_label_color),
            tag_label_font_size: overlay(self.tag_label_font_size, overrides.tag_label_font_size),
            task_bkg_color: overlay(self.task_bkg_color, overrides.task_bkg_color),
            task_border_color: overlay(self.task_border_color, overrides.task_border_color),
            task_text_clickable_color: overlay(self.task_text_clickable_color, overrides.task_text_clickable_color),
            task_text_color: overlay(self.task_text_color, overrides.task_text_color),
            task_text_dark_color: overlay(self.task_text_dark_color, overrides.task_text_dark_color),
            task_text_light_color: overlay(self.task_text_light_color, overrides.task_text_light_color),
            task_text_outside_color: overlay(self.task_text_outside_color, overrides.task_text_outside_color),
            tertiary_border_color: overlay(self.tertiary_border_color, overrides.tertiary_border_color),
            tertiary_color: overlay(self.tertiary_color, overrides.tertiary_color),
            tertiary_text_color: overlay(self.tertiary_text_color, overrides.tertiary_text_color),
            text: overlay(self.text, overrides.text),
            text_color: overlay(self.text_color, overrides.text_color),
            title_color: overlay(self.title_color, overrides.title_color),
            today_line_color: overlay(self.today_line_color, overrides.today_line_color),
            transition_color: overlay(self.transition_color, overrides.transition_color),
            transition_label_color: overlay(self.transition_label_color, overrides.transition_label_color),
            use_gradient: overlay(self.use_gradient, overrides.use_gradient),
            venn1: overlay(self.venn1, overrides.venn1),
            venn2: overlay(self.venn2, overrides.venn2),
            venn3: overlay(self.venn3, overrides.venn3),
            venn4: overlay(self.venn4, overrides.venn4),
            venn5: overlay(self.venn5, overrides.venn5),
            venn6: overlay(self.venn6, overrides.venn6),
            venn7: overlay(self.venn7, overrides.venn7),
            venn8: overlay(self.venn8, overrides.venn8),
            venn_set_text_color: overlay(self.venn_set_text_color, overrides.venn_set_text_color),
            venn_title_text_color: overlay(self.venn_title_text_color, overrides.venn_title_text_color),
            vert_line_color: overlay(self.vert_line_color, overrides.vert_line_color),
            packet: merged_group(self.packet, overrides.packet, PacketVars::empty(), |d: PacketVars, s: PacketVars| d.overlaid(s)),
            radar: merged_group(self.radar, overrides.radar, RadarVars::empty(), |d: RadarVars, s: RadarVars| d.overlaid(s)),
            xy_chart: merged_group(self.xy_chart, overrides.xy_chart, XyChartVars::empty(), |d: XyChartVars, s: XyChartVars| d.overlaid(s)),
        }
    }

    /// Create an empty override (every field `None`).
    pub fn new() -> (r: Self)
        ensures
            r == Self::empty(),
    {
        ThemeVariables {
            theme_color_limit: None,
            activation_bkg_color: None,
            activation_border_color: None,
            active_task_bkg_color: None,
            active_task_border_color: None,
            actor_bkg: None,
            actor_border: None,
            actor_line_color: None,
            actor_text_color: None,
            alt_background: None,
            alt_section_bkg_color: None,
            arch_edge_arrow_color: None,
            arch_edge_color: None,
            arch_edge_width: None,
            arch_group_border_color: None,
            arch_group_border_width: None,
            arrowhead_color: None,
            attribute_background_color_even: None,
            attribute_background_color_odd: None,
            background: None,
            border1: None,
            border2: None,
            branch_label_color: None,
            c_scale0: None,
            c_scale1: None,
            c_scale2: None,
            c_scale3: None,
            c_scale4: None,
            c_scale5: None,
            c_scale6: None,
            c_scale7: None,
            c_scale8: None,
            c_scale9: None,
            c_scale10: None,
            c_scale11: None,
            c_scale12: None,
            c_scale_inv0: None,
            c_scale_inv1: None,
            c_scale_inv2: None,
            c_scale_inv3: None,
            c_scale_inv4: None,
            c_scale_inv5: None,
            c_scale_inv6: None,
            c_scale_inv7: None,
            c_scale_inv8: None,
            c_scale_inv9: None,
            c_scale_inv10: None,
            c_scale_inv11: None,
            c_scale_label0: None,
            c_scale_label1: None,
            c_scale_label2: None,
            c_scale_label3: None,
            c_scale_label4: None,
            c_scale_label5: None,
            c_scale_label6: None,
            c_scale_label7: None,
            c_scale_label8: None,
            c_scale_label9: None,
            c_scale_label10: None,
            c_scale_label11: None,
            c_scale_peer0: None,
            c_scale_peer1: None,
            c_scale_peer2: None,
            c_scale_peer3: None,
            c_scale_peer4: None,
            c_scale_peer5: None,
            c_scale_peer6: None,
            c_scale_peer7: None,
            c_scale_peer8: None,
            c_scale_peer9: None,
            c_scale_peer10: None,
            c_scale_peer11: None,
            class_text: None,
            cluster_bkg: None,
            cluster_border: None,
            commit_label_background: None,
            commit_label_color: None,
            commit_label_font_size: None,
            composite_background: None,
            composite_border: None,
            composite_title_background: None,
            contrast: None,
            crit_bkg_color: None,
            crit_border_color: None,
            critical: None,
            dark_text_color: None,
            default_link_color: None,
            done: None,
            done_task_bkg_color: None,
            done_task_border_color: None,
            drop_shadow: None,
            edge_label_background: None,
            error_bkg_color: None,
            error_text_color: None,
            exclude_bkg_color: None,
            fill_type0: None,
            fill_type1: None,
            fill_type2: None,
            fill_type3: None,
            fill_type4: None,
            fill_type5: None,
            fill_type6: None,
            fill_type7: None,
            font_family: None,
            font_size: None,
            font_weight: None,
            git0: None,
            git1: None,
            git2: None,
            git3: None,
            git4: None,
            git5: None,
            git6: None,
            git7: None,
            git_branch_label0: None,
            git_branch_label1: None,
            git_branch_label2: None,
            git_branch_label3: None,
            git_branch_label4: None,
            git_branch_label5: None,
            git_branch_label6: None,
            git_branch_label7: None,
            git_inv0: None,
            git_inv1: None,
            git_inv2: None,
            git_inv3: None,
            git_inv4: None,
            git_inv5: None,
            git_inv6: None,
            git_inv7: None,
            gradient_start: None,
            gradient_stop: None,
            grid_color: None,
            inner_end_background: None,
            label_background: None,
            label_background_color: None,
            label_box_bkg_color: None,
            label_box_border_color: None,
            label_color: None,
            label_text_color: None,
            line_color: None,
            loop_text_color: None,
            main_bkg: None,
            main_contrast_color: None,
            node_bkg: None,
            node_border: None,
            node_text_color: None,
            note: None,
            note_bkg_color: None,
            note_border_color: None,
            note_font_weight: None,
            note_text_color: None,
            person_bkg: None,
            person_border: None,
            pie0: None,
            pie1: None,
            pie2: None,
            pie3: None,
            pie4: None,
            pie5: None,
            pie6: None,
            pie7: None,
            pie8: None,
            pie9: None,
            pie10: None,
            pie11: None,
            pie12: None,
            pie_legend_text_color: None,
            pie_legend_text_size: None,
            pie_opacity: None,
            pie_outer_stroke_color: None,
            pie_outer_stroke_width: None,
            pie_section_text_color: None,
            pie_section_text_size: None,
            pie_stroke_color: None,
            pie_stroke_width: None,
            pie_title_text_color: None,
            pie_title_text_size: None,
            primary_border_color: None,
            primary_color: None,
            primary_text_color: None,
            quadrant1_fill: None,
            quadrant1_text_fill: None,
            quadrant2_fill: None,
            quadrant2_text_fill: None,
            quadrant3_fill: None,
            quadrant3_text_fill: None,
            quadrant4_fill: None,
            quadrant4_text_fill: None,
            quadrant_external_border_stroke_fill: None,
            quadrant_internal_border_stroke_fill: None,
            quadrant_point_fill: None,
            quadrant_point_text_fill: None,
            quadrant_title_fill: None,
            quadrant_x_axis_text_fill: None,
            quadrant_y_axis_text_fill: None,
            radius: None,
            relation_color: None,
            relation_label_background: None,
            relation_label_color: None,
            requirement_background: None,
            requirement_border_color: None,
            requirement_border_size: None,
            requirement_text_color: None,
            row_even: None,
            row_odd: None,
            scale_label_color: None,
            second_bkg: None,
            secondary_border_color: None,
            secondary_color: None,
            secondary_text_color: None,
            section_bkg_color: None,
            section_bkg_color2: None,
            sequence_number_color: None,
            signal_color: None,
            signal_text_color: None,
            special_state_color: None,
            state_bkg: None,
            state_border: None,
            state_label_color: None,
            stroke_width: None,
            surface0: None,
            surface1: None,
            surface2: None,
            surface3: None,
            surface4: None,
            surface_peer0: None,
            surface_peer1: None,
            surface_peer2: None,
            surface_peer3: None,
            surface_peer4: None,
            tag_label_background: None,
            tag_label_border: None,
            tag_label_color: None,
            tag_label_font_size: None,
            task_bkg_color: None,
            task_border_color: None,
            task_text_clickable_color: None,
            task_text_color: None,
            task_text_dark_color: None,
            task_text_light_color: None,
            task_text_outside_color: None,
            tertiary_border_color: None,
            tertiary_color: None,
            tertiary_text_color: None,
            text: None,
            text_color: None,
            title_color: None,
            today_line_color: None,
            transition_color: None,
            transition_label_color: None,
            use_gradient: None,
            venn1: None,
            venn2: None,
            venn3: None,
            venn4: None,
            venn5: None,
            venn6: None,
            venn7: None,
            venn8: None,
            venn_set_text_color: None,
            venn_title_text_color: None,
            vert_line_color: None,
            packet: None,
            radar: None,
            xy_chart: None,
        }
    }

    /// Overlay `overrides` on top of `self`: any `Some(_)` field in
    /// `overrides` replaces the corresponding field in `self`, leaving `None`
    /// fields untouched, so user-provided keys win. Nested groups are merged
    /// field by field so partial overrides of `radar` / `xy_chart` / `packet`
    /// don't erase the baseline.
    pub fn merge(&mut self, overrides: ThemeVariables)
        ensures
            *final(self) == old(self).merged(overrides),
            final(self).theme_color_limit == (if overrides.theme_color_limit is Some { overrides.theme_color_limit } else { old(self).theme_color_limit }),
            final(self).activation_bkg_color == (if overrides.activation_bkg_color is Some { overrides.activation_bkg_color } else { old(self).activation_bkg_color }),
            final(self).activation_border_color == (if overrides.activation_border_color is Some { overrides.activation_border_color } else { old(self).activation_border_color }),
            final(self).active_task_bkg_color == (if overrides.active_task_bkg_color is Some { overrides.active_task_bkg_color } else { old(self).active_task_bkg_color }),
            final(self).active_task_border_color == (if overrides.active_task_border_color is Some { overrides.active_task_border_color } else { old(self).active_task_border_color }),
            final(self).actor_bkg == (if overrides.actor_bkg is Some { overrides.actor_bkg } else { old(self).actor_bkg }),
            final(self).actor_border == (if overrides.actor_border is Some { overrides.actor_border } else { old(self).actor_border }),
            final(self).actor_line_color == (if overrides.actor_line_color is Some { overrides.actor_line_color } else { old(self).actor_line_color }),
            final(self).actor_text_color == (if overrides.actor_text_color is Some { overrides.actor_text_color } else { old(self).actor_text_color }),
            final(self).alt_background == (if overrides.alt_background is Some { overrides.alt_background } else { old(self).alt_background }),
            final(self).alt_section_bkg_color == (if overrides.alt_section_bkg_color is Some { overrides.alt_section_bkg_color } else { old(self).alt_section_bkg_color }),
            final(self).arch_edge_arrow_color == (if overrides.arch_edge_arrow_color is Some { overrides.arch_edge_arrow_color } else { old(self).arch_edge_arrow_color }),
            final(self).arch_edge_color == (if overrides.arch_edge_color is Some { overrides.arch_edge_color } else { old(self).arch_edge_color }),
            final(self).arch_edge_width == (if overrides.arch_edge_width is Some { overrides.arch_edge_width } else { old(self).arch_edge_width }),
            final(self).arch_group_border_color == (if overrides.arch_group_border_color is Some { overrides.arch_group_border_color } else { old(self).arch_group_border_color }),
            final(self).arch_group_border_width == (if overrides.arch_group_border_width is Some { overrides.arch_group_border_width } else { old(self).arch_group_border_width }),
            final(self).arrowhead_color == (if overrides.arrowhead_color is Some { overrides.arrowhead_color } else { old(self).arrowhead_color }),
            final(self).attribute_background_color_even == (if overrides.attribute_background_color_even is Some { overrides.attribute_background_color_even } else { old(self).attribute_background_color_even }),
            final(self).attribute_background_color_odd == (if overrides.attribute_background_color_odd is Some { overrides.attribute_background_color_odd } else { old(self).attribute_background_color_odd }),
            final(self).background == (if overrides.background is Some { overrides.background } else { old(self).background }),
            final(self).border1 == (if overrides.border1 is Some { overrides.border1 } else { old(self).border1 }),
            final(self).border2 == (if overrides.border2 is Some { overrides.border2 } else { old(self).border2 }),
            final(self).branch_label_color == (if overrides.branch_label_color is Some { overrides.branch_label_color } else { old(self).branch_label_color }),
            final(self).c_scale0 == (if overrides.c_scale0 is Some { overrides.c_scale0 } else { old(self).c_scale0 }),
            final(self).c_scale1 == (if overrides.c_scale1 is Some { overrides.c_scale1 } else { old(self).c_scale1 }),
            final(self).c_scale2 == (if overrides.c_scale2 is Some { overrides.c_scale2 } else { old(self).c_scale2 }),
            final(self).c_scale3 == (if overrides.c_scale3 is Some { overrides.c_scale3 } else { old(self).c_scale3 }),
            final(self).c_scale4 == (if overrides.c_scale4 is Some { overrides.c_scale4 } else { old(self).c_scale4 }),
            final(self).c_scale5 == (if overrides.c_scale5 is Some { overrides.c_scale5 } else { old(self).c_scale5 }),
            final(self).c_scale6 == (if overrides.c_scale6 is Some { overrides.c_scale6 } else { old(self).c_scale6 }),
            final(self).c_scale7 == (if overrides.c_scale7 is Some { overrides.c_scale7 } else { old(self).c_scale7 }),
            final(self).c_scale8 == (if overrides.c_scale8 is Some { overrides.c_scale8 } else { old(self).c_scale8 }),
            final(self).c_scale9 == (if overrides.c_scale9 is Some { overrides.c_scale9 } else { old(self).c_scale9 }),
            final(self).c_scale10 == (if overrides.c_scale10 is Some { overrides.c_scale10 } else { old(self).c_scale10 }),
            final(self).c_scale11 == (if overrides.c_scale11 is Some { overrides.c_scale11 } else { old(self).c_scale11 }),
            final(self).c_scale12 == (if overrides.c_scale12 is Some { overrides.c_scale12 } else { old(self).c_scale12 }),
            final(self).c_scale_inv0 == (if overrides.c_scale_inv0 is Some { overrides.c_scale_inv0 } else { old(self).c_scale_inv0 }),
            final(self).c_scale_inv1 == (if overrides.c_scale_inv1 is Some { overrides.c_scale_inv1 } else { old(self).c_scale_inv1 }),
            final(self).c_scale_inv2 == (if overrides.c_scale_inv2 is Some { overrides.c_scale_inv2 } else { old(self).c_scale_inv2 }),
            final(self).c_scale_inv3 == (if overrides.c_scale_inv3 is Some { overrides.c_scale_inv3 } else { old(self).c_scale_inv3 }),
            final(self).c_scale_inv4 == (if overrides.c_scale_inv4 is Some { overrides.c_scale_inv4 } else { old(self).c_scale_inv4 }),
            final(self).c_scale_inv5 == (if overrides.c_scale_inv5 is Some { overrides.c_scale_inv5 } else { old(self).c_scale_inv5 }),
            final(self).c_scale_inv6 == (if overrides.c_scale_inv6 is Some { overrides.c_scale_inv6 } else { old(self).c_scale_inv6 }),
            final(self).c_scale_inv7 == (if overrides.c_scale_inv7 is Some { overrides.c_scale_inv7 } else { old(self).c_scale_inv7 }),
            final(self).c_scale_inv8 == (if overrides.c_scale_inv8 is Some { overrides.c_scale_inv8 } else { old(self).c_scale_inv8 }),
            final(self).c_scale_inv9 == (if overrides.c_scale_inv9 is Some { overrides.c_scale_inv9 } else { old(self).c_scale_inv9 }),
            final(self).c_scale_inv10 == (if overrides.c_scale_inv10 is Some { overrides.c_scale_inv10 } else { old(self).c_scale_inv10 }),
            final(self).c_scale_inv11 == (if overrides.c_scale_inv11 is Some { overrides.c_scale_inv11 } else { old(self).c_scale_inv11 }),
            final(self).c_scale_label0 == (if overrides.c_scale_label0 is Some { overrides.c_scale_label0 } else { old(self).c_scale_label0 }),
            final(self).c_scale_label1 == (if overrides.c_scale_label1 is Some { overrides.c_scale_label1 } else { old(self).c_scale_label1 }),
            final(self).c_scale_label2 == (if overrides.c_scale_label2 is Some { overrides.c_scale_label2 } else { old(self).c_scale_label2 }),
            final(self).c_scale_label3 == (if overrides.c_scale_label3 is Some { overrides.c_scale_label3 } else { old(self).c_scale_label3 }),
            final(self).c_scale_label4 == (if overrides.c_scale_label4 is Some { overrides.c_scale_label4 } else { old(self).c_scale_label4 }),
            final(self).c_scale_label5 == (if overrides.c_scale_label5 is Some { overrides.c_scale_label5 } else { old(self).c_scale_label5 }),
            final(self).c_scale_label6 == (if overrides.c_scale_label6 is Some { overrides.c_scale_label6 } else { old(self).c_scale_label6 }),
            final(self).c_scale_label7 == (if overrides.c_scale_label7 is Some { overrides.c_scale_label7 } else { old(self).c_scale_label7 }),
            final(self).c_scale_label8 == (if overrides.c_scale_label8 is Some { overrides.c_scale_label8 } else { old(self).c_scale_label8 }),
            final(self).c_scale_label9 == (if overrides.c_scale_label9 is Some { overrides.c_scale_label9 } else { old(self).c_scale_label9 }),
            final(self).c_scale_label10 == (if overrides.c_scale_label10 is Some { overrides.c_scale_label10 } else { old(self).c_scale_label10 }),
            final(self).c_scale_label11 == (if overrides.c_scale_label11 is Some { overrides.c_scale_label11 } else { old(self).c_scale_label11 }),
            final(self).c_scale_peer0 == (if overrides.c_scale_peer0 is Some { overrides.c_scale_peer0 } else { old(self).c_scale_peer0 }),
            final(self).c_scale_peer1 == (if overrides.c_scale_peer1 is Some { overrides.c_scale_peer1 } else { old(self).c_scale_peer1 }),
            final(self).c_scale_peer2 == (if overrides.c_scale_peer2 is Some { overrides.c_scale_peer2 } else { old(self).c_scale_peer2 }),
            final(self).c_scale_peer3 == (if overrides.c_scale_peer3 is Some { overrides.c_scale_peer3 } else { old(self).c_scale_peer3 }),
            final(self).c_scale_peer4 == (if overrides.c_scale_peer4 is Some { overrides.c_scale_peer4 } else { old(self).c_scale_peer4 }),
            final(self).c_scale_peer5 == (if overrides.c_scale_peer5 is Some { overrides.c_scale_peer5 } else { old(self).c_scale_peer5 }),
            final(self).c_scale_peer6 == (if overrides.c_scale_peer6 is Some { overrides.c_scale_peer6 } else { old(self).c_scale_peer6 }),
            final(self).c_scale_peer7 == (if overrides.c_scale_peer7 is Some { overrides.c_scale_peer7 } else { old(self).c_scale_peer7 }),
            final(self).c_scale_peer8 == (if overrides.c_scale_peer8 is Some { overrides.c_scale_peer8 } else { old(self).c_scale_peer8 }),
            final(self).c_scale_peer9 == (if overrides.c_scale_peer9 is Some { overrides.c_scale_peer9 } else { old(self).c_scale_peer9 }),
            final(self).c_scale_peer10 == (if overrides.c_scale_peer10 is Some { overrides.c_scale_peer10 } else { old(self).c_scale_peer10 }),
            final(self).c_scale_peer11 == (if overrides.c_scale_peer11 is Some { overrides.c_scale_peer11 } else { old(self).c_scale_peer11 }),
            final(self).class_text == (if overrides.class_text is Some { overrides.class_text } else { old(self).class_text }),
            final(self).cluster_bkg == (if overrides.cluster_bkg is Some { overrides.cluster_bkg } else { old(self).cluster_bkg }),
            final(self).cluster_border == (if overrides.cluster_border is Some { overrides.cluster_border } else { old(self).cluster_border }),
            final(self).commit_label_background == (if overrides.commit_label_background is Some { overrides.commit_label_background } else { old(self).commit_label_background }),
            final(self).commit_label_color == (if overrides.commit_label_color is Some { overrides.commit_label_color } else { old(self).commit_label_color }),
            final(self).commit_label_font_size == (if overrides.commit_label_font_size is Some { overrides.commit_label_font_size } else { old(self).commit_label_font_size }),
            final(self).composite_background == (if overrides.composite_background is Some { overrides.composite_background } else { old(self).composite_background }),
            final(self).composite_border == (if overrides.composite_border is Some { overrides.composite_border } else { old(self).composite_border }),
            final(self).composite_title_background == (if overrides.composite_title_background is Some { overrides.composite_title_background } else { old(self).composite_title_background }),
            final(self).contrast == (if overrides.contrast is Some { overrides.contrast } else { old(self).contrast }),
            final(self).crit_bkg_color == (if overrides.crit_bkg_color is Some { overrides.crit_bkg_color } else { old(self).crit_bkg_color }),
            final(self).crit_border_color == (if overrides.crit_border_color is Some { overrides.crit_border_color } else { old(self).crit_border_color }),
            final(self).critical == (if overrides.critical is Some { overrides.critical } else { old(self).critical }),
            final(self).dark_text_color == (if overrides.dark_text_color is Some { overrides.dark_text_color } else { old(self).dark_text_color }),
            final(self).default_link_color == (if overrides.default_link_color is Some { overrides.default_link_color } else { old(self).default_link_color }),
            final(self).done == (if overrides.done is Some { overrides.done } else { old(self).done }),
            final(self).done_task_bkg_color == (if overrides.done_task_bkg_color is Some { overrides.done_task_bkg_color } else { old(self).done_task_bkg_color }),
            final(self).done_task_border_color == (if overrides.done_task_border_color is Some { overrides.done_task_border_color } else { old(self).done_task_border_color }),
            final(self).drop_shadow == (if overrides.drop_shadow is Some { overrides.drop_shadow } else { old(self).drop_shadow }),
            final(self).edge_label_background == (if overrides.edge_label_background is Some { overrides.edge_label_background } else { old(self).edge_label_background }),
            final(self).error_bkg_color == (if overrides.error_bkg_color is Some { overrides.error_bkg_color } else { old(self).error_bkg_color }),
            final(self).error_text_color == (if overrides.error_text_color is Some { overrides.error_text_color } else { old(self).error_text_color }),
            final(self).exclude_bkg_color == (if overrides.exclude_bkg_color is Some { overrides.exclude_bkg_color } else { old(self).exclude_bkg_color }),
            final(self).fill_type0 == (if overrides.fill_type0 is Some { overrides.fill_type0 } else { old(self).fill_type0 }),
            final(self).fill_type1 == (if overrides.fill_type1 is Some { overrides.fill_type1 } else { old(self).fill_type1 }),
            final(self).fill_type2 == (if overrides.fill_type2 is Some { overrides.fill_type2 } else { old(self).fill_type2 }),
            final(self).fill_type3 == (if overrides.fill_type3 is Some { overrides.fill_type3 } else { old(self).fill_type3 }),
            final(self).fill_type4 == (if overrides.fill_type4 is Some { overrides.fill_type4 } else { old(self).fill_type4 }),
            final(self).fill_type5 == (if overrides.fill_type5 is Some { overrides.fill_type5 } else { old(self).fill_type5 }),
            final(self).fill_type6 == (if overrides.fill_type6 is Some { overrides.fill_type6 } else { old(self).fill_type6 }),
            final(self).fill_type7 == (if overrides.fill_type7 is Some { overrides.fill_type7 } else { old(self).fill_type7 }),
            final(self).font_family == (if overrides.font_family is Some { overrides.font_family } else { old(self).font_family }),
            final(self).font_size == (if overrides.font_size is Some { overrides.font_size } else { old(self).font_size }),
            final(self).font_weight == (if overrides.font_weight is Some { overrides.font_weight } else { old(self).font_weight }),
            final(self).git0 == (if overrides.git0 is Some { overrides.git0 } else { old(self).git0 }),
            final(self).git1 == (if overrides.git1 is Some { overrides.git1 } else { old(self).git1 }),
            final(self).git2 == (if overrides.git2 is Some { overrides.git2 } else { old(self).git2 }),
            final(self).git3 == (if overrides.git3 is Some { overrides.git3 } else { old(self).git3 }),
            final(self).git4 == (if overrides.git4 is Some { overrides.git4 } else { old(self).git4 }),
            final(self).git5 == (if overrides.git5 is Some { overrides.git5 } else { old(self).git5 }),
            final(self).git6 == (if overrides.git6 is Some { overrides.git6 } else { old(self).git6 }),
            final(self).git7 == (if overrides.git7 is Some { overrides.git7 } else { old(self).git7 }),
            final(self).git_branch_label0 == (if overrides.git_branch_label0 is Some { overrides.git_branch_label0 } else { old(self).git_branch_label0 }),
            final(self).git_branch_label1 == (if overrides.git_branch_label1 is Some { overrides.git_branch_label1 } else { old(self).git_branch_label1 }),
            final(self).git_branch_label2 == (if overrides.git_branch_label2 is Some { overrides.git_branch_label2 } else { old(self).git_branch_label2 }),
            final(self).git_branch_label3 == (if overrides.git_branch_label3 is Some { overrides.git_branch_label3 } else { old(self).git_branch_label3 }),
            final(self).git_branch_label4 == (if overrides.git_branch_label4 is Some { overrides.git_branch_label4 } else { old(self).git_branch_label4 }),
            final(self).git_branch_label5 == (if overrides.git_branch_label5 is Some { overrides.git_branch_label5 } else { old(self).git_branch_label5 }),
            final(self).git_branch_label6 == (if overrides.git_branch_label6 is Some { overrides.git_branch_label6 } else { old(self).git_branch_label6 }),
            final(self).git_branch_label7 == (if overrides.git_branch_label7 is Some { overrides.git_branch_label7 } else { old(self).git_branch_label7 }),
            final(self).git_inv0 == (if overrides.git_inv0 is Some { overrides.git_inv0 } else { old(self).git_inv0 }),
            final(self).git_inv1 == (if overrides.git_inv1 is Some { overrides.git_inv1 } else { old(self).git_inv1 }),
            final(self).git_inv2 == (if overrides.git_inv2 is Some { overrides.git_inv2 } else { old(self).git_inv2 }),
            final(self).git_inv3 == (if overrides.git_inv3 is Some { overrides.git_inv3 } else { old(self).git_inv3 }),
            final(self).git_inv4 == (if overrides.git_inv4 is Some { overrides.git_inv4 } else { old(self).git_inv4 }),
            final(self).git_inv5 == (if overrides.git_inv5 is Some { overrides.git_inv5 } else { old(self).git_inv5 }),
            final(self).git_inv6 == (if overrides.git_inv6 is Some { overrides.git_inv6 } else { old(self).git_inv6 }),
            final(self).git_inv7 == (if overrides.git_inv7 is Some { overrides.git_inv7 } else { old(self).git_inv7 }),
            final(self).gradient_start == (if overrides.gradient_start is Some { overrides.gradient_start } else { old(self).gradient_start }),
            final(self).gradient_stop == (if overrides.gradient_stop is Some { overrides.gradient_stop } else { old(self).gradient_stop }),
            final(self).grid_color == (if overrides.grid_color is Some { overrides.grid_color } else { old(self).grid_color }),
            final(self).inner_end_background == (if overrides.inner_end_background is Some { overrides.inner_end_background } else { old(self).inner_end_background }),
            final(self).label_background == (if overrides.label_background is Some { overrides.label_background } else { old(self).label_background }),
            final(self).label_background_color == (if overrides.label_background_color is Some { overrides.label_background_color } else { old(self).label_background_color }),
            final(self).label_box_bkg_color == (if overrides.label_box_bkg_color is Some { overrides.label_box_bkg_color } else { old(self).label_box_bkg_color }),
            final(self).label_box_border_color == (if overrides.label_box_border_color is Some { overrides.label_box_border_color } else { old(self).label_box_border_color }),
            final(self).label_color == (if overrides.label_color is Some { overrides.label_color } else { old(self).label_color }),
            final(self).label_text_color == (if overrides.label_text_color is Some { overrides.label_text_color } else { old(self).label_text_color }),
            final(self).line_color == (if overrides.line_color is Some { overrides.line_color } else { old(self).line_color }),
            final(self).loop_text_color == (if overrides.loop_text_color is Some { overrides.loop_text_color } else { old(self).loop_text_color }),
            final(self).main_bkg == (if overrides.main_bkg is Some { overrides.main_bkg } else { old(self).main_bkg }),
            final(self).main_contrast_color == (if overrides.main_contrast_color is Some { overrides.main_contrast_color } else { old(self).main_contrast_color }),
            final(self).node_bkg == (if overrides.node_bkg is Some { overrides.node_bkg } else { old(self).node_bkg }),
            final(self).node_border == (if overrides.node_border is Some { overrides.node_border } else { old(self).node_border }),
            final(self).node_text_color == (if overrides.node_text_color is Some { overrides.node_text_color } else { old(self).node_text_color }),
            final(self).note == (if overrides.note is Some { overrides.note } else { old(self).note }),
            final(self).note_bkg_color == (if overrides.note_bkg_color is Some { overrides.note_bkg_color } else { old(self).note_bkg_color }),
            final(self).note_border_color == (if overrides.note_border_color is Some { overrides.note_border_color } else { old(self).note_border_color }),
            final(self).note_font_weight == (if overrides.note_font_weight is Some { overrides.note_font_weight } else { old(self).note_font_weight }),
            final(self).note_text_color == (if overrides.note_text_color is Some { overrides.note_text_color } else { old(self).note_text_color }),
            final(self).person_bkg == (if overrides.person_bkg is Some { overrides.person_bkg } else { old(self).person_bkg }),
            final(self).person_border == (if overrides.person_border is Some { overrides.person_border } else { old(self).person_border }),
            final(self).pie0 == (if overrides.pie0 is Some { overrides.pie0 } else { old(self).pie0 }),
            final(self).pie1 == (if overrides.pie1 is Some { overrides.pie1 } else { old(self).pie1 }),
            final(self).pie2 == (if overrides.pie2 is Some { overrides.pie2 } else { old(self).pie2 }),
            final(self).pie3 == (if overrides.pie3 is Some { overrides.pie3 } else { old(self).pie3 }),
            final(self).pie4 == (if overrides.pie4 is Some { overrides.pie4 } else { old(self).pie4 }),
            final(self).pie5 == (if overrides.pie5 is Some { overrides.pie5 } else { old(self).pie5 }),
            final(self).pie6 == (if overrides.pie6 is Some { overrides.pie6 } else { old(self).pie6 }),
            final(self).pie7 == (if overrides.pie7 is Some { overrides.pie7 } else { old(self).pie7 }),
            final(self).pie8 == (if overrides.pie8 is Some { overrides.pie8 } else { old(self).pie8 }),
            final(self).pie9 == (if overrides.pie9 is Some { overrides.pie9 } else { old(self).pie9 }),
            final(self).pie10 == (if overrides.pie10 is Some { overrides.pie10 } else { old(self).pie10 }),
            final(self).pie11 == (if overrides.pie11 is Some { overrides.pie11 } else { old(self).pie11 }),
            final(self).pie12 == (if overrides.pie12 is Some { overrides.pie12 } else { old(self).pie12 }),
            final(self).pie_legend_text_color == (if overrides.pie_legend_text_color is Some { overrides.pie_legend_text_color } else { old(self).pie_legend_text_color }),
            final(self).pie_legend_text_size == (if overrides.pie_legend_text_size is Some { overrides.pie_legend_text_size } else { old(self).pie_legend_text_size }),
            final(self).pie_opacity == (if overrides.pie_opacity is Some { overrides.pie_opacity } else { old(self).pie_opacity }),
            final(self).pie_outer_stroke_color == (if overrides.pie_outer_stroke_color is Some { overrides.pie_outer_stroke_color } else { old(self).pie_outer_stroke_color }),
            final(self).pie_outer_stroke_width == (if overrides.pie_outer_stroke_width is Some { overrides.pie_outer_stroke_width } else { old(self).pie_outer_stroke_width }),
            final(self).pie_section_text_color == (if overrides.pie_section_text_color is Some { overrides.pie_section_text_color } else { old(self).pie_section_text_color }),
            final(self).pie_section_text_size == (if overrides.pie_section_text_size is Some { overrides.pie_section_text_size } else { old(self).pie_section_text_size }),
            final(self).pie_stroke_color == (if overrides.pie_stroke_color is Some { overrides.pie_stroke_color } else { old(self).pie_stroke_color }),
            final(self).pie_stroke_width == (if overrides.pie_stroke_width is Some { overrides.pie_stroke_width } else { old(self).pie_stroke_width }),
            final(self).pie_title_text_color == (if overrides.pie_title_text_color is Some { overrides.pie_title_text_color } else { old(self).pie_title_text_color }),
            final(self).pie_title_text_size == (if overrides.pie_title_text_size is Some { overrides.pie_title_text_size } else { old(self).pie_title_text_size }),
            final(self).primary_border_color == (if overrides.primary_border_color is Some { overrides.primary_border_color } else { old(self).primary_border_color }),
            final(self).primary_color == (if overrides.primary_color is Some { overrides.primary_color } else { old(self).primary_color }),
            final(self).primary_text_color == (if overrides.primary_text_color is Some { overrides.primary_text_color } else { old(self).primary_text_color }),
            final(self).quadrant1_fill == (if overrides.quadrant1_fill is Some { overrides.quadrant1_fill } else { old(self).quadrant1_fill }),
            final(self).quadrant1_text_fill == (if overrides.quadrant1_text_fill is Some { overrides.quadrant1_text_fill } else { old(self).quadrant1_text_fill }),
            final(self).quadrant2_fill == (if overrides.quadrant2_fill is Some { overrides.quadrant2_fill } else { old(self).quadrant2_fill }),
            final(self).quadrant2_text_fill == (if overrides.quadrant2_text_fill is Some { overrides.quadrant2_text_fill } else { old(self).quadrant2_text_fill }),
            final(self).quadrant3_fill == (if overrides.quadrant3_fill is Some { overrides.quadrant3_fill } else { old(self).quadrant3_fill }),
            final(self).quadrant3_text_fill == (if overrides.quadrant3_text_fill is Some { overrides.quadrant3_text_fill } else { old(self).quadrant3_text_fill }),
            final(self).quadrant4_fill == (if overrides.quadrant4_fill is Some { overrides.quadrant4_fill } else { old(self).quadrant4_fill }),
            final(self).quadrant4_text_fill == (if overrides.quadrant4_text_fill is Some { overrides.quadrant4_text_fill } else { old(self).quadrant4_text_fill }),
            final(self).quadrant_external_border_stroke_fill == (if overrides.quadrant_external_border_stroke_fill is Some { overrides.quadrant_external_border_stroke_fill } else { old(self).quadrant_external_border_stroke_fill }),
            final(self).quadrant_internal_border_stroke_fill == (if overrides.quadrant_internal_border_stroke_fill is Some { overrides.quadrant_internal_border_stroke_fill } else { old(self).quadrant_internal_border_stroke_fill }),
            final(self).quadrant_point_fill == (if overrides.quadrant_point_fill is Some { overrides.quadrant_point_fill } else { old(self).quadrant_point_fill }),
            final(self).quadrant_point_text_fill == (if overrides.quadrant_point_text_fill is Some { overrides.quadrant_point_text_fill } else { old(self).quadrant_point_text_fill }),
            final(self).quadrant_title_fill == (if overrides.quadrant_title_fill is Some { overrides.quadrant_title_fill } else { old(self).quadrant_title_fill }),
            final(self).quadrant_x_axis_text_fill == (if overrides.quadrant_x_axis_text_fill is Some { overrides.quadrant_x_axis_text_fill } else { old(self).quadrant_x_axis_text_fill }),
            final(self).quadrant_y_axis_text_fill == (if overrides.quadrant_y_axis_text_fill is Some { overrides.quadrant_y_axis_text_fill } else { old(self).quadrant_y_axis_text_fill }),
            final(self).radius == (if overrides.radius is Some { overrides.radius } else { old(self).radius }),
            final(self).relation_color == (if overrides.relation_color is Some { overrides.relation_color } else { old(self).relation_color }),
            final(self).relation_label_background == (if overrides.relation_label_background is Some { overrides.relation_label_background } else { old(self).relation_label_background }),
            final(self).relation_label_color == (if overrides.relation_label_color is Some { overrides.relation_label_color } else { old(self).relation_label_color }),
            final(self).requirement_background == (if overrides.requirement_background is Some { overrides.requirement_background } else { old(self).requirement_background }),
            final(self).requirement_border_color == (if overrides.requirement_border_color is Some { overrides.requirement_border_color } else { old(self).requirement_border_color }),
            final(self).requirement_border_size == (if overrides.requirement_border_size is Some { overrides.requirement_border_size } else { old(self).requirement_border_size }),
            final(self).requirement_text_color == (if overrides.requirement_text_color is Some { overrides.requirement_text_color } else { old(self).requirement_text_color }),
            final(self).row_even == (if overrides.row_even is Some { overrides.row_even } else { old(self).row_even }),
            final(self).row_odd == (if overrides.row_odd is Some { overrides.row_odd } else { old(self).row_odd }),
            final(self).scale_label_color == (if overrides.scale_label_color is Some { overrides.scale_label_color } else { old(self).scale_label_color }),
            final(self).second_bkg == (if overrides.second_bkg is Some { overrides.second_bkg } else { old(self).second_bkg }),
            final(self).secondary_border_color == (if overrides.secondary_border_color is Some { overrides.secondary_border_color } else { old(self).secondary_border_color }),
            final(self).secondary_color == (if overrides.secondary_color is Some { overrides.secondary_color } else { old(self).secondary_color }),
            final(self).secondary_text_color == (if overrides.secondary_text_color is Some { overrides.secondary_text_color } else { old(self).secondary_text_color }),
            final(self).section_bkg_color == (if overrides.section_bkg_color is Some { overrides.section_bkg_color } else { old(self).section_bkg_color }),
            final(self).section_bkg_color2 == (if overrides.section_bkg_color2 is Some { overrides.section_bkg_color2 } else { old(self).section_bkg_color2 }),
            final(self).sequence_number_color == (if overrides.sequence_number_color is Some { overrides.sequence_number_color } else { old(self).sequence_number_color }),
            final(self).signal_color == (if overrides.signal_color is Some { overrides.signal_color } else { old(self).signal_color }),
            final(self).signal_text_color == (if overrides.signal_text_color is Some { overrides.signal_text_color } else { old(self).signal_text_color }),
            final(self).special_state_color == (if overrides.special_state_color is Some { overrides.special_state_color } else { old(self).special_state_color }),
            final(self).state_bkg == (if overrides.state_bkg is Some { overrides.state_bkg } else { old(self).state_bkg }),
            final(self).state_border == (if overrides.state_border is Some { overrides.state_border } else { old(self).state_border }),
            final(self).state_label_color == (if overrides.state_label_color is Some { overrides.state_label_color } else { old(self).state_label_color }),
            final(self).stroke_width == (if overrides.stroke_width is Some { overrides.stroke_width } else { old(self).stroke_width }),
            final(self).surface0 == (if overrides.surface0 is Some { overrides.surface0 } else { old(self).surface0 }),
            final(self).surface1 == (if overrides.surface1 is Some { overrides.surface1 } else { old(self).surface1 }),
            final(self).surface2 == (if overrides.surface2 is Some { overrides.surface2 } else { old(self).surface2 }),
            final(self).surface3 == (if overrides.surface3 is Some { overrides.surface3 } else { old(self).surface3 }),
            final(self).surface4 == (if overrides.surface4 is Some { overrides.surface4 } else { old(self).surface4 }),
            final(self).surface_peer0 == (if overrides.surface_peer0 is Some { overrides.surface_peer0 } else { old(self).surface_peer0 }),
            final(self).surface_peer1 == (if overrides.surface_peer1 is Some { overrides.surface_peer1 } else { old(self).surface_peer1 }),
            final(self).surface_peer2 == (if overrides.surface_peer2 is Some { overrides.surface_peer2 } else { old(self).surface_peer2 }),
            final(self).surface_peer3 == (if overrides.surface_peer3 is Some { overrides.surface_peer3 } else { old(self).surface_peer3 }),
            final(self).surface_peer4 == (if overrides.surface_peer4 is Some { overrides.surface_peer4 } else { old(self).surface_peer4 }),
            final(self).tag_label_background == (if overrides.tag_label_background is Some { overrides.tag_label_background } else { old(self).tag_label_background }),
            final(self).tag_label_border == (if overrides.tag_label_border is Some { overrides.tag_label_border } else { old(self).tag_label_border }),
            final(self).tag_label_color == (if overrides.tag_label_color is Some { overrides.tag_label_color } else { old(self).tag_label_color }),
            final(self).tag_label_font_size == (if overrides.tag_label_font_size is Some { overrides.tag_label_font_size } else { old(self).tag_label_font_size }),
            final(self).task_bkg_color == (if overrides.task_bkg_color is Some { overrides.task_bkg_color } else { old(self).task_bkg_color }),
            final(self).task_border_color == (if overrides.task_border_color is Some { overrides.task_border_color } else { old(self).task_border_color }),
            final(self).task_text_clickable_color == (if overrides.task_text_clickable_color is Some { overrides.task_text_clickable_color } else { old(self).task_text_clickable_color }),
            final(self).task_text_color == (if overrides.task_text_color is Some { overrides.task_text_color } else { old(self).task_text_color }),
            final(self).task_text_dark_color == (if overrides.task_text_dark_color is Some { overrides.task_text_dark_color } else { old(self).task_text_dark_color }),
            final(self).task_text_light_color == (if overrides.task_text_light_color is Some { overrides.task_text_light_color } else { old(self).task_text_light_color }),
            final(self).task_text_outside_color == (if overrides.task_text_outside_color is Some { overrides.task_text_outside_color } else { old(self).task_text_outside_color }),
            final(self).tertiary_border_color == (if overrides.tertiary_border_color is Some { overrides.tertiary_border_color } else { old(self).tertiary_border_color }),
            final(self).tertiary_color == (if overrides.tertiary_color is Some { overrides.tertiary_color } else { old(self).tertiary_color }),
            final(self).tertiary_text_color == (if overrides.tertiary_text_color is Some { overrides.tertiary_text_color } else { old(self).tertiary_text_color }),
            final(self).text == (if overrides.text is Some { overrides.text } else { old(self).text }),
            final(self).text_color == (if overrides.text_color is Some { overrides.text_color } else { old(self).text_color }),
            final(self).title_color == (if overrides.title_color is Some { overrides.title_color } else { old(self).title_color }),
            final(self).today_line_color == (if overrides.today_line_color is Some { overrides.today_line_color } else { old(self).today_line_color }),
            final(self).transition_color == (if overrides.transition_color is Some { overrides.transition_color } else { old(self).transition_color }),
            final(self).transition_label_color == (if overrides.transition_label_color is Some { overrides.transition_label_color } else { old(self).transition_label_color }),
            final(self).use_gradient == (if overrides.use_gradient is Some { overrides.use_gradient } else { old(self).use_gradient }),
            final(self).venn1 == (if overrides.venn1 is Some { overrides.venn1 } else { old(self).venn1 }),
            final(self).venn2 == (if overrides.venn2 is Some { overrides.venn2 } else { old(self).venn2 }),
            final(self).venn3 == (if overrides.venn3 is Some { overrides.venn3 } else { old(self).venn3 }),
            final(self).venn4 == (if overrides.venn4 is Some { overrides.venn4 } else { old(self).venn4 }),
            final(self).venn5 == (if overrides.venn5 is Some { overrides.venn5 } else { old(self).venn5 }),
            final(self).venn6 == (if overrides.venn6 is Some { overrides.venn6 } else { old(self).venn6 }),
            final(self).venn7 == (if overrides.venn7 is Some { overrides.venn7 } else { old(self).venn7 }),
            final(self).venn8 == (if overrides.venn8 is Some { overrides.venn8 } else { old(self).venn8 }),
            final(self).venn_set_text_color == (if overrides.venn_set_text_color is Some { overrides.venn_set_text_color } else { old(self).venn_set_text_color }),
            final(self).venn_title_text_color == (if overrides.venn_title_text_color is Some { overrides.venn_title_text_color } else { old(self).venn_title_text_color }),
            final(self).vert_line_color == (if overrides.vert_line_color is Some { overrides.vert_line_color } else { old(self).vert_line_color }),
            overrides.packet is None ==> final(self).packet == old(self).packet,
            overrides.packet is Some ==> final(self).packet is Some,
            overrides.packet is Some ==> final(self).packet->0.block_fill_color == (if overrides.packet->0.block_fill_color is Some { overrides.packet->0.block_fill_color } else if old(self).packet is Some { old(self).packet->0.block_fill_color } else { None }),
            overrides.packet is Some ==> final(self).packet->0.block_stroke_color == (if overrides.packet->0.block_stroke_color is Some { overrides.packet->0.block_stroke_color } else if old(self).packet is Some { old(self).packet->0.block_stroke_color } else { None }),
            overrides.packet is Some ==> final(self).packet->0.end_byte_color == (if overrides.packet->0.end_byte_color is Some { overrides.packet->0.end_byte_color } else if old(self).packet is Some { old(self).packet->0.end_byte_color } else { None }),
            overrides.packet is Some ==> final(self).packet->0.label_color == (if overrides.packet->0.label_color is Some { overrides.packet->0.label_color } else if old(self).packet is Some { old(self).packet->0.label_color } else { None }),
            overrides.packet is Some ==> final(self).packet->0.start_byte_color == (if overrides.packet->0.start_byte_color is Some { overrides.packet->0.start_byte_color } else if old(self).packet is Some { old(self).packet->0.start_byte_color } else { None }),
            overrides.packet is Some ==> final(self).packet->0.title_color == (if overrides.packet->0.title_color is Some { overrides.packet->0.title_color } else if old(self).packet is Some { old(self).packet->0.title_color } else { None }),
            overrides.radar is None ==> final(self).radar == old(self).radar,
            overrides.radar is Some ==> final(self).radar is Some,
            overrides.radar is Some ==> final(self).radar->0.axis_color == (if overrides.radar->0.axis_color is Some { overrides.radar->0.axis_color } else if old(self).radar is Some { old(self).radar->0.axis_color } else { None }),
            overrides.radar is Some ==> final(self).radar->0.axis_label_font_size == (if overrides.radar->0.axis_label_font_size is Some { overrides.radar->0.axis_label_font_size } else if old(self).radar is Some { old(self).radar->0.axis_label_font_size } else { None }),
            overrides.radar is Some ==> final(self).radar->0.axis_stroke_width == (if overrides.radar->0.axis_stroke_width is Some { overrides.radar->0.axis_stroke_width } else if old(self).radar is Some { old(self).radar->0.axis_stroke_width } else { None }),
            overrides.radar is Some ==> final(self).radar->0.curve_opacity == (if overrides.radar->0.curve_opacity is Some { overrides.radar->0.curve_opacity } else if old(self).radar is Some { old(self).radar->0.curve_opacity } else { None }),
            overrides.radar is Some ==> final(self).radar->0.curve_stroke_width == (if overrides.radar->0.curve_stroke_width is Some { overrides.radar->0.curve_stroke_width } else if old(self).radar is Some { old(self).radar->0.curve_stroke_width } else { None }),
            overrides.radar is Some ==> final(self).radar->0.graticule_color == (if overrides.radar->0.graticule_color is Some { overrides.radar->0.graticule_color } else if old(self).radar is Some { old(self).radar->0.graticule_color } else { None }),
            overrides.radar is Some ==> final(self).radar->0.graticule_opacity == (if overrides.radar->0.graticule_opacity is Some { overrides.radar->0.graticule_opacity } else if old(self).radar is Some { old(self).radar->0.graticule_opacity } else { None }),
            overrides.radar is Some ==> final(self).radar->0.graticule_stroke_width == (if overrides.radar->0.graticule_stroke_width is Some { overrides.radar->0.graticule_stroke_width } else if old(self).radar is Some { old(self).radar->0.graticule_stroke_width } else { None }),
            overrides.radar is Some ==> final(self).radar->0.legend_box_size == (if overrides.radar->0.legend_box_size is Some { overrides.radar->0.legend_box_size } else if old(self).radar is Some { old(self).radar->0.legend_box_size } else { None }),
            overrides.radar is Some ==> final(self).radar->0.legend_font_size == (if overrides.radar->0.legend_font_size is Some { overrides.radar->0.legend_font_size } else if old(self).radar is Some { old(self).radar->0.legend_font_size } else { None }),
            overrides.xy_chart is None ==> final(self).xy_chart == old(self).xy_chart,
            overrides.xy_chart is Some ==> final(self).xy_chart is Some,
            overrides.xy_chart is Some ==> final(self).xy_chart->0.background_color == (if overrides.xy_chart->0.background_color is Some { overrides.xy_chart->0.background_color } else if old(self).xy_chart is Some { old(self).xy_chart->0.background_color } else { None }),
            overrides.xy_chart is Some ==> final(self).xy_chart->0.data_label_color == (if overrides.xy_chart->0.data_label_color is Some { overrides.xy_chart->0.data_label_color } else if old(self).xy_chart is Some { old(self).xy_chart->0.data_label_color } else { None }),
            overrides.xy_chart is Some ==> final(self).xy_chart->0.plot_color_palette == (if overrides.xy_chart->0.plot_color_palette is Some { overrides.xy_chart->0.plot_color_palette } else if old(self).xy_chart is Some { old(self).xy_chart->0.plot_color_palette } else { None }),
            overrides.xy_chart is Some ==> final(self).xy_chart->0.title_color == (if overrides.xy_chart->0.title_color is Some { overrides.xy_chart->0.title_color } else if old(self).xy_chart is Some { old(self).xy_chart->0.title_color } else { None }),
            overrides.xy_chart is Some ==> final(self).xy_chart->0.x_axis_label_color == (if overrides.xy_chart->0.x_axis_label_color is Some { overrides.xy_chart->0.x_axis_label_color } else if old(self).xy_chart is Some { old(self).xy_chart->0.x_axis_label_color } else { None }),
            overrides.xy_chart is Some ==> final(self).xy_chart->0.x_axis_line_color == (if overrides.xy_chart->0.x_axis_line_color is Some { overrides.xy_chart->0.x_axis_line_color } else if old(self).xy_chart is Some { old(self).xy_chart->0.x_axis_line_color } else { None }),
            overrides.xy_chart is Some ==> final(self).xy_chart->0.x_axis_tick_color == (if overrides.xy_chart->0.x_axis_tick_color is Some { overrides.xy_chart->0.x_axis_tick_color } else if old(self).xy_chart is Some { old(self).xy_chart->0.x_axis_tick_color } else { None }),
            overrides.xy_chart is Some ==> final(self).xy_chart->0.x_axis_title_color == (if overrides.xy_chart->0.x_axis_title_color is Some { overrides.xy_chart->0.x_axis_title_color } else if old(self).xy_chart is Some { old(self).xy_chart->0.x_axis_title_color } else { None }),
            overrides.xy_chart is Some ==> final(self).xy_chart->0.y_axis_label_color == (if overrides.xy_chart->0.y_axis_label_color is Some { overrides.xy_chart->0.y_axis_label_color } else if old(self).xy_chart is Some { old(self).xy_chart->0.y_axis_label_color } else { None }),
            overrides.xy_chart is Some ==> final(self).xy_chart->0.y_axis_line_color == (if overrides.xy_chart->0.y_axis_line_color is Some { overrides.xy_chart->0.y_axis_line_color } else if old(self).xy_chart is Some { old(self).xy_chart->0.y_axis_line_color } else { None }),
            overrides.xy_chart is Some ==> final(self).xy_chart->0.y_axis_tick_color == (if overrides.xy_chart->0.y_axis_tick_color is Some { overrides.xy_chart->0.y_axis_tick_color } else if old(self).xy_chart is Some { old(self).xy_chart->0.y_axis_tick_color } else { None }),
            overrides.xy_chart is Some ==> final(self).xy_chart->0.y_axis_title_color == (if overrides.xy_chart->0.y_axis_title_color is Some { overrides.xy_chart->0.y_axis_title_color } else if old(self).xy_chart is Some { old(self).xy_chart->0.y_axis_title_color } else { None }),
    {
        let mut base = ThemeVariables::new();
        std::mem::swap(self, &mut base);
        let o = overrides;
        *self = ThemeVariables {
            theme_color_limit: overlay_opt(base.theme_color_limit, o.theme_color_limit),
            activation_bkg_color: overlay_opt(base.activation_bkg_color, o.activation_bkg_color),
            activation_border_color: overlay_opt(base.activation_border_color, o.activation_border_color),
            active_task_bkg_color: overlay_opt(base.active_task_bkg_color, o.active_task_bkg_color),
            active_task_border_color: overlay_opt(base.active_task_border_color, o.active_task_border_color),
            actor_bkg: overlay_opt(base.actor_bkg, o.actor_bkg),
            actor_border: overlay_opt(base.actor_border, o.actor_border),
            actor_line_color: overlay_opt(base.actor_line_color, o.actor_line_color),
            actor_text_color: overlay_opt(base.actor_text_color, o.actor_text_color),
            alt_background: overlay_opt(base.alt_background, o.alt_background),
            alt_section_bkg_color: overlay_opt(base.alt_section_bkg_color, o.alt_section_bkg_color),
            arch_edge_arrow_color: overlay_opt(base.arch_edge_arrow_color, o.arch_edge_arrow_color),
            arch_edge_color: overlay_opt(base.arch_edge_color, o.arch_edge_color),
            arch_edge_width: overlay_opt(base.arch_edge_width, o.arch_edge_width),
            arch_group_border_color: overlay_opt(base.arch_group_border_color, o.arch_group_border_color),
            arch_group_border_width: overlay_opt(base.arch_group_border_width, o.arch_group_border_width),
            arrowhead_color: overlay_opt(base.arrowhead_color, o.arrowhead_color),
            attribute_background_color_even: overlay_opt(base.attribute_background_color_even, o.attribute_background_color_even),
            attribute_background_color_odd: overlay_opt(base.attribute_background_color_odd, o.attribute_background_color_odd),
            background: overlay_opt(base.background, o.background),
            border1: overlay_opt(base.border1, o.border1),
            border2: overlay_opt(base.border2, o.border2),
            branch_label_color: overlay_opt(base.branch_label_color, o.branch_label_color),
            c_scale0: overlay_opt(base.c_scale0, o.c_scale0),
            c_scale1: overlay_opt(base.c_scale1, o.c_scale1),
            c_scale2: overlay_opt(base.c_scale2, o.c_scale2),
            c_scale3: overlay_opt(base.c_scale3, o.c_scale3),
            c_scale4: overlay_opt(base.c_scale4, o.c_scale4),
            c_scale5: overlay_opt(base.c_scale5, o.c_scale5),
            c_scale6: overlay_opt(base.c_scale6, o.c_scale6),
            c_scale7: overlay_opt(base.c_scale7, o.c_scale7),
            c_scale8: overlay_opt(base.c_scale8, o.c_scale8),
            c_scale9: overlay_opt(base.c_scale9, o.c_scale9),
            c_scale10: overlay_opt(base.c_scale10, o.c_scale10),
            c_scale11: overlay_opt(base.c_scale11, o.c_scale11),
            c_scale12: overlay_opt(base.c_scale12, o.c_scale12),
            c_scale_inv0: overlay_opt(base.c_scale_inv0, o.c_scale_inv0),
            c_scale_inv1: overlay_opt(base.c_scale_inv1, o.c_scale_inv1),
            c_scale_inv2: overlay_opt(base.c_scale_inv2, o.c_scale_inv2),
            c_scale_inv3: overlay_opt(base.c_scale_inv3, o.c_scale_inv3),
            c_scale_inv4: overlay_opt(base.c_scale_inv4, o.c_scale_inv4),
            c_scale_inv5: overlay_opt(base.c_scale_inv5, o.c_scale_inv5),
            c_scale_inv6: overlay_opt(base.c_scale_inv6, o.c_scale_inv6),
            c_scale_inv7: overlay_opt(base.c_scale_inv7, o.c_scale_inv7),
            c_scale_inv8: overlay_opt(base.c_scale_inv8, o.c_scale_inv8),
            c_scale_inv9: overlay_opt(base.c_scale_inv9, o.c_scale_inv9),
            c_scale_inv10: overlay_opt(base.c_scale_inv10, o.c_scale_inv10),
            c_scale_inv11: overlay_opt(base.c_scale_inv11, o.c_scale_inv11),
            c_scale_label0: overlay_opt(base.c_scale_label0, o.c_scale_label0),
            c_scale_label1: overlay_opt(base.c_scale_label1, o.c_scale_label1),
            c_scale_label2: overlay_opt(base.c_scale_label2, o.c_scale_label2),
            c_scale_label3: overlay_opt(base.c_scale_label3, o.c_scale_label3),
            c_scale_label4: overlay_opt(base.c_scale_label4, o.c_scale_label4),
            c_scale_label5: overlay_opt(base.c_scale_label5, o.c_scale_label5),
            c_scale_label6: overlay_opt(base.c_scale_label6, o.c_scale_label6),
            c_scale_label7: overlay_opt(base.c_scale_label7, o.c_scale_label7),
            c_scale_label8: overlay_opt(base.c_scale_label8, o.c_scale_label8),
            c_scale_label9: overlay_opt(base.c_scale_label9, o.c_scale_label9),
            c_scale_label10: overlay_opt(base.c_scale_label10, o.c_scale_label10),
            c_scale_label11: overlay_opt(base.c_scale_label11, o.c_scale_label11),
            c_scale_peer0: overlay_opt(base.c_scale_peer0, o.c_scale_peer0),
            c_scale_peer1: overlay_opt(base.c_scale_peer1, o.c_scale_peer1),
            c_scale_peer2: overlay_opt(base.c_scale_peer2, o.c_scale_peer2),
            c_scale_peer3: overlay_opt(base.c_scale_peer3, o.c_scale_peer3),
            c_scale_peer4: overlay_opt(base.c_scale_peer4, o.c_scale_peer4),
            c_scale_peer5: overlay_opt(base.c_scale_peer5, o.c_scale_peer5),
            c_scale_peer6: overlay_opt(base.c_scale_peer6, o.c_scale_peer6),
            c_scale_peer7: overlay_opt(base.c_scale_peer7, o.c_scale_peer7),
            c_scale_peer8: overlay_opt(base.c_scale_peer8, o.c_scale_peer8),
            c_scale_peer9: overlay_opt(base.c_scale_peer9, o.c_scale_peer9),
            c_scale_peer10: overlay_opt(base.c_scale_peer10, o.c_scale_peer10),
            c_scale_peer11: overlay_opt(base.c_scale_peer11, o.c_scale_peer11),
            class_text: overlay_opt(base.class_text, o.class_text),
            cluster_bkg: overlay_opt(base.cluster_bkg, o.cluster_bkg),
            cluster_border: overlay_opt(base.cluster_border, o.cluster_border),
            commit_label_background: overlay_opt(base.commit_label_background, o.commit_label_background),
            commit_label_color: overlay_opt(base.commit_label_color, o.commit_label_color),
            commit_label_font_size: overlay_opt(base.commit_label_font_size, o.commit_label_font_size),
            composite_background: overlay_opt(base.composite_background, o.composite_background),
            composite_border: overlay_opt(base.composite_border, o.composite_border),
            composite_title_background: overlay_opt(base.composite_title_background, o.composite_title_background),
            contrast: overlay_opt(base.contrast, o.contrast),
            crit_bkg_color: overlay_opt(base.crit_bkg_color, o.crit_bkg_color),
            crit_border_color: overlay_opt(base.crit_border_color, o.crit_border_color),
            critical: overlay_opt(base.critical, o.critical),
            dark_text_color: overlay_opt(base.dark_text_color, o.dark_text_color),
            default_link_color: overlay_opt(base.default_link_color, o.default_link_color),
            done: overlay_opt(base.done, o.done),
            done_task_bkg_color: overlay_opt(base.done_task_bkg_color, o.done_task_bkg_color),
            done_task_border_color: overlay_opt(base.done_task_border_color, o.done_task_border_color),
            drop_shadow: overlay_opt(base.drop_shadow, o.drop_shadow),
            edge_label_background: overlay_opt(base.edge_label_background, o.edge_label_background),
            error_bkg_color: overlay_opt(base.error_bkg_color, o.error_bkg_color),
            error_text_color: overlay_opt(base.error_text_color, o.error_text_color),
            exclude_bkg_color: overlay_opt(base.exclude_bkg_color, o.exclude_bkg_color),
            fill_type0: overlay_opt(base.fill_type0, o.fill_type0),
            fill_type1: overlay_opt(base.fill_type1, o.fill_type1),
            fill_type2: overlay_opt(base.fill_type2, o.fill_type2),
            fill_type3: overlay_opt(base.fill_type3, o.fill_type3),
            fill_type4: overlay_opt(base.fill_type4, o.fill_type4),
            fill_type5: overlay_opt(base.fill_type5, o.fill_type5),
            fill_type6: overlay_opt(base.fill_type6, o.fill_type6),
            fill_type7: overlay_opt(base.fill_type7, o.fill_type7),
            font_family: overlay_opt(base.font_family, o.font_family),
            font_size: overlay_opt(base.font_size, o.font_size),
            font_weight: overlay_opt(base.font_weight, o.font_weight),
            git0: overlay_opt(base.git0, o.git0),
            git1: overlay_opt(base.git1, o.git1),
            git2: overlay_opt(base.git2, o.git2),
            git3: overlay_opt(base.git3, o.git3),
            git4: overlay_opt(base.git4, o.git4),
            git5: overlay_opt(base.git5, o.git5),
            git6: overlay_opt(base.git6, o.git6),
            git7: overlay_opt(base.git7, o.git7),
            git_branch_label0: overlay_opt(base.git_branch_label0, o.git_branch_label0),
            git_branch_label1: overlay_opt(base.git_branch_label1, o.git_branch_label1),
            git_branch_label2: overlay_opt(base.git_branch_label2, o.git_branch_label2),
            git_branch_label3: overlay_opt(base.git_branch_label3, o.git_branch_label3),
            git_branch_label4: overlay_opt(base.git_branch_label4, o.git_branch_label4),
            git_branch_label5: overlay_opt(base.git_branch_label5, o.git_branch_label5),
            git_branch_label6: overlay_opt(base.git_branch_label6, o.git_branch_label6),
            git_branch_label7: overlay_opt(base.git_branch_label7, o.git_branch_label7),
            git_inv0: overlay_opt(base.git_inv0, o.git_inv0),
            git_inv1: overlay_opt(base.git_inv1, o.git_inv1),
            git_inv2: overlay_opt(base.git_inv2, o.git_inv2),
            git_inv3: overlay_opt(base.git_inv3, o.git_inv3),
            git_inv4: overlay_opt(base.git_inv4, o.git_inv4),
            git_inv5: overlay_opt(base.git_inv5, o.git_inv5),
            git_inv6: overlay_opt(base.git_inv6, o.git_inv6),
            git_inv7: overlay_opt(base.git_inv7, o.git_inv7),
            gradient_start: overlay_opt(base.gradient_start, o.gradient_start),
            gradient_stop: overlay_opt(base.gradient_stop, o.gradient_stop),
            grid_color: overlay_opt(base.grid_color, o.grid_color),
            inner_end_background: overlay_opt(base.inner_end_background, o.inner_end_background),
            label_background: overlay_opt(base.label_background, o.label_background),
            label_background_color: overlay_opt(base.label_background_color, o.label_background_color),
            label_box_bkg_color: overlay_opt(base.label_box_bkg_color, o.label_box_bkg_color),
            label_box_border_color: overlay_opt(base.label_box_border_color, o.label_box_border_color),
            label_color: overlay_opt(base.label_color, o.label_color),
            label_text_color: overlay_opt(base.label_text_color, o.label_text_color),
            line_color: overlay_opt(base.line_color, o.line_color),
            loop_text_color: overlay_opt(base.loop_text_color, o.loop_text_color),
            main_bkg: overlay_opt(base.main_bkg, o.main_bkg),
            main_contrast_color: overlay_opt(base.main_contrast_color, o.main_contrast_color),
            node_bkg: overlay_opt(base.node_bkg, o.node_bkg),
            node_border: overlay_opt(base.node_border, o.node_border),
            node_text_color: overlay_opt(base.node_text_color, o.node_text_color),
            note: overlay_opt(base.note, o.note),
            note_bkg_color: overlay_opt(base.note_bkg_color, o.note_bkg_color),
            note_border_color: overlay_opt(base.note_border_color, o.note_border_color),
            note_font_weight: overlay_opt(base.note_font_weight, o.note_font_weight),
            note_text_color: overlay_opt(base.note_text_color, o.note_text_color),
            person_bkg: overlay_opt(base.person_bkg, o.person_bkg),
            person_border: overlay_opt(base.person_border, o.person_border),
            pie0: overlay_opt(base.pie0, o.pie0),
            pie1: overlay_opt(base.pie1, o.pie1),
            pie2: overlay_opt(base.pie2, o.pie2),
            pie3: overlay_opt(base.pie3, o.pie3),
            pie4: overlay_opt(base.pie4, o.pie4),
            pie5: overlay_opt(base.pie5, o.pie5),
            pie6: overlay_opt(base.pie6, o.pie6),
            pie7: overlay_opt(base.pie7, o.pie7),
            pie8: overlay_opt(base.pie8, o.pie8),
            pie9: overlay_opt(base.pie9, o.pie9),
            pie10: overlay_opt(base.pie10, o.pie10),
            pie11: overlay_opt(base.pie11, o.pie11),
            pie12: overlay_opt(base.pie12, o.pie12),
            pie_legend_text_color: overlay_opt(base.pie_legend_text_color, o.pie_legend_text_color),
            pie_legend_text_size: overlay_opt(base.pie_legend_text_size, o.pie_legend_text_size),
            pie_opacity: overlay_opt(base.pie_opacity, o.pie_opacity),
            pie_outer_stroke_color: overlay_opt(base.pie_outer_stroke_color, o.pie_outer_stroke_color),
            pie_outer_stroke_width: overlay_opt(base.pie_outer_stroke_width, o.pie_outer_stroke_width),
            pie_section_text_color: overlay_opt(base.pie_section_text_color, o.pie_section_text_color),
            pie_section_text_size: overlay_opt(base.pie_section_text_size, o.pie_section_text_size),
            pie_stroke_color: overlay_opt(base.pie_stroke_color, o.pie_stroke_color),
            pie_stroke_width: overlay_opt(base.pie_stroke_width, o.pie_stroke_width),
            pie_title_text_color: overlay_opt(base.pie_title_text_color, o.pie_title_text_color),
            pie_title_text_size: overlay_opt(base.pie_title_text_size, o.pie_title_text_size),
            primary_border_color: overlay_opt(base.primary_border_color, o.primary_border_color),
            primary_color: overlay_opt(base.primary_color, o.primary_color),
            primary_text_color: overlay_opt(base.primary_text_color, o.primary_text_color),
            quadrant1_fill: overlay_opt(base.quadrant1_fill, o.quadrant1_fill),
            quadrant1_text_fill: overlay_opt(base.quadrant1_text_fill, o.quadrant1_text_fill),
            quadrant2_fill: overlay_opt(base.quadrant2_fill, o.quadrant2_fill),
            quadrant2_text_fill: overlay_opt(base.quadrant2_text_fill, o.quadrant2_text_fill),
            quadrant3_fill: overlay_opt(base.quadrant3_fill, o.quadrant3_fill),
            quadrant3_text_fill: overlay_opt(base.quadrant3_text_fill, o.quadrant3_text_fill),
            quadrant4_fill: overlay_opt(base.quadrant4_fill, o.quadrant4_fill),
            quadrant4_text_fill: overlay_opt(base.quadrant4_text_fill, o.quadrant4_text_fill),
            quadrant_external_border_stroke_fill: overlay_opt(base.quadrant_external_border_stroke_fill, o.quadrant_external_border_stroke_fill),
            quadrant_internal_border_stroke_fill: overlay_opt(base.quadrant_internal_border_stroke_fill, o.quadrant_internal_border_stroke_fill),
            quadrant_point_fill: overlay_opt(base.quadrant_point_fill, o.quadrant_point_fill),
            quadrant_point_text_fill: overlay_opt(base.quadrant_point_text_fill, o.quadrant_point_text_fill),
            quadrant_title_fill: overlay_opt(base.quadrant_title_fill, o.quadrant_title_fill),
            quadrant_x_axis_text_fill: overlay_opt(base.quadrant_x_axis_text_fill, o.quadrant_x_axis_text_fill),
            quadrant_y_axis_text_fill: overlay_opt(base.quadrant_y_axis_text_fill, o.quadrant_y_axis_text_fill),
            radius: overlay_opt(base.radius, o.radius),
            relation_color: overlay_opt(base.relation_color, o.relation_color),
            relation_label_background: overlay_opt(base.relation_label_background, o.relation_label_background),
            relation_label_color: overlay_opt(base.relation_label_color, o.relation_label_color),
            requirement_background: overlay_opt(base.requirement_background, o.requirement_background),
            requirement_border_color: overlay_opt(base.requirement_border_color, o.requirement_border_color),
            requirement_border_size: overlay_opt(base.requirement_border_size, o.requirement_border_size),
            requirement_text_color: overlay_opt(base.requirement_text_color, o.requirement_text_color),
            row_even: overlay_opt(base.row_even, o.row_even),
            row_odd: overlay_opt(base.row_odd, o.row_odd),
            scale_label_color: overlay_opt(base.scale_label_color, o.scale_label_color),
            second_bkg: overlay_opt(base.second_bkg, o.second_bkg),
            secondary_border_color: overlay_opt(base.secondary_border_color, o.secondary_border_color),
            secondary_color: overlay_opt(base.secondary_color, o.secondary_color),
            secondary_text_color: overlay_opt(base.secondary_text_color, o.secondary_text_color),
            section_bkg_color: overlay_opt(base.section_bkg_color, o.section_bkg_color),
            section_bkg_color2: overlay_opt(base.section_bkg_color2, o.section_bkg_color2),
            sequence_number_color: overlay_opt(base.sequence_number_color, o.sequence_number_color),
            signal_color: overlay_opt(base.signal_color, o.signal_color),
            signal_text_color: overlay_opt(base.signal_text_color, o.signal_text_color),
            special_state_color: overlay_opt(base.special_state_color, o.special_state_color),
            state_bkg: overlay_opt(base.state_bkg, o.state_bkg),
            state_border: overlay_opt(base.state_border, o.state_border),
            state_label_color: overlay_opt(base.state_label_color, o.state_label_color),
            stroke_width: overlay_opt(base.stroke_width, o.stroke_width),
            surface0: overlay_opt(base.surface0, o.surface0),
            surface1: overlay_opt(base.surface1, o.surface1),
            surface2: overlay_opt(base.surface2, o.surface2),
            surface3: overlay_opt(base.surface3, o.surface3),
            surface4: overlay_opt(base.surface4, o.surface4),
            surface_peer0: overlay_opt(base.surface_peer0, o.surface_peer0),
            surface_peer1: overlay_opt(base.surface_peer1, o.surface_peer1),
            surface_peer2: overlay_opt(base.surface_peer2, o.surface_peer2),
            surface_peer3: overlay_opt(base.surface_peer3, o.surface_peer3),
            surface_peer4: overlay_opt(base.surface_peer4, o.surface_peer4),
            tag_label_background: overlay_opt(base.tag_label_background, o.tag_label_background),
            tag_label_border: overlay_opt(base.tag_label_border, o.tag_label_border),
            tag_label_color: overlay_opt(base.tag_label_color, o.tag_label_color),
            tag_label_font_size: overlay_opt(base.tag_label_font_size, o.tag_label_font_size),
            task_bkg_color: overlay_opt(base.task_bkg_color, o.task_bkg_color),
            task_border_color: overlay_opt(base.task_border_color, o.task_border_color),
            task_text_clickable_color: overlay_opt(base.task_text_clickable_color, o.task_text_clickable_color),
            task_text_color: overlay_opt(base.task_text_color, o.task_text_color),
            task_text_dark_color: overlay_opt(base.task_text_dark_color, o.task_text_dark_color),
            task_text_light_color: overlay_opt(base.task_text_light_color, o.task_text_light_color),
            task_text_outside_color: overlay_opt(base.task_text_outside_color, o.task_text_outside_color),
            tertiary_border_color: overlay_opt(base.tertiary_border_color, o.tertiary_border_color),
            tertiary_color: overlay_opt(base.tertiary_color, o.tertiary_color),
            tertiary_text_color: overlay_opt(base.tertiary_text_color, o.tertiary_text_color),
            text: overlay_opt(base.text, o.text),
            text_color: overlay_opt(base.text_color, o.text_color),
            title_color: overlay_opt(base.title_color, o.title_color),
            today_line_color: overlay_opt(base.today_line_color, o.today_line_color),
            transition_color: overlay_opt(base.transition_color, o.transition_color),
            transition_label_color: overlay_opt(base.transition_label_color, o.transition_label_color),
            use_gradient: overlay_opt(base.use_gradient, o.use_gradient),
            venn1: overlay_opt(base.venn1, o.venn1),
            venn2: overlay_opt(base.venn2, o.venn2),
            venn3: overlay_opt(base.venn3, o.venn3),
            venn4: overlay_opt(base.venn4, o.venn4),
            venn5: overlay_opt(base.venn5, o.venn5),
            venn6: overlay_opt(base.venn6, o.venn6),
            venn7: overlay_opt(base.venn7, o.venn7),
            venn8: overlay_opt(base.venn8, o.venn8),
            venn_set_text_color: overlay_opt(base.venn_set_text_color, o.venn_set_text_color),
            venn_title_text_color: overlay_opt(base.venn_title_text_color, o.venn_title_text_color),
            vert_line_color: overlay_opt(base.vert_line_color, o.vert_line_color),
            packet: merge_packet(base.packet, o.packet),
            radar: merge_radar(base.radar, o.radar),
            xy_chart: merge_xy_chart(base.xy_chart, o.xy_chart),
        };
    }
}

impl Default for ThemeVariables {
    fn default() -> (r: Self)
        ensures
            r == Self::empty(),
    {
        Self::new()
    }
}

fn merge_packet(base: Option<PacketVars>, over: Option<PacketVars>) -> (r: Option<PacketVars>)
    ensures
        r == merged_group(base, over, PacketVars::empty(), |d: PacketVars, s: PacketVars| d.overlaid(s)),
{
    match over {
        None => base,
        Some(src) => {
            let dst = match base {
                Some(d) => d,
                None => PacketVars::new(),
            };
            Some(overlay_packet(dst, src))
        },
    }
}

fn merge_radar(base: Option<RadarVars>, over: Option<RadarVars>) -> (r: Option<RadarVars>)
    ensures
        r == merged_group(base, over, RadarVars::empty(), |d: RadarVars, s: RadarVars| d.overlaid(s)),
{
    match over {
        None => base,
        Some(src) => {
            let dst = match base {
                Some(d) => d,
                None => RadarVars::new(),
            };
            Some(overlay_radar(dst, src))
        },
    }
}

fn merge_xy_chart(base: Option<XyChartVars>, over: Option<XyChartVars>) -> (r: Option<XyChartVars>)
    ensures
        r == merged_group(base, over, XyChartVars::empty(), |d: XyChartVars, s: XyChartVars| d.overlaid(s)),
{
    match over {
        None => base,
        Some(src) => {
            let dst = match base {
                Some(d) => d,
                None => XyChartVars::new(),
            };
            Some(overlay_xy_chart(dst, src))
        },
    }
}

/// Law: in a merged theme every value the override sets wins and every
/// value it leaves unset keeps the baseline's; a nested group the override
/// sets is merged the same way value by value (over an empty group when the
/// baseline has none), and one it leaves unset is kept whole.
pub proof fn law_merge_user_keys_win(base: ThemeVariables, o: ThemeVariables, m: ThemeVariables)
    requires
        m == base.merged(o),
    ensures
        m.theme_color_limit == (if o.theme_color_limit is Some { o.theme_color_limit } else { base.theme_color_limit }),
        m.activation_bkg_color == (if o.activation_bkg_color is Some { o.activation_bkg_color } else { base.activation_bkg_color }),
        m.activation_border_color == (if o.activation_border_color is Some { o.activation_border_color } else { base.activation_border_color }),
        m.active_task_bkg_color == (if o.active_task_bkg_color is Some { o.active_task_bkg_color } else { base.active_task_bkg_color }),
        m.active_task_border_color == (if o.active_task_border_color is Some { o.active_task_border_color } else { base.active_task_border_color }),
        m.actor_bkg == (if o.actor_bkg is Some { o.actor_bkg } else { base.actor_bkg }),
        m.actor_border == (if o.actor_border is Some { o.actor_border } else { base.actor_border }),
        m.actor_line_color == (if o.actor_line_color is Some { o.actor_line_color } else { base.actor_line_color }),
        m.actor_text_color == (if o.actor_text_color is Some { o.actor_text_color } else { base.actor_text_color }),
        m.alt_background == (if o.alt_background is Some { o.alt_background } else { base.alt_background }),
        m.alt_section_bkg_color == (if o.alt_section_bkg_color is Some { o.alt_section_bkg_color } else { base.alt_section_bkg_color }),
        m.arch_edge_arrow_color == (if o.arch_edge_arrow_color is Some { o.arch_edge_arrow_color } else { base.arch_edge_arrow_color }),
        m.arch_edge_color == (if o.arch_edge_color is Some { o.arch_edge_color } else { base.arch_edge_color }),
        m.arch_edge_width == (if o.arch_edge_width is Some { o.arch_edge_width } else { base.arch_edge_width }),
        m.arch_group_border_color == (if o.arch_group_border_color is Some { o.arch_group_border_color } else { base.arch_group_border_color }),
        m.arch_group_border_width == (if o.arch_group_border_width is Some { o.arch_group_border_width } else { base.arch_group_border_width }),
        m.arrowhead_color == (if o.arrowhead_color is Some { o.arrowhead_color } else { base.arrowhead_color }),
        m.attribute_background_color_even == (if o.attribute_background_color_even is Some { o.attribute_background_color_even } else { base.attribute_background_color_even }),
        m.attribute_background_color_odd == (if o.attribute_background_color_odd is Some { o.attribute_background_color_odd } else { base.attribute_background_color_odd }),
        m.background == (if o.background is Some { o.background } else { base.background }),
        m.border1 == (if o.border1 is Some { o.border1 } else { base.border1 }),
        m.border2 == (if o.border2 is Some { o.border2 } else { base.border2 }),
        m.branch_label_color == (if o.branch_label_color is Some { o.branch_label_color } else { base.branch_label_color }),
        m.c_scale0 == (if o.c_scale0 is Some { o.c_scale0 } else { base.c_scale0 }),
        m.c_scale1 == (if o.c_scale1 is Some { o.c_scale1 } else { base.c_scale1 }),
        m.c_scale2 == (if o.c_scale2 is Some { o.c_scale2 } else { base.c_scale2 }),
        m.c_scale3 == (if o.c_scale3 is Some { o.c_scale3 } else { base.c_scale3 }),
        m.c_scale4 == (if o.c_scale4 is Some { o.c_scale4 } else { base.c_scale4 }),
        m.c_scale5 == (if o.c_scale5 is Some { o.c_scale5 } else { base.c_scale5 }),
        m.c_scale6 == (if o.c_scale6 is Some { o.c_scale6 } else { base.c_scale6 }),
        m.c_scale7 == (if o.c_scale7 is Some { o.c_scale7 } else { base.c_scale7 }),
        m.c_scale8 == (if o.c_scale8 is Some { o.c_scale8 } else { base.c_scale8 }),
        m.c_scale9 == (if o.c_scale9 is Some { o.c_scale9 } else { base.c_scale9 }),
        m.c_scale10 == (if o.c_scale10 is Some { o.c_scale10 } else { base.c_scale10 }),
        m.c_scale11 == (if o.c_scale11 is Some { o.c_scale11 } else { base.c_scale11 }),
        m.c_scale12 == (if o.c_scale12 is Some { o.c_scale12 } else { base.c_scale12 }),
        m.c_scale_inv0 == (if o.c_scale_inv0 is Some { o.c_scale_inv0 } else { base.c_scale_inv0 }),
        m.c_scale_inv1 == (if o.c_scale_inv1 is Some { o.c_scale_inv1 } else { base.c_scale_inv1 }),
        m.c_scale_inv2 == (if o.c_scale_inv2 is Some { o.c_scale_inv2 } else { base.c_scale_inv2 }),
        m.c_scale_inv3 == (if o.c_scale_inv3 is Some { o.c_scale_inv3 } else { base.c_scale_inv3 }),
        m.c_scale_inv4 == (if o.c_scale_inv4 is Some { o.c_scale_inv4 } else { base.c_scale_inv4 }),
        m.c_scale_inv5 == (if o.c_scale_inv5 is Some { o.c_scale_inv5 } else { base.c_scale_inv5 }),
        m.c_scale_inv6 == (if o.c_scale_inv6 is Some { o.c_scale_inv6 } else { base.c_scale_inv6 }),
        m.c_scale_inv7 == (if o.c_scale_inv7 is Some { o.c_scale_inv7 } else { base.c_scale_inv7 }),
        m.c_scale_inv8 == (if o.c_scale_inv8 is Some { o.c_scale_inv8 } else { base.c_scale_inv8 }),
        m.c_scale_inv9 == (if o.c_scale_inv9 is Some { o.c_scale_inv9 } else { base.c_scale_inv9 }),
        m.c_scale_inv10 == (if o.c_scale_inv10 is Some { o.c_scale_inv10 } else { base.c_scale_inv10 }),
        m.c_scale_inv11 == (if o.c_scale_inv11 is Some { o.c_scale_inv11 } else { base.c_scale_inv11 }),
        m.c_scale_label0 == (if o.c_scale_label0 is Some { o.c_scale_label0 } else { base.c_scale_label0 }),
        m.c_scale_label1 == (if o.c_scale_label1 is Some { o.c_scale_label1 } else { base.c_scale_label1 }),
        m.c_scale_label2 == (if o.c_scale_label2 is Some { o.c_scale_label2 } else { base.c_scale_label2 }),
        m.c_scale_label3 == (if o.c_scale_label3 is Some { o.c_scale_label3 } else { base.c_scale_label3 }),
        m.c_scale_label4 == (if o.c_scale_label4 is Some { o.c_scale_label4 } else { base.c_scale_label4 }),
        m.c_scale_label5 == (if o.c_scale_label5 is Some { o.c_scale_label5 } else { base.c_scale_label5 }),
        m.c_scale_label6 == (if o.c_scale_label6 is Some { o.c_scale_label6 } else { base.c_scale_label6 }),
        m.c_scale_label7 == (if o.c_scale_label7 is Some { o.c_scale_label7 } else { base.c_scale_label7 }),
        m.c_scale_label8 == (if o.c_scale_label8 is Some { o.c_scale_label8 } else { base.c_scale_label8 }),
        m.c_scale_label9 == (if o.c_scale_label9 is Some { o.c_scale_label9 } else { base.c_scale_label9 }),
        m.c_scale_label10 == (if o.c_scale_label10 is Some { o.c_scale_label10 } else { base.c_scale_label10 }),
        m.c_scale_label11 == (if o.c_scale_label11 is Some { o.c_scale_label11 } else { base.c_scale_label11 }),
        m.c_scale_peer0 == (if o.c_scale_peer0 is Some { o.c_scale_peer0 } else { base.c_scale_peer0 }),
        m.c_scale_peer1 == (if o.c_scale_peer1 is Some { o.c_scale_peer1 } else { base.c_scale_peer1 }),
        m.c_scale_peer2 == (if o.c_scale_peer2 is Some { o.c_scale_peer2 } else { base.c_scale_peer2 }),
        m.c_scale_peer3 == (if o.c_scale_peer3 is Some { o.c_scale_peer3 } else { base.c_scale_peer3 }),
        m.c_scale_peer4 == (if o.c_scale_peer4 is Some { o.c_scale_peer4 } else { base.c_scale_peer4 }),
        m.c_scale_peer5 == (if o.c_scale_peer5 is Some { o.c_scale_peer5 } else { base.c_scale_peer5 }),
        m.c_scale_peer6 == (if o.c_scale_peer6 is Some { o.c_scale_peer6 } else { base.c_scale_peer6 }),
        m.c_scale_peer7 == (if o.c_scale_peer7 is Some { o.c_scale_peer7 } else { base.c_scale_peer7 }),
        m.c_scale_peer8 == (if o.c_scale_peer8 is Some { o.c_scale_peer8 } else { base.c_scale_peer8 }),
        m.c_scale_peer9 == (if o.c_scale_peer9 is Some { o.c_scale_peer9 } else { base.c_scale_peer9 }),
        m.c_scale_peer10 == (if o.c_scale_peer10 is Some { o.c_scale_peer10 } else { base.c_scale_peer10 }),
        m.c_scale_peer11 == (if o.c_scale_peer11 is Some { o.c_scale_peer11 } else { base.c_scale_peer11 }),
        m.class_text == (if o.class_text is Some { o.class_text } else { base.class_text }),
        m.cluster_bkg == (if o.cluster_bkg is Some { o.cluster_bkg } else { base.cluster_bkg }),
        m.cluster_border == (if o.cluster_border is Some { o.cluster_border } else { base.cluster_border }),
        m.commit_label_background == (if o.commit_label_background is Some { o.commit_label_background } else { base.commit_label_background }),
        m.commit_label_color == (if o.commit_label_color is Some { o.commit_label_color } else { base.commit_label_color }),
        m.commit_label_font_size == (if o.commit_label_font_size is Some { o.commit_label_font_size } else { base.commit_label_font_size }),
        m.composite_background == (if o.composite_background is Some { o.composite_background } else { base.composite_background }),
        m.composite_border == (if o.composite_border is Some { o.composite_border } else { base.composite_border }),
        m.composite_title_background == (if o.composite_title_background is Some { o.composite_title_background } else { base.composite_title_background }),
        m.contrast == (if o.contrast is Some { o.contrast } else { base.contrast }),
        m.crit_bkg_color == (if o.crit_bkg_color is Some { o.crit_bkg_color } else { base.crit_bkg_color }),
        m.crit_border_color == (if o.crit_border_color is Some { o.crit_border_color } else { base.crit_border_color }),
        m.critical == (if o.critical is Some { o.critical } else { base.critical }),
        m.dark_text_color == (if o.dark_text_color is Some { o.dark_text_color } else { base.dark_text_color }),
        m.default_link_color == (if o.default_link_color is Some { o.default_link_color } else { base.default_link_color }),
        m.done == (if o.done is Some { o.done } else { base.done }),
        m.done_task_bkg_color == (if o.done_task_bkg_color is Some { o.done_task_bkg_color } else { base.done_task_bkg_color }),
        m.done_task_border_color == (if o.done_task_border_color is Some { o.done_task_border_color } else { base.done_task_border_color }),
        m.drop_shadow == (if o.drop_shadow is Some { o.drop_shadow } else { base.drop_shadow }),
        m.edge_label_background == (if o.edge_label_background is Some { o.edge_label_background } else { base.edge_label_background }),
        m.error_bkg_color == (if o.error_bkg_color is Some { o.error_bkg_color } else { base.error_bkg_color }),
        m.error_text_color == (if o.error_text_color is Some { o.error_text_color } else { base.error_text_color }),
        m.exclude_bkg_color == (if o.exclude_bkg_color is Some { o.exclude_bkg_color } else { base.exclude_bkg_color }),
        m.fill_type0 == (if o.fill_type0 is Some { o.fill_type0 } else { base.fill_type0 }),
        m.fill_type1 == (if o.fill_type1 is Some { o.fill_type1 } else { base.fill_type1 }),
        m.fill_type2 == (if o.fill_type2 is Some { o.fill_type2 } else { base.fill_type2 }),
        m.fill_type3 == (if o.fill_type3 is Some { o.fill_type3 } else { base.fill_type3 }),
        m.fill_type4 == (if o.fill_type4 is Some { o.fill_type4 } else { base.fill_type4 }),
        m.fill_type5 == (if o.fill_type5 is Some { o.fill_type5 } else { base.fill_type5 }),
        m.fill_type6 == (if o.fill_type6 is Some { o.fill_type6 } else { base.fill_type6 }),
        m.fill_type7 == (if o.fill_type7 is Some { o.fill_type7 } else { base.fill_type7 }),
        m.font_family == (if o.font_family is Some { o.font_family } else { base.font_family }),
        m.font_size == (if o.font_size is Some { o.font_size } else { base.font_size }),
        m.font_weight == (if o.font_weight is Some { o.font_weight } else { base.font_weight }),
        m.git0 == (if o.git0 is Some { o.git0 } else { base.git0 }),
        m.git1 == (if o.git1 is Some { o.git1 } else { base.git1 }),
        m.git2 == (if o.git2 is Some { o.git2 } else { base.git2 }),
        m.git3 == (if o.git3 is Some { o.git3 } else { base.git3 }),
        m.git4 == (if o.git4 is Some { o.git4 } else { base.git4 }),
        m.git5 == (if o.git5 is Some { o.git5 } else { base.git5 }),
        m.git6 == (if o.git6 is Some { o.git6 } else { base.git6 }),
        m.git7 == (if o.git7 is Some { o.git7 } else { base.git7 }),
        m.git_branch_label0 == (if o.git_branch_label0 is Some { o.git_branch_label0 } else { base.git_branch_label0 }),
        m.git_branch_label1 == (if o.git_branch_label1 is Some { o.git_branch_label1 } else { base.git_branch_label1 }),
        m.git_branch_label2 == (if o.git_branch_label2 is Some { o.git_branch_label2 } else { base.git_branch_label2 }),
        m.git_branch_label3 == (if o.git_branch_label3 is Some { o.git_branch_label3 } else { base.git_branch_label3 }),
        m.git_branch_label4 == (if o.git_branch_label4 is Some { o.git_branch_label4 } else { base.git_branch_label4 }),
        m.git_branch_label5 == (if o.git_branch_label5 is Some { o.git_branch_label5 } else { base.git_branch_label5 }),
        m.git_branch_label6 == (if o.git_branch_label6 is Some { o.git_branch_label6 } else { base.git_branch_label6 }),
        m.git_branch_label7 == (if o.git_branch_label7 is Some { o.git_branch_label7 } else { base.git_branch_label7 }),
        m.git_inv0 == (if o.git_inv0 is Some { o.git_inv0 } else { base.git_inv0 }),
        m.git_inv1 == (if o.git_inv1 is Some { o.git_inv1 } else { base.git_inv1 }),
        m.git_inv2 == (if o.git_inv2 is Some { o.git_inv2 } else { base.git_inv2 }),
        m.git_inv3 == (if o.git_inv3 is Some { o.git_inv3 } else { base.git_inv3 }),
        m.git_inv4 == (if o.git_inv4 is Some { o.git_inv4 } else { base.git_inv4 }),
        m.git_inv5 == (if o.git_inv5 is Some { o.git_inv5 } else { base.git_inv5 }),
        m.git_inv6 == (if o.git_inv6 is Some { o.git_inv6 } else { base.git_inv6 }),
        m.git_inv7 == (if o.git_inv7 is Some { o.git_inv7 } else { base.git_inv7 }),
        m.gradient_start == (if o.gradient_start is Some { o.gradient_start } else { base.gradient_start }),
        m.gradient_stop == (if o.gradient_stop is Some { o.gradient_stop } else { base.gradient_stop }),
        m.grid_color == (if o.grid_color is Some { o.grid_color } else { base.grid_color }),
        m.inner_end_background == (if o.inner_end_background is Some { o.inner_end_background } else { base.inner_end_background }),
        m.label_background == (if o.label_background is Some { o.label_background } else { base.label_background }),
        m.label_background_color == (if o.label_background_color is Some { o.label_background_color } else { base.label_background_color }),
        m.label_box_bkg_color == (if o.label_box_bkg_color is Some { o.label_box_bkg_color } else { base.label_box_bkg_color }),
        m.label_box_border_color == (if o.label_box_border_color is Some { o.label_box_border_color } else { base.label_box_border_color }),
        m.label_color == (if o.label_color is Some { o.label_color } else { base.label_color }),
        m.label_text_color == (if o.label_text_color is Some { o.label_text_color } else { base.label_text_color }),
        m.line_color == (if o.line_color is Some { o.line_color } else { base.line_color }),
        m.loop_text_color == (if o.loop_text_color is Some { o.loop_text_color } else { base.loop_text_color }),
        m.main_bkg == (if o.main_bkg is Some { o.main_bkg } else { base.main_bkg }),
        m.main_contrast_color == (if o.main_contrast_color is Some { o.main_contrast_color } else { base.main_contrast_color }),
        m.node_bkg == (if o.node_bkg is Some { o.node_bkg } else { base.node_bkg }),
        m.node_border == (if o.node_border is Some { o.node_border } else { base.node_border }),
        m.node_text_color == (if o.node_text_color is Some { o.node_text_color } else { base.node_text_color }),
        m.note == (if o.note is Some { o.note } else { base.note }),
        m.note_bkg_color == (if o.note_bkg_color is Some { o.note_bkg_color } else { base.note_bkg_color }),
        m.note_border_color == (if o.note_border_color is Some { o.note_border_color } else { base.note_border_color }),
        m.note_font_weight == (if o.note_font_weight is Some { o.note_font_weight } else { base.note_font_weight }),
        m.note_text_color == (if o.note_text_color is Some { o.note_text_color } else { base.note_text_color }),
        m.person_bkg == (if o.person_bkg is Some { o.person_bkg } else { base.person_bkg }),
        m.person_border == (if o.person_border is Some { o.person_border } else { base.person_border }),
        m.pie0 == (if o.pie0 is Some { o.pie0 } else { base.pie0 }),
        m.pie1 == (if o.pie1 is Some { o.pie1 } else { base.pie1 }),
        m.pie2 == (if o.pie2 is Some { o.pie2 } else { base.pie2 }),
        m.pie3 == (if o.pie3 is Some { o.pie3 } else { base.pie3 }),
        m.pie4 == (if o.pie4 is Some { o.pie4 } else { base.pie4 }),
        m.pie5 == (if o.pie5 is Some { o.pie5 } else { base.pie5 }),
        m.pie6 == (if o.pie6 is Some { o.pie6 } else { base.pie6 }),
        m.pie7 == (if o.pie7 is Some { o.pie7 } else { base.pie7 }),
        m.pie8 == (if o.pie8 is Some { o.pie8 } else { base.pie8 }),
        m.pie9 == (if o.pie9 is Some { o.pie9 } else { base.pie9 }),
        m.pie10 == (if o.pie10 is Some { o.pie10 } else { base.pie10 }),
        m.pie11 == (if o.pie11 is Some { o.pie11 } else { base.pie11 }),
        m.pie12 == (if o.pie12 is Some { o.pie12 } else { base.pie12 }),
        m.pie_legend_text_color == (if o.pie_legend_text_color is Some { o.pie_legend_text_color } else { base.pie_legend_text_color }),
        m.pie_legend_text_size == (if o.pie_legend_text_size is Some { o.pie_legend_text_size } else { base.pie_legend_text_size }),
        m.pie_opacity == (if o.pie_opacity is Some { o.pie_opacity } else { base.pie_opacity }),
        m.pie_outer_stroke_color == (if o.pie_outer_stroke_color is Some { o.pie_outer_stroke_color } else { base.pie_outer_stroke_color }),
        m.pie_outer_stroke_width == (if o.pie_outer_stroke_width is Some { o.pie_outer_stroke_width } else { base.pie_outer_stroke_width }),
        m.pie_section_text_color == (if o.pie_section_text_color is Some { o.pie_section_text_color } else { base.pie_section_text_color }),
        m.pie_section_text_size == (if o.pie_section_text_size is Some { o.pie_section_text_size } else { base.pie_section_text_size }),
        m.pie_stroke_color == (if o.pie_stroke_color is Some { o.pie_stroke_color } else { base.pie_stroke_color }),
        m.pie_stroke_width == (if o.pie_stroke_width is Some { o.pie_stroke_width } else { base.pie_stroke_width }),
        m.pie_title_text_color == (if o.pie_title_text_color is Some { o.pie_title_text_color } else { base.pie_title_text_color }),
        m.pie_title_text_size == (if o.pie_title_text_size is Some { o.pie_title_text_size } else { base.pie_title_text_size }),
        m.primary_border_color == (if o.primary_border_color is Some { o.primary_border_color } else { base.primary_border_color }),
        m.primary_color == (if o.primary_color is Some { o.primary_color } else { base.primary_color }),
        m.primary_text_color == (if o.primary_text_color is Some { o.primary_text_color } else { base.primary_text_color }),
        m.quadrant1_fill == (if o.quadrant1_fill is Some { o.quadrant1_fill } else { base.quadrant1_fill }),
        m.quadrant1_text_fill == (if o.quadrant1_text_fill is Some { o.quadrant1_text_fill } else { base.quadrant1_text_fill }),
        m.quadrant2_fill == (if o.quadrant2_fill is Some { o.quadrant2_fill } else { base.quadrant2_fill }),
        m.quadrant2_text_fill == (if o.quadrant2_text_fill is Some { o.quadrant2_text_fill } else { base.quadrant2_text_fill }),
        m.quadrant3_fill == (if o.quadrant3_fill is Some { o.quadrant3_fill } else { base.quadrant3_fill }),
        m.quadrant3_text_fill == (if o.quadrant3_text_fill is Some { o.quadrant3_text_fill } else { base.quadrant3_text_fill }),
        m.quadrant4_fill == (if o.quadrant4_fill is Some { o.quadrant4_fill } else { base.quadrant4_fill }),
        m.quadrant4_text_fill == (if o.quadrant4_text_fill is Some { o.quadrant4_text_fill } else { base.quadrant4_text_fill }),
        m.quadrant_external_border_stroke_fill == (if o.quadrant_external_border_stroke_fill is Some { o.quadrant_external_border_stroke_fill } else { base.quadrant_external_border_stroke_fill }),
        m.quadrant_internal_border_stroke_fill == (if o.quadrant_internal_border_stroke_fill is Some { o.quadrant_internal_border_stroke_fill } else { base.quadrant_internal_border_stroke_fill }),
        m.quadrant_point_fill == (if o.quadrant_point_fill is Some { o.quadrant_point_fill } else { base.quadrant_point_fill }),
        m.quadrant_point_text_fill == (if o.quadrant_point_text_fill is Some { o.quadrant_point_text_fill } else { base.quadrant_point_text_fill }),
        m.quadrant_title_fill == (if o.quadrant_title_fill is Some { o.quadrant_title_fill } else { base.quadrant_title_fill }),
        m.quadrant_x_axis_text_fill == (if o.quadrant_x_axis_text_fill is Some { o.quadrant_x_axis_text_fill } else { base.quadrant_x_axis_text_fill }),
        m.quadrant_y_axis_text_fill == (if o.quadrant_y_axis_text_fill is Some { o.quadrant_y_axis_text_fill } else { base.quadrant_y_axis_text_fill }),
        m.radius == (if o.radius is Some { o.radius } else { base.radius }),
        m.relation_color == (if o.relation_color is Some { o.relation_color } else { base.relation_color }),
        m.relation_label_background == (if o.relation_label_background is Some { o.relation_label_background } else { base.relation_label_background }),
        m.relation_label_color == (if o.relation_label_color is Some { o.relation_label_color } else { base.relation_label_color }),
        m.requirement_background == (if o.requirement_background is Some { o.requirement_background } else { base.requirement_background }),
        m.requirement_border_color == (if o.requirement_border_color is Some { o.requirement_border_color } else { base.requirement_border_color }),
        m.requirement_border_size == (if o.requirement_border_size is Some { o.requirement_border_size } else { base.requirement_border_size }),
        m.requirement_text_color == (if o.requirement_text_color is Some { o.requirement_text_color } else { base.requirement_text_color }),
        m.row_even == (if o.row_even is Some { o.row_even } else { base.row_even }),
        m.row_odd == (if o.row_odd is Some { o.row_odd } else { base.row_odd }),
        m.scale_label_color == (if o.scale_label_color is Some { o.scale_label_color } else { base.scale_label_color }),
        m.second_bkg == (if o.second_bkg is Some { o.second_bkg } else { base.second_bkg }),
        m.secondary_border_color == (if o.secondary_border_color is Some { o.secondary_border_color } else { base.secondary_border_color }),
        m.secondary_color == (if o.secondary_color is Some { o.secondary_color } else { base.secondary_color }),
        m.secondary_text_color == (if o.secondary_text_color is Some { o.secondary_text_color } else { base.secondary_text_color }),
        m.section_bkg_color == (if o.section_bkg_color is Some { o.section_bkg_color } else { base.section_bkg_color }),
        m.section_bkg_color2 == (if o.section_bkg_color2 is Some { o.section_bkg_color2 } else { base.section_bkg_color2 }),
        m.sequence_number_color == (if o.sequence_number_color is Some { o.sequence_number_color } else { base.sequence_number_color }),
        m.signal_color == (if o.signal_color is Some { o.signal_color } else { base.signal_color }),
        m.signal_text_color == (if o.signal_text_color is Some { o.signal_text_color } else { base.signal_text_color }),
        m.special_state_color == (if o.special_state_color is Some { o.special_state_color } else { base.special_state_color }),
        m.state_bkg == (if o.state_bkg is Some { o.state_bkg } else { base.state_bkg }),
        m.state_border == (if o.state_border is Some { o.state_border } else { base.state_border }),
        m.state_label_color == (if o.state_label_color is Some { o.state_label_color } else { base.state_label_color }),
        m.stroke_width == (if o.stroke_width is Some { o.stroke_width } else { base.stroke_width }),
        m.surface0 == (if o.surface0 is Some { o.surface0 } else { base.surface0 }),
        m.surface1 == (if o.surface1 is Some { o.surface1 } else { base.surface1 }),
        m.surface2 == (if o.surface2 is Some { o.surface2 } else { base.surface2 }),
        m.surface3 == (if o.surface3 is Some { o.surface3 } else { base.surface3 }),
        m.surface4 == (if o.surface4 is Some { o.surface4 } else { base.surface4 }),
        m.surface_peer0 == (if o.surface_peer0 is Some { o.surface_peer0 } else { base.surface_peer0 }),
        m.surface_peer1 == (if o.surface_peer1 is Some { o.surface_peer1 } else { base.surface_peer1 }),
        m.surface_peer2 == (if o.surface_peer2 is Some { o.surface_peer2 } else { base.surface_peer2 }),
        m.surface_peer3 == (if o.surface_peer3 is Some { o.surface_peer3 } else { base.surface_peer3 }),
        m.surface_peer4 == (if o.surface_peer4 is Some { o.surface_peer4 } else { base.surface_peer4 }),
        m.tag_label_background == (if o.tag_label_background is Some { o.tag_label_background } else { base.tag_label_background }),
        m.tag_label_border == (if o.tag_label_border is Some { o.tag_label_border } else { base.tag_label_border }),
        m.tag_label_color == (if o.tag_label_color is Some { o.tag_label_color } else { base.tag_label_color }),
        m.tag_label_font_size == (if o.tag_label_font_size is Some { o.tag_label_font_size } else { base.tag_label_font_size }),
        m.task_bkg_color == (if o.task_bkg_color is Some { o.task_bkg_color } else { base.task_bkg_color }),
        m.task_border_color == (if o.task_border_color is Some { o.task_border_color } else { base.task_border_color }),
        m.task_text_clickable_color == (if o.task_text_clickable_color is Some { o.task_text_clickable_color } else { base.task_text_clickable_color }),
        m.task_text_color == (if o.task_text_color is Some { o.task_text_color } else { base.task_text_color }),
        m.task_text_dark_color == (if o.task_text_dark_color is Some { o.task_text_dark_color } else { base.task_text_dark_color }),
        m.task_text_light_color == (if o.task_text_light_color is Some { o.task_text_light_color } else { base.task_text_light_color }),
        m.task_text_outside_color == (if o.task_text_outside_color is Some { o.task_text_outside_color } else { base.task_text_outside_color }),
        m.tertiary_border_color == (if o.tertiary_border_color is Some { o.tertiary_border_color } else { base.tertiary_border_color }),
        m.tertiary_color == (if o.tertiary_color is Some { o.tertiary_color } else { base.tertiary_color }),
        m.tertiary_text_color == (if o.tertiary_text_color is Some { o.tertiary_text_color } else { base.tertiary_text_color }),
        m.text == (if o.text is Some { o.text } else { base.text }),
        m.text_color == (if o.text_color is Some { o.text_color } else { base.text_color }),
        m.title_color == (if o.title_color is Some { o.title_color } else { base.title_color }),
        m.today_line_color == (if o.today_line_color is Some { o.today_line_color } else { base.today_line_color }),
        m.transition_color == (if o.transition_color is Some { o.transition_color } else { base.transition_color }),
        m.transition_label_color == (if o.transition_label_color is Some { o.transition_label_color } else { base.transition_label_color }),
        m.use_gradient == (if o.use_gradient is Some { o.use_gradient } else { base.use_gradient }),
        m.venn1 == (if o.venn1 is Some { o.venn1 } else { base.venn1 }),
        m.venn2 == (if o.venn2 is Some { o.venn2 } else { base.venn2 }),
        m.venn3 == (if o.venn3 is Some { o.venn3 } else { base.venn3 }),
        m.venn4 == (if o.venn4 is Some { o.venn4 } else { base.venn4 }),
        m.venn5 == (if o.venn5 is Some { o.venn5 } else { base.venn5 }),
        m.venn6 == (if o.venn6 is Some { o.venn6 } else { base.venn6 }),
        m.venn7 == (if o.venn7 is Some { o.venn7 } else { base.venn7 }),
        m.venn8 == (if o.venn8 is Some { o.venn8 } else { base.venn8 }),
        m.venn_set_text_color == (if o.venn_set_text_color is Some { o.venn_set_text_color } else { base.venn_set_text_color }),
        m.venn_title_text_color == (if o.venn_title_text_color is Some { o.venn_title_text_color } else { base.venn_title_text_color }),
        m.vert_line_color == (if o.vert_line_color is Some { o.vert_line_color } else { base.vert_line_color }),
        o.packet is None ==> m.packet == base.packet,
        o.packet is Some ==> m.packet is Some,
        o.packet is Some ==> m.packet->0.block_fill_color == (if o.packet->0.block_fill_color is Some { o.packet->0.block_fill_color } else if base.packet is Some { base.packet->0.block_fill_color } else { None }),
        o.packet is Some ==> m.packet->0.block_stroke_color == (if o.packet->0.block_stroke_color is Some { o.packet->0.block_stroke_color } else if base.packet is Some { base.packet->0.block_stroke_color } else { None }),
        o.packet is Some ==> m.packet->0.end_byte_color == (if o.packet->0.end_byte_color is Some { o.packet->0.end_byte_color } else if base.packet is Some { base.packet->0.end_byte_color } else { None }),
        o.packet is Some ==> m.packet->0.label_color == (if o.packet->0.label_color is Some { o.packet->0.label_color } else if base.packet is Some { base.packet->0.label_color } else { None }),
        o.packet is Some ==> m.packet->0.start_byte_color == (if o.packet->0.start_byte_color is Some { o.packet->0.start_byte_color } else if base.packet is Some { base.packet->0.start_byte_color } else { None }),
        o.packet is Some ==> m.packet->0.title_color == (if o.packet->0.title_color is Some { o.packet->0.title_color } else if base.packet is Some { base.packet->0.title_color } else { None }),
        o.radar is None ==> m.radar == base.radar,
        o.radar is Some ==> m.radar is Some,
        o.radar is Some ==> m.radar->0.axis_color == (if o.radar->0.axis_color is Some { o.radar->0.axis_color } else if base.radar is Some { base.radar->0.axis_color } else { None }),
        o.radar is Some ==> m.radar->0.axis_label_font_size == (if o.radar->0.axis_label_font_size is Some { o.radar->0.axis_label_font_size } else if base.radar is Some { base.radar->0.axis_label_font_size } else { None }),
        o.radar is Some ==> m.radar->0.axis_stroke_width == (if o.radar->0.axis_stroke_width is Some { o.radar->0.axis_stroke_width } else if base.radar is Some { base.radar->0.axis_stroke_width } else { None }),
        o.radar is Some ==> m.radar->0.curve_opacity == (if o.radar->0.curve_opacity is Some { o.radar->0.curve_opacity } else if base.radar is Some { base.radar->0.curve_opacity } else { None }),
        o.radar is Some ==> m.radar->0.curve_stroke_width == (if o.radar->0.curve_stroke_width is Some { o.radar->0.curve_stroke_width } else if base.radar is Some { base.radar->0.curve_stroke_width } else { None }),
        o.radar is Some ==> m.radar->0.graticule_color == (if o.radar->0.graticule_color is Some { o.radar->0.graticule_color } else if base.radar is Some { base.radar->0.graticule_color } else { None }),
        o.radar is Some ==> m.radar->0.graticule_opacity == (if o.radar->0.graticule_opacity is Some { o.radar->0.graticule_opacity } else if base.radar is Some { base.radar->0.graticule_opacity } else { None }),
        o.radar is Some ==> m.radar->0.graticule_stroke_width == (if o.radar->0.graticule_stroke_width is Some { o.radar->0.graticule_stroke_width } else if base.radar is Some { base.radar->0.graticule_stroke_width } else { None }),
        o.radar is Some ==> m.radar->0.legend_box_size == (if o.radar->0.legend_box_size is Some { o.radar->0.legend_box_size } else if base.radar is Some { base.radar->0.legend_box_size } else { None }),
        o.radar is Some ==> m.radar->0.legend_font_size == (if o.radar->0.legend_font_size is Some { o.radar->0.legend_font_size } else if base.radar is Some { base.radar->0.legend_font_size } else { None }),
        o.xy_chart is None ==> m.xy_chart == base.xy_chart,
        o.xy_chart is Some ==> m.xy_chart is Some,
        o.xy_chart is Some ==> m.xy_chart->0.background_color == (if o.xy_chart->0.background_color is Some { o.xy_chart->0.background_color } else if base.xy_chart is Some { base.xy_chart->0.background_color } else { None }),
        o.xy_chart is Some ==> m.xy_chart->0.data_label_color == (if o.xy_chart->0.data_label_color is Some { o.xy_chart->0.data_label_color } else if base.xy_chart is Some { base.xy_chart->0.data_label_color } else { None }),
        o.xy_chart is Some ==> m.xy_chart->0.plot_color_palette == (if o.xy_chart->0.plot_color_palette is Some { o.xy_chart->0.plot_color_palette } else if base.xy_chart is Some { base.xy_chart->0.plot_color_palette } else { None }),
        o.xy_chart is Some ==> m.xy_chart->0.title_color == (if o.xy_chart->0.title_color is Some { o.xy_chart->0.title_color } else if base.xy_chart is Some { base.xy_chart->0.title_color } else { None }),
        o.xy_chart is Some ==> m.xy_chart->0.x_axis_label_color == (if o.xy_chart->0.x_axis_label_color is Some { o.xy_chart->0.x_axis_label_color } else if base.xy_chart is Some { base.xy_chart->0.x_axis_label_color } else { None }),
        o.xy_chart is Some ==> m.xy_chart->0.x_axis_line_color == (if o.xy_chart->0.x_axis_line_color is Some { o.xy_chart->0.x_axis_line_color } else if base.xy_chart is Some { base.xy_chart->0.x_axis_line_color } else { None }),
        o.xy_chart is Some ==> m.xy_chart->0.x_axis_tick_color == (if o.xy_chart->0.x_axis_tick_color is Some { o.xy_chart->0.x_axis_tick_color } else if base.xy_chart is Some { base.xy_chart->0.x_axis_tick_color } else { None }),
        o.xy_chart is Some ==> m.xy_chart->0.x_axis_title_color == (if o.xy_chart->0.x_axis_title_color is Some { o.xy_chart->0.x_axis_title_color } else if base.xy_chart is Some { base.xy_chart->0.x_axis_title_color } else { None }),
        o.xy_chart is Some ==> m.xy_chart->0.y_axis_label_color == (if o.xy_chart->0.y_axis_label_color is Some { o.xy_chart->0.y_axis_label_color } else if base.xy_chart is Some { base.xy_chart->0.y_axis_label_color } else { None }),
        o.xy_chart is Some ==> m.xy_chart->0.y_axis_line_color == (if o.xy_chart->0.y_axis_line_color is Some { o.xy_chart->0.y_axis_line_color } else if base.xy_chart is Some { base.xy_chart->0.y_axis_line_color } else { None }),
        o.xy_chart is Some ==> m.xy_chart->0.y_axis_tick_color == (if o.xy_chart->0.y_axis_tick_color is Some { o.xy_chart->0.y_axis_tick_color } else if base.xy_chart is Some { base.xy_chart->0.y_axis_tick_color } else { None }),
        o.xy_chart is Some ==> m.xy_chart->0.y_axis_title_color == (if o.xy_chart->0.y_axis_title_color is Some { o.xy_chart->0.y_axis_title_color } else if base.xy_chart is Some { base.xy_chart->0.y_axis_title_color } else { None }),
{
}

/// Law: laying an empty override over a theme leaves it unchanged.
pub proof fn law_merge_empty_identity(base: ThemeVariables)
    ensures
        base.merged(ThemeVariables::empty()) == base,
{
}

/// Law: laying the same override twice has the effect of laying it once.
pub proof fn law_merge_idempotent(base: ThemeVariables, o: ThemeVariables)
    ensures
        base.merged(o).merged(o) == base.merged(o),
{
    assert(base.merged(o).merged(o).packet == base.merged(o).packet);
    assert(base.merged(o).merged(o).radar == base.merged(o).radar);
    assert(base.merged(o).merged(o).xy_chart == base.merged(o).xy_chart);
}

proof fn lemma_group_assoc<T>(a: Option<T>, b: Option<T>, c: Option<T>, empty: T, lay: spec_fn(T, T) -> T)
    requires
        forall|x: T, y: T, z: T| #[trigger] lay(lay(x, y), z) == lay(x, lay(y, z)),
        forall|y: T| #[trigger] lay(empty, y) == y,
    ensures
        merged_group(merged_group(a, b, empty, lay), c, empty, lay) == merged_group(
            a,
            merged_group(b, c, empty, lay),
            empty,
            lay,
        ),
{
    if let Some(cc) = c {
        if b is None {
            let x = match a {
                Some(d) => d,
                None => empty,
            };
            assert(lay(x, lay(empty, cc)) == lay(x, cc));
        } else {
            let x = match a {
                Some(d) => d,
                None => empty,
            };
            assert(lay(lay(x, b.unwrap()), cc) == lay(x, lay(b.unwrap(), cc)));
        }
    }
}

/// Law: laying `b` then `c` over a theme equals laying over it the single
/// override obtained by laying `c` over `b`.
#[verifier::rlimit(50)]
pub proof fn law_merge_associative(a: ThemeVariables, b: ThemeVariables, c: ThemeVariables)
    ensures
        a.merged(b).merged(c) == a.merged(b.merged(c)),
{
    let lp = |d: PacketVars, s: PacketVars| d.overlaid(s);
    let lr = |d: RadarVars, s: RadarVars| d.overlaid(s);
    let lx = |d: XyChartVars, s: XyChartVars| d.overlaid(s);
    assert forall|x: PacketVars, y: PacketVars, z: PacketVars| #[trigger] lp(lp(x, y), z) == lp(x, lp(y, z)) by {}
    assert forall|y: PacketVars| #[trigger] lp(PacketVars::empty(), y) == y by {}
    assert forall|x: RadarVars, y: RadarVars, z: RadarVars| #[trigger] lr(lr(x, y), z) == lr(x, lr(y, z)) by {}
    assert forall|y: RadarVars| #[trigger] lr(RadarVars::empty(), y) == y by {}
    assert forall|x: XyChartVars, y: XyChartVars, z: XyChartVars| #[trigger] lx(lx(x, y), z) == lx(x, lx(y, z)) by {}
    assert forall|y: XyChartVars| #[trigger] lx(XyChartVars::empty(), y) == y by {}
    lemma_group_assoc(a.packet, b.packet, c.packet, PacketVars::empty(), lp);
    lemma_group_assoc(a.radar, b.radar, c.radar, RadarVars::empty(), lr);
    lemma_group_assoc(a.xy_chart, b.xy_chart, c.xy_chart, XyChartVars::empty(), lx);
}

// ---------------------------------------------------------------------------
// Reading a theme value with a default
// ---------------------------------------------------------------------------

/// The text of an optional theme string, or `d` when it is unset.
pub open spec fn text_or(o: Option<String>, d: Seq<char>) -> Seq<char> {
    match o {
        Some(s) => s@,
        None => d,
    }
}

/// The text of the first set one of two optional theme strings, or `d`.
pub open spec fn text_or2(a: Option<String>, b: Option<String>, d: Seq<char>) -> Seq<char> {
    match a {
        Some(s) => s@,
        None => text_or(b, d),
    }
}

/// An optional theme number, or `d` when it is unset.
pub open spec fn int_or(o: Option<i64>, d: int) -> int {
    match o {
        Some(n) => n as int,
        None => d,
    }
}

pub fn str_or<'a>(o: &'a Option<String>, d: &'a str) -> (r: &'a str)
    ensures
        r@ == text_or(*o, d@),
{
    match o {
        Some(s) => s.as_str(),
        None => d,
    }
}

pub fn str_or2<'a>(a: &'a Option<String>, b: &'a Option<String>, d: &'a str) -> (r: &'a str)
    ensures
        r@ == text_or2(*a, *b, d@),
{
    match a {
        Some(s) => s.as_str(),
        None => str_or(b, d),
    }
}

} // verus!
