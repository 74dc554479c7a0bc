use vison::theme::{RadarVars, ThemeVariables};

// The built-in default theme's values that this test relies on (its
// primary colour and background, and its radar axis-label size) are set
// on the baseline by hand.
fn default_like() -> ThemeVariables {
    let mut base = ThemeVariables::new();
    base.primary_color = Some("#ECECFF".into());
    base.background = Some("white".into());
    let mut radar = RadarVars::new();
    radar.axis_label_font_size = Some(12);
    base.radar = Some(radar);
    base
}

#[test]
fn merge_overlays_user_supplied_fields() {
    let mut base = default_like();
    let mut overrides = ThemeVariables::new();
    overrides.primary_color = Some("#123456".into());
    overrides.radar = Some(RadarVars {
        axis_color: Some("#abcdef".into()),
        ..Default::default()
    });
    base.merge(overrides);
    assert_eq!(base.primary_color.as_deref(), Some("#123456"));
    // Sibling fields preserved.
    assert_eq!(base.background.as_deref(), Some("white"));
    // Radar merged per-field (not replaced wholesale).
    let radar = base.radar.expect("radar present");
    assert_eq!(radar.axis_color.as_deref(), Some("#abcdef"));
    assert_eq!(radar.axis_label_font_size, Some(12));
}

#[test]
fn merge_with_empty_override_keeps_everything() {
    let mut base = default_like();
    base.merge(ThemeVariables::new());
    assert_eq!(base.primary_color.as_deref(), Some("#ECECFF"));
    assert_eq!(base.background.as_deref(), Some("white"));
    assert_eq!(base.radar.expect("radar").axis_label_font_size, Some(12));
}

#[test]
fn merge_adds_a_group_missing_from_the_baseline() {
    let mut base = ThemeVariables::new();
    let mut overrides = ThemeVariables::new();
    let mut radar = RadarVars::new();
    radar.axis_color = Some("#000".into());
    overrides.radar = Some(radar);
    overrides.stroke_width = Some(3);
    base.merge(overrides);
    assert_eq!(base.radar.expect("radar").axis_color.as_deref(), Some("#000"));
    assert_eq!(base.stroke_width, Some(3));
}

#[test]
fn theme_records_compare_by_value() {
    let a = default_like();
    let b = default_like();
    assert_eq!(a, b);
    let mut c = default_like();
    c.background = Some("black".into());
    assert_ne!(a, c);
    assert_eq!(RadarVars::new(), RadarVars::default());
}
