use nexrad_workbench::colors::{
    acquisition, canvas, live, mode, mping, radar, sites, timeline, ui, Color32,
};
use nexrad_workbench::mping::ReportCategory;

fn array(c: Color32) -> [u8; 4] {
    [c.r, c.g, c.b, c.a]
}

#[test]
fn ui_label_value_theme_branches() {
    assert_eq!(array(ui::label(true)), [100, 100, 100, 255]);
    assert_eq!(array(ui::label(false)), [120, 120, 120, 255]);
    assert_eq!(array(ui::value(true)), [160, 160, 160, 255]);
    assert_eq!(array(ui::value(false)), [60, 60, 60, 255]);
}

#[test]
fn ui_const_accents() {
    assert_eq!(array(ui::active()), [100, 180, 255, 255]);
    assert_eq!(array(ui::success()), [100, 200, 100, 255]);
}

#[test]
fn live_and_mode_red_family() {
    let red = [255u8, 80, 80, 255];
    assert_eq!(array(live::streaming()), red);
    assert_eq!(array(mode::live()), red);
    assert_eq!(array(timeline::live_active()), red);
    assert_eq!(array(live::acquiring()), [255, 180, 50, 255]);
    assert_eq!(array(live::waiting()), [100, 180, 255, 255]);
}

#[test]
fn mode_distinct_states() {
    assert_eq!(array(mode::idle()), [100, 100, 100, 255]);
    assert_eq!(array(mode::archive()), [100, 180, 255, 255]);
    assert_ne!(array(mode::idle()), array(mode::archive()));
    assert_ne!(array(mode::archive()), array(mode::live()));
    assert_ne!(array(mode::idle()), array(mode::live()));
}

#[test]
fn radar_stale_lines_are_more_transparent() {
    assert_eq!(array(radar::sweep_line()), [100, 255, 100, 255]);
    assert_eq!(radar::sweep_start_line().a, 180);
    assert_eq!(radar::sweep_start_line_stale().a, 100);
    assert_eq!(radar::sweep_line_stale().a, 140);
}

#[test]
fn timeline_background_and_border_themes() {
    assert_eq!(array(timeline::background(true)), [10, 10, 14, 255]);
    assert_eq!(array(timeline::background(false)), [230, 230, 235, 255]);
    assert_eq!(array(timeline::border(true)), [60, 60, 80, 255]);
    assert_eq!(array(timeline::border(false)), [180, 180, 195, 255]);
}

#[test]
fn timeline_tick_hierarchy() {
    assert_eq!(array(timeline::tick_major(true)), [120, 120, 140, 255]);
    assert_eq!(array(timeline::tick_minor(true)), [60, 60, 80, 255]);
    assert_ne!(array(timeline::tick_major(true)), array(timeline::tick_major(false)));
    assert_eq!(array(timeline::tick_label(true)), [140, 140, 160, 255]);
    assert_eq!(array(timeline::tick_label(false)), [60, 60, 80, 255]);
}

#[test]
fn timeline_selection_is_near_white_on_dark() {
    assert_eq!(array(timeline::selection(true)), [235, 240, 250, 255]);
    assert_eq!(array(timeline::selection(false)), [40, 45, 60, 255]);
}

#[test]
fn timeline_active_sweep_accents() {
    assert_eq!(array(timeline::active_sweep()), [255, 255, 100, 255]);
    assert_eq!(array(timeline::prev_active_sweep()), [110, 110, 43, 110]);
}

#[test]
fn timeline_now_idle_vs_active_red() {
    assert_eq!(array(timeline::now_idle()), [200, 95, 95, 255]);
    assert_eq!(array(timeline::live_active()), [255, 80, 80, 255]);
}

#[test]
fn timeline_cached_fill_alpha_tiers() {
    assert_eq!(timeline::cached_fill(true, false).a, 235);
    assert_eq!(timeline::cached_fill(true, true).a, 120);
    assert_eq!(timeline::cached_fill(false, false).a, 235);
    assert_eq!(timeline::cached_fill(false, true).a, 120);
}

#[test]
fn timeline_available_fill_and_border_alpha() {
    assert_eq!(timeline::available_fill(true).a, 36);
    assert_eq!(timeline::available_border(true).a, 120);
    assert_eq!(
        array(timeline::cell_available_border(true)),
        array(timeline::available_border(true))
    );
    assert_eq!(
        array(timeline::cell_available_fill(false)),
        array(timeline::available_fill(false))
    );
}

#[test]
fn timeline_cell_inflight_ordering() {
    assert_eq!(timeline::cell_cached(true).a, 230);
    assert_eq!(timeline::cell_inflight(true).a, 150);
    assert_eq!(timeline::cell_inflight_border(true).a, 180);
    assert_eq!(timeline::cell_projected_fill(true).a, 24);
}

#[test]
fn timeline_status_word_tints() {
    assert_eq!(array(timeline::status_cached()), [125, 170, 220, 255]);
    assert_eq!(array(timeline::status_available()), [150, 165, 200, 255]);
}

#[test]
fn timeline_event_palette_shares_neutral_hue() {
    assert_eq!(timeline::event_fill().a, 22);
    assert_eq!(timeline::event_border().a, 150);
    assert_eq!(array(timeline::event_label()), [190, 198, 215, 255]);
}

#[test]
fn timeline_block_label_weak_is_dimmer() {
    assert_eq!(timeline::block_label().a, 200);
    assert_eq!(timeline::block_label_weak().a, 110);
}

#[test]
fn translucent_colours_are_premultiplied() {
    assert_eq!(array(timeline::selection_fill()), [24, 25, 28, 34]);
}

#[test]
fn canvas_background_and_marker_themes() {
    assert_eq!(array(canvas::background(true)), [0, 0, 0, 255]);
    assert_eq!(array(canvas::background(false)), [235, 235, 240, 255]);
    assert_eq!(array(canvas::center_marker(true)), [180, 180, 200, 255]);
    assert_eq!(array(canvas::center_marker(false)), [80, 80, 100, 255]);
    assert_eq!(canvas::ring(true).a, 120);
    assert_eq!(canvas::ring_major(true).a, 150);
    assert_eq!(canvas::radial(true).a, 80);
}

#[test]
fn acquisition_status_colors_distinct() {
    assert_eq!(array(acquisition::queued()), [120, 160, 200, 255]);
    assert_eq!(array(acquisition::active()), [100, 180, 255, 255]);
    assert_eq!(array(acquisition::completed()), [100, 200, 100, 255]);
    assert_eq!(array(acquisition::failed()), [255, 100, 100, 255]);
    assert_eq!(array(acquisition::cancelled()), [120, 120, 120, 255]);
}

#[test]
fn mping_fill_category_table() {
    assert_eq!(array(mping::fill(ReportCategory::RainSnow)), [120, 200, 255, 255]);
    assert_eq!(array(mping::fill(ReportCategory::Hail)), [255, 230, 80, 255]);
    assert_eq!(array(mping::fill(ReportCategory::WindDamage)), [255, 160, 60, 255]);
    assert_eq!(array(mping::fill(ReportCategory::Tornado)), [255, 80, 80, 255]);
    assert_eq!(array(mping::fill(ReportCategory::Flood)), [80, 120, 220, 255]);
    assert_eq!(
        array(mping::fill(ReportCategory::ReducedVisibility)),
        [180, 180, 180, 255]
    );
    assert_eq!(array(mping::fill(ReportCategory::Other)), [220, 220, 220, 255]);
}

#[test]
fn mping_stroke_is_near_black() {
    assert_eq!(array(mping::stroke()), [20, 20, 25, 255]);
}

#[test]
fn sites_current_vs_other() {
    assert_eq!(array(sites::other()), [255, 180, 80, 255]);
    assert_eq!(array(sites::other_stroke()), [180, 120, 40, 255]);
    assert_eq!(array(sites::current()), [50, 200, 255, 255]);
    assert_eq!(array(sites::current_stroke()), [30, 150, 200, 255]);
    assert_eq!(array(sites::current_label()), array(sites::current()));
    assert_eq!(array(sites::label()), [220, 220, 240, 255]);
}
