use nexrad_workbench::event_modal::{BrowserTime, SavedEvent};
use nexrad_workbench::playback::PlaybackState;
use nexrad_workbench::right_panel::{
    entry_label, event_color, event_range_text, events_of_others, events_of_site,
    format_event_time, format_event_time_local, navigate_to_event, other_event_text,
    other_events_text, product_available, rendering_options, storage_text, storage_usage,
    unavailable_hover, waveform_badge, CutTag, ElevationChoice, ElevationEntry, Tools,
};
use nexrad_workbench::transport::ElevationSelection;

fn event(id: u64, site: &str) -> SavedEvent {
    SavedEvent {
        id,
        name: "Storm".to_string(),
        site_id: site.to_string(),
        start_time: 1_700_000_000,
        end_time: 1_700_000_101,
    }
}

#[test]
fn the_picked_elevation_comes_back() {
    let mut c = ElevationChoice {
        selection: ElevationSelection::Latest,
        last_fixed: None,
    };
    c.set_auto(false);
    assert!(c.is_picked(1));
    c.pick(4, 2_400);
    c.set_auto(true);
    assert_eq!(c.selection, ElevationSelection::Latest);
    assert!(!c.is_picked(4));
    c.set_auto(false);
    assert_eq!(
        c.selection,
        ElevationSelection::Fixed {
            elevation_number: 4,
            angle: 2_400
        }
    );
}

#[test]
fn unlisted_products_are_allowed() {
    assert!(product_available(&Vec::new(), "velocity"));
    let listed = vec!["reflectivity".to_string()];
    assert!(product_available(&listed, "reflectivity"));
    assert!(!product_available(&listed, "velocity"));
    assert_eq!(
        unavailable_hover("Velocity"),
        "Velocity not available at this elevation"
    );
}

#[test]
fn elevations_are_listed() {
    assert_eq!(entry_label(1, 483), "1   0.5\u{b0}");
    assert_eq!(entry_label(12, 19_500), "12  19.5\u{b0}");
    assert_eq!(waveform_badge(""), None);
    assert_eq!(waveform_badge("CS").unwrap().g, 200);
    assert_eq!(waveform_badge("B").unwrap().b, 255);
    assert_eq!(rendering_options(true, true), (false, false));
    assert_eq!(rendering_options(false, true), (true, true));
}

#[test]
fn tools_forget_what_no_longer_holds() {
    let mut t = Tools {
        distance_active: true,
        distance_start: Some((1, 2)),
        distance_end: Some((3, 4)),
        storm_threshold: 400,
        storms: vec![1, 2],
    };
    t.set_distance(true);
    assert!(t.distance_start.is_some());
    t.set_distance(false);
    assert!(t.distance_start.is_none() && t.distance_end.is_none());
    t.set_storm_threshold(450);
    assert!(t.storms.is_empty());
    assert_eq!(t.storm_threshold, 450);
}

#[test]
fn events_are_split_by_site() {
    let events = vec![event(1, "KTLX"), event(2, "KOUN"), event(3, "KTLX")];
    assert_eq!(events_of_site(&events, "KTLX"), vec![0, 2]);
    assert_eq!(events_of_others(&events, "KTLX"), vec![1]);
    assert_eq!(other_events_text(1), "1 events on other sites");
    assert_eq!(other_event_text(&events[1]), "Storm (KOUN)");
    assert_eq!(event_range_text("a", "b"), "a - b");
}

#[test]
fn going_to_an_event_selects_it() {
    let mut p = PlaybackState::default();
    let n = navigate_to_event(&event(1, "KTLX"), "KOUN", true, &mut p);
    assert!(n.switch_site);
    assert_eq!(n.center_ms, 1_700_000_050_500);
    assert_eq!(p.selection, Some((1_700_000_000_000, 1_700_000_101_000)));
    assert!(!navigate_to_event(&event(1, "KTLX"), "KTLX", true, &mut p).switch_site);
    assert!(!navigate_to_event(&event(1, "KTLX"), "KOUN", false, &mut p).switch_site);
}

#[test]
fn event_times_are_written() {
    assert_eq!(format_event_time(1_705_321_845), "2024-01-15 12:30");
    let t = BrowserTime {
        year: 2024,
        month0: 0,
        day: 5,
        hour: 7,
        minute: 8,
        second: 9,
    };
    assert_eq!(format_event_time_local(t), "2024-01-05 07:08");
}

#[test]
fn events_repeat_their_colours_after_six() {
    assert_eq!(event_color(1), event_color(7));
    let c = event_color(0);
    assert_eq!((c.r, c.g, c.b), (255, 200, 80));
    assert_ne!(event_color(5), event_color(6));
}

#[test]
fn the_storage_bar_warns() {
    assert_eq!(storage_usage(5, 0).percent, 0);
    assert_eq!(storage_usage(700, 1_000).color.g, 160);
    assert_eq!(storage_usage(701, 1_000).color.g, 180);
    assert_eq!(storage_usage(901, 1_000).color.r, 220);
    assert_eq!(storage_usage(901, 1_000).color.g, 80);
    assert_eq!(storage_usage(905, 1_000).percent, 90);
    assert_eq!(storage_usage(2_000, 1_000).percent, 100);
    assert_eq!(storage_text("1 MB", "4 MB", 25), "1 MB / 4 MB (25%)");
}

fn cut(elevation_number: u8, angle: i32) -> ElevationEntry {
    ElevationEntry {
        elevation_number,
        angle,
        waveform: "CS".to_string(),
        is_sails: false,
        is_mrle: false,
        available_products: Vec::new(),
    }
}

#[test]
fn the_elevation_list_follows_the_pattern() {
    let mut c = ElevationChoice {
        selection: ElevationSelection::Fixed {
            elevation_number: 1,
            angle: 500,
        },
        last_fixed: None,
    };
    let none: Vec<ElevationEntry> = Vec::new();
    let rows = c.rows(&none, "velocity");
    assert_eq!(rows.len(), 1);
    assert_eq!(rows[0].label, "1   0.5\u{b0} (default)");
    assert!(rows[0].selected && rows[0].enabled && rows[0].badge.is_none());

    let mut repeat = cut(2, 480);
    repeat.is_sails = true;
    repeat.is_mrle = true;
    repeat.waveform = String::new();
    repeat.available_products = vec!["reflectivity".to_string()];
    let entries = vec![cut(1, 500), repeat];
    c.pick_row(&entries, 1);
    let rows = c.rows(&entries, "velocity");
    assert_eq!(rows[0].label, "1   0.5\u{b0}");
    assert!(!rows[0].selected && rows[0].enabled && rows[0].badge.is_some());
    assert!(rows[1].selected && !rows[1].enabled && rows[1].badge.is_none());
    assert_eq!(rows[1].tags, vec![CutTag::Sails, CutTag::Mrle]);
    assert_eq!(CutTag::Sails.label(), "SAILS");
    assert_eq!(CutTag::Mrle.label(), "MRLE");
    assert_eq!(
        CutTag::Mrle.hover(),
        "Mid-Volume Rescan of Low-Level Elevations"
    );
    assert!(CutTag::Sails.hover().starts_with("Supplemental"));
    c.pick_row(&none, 0);
    assert!(c.is_picked(1));
}
