use nexrad_workbench::alerts_modal::format_absolute;
use nexrad_workbench::calendar::CivilTime;
use nexrad_workbench::chrome::Chrome;
use nexrad_workbench::diagnostics::Diagnostics;
use nexrad_workbench::event_modal::{BrowserTime, EventModalState, TimeFields};
use nexrad_workbench::layout::{next_layer, Layer, LayoutCtx};
use nexrad_workbench::sweep::{
    angle_of, chunk_color, data_arc, donut_labels, is_current_segment, live_labels, live_texts,
    playback_texts, previous_completed, ring_style, segment_chunk, Chunk, CompletedSweep,
    DonutLabel, DonutTexts, LiveSweep, PreviousSweep, ShownSweep,
};

fn texts() -> DonutTexts {
    playback_texts(
        "12:05".to_string(),
        Some(ShownSweep {
            number: 2,
            angle: 900,
            start: "12:04".to_string(),
        }),
        Some(PreviousSweep {
            angle: 500,
            end: "12:03".to_string(),
            at_edge: "12:02".to_string(),
        }),
        Some(1),
    )
}

fn shown(labels: &[DonutLabel]) -> Vec<(i64, String, Option<String>)> {
    labels
        .iter()
        .map(|l| (l.azimuth, l.left.clone(), l.right.clone()))
        .collect()
}

#[test]
fn playback_says_what_both_sweeps_are() {
    let t = texts();
    assert_eq!(t.cur_meta, Some("Elev 2 0.9\u{b0}".to_string()));
    assert_eq!(t.prev_meta, Some("Elev 1 0.5\u{b0}".to_string()));
    assert_eq!(t.cur_edge, Some("12:05".to_string()));
}

#[test]
fn a_half_turn_has_four_labels() {
    let labels = shown(&donut_labels(190_000, 10_000, &texts()));
    assert_eq!(
        labels,
        vec![
            (10_000, "12:04".to_string(), Some("12:03".to_string())),
            (190_000, "12:05".to_string(), Some("12:02".to_string())),
            (280_000, "Elev 1 0.5\u{b0}".to_string(), None),
            (100_000, "Elev 2 0.9\u{b0}".to_string(), None),
        ]
    );
}

#[test]
fn a_full_turn_joins_its_ends() {
    let labels = shown(&donut_labels(355_000, 0, &texts()));
    assert_eq!(labels[0], (355_000, "12:04".to_string(), Some("12:05".to_string())));
    assert_eq!(labels.len(), 2);
}

#[test]
fn a_short_turn_leaves_out_its_start() {
    let labels = shown(&donut_labels(20_000, 0, &texts()));
    assert_eq!(labels.len(), 2);
    assert_eq!(labels[0].0, 20_000);
    assert_eq!(labels[1].1, "Elev 1 0.5\u{b0}");
}

#[test]
fn live_sweeps_take_their_angles_from_the_pattern() {
    let angles = vec![500, 900];
    assert_eq!(angle_of(&angles, 2), Some(900));
    assert_eq!(angle_of(&angles, 3), None);
    let t = live_texts(
        Some("a".to_string()),
        Some("b".to_string()),
        Some(2),
        &vec![1],
        Some(("c".to_string(), "d".to_string())),
        &angles,
    );
    assert_eq!(t.cur_meta, Some("Elev 2 0.9\u{b0}".to_string()));
    assert_eq!(t.prev_meta, Some("Elev 1 0.5\u{b0}".to_string()));
    assert_eq!(t.cur_start, Some("a".to_string()));
    assert_eq!(t.cur_edge, Some("b".to_string()));
    let done = vec![CompletedSweep {
        number: 1,
        start_ms: 0,
        end_ms: 1,
    }];
    assert_eq!(previous_completed(&vec![2, 1], &done), Some(0));
    assert_eq!(previous_completed(&vec![1, 2], &done), None);
    assert_eq!(previous_completed(&vec![], &done), None);
}

fn chunks() -> Vec<Chunk> {
    vec![
        Chunk {
            first_az: 0,
            last_az: 60_000,
            radials: 120,
        },
        Chunk {
            first_az: 60_500,
            last_az: 70_000,
            radials: 20,
        },
    ]
}

#[test]
fn chunks_colour_the_ring() {
    assert_eq!(segment_chunk(&chunks(), 0, 10), Some(0));
    assert_eq!(segment_chunk(&chunks(), 0, 65), Some(1));
    assert_eq!(segment_chunk(&chunks(), 0, 200), None);
    assert_ne!(chunk_color(Some(0)), chunk_color(Some(1)));
    assert_eq!(chunk_color(Some(0)), chunk_color(Some(8)));
    assert_eq!(data_arc(&chunks(), 0), 70_000);
    assert!(is_current_segment(0, 70_000) && !is_current_segment(100, 70_000));
}

#[test]
fn chunks_are_labelled_where_they_are_wide() {
    let l = LiveSweep {
        in_progress: Some(2),
        radials: 140,
        received: vec![1],
        expected_count: Some(14),
        angles: vec![500, 900],
    };
    let labels = shown(&live_labels(&chunks(), 70_000, 0, &l));
    assert_eq!(
        labels,
        vec![
            (30_000, "C1 \u{b7} 120r".to_string(), None),
            (
                70_000,
                "Sweep 2 0.9\u{b0} \u{b7} 140r \u{b7} 1/14 elev".to_string(),
                None
            ),
            (215_000, "Prev sweep 1 0.5\u{b0}".to_string(), None),
        ]
    );
}

#[test]
fn every_other_range_ring_is_bold() {
    assert_eq!(ring_style(0, true).1, 15);
    assert_eq!(ring_style(1, true).1, 10);
    assert_ne!(ring_style(0, true).0, ring_style(0, false).0);
}

#[test]
fn layers_are_walked_in_order() {
    let chrome = Chrome::new();
    let diagnostics = Diagnostics::new();
    let ctx = LayoutCtx {
        chrome: &chrome,
        diagnostics: &diagnostics,
        is_mobile: false,
        show_advanced: false,
        event_form_filled: false,
        mping_entry_filled: false,
    };
    let mut seen: Vec<Layer> = Vec::new();
    let mut from = 0;
    while let Some((at, layer)) = next_layer(false, from, &ctx) {
        assert!(at >= from);
        assert!(layer.visible(&ctx));
        seen.push(layer);
        from = at + 1;
    }
    assert!(seen.contains(&Layer::TopBar));
    assert!(!seen.contains(&Layer::LeftPanel));
    assert!(!seen.contains(&Layer::SiteModal));
}

#[test]
fn forms_carry_local_times() {
    let t = BrowserTime {
        year: 2024,
        month0: 6,
        day: 4,
        hour: 1,
        minute: 2,
        second: 3,
    };
    let mut s = EventModalState::default();
    s.init_local("Storm", "KTLX", t, t);
    assert_eq!(s.start.month, "07");
    assert_eq!(s.name, "Storm");
    assert_eq!(EventModalState::title(None), "Save Event");
    assert_eq!(EventModalState::title(Some(1)), "Edit Event");
    assert_eq!(TimeFields::format_time_fields(0).year, "1970");
    let c = CivilTime {
        year: 2024,
        month: 7,
        day: 4,
        hour: 1,
        minute: 2,
        second: 3,
    };
    assert_eq!(format_absolute(c, true), "2024-07-04 01:02 local");
}
