use nexrad_workbench::acquisition::{
    answer_range_download, answer_reset_settings, range_estimate, Acquisition, RangeButton,
    ResetButton,
};
use nexrad_workbench::acquisition_drawer::{
    drawer_control, error_banner, high_bars, latency_view, newest_first, recent_latencies, row_buttons as drawer_buttons, row_command, status_line, status_mark, DrawerControl, DrawerTab, LatencySummary, OperationStatus, QueueButton, QueueCommand, QueueIcon, QueueState,
};
use nexrad_workbench::activity::{
    chip_text, chip_tint, failed_note, failure_hover, format_age, format_rate, headline_text,
    offers_retry_all, rate_bytes, request_note, row_buttons, size_note, stage_color, stage_text,
    status_color, ActivityDetail, ActivityStage, ActivityState, RowIcon, RowRights, RowStatus,
    SessionTotals, WorkerJobs,
};
use nexrad_workbench::chrome::Chrome;
use nexrad_workbench::colors::{acquisition as acq_colors, ui as ui_colors};
use nexrad_workbench::queue_sheet::{
    counts_text, operation_list, operation_mark, operation_note, queue_toggle, size_is_estimated,
};

#[test]
fn format_rate_appends_per_second_and_clamps() {
    assert_eq!(format_rate(Some("1.0 KB")), "1.0 KB/s");
    assert_eq!(format_rate(None), "\u{2014}");
    assert_eq!(rate_bytes(-5), rate_bytes(0));
    assert_eq!(rate_bytes(1024), 1024);
}

#[test]
fn format_age_picks_a_unit() {
    assert_eq!(format_age(5_000), "5s");
    assert_eq!(format_age(120_000), "2m");
    assert_eq!(format_age(7_200_000), "2h");
    assert_eq!(format_age(-3_000), "0s");
    assert_eq!(format_age(59_700), "60s");
}

#[test]
fn status_color_reserves_red_for_failures() {
    assert_eq!(status_color(404, false), acq_colors::failed());
    assert_eq!(status_color(500, false), acq_colors::failed());
    assert_eq!(status_color(0, false), acq_colors::failed());
    assert_eq!(status_color(200, false), acq_colors::failed());
    assert_eq!(status_color(200, true), ui_colors::success());
    assert_ne!(status_color(302, true), acq_colors::failed());
}

fn statuses() -> Vec<RowStatus> {
    vec![
        RowStatus::Queued { position: 1 },
        RowStatus::Downloading,
        RowStatus::Completed { duration_ms: 1_250 },
        RowStatus::Failed {
            error: "e".to_string(),
        },
        RowStatus::Cancelled,
    ]
}

#[test]
fn row_icons_are_distinct_per_status() {
    let icons: Vec<RowIcon> = statuses().iter().map(|s| s.mark().0).collect();
    for (i, a) in icons.iter().enumerate() {
        for b in icons.iter().skip(i + 1) {
            assert_ne!(a, b);
        }
    }
    let notes: Vec<String> = statuses().iter().map(|s| s.note()).collect();
    assert_eq!(notes, vec!["#1", "downloading", "1.2s", "failed", "cancelled"]);
}

#[test]
fn every_stage_has_a_hint_and_label() {
    for stage in [
        ActivityStage::Queued,
        ActivityStage::Downloading,
        ActivityStage::Processing,
        ActivityStage::Finishing,
    ] {
        assert!(!stage.hint().is_empty());
    }
    assert_eq!(stage_text(3, "Queued"), "3 Queued");
    assert_ne!(stage_color(true, true), stage_color(false, true));
}

#[test]
fn every_state_has_hover_text() {
    for state in [
        ActivityState::UpToDate,
        ActivityState::Downloading { scans: 1 },
        ActivityState::Processing,
        ActivityState::Streaming,
        ActivityState::Paused { queued: 1 },
    ] {
        assert!(!state.hover_text().is_empty());
    }
}

#[test]
fn an_idle_chip_is_bare() {
    assert!(!ActivityState::UpToDate.shows_label(false));
    assert!(ActivityState::UpToDate.shows_label(true));
    assert!(ActivityState::Processing.shows_label(false));
    assert_eq!(chip_text("G", Some(3), Some("Downloading")), "G 3 Downloading");
    assert_eq!(chip_text("G", None, None), "G");
    assert_eq!(chip_tint(true, Some(10)), ui_colors::label(true));
    let tint = chip_tint(false, None);
    assert_eq!(tint.a, 220);
    assert_eq!(tint.b, 220);
    assert_eq!(chip_tint(false, Some(255)), ui_colors::active());
}

#[test]
fn the_sheet_speaks_of_scans() {
    assert_eq!(headline_text("Up to date", None), "Up to date");
    assert_eq!(headline_text("Downloading", Some(1)), "Downloading \u{b7} 1 scan");
    assert_eq!(headline_text("Downloading", Some(2)), "Downloading \u{b7} 2 scans");
    assert_eq!(failed_note(0), None);
    assert_eq!(failed_note(2), Some("\u{b7} 2 failed".to_string()));
    assert!(!offers_retry_all(1) && offers_retry_all(2));
    assert_eq!(size_note("5 MB", true), "~5 MB");
    assert_eq!(size_note("5 MB", false), "5 MB");
    assert_eq!(
        failure_hover(Some("timeout")),
        "Some downloads failed (timeout) \u{2014} click to retry"
    );
    assert_eq!(
        failure_hover(None),
        "Some downloads failed \u{2014} click to retry"
    );
}

#[test]
fn the_queue_is_paused_and_resumed() {
    assert_eq!(
        ActivityState::Paused { queued: 1 }.queue_toggle(),
        Some(QueueCommand::ResumeQueue)
    );
    assert_eq!(
        ActivityState::Downloading { scans: 1 }.queue_toggle(),
        Some(QueueCommand::PauseQueue)
    );
    assert_eq!(ActivityState::Streaming.queue_toggle(), None);
    assert_eq!(queue_toggle(true, false), Some(QueueCommand::ResumeQueue));
    assert_eq!(queue_toggle(false, true), Some(QueueCommand::PauseQueue));
    assert_eq!(queue_toggle(false, false), None);
    assert_eq!(
        drawer_control(DrawerTab::Network, true, true),
        DrawerControl::FullLog
    );
    assert_eq!(
        drawer_control(DrawerTab::Queue, true, true),
        DrawerControl::Resume
    );
}

#[test]
fn rows_offer_what_may_be_done() {
    let all = RowRights {
        can_cancel: true,
        can_reorder: true,
        can_retry: true,
    };
    let rows = statuses();
    assert_eq!(
        row_buttons(&rows[0], all),
        vec![QueueButton::Cancel, QueueButton::MoveDown, QueueButton::MoveUp]
    );
    assert_eq!(
        row_buttons(
            &rows[3],
            RowRights {
                can_retry: false,
                ..all
            }
        ),
        vec![QueueButton::Skip]
    );
    assert_eq!(row_buttons(&rows[1], all), Vec::<QueueButton>::new());
    assert_eq!(
        drawer_buttons(&OperationStatus::Queued),
        vec![QueueButton::Cancel, QueueButton::MoveDown, QueueButton::MoveUp]
    );
    assert_eq!(
        row_command(QueueButton::MoveUp, 7),
        QueueCommand::ReorderOperation(7, -1)
    );
    assert_eq!(
        row_command(QueueButton::MoveDown, 7),
        QueueCommand::ReorderOperation(7, 1)
    );
}

#[test]
fn details_list_what_was_measured() {
    let detail = ActivityDetail {
        http_in_flight: 2,
        worker: WorkerJobs {
            ingest: 1,
            chunk_ingest: 2,
            render: 3,
            render_live: 4,
            volume: 5,
        },
        unavailable: 0,
        avg_fetch_us: Some(12_500),
        avg_processing_us: None,
        avg_render_us: Some(999),
        phases: vec![("Decode".to_string(), 1_260)],
        fps_thousandths: Some(59_940),
        cross_origin_isolated: false,
    };
    let rows: Vec<(String, String)> = detail
        .rows()
        .into_iter()
        .map(|r| (r.label, r.value))
        .collect();
    let expected = [
        ("HTTP in flight", "2"),
        (
            "Worker jobs",
            "15 (ingest 1 \u{b7} chunk 2 \u{b7} render 3 \u{b7} live 4 \u{b7} vol 5)",
        ),
        ("Fetch latency", "12 ms avg"),
        ("Render", "1 ms avg"),
        ("Decode", "1.3 ms"),
        ("Frame rate", "60 fps"),
        ("Cross-origin isolated", "inactive"),
    ];
    assert_eq!(rows.len(), expected.len());
    for (row, (label, value)) in rows.iter().zip(expected) {
        assert_eq!((row.0.as_str(), row.1.as_str()), (label, value));
    }
    let totals = SessionTotals {
        requests: 9,
        failed_requests: 0,
    };
    let session = totals.rows("1 MB", "2 MB");
    assert_eq!(session.len(), 3);
    assert_eq!(session[1].label, "Transferred");
    assert_eq!(request_note(1_600, 61_000), "2 ms \u{b7} 1m");
}

#[test]
fn the_queue_sheet_lists_the_newest_first() {
    assert_eq!(counts_text(1, 2), "1 downloading \u{b7} 2 queued");
    assert_eq!(operation_list(&vec![true, false, true, true]), vec![3, 2, 0]);
    let failed = OperationStatus::Failed {
        error: "e".to_string(),
    };
    let done = OperationStatus::Completed {
        duration_ms: 2_000,
        bytes: 10,
    };
    assert_eq!(operation_mark(&failed), (RowIcon::Warning, acq_colors::failed()));
    assert_eq!(operation_note(&done), Some("2.0s".to_string()));
    assert_eq!(operation_note(&OperationStatus::Queued), None);
    assert!(!size_is_estimated(&done) && size_is_estimated(&failed));
}

#[test]
fn the_drawer_shows_the_queue() {
    let done = OperationStatus::Completed {
        duration_ms: 2_000,
        bytes: 10,
    };
    assert_eq!(status_line(&done, "10 B"), "2.0s  10 B");
    assert_eq!(status_line(&OperationStatus::Active, ""), "Downloading...");
    assert_eq!(status_mark(&OperationStatus::Queued).0, QueueIcon::Clock);
    assert_eq!(newest_first(3), vec![2, 1, 0]);
    let many: Vec<u64> = (0..30).collect();
    assert_eq!(recent_latencies(&many), (10..30).collect::<Vec<u64>>());
    assert_eq!(high_bars(&vec![1, 10]).len(), 2);
    assert_eq!(error_banner(QueueState::Running, Some(1)), Vec::<QueueCommand>::new());
    assert!(!error_banner(QueueState::ErrorPaused, Some(1)).is_empty());
}

#[test]
fn ranges_are_estimated() {
    // Ten hours, five minutes a scan, five megabytes each.
    let e = range_estimate((0, 36_000_000), 300_000, 5 * 1_048_576);
    assert_eq!(e.scans, 120);
    assert_eq!(e.duration_line(), "  \u{2022} Duration: 10.0 hours");
    assert_eq!(
        e.size_line(),
        "  \u{2022} Estimated download: ~120 scans (~600 MB)"
    );
    assert_eq!(range_estimate((5, 5), 300_000, 7).scans, 1);
    assert_eq!(range_estimate((300_001, 0), 300_000, 7).scans, 2);
    assert_eq!(range_estimate((0, i64::MAX), 1, u64::MAX).bytes, u64::MAX);
}

#[test]
fn only_a_confirmed_range_is_fetched() {
    let mut a = Acquisition::new();
    let mut c = Chrome::new();
    c.range_download_modal = Some((1, 2));
    answer_range_download(RangeButton::Cancel, &mut a, &mut c, 9);
    assert!(a.selection_fetch_target.is_none() && c.range_download_modal.is_none());
    c.range_download_modal = Some((1, 2));
    answer_range_download(RangeButton::Download, &mut a, &mut c, 9);
    let target = a.selection_fetch_target.unwrap();
    assert_eq!(target.range, (1, 2));
    assert_eq!(target.armed_at_ms, 9);
    assert!(c.range_download_modal.is_none());
    c.range_download_modal = Some((7, 4));
    answer_range_download(RangeButton::Download, &mut a, &mut c, 10);
    assert_eq!(a.selection_fetch_target.unwrap().range, (4, 7));
}

#[test]
fn only_a_confirmed_reset_resets() {
    let mut c = Chrome::new();
    c.reset_settings_modal_open = true;
    assert!(!answer_reset_settings(ResetButton::Backdrop, &mut c));
    assert!(!c.reset_settings_modal_open);
    assert!(answer_reset_settings(ResetButton::Reset, &mut c));
}

#[test]
fn latencies_are_shown_while_streaming() {
    let summary = LatencySummary {
        avg_fetch_us: 41_500,
        p95_fetch_us: 120_400,
        avg_e2e_us: Some(2_349_999),
    };
    let all: Vec<u64> = (0..25).collect();
    assert!(latency_view(false, Some(summary), &all).is_none());
    assert!(latency_view(true, None, &all).is_none());
    let view = latency_view(true, Some(summary), &all).unwrap();
    assert_eq!(view.fetch, "avg 42ms \u{b7} p95 120ms");
    assert_eq!(view.e2e.as_deref(), Some("\u{b7} e2e 2.3s"));
    assert_eq!(view.bars, (5..25).collect::<Vec<u64>>());
    let lone = latency_view(true, Some(summary), &vec![7]).unwrap();
    assert!(lone.bars.is_empty());
}
