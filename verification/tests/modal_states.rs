use nexrad_workbench::calendar::CivilTime;
use nexrad_workbench::modal_states::{
    first_timestamp_paste, looks_like_timestamp, nudge_buf, parse_time, read_paste,
    DateTimePickerState, LocalFields, ModalStates, PasteOutcome, Pasted, PickerField,
    SiteModalMode, TypedTime,
};

fn picker(parts: [&str; 6]) -> DateTimePickerState {
    DateTimePickerState {
        open: false,
        year: parts[0].to_string(),
        month: parts[1].to_string(),
        day: parts[2].to_string(),
        hour: parts[3].to_string(),
        minute: parts[4].to_string(),
        second: parts[5].to_string(),
    }
}

fn parts(p: &DateTimePickerState) -> [&str; 6] {
    [&p.year, &p.month, &p.day, &p.hour, &p.minute, &p.second]
}

#[test]
fn new_with_preferred_site_marks_not_first_visit() {
    assert!(!ModalStates::new(true).site.is_first_visit);
}

#[test]
fn new_without_preferred_site_keeps_first_visit() {
    assert!(ModalStates::new(false).site.is_first_visit);
}

#[test]
fn new_site_mode_defaults_to_welcome() {
    assert_eq!(ModalStates::new(false).site.mode, SiteModalMode::Welcome);
    assert_eq!(ModalStates::new(true).site.mode, SiteModalMode::Welcome);
}

#[test]
fn new_site_form_fields_start_empty() {
    let states = ModalStates::new(true);
    assert_eq!(states.site.filter, "");
    assert_eq!(states.site.zip_input, "");
    assert!(states.site.error_message.is_none());
}

#[test]
fn new_event_modal_starts_with_empty_name() {
    let states = ModalStates::new(false);
    assert_eq!(states.event.name, "");
    assert_eq!(states.event.site_id, "");
}

#[test]
fn new_mping_modal_starts_with_empty_key_input() {
    assert_eq!(ModalStates::new(true).mping.key_input, "");
}

#[test]
fn datetime_picker_default_is_closed_and_empty() {
    let p = DateTimePickerState::default();
    assert!(!p.open);
    assert_eq!(parts(&p), ["", "", "", "", "", ""]);
}

#[test]
fn datetime_picker_close_clears_open() {
    let mut p = DateTimePickerState {
        open: true,
        ..Default::default()
    };
    p.close();
    assert!(!p.open);
}

#[test]
fn closing_the_picker_empties_its_fields() {
    let mut p = picker(["2024", "01", "15", "12", "30", "45"]);
    p.open = true;
    p.close();
    assert!(!p.open);
    assert_eq!(parts(&p), ["", "", "", "", "", ""]);
}

#[test]
fn datetime_picker_to_timestamp_utc_epoch() {
    let p = picker(["1970", "01", "01", "00", "00", "00"]);
    assert_eq!(p.to_timestamp(false), TypedTime::At(0));
}

#[test]
fn datetime_picker_to_timestamp_utc_known() {
    let p = picker(["2024", "01", "15", "12", "30", "45"]);
    assert_eq!(p.to_timestamp(false), TypedTime::At(1705321845));
}

#[test]
fn datetime_picker_to_timestamp_none_on_bad_input() {
    assert_eq!(
        DateTimePickerState::default().to_timestamp(false),
        TypedTime::Invalid
    );
    let bad = picker(["2021", "abc", "1", "0", "0", "0"]);
    assert_eq!(bad.to_timestamp(false), TypedTime::Invalid);
}

#[test]
fn datetime_picker_to_timestamp_utc_rejects_invalid_date() {
    let p = picker(["2021", "13", "1", "0", "0", "0"]);
    assert_eq!(p.to_timestamp(false), TypedTime::Invalid);
    // The 29th of February exists in leap years alone.
    let feb = picker(["2023", "02", "29", "0", "0", "0"]);
    assert_eq!(feb.to_timestamp(false), TypedTime::Invalid);
    let leap = picker(["2024", "02", "29", "0", "0", "0"]);
    assert_eq!(leap.to_timestamp(false), TypedTime::At(1709164800));
}

#[test]
fn typed_local_time_is_left_to_the_browser() {
    assert_eq!(
        parse_time("2024", "01", "15", "12", "30", "45", true),
        TypedTime::Local(LocalFields {
            year: 2024,
            month0: 0,
            day: 15,
            hour: 12,
            minute: 30,
            second: 45
        })
    );
}

#[test]
fn times_that_do_not_exist_are_invalid_in_either_zone() {
    for use_local in [false, true] {
        assert_eq!(parse_time("2024", "2", "31", "0", "0", "0", use_local), TypedTime::Invalid);
        assert_eq!(parse_time("2024", "0", "1", "0", "0", "0", use_local), TypedTime::Invalid);
        assert_eq!(parse_time("2024", "13", "1", "0", "0", "0", use_local), TypedTime::Invalid);
        assert_eq!(parse_time("2024", "1", "1", "24", "0", "0", use_local), TypedTime::Invalid);
        assert_eq!(parse_time("2024", "1", "1", "0", "0", "60", use_local), TypedTime::Invalid);
        let p = picker(["2023", "02", "29", "0", "0", "0"]);
        assert_eq!(p.to_timestamp(use_local), TypedTime::Invalid);
    }
    // The viewer's zone has years that the calendar in UTC does not cover.
    let far = picker(["270000", "02", "29", "0", "0", "0"]);
    assert_eq!(far.to_timestamp(false), TypedTime::Invalid);
    assert!(matches!(far.to_timestamp(true), TypedTime::Local(_)));
}

#[test]
fn picker_shows_an_instant_and_reads_it_back() {
    let mut p = DateTimePickerState::default();
    p.init_from_timestamp(1700000000);
    assert!(p.open);
    assert_eq!(parts(&p), ["2023", "11", "14", "22", "13", "20"]);
    assert_eq!(p.to_timestamp(false), TypedTime::At(1700000000));
}

#[test]
fn nudge_steps_and_keeps_zero_padding() {
    let mut b = "07".to_string();
    nudge_buf(&mut b, PickerField::Month, 1);
    assert_eq!(b, "08");
    nudge_buf(&mut b, PickerField::Month, -2);
    assert_eq!(b, "06");
    let mut y = "2026".to_string();
    nudge_buf(&mut y, PickerField::Year, -1);
    assert_eq!(y, "2025");
}

#[test]
fn nudge_clamps_instead_of_wrapping() {
    let mut h = "23".to_string();
    nudge_buf(&mut h, PickerField::Hour, 1);
    assert_eq!(h, "23");
    let mut m = "00".to_string();
    nudge_buf(&mut m, PickerField::Minute, -1);
    assert_eq!(m, "00");
    let mut mo = "12".to_string();
    nudge_buf(&mut mo, PickerField::Month, 5);
    assert_eq!(mo, "12");
}

#[test]
fn nudge_leaves_unparseable_buffers_alone() {
    let mut b = String::new();
    nudge_buf(&mut b, PickerField::Hour, 1);
    assert_eq!(b, "");
    let mut j = "ab".to_string();
    nudge_buf(&mut j, PickerField::Hour, 1);
    assert_eq!(j, "ab");
}

#[test]
fn nudge_clamps_the_largest_numbers() {
    let mut high = "9223372036854775807".to_string();
    nudge_buf(&mut high, PickerField::Year, 1);
    assert_eq!(high, "2100");
    let mut low = "-9223372036854775808".to_string();
    nudge_buf(&mut low, PickerField::Year, -1);
    assert_eq!(low, "1991");
    let mut far = "5".to_string();
    nudge_buf(&mut far, PickerField::Hour, i64::MAX);
    assert_eq!(far, "23");
}

#[test]
fn year_floor_is_the_archive_era() {
    let mut y = "1991".to_string();
    nudge_buf(&mut y, PickerField::Year, -1);
    assert_eq!(y, "1991");
}

#[test]
fn paste_naive_iso_fills_fields_verbatim() {
    for use_local in [false, true] {
        let mut p = DateTimePickerState::default();
        assert_eq!(
            p.apply_paste("2026-07-31T14:30:05", use_local),
            PasteOutcome::Filled
        );
        assert_eq!(parts(&p), ["2026", "07", "31", "14", "30", "05"]);
    }
}

#[test]
fn paste_accepts_space_separator_and_minute_precision() {
    let mut p = DateTimePickerState::default();
    assert_eq!(p.apply_paste("2026-07-31 14:30", false), PasteOutcome::Filled);
    assert_eq!(parts(&p), ["2026", "07", "31", "14", "30", "00"]);
}

#[test]
fn paste_date_only_lands_at_midnight() {
    let mut p = DateTimePickerState::default();
    assert_eq!(p.apply_paste("2026-07-31", false), PasteOutcome::Filled);
    assert_eq!(parts(&p), ["2026", "07", "31", "00", "00", "00"]);
}

#[test]
fn paste_rfc3339_with_offset_is_converted_not_copied() {
    let mut p = DateTimePickerState::default();
    assert_eq!(
        p.apply_paste("2026-07-31T14:30:00+02:00", false),
        PasteOutcome::Filled
    );
    assert_eq!(p.hour, "12");
    assert_eq!(p.minute, "30");
    // In the viewer's zone the instant is handed back.
    let mut l = DateTimePickerState::default();
    assert_eq!(
        l.apply_paste("2026-07-31T14:30:00+02:00", true),
        PasteOutcome::ConvertToLocal(1785501000)
    );
    assert_eq!(l.year, "");
}

#[test]
fn paste_epoch_seconds_and_millis() {
    let mut secs = DateTimePickerState::default();
    assert_eq!(secs.apply_paste("1774000000", false), PasteOutcome::Filled);
    assert_eq!(secs.year, "2026");
    let mut millis = DateTimePickerState::default();
    assert_eq!(millis.apply_paste("1774000000000", false), PasteOutcome::Filled);
    assert_eq!(parts(&millis), parts(&secs));
}

#[test]
fn epoch_seconds_and_millis_name_one_instant() {
    for (secs, millis) in [
        ("1774000000", "1774000000000"),
        ("1774000000", "1774000000999"),
        (" 0000000007 ", "0000000007123\n"),
        ("9999999999", "9999999999999"),
    ] {
        for use_local in [false, true] {
            let mut a = DateTimePickerState::default();
            let mut b = DateTimePickerState::default();
            let first = a.apply_paste(secs, use_local);
            assert_eq!(first, b.apply_paste(millis, use_local));
            assert_ne!(first, PasteOutcome::Rejected);
            assert_eq!(parts(&a), parts(&b));
        }
    }
}

#[test]
fn whatever_is_pasted_looks_like_a_timestamp() {
    for text in [
        "2026-07-31T14:30:00+02:00",
        "2026-07-31T14:30:05",
        "2026-07-31 14:30:05",
        "2026-07-31T14:30",
        "2026-07-31 14:30",
        " 2026-07-31 ",
        "1774000000",
        "1774000000000",
    ] {
        let mut p = DateTimePickerState::default();
        assert_eq!(p.apply_paste(text, false), PasteOutcome::Filled);
        assert!(looks_like_timestamp(text));
    }
    // Not the other way round.
    let mut p = DateTimePickerState::default();
    assert!(looks_like_timestamp("14:30"));
    assert_eq!(p.apply_paste("14:30", false), PasteOutcome::Rejected);
}

#[test]
fn paste_rejects_garbage_without_touching_the_fields() {
    let mut p = DateTimePickerState::default();
    p.year = "2020".to_string();
    assert_eq!(p.apply_paste("not a date", false), PasteOutcome::Rejected);
    assert_eq!(p.apply_paste("", false), PasteOutcome::Rejected);
    assert_eq!(p.year, "2020");
}

#[test]
fn a_bare_year_is_not_mistaken_for_an_epoch() {
    let mut p = DateTimePickerState::default();
    assert_eq!(p.apply_paste("2026", false), PasteOutcome::Rejected);
}

#[test]
fn whole_timestamps_are_intercepted_single_fields_are_not() {
    assert!(looks_like_timestamp("2026-07-31T14:30:00Z"));
    assert!(looks_like_timestamp("2026-07-31"));
    assert!(looks_like_timestamp("14:30"));
    assert!(looks_like_timestamp("1774000000"));
    assert!(!looks_like_timestamp("07"));
    assert!(!looks_like_timestamp("2026"));
    assert!(!looks_like_timestamp(""));
}

#[test]
fn the_first_whole_timestamp_is_taken() {
    let pastes = vec!["07".to_string(), "14:30".to_string(), "2026-07-31".to_string()];
    assert_eq!(first_timestamp_paste(&pastes), Some(1));
    assert_eq!(first_timestamp_paste(&vec!["07".to_string()]), None);
}

#[test]
fn pasted_text_is_read_in_order() {
    let fields = Some((2026, 7, 31, 14, 30, 5));
    assert_eq!(read_paste("1774000000", None, None, None), Pasted::Instant(1774000000));
    assert_eq!(read_paste("x", Some(5), fields, None), Pasted::Instant(5));
    assert_eq!(
        read_paste("x", None, fields, Some((2026, 7, 30))),
        Pasted::Fields(CivilTime {
            year: 2026,
            month: 7,
            day: 31,
            hour: 14,
            minute: 30,
            second: 5
        })
    );
    assert_eq!(read_paste("x", None, None, None), Pasted::Nothing);
}
