use nexrad_workbench::event_modal::{
    find_event, BrowserTime, EventButton, EventChange, EventModalState, FormSeed, SavedEvent,
    TimeFields,
};
use nexrad_workbench::modal_states::{LocalFields, TypedTime};

fn fields(f: &TimeFields) -> [&str; 6] {
    [&f.year, &f.month, &f.day, &f.hour, &f.minute, &f.second]
}

fn event(id: u64, start: i64, end: i64) -> SavedEvent {
    SavedEvent {
        id,
        name: "Tornado".to_string(),
        site_id: "KOUN".to_string(),
        start_time: start,
        end_time: end,
    }
}

#[test]
fn init_from_selection_formats_utc_fields() {
    let mut s = EventModalState::default();
    s.name = "stale".to_string();
    s.init_from_selection("KTLX", 1705321845, 1705327200);
    assert!(s.name.is_empty());
    assert_eq!(s.site_id, "KTLX");
    assert_eq!(fields(&s.start), ["2024", "01", "15", "12", "30", "45"]);
    assert_eq!(fields(&s.end), ["2024", "01", "15", "14", "00", "00"]);
}

#[test]
fn init_from_event_sets_name_site_and_fields() {
    let mut s = EventModalState::default();
    s.init_from_event("Tornado", "KOUN", 1700000000, 1705321845);
    assert_eq!(s.name, "Tornado");
    assert_eq!(s.site_id, "KOUN");
    assert_eq!(fields(&s.start), ["2023", "11", "14", "22", "13", "20"]);
    assert_eq!(fields(&s.end), ["2024", "01", "15", "12", "30", "45"]);
}

#[test]
fn parse_start_and_end_roundtrip_utc() {
    let mut s = EventModalState::default();
    s.init_from_event("e", "KXXX", 1705321845, 1705327200);
    assert_eq!(s.parse_start(false), TypedTime::At(1705321845));
    assert_eq!(s.parse_end(false), TypedTime::At(1705327200));
}

fn with_start(parts: [&str; 6]) -> EventModalState {
    let mut s = EventModalState::default();
    s.start = TimeFields {
        year: parts[0].to_string(),
        month: parts[1].to_string(),
        day: parts[2].to_string(),
        hour: parts[3].to_string(),
        minute: parts[4].to_string(),
        second: parts[5].to_string(),
    };
    s
}

#[test]
fn parse_start_handles_raw_fields_utc() {
    let s = with_start(["2023", "11", "14", "22", "13", "20"]);
    assert_eq!(s.parse_start(false), TypedTime::At(1700000000));
}

#[test]
fn parse_start_none_on_empty_field() {
    let s = with_start(["", "01", "15", "12", "00", "00"]);
    assert_eq!(s.parse_start(false), TypedTime::Invalid);
}

#[test]
fn parse_start_none_on_nonnumeric_field() {
    let s = with_start(["2024", "abc", "15", "12", "00", "00"]);
    assert_eq!(s.parse_start(false), TypedTime::Invalid);
}

#[test]
fn parse_start_none_on_invalid_calendar_date() {
    let s = with_start(["2024", "13", "15", "12", "00", "00"]);
    assert_eq!(s.parse_start(false), TypedTime::Invalid);
}

#[test]
fn a_local_start_is_handed_on_as_typed() {
    let s = with_start(["2024", "02", "31", "24", "60", "00"]);
    assert_eq!(
        s.parse_start(true),
        TypedTime::Local(LocalFields {
            year: 2024,
            month0: 1,
            day: 31,
            hour: 24,
            minute: 60,
            second: 0
        })
    );
    assert_eq!(s.parse_start(false), TypedTime::Invalid);
    let zero = with_start(["2024", "0", "1", "12", "00", "00"]);
    assert_eq!(zero.parse_start(true), TypedTime::Invalid);
    let words = with_start(["2024", "x", "1", "12", "00", "00"]);
    assert_eq!(words.parse_start(true), TypedTime::Invalid);
}

#[test]
fn local_fields_of_the_form_read_back() {
    let t = BrowserTime {
        year: 2024,
        month0: 11,
        day: 31,
        hour: 23,
        minute: 59,
        second: 58,
    };
    let mut s = EventModalState::default();
    s.start = TimeFields::from_local(t);
    assert_eq!(
        s.parse_start(true),
        TypedTime::Local(LocalFields {
            year: 2024,
            month0: 11,
            day: 31,
            hour: 23,
            minute: 59,
            second: 58
        })
    );
}

#[test]
fn local_fields_count_months_from_one() {
    let f = TimeFields::from_local(BrowserTime {
        year: 2024,
        month0: 0,
        day: 5,
        hour: 7,
        minute: 8,
        second: 9,
    });
    assert_eq!(fields(&f), ["2024", "01", "05", "07", "08", "09"]);
}

#[test]
fn the_form_is_seeded_once() {
    let events = vec![event(1, 10, 20), event(7, 30, 40)];
    let mut s = EventModalState::default();
    assert_eq!(s.begin_frame(true, Some(7), &events, None, 5000), FormSeed::Event(1));
    s.initialized = true;
    assert_eq!(s.begin_frame(true, Some(7), &events, None, 5000), FormSeed::Keep);
    assert_eq!(find_event(&events, 9), None);
    let mut fresh = EventModalState::default();
    assert_eq!(
        fresh.begin_frame(true, None, &events, Some((3, 4)), 5000),
        FormSeed::Range(3, 4)
    );
    let mut around = EventModalState::default();
    assert_eq!(
        around.begin_frame(true, None, &events, None, 5000),
        FormSeed::Range(3200, 6800)
    );
}

#[test]
fn only_a_named_event_in_order_is_saved() {
    let mut s = EventModalState::default();
    s.init_from_event("Storm", "KTLX", 1705321845, 1705327200);
    assert!(s.review(Some(1705321845), Some(1705327200)).can_save);
    let swapped = s.review(Some(1705327200), Some(1705321845));
    assert!(!swapped.can_save);
    assert!(swapped.warn_order);
    s.name = "  ".to_string();
    assert!(!s.review(Some(1), Some(2)).can_save);
    s.name = "Storm".to_string();
    let added = s.press(EventButton::Save, None, Some(1), Some(2));
    assert!(!added.open);
    match added.change {
        EventChange::Add {
            name,
            site_id,
            start_time,
            end_time,
        } => {
            assert_eq!(name, "Storm");
            assert_eq!(site_id, "KTLX");
            assert_eq!((start_time, end_time), (1, 2));
        }
        _ => panic!("an event is added"),
    }
    let removed = s.press(EventButton::Delete, Some(4), Some(1), Some(2));
    assert!(matches!(removed.change, EventChange::Remove(4)));
}
