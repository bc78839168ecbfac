//! The modal that creates, edits and deletes saved events.

use crate::calendar::utc_format;
use crate::modal_states::{read_fields, to_local_fields, utc_instant, TypedTime};
use crate::text::{padded_text, trim};
use vstd::prelude::*;

verus! {

/// Six text buffers for a date and time.
#[derive(Debug)]
pub struct TimeFields {
    pub year: String,
    pub month: String,
    pub day: String,
    pub hour: String,
    pub minute: String,
    pub second: String,
}

/// A date and time in the viewer's zone, as the browser gives it. Months
/// count from zero.
#[derive(Clone, Copy, Debug, PartialEq, Eq, Structural)]
pub struct BrowserTime {
    pub year: u32,
    pub month0: u32,
    pub day: u32,
    pub hour: u32,
    pub minute: u32,
    pub second: u32,
}

impl TimeFields {
    /// Whether the fields are the date and time of an instant in UTC.
    pub open spec fn shows_utc(&self, secs: int) -> bool {
        let c = crate::calendar::civil_at(secs);
        &&& self.year@ == crate::calendar::format_field('Y', c)
        &&& self.month@ == crate::text::padded(c.month as nat, 2)
        &&& self.day@ == crate::text::padded(c.day as nat, 2)
        &&& self.hour@ == crate::text::padded(c.hour as nat, 2)
        &&& self.minute@ == crate::text::padded(c.minute as nat, 2)
        &&& self.second@ == crate::text::padded(c.second as nat, 2)
    }

    /// Whether the fields are a date and time in the viewer's zone.
    pub open spec fn shows_local(&self, t: BrowserTime) -> bool {
        &&& self.year@ == crate::text::padded(t.year as nat, 4)
        &&& self.month@ == crate::text::padded((t.month0 + 1) as nat, 2)
        &&& self.day@ == crate::text::padded(t.day as nat, 2)
        &&& self.hour@ == crate::text::padded(t.hour as nat, 2)
        &&& self.minute@ == crate::text::padded(t.minute as nat, 2)
        &&& self.second@ == crate::text::padded(t.second as nat, 2)
    }

    /// What the fields amount to: in UTC the instant, where the calendar has it; in
    /// the viewer's zone the numbers as they are, since the browser carries over
    /// what a day, an hour or a minute does not hold.
    pub open spec fn typed(&self, use_local: bool) -> TypedTime {
        let fields = crate::modal_states::typed_fields(
            self.year@,
            self.month@,
            self.day@,
            self.hour@,
            self.minute@,
            self.second@,
        );
        match fields {
            Some(c) if use_local => if c.month >= 1 {
                TypedTime::Local(crate::modal_states::local_fields(c))
            } else {
                TypedTime::Invalid
            },
            _ => crate::modal_states::placed(fields, false),
        }
    }

    pub open spec fn is_blank(&self) -> bool {
        &&& self.year@.len() == 0
        &&& self.month@.len() == 0
        &&& self.day@.len() == 0
        &&& self.hour@.len() == 0
        &&& self.minute@.len() == 0
        &&& self.second@.len() == 0
    }

    fn blank() -> (f: Self)
        ensures
            f.is_blank(),
    {
        TimeFields {
            year: String::new(),
            month: String::new(),
            day: String::new(),
            hour: String::new(),
            minute: String::new(),
            second: String::new(),
        }
    }

    /// The date and time of an instant in UTC, in seconds from the epoch.
    pub fn format_time_fields(secs: i64) -> (f: Self)
        requires
            crate::calendar::in_calendar(secs as int),
        ensures
            f.shows_utc(secs as int),
    {
        proof {
            let c = crate::calendar::civil_at(secs as int);
            reveal_strlit("%Y");
            reveal_strlit("%m");
            reveal_strlit("%d");
            reveal_strlit("%H");
            reveal_strlit("%M");
            reveal_strlit("%S");
            lemma_single_field("%Y"@, c);
            lemma_single_field("%m"@, c);
            lemma_single_field("%d"@, c);
            lemma_single_field("%H"@, c);
            lemma_single_field("%M"@, c);
            lemma_single_field("%S"@, c);
        }
        TimeFields {
            year: utc_format(secs, "%Y"),
            month: utc_format(secs, "%m"),
            day: utc_format(secs, "%d"),
            hour: utc_format(secs, "%H"),
            minute: utc_format(secs, "%M"),
            second: utc_format(secs, "%S"),
        }
    }

    /// A date and time in the viewer's zone.
    pub fn from_local(t: BrowserTime) -> (f: Self)
        requires
            t.month0 < 12,
        ensures
            f.shows_local(t),
    {
        TimeFields {
            year: padded_text(t.year as u64, 4),
            month: padded_text(t.month0 as u64 + 1, 2),
            day: padded_text(t.day as u64, 2),
            hour: padded_text(t.hour as u64, 2),
            minute: padded_text(t.minute as u64, 2),
            second: padded_text(t.second as u64, 2),
        }
    }

    /// Reads the fields.
    pub fn parse_time(&self, use_local: bool) -> (r: TypedTime)
        ensures
            r == self.typed(use_local),
    {
        let fields = read_fields(
            self.year.as_str(),
            self.month.as_str(),
            self.day.as_str(),
            self.hour.as_str(),
            self.minute.as_str(),
            self.second.as_str(),
        );
        match fields {
            Some(c) => if !use_local {
                utc_instant(c)
            } else if c.month >= 1 {
                TypedTime::Local(to_local_fields(c))
            } else {
                TypedTime::Invalid
            },
            None => TypedTime::Invalid,
        }
    }
}

proof fn lemma_single_field(fmt: Seq<char>, c: crate::calendar::CivilTime)
    requires
        fmt.len() == 2,
        fmt[0] == '%',
        crate::calendar::is_format_field(fmt[1]),
    ensures
        crate::calendar::is_plain_format(fmt),
        crate::calendar::formatted(fmt, c) == crate::calendar::format_field(fmt[1], c),
{
    reveal_with_fuel(crate::calendar::is_plain_format, 2);
    reveal_with_fuel(crate::calendar::formatted, 2);
    assert(fmt.skip(2) =~= Seq::<char>::empty());
    assert(crate::calendar::formatted(fmt, c) =~= crate::calendar::format_field(fmt[1], c));
}

/// Fields filled from a date and time in the viewer's zone read back as it.
pub proof fn local_fields_read_back(f: TimeFields, t: BrowserTime)
    requires
        f.shows_local(t),
        t.month0 < 12,
        t.year <= i32::MAX,
    ensures
        f.typed(true) == TypedTime::Local(
            crate::modal_states::LocalFields {
                year: t.year as i32,
                month0: t.month0,
                day: t.day,
                hour: t.hour,
                minute: t.minute,
                second: t.second,
            },
        ),
{
    crate::text::lemma_padded_signed_reads_back(t.year as int, 4);
    crate::text::lemma_padded_reads_back((t.month0 + 1) as nat, 2);
    crate::text::lemma_padded_reads_back(t.day as nat, 2);
    crate::text::lemma_padded_reads_back(t.hour as nat, 2);
    crate::text::lemma_padded_reads_back(t.minute as nat, 2);
    crate::text::lemma_padded_reads_back(t.second as nat, 2);
}

/// Fields filled from an instant in UTC read back as that instant.
pub proof fn utc_fields_read_back(f: TimeFields, secs: int)
    requires
        f.shows_utc(secs),
        crate::calendar::in_calendar(secs),
    ensures
        f.typed(false) == TypedTime::At(secs as i64),
{
    crate::calendar::civil_time_exists(secs);
    let c = crate::calendar::civil_at(secs);
    if c.year > 9999 {
        crate::text::lemma_padded(c.year as nat, 4);
        assert(f.year@.subrange(1, f.year@.len() as int) =~= crate::text::padded(
            c.year as nat,
            4,
        ));
    } else {
        crate::text::lemma_padded_signed_reads_back(
            c.year as int,
            if c.year < 0 {
                5
            } else {
                4
            },
        );
    }
    crate::text::lemma_padded_reads_back(c.month as nat, 2);
    crate::text::lemma_padded_reads_back(c.day as nat, 2);
    crate::text::lemma_padded_reads_back(c.hour as nat, 2);
    crate::text::lemma_padded_reads_back(c.minute as nat, 2);
    crate::text::lemma_padded_reads_back(c.second as nat, 2);
}

/// A saved event. Times are in seconds from the epoch.
#[derive(Debug)]
pub struct SavedEvent {
    pub id: u64,
    pub name: String,
    pub site_id: String,
    pub start_time: i64,
    pub end_time: i64,
}

/// Form state of the event modal.
#[derive(Debug)]
pub struct EventModalState {
    /// Whether the form has been filled for the current opening.
    pub initialized: bool,
    pub name: String,
    pub site_id: String,
    pub start: TimeFields,
    pub end: TimeFields,
}

/// What the form is to be filled from.
#[derive(Clone, Copy, Debug, PartialEq, Eq, Structural)]
pub enum FormSeed {
    /// Nothing: the modal is closed, was filled before, or edits an event that
    /// is gone.
    Keep,
    /// The event at this place among the saved ones.
    Event(usize),
    /// A new event over this range, in seconds from the epoch.
    Range(i64, i64),
}

/// Index of the first event with an id.
pub open spec fn event_index(events: Seq<SavedEvent>, id: u64) -> Option<int>
    decreases events.len(),
{
    if events.len() == 0 {
        None
    } else {
        match event_index(events.drop_last(), id) {
            Some(i) => Some(i),
            None => if events.last().id == id {
                Some(events.len() - 1)
            } else {
                None
            },
        }
    }
}

/// What the form is to be filled from on the first frame of an opening.
pub open spec fn form_seed(
    editing: Option<u64>,
    events: Seq<SavedEvent>,
    selection: Option<(i64, i64)>,
    position: i64,
) -> FormSeed {
    match editing {
        Some(id) => match event_index(events, id) {
            Some(i) => FormSeed::Event(i as usize),
            None => FormSeed::Keep,
        },
        None => match selection {
            Some((start, end)) => FormSeed::Range(start, end),
            None => FormSeed::Range((position - 1800) as i64, (position + 1800) as i64),
        },
    }
}

/// Finds the first event with an id.
pub fn find_event(events: &Vec<SavedEvent>, id: u64) -> (r: Option<usize>)
    ensures
        match event_index(events@, id) {
            Some(i) => r == Some(i as usize) && 0 <= i < events@.len() && events@[i].id == id,
            None => r is None,
        },
{
    let mut i: usize = 0;
    while i < events.len()
        invariant
            i <= events@.len(),
            event_index(events@.take(i as int), id) is None,
        decreases events@.len() - i,
    {
        assert(events@.take(i + 1).drop_last() =~= events@.take(i as int));
        if events[i].id == id {
            proof {
                lemma_event_index_prefix(events@, i + 1, id);
            }
            return Some(i);
        }
        i += 1;
    }
    assert(events@.take(i as int) =~= events@);
    None
}

proof fn lemma_event_index_prefix(events: Seq<SavedEvent>, n: int, id: u64)
    requires
        0 <= n <= events.len(),
        event_index(events.take(n), id) is Some,
    ensures
        event_index(events, id) == event_index(events.take(n), id),
    decreases events.len() - n,
{
    if n < events.len() {
        assert(events.take(n + 1).drop_last() =~= events.take(n));
        lemma_event_index_prefix(events, n + 1, id);
    } else {
        assert(events.take(n) =~= events);
    }
}

/// What the form's contents allow.
#[derive(Clone, Copy, Debug, PartialEq, Eq, Structural)]
pub struct EventReview {
    pub can_save: bool,
    /// Whether the hint that the start must come before the end is shown.
    pub warn_order: bool,
}

/// Whether both times are known and the first comes before the second.
pub open spec fn times_valid(start: Option<i64>, end: Option<i64>) -> bool {
    start is Some && end is Some && start->0 < end->0
}

/// A button of the modal.
#[derive(Clone, Copy, Debug, PartialEq, Eq, Structural)]
pub enum EventButton {
    Backdrop,
    Delete,
    /// The Save button or the Enter key.
    Save,
    Cancel,
}

/// What a button does to the saved events.
#[derive(Debug)]
pub enum EventChange {
    Keep,
    Remove(u64),
    Update { id: u64, name: String, start_time: i64, end_time: i64 },
    Add { name: String, site_id: String, start_time: i64, end_time: i64 },
}

/// What a button does: the change, whether the modal stays open, and which
/// event it edits from then on.
#[derive(Debug)]
pub struct EventEffect {
    pub change: EventChange,
    pub open: bool,
    pub editing: Option<u64>,
}

impl Default for EventModalState {
    fn default() -> (s: Self)
        ensures
            !s.initialized,
            s.name@.len() == 0,
            s.site_id@.len() == 0,
            s.start.is_blank(),
            s.end.is_blank(),
    {
        EventModalState {
            initialized: false,
            name: String::new(),
            site_id: String::new(),
            start: TimeFields::blank(),
            end: TimeFields::blank(),
        }
    }
}

impl EventModalState {
    /// Whether the modal is drawn: while it is open, and once more after it
    /// closed so that the next opening fills the form anew.
    pub fn visible(&self, open: bool) -> (b: bool)
        ensures
            b == (open || self.initialized),
    {
        open || self.initialized
    }

    /// Starts a frame: says what the form is to be filled from, once for each
    /// opening.
    pub fn begin_frame(
        &mut self,
        open: bool,
        editing: Option<u64>,
        events: &Vec<SavedEvent>,
        selection: Option<(i64, i64)>,
        position: i64,
    ) -> (r: FormSeed)
        requires
            i64::MIN + 1800 <= position <= i64::MAX - 1800,
        ensures
            *final(self) == (EventModalState { initialized: open, ..*old(self) }),
            r == (if open && !old(self).initialized {
                form_seed(editing, events@, selection, position)
            } else {
                FormSeed::Keep
            }),
            r matches FormSeed::Event(i) ==> i < events@.len(),
    {
        if !open {
            self.initialized = false;
            return FormSeed::Keep;
        }
        if self.initialized {
            return FormSeed::Keep;
        }
        self.initialized = true;
        match editing {
            Some(id) => match find_event(events, id) {
                Some(i) => FormSeed::Event(i),
                None => FormSeed::Keep,
            },
            None => match selection {
                Some((start, end)) => FormSeed::Range(start, end),
                None => FormSeed::Range(position - 1800, position + 1800),
            },
        }
    }

    /// Fills the form for a new event over a range in UTC.
    pub fn init_from_selection(&mut self, site_id: &str, start: i64, end: i64)
        requires
            crate::calendar::in_calendar(start as int),
            crate::calendar::in_calendar(end as int),
        ensures
            final(self).initialized == old(self).initialized,
            final(self).name@.len() == 0,
            final(self).site_id@ == site_id@,
            final(self).start.shows_utc(start as int),
            final(self).end.shows_utc(end as int),
    {
        self.name = String::new();
        self.site_id = site_id.to_owned();
        self.start = TimeFields::format_time_fields(start);
        self.end = TimeFields::format_time_fields(end);
    }

    /// Fills the form from an existing event, with its times in UTC.
    pub fn init_from_event(&mut self, name: &str, site_id: &str, start: i64, end: i64)
        requires
            crate::calendar::in_calendar(start as int),
            crate::calendar::in_calendar(end as int),
        ensures
            final(self).initialized == old(self).initialized,
            final(self).name@ == name@,
            final(self).site_id@ == site_id@,
            final(self).start.shows_utc(start as int),
            final(self).end.shows_utc(end as int),
    {
        self.name = name.to_owned();
        self.site_id = site_id.to_owned();
        self.start = TimeFields::format_time_fields(start);
        self.end = TimeFields::format_time_fields(end);
    }

    /// Fills the form with times in the viewer's zone; a new event has no name.
    pub fn init_local(&mut self, name: &str, site_id: &str, start: BrowserTime, end: BrowserTime)
        requires
            start.month0 < 12,
            end.month0 < 12,
        ensures
            final(self).initialized == old(self).initialized,
            final(self).name@ == name@,
            final(self).site_id@ == site_id@,
            final(self).start.shows_local(start),
            final(self).end.shows_local(end),
    {
        self.name = name.to_owned();
        self.site_id = site_id.to_owned();
        self.start = TimeFields::from_local(start);
        self.end = TimeFields::from_local(end);
    }

    /// Reads the start time.
    pub fn parse_start(&self, use_local: bool) -> (r: TypedTime)
        ensures
            r == self.start.typed(use_local),
    {
        self.start.parse_time(use_local)
    }

    /// Reads the end time.
    pub fn parse_end(&self, use_local: bool) -> (r: TypedTime)
        ensures
            r == self.end.typed(use_local),
    {
        self.end.parse_time(use_local)
    }

    /// Whether the form may be saved with these times.
    pub open spec fn savable(&self, start: Option<i64>, end: Option<i64>) -> bool {
        crate::text::trimmed(self.name@).len() > 0 && times_valid(start, end)
    }

    /// Reviews the form, given the instants that its times name.
    pub fn review(&self, start: Option<i64>, end: Option<i64>) -> (r: EventReview)
        ensures
            r.can_save == self.savable(start, end),
            r.warn_order == (!times_valid(start, end) && (start is Some || end is Some)),
    {
        let name_given = !trim(self.name.as_str()).as_str().is_empty();
        let ordered = match (start, end) {
            (Some(s), Some(e)) => s < e,
            _ => false,
        };
        EventReview {
            can_save: name_given && ordered,
            warn_order: !ordered && (start.is_some() || end.is_some()),
        }
    }

    /// What pressing a button does. Save acts only on a form that may be saved,
    /// Delete only while an event is edited; the backdrop closes the modal and
    /// leaves the rest.
    pub fn press(
        &self,
        button: EventButton,
        editing: Option<u64>,
        start: Option<i64>,
        end: Option<i64>,
    ) -> (r: EventEffect)
        ensures
            match button {
                EventButton::Backdrop => r.change is Keep && !r.open && r.editing == editing,
                EventButton::Cancel => r.change is Keep && !r.open && r.editing is None,
                EventButton::Delete => match editing {
                    Some(id) => r.change == EventChange::Remove(id) && !r.open && r.editing is None,
                    None => r.change is Keep && r.open && r.editing is None,
                },
                EventButton::Save => if !self.savable(start, end) {
                    r.change is Keep && r.open && r.editing == editing
                } else {
                    &&& !r.open
                    &&& r.editing is None
                    &&& match editing {
                        Some(id) => r.change matches EventChange::Update {
                            id: i,
                            name,
                            start_time,
                            end_time,
                        } && i == id && name@ == crate::text::trimmed(self.name@) && start_time
                            == start->0 && end_time == end->0,
                        None => r.change matches EventChange::Add {
                            name,
                            site_id,
                            start_time,
                            end_time,
                        } && name@ == crate::text::trimmed(self.name@) && site_id@
                            == self.site_id@ && start_time == start->0 && end_time == end->0,
                    }
                },
            },
    {
        match button {
            EventButton::Backdrop => EventEffect { change: EventChange::Keep, open: false, editing },
            EventButton::Cancel => EventEffect {
                change: EventChange::Keep,
                open: false,
                editing: None,
            },
            EventButton::Delete => match editing {
                Some(id) => EventEffect {
                    change: EventChange::Remove(id),
                    open: false,
                    editing: None,
                },
                None => EventEffect { change: EventChange::Keep, open: true, editing: None },
            },
            EventButton::Save => {
                if !self.review(start, end).can_save {
                    return EventEffect { change: EventChange::Keep, open: true, editing };
                }
                let name = trim(self.name.as_str());
                let start_time = start.unwrap();
                let end_time = end.unwrap();
                let change = match editing {
                    Some(id) => EventChange::Update { id, name, start_time, end_time },
                    None => EventChange::Add {
                        name,
                        site_id: self.site_id.clone(),
                        start_time,
                        end_time,
                    },
                };
                EventEffect { change, open: false, editing: None }
            },
        }
    }

    /// Title of the modal.
    pub fn title(editing: Option<u64>) -> (t: &'static str)
        ensures
            t@ == (if editing is Some {
                "Edit Event"@
            } else {
                "Save Event"@
            }),
    {
        if editing.is_some() {
            "Edit Event"
        } else {
            "Save Event"
        }
    }
}

/// An event that may be saved has a name, and starts before it ends.
pub proof fn saved_events_run_forward(
    form: EventModalState,
    start: Option<i64>,
    end: Option<i64>,
)
    requires
        form.savable(start, end),
    ensures
        crate::text::trimmed(form.name@).len() > 0,
        start is Some && end is Some,
        start->0 < end->0,
{
}

/// An event is found by its id whenever one has it, and the first of them is.
pub proof fn the_first_event_of_an_id_is_found(events: Seq<SavedEvent>, id: u64)
    ensures
        match event_index(events, id) {
            Some(i) => 0 <= i < events.len() && events[i].id == id && forall|j: int|
                0 <= j < i ==> (#[trigger] events[j]).id != id,
            None => forall|j: int| 0 <= j < events.len() ==> (#[trigger] events[j]).id != id,
        },
    decreases events.len(),
{
    if events.len() > 0 {
        let rest = events.drop_last();
        the_first_event_of_an_id_is_found(rest, id);
        match event_index(rest, id) {
            Some(i) => {
                assert(rest[i] == events[i]);
                assert forall|j: int| 0 <= j < i implies (#[trigger] events[j]).id != id by {
                    assert(rest[j] == events[j]);
                }
            },
            None => {
                assert forall|j: int| 0 <= j < events.len() - 1 implies (
                #[trigger] events[j]).id != id by {
                    assert(rest[j] == events[j]);
                }
            },
        }
    }
}

/// The form of an event that is edited is filled from that event; a new one from the
/// selected range, or from the half hours around the playhead.
pub proof fn forms_are_filled_from_event_or_range(
    id: u64,
    events: Seq<SavedEvent>,
    selection: Option<(i64, i64)>,
    position: i64,
)
    requires
        i64::MIN + 1800 <= position <= i64::MAX - 1800,
        events.len() <= usize::MAX,
    ensures
        form_seed(Some(id), events, selection, position) matches FormSeed::Event(i) ==> i
            < events.len() && events[i as int].id == id,
        (exists|i: int| 0 <= i < events.len() && (#[trigger] events[i]).id == id) ==> form_seed(
            Some(id),
            events,
            selection,
            position,
        ) is Event,
        (forall|i: int| 0 <= i < events.len() ==> (#[trigger] events[i]).id != id) ==> form_seed(
            Some(id),
            events,
            selection,
            position,
        ) == FormSeed::Keep,
        selection matches Some((start, end)) ==> form_seed(None, events, selection, position)
            == FormSeed::Range(start, end),
        form_seed(None, events, None, position) matches FormSeed::Range(start, end) && start + 1800
            == position && position + 1800 == end,
{
    the_first_event_of_an_id_is_found(events, id);
}

/// Times are valid when both are known and the first comes before the second.
pub proof fn events_need_two_times_in_order(start: i64, end: i64)
    ensures
        times_valid(Some(start), Some(end)) <==> start < end,
        !times_valid(None, Some(end)),
        !times_valid(Some(start), None),
        !times_valid(None, None),
{
}

/// An event can be saved when it has a name of more than white space and valid
/// times.
pub proof fn events_need_a_name(form: EventModalState, start: Option<i64>, end: Option<i64>)
    ensures
        form.savable(start, end) <==> times_valid(start, end) && crate::text::trimmed(
            form.name@,
        ).len() > 0,
{
}

/// Saving keeps the trimmed name and both times: of a new event also the site, of an
/// edited one the id; and it closes the form, unless it cannot be saved.
pub proof fn saving_keeps_name_and_times(
    form: &EventModalState,
    id: u64,
    start: Option<i64>,
    end: Option<i64>,
    edited: EventEffect,
    added: EventEffect,
)
    requires
        call_ensures(EventModalState::press, (form, EventButton::Save, Some(id), start, end), edited),
        call_ensures(EventModalState::press, (form, EventButton::Save, None, start, end), added),
    ensures
        form.savable(start, end) ==> !edited.open && !added.open,
        form.savable(start, end) ==> (edited.change matches EventChange::Update {
            id: i,
            name,
            start_time,
            end_time,
        } && i == id && name@ == crate::text::trimmed(form.name@) && start == Some(start_time)
            && end == Some(end_time) && start_time < end_time),
        form.savable(start, end) ==> (added.change matches EventChange::Add {
            name,
            site_id,
            start_time,
            end_time,
        } && name@ == crate::text::trimmed(form.name@) && site_id@ == form.site_id@ && start
            == Some(start_time) && end == Some(end_time) && start_time < end_time),
        !form.savable(start, end) ==> edited.change is Keep && edited.open && added.change is Keep
            && added.open,
{
}

/// Deleting removes the edited event and no other; cancelling and clicking beside the
/// form close it without a change.
pub proof fn only_delete_removes_an_event(
    form: &EventModalState,
    id: u64,
    start: Option<i64>,
    end: Option<i64>,
    deleted: EventEffect,
    cancelled: EventEffect,
    left: EventEffect,
)
    requires
        call_ensures(
            EventModalState::press,
            (form, EventButton::Delete, Some(id), start, end),
            deleted,
        ),
        call_ensures(
            EventModalState::press,
            (form, EventButton::Cancel, Some(id), start, end),
            cancelled,
        ),
        call_ensures(
            EventModalState::press,
            (form, EventButton::Backdrop, Some(id), start, end),
            left,
        ),
    ensures
        deleted.change == EventChange::Remove(id) && !deleted.open && deleted.editing is None,
        cancelled.change is Keep && !cancelled.open && cancelled.editing is None,
        left.change is Keep && !left.open && left.editing == Some(id),
{
}

/// The form is filled in the frame in which it opens, and kept from then on.
pub proof fn the_form_is_filled_once(
    form: &mut EventModalState,
    open: bool,
    editing: Option<u64>,
    events: &Vec<SavedEvent>,
    selection: Option<(i64, i64)>,
    position: i64,
    r: FormSeed,
)
    requires
        i64::MIN + 1800 <= position <= i64::MAX - 1800,
        call_ensures(
            EventModalState::begin_frame,
            (form, open, editing, events, selection, position),
            r,
        ),
    ensures
        final(form).initialized == open,
        old(form).initialized || !open ==> r == FormSeed::Keep,
        open && !old(form).initialized ==> r == form_seed(editing, events@, selection, position),
        final(form).name == old(form).name,
{
}

/// A form warns of its times where it has one of them but not both in order.
pub proof fn forms_warn_of_times_out_of_order(
    form: &EventModalState,
    start: Option<i64>,
    end: Option<i64>,
    r: EventReview,
)
    requires
        call_ensures(EventModalState::review, (form, start, end), r),
    ensures
        r.can_save <==> form.savable(start, end),
        r.can_save ==> !r.warn_order,
        start is None && end is None ==> !r.warn_order,
        start is Some && end is Some ==> r.warn_order == (start->0 >= end->0),
        (start is Some) != (end is Some) ==> r.warn_order,
{
}

/// A form that is filled from an event reads back as that event: its start as the
/// start, its end as the end.
pub proof fn a_filled_form_reads_back(
    form: &mut EventModalState,
    name: &str,
    site_id: &str,
    start: i64,
    end: i64,
    r: (),
)
    requires
        crate::calendar::in_calendar(start as int),
        crate::calendar::in_calendar(end as int),
        call_ensures(EventModalState::init_from_event, (form, name, site_id, start, end), r),
    ensures
        final(form).name@ == name@,
        final(form).site_id@ == site_id@,
        final(form).start.typed(false) == TypedTime::At(start),
        final(form).end.typed(false) == TypedTime::At(end),
        final(form).initialized == old(form).initialized,
{
    utc_fields_read_back(final(form).start, start as int);
    utc_fields_read_back(final(form).end, end as int);
}

/// A form that is filled from a range has its ends, the given site and no name.
pub proof fn a_form_of_a_range_has_no_name(
    form: &mut EventModalState,
    site_id: &str,
    start: i64,
    end: i64,
    r: (),
)
    requires
        crate::calendar::in_calendar(start as int),
        crate::calendar::in_calendar(end as int),
        call_ensures(EventModalState::init_from_selection, (form, site_id, start, end), r),
    ensures
        final(form).name@.len() == 0,
        final(form).site_id@ == site_id@,
        final(form).start.typed(false) == TypedTime::At(start),
        final(form).end.typed(false) == TypedTime::At(end),
{
    utc_fields_read_back(final(form).start, start as int);
    utc_fields_read_back(final(form).end, end as int);
}

/// Start and end are each read from their own fields.
pub proof fn start_and_end_are_read_apart(
    form: &EventModalState,
    use_local: bool,
    start: TypedTime,
    end: TypedTime,
)
    requires
        call_ensures(EventModalState::parse_start, (form, use_local), start),
        call_ensures(EventModalState::parse_end, (form, use_local), end),
    ensures
        start == form.start.typed(use_local),
        end == form.end.typed(use_local),
{
}

/// The title tells an event that is edited from one that is new, and the form stays
/// up while it is open or filled.
pub proof fn titles_tell_edited_from_new(
    id: u64,
    form: &EventModalState,
    open: bool,
    edited: &'static str,
    added: &'static str,
    b: bool,
)
    requires
        call_ensures(EventModalState::title, (Some(id),), edited),
        call_ensures(EventModalState::title, (None::<u64>,), added),
        call_ensures(EventModalState::visible, (form, open), b),
    ensures
        edited@ == "Edit Event"@,
        added@ == "Save Event"@,
        b <==> open || form.initialized,
{
}

/// A local time is taken for whatever was typed, as long as every field is a number
/// and the month is at least one.
pub proof fn local_times_need_a_month(f: TimeFields, c: crate::calendar::CivilTime)
    requires
        crate::modal_states::typed_fields(
            f.year@,
            f.month@,
            f.day@,
            f.hour@,
            f.minute@,
            f.second@,
        ) == Some(c),
    ensures
        c.month == 0 ==> f.typed(true) == TypedTime::Invalid,
        c.month >= 1 ==> (f.typed(true) matches TypedTime::Local(l) && l.year == c.year && l.month0
            + 1 == c.month && l.day == c.day && l.hour == c.hour && l.minute == c.minute && l.second
            == c.second),
        crate::calendar::is_civil(c) ==> f.typed(false) == TypedTime::At(
            crate::calendar::epoch_seconds(c) as i64,
        ),
        !crate::calendar::is_civil(c) ==> f.typed(false) == TypedTime::Invalid,
{
}

} // verus!
