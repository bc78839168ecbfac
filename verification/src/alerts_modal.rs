//! The modal that lists the alerts in view and the one that shows an alert.
//!
//! Times are in milliseconds from the epoch unless said otherwise.

use crate::calendar::{utc_civil, CivilTime};
use crate::text::{push_decimal, push_padded, push_padded_signed};
use vstd::prelude::*;
use vstd::string::*;

verus! {

/// An alert as the modals show it. Times are in seconds from the epoch.
#[derive(Debug)]
pub struct Alert {
    pub id: String,
    pub event: String,
    pub effective_secs: Option<i64>,
    pub onset_secs: Option<i64>,
    pub expires_secs: Option<i64>,
    pub ends_secs: Option<i64>,
    pub urgency: String,
    pub certainty: String,
    pub headline: String,
    pub area_desc: String,
    pub description: String,
    pub instruction: String,
    /// The office that issued it.
    pub sender: String,
}

/// State of the alert layer.
#[derive(Debug)]
pub struct AlertsState {
    pub alerts: Vec<Alert>,
    pub list_modal_open: bool,
    pub selected_alert_id: Option<String>,
}

impl Default for AlertsState {
    fn default() -> (s: Self)
        ensures
            s.alerts@.len() == 0,
            !s.list_modal_open,
            s.selected_alert_id is None,
    {
        AlertsState { alerts: Vec::new(), list_modal_open: false, selected_alert_id: None }
    }
}

/// Which of the two modals is shown.
#[derive(Clone, Copy, Debug, PartialEq, Eq, Structural)]
pub enum AlertsModal {
    Hidden,
    List,
    Detail,
}

/// What the detail modal shows.
#[derive(Clone, Copy, Debug, PartialEq, Eq, Structural)]
pub enum DetailView {
    /// The alert at this place.
    Show(usize),
    /// Nothing: the selected alert is gone, and the selection is to be cleared.
    ClearSelection,
}

impl AlertsState {
    /// Whether one of the modals is shown.
    pub open spec fn is_visible(&self) -> bool {
        self.list_modal_open || self.selected_alert_id is Some
    }

    /// Whether one of the modals is shown.
    pub fn visible(&self) -> (b: bool)
        ensures
            b == self.is_visible(),
    {
        self.list_modal_open || self.selected_alert_id.is_some()
    }

    /// Which of the modals is shown: the detail of a selected alert before the
    /// list.
    pub fn modal(&self) -> (m: AlertsModal)
        ensures
            m == (if self.selected_alert_id is Some {
                AlertsModal::Detail
            } else if self.list_modal_open {
                AlertsModal::List
            } else {
                AlertsModal::Hidden
            }),
    {
        if self.selected_alert_id.is_some() {
            AlertsModal::Detail
        } else if self.list_modal_open {
            AlertsModal::List
        } else {
            AlertsModal::Hidden
        }
    }

    /// Whether `r` is the first alert with an id.
    pub open spec fn is_found(&self, id: Seq<char>, r: Option<usize>) -> bool {
        match r {
            Some(k) => k < self.alerts@.len() && self.alerts@[k as int].id@ == id && forall|j: int|
                0 <= j < k ==> (#[trigger] self.alerts@[j]).id@ != id,
            None => forall|j: int|
                0 <= j < self.alerts@.len() ==> (#[trigger] self.alerts@[j]).id@ != id,
        }
    }

    /// Finds an alert.
    pub fn find(&self, id: &String) -> (r: Option<usize>)
        ensures
            self.is_found(id@, r),
    {
        let mut i: usize = 0;
        while i < self.alerts.len()
            invariant
                i <= self.alerts@.len(),
                forall|j: int| 0 <= j < i ==> (#[trigger] self.alerts@[j]).id@ != id@,
            decreases self.alerts@.len() - i,
        {
            if self.alerts[i].id == *id {
                return Some(i);
            }
            i += 1;
        }
        None
    }

    /// What the detail modal shows. A selection that has gone stale, such as
    /// one of an alert that expired meanwhile, is cleared.
    pub fn detail(&self) -> (v: DetailView)
        ensures
            match v {
                DetailView::Show(k) => self.selected_alert_id is Some && self.is_found(
                    self.selected_alert_id->0@,
                    Some(k),
                ),
                DetailView::ClearSelection => self.selected_alert_id is None || self.is_found(
                    self.selected_alert_id->0@,
                    None,
                ),
            },
    {
        match &self.selected_alert_id {
            Some(id) => match self.find(id) {
                Some(k) => DetailView::Show(k),
                None => DetailView::ClearSelection,
            },
            None => DetailView::ClearSelection,
        }
    }
}

/// How many alerts are in view.
pub fn in_view_text(n: usize) -> (s: String)
    ensures
        s@ == crate::text::decimal(n as nat) + " alert"@ + (if n == 1 {
            ""@
        } else {
            "s"@
        }) + " in view"@,
{
    let mut s = String::new();
    push_decimal(&mut s, n as u64);
    s.append(" alert");
    if n == 1 {
        s.append("");
    } else {
        s.append("s");
    }
    s.append(" in view");
    s
}

/// When something happens, seen from now.
pub open spec fn relative_text(delta_ms: int) -> Seq<char> {
    let secs = delta_ms / 1000;
    if delta_ms < 0 {
        "in the past"@
    } else if secs < 60 {
        "in "@ + crate::text::decimal(secs as nat) + "s"@
    } else if secs < 3600 {
        "in "@ + crate::text::decimal((secs / 60) as nat) + "m"@
    } else if secs < 86400 {
        "in "@ + crate::text::decimal((secs / 3600) as nat) + "h"@ + crate::text::decimal(
            (secs % 3600 / 60) as nat,
        ) + "m"@
    } else {
        "in "@ + crate::text::decimal((secs / 86400) as nat) + "d"@
    }
}

/// When something happens, seen from now.
pub fn format_relative(now_ms: i64, ts_ms: i64) -> (s: String)
    requires
        i64::MIN <= ts_ms - now_ms <= i64::MAX,
    ensures
        s@ == relative_text(ts_ms - now_ms),
{
    let delta: i64 = ts_ms - now_ms;
    if delta < 0 {
        return "in the past".to_owned();
    }
    let secs: u64 = delta as u64 / 1000;
    let mut s = "in ".to_owned();
    if secs < 60 {
        push_decimal(&mut s, secs);
        s.append("s");
    } else if secs < 3600 {
        push_decimal(&mut s, secs / 60);
        s.append("m");
    } else if secs < 86400 {
        push_decimal(&mut s, secs / 3600);
        s.append("h");
        push_decimal(&mut s, secs % 3600 / 60);
        s.append("m");
    } else {
        push_decimal(&mut s, secs / 86400);
        s.append("d");
    }
    assert(s@ =~= relative_text(delta as int));
    s
}

/// A date and time to the minute, with its zone.
pub open spec fn absolute_text(c: CivilTime, zone: Seq<char>) -> Seq<char> {
    crate::text::padded_signed(c.year as int, 4) + "-"@ + crate::text::padded(c.month as nat, 2)
        + "-"@ + crate::text::padded(c.day as nat, 2) + " "@ + crate::text::padded(c.hour as nat, 2)
        + ":"@ + crate::text::padded(c.minute as nat, 2) + " "@ + zone
}

/// A date and time to the minute, with the zone that it is given in.
pub fn format_absolute(c: CivilTime, use_local_time: bool) -> (s: String)
    ensures
        s@ == absolute_text(
            c,
            if use_local_time {
                "local"@
            } else {
                "UTC"@
            },
        ),
{
    let mut s = String::new();
    push_padded_signed(&mut s, c.year as i64, 4);
    s.append("-");
    push_padded(&mut s, c.month as u64, 2);
    s.append("-");
    push_padded(&mut s, c.day as u64, 2);
    s.append(" ");
    push_padded(&mut s, c.hour as u64, 2);
    s.append(":");
    push_padded(&mut s, c.minute as u64, 2);
    s.append(" ");
    if use_local_time {
        s.append("local");
    } else {
        s.append("UTC");
    }
    s
}

/// An instant in UTC to the minute, given in seconds from the epoch.
pub fn format_absolute_utc(secs: i64) -> (s: String)
    requires
        crate::calendar::in_calendar(secs as int),
    ensures
        s@ == absolute_text(crate::calendar::civil_at(secs as int), "UTC"@),
{
    format_absolute(utc_civil(secs), false)
}

/// A time of an alert.
#[derive(Clone, Copy, Debug, PartialEq, Eq, Structural)]
pub enum TimingLabel {
    Effective,
    Onset,
    Expires,
    Ends,
}

/// The times of an alert in two columns, or all in the first where the modal is
/// narrow, and below them who issued it. What the alert does not say is left out.
#[derive(Debug)]
pub struct TimingMeta {
    pub first: Vec<(TimingLabel, i64)>,
    pub second: Vec<(TimingLabel, i64)>,
    pub sender: Option<String>,
}

/// The row on who issued an alert, where that is known.
pub fn sender_row(sender: &str) -> (r: Option<String>)
    ensures
        r is Some == (sender@.len() > 0),
        r is Some ==> r->0@ == sender@,
{
    if sender.unicode_len() > 0 {
        Some(sender.to_owned())
    } else {
        None
    }
}

pub open spec fn timing_entry(label: TimingLabel, time: Option<i64>) -> Seq<(TimingLabel, i64)> {
    match time {
        Some(t) => seq![(label, t)],
        None => seq![],
    }
}

pub open spec fn starts_of(a: Alert) -> Seq<(TimingLabel, i64)> {
    timing_entry(TimingLabel::Effective, a.effective_secs) + timing_entry(
        TimingLabel::Onset,
        a.onset_secs,
    )
}

pub open spec fn stops_of(a: Alert) -> Seq<(TimingLabel, i64)> {
    timing_entry(TimingLabel::Expires, a.expires_secs) + timing_entry(
        TimingLabel::Ends,
        a.ends_secs,
    )
}

fn push_entry(out: &mut Vec<(TimingLabel, i64)>, label: TimingLabel, time: Option<i64>)
    ensures
        final(out)@ == old(out)@ + timing_entry(label, time),
{
    if let Some(t) = time {
        out.push((label, t));
    }
    assert(out@ =~= old(out)@ + timing_entry(label, time));
}

/// The times of an alert; `wide` where there is room for two columns.
pub fn timing_meta(a: &Alert, wide: bool) -> (m: TimingMeta)
    ensures
        wide ==> m.first@ == starts_of(*a) && m.second@ == stops_of(*a),
        !wide ==> m.first@ == starts_of(*a) + stops_of(*a) && m.second@.len() == 0,
        m.sender is Some == (a.sender@.len() > 0),
        m.sender is Some ==> m.sender->0@ == a.sender@,
{
    let mut first: Vec<(TimingLabel, i64)> = Vec::new();
    let mut second: Vec<(TimingLabel, i64)> = Vec::new();
    push_entry(&mut first, TimingLabel::Effective, a.effective_secs);
    push_entry(&mut first, TimingLabel::Onset, a.onset_secs);
    if wide {
        push_entry(&mut second, TimingLabel::Expires, a.expires_secs);
        push_entry(&mut second, TimingLabel::Ends, a.ends_secs);
        assert(second@ =~= stops_of(*a));
    } else {
        push_entry(&mut first, TimingLabel::Expires, a.expires_secs);
        push_entry(&mut first, TimingLabel::Ends, a.ends_secs);
        assert(first@ =~= starts_of(*a) + stops_of(*a));
    }
    assert(wide ==> first@ =~= starts_of(*a));
    TimingMeta { first, second, sender: sender_row(a.sender.as_str()) }
}

/// The badges beside an alert's severity: those that the alert fills in.
pub open spec fn badges_of(a: Alert) -> Seq<Seq<char>> {
    (if a.urgency@.len() > 0 {
        seq!["Urgency: "@ + a.urgency@]
    } else {
        seq![]
    }) + (if a.certainty@.len() > 0 {
        seq!["Certainty: "@ + a.certainty@]
    } else {
        seq![]
    })
}

/// The badges beside an alert's severity.
pub fn detail_badges(a: &Alert) -> (r: Vec<String>)
    ensures
        r@.map_values(|s: String| s@) == badges_of(*a),
{
    let mut r: Vec<String> = Vec::new();
    if a.urgency.as_str().unicode_len() > 0 {
        let mut s = "Urgency: ".to_owned();
        s.append(a.urgency.as_str());
        r.push(s);
    }
    if a.certainty.as_str().unicode_len() > 0 {
        let mut s = "Certainty: ".to_owned();
        s.append(a.certainty.as_str());
        r.push(s);
    }
    assert(r@.map_values(|s: String| s@) =~= badges_of(*a));
    r
}

/// A part of an alert's text.
#[derive(Clone, Copy, Debug, PartialEq, Eq, Structural)]
pub enum DetailSection {
    Headline,
    Area,
    Description,
    Instructions,
}

impl DetailSection {
    /// What the part says of an alert.
    pub open spec fn text_of(self, a: Alert) -> Seq<char> {
        match self {
            DetailSection::Headline => a.headline@,
            DetailSection::Area => a.area_desc@,
            DetailSection::Description => a.description@,
            DetailSection::Instructions => a.instruction@,
        }
    }

    /// What the part says of an alert.
    pub fn text(self, a: &Alert) -> (s: &str)
        ensures
            s@ == self.text_of(*a),
    {
        match self {
            DetailSection::Headline => a.headline.as_str(),
            DetailSection::Area => a.area_desc.as_str(),
            DetailSection::Description => a.description.as_str(),
            DetailSection::Instructions => a.instruction.as_str(),
        }
    }
}

/// All the parts, from the top.
pub open spec fn all_sections() -> Seq<DetailSection> {
    seq![
        DetailSection::Headline,
        DetailSection::Area,
        DetailSection::Description,
        DetailSection::Instructions,
    ]
}

/// The parts of an alert's text that are shown, from the top: those that say
/// anything.
pub fn detail_sections(a: &Alert) -> (r: Vec<DetailSection>)
    ensures
        r@ == all_sections().filter(|s: DetailSection| s.text_of(*a).len() > 0),
{
    let mut r: Vec<DetailSection> = Vec::new();
    let all = vec![
        DetailSection::Headline,
        DetailSection::Area,
        DetailSection::Description,
        DetailSection::Instructions,
    ];
    assert(all@ =~= all_sections());
    let ghost shown = |s: DetailSection| s.text_of(*a).len() > 0;
    let mut i: usize = 0;
    while i < all.len()
        invariant
            i <= all@.len(),
            all@ == all_sections(),
            shown == (|s: DetailSection| s.text_of(*a).len() > 0),
            r@ == all@.take(i as int).filter(shown),
        decreases all@.len() - i,
    {
        proof {
            reveal(Seq::filter);
            assert(all@.take(i + 1).drop_last() =~= all@.take(i as int));
        }
        if all[i].text(a).unicode_len() > 0 {
            r.push(all[i]);
        }
        i += 1;
    }
    assert(all@.take(i as int) =~= all@);
    r
}

/// What a row of the list says below an alert's name: where it holds, and when it
/// expires.
pub open spec fn row_notes_of(area: Seq<char>, expires_in_ms: Option<int>) -> Seq<Seq<char>> {
    (if area.len() > 0 {
        seq![area]
    } else {
        seq![]
    }) + (match expires_in_ms {
        Some(ms) => seq!["Expires "@ + relative_text(ms)],
        None => seq![],
    })
}

/// What a row of the list says below an alert's name.
pub fn row_notes(area: &str, now_ms: i64, expires_ms: Option<i64>) -> (r: Vec<String>)
    requires
        expires_ms is Some ==> i64::MIN <= expires_ms->0 - now_ms <= i64::MAX,
    ensures
        r@.map_values(|s: String| s@) == row_notes_of(
            area@,
            match expires_ms {
                Some(t) => Some(t - now_ms),
                None => None,
            },
        ),
{
    let mut r: Vec<String> = Vec::new();
    if area.unicode_len() > 0 {
        r.push(area.to_owned());
    }
    if let Some(t) = expires_ms {
        let mut s = "Expires ".to_owned();
        s.append(format_relative(now_ms, t).as_str());
        r.push(s);
    }
    assert(r@.map_values(|s: String| s@) =~= row_notes_of(
        area@,
        match expires_ms {
            Some(t) => Some(t - now_ms),
            None => None,
        },
    ));
    r
}

/// Each of an alert's times stands under its own label, and under no other.
pub proof fn each_time_stands_under_its_label(a: Alert, i: int)
    requires
        0 <= i < (starts_of(a) + stops_of(a)).len(),
    ensures
        ({
            let (label, secs) = (starts_of(a) + stops_of(a))[i];
            match label {
                TimingLabel::Effective => a.effective_secs == Some(secs),
                TimingLabel::Onset => a.onset_secs == Some(secs),
                TimingLabel::Expires => a.expires_secs == Some(secs),
                TimingLabel::Ends => a.ends_secs == Some(secs),
            }
        }),
{
}

/// Every time that an alert has is shown: those of its beginning in the first
/// column, those of its end in the second, the expected one before the actual one.
pub proof fn every_time_is_shown(a: Alert)
    ensures
        a.effective_secs is Some ==> starts_of(a).contains(
            (TimingLabel::Effective, a.effective_secs->0),
        ),
        a.onset_secs is Some ==> starts_of(a).contains((TimingLabel::Onset, a.onset_secs->0)),
        a.expires_secs is Some ==> stops_of(a).contains((TimingLabel::Expires, a.expires_secs->0)),
        a.ends_secs is Some ==> stops_of(a).contains((TimingLabel::Ends, a.ends_secs->0)),
        forall|i: int|
            0 <= i < starts_of(a).len() ==> (#[trigger] starts_of(a)[i]).0 == TimingLabel::Effective
                || starts_of(a)[i].0 == TimingLabel::Onset,
        forall|i: int|
            0 <= i < stops_of(a).len() ==> (#[trigger] stops_of(a)[i]).0 == TimingLabel::Expires
                || stops_of(a)[i].0 == TimingLabel::Ends,
        starts_of(a).len() == 2 ==> starts_of(a)[0].0 == TimingLabel::Effective
            && starts_of(a)[1].0 == TimingLabel::Onset,
        stops_of(a).len() == 2 ==> stops_of(a)[0].0 == TimingLabel::Expires && stops_of(a)[1].0
            == TimingLabel::Ends,
        starts_of(a).len() == (if a.effective_secs is Some {
            1int
        } else {
            0
        }) + (if a.onset_secs is Some {
            1int
        } else {
            0
        }),
        stops_of(a).len() == (if a.expires_secs is Some {
            1int
        } else {
            0
        }) + (if a.ends_secs is Some {
            1int
        } else {
            0
        }),
{
    let effective = timing_entry(TimingLabel::Effective, a.effective_secs);
    let expires = timing_entry(TimingLabel::Expires, a.expires_secs);
    if a.effective_secs is Some {
        assert(starts_of(a)[0] == (TimingLabel::Effective, a.effective_secs->0));
    }
    if a.onset_secs is Some {
        assert(starts_of(a)[effective.len() as int] == (TimingLabel::Onset, a.onset_secs->0));
    }
    if a.expires_secs is Some {
        assert(stops_of(a)[0] == (TimingLabel::Expires, a.expires_secs->0));
    }
    if a.ends_secs is Some {
        assert(stops_of(a)[expires.len() as int] == (TimingLabel::Ends, a.ends_secs->0));
    }
}

/// A time ahead is told in whole seconds below a minute, in whole minutes below an
/// hour; one that is over is only called past.
pub proof fn near_times_are_told_in_whole_units(delta_ms: int, minutes: nat, seconds: nat)
    requires
        minutes < 60,
        seconds < 60,
        60_000 * minutes + 1000 * seconds <= delta_ms < 60_000 * minutes + 1000 * seconds + 1000,
    ensures
        minutes == 0 ==> relative_text(delta_ms) == "in "@ + crate::text::decimal(seconds) + "s"@,
        minutes > 0 ==> relative_text(delta_ms) == "in "@ + crate::text::decimal(minutes) + "m"@,
        relative_text(-1 - delta_ms) == "in the past"@,
{
    assert(delta_ms / 1000 == 60 * minutes + seconds);
    assert((60 * minutes + seconds) / 60 == minutes as int);
}

/// From an hour to below a day a time ahead is told in hours and minutes, of which
/// there are less than sixty; from there on in whole days.
pub proof fn far_times_are_told_in_whole_units(delta_ms: int, days: nat, hours: nat, minutes: nat)
    requires
        hours < 24,
        minutes < 60,
        days > 0 || hours > 0,
        86_400_000 * days + 3_600_000 * hours + 60_000 * minutes <= delta_ms,
        delta_ms < 86_400_000 * days + 3_600_000 * hours + 60_000 * minutes + 60_000,
    ensures
        days == 0 ==> relative_text(delta_ms) == "in "@ + crate::text::decimal(hours) + "h"@
            + crate::text::decimal(minutes) + "m"@,
        days > 0 ==> relative_text(delta_ms) == "in "@ + crate::text::decimal(days) + "d"@,
{
    let secs = delta_ms / 1000;
    assert(86_400 * days + 3600 * hours + 60 * minutes <= secs < 86_400 * days + 3600 * hours + 60
        * minutes + 60);
    if days == 0 {
        assert(secs / 3600 == hours);
        assert(secs % 3600 / 60 == minutes);
    } else {
        assert(secs / 86400 == days);
    }
}

/// A date and time is written as year, month, day, hour and minute, each in its
/// place: each reads back as itself, and the zone stands behind them.
pub proof fn a_written_date_reads_back(c: CivilTime, zone: Seq<char>)
    requires
        crate::calendar::is_date_time(c),
        0 <= c.year < 10000,
    ensures
        absolute_text(c, zone).len() == 17 + zone.len(),
        crate::text::digits_value(absolute_text(c, zone).subrange(0, 4)) == c.year,
        crate::text::digits_value(absolute_text(c, zone).subrange(5, 7)) == c.month,
        crate::text::digits_value(absolute_text(c, zone).subrange(8, 10)) == c.day,
        crate::text::digits_value(absolute_text(c, zone).subrange(11, 13)) == c.hour,
        crate::text::digits_value(absolute_text(c, zone).subrange(14, 16)) == c.minute,
        absolute_text(c, zone).skip(17) == zone,
        absolute_text(c, zone)[4] == '-' && absolute_text(c, zone)[7] == '-',
        absolute_text(c, zone)[10] == ' ' && absolute_text(c, zone)[13] == ':',
        absolute_text(c, zone)[16] == ' ',
{
    let text = absolute_text(c, zone);
    crate::text::padding_fills_the_width(c.year as nat);
    crate::text::padding_fills_the_width(c.month as nat);
    crate::text::padding_fills_the_width(c.day as nat);
    crate::text::padding_fills_the_width(c.hour as nat);
    crate::text::padding_fills_the_width(c.minute as nat);
    crate::text::lemma_padded(c.year as nat, 4);
    crate::text::lemma_padded(c.month as nat, 2);
    crate::text::lemma_padded(c.day as nat, 2);
    crate::text::lemma_padded(c.hour as nat, 2);
    crate::text::lemma_padded(c.minute as nat, 2);
    reveal_strlit("-");
    reveal_strlit(" ");
    reveal_strlit(":");
    assert(text.subrange(0, 4) =~= crate::text::padded(c.year as nat, 4));
    assert(text.subrange(5, 7) =~= crate::text::padded(c.month as nat, 2));
    assert(text.subrange(8, 10) =~= crate::text::padded(c.day as nat, 2));
    assert(text.subrange(11, 13) =~= crate::text::padded(c.hour as nat, 2));
    assert(text.subrange(14, 16) =~= crate::text::padded(c.minute as nat, 2));
    assert(text.skip(17) =~= zone);
}

/// Urgency and certainty each have a badge where they are known, urgency first.
pub proof fn badges_name_what_is_known(a: Alert)
    ensures
        a.urgency@.len() > 0 ==> badges_of(a).len() > 0 && badges_of(a)[0] == "Urgency: "@
            + a.urgency@,
        a.certainty@.len() > 0 ==> badges_of(a).len() > 0 && badges_of(a).last() == "Certainty: "@
            + a.certainty@,
        badges_of(a).len() == 2 <==> a.urgency@.len() > 0 && a.certainty@.len() > 0,
        badges_of(a).len() == 0 <==> a.urgency@.len() == 0 && a.certainty@.len() == 0,
{
}

/// Each section holds its own text of the alert.
pub proof fn sections_hold_their_own_text(a: Alert)
    ensures
        DetailSection::Headline.text_of(a) == a.headline@,
        DetailSection::Area.text_of(a) == a.area_desc@,
        DetailSection::Description.text_of(a) == a.description@,
        DetailSection::Instructions.text_of(a) == a.instruction@,
{
}

/// The sections come in one order, from the headline to the instructions, each
/// once.
pub proof fn sections_run_from_headline_to_instructions(i: int, j: int)
    requires
        0 <= i < j < all_sections().len(),
    ensures
        all_sections().len() == 4,
        all_sections()[i] != all_sections()[j],
        all_sections()[j] != DetailSection::Headline,
        all_sections()[i] != DetailSection::Instructions,
        all_sections()[j] == DetailSection::Area ==> all_sections()[i] == DetailSection::Headline,
        all_sections()[i] == DetailSection::Description ==> all_sections()[j]
            == DetailSection::Instructions,
{
}

/// A row notes the area where there is one, and how long the alert runs where that
/// is known, in this order.
pub proof fn rows_note_area_and_expiry(area: Seq<char>, expires_in_ms: Option<int>)
    ensures
        area.len() > 0 ==> row_notes_of(area, expires_in_ms).len() > 0 && row_notes_of(
            area,
            expires_in_ms,
        )[0] == area,
        expires_in_ms is Some ==> row_notes_of(area, expires_in_ms).len() > 0 && row_notes_of(
            area,
            expires_in_ms,
        ).last() == "Expires "@ + relative_text(expires_in_ms->0),
        row_notes_of(area, expires_in_ms).len() == 2 <==> area.len() > 0 && expires_in_ms is Some,
        row_notes_of(area, expires_in_ms).len() == 0 <==> area.len() == 0 && expires_in_ms is None,
{
}

/// Something of the alerts is on screen unless the list is closed and none is
/// selected.
pub proof fn alerts_are_hidden_only_when_closed(s: AlertsState)
    ensures
        s.list_modal_open ==> s.is_visible(),
        s.selected_alert_id is Some ==> s.is_visible(),
        !s.list_modal_open && s.selected_alert_id is None ==> !s.is_visible(),
{
}

/// An alert is found by its id whenever one has it, and the first of them is.
pub proof fn the_first_alert_of_an_id_is_found(
    s: AlertsState,
    id: Seq<char>,
    r: Option<usize>,
    j: int,
)
    requires
        s.is_found(id, r),
        0 <= j < s.alerts@.len(),
        s.alerts@[j].id@ == id,
    ensures
        r is Some,
        r->0 <= j,
        s.alerts@[r->0 as int].id@ == id,
{
}

/// The detail of a selected alert lies before the list.
pub proof fn the_detail_lies_before_the_list(s: &AlertsState, m: AlertsModal)
    requires
        call_ensures(AlertsState::modal, (s,), m),
    ensures
        s.selected_alert_id is Some <==> m == AlertsModal::Detail,
        s.selected_alert_id is None && s.list_modal_open <==> m == AlertsModal::List,
        m == AlertsModal::Hidden <==> !s.is_visible(),
{
}

/// On a wide screen beginnings and ends stand in two columns, on a narrow one below
/// each other; no time is lost between them.
pub proof fn wide_and_narrow_show_the_same_times(a: &Alert, wide: TimingMeta, narrow: TimingMeta)
    requires
        call_ensures(timing_meta, (a, true), wide),
        call_ensures(timing_meta, (a, false), narrow),
    ensures
        narrow.first@ == wide.first@ + wide.second@,
        narrow.second@.len() == 0,
        forall|i: int|
            0 <= i < narrow.first@.len() ==> match (#[trigger] narrow.first@[i]).0 {
                TimingLabel::Effective => a.effective_secs == Some(narrow.first@[i].1),
                TimingLabel::Onset => a.onset_secs == Some(narrow.first@[i].1),
                TimingLabel::Expires => a.expires_secs == Some(narrow.first@[i].1),
                TimingLabel::Ends => a.ends_secs == Some(narrow.first@[i].1),
            },
        a.sender@.len() > 0 ==> wide.sender is Some && wide.sender->0@ == a.sender@,
        a.sender@.len() == 0 ==> wide.sender is None && narrow.sender is None,
{
    assert forall|i: int| 0 <= i < narrow.first@.len() implies match (
    #[trigger] narrow.first@[i]).0 {
        TimingLabel::Effective => a.effective_secs == Some(narrow.first@[i].1),
        TimingLabel::Onset => a.onset_secs == Some(narrow.first@[i].1),
        TimingLabel::Expires => a.expires_secs == Some(narrow.first@[i].1),
        TimingLabel::Ends => a.ends_secs == Some(narrow.first@[i].1),
    } by {
        each_time_stands_under_its_label(*a, i);
    }
}

/// The note of a row tells how far ahead the end of the alert lies of the present.
pub proof fn rows_count_from_now_to_the_expiry(
    area: &str,
    now_ms: i64,
    expires_ms: i64,
    r: Vec<String>,
)
    requires
        i64::MIN <= expires_ms - now_ms <= i64::MAX,
        call_ensures(row_notes, (area, now_ms, Some(expires_ms)), r),
    ensures
        r@.len() > 0,
        r@.last()@ == "Expires "@ + relative_text(expires_ms - now_ms),
        expires_ms < now_ms ==> r@.last()@ == "Expires "@ + "in the past"@,
{
    let notes = row_notes_of(area@, Some(expires_ms - now_ms));
    rows_note_area_and_expiry(area@, Some(expires_ms - now_ms));
    let views = r@.map_values(|s: String| s@);
    assert(views.len() == r@.len());
    assert(views[r@.len() - 1] == r@[r@.len() - 1]@);
}

/// What lies before now is past; what lies ahead is not.
pub proof fn only_times_before_now_are_past(now_ms: i64, ts_ms: i64, s: String)
    requires
        i64::MIN <= ts_ms - now_ms <= i64::MAX,
        call_ensures(format_relative, (now_ms, ts_ms), s),
    ensures
        ts_ms < now_ms ==> s@ == "in the past"@,
        now_ms <= ts_ms < now_ms + 1000 ==> s@ == "in "@ + crate::text::decimal(0) + "s"@,
        now_ms + 60_000 <= ts_ms < now_ms + 120_000 ==> s@ == "in "@ + crate::text::decimal(1)
            + "m"@,
{
}

/// A universal time is that of the very instant, to the minute.
pub proof fn universal_times_name_the_instant(secs: i64, s: String)
    requires
        crate::calendar::in_calendar(secs as int),
        call_ensures(format_absolute_utc, (secs,), s),
    ensures
        exists|c: CivilTime|
            s@ == #[trigger] absolute_text(c, "UTC"@) && crate::calendar::is_civil(c)
                && crate::calendar::epoch_seconds(c) == secs,
{
    crate::calendar::civil_time_exists(secs as int);
    assert(s@ == absolute_text(crate::calendar::civil_at(secs as int), "UTC"@));
}

/// The selected alert is shown while it is among the alerts; a selection of one that
/// is gone is cleared.
pub proof fn a_lost_selection_is_cleared(s: &AlertsState, v: DetailView, id: Seq<char>)
    requires
        call_ensures(AlertsState::detail, (s,), v),
        s.selected_alert_id is Some,
        s.selected_alert_id->0@ == id,
    ensures
        (exists|j: int| 0 <= j < s.alerts@.len() && (#[trigger] s.alerts@[j]).id@ == id) <==> v
            is Show,
        v matches DetailView::Show(k) ==> k < s.alerts@.len() && s.alerts@[k as int].id@ == id,
{
}

/// The sections shown are those of which the alert has a text, from the headline on.
pub proof fn sections_with_text_are_shown(a: &Alert, r: Vec<DetailSection>)
    requires
        call_ensures(detail_sections, (a,), r),
    ensures
        r@.contains(DetailSection::Headline) <==> a.headline@.len() > 0,
        r@.contains(DetailSection::Area) <==> a.area_desc@.len() > 0,
        r@.contains(DetailSection::Description) <==> a.description@.len() > 0,
        r@.contains(DetailSection::Instructions) <==> a.instruction@.len() > 0,
{
    let keep = |s: DetailSection| s.text_of(*a).len() > 0;
    let all = all_sections();
    broadcast use vstd::seq_lib::group_filter_ensures;

    assert(all[0] == DetailSection::Headline && all[1] == DetailSection::Area);
    assert(all[2] == DetailSection::Description && all[3] == DetailSection::Instructions);
    assert forall|s: DetailSection| #[trigger] r@.contains(s) implies keep(s) by {
        let k = choose|k: int| 0 <= k < r@.len() && r@[k] == s;
        assert(keep(all.filter(keep)[k]));
    }
    assert(keep(DetailSection::Headline) ==> r@.contains(all[0]));
    assert(keep(DetailSection::Area) ==> r@.contains(all[1]));
    assert(keep(DetailSection::Description) ==> r@.contains(all[2]));
    assert(keep(DetailSection::Instructions) ==> r@.contains(all[3]));
}

/// One alert is spoken of in the singular, any other number in the plural.
pub proof fn a_single_alert_is_singular(n: usize, s: String)
    requires
        call_ensures(in_view_text, (n,), s),
    ensures
        n == 1 ==> s@ == crate::text::decimal(1) + " alert"@ + " in view"@,
        n != 1 ==> s@ == crate::text::decimal(n as nat) + " alert"@ + "s"@ + " in view"@,
{
    reveal_strlit("");
    if n == 1 {
        assert(s@ =~= crate::text::decimal(1) + " alert"@ + " in view"@);
    }
}

/// A local time says that it is local, and a universal one that it is universal.
pub proof fn times_say_their_zone(c: CivilTime, local: String, utc: String)
    requires
        call_ensures(format_absolute, (c, true), local),
        call_ensures(format_absolute, (c, false), utc),
    ensures
        local@ == absolute_text(c, "local"@),
        utc@ == absolute_text(c, "UTC"@),
{
}

} // verus!
