//! The panel of controls: product and elevation, tools, saved events, storage.

use crate::binary::{hold, round_wide, DOUBLE};
use crate::calendar::utc_format;
use crate::colors::{from_rgb, Color32};
use crate::event_modal::{BrowserTime, SavedEvent};
use crate::playback::PlaybackState;
use crate::text::{push_decimal, push_padded, same_text};
use crate::transport::ElevationSelection;
use vstd::prelude::*;
use vstd::string::*;

verus! {

/// Which elevation is shown, and which one was picked last.
#[derive(Clone, Copy, Debug, PartialEq, Eq)]
pub struct ElevationChoice {
    pub selection: ElevationSelection,
    /// Number of the cut, and its angle in thousandths of a degree.
    pub last_fixed: Option<(u8, i32)>,
}

impl ElevationChoice {
    /// The choice once the box for the latest sweep was ticked or cleared.
    pub open spec fn after_auto(self, auto: bool) -> ElevationChoice {
        if auto {
            ElevationChoice {
                selection: ElevationSelection::Latest,
                last_fixed: match self.selection {
                    ElevationSelection::Fixed { elevation_number, angle } => Some(
                        (elevation_number, angle),
                    ),
                    ElevationSelection::Latest => self.last_fixed,
                },
            }
        } else {
            let (elevation_number, angle) = match self.last_fixed {
                Some(f) => f,
                None => (1u8, 500i32),
            };
            ElevationChoice {
                selection: ElevationSelection::Fixed { elevation_number, angle },
                last_fixed: self.last_fixed,
            }
        }
    }

    /// Ticks or clears the box for the latest sweep. The picked cut is kept, and
    /// comes back; the lowest is shown where none was picked.
    pub fn set_auto(&mut self, auto: bool)
        ensures
            *final(self) == old(self).after_auto(auto),
    {
        if auto {
            if let ElevationSelection::Fixed { elevation_number, angle } = self.selection {
                self.last_fixed = Some((elevation_number, angle));
            }
            self.selection = ElevationSelection::Latest;
        } else {
            let (elevation_number, angle): (u8, i32) = match self.last_fixed {
                Some(f) => f,
                None => (1, 500),
            };
            self.selection = ElevationSelection::Fixed { elevation_number, angle };
        }
    }

    /// Picks a cut.
    pub fn pick(&mut self, elevation_number: u8, angle: i32)
        ensures
            *final(self) == (ElevationChoice {
                selection: ElevationSelection::Fixed { elevation_number, angle },
                ..*old(self)
            }),
    {
        self.selection = ElevationSelection::Fixed { elevation_number, angle };
    }

    /// Whether a cut is the one picked.
    pub fn is_picked(&self, number: u8) -> (b: bool)
        ensures
            b == self.picks(number),
    {
        match self.selection {
            ElevationSelection::Fixed { elevation_number, .. } => elevation_number == number,
            ElevationSelection::Latest => false,
        }
    }
}

/// Ticking the box and clearing it again shows the cut that was shown.
pub proof fn the_picked_cut_comes_back(c: ElevationChoice)
    requires
        c.selection is Fixed,
    ensures
        c.after_auto(true).after_auto(false).selection == c.selection,
{
}

/// Whether a product is to be had at an elevation: where none is listed, all
/// are.
pub open spec fn is_available(listed: Seq<String>, product: Seq<char>) -> bool {
    listed.len() == 0 || exists|i: int|
        0 <= i < listed.len() && (#[trigger] listed[i])@ == product
}

/// Whether a product is to be had at an elevation.
pub fn product_available(listed: &Vec<String>, product: &str) -> (b: bool)
    ensures
        b == is_available(listed@, product@),
{
    if listed.len() == 0 {
        return true;
    }
    let mut i: usize = 0;
    while i < listed.len()
        invariant
            i <= listed@.len(),
            forall|k: int| 0 <= k < i ==> (#[trigger] listed@[k])@ != product@,
        decreases listed@.len() - i,
    {
        if same_text(listed[i].as_str(), product) {
            return true;
        }
        i += 1;
    }
    false
}

/// What is said of a product that is not to be had.
pub fn unavailable_hover(product: &str) -> (s: String)
    ensures
        s@ == product@ + " not available at this elevation"@,
{
    let mut s = String::new();
    s.append(product);
    s.append(" not available at this elevation");
    assert(s@ =~= product@ + " not available at this elevation"@);
    s
}

/// An elevation in the list: its number at the left of three places, then its
/// angle, given in thousandths of a degree.
pub open spec fn entry_text(number: int, angle: int) -> Seq<char> {
    crate::text::decimal(number as nat) + crate::radar_operations::spaces(
        3 - crate::text::decimal(number as nat).len(),
    ) + " "@ + crate::radar_operations::angle_text(angle) + "\u{b0}"@
}

/// An elevation in the list.
pub fn entry_label(number: u8, angle: i32) -> (s: String)
    ensures
        s@ == entry_text(number as int, angle as int),
{
    let mut s = String::new();
    push_decimal(&mut s, number as u64);
    assert(s@ =~= crate::text::decimal(number as nat));
    let width: usize = s.as_str().unicode_len();
    if width < 3 {
        crate::radar_operations::push_spaces(&mut s, 3 - width);
    }
    assert(s@ =~= crate::text::decimal(number as nat) + crate::radar_operations::spaces(
        3 - crate::text::decimal(number as nat).len(),
    ));
    s.append(" ");
    crate::radar_operations::push_angle(&mut s, angle);
    s.append("\u{b0}");
    assert(s@ =~= entry_text(number as int, angle as int));
    s
}

/// Colour of a waveform's badge; there is none for an unknown waveform.
pub open spec fn badge_of(waveform: Seq<char>) -> Option<Color32> {
    if waveform.len() == 0 {
        None
    } else if waveform == "CS"@ {
        Some(crate::colors::rgb(100, 200, 100))
    } else {
        Some(crate::colors::rgb(100, 150, 255))
    }
}

/// Colour of a waveform's badge.
pub fn waveform_badge(waveform: &str) -> (r: Option<Color32>)
    ensures
        r == badge_of(waveform@),
{
    if waveform.unicode_len() == 0 {
        None
    } else if same_text(waveform, "CS") {
        Some(from_rgb(100, 200, 100))
    } else {
        Some(from_rgb(100, 150, 255))
    }
}

/// Why a cut is scanned again within a volume.
#[derive(Clone, Copy, Debug, PartialEq, Eq, Structural)]
pub enum CutTag {
    Sails,
    Mrle,
}

impl CutTag {
    pub fn label(self) -> (s: &'static str)
        ensures
            s@ == match self {
                CutTag::Sails => "SAILS"@,
                CutTag::Mrle => "MRLE"@,
            },
    {
        match self {
            CutTag::Sails => "SAILS",
            CutTag::Mrle => "MRLE",
        }
    }

    /// What the tag says on hovering.
    pub fn hover(self) -> (s: &'static str)
        ensures
            s@ == match self {
                CutTag::Sails => "Supplemental Adaptive Intra-Volume Low-Level Scan \u{2014} CD waveform, lower range resolution than CS base tilt"@,
                CutTag::Mrle => "Mid-Volume Rescan of Low-Level Elevations"@,
            },
    {
        match self {
            CutTag::Sails => {
                "Supplemental Adaptive Intra-Volume Low-Level Scan \u{2014} CD waveform, lower range resolution than CS base tilt"
            },
            CutTag::Mrle => "Mid-Volume Rescan of Low-Level Elevations",
        }
    }
}

/// A cut of the pattern.
#[derive(Debug)]
pub struct ElevationEntry {
    pub elevation_number: u8,
    /// Thousandths of a degree.
    pub angle: i32,
    pub waveform: String,
    pub is_sails: bool,
    pub is_mrle: bool,
    /// The products to be had; none listed means that they are not known.
    pub available_products: Vec<String>,
}

/// A row of the elevation list.
#[derive(Debug)]
pub struct ElevationRow {
    pub label: String,
    pub selected: bool,
    pub enabled: bool,
    pub badge: Option<Color32>,
    pub tags: Vec<CutTag>,
}

/// A row of the elevation list.
pub struct ElevationRowView {
    pub label: Seq<char>,
    pub selected: bool,
    pub enabled: bool,
    pub badge: Option<Color32>,
    pub tags: Seq<CutTag>,
}

impl View for ElevationRow {
    type V = ElevationRowView;

    open spec fn view(&self) -> ElevationRowView {
        ElevationRowView {
            label: self.label@,
            selected: self.selected,
            enabled: self.enabled,
            badge: self.badge,
            tags: self.tags@,
        }
    }
}

/// The tags of a cut.
pub open spec fn tags_of(e: ElevationEntry) -> Seq<CutTag> {
    (if e.is_sails {
        seq![CutTag::Sails]
    } else {
        seq![]
    }) + (if e.is_mrle {
        seq![CutTag::Mrle]
    } else {
        seq![]
    })
}

impl ElevationChoice {
    /// Whether a cut is the one picked.
    pub open spec fn picks(self, number: u8) -> bool {
        self.selection matches ElevationSelection::Fixed { elevation_number, .. }
            && elevation_number == number
    }

    /// The row of a cut. It can be picked where the product on display is to be
    /// had.
    pub open spec fn row_of(self, e: ElevationEntry, product: Seq<char>) -> ElevationRowView {
        ElevationRowView {
            label: entry_text(e.elevation_number as int, e.angle as int),
            selected: self.picks(e.elevation_number),
            enabled: is_available(e.available_products@, product),
            badge: badge_of(e.waveform@),
            tags: tags_of(e),
        }
    }

    /// The rows of the elevation list. Before any pattern is known there is one,
    /// for the lowest cut.
    pub open spec fn rows_of(
        self,
        entries: Seq<ElevationEntry>,
        product: Seq<char>,
    ) -> Seq<ElevationRowView> {
        if entries.len() == 0 {
            seq![
                ElevationRowView {
                    label: "1   0.5\u{b0} (default)"@,
                    selected: self.picks(1),
                    enabled: true,
                    badge: None,
                    tags: seq![],
                },
            ]
        } else {
            Seq::new(entries.len(), |i: int| self.row_of(entries[i], product))
        }
    }

    fn row(&self, e: &ElevationEntry, product: &str) -> (r: ElevationRow)
        ensures
            r@ == self.row_of(*e, product@),
    {
        let mut tags: Vec<CutTag> = Vec::new();
        if e.is_sails {
            tags.push(CutTag::Sails);
        }
        if e.is_mrle {
            tags.push(CutTag::Mrle);
        }
        assert(tags@ =~= tags_of(*e));
        ElevationRow {
            label: entry_label(e.elevation_number, e.angle),
            selected: self.is_picked(e.elevation_number),
            enabled: product_available(&e.available_products, product),
            badge: waveform_badge(e.waveform.as_str()),
            tags,
        }
    }

    /// The rows of the elevation list.
    pub fn rows(&self, entries: &Vec<ElevationEntry>, product: &str) -> (r: Vec<ElevationRow>)
        ensures
            r@.map_values(|w: ElevationRow| w@) == self.rows_of(entries@, product@),
    {
        let mut r: Vec<ElevationRow> = Vec::new();
        if entries.len() == 0 {
            r.push(
                ElevationRow {
                    label: "1   0.5\u{b0} (default)".to_owned(),
                    selected: self.is_picked(1),
                    enabled: true,
                    badge: None,
                    tags: Vec::new(),
                },
            );
            assert(r@[0]@.tags =~= seq![]);
            assert(r@.map_values(|w: ElevationRow| w@) =~= self.rows_of(entries@, product@));
            return r;
        }
        let mut i: usize = 0;
        while i < entries.len()
            invariant
                i <= entries@.len(),
                r@.len() == i,
                forall|k: int|
                    0 <= k < i ==> (#[trigger] r@[k])@ == self.row_of(entries@[k], product@),
            decreases entries@.len() - i,
        {
            let row = self.row(&entries[i], product);
            r.push(row);
            i += 1;
        }
        assert(r@.map_values(|w: ElevationRow| w@) =~= self.rows_of(entries@, product@));
        r
    }

    /// Picks the cut of a row; the lowest, from the one row that stands before any
    /// pattern is known.
    pub fn pick_row(&mut self, entries: &Vec<ElevationEntry>, row: usize)
        requires
            row < entries@.len() || (entries@.len() == 0 && row == 0),
        ensures
            final(self).last_fixed == old(self).last_fixed,
            final(self).selection == (if entries@.len() == 0 {
                ElevationSelection::Fixed { elevation_number: 1, angle: 500 }
            } else {
                ElevationSelection::Fixed {
                    elevation_number: entries@[row as int].elevation_number,
                    angle: entries@[row as int].angle,
                }
            }),
    {
        if entries.len() == 0 {
            self.pick(1, 500);
        } else {
            self.pick(entries[row].elevation_number, entries[row].angle);
        }
    }
}

/// A row that was picked is the selected one, as is every other row of the same
/// cut; the rest are not.
pub proof fn picking_selects_the_row(
    before: ElevationChoice,
    after: ElevationChoice,
    entries: Seq<ElevationEntry>,
    product: Seq<char>,
    row: int,
    other: int,
)
    requires
        0 <= row < entries.len(),
        0 <= other < entries.len(),
        after.last_fixed == before.last_fixed,
        after.selection == (ElevationSelection::Fixed {
            elevation_number: entries[row].elevation_number,
            angle: entries[row].angle,
        }),
    ensures
        after.rows_of(entries, product)[row].selected,
        after.rows_of(entries, product)[other].selected == (entries[other].elevation_number
            == entries[row].elevation_number),
{
}

/// Which of the rendering options can be changed: animation is of no use where
/// playback goes from frame to frame, and the age mark of none without it.
pub fn rendering_options(macro_mode: bool, sweep_animation: bool) -> (r: (bool, bool))
    ensures
        r == (!macro_mode, sweep_animation && !macro_mode),
{
    (!macro_mode, sweep_animation && !macro_mode)
}

/// State of the ruler and of the storm search.
#[derive(Debug)]
pub struct Tools {
    pub distance_active: bool,
    pub distance_start: Option<(i64, i64)>,
    pub distance_end: Option<(i64, i64)>,
    /// Tenths of a dBZ.
    pub storm_threshold: i32,
    /// The storms found, by their place in the search's result.
    pub storms: Vec<usize>,
}

impl Tools {
    /// Turns the ruler on or off. Off, it forgets what it measured.
    pub fn set_distance(&mut self, active: bool)
        ensures
            final(self).distance_active == active,
            final(self).distance_start == (if old(self).distance_active && !active {
                None
            } else {
                old(self).distance_start
            }),
            final(self).distance_end == (if old(self).distance_active && !active {
                None
            } else {
                old(self).distance_end
            }),
            final(self).storm_threshold == old(self).storm_threshold,
            final(self).storms == old(self).storms,
    {
        if self.distance_active && !active {
            self.distance_start = None;
            self.distance_end = None;
        }
        self.distance_active = active;
    }

    /// Changes the echo from which a storm counts. What was found is forgotten,
    /// so that the search is made anew.
    pub fn set_storm_threshold(&mut self, threshold: i32)
        ensures
            final(self).storm_threshold == threshold,
            final(self).storms@.len() == 0,
            final(self).distance_active == old(self).distance_active,
            final(self).distance_start == old(self).distance_start,
            final(self).distance_end == old(self).distance_end,
    {
        self.storm_threshold = threshold;
        self.storms = Vec::new();
    }
}

/// The events of a site, in their order.
pub fn events_of_site(events: &Vec<SavedEvent>, site: &str) -> (r: Vec<usize>)
    ensures
        crate::select::selects(
            r@,
            events@.len() as int,
            |i: int| events@[i].site_id@ == site@,
        ),
{
    let mut r: Vec<usize> = Vec::new();
    let mut i: usize = 0;
    let ghost keep = |i: int| events@[i].site_id@ == site@;
    while i < events.len()
        invariant
            i <= events@.len(),
            keep == (|i: int| events@[i].site_id@ == site@),
            crate::select::selects(r@, i as int, keep),
        decreases events@.len() - i,
    {
        proof {
            crate::select::lemma_select_step(r@, i, keep);
        }
        if same_text(events[i].site_id.as_str(), site) {
            r.push(i);
        }
        i += 1;
    }
    r
}

/// The events of all other sites, in their order.
pub fn events_of_others(events: &Vec<SavedEvent>, site: &str) -> (r: Vec<usize>)
    ensures
        crate::select::selects(
            r@,
            events@.len() as int,
            |i: int| events@[i].site_id@ != site@,
        ),
{
    let mut r: Vec<usize> = Vec::new();
    let mut i: usize = 0;
    let ghost keep = |i: int| events@[i].site_id@ != site@;
    while i < events.len()
        invariant
            i <= events@.len(),
            keep == (|i: int| events@[i].site_id@ != site@),
            crate::select::selects(r@, i as int, keep),
        decreases events@.len() - i,
    {
        proof {
            crate::select::lemma_select_step(r@, i, keep);
        }
        if !same_text(events[i].site_id.as_str(), site) {
            r.push(i);
        }
        i += 1;
    }
    r
}

/// Heading of the other sites' events.
pub fn other_events_text(count: u64) -> (s: String)
    ensures
        s@ == crate::text::decimal(count as nat) + " events on other sites"@,
{
    let mut s = String::new();
    push_decimal(&mut s, count);
    s.append(" events on other sites");
    assert(s@ =~= crate::text::decimal(count as nat) + " events on other sites"@);
    s
}

/// An event of another site in the list.
pub fn other_event_text(event: &SavedEvent) -> (s: String)
    ensures
        s@ == event.name@ + " ("@ + event.site_id@ + ")"@,
{
    let mut s = String::new();
    s.append(event.name.as_str());
    s.append(" (");
    s.append(event.site_id.as_str());
    s.append(")");
    assert(s@ =~= event.name@ + " ("@ + event.site_id@ + ")"@);
    s
}

/// An event's range, from its ends as they are written.
pub fn event_range_text(start: &str, end: &str) -> (s: String)
    ensures
        s@ == start@ + " - "@ + end@,
{
    let mut s = String::new();
    s.append(start);
    s.append(" - ");
    s.append(end);
    assert(s@ =~= start@ + " - "@ + end@);
    s
}

/// Where going to an event leads.
#[derive(Debug)]
pub struct Navigation {
    /// Whether the event's site is to be shown instead, and its timeline
    /// fetched.
    pub switch_site: bool,
    /// The instant that the timeline is centred on, in milliseconds.
    pub center_ms: i64,
}

/// Goes to an event: selects its range, and says whether its site is to be shown
/// instead of the current one. `known` says whether the event's site is one of
/// the network.
pub fn navigate_to_event(
    event: &SavedEvent,
    current_site: &str,
    known: bool,
    playback: &mut PlaybackState,
) -> (n: Navigation)
    requires
        i64::MIN <= event.start_time * 1000 <= i64::MAX,
        i64::MIN <= event.end_time * 1000 <= i64::MAX,
    ensures
        n.switch_site == (event.site_id@ != current_site@ && known),
        n.center_ms == (event.start_time + event.end_time) * 500,
        *final(playback) == (PlaybackState {
            selection: Some(((event.start_time * 1000) as i64, (event.end_time * 1000) as i64)),
            ..*old(playback)
        }),
{
    playback.selection = Some((event.start_time * 1000, event.end_time * 1000));
    Navigation {
        switch_site: known && !same_text(event.site_id.as_str(), current_site),
        center_ms: (event.start_time + event.end_time) * 500,
    }
}

proof fn lemma_event_format()
    ensures
        crate::calendar::is_plain_format("%Y-%m-%d %H:%M"@),
{
    reveal_strlit("%Y-%m-%d %H:%M");
    reveal_with_fuel(crate::calendar::is_plain_format, 16);
    let f = "%Y-%m-%d %H:%M"@;
    assert(f.len() == 14);
    assert(f.skip(2).skip(1) =~= f.skip(3));
    assert(f.skip(3).skip(2) =~= f.skip(5));
    assert(f.skip(5).skip(1) =~= f.skip(6));
    assert(f.skip(6).skip(2) =~= f.skip(8));
    assert(f.skip(8).skip(1) =~= f.skip(9));
    assert(f.skip(9).skip(2) =~= f.skip(11));
    assert(f.skip(11).skip(1) =~= f.skip(12));
    assert(f.skip(12).skip(2) =~= f.skip(14));
    assert(f.skip(14) =~= Seq::<char>::empty());
}

/// An event's time in UTC, given in seconds from the epoch.
pub fn format_event_time(secs: i64) -> (s: String)
    requires
        crate::calendar::in_calendar(secs as int),
    ensures
        s@ == crate::calendar::formatted(
            "%Y-%m-%d %H:%M"@,
            crate::calendar::civil_at(secs as int),
        ),
{
    proof {
        lemma_event_format();
    }
    utc_format(secs, "%Y-%m-%d %H:%M")
}

/// An event's time in the viewer's zone.
pub open spec fn local_event_text(t: BrowserTime) -> Seq<char> {
    crate::text::padded(t.year as nat, 4) + "-"@ + crate::text::padded((t.month0 + 1) as nat, 2)
        + "-"@ + crate::text::padded(t.day as nat, 2) + " "@ + crate::text::padded(
        t.hour as nat,
        2,
    ) + ":"@ + crate::text::padded(t.minute as nat, 2)
}

/// An event's time in the viewer's zone.
pub fn format_event_time_local(t: BrowserTime) -> (s: String)
    ensures
        s@ == local_event_text(t),
{
    let mut s = String::new();
    push_padded(&mut s, t.year as u64, 4);
    s.append("-");
    push_padded(&mut s, t.month0 as u64 + 1, 2);
    s.append("-");
    push_padded(&mut s, t.day as u64, 2);
    s.append(" ");
    push_padded(&mut s, t.hour as u64, 2);
    s.append(":");
    push_padded(&mut s, t.minute as u64, 2);
    assert(s@ =~= local_event_text(t));
    s
}

/// Colour of an event, by its id.
pub open spec fn color_of_event(id: int) -> Color32 {
    if id % 6 == 0 {
        crate::colors::rgb(255, 200, 80)
    } else if id % 6 == 1 {
        crate::colors::rgb(120, 220, 160)
    } else if id % 6 == 2 {
        crate::colors::rgb(160, 180, 255)
    } else if id % 6 == 3 {
        crate::colors::rgb(255, 150, 150)
    } else if id % 6 == 4 {
        crate::colors::rgb(200, 160, 255)
    } else {
        crate::colors::rgb(255, 180, 120)
    }
}

/// Colour of an event, by its id.
pub fn event_color(id: u64) -> (c: Color32)
    ensures
        c == color_of_event(id as int),
{
    let k: u64 = id % 6;
    if k == 0 {
        from_rgb(255, 200, 80)
    } else if k == 1 {
        from_rgb(120, 220, 160)
    } else if k == 2 {
        from_rgb(160, 180, 255)
    } else if k == 3 {
        from_rgb(255, 150, 150)
    } else if k == 4 {
        from_rgb(200, 160, 255)
    } else {
        from_rgb(255, 180, 120)
    }
}

/// Six events in a row are told apart by their colours.
pub proof fn neighbouring_events_differ(a: int, b: int)
    requires
        0 <= a < b < a + 6,
    ensures
        color_of_event(a) != color_of_event(b),
{
}

/// How many parts a share, and a percent of it, is cut into: 2 to the 60th.
pub const PERCENT_PARTS: u128 = 0x1000_0000_0000_0000;

/// How full the storage is, in parts of a percent, at most a hundred percent; not
/// at all without a quota. The sizes, their quotient and the percentage are held
/// in double precision.
pub open spec fn usage_of(used: int, quota: int) -> int {
    if quota <= 0 {
        0
    } else if used >= quota {
        100 * PERCENT_PARTS
    } else {
        let share = crate::binary::held(
            crate::binary::divided(used, 1) * PERCENT_PARTS,
            crate::binary::divided(quota, 1),
            crate::binary::DOUBLE as int,
        );
        let parts = crate::binary::divided(100 * share, 1);
        if parts > 100 * PERCENT_PARTS {
            100 * PERCENT_PARTS
        } else {
            parts
        }
    }
}

fn usage(used: u64, quota: u64) -> (r: u128)
    ensures
        r == usage_of(used as int, quota as int),
        r <= 100 * PERCENT_PARTS,
{
    if quota == 0 {
        return 0;
    }
    if used >= quota {
        return 100 * PERCENT_PARTS;
    }
    proof {
        crate::binary::whole_numbers_are_kept(used as int, DOUBLE as int);
        crate::binary::whole_numbers_are_kept(quota as int, DOUBLE as int);
    }
    let u: u128 = hold(used as u128, 1, DOUBLE);
    let q: u128 = hold(quota as u128, 1, DOUBLE);
    let share: u128 = hold(u * PERCENT_PARTS, q, DOUBLE);
    assert(share <= 0x4000_0000_0000_0000) by (nonlinear_arith)
        requires
            q * share <= u * 0x1000_0000_0000_0000 + (u * 0x1000_0000_0000_0000) / 2 + q,
            3 * u <= 5 * q,
            q > 0,
    ;
    let parts: u128 = hold(100 * share, 1, DOUBLE);
    if parts > 100 * PERCENT_PARTS {
        100 * PERCENT_PARTS
    } else {
        parts
    }
}

/// How full the storage is.
#[derive(Debug)]
pub struct StorageUsage {
    /// In whole percent.
    pub percent: u64,
    pub color: Color32,
}

/// How full the storage is, and the colour of its bar.
pub fn storage_usage(used: u64, quota: u64) -> (u: StorageUsage)
    ensures
        u.percent == crate::text::rounded(
            usage_of(used as int, quota as int),
            PERCENT_PARTS as int,
        ),
        u.color == (if usage_of(used as int, quota as int) > 90 * PERCENT_PARTS {
            crate::colors::rgb(220, 80, 80)
        } else if usage_of(used as int, quota as int) > 70 * PERCENT_PARTS {
            crate::colors::rgb(220, 180, 80)
        } else {
            crate::colors::rgb(80, 160, 80)
        }),
{
    let parts: u128 = usage(used, quota);
    let percent: u64 = round_wide(parts, PERCENT_PARTS) as u64;
    let color = if parts > 90 * PERCENT_PARTS {
        from_rgb(220, 80, 80)
    } else if parts > 70 * PERCENT_PARTS {
        from_rgb(220, 180, 80)
    } else {
        from_rgb(80, 160, 80)
    };
    StorageUsage { percent, color }
}

/// The storage is never shown as fuller than full.
pub proof fn storage_is_at_most_full(used: int, quota: int)
    requires
        used >= 0,
    ensures
        0 <= usage_of(used, quota) <= 100 * PERCENT_PARTS,
{
    if 0 < quota && used < quota {
        crate::binary::whole_numbers_are_kept(used, DOUBLE as int);
        crate::binary::whole_numbers_are_kept(quota, DOUBLE as int);
        let (u, q) = (crate::binary::divided(used, 1), crate::binary::divided(quota, 1));
        crate::binary::held_is_close(u * PERCENT_PARTS, q, DOUBLE as int);
        let share = crate::binary::held(u * PERCENT_PARTS, q, DOUBLE as int);
        crate::binary::held_is_close(100 * share, 1, DOUBLE as int);
    }
}

/// The line on the storage, from its sizes as they are written.
pub fn storage_text(used: &str, quota: &str, percent: u64) -> (s: String)
    ensures
        s@ == used@ + " / "@ + quota@ + " ("@ + crate::text::decimal(percent as nat) + "%)"@,
{
    let mut s = String::new();
    s.append(used);
    s.append(" / ");
    s.append(quota);
    s.append(" (");
    push_decimal(&mut s, percent);
    s.append("%)");
    assert(s@ =~= used@ + " / "@ + quota@ + " ("@ + crate::text::decimal(percent as nat) + "%)"@);
    s
}

/// Turning automatic choice on shows the latest cut and remembers the picked one;
/// turning it off picks the remembered one, or the first at half a degree.
pub proof fn automatic_choice_remembers_the_picked_cut(c: ElevationChoice)
    ensures
        c.after_auto(true).selection == ElevationSelection::Latest,
        c.selection matches ElevationSelection::Fixed { elevation_number, angle }
            ==> c.after_auto(true).last_fixed == Some((elevation_number, angle)),
        c.selection is Latest ==> c.after_auto(true).last_fixed == c.last_fixed,
        c.last_fixed is None ==> c.after_auto(false).selection == (ElevationSelection::Fixed {
            elevation_number: 1,
            angle: 500,
        }),
        c.last_fixed matches Some((number, angle)) ==> c.after_auto(false).selection == (
        ElevationSelection::Fixed { elevation_number: number, angle }),
        c.after_auto(false).last_fixed == c.last_fixed,
{
}

/// A product is available where it is listed, and everywhere where none is.
pub proof fn listed_products_are_available(listed: Seq<String>, product: Seq<char>, i: int)
    ensures
        listed.len() == 0 ==> is_available(listed, product),
        0 <= i < listed.len() ==> is_available(listed, listed[i]@),
        listed.len() > 0 && (forall|k: int|
            0 <= k < listed.len() ==> (#[trigger] listed[k])@ != product) ==> !is_available(
            listed,
            product,
        ),
{
}

/// An entry is the number, filled up to three places, and the angle in degrees.
pub proof fn entries_are_number_and_angle(number: nat, angle: int)
    requires
        number < 256,
    ensures
        ({
            let text = entry_text(number as int, angle);
            let digits = crate::text::decimal(number);
            &&& text.take(digits.len() as int) == digits
            &&& digits.len() <= 3
            &&& forall|i: int| digits.len() <= i < 4 ==> text[i] == ' '
            &&& text.skip(4) == crate::radar_operations::angle_text(angle) + "\u{b0}"@
        }),
{
    reveal_with_fuel(crate::text::decimal, 4);
    reveal_strlit(" ");
    let text = entry_text(number as int, angle);
    let digits = crate::text::decimal(number);
    assert(digits.len() <= 3 && digits.len() >= 1);
    assert(text.take(digits.len() as int) =~= digits);
    assert(text.skip(4) =~= crate::radar_operations::angle_text(angle) + "\u{b0}"@);
}

/// Surveillance cuts have a green badge, all other known ones a blue one.
pub proof fn badges_tell_surveillance_apart(waveform: Seq<char>)
    ensures
        badge_of(Seq::empty()) is None,
        badge_of("CS"@) == Some(crate::colors::rgb(100, 200, 100)),
        waveform.len() > 0 && waveform != "CS"@ ==> badge_of(waveform) == Some(
            crate::colors::rgb(100, 150, 255),
        ),
{
    reveal_strlit("CS");
    assert("CS"@.len() == 2);
}

/// A cut is tagged for each of the two schemes that repeated it.
pub proof fn repeated_cuts_are_tagged(e: ElevationEntry)
    ensures
        tags_of(e).contains(CutTag::Sails) <==> e.is_sails,
        tags_of(e).contains(CutTag::Mrle) <==> e.is_mrle,
        tags_of(e).len() == (if e.is_sails {
            1int
        } else {
            0
        }) + (if e.is_mrle {
            1int
        } else {
            0
        }),
{
    if e.is_sails {
        assert(tags_of(e)[0] == CutTag::Sails);
    }
    if e.is_mrle {
        assert(tags_of(e).last() == CutTag::Mrle);
        assert(tags_of(e)[tags_of(e).len() - 1] == CutTag::Mrle);
    }
}

/// There is a row for each cut, in their order, and without any a row for the first
/// at half a degree, which can always be picked.
pub proof fn each_cut_has_its_row(
    c: ElevationChoice,
    entries: Seq<ElevationEntry>,
    product: Seq<char>,
    i: int,
)
    ensures
        entries.len() > 0 ==> c.rows_of(entries, product).len() == entries.len(),
        0 <= i < entries.len() ==> {
            let row = c.rows_of(entries, product)[i];
            &&& row.label == entry_text(entries[i].elevation_number as int, entries[i].angle as int)
            &&& row.enabled == is_available(entries[i].available_products@, product)
            &&& row.badge == badge_of(entries[i].waveform@)
            &&& row.tags == tags_of(entries[i])
            &&& row.selected <==> (c.selection is Fixed && c.selection->elevation_number
                == entries[i].elevation_number)
        },
        entries.len() == 0 ==> c.rows_of(entries, product).len() == 1 && c.rows_of(
            entries,
            product,
        )[0].enabled && c.rows_of(entries, product)[0].label == "1   0.5\u{b0} (default)"@
            && c.rows_of(entries, product)[0].selected == (c.selection is Fixed
            && c.selection->elevation_number == 1),
{
}

/// A local time is written as year, month, day, hour and minute, each in its place:
/// each reads back as itself, the month counted from one.
pub proof fn local_times_read_back(t: BrowserTime)
    requires
        t.year < 10000,
        t.month0 < 12,
        t.day < 100,
        t.hour < 100,
        t.minute < 100,
    ensures
        local_event_text(t).len() == 16,
        crate::text::digits_value(local_event_text(t).subrange(0, 4)) == t.year,
        crate::text::digits_value(local_event_text(t).subrange(5, 7)) == t.month0 + 1,
        crate::text::digits_value(local_event_text(t).subrange(8, 10)) == t.day,
        crate::text::digits_value(local_event_text(t).subrange(11, 13)) == t.hour,
        crate::text::digits_value(local_event_text(t).subrange(14, 16)) == t.minute,
{
    let text = local_event_text(t);
    crate::text::padding_fills_the_width(t.year as nat);
    crate::text::padding_fills_the_width((t.month0 + 1) as nat);
    crate::text::padding_fills_the_width(t.day as nat);
    crate::text::padding_fills_the_width(t.hour as nat);
    crate::text::padding_fills_the_width(t.minute as nat);
    crate::text::lemma_padded(t.year as nat, 4);
    crate::text::lemma_padded((t.month0 + 1) as nat, 2);
    crate::text::lemma_padded(t.day as nat, 2);
    crate::text::lemma_padded(t.hour as nat, 2);
    crate::text::lemma_padded(t.minute as nat, 2);
    reveal_strlit("-");
    reveal_strlit(" ");
    reveal_strlit(":");
    assert(text.subrange(0, 4) =~= crate::text::padded(t.year as nat, 4));
    assert(text.subrange(5, 7) =~= crate::text::padded((t.month0 + 1) as nat, 2));
    assert(text.subrange(8, 10) =~= crate::text::padded(t.day as nat, 2));
    assert(text.subrange(11, 13) =~= crate::text::padded(t.hour as nat, 2));
    assert(text.subrange(14, 16) =~= crate::text::padded(t.minute as nat, 2));
}

/// The share of the storage that is used is told to within a thousandth of the
/// nearest percent; without a quota nothing is used, and beyond it everything is.
pub proof fn the_used_share_is_told_in_percent(used: int, quota: int)
    requires
        0 <= used,
        quota < 0x20_0000_0000_0000,
    ensures
        ({
            let percent = crate::text::rounded(usage_of(used, quota), PERCENT_PARTS as int);
            &&& quota <= 0 ==> percent == 0
            &&& 0 < quota <= used ==> percent == 100
            &&& 0 <= used < quota ==> -1001 * quota <= 2000 * (percent * quota - 100 * used)
                <= 1001 * quota
        }),
{
    let p = PERCENT_PARTS as int;
    let u = crate::binary::DOUBLE as int;
    let parts = usage_of(used, quota);
    let percent = crate::text::rounded(parts, p);
    crate::text::rounding_is_to_the_nearest(parts, p);
    if 0 <= used < quota {
        crate::binary::whole_numbers_are_kept(used, u);
        crate::binary::whole_numbers_are_kept(quota, u);
        assert(crate::binary::divided(used, 1) == used);
        assert(crate::binary::divided(quota, 1) == quota);
        let share = crate::binary::held(used * p, quota, u);
        assert(used * p >= 0) by (nonlinear_arith)
            requires
                used >= 0,
                p >= 0,
        ;
        crate::binary::held_is_close(used * p, quota, u);
        let a = quota * share - used * p;
        let small = p / 100_000_000;
        assert(-(quota * small) <= a <= quota * small) by {
            if -(used * p) <= u * a <= used * p {
                assert(-(quota * small) <= a <= quota * small) by (nonlinear_arith)
                    requires
                        -(used * p) <= u * a <= used * p,
                        0 <= used < quota,
                        p == 0x1000_0000_0000_0000,
                        small == p / 100_000_000,
                        u == 0x10_0000_0000_0000,
                ;
            } else {
                assert(quota <= quota * small) by (nonlinear_arith)
                    requires
                        quota > 0,
                        small == p / 100_000_000,
                        p == 0x1000_0000_0000_0000,
                ;
            }
        }
        assert(0 <= share <= p + small) by (nonlinear_arith)
            requires
                a == quota * share - used * p,
                a <= quota * small,
                0 <= used < quota,
                share >= 0,
                p > 0,
        ;
        let wide = crate::binary::divided(100 * share, 1);
        crate::binary::held_is_close(100 * share, 1, u);
        let b = wide - 100 * share;
        assert(-small <= b <= small) by {
            if -(100 * share) <= u * b <= 100 * share {
                assert(-small <= b <= small) by (nonlinear_arith)
                    requires
                        -(100 * share) <= u * b <= 100 * share,
                        0 <= share <= p + small,
                        p == 0x1000_0000_0000_0000,
                        small == p / 100_000_000,
                        u == 0x10_0000_0000_0000,
                ;
            }
        }
        assert(100 * a <= 100 * quota * small);
        let d = parts - 100 * share;
        assert(parts == wide || (parts == 100 * p && wide > 100 * p));
        assert(-(quota * (200 * small)) <= quota * parts - 100 * (used * p) <= quota * (200 * small))
            by {
            assert(quota * wide - 100 * (used * p) == quota * b + 100 * a) by (nonlinear_arith)
                requires
                    b == wide - 100 * share,
                    a == quota * share - used * p,
            ;
            assert(-(quota * small) <= quota * b <= quota * small) by (nonlinear_arith)
                requires
                    -small <= b <= small,
                    quota > 0,
            ;
            assert(quota * (200 * small) == 200 * (quota * small)) by (nonlinear_arith);
            assert(quota * small >= 0) by (nonlinear_arith)
                requires
                    quota > 0,
                    small >= 0,
            ;
            if parts != wide {
                assert(quota * parts <= quota * wide) by (nonlinear_arith)
                    requires
                        parts <= wide,
                        quota > 0,
                ;
                assert(quota * parts >= 100 * (used * p)) by (nonlinear_arith)
                    requires
                        parts == 100 * p,
                        0 <= used < quota,
                        p > 0,
                ;
            }
        }
        let c = p * percent - parts;
        let e = percent * quota - 100 * used;
        assert(p * e == quota * c + (quota * parts - 100 * (used * p))) by (nonlinear_arith)
            requires
                c == p * percent - parts,
                e == percent * quota - 100 * used,
        ;
        assert(-(quota * p) <= 2 * (quota * c) <= quota * p) by (nonlinear_arith)
            requires
                -p <= 2 * c <= p,
                quota > 0,
        ;
        assert(quota * (200 * small) * 2000 <= quota * p) by (nonlinear_arith)
            requires
                small == p / 100_000_000,
                p == 0x1000_0000_0000_0000,
                quota > 0,
        ;
        assert(-1001 * quota <= 2000 * e <= 1001 * quota) by (nonlinear_arith)
            requires
                2000 * (p * e) <= 1000 * (quota * p) + quota * p,
                2000 * (p * e) >= -(1000 * (quota * p)) - quota * p,
                p > 0,
        ;
    }
}

/// Six colours take turns over the events.
pub proof fn event_colours_come_back(id: int)
    requires
        0 <= id,
    ensures
        color_of_event(id + 6) == color_of_event(id),
{
    assert((id + 6) % 6 == id % 6);
}

/// The bar of the storage is green up to seventy percent, yellow up to ninety, and
/// red beyond.
pub proof fn the_storage_bar_warns_in_time(used: u64, quota: u64, u: StorageUsage)
    requires
        call_ensures(storage_usage, (used, quota), u),
    ensures
        u.percent <= 100,
        u.percent > 90 ==> u.color == crate::colors::rgb(220, 80, 80),
        70 < u.percent <= 89 ==> u.color == crate::colors::rgb(220, 180, 80),
        u.percent <= 69 ==> u.color == crate::colors::rgb(80, 160, 80),
{
    let p = PERCENT_PARTS as int;
    let parts = usage_of(used as int, quota as int);
    storage_is_at_most_full(used as int, quota as int);
    crate::text::rounding_is_to_the_nearest(parts, p);
}

/// Going to an event selects its time, in milliseconds, centres the view on its
/// middle, and switches to its site where that is another and known.
pub proof fn going_to_an_event_selects_its_time(
    event: &SavedEvent,
    current_site: &str,
    known: bool,
    playback: &mut PlaybackState,
    n: Navigation,
)
    requires
        i64::MIN <= event.start_time * 1000 <= i64::MAX,
        i64::MIN <= event.end_time * 1000 <= i64::MAX,
        call_ensures(navigate_to_event, (event, current_site, known, playback), n),
    ensures
        final(playback).selection matches Some((start, end)) && start == 1000 * event.start_time
            && end == 1000 * event.end_time,
        n.center_ms - 1000 * event.start_time == 1000 * event.end_time - n.center_ms,
        n.switch_site ==> known && event.site_id@ != current_site@,
        known && event.site_id@ != current_site@ ==> n.switch_site,
        final(playback).position_ms == old(playback).position_ms,
        final(playback).playing == old(playback).playing,
{
}

/// Putting the ruler away forgets its ends; taking it up keeps them.
pub proof fn putting_the_ruler_away_forgets_its_ends(t: &mut Tools, active: bool, r: ())
    requires
        call_ensures(Tools::set_distance, (t, active), r),
    ensures
        final(t).distance_active == active,
        old(t).distance_active && !active ==> final(t).distance_start is None && final(t).distance_end is None,
        active || !old(t).distance_active ==> final(t).distance_start == old(t).distance_start
            && final(t).distance_end == old(t).distance_end,
        final(t).storm_threshold == old(t).storm_threshold,
{
}

/// A new threshold forgets the storms found with the old one.
pub proof fn a_new_threshold_forgets_the_storms(t: &mut Tools, threshold: i32, r: ())
    requires
        call_ensures(Tools::set_storm_threshold, (t, threshold), r),
    ensures
        final(t).storm_threshold == threshold,
        final(t).storms@.len() == 0,
        final(t).distance_start == old(t).distance_start && final(t).distance_end == old(
            t,
        ).distance_end,
{
}

/// The events of a site and those of the others share out all events.
pub proof fn every_event_is_of_one_site(
    events: &Vec<SavedEvent>,
    site: &str,
    own: Vec<usize>,
    others: Vec<usize>,
    i: usize,
)
    requires
        call_ensures(events_of_site, (events, site), own),
        call_ensures(events_of_others, (events, site), others),
        i < events@.len(),
    ensures
        own@.contains(i) <==> events@[i as int].site_id@ == site@,
        others@.contains(i) <==> events@[i as int].site_id@ != site@,
{
    let same = |k: int| events@[k].site_id@ == site@;
    let other = |k: int| events@[k].site_id@ != site@;
    assert(same(i as int) == (events@[i as int].site_id@ == site@));
    assert(other(i as int) == (events@[i as int].site_id@ != site@));
    if own@.contains(i) {
        let k = choose|k: int| 0 <= k < own@.len() && own@[k] == i;
        assert(same(own@[k] as int));
    }
    if others@.contains(i) {
        let k = choose|k: int| 0 <= k < others@.len() && others@[k] == i;
        assert(other(others@[k] as int));
    }
}

/// Picking a row picks its cut, and keeps what was picked before it.
pub proof fn picking_a_row_picks_its_cut(
    c: &mut ElevationChoice,
    entries: &Vec<ElevationEntry>,
    row: usize,
    r: (),
)
    requires
        row < entries@.len() || (entries@.len() == 0 && row == 0),
        call_ensures(ElevationChoice::pick_row, (c, entries, row), r),
    ensures
        entries@.len() > 0 ==> final(c).selection == (ElevationSelection::Fixed {
            elevation_number: entries@[row as int].elevation_number,
            angle: entries@[row as int].angle,
        }),
        entries@.len() == 0 ==> final(c).selection == (ElevationSelection::Fixed {
            elevation_number: 1,
            angle: 500,
        }),
        final(c).last_fixed == old(c).last_fixed,
{
}

/// The time of an event is written as that of a browser in universal time would be.
pub proof fn event_times_are_written_alike(secs: i64, s: String, t: BrowserTime)
    requires
        crate::calendar::in_calendar(secs as int),
        call_ensures(format_event_time, (secs,), s),
        0 <= crate::calendar::civil_at(secs as int).year <= 9999,
        ({
            let c = crate::calendar::civil_at(secs as int);
            &&& t.year == c.year && t.month0 + 1 == c.month && t.day == c.day
            &&& t.hour == c.hour && t.minute == c.minute
        }),
    ensures
        s@ == local_event_text(t),
{
    let c = crate::calendar::civil_at(secs as int);
    reveal_strlit("-");
    reveal_strlit(" ");
    reveal_strlit(":");
    crate::calendar::date_and_time_are_written_in_order(Seq::empty(), c);
    assert("%Y-%m-%d %H:%M"@ + Seq::<char>::empty() =~= "%Y-%m-%d %H:%M"@);
    assert(s@ =~= local_event_text(t));
}

/// Macro playback switches the sweep's animation off and its option away.
pub proof fn macro_playback_has_no_animation(wanted: bool, coarse: (bool, bool), fine: (bool, bool))
    requires
        call_ensures(rendering_options, (true, wanted), coarse),
        call_ensures(rendering_options, (false, wanted), fine),
    ensures
        coarse == (false, false),
        fine == (true, wanted),
{
}

/// The six colours of the events, in their order.
pub proof fn events_have_six_colours(turn: int)
    requires
        0 <= turn,
    ensures
        color_of_event(6 * turn) == crate::colors::rgb(255, 200, 80),
        color_of_event(6 * turn + 1) == crate::colors::rgb(120, 220, 160),
        color_of_event(6 * turn + 2) == crate::colors::rgb(160, 180, 255),
        color_of_event(6 * turn + 3) == crate::colors::rgb(255, 150, 150),
        color_of_event(6 * turn + 4) == crate::colors::rgb(200, 160, 255),
        color_of_event(6 * turn + 5) == crate::colors::rgb(255, 180, 120),
{
}

/// An event of another site is named with its site, and a range with its start first.
pub proof fn events_are_named_with_site_and_range(
    event: &SavedEvent,
    start: &str,
    end: &str,
    name: String,
    range: String,
)
    requires
        call_ensures(other_event_text, (event,), name),
        call_ensures(event_range_text, (start, end), range),
    ensures
        name@ == event.name@ + " ("@ + event.site_id@ + ")"@,
        range@ == start@ + " - "@ + end@,
{
}

/// The storage tells what is used before the quota, and the share in percent.
pub proof fn the_storage_tells_used_before_quota(used: &str, quota: &str, percent: u64, s: String)
    requires
        call_ensures(storage_text, (used, quota, percent), s),
    ensures
        s@ == used@ + " / "@ + quota@ + " ("@ + crate::text::decimal(percent as nat) + "%)"@,
{
}

} // verus!
