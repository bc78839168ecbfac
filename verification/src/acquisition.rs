//! Owner of what is fetched, and the question asked before a long range is.
//!
//! Times are in milliseconds from the epoch.

use crate::binary::{divide, double_of, push_double};
use crate::chrome::Chrome;
use crate::text::{push_decimal, round_div};
use vstd::prelude::*;
use vstd::string::*;

verus! {

/// A range of the timeline that is to be fetched whole.
#[derive(Clone, Copy, Debug, PartialEq, Eq)]
pub struct SelectionFetchTarget {
    /// Its start and its end, in this order.
    pub range: (i64, i64),
    /// When the fetch was asked for.
    pub armed_at_ms: i64,
}

/// Until when a site's listing for a day is not asked for again.
#[derive(Debug)]
pub struct ListingBackoff {
    pub site: String,
    /// Days from the epoch.
    pub day: i64,
    pub until_ms: i64,
}

/// Pace of the fetches.
#[derive(Debug)]
pub struct Acquisition {
    pub lookback_backfill_next_ms: i64,
    pub visible_listing_next_ms: i64,
    pub listing_backoff: Vec<ListingBackoff>,
    pub selection_fetch_target: Option<SelectionFetchTarget>,
}

impl Acquisition {
    /// Whether a site's listing for a day is held back once at most.
    pub open spec fn well_formed(&self) -> bool {
        forall|i: int, j: int|
            0 <= i < j < self.listing_backoff@.len() ==> (#[trigger] self.listing_backoff@[i]).site@
                != (#[trigger] self.listing_backoff@[j]).site@ || self.listing_backoff@[i].day
                != self.listing_backoff@[j].day
    }

    /// Nothing asked for, nothing held back.
    pub fn new() -> (a: Self)
        ensures
            a.well_formed(),
            a.lookback_backfill_next_ms == 0,
            a.visible_listing_next_ms == 0,
            a.listing_backoff@.len() == 0,
            a.selection_fetch_target is None,
    {
        Acquisition {
            lookback_backfill_next_ms: 0,
            visible_listing_next_ms: 0,
            listing_backoff: Vec::new(),
            selection_fetch_target: None,
        }
    }
}

/// How much a range would fetch.
#[derive(Clone, Copy, Debug, PartialEq, Eq)]
pub struct RangeEstimate {
    pub duration_ms: u64,
    pub scans: u64,
    pub bytes: u64,
}

pub open spec fn distance(a: int, b: int) -> int {
    if a < b {
        b - a
    } else {
        a - b
    }
}

/// How much a range would fetch: as many scans as begin in it, and at least one.
pub open spec fn estimate_of(range: (i64, i64), scan_ms: int, scan_bytes: int) -> (int, int, int) {
    let duration = distance(range.0 as int, range.1 as int);
    let whole = (duration + scan_ms - 1) / scan_ms;
    let scans = if whole < 1 {
        1
    } else {
        whole
    };
    let bytes = if scans * scan_bytes > u64::MAX {
        u64::MAX as int
    } else {
        scans * scan_bytes
    };
    (duration, scans, bytes)
}

/// How much a range would fetch, by the usual length and size of a scan.
pub fn range_estimate(range: (i64, i64), scan_ms: u32, scan_bytes: u64) -> (e: RangeEstimate)
    requires
        scan_ms > 0,
    ensures
        (e.duration_ms as int, e.scans as int, e.bytes as int) == estimate_of(
            range,
            scan_ms as int,
            scan_bytes as int,
        ),
{
    let (a, b): (i128, i128) = (range.0 as i128, range.1 as i128);
    let duration: u128 = if a < b {
        (b - a) as u128
    } else {
        (a - b) as u128
    };
    let whole: u128 = (duration + scan_ms as u128 - 1) / (scan_ms as u128);
    proof {
        vstd::arithmetic::div_mod::lemma_div_is_ordered_by_denominator(
            duration as int + scan_ms as int - 1,
            1,
            scan_ms as int,
        );
        if scan_ms == 1 {
            assert(whole == duration);
        } else {
            vstd::arithmetic::div_mod::lemma_div_is_ordered_by_denominator(
                duration as int + scan_ms as int - 1,
                2,
                scan_ms as int,
            );
        }
    }
    let scans: u64 = if whole < 1 {
        1
    } else {
        whole as u64
    };
    let bytes: u64 = match scans.checked_mul(scan_bytes) {
        Some(b) => b,
        None => u64::MAX,
    };
    RangeEstimate { duration_ms: duration as u64, scans, bytes }
}

impl RangeEstimate {
    /// The line on the range's length.
    pub fn duration_line(&self) -> (s: String)
        ensures
            s@ == "  \u{2022} Duration: "@ + crate::binary::double_text(
                crate::binary::divided(crate::binary::double(self.duration_ms as int), 3600),
            ) + " hours"@,
    {
        let mut s = String::new();
        s.append("  \u{2022} Duration: ");
        push_double(&mut s, divide(double_of(self.duration_ms), 3600));
        s.append(" hours");
        assert(s@ =~= "  \u{2022} Duration: "@ + crate::binary::double_text(
            crate::binary::divided(crate::binary::double(self.duration_ms as int), 3600),
        ) + " hours"@);
        s
    }

    /// The line on what the range would fetch.
    pub fn size_line(&self) -> (s: String)
        ensures
            s@ == "  \u{2022} Estimated download: ~"@ + crate::text::decimal(self.scans as nat)
                + " scans (~"@ + crate::text::decimal(
                crate::text::rounded(self.bytes as int, 1_048_576) as nat,
            ) + " MB)"@,
    {
        let mut s = String::new();
        s.append("  \u{2022} Estimated download: ~");
        push_decimal(&mut s, self.scans);
        s.append(" scans (~");
        push_decimal(&mut s, round_div(self.bytes, 1_048_576));
        s.append(" MB)");
        assert(s@ =~= "  \u{2022} Estimated download: ~"@ + crate::text::decimal(self.scans as nat)
            + " scans (~"@ + crate::text::decimal(
            crate::text::rounded(self.bytes as int, 1_048_576) as nat,
        ) + " MB)"@);
        s
    }
}

/// A longer range is never estimated to fetch fewer scans.
pub proof fn longer_ranges_fetch_no_less(
    a: (i64, i64),
    b: (i64, i64),
    scan_ms: int,
    scan_bytes: int,
)
    requires
        scan_ms > 0,
        distance(a.0 as int, a.1 as int) <= distance(b.0 as int, b.1 as int),
    ensures
        estimate_of(a, scan_ms, scan_bytes).1 <= estimate_of(b, scan_ms, scan_bytes).1,
{
    vstd::arithmetic::div_mod::lemma_div_is_ordered(
        distance(a.0 as int, a.1 as int) + scan_ms - 1,
        distance(b.0 as int, b.1 as int) + scan_ms - 1,
        scan_ms,
    );
}

/// A range with its start before its end.
pub open spec fn in_order(range: (i64, i64)) -> (i64, i64) {
    if range.0 <= range.1 {
        range
    } else {
        (range.1, range.0)
    }
}

/// A button of the question.
#[derive(Clone, Copy, Debug, PartialEq, Eq, Structural)]
pub enum RangeButton {
    Backdrop,
    Cancel,
    Download,
}

/// Answers the question. Every answer closes it; only a download arms the fetch,
/// of the range asked about, from its start to its end.
pub fn answer_range_download(
    button: RangeButton,
    acquisition: &mut Acquisition,
    chrome: &mut Chrome,
    now_ms: i64,
)
    ensures
        *final(chrome) == (Chrome { range_download_modal: None, ..*old(chrome) }),
        old(acquisition).well_formed() ==> final(acquisition).well_formed(),
        *final(acquisition) == (Acquisition {
            selection_fetch_target: if button == RangeButton::Download && old(
                chrome,
            ).range_download_modal is Some {
                Some(
                    SelectionFetchTarget {
                        range: in_order(old(chrome).range_download_modal->0),
                        armed_at_ms: now_ms,
                    },
                )
            } else {
                old(acquisition).selection_fetch_target
            },
            ..*old(acquisition)
        }),
{
    if button == RangeButton::Download {
        if let Some((a, b)) = chrome.range_download_modal {
            acquisition.selection_fetch_target = Some(
                SelectionFetchTarget {
                    range: if a <= b {
                        (a, b)
                    } else {
                        (b, a)
                    },
                    armed_at_ms: now_ms,
                },
            );
        }
    }
    chrome.range_download_modal = None;
}

/// A button of the question on resetting the settings.
#[derive(Clone, Copy, Debug, PartialEq, Eq, Structural)]
pub enum ResetButton {
    Backdrop,
    Cancel,
    Reset,
}

/// Answers the question on resetting the settings. Every answer closes it; says
/// whether the settings are to be reset.
pub fn answer_reset_settings(button: ResetButton, chrome: &mut Chrome) -> (reset: bool)
    ensures
        *final(chrome) == (Chrome { reset_settings_modal_open: false, ..*old(chrome) }),
        reset == (button == ResetButton::Reset),
{
    chrome.reset_settings_modal_open = false;
    button == ResetButton::Reset
}

/// An estimate covers the range with whole scans, none more than needed but at least
/// one, whichever end of the range comes first.
pub proof fn estimates_cover_the_range(range: (i64, i64), scan_ms: int, scan_bytes: int)
    requires
        scan_ms > 0,
        scan_bytes >= 0,
    ensures
        ({
            let (duration, scans, bytes) = estimate_of(range, scan_ms, scan_bytes);
            &&& range.0 <= range.1 ==> range.0 + duration == range.1
            &&& range.1 <= range.0 ==> range.1 + duration == range.0
            &&& scans >= 1
            &&& scans * scan_ms >= duration
            &&& scans > 1 ==> (scans - 1) * scan_ms < duration
            &&& scans * scan_bytes <= u64::MAX ==> bytes == scans * scan_bytes
            &&& scans * scan_bytes > u64::MAX ==> bytes == u64::MAX
        }),
{
    let duration = distance(range.0 as int, range.1 as int);
    let n = duration + scan_ms - 1;
    let whole = n / scan_ms;
    vstd::arithmetic::div_mod::lemma_fundamental_div_mod(n, scan_ms);
    assert(scan_ms * whole == whole * scan_ms) by (nonlinear_arith);
    assert((whole - 1) * scan_ms == whole * scan_ms - scan_ms) by (nonlinear_arith);
    if whole < 1 {
        assert(whole * scan_ms <= 0) by (nonlinear_arith)
            requires
                whole <= 0,
                scan_ms > 0,
        ;
    }
}

/// A range is put in order without losing an end.
pub proof fn ranges_are_put_in_order(range: (i64, i64))
    ensures
        in_order(range).0 <= in_order(range).1,
        in_order(range) == range || in_order(range) == (range.1, range.0),
        range.0 <= range.1 ==> in_order(range) == range,
{
}

/// Only the download button arms a fetch: of the range that was asked about, its
/// earlier end first, from now on. Every answer closes the question.
pub proof fn only_download_arms_a_fetch(
    button: RangeButton,
    a: &mut Acquisition,
    c: &mut Chrome,
    now_ms: i64,
    r: (),
)
    requires
        call_ensures(answer_range_download, (button, a, c, now_ms), r),
    ensures
        final(c).range_download_modal is None,
        button != RangeButton::Download ==> *final(a) == *old(a),
        old(c).range_download_modal is None ==> *final(a) == *old(a),
        button == RangeButton::Download && old(c).range_download_modal is Some ==> {
            let asked = old(c).range_download_modal->0;
            &&& final(a).selection_fetch_target is Some
            &&& final(a).selection_fetch_target->0.armed_at_ms == now_ms
            &&& asked.0 <= asked.1 ==> final(a).selection_fetch_target->0.range == asked
            &&& asked.0 > asked.1 ==> final(a).selection_fetch_target->0.range == (asked.1, asked.0)
        },
        final(a).listing_backoff == old(a).listing_backoff,
        final(c).site_modal_open == old(c).site_modal_open,
{
}

/// The question tells the hours of the range to the nearest tenth, and the download
/// in scans and in megabytes of 1024 times 1024 bytes, to the nearest.
pub proof fn estimates_are_told_in_hours_and_megabytes(
    e: &RangeEstimate,
    duration: String,
    size: String,
)
    requires
        e.duration_ms < 0x2_0000_0000_0000,
        call_ensures(RangeEstimate::duration_line, (e,), duration),
        call_ensures(RangeEstimate::size_line, (e,), size),
    ensures
        exists|t: nat|
            duration@ == "  \u{2022} Duration: "@ + #[trigger] crate::text::tenths(t) + " hours"@
                && e.duration_ms - 180_000 <= 360_000 * t <= e.duration_ms + 180_000,
        exists|mb: nat|
            size@ == "  \u{2022} Estimated download: ~"@ + crate::text::decimal(e.scans as nat)
                + " scans (~"@ + #[trigger] crate::text::decimal(mb) + " MB)"@ && e.bytes - 512
                * 1024 <= 1024 * 1024 * mb <= e.bytes + 512 * 1024,
{
    let ms = e.duration_ms as int;
    crate::binary::the_nearest_tenth_of_a_share_is_shown(ms, 3600);
    let t = choose|t: nat|
        crate::binary::double_text(crate::binary::divided(crate::binary::double(ms), 3600))
            == #[trigger] crate::text::tenths(t) && ms - 50 * 3600 <= 100 * 3600 * t <= ms + 50
            * 3600;
    assert(duration@ == "  \u{2022} Duration: "@ + crate::text::tenths(t) + " hours"@);
    crate::text::rounding_is_to_the_nearest(e.bytes as int, 1_048_576);
    let mb = crate::text::rounded(e.bytes as int, 1_048_576) as nat;
    assert(size@ == "  \u{2022} Estimated download: ~"@ + crate::text::decimal(e.scans as nat)
        + " scans (~"@ + crate::text::decimal(mb) + " MB)"@);
}

/// Only the reset button resets; every answer closes the question.
pub proof fn only_reset_resets(button: ResetButton, c: &mut Chrome, reset: bool)
    requires
        call_ensures(answer_reset_settings, (button, c), reset),
    ensures
        reset <==> button == ResetButton::Reset,
        !final(c).reset_settings_modal_open,
        final(c).wipe_modal_open == old(c).wipe_modal_open,
{
}

/// A site backs off at most once for a day; different sites, and different days of a
/// site, back off each by themselves.
pub proof fn a_site_backs_off_once_a_day(a: Acquisition, i: int, j: int)
    ensures
        a.well_formed() && 0 <= i < j < a.listing_backoff@.len() && a.listing_backoff@[i].site@
            == a.listing_backoff@[j].site@ ==> a.listing_backoff@[i].day
            != a.listing_backoff@[j].day,
        (forall|m: int, n: int|
            0 <= m < n < a.listing_backoff@.len() ==> !((#[trigger] a.listing_backoff@[m]).site@ == (
            #[trigger] a.listing_backoff@[n]).site@ && a.listing_backoff@[m].day
                == a.listing_backoff@[n].day)) ==> a.well_formed(),
{
}

} // verus!
