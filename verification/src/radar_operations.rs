//! What the radar is doing at the playhead: where the antenna points, and the
//! cuts of the volume coverage pattern.
//!
//! Times are in milliseconds from the epoch, angles in thousandths of a degree.

use crate::binary::{settle, show_tenths, signed_single_of};
use crate::colors::{from_rgb, Color32};
use crate::text::{push_decimal, push_padded, push_tenths, same_text};
use vstd::prelude::*;
use vstd::string::*;

verus! {

/// A sweep of a recorded scan.
#[derive(Clone, Copy, Debug, PartialEq, Eq, Structural)]
pub struct ScanSweep {
    pub start_ms: i64,
    pub end_ms: i64,
    pub elevation_number: u8,
    pub angle: i32,
}

/// A recorded scan.
#[derive(Debug)]
pub struct Scan {
    pub vcp: u16,
    pub sweeps: Vec<ScanSweep>,
}

/// Whether `r` is the sweep that ended last by an instant. Among sweeps that end
/// together the last one counts; sweeps stand in the order of their elevations.
pub open spec fn is_last_ended(r: Option<usize>, sweeps: Seq<ScanSweep>, ts_ms: int) -> bool {
    match r {
        Some(k) => {
            &&& k < sweeps.len()
            &&& sweeps[k as int].end_ms <= ts_ms
            &&& forall|i: int|
                0 <= i < sweeps.len() && (#[trigger] sweeps[i]).end_ms <= ts_ms ==> sweeps[i].end_ms
                    < sweeps[k as int].end_ms || (sweeps[i].end_ms == sweeps[k as int].end_ms && i
                    <= k)
        },
        None => forall|i: int| 0 <= i < sweeps.len() ==> (#[trigger] sweeps[i]).end_ms > ts_ms,
    }
}

/// The sweep that ended last by an instant.
pub fn last_ended(sweeps: &Vec<ScanSweep>, ts_ms: i64) -> (r: Option<usize>)
    ensures
        is_last_ended(r, sweeps@, ts_ms as int),
{
    let mut r: Option<usize> = None;
    let mut i: usize = 0;
    while i < sweeps.len()
        invariant
            i <= sweeps@.len(),
            r is Some ==> r->0 < i,
            is_last_ended(r, sweeps@.take(i as int), ts_ms as int),
        decreases sweeps@.len() - i,
    {
        let ghost was = r;
        assert(forall|k: int|
            0 <= k < i ==> #[trigger] sweeps@.take(i + 1)[k] == sweeps@.take(i as int)[k]);
        assert(sweeps@.take(i + 1)[i as int] == sweeps@[i as int]);
        if sweeps[i].end_ms <= ts_ms {
            let newer = match r {
                Some(k) => sweeps[k].end_ms <= sweeps[i].end_ms,
                None => true,
            };
            if newer {
                r = Some(i);
            }
        }
        proof {
            assert forall|k: int|
                r is Some && 0 <= k < i + 1 && (#[trigger] sweeps@.take(i + 1)[k]).end_ms
                    <= ts_ms implies sweeps@.take(i + 1)[k].end_ms < sweeps@[r->0 as int].end_ms
                || (sweeps@.take(i + 1)[k].end_ms == sweeps@[r->0 as int].end_ms && k <= r->0) by {
                if k < i {
                    assert(sweeps@.take(i as int)[k] == sweeps@[k]);
                }
            }
        }
        i += 1;
    }
    assert(sweeps@.take(sweeps@.len() as int) =~= sweeps@);
    r
}

/// Where the antenna points in the course of a sweep: one turn, begun at its
/// start.
pub open spec fn azimuth_of(s: ScanSweep, ts_ms: int) -> Option<u32> {
    if s.end_ms <= s.start_ms {
        None
    } else {
        Some((((ts_ms - s.start_ms) * 360_000 / (s.end_ms - s.start_ms)) % 360_000) as u32)
    }
}

/// Where the antenna points in the course of a sweep.
pub fn azimuth_at(s: ScanSweep, ts_ms: i64) -> (r: Option<u32>)
    requires
        s.start_ms <= ts_ms <= s.end_ms,
    ensures
        r == azimuth_of(s, ts_ms as int),
{
    if s.end_ms <= s.start_ms {
        return None;
    }
    let part: u128 = (ts_ms as i128 - s.start_ms as i128) as u128;
    let whole: u128 = (s.end_ms as i128 - s.start_ms as i128) as u128;
    let turned: u128 = part * 360_000 / whole;
    Some((turned % 360_000) as u32)
}

/// Whether playback is too fast for the antenna to be shown moving: past thirty
/// seconds of data in a second.
pub fn is_fast(playing: bool, speed_ms_per_sec: i64) -> (b: bool)
    ensures
        b == (playing && speed_ms_per_sec > 30_000),
{
    playing && speed_ms_per_sec > 30_000
}

/// What the radar is doing.
#[derive(Clone, Copy, Debug, PartialEq, Eq)]
pub struct RadarState {
    pub azimuth: Option<u32>,
    pub elevation: Option<i32>,
    pub vcp: Option<u16>,
    /// The cut on display.
    pub elevation_number: Option<u8>,
    /// Thousandths of the volume done.
    pub progress: Option<u32>,
}

/// The sweep shown for an instant: the one at that instant, else the one that
/// ended last before it.
pub open spec fn is_highlight(
    r: Option<usize>,
    sweeps: Seq<ScanSweep>,
    at: Option<usize>,
    ts_ms: int,
) -> bool {
    match at {
        Some(k) => r == Some(k),
        None => is_last_ended(r, sweeps, ts_ms),
    }
}

/// Whether `s` is what the radar does in a recorded scan. Where playback is too
/// fast only the coverage pattern is known.
pub open spec fn is_archive_state(
    s: RadarState,
    scan: Scan,
    at: Option<usize>,
    progress: Option<u32>,
    ts_ms: int,
    fast: bool,
) -> bool {
    &&& s.vcp == Some(scan.vcp)
    &&& if fast {
        s.azimuth is None && s.elevation is None && s.elevation_number is None && s.progress is None
    } else {
        exists|h: Option<usize>|
            {
                &&& #[trigger] is_highlight(h, scan.sweeps@, at, ts_ms)
                &&& s.azimuth == match at {
                    Some(k) => azimuth_of(scan.sweeps@[k as int], ts_ms),
                    None => None,
                }
                &&& s.elevation == match h {
                    Some(k) => Some(scan.sweeps@[k as int].angle),
                    None => None,
                }
                &&& s.elevation_number == match h {
                    Some(k) => Some(scan.sweeps@[k as int].elevation_number),
                    None => None,
                }
                &&& s.progress == progress
            }
    }
}

/// What the radar does in a recorded scan. `at` is the sweep at the instant, and
/// `progress` the thousandths of the scan done.
pub fn archive_state(
    scan: &Scan,
    at: Option<usize>,
    progress: Option<u32>,
    ts_ms: i64,
    fast: bool,
) -> (s: RadarState)
    requires
        at is Some ==> at->0 < scan.sweeps@.len() && scan.sweeps@[at->0 as int].start_ms <= ts_ms
            <= scan.sweeps@[at->0 as int].end_ms,
    ensures
        is_archive_state(s, *scan, at, progress, ts_ms as int, fast),
{
    if fast {
        return RadarState {
            azimuth: None,
            elevation: None,
            vcp: Some(scan.vcp),
            elevation_number: None,
            progress: None,
        };
    }
    let highlight: Option<usize> = match at {
        Some(k) => Some(k),
        None => last_ended(&scan.sweeps, ts_ms),
    };
    assert(is_highlight(highlight, scan.sweeps@, at, ts_ms as int));
    let azimuth: Option<u32> = match at {
        Some(k) => azimuth_at(scan.sweeps[k], ts_ms),
        None => None,
    };
    let (elevation, elevation_number): (Option<i32>, Option<u8>) = match highlight {
        Some(k) => (Some(scan.sweeps[k].angle), Some(scan.sweeps[k].elevation_number)),
        None => (None, None),
    };
    RadarState { azimuth, elevation, vcp: Some(scan.vcp), elevation_number, progress }
}

/// A cut of the volume being received.
#[derive(Clone, Copy, Debug, PartialEq, Eq, Structural)]
pub struct LiveCut {
    pub elevation_number: u8,
    pub angle: i32,
}

/// The volume being received.
#[derive(Debug)]
pub struct LiveVolume {
    /// Zero where it is not known yet.
    pub vcp_number: u16,
    pub in_progress: Option<u8>,
    pub cuts: Vec<LiveCut>,
}

/// What a frame knows of the volume being received.
#[derive(Clone, Copy, Debug)]
pub struct LiveFrame {
    pub azimuth: Option<u32>,
    pub cut_index: Option<usize>,
    pub elevation: Option<i32>,
    pub progress: Option<u32>,
}

impl LiveVolume {
    /// The cut being received: the one that the frame names, else the one in
    /// progress, counted from one.
    pub open spec fn cut_index(&self, f: LiveFrame) -> Option<int> {
        match f.cut_index {
            Some(k) => Some(k as int),
            None => match self.in_progress {
                Some(e) => Some(if e == 0 {
                    0
                } else {
                    e - 1
                }),
                None => None,
            },
        }
    }

    pub open spec fn cut(&self, f: LiveFrame) -> Option<LiveCut> {
        match self.cut_index(f) {
            Some(k) => if k < self.cuts@.len() {
                Some(self.cuts@[k])
            } else {
                None
            },
            None => None,
        }
    }

    /// What the radar does in the volume being received.
    pub open spec fn state_of(&self, f: LiveFrame) -> RadarState {
        RadarState {
            azimuth: f.azimuth,
            elevation: match f.elevation {
                Some(e) => Some(e),
                None => match self.cut(f) {
                    Some(c) => Some(c.angle),
                    None => None,
                },
            },
            vcp: if self.vcp_number > 0 {
                Some(self.vcp_number)
            } else {
                None
            },
            elevation_number: match self.cut(f) {
                Some(c) => Some(c.elevation_number),
                None => self.in_progress,
            },
            progress: f.progress,
        }
    }

    /// What the radar does in the volume being received.
    pub fn state(&self, f: LiveFrame) -> (s: RadarState)
        ensures
            s == self.state_of(f),
    {
        let index: Option<usize> = match f.cut_index {
            Some(k) => Some(k),
            None => match self.in_progress {
                Some(e) => Some(if e == 0 {
                    0
                } else {
                    (e - 1) as usize
                }),
                None => None,
            },
        };
        let cut: Option<LiveCut> = match index {
            Some(k) => if k < self.cuts.len() {
                Some(self.cuts[k])
            } else {
                None
            },
            None => None,
        };
        RadarState {
            azimuth: f.azimuth,
            elevation: match f.elevation {
                Some(e) => Some(e),
                None => match cut {
                    Some(c) => Some(c.angle),
                    None => None,
                },
            },
            vcp: if self.vcp_number > 0 {
                Some(self.vcp_number)
            } else {
                None
            },
            elevation_number: match cut {
                Some(c) => Some(c.elevation_number),
                None => self.in_progress,
            },
            progress: f.progress,
        }
    }
}

/// What is known where there is neither a scan nor a volume being received.
pub fn no_state() -> (s: RadarState)
    ensures
        s == (RadarState {
            azimuth: None,
            elevation: None,
            vcp: None,
            elevation_number: None,
            progress: None,
        }),
{
    RadarState { azimuth: None, elevation: None, vcp: None, elevation_number: None, progress: None }
}

/// What the radar does at the playhead: the settled scan there goes before the
/// volume being received.
pub fn query_radar_state_at_timestamp(
    scan: Option<&Scan>,
    at: Option<usize>,
    progress: Option<u32>,
    ts_ms: i64,
    fast: bool,
    live: Option<&LiveVolume>,
    frame: LiveFrame,
) -> (s: RadarState)
    requires
        scan is Some && at is Some ==> at->0 < scan->0.sweeps@.len()
            && scan->0.sweeps@[at->0 as int].start_ms <= ts_ms
            <= scan->0.sweeps@[at->0 as int].end_ms,
    ensures
        match (scan, live) {
            (Some(r), _) => is_archive_state(s, *r, at, progress, ts_ms as int, fast),
            (None, Some(v)) => s == v.state_of(frame),
            (None, None) => s == (RadarState {
                azimuth: None,
                elevation: None,
                vcp: None,
                elevation_number: None,
                progress: None,
            }),
        },
{
    match (scan, live) {
        (Some(r), _) => archive_state(r, at, progress, ts_ms, fast),
        (None, Some(v)) => v.state(frame),
        (None, None) => no_state(),
    }
}

/// There is only one sweep that ended last, so the state is one too.
pub proof fn archive_state_is_unique(
    a: RadarState,
    b: RadarState,
    scan: Scan,
    at: Option<usize>,
    progress: Option<u32>,
    ts_ms: int,
    fast: bool,
)
    requires
        is_archive_state(a, scan, at, progress, ts_ms, fast),
        is_archive_state(b, scan, at, progress, ts_ms, fast),
    ensures
        a == b,
{
}

/// Short name of a waveform, from its code.
pub open spec fn waveform_name(code: Seq<char>) -> Seq<char> {
    if code == "CS"@ {
        "CS"@
    } else if code == "CDW"@ || code == "CDWO"@ {
        "CD"@
    } else if code == "B"@ {
        "B"@
    } else if code == "SPP"@ {
        "SP"@
    } else {
        "--"@
    }
}

fn short_waveform(code: &str) -> (s: String)
    ensures
        s@ == waveform_name(code@),
{
    if same_text(code, "CS") {
        "CS".to_owned()
    } else if same_text(code, "CDW") || same_text(code, "CDWO") {
        "CD".to_owned()
    } else if same_text(code, "B") {
        "B".to_owned()
    } else if same_text(code, "SPP") {
        "SP".to_owned()
    } else {
        "--".to_owned()
    }
}

/// Code of a waveform, from its short name.
pub open spec fn waveform_code(name: Seq<char>) -> Seq<char> {
    if name == "CD"@ {
        "CDW"@
    } else if name == "SP"@ {
        "SPP"@
    } else {
        name
    }
}

fn raw_waveform(name: &str) -> (s: String)
    ensures
        s@ == waveform_code(name@),
{
    if same_text(name, "CD") {
        "CDW".to_owned()
    } else if same_text(name, "SP") {
        "SPP".to_owned()
    } else {
        name.to_owned()
    }
}

/// The four short names come back from their codes.
pub proof fn waveform_names_come_back(name: Seq<char>)
    requires
        name == "CS"@ || name == "CD"@ || name == "B"@ || name == "SP"@,
    ensures
        waveform_name(waveform_code(name)) == name,
{
    reveal_strlit("CS");
    reveal_strlit("CD");
    reveal_strlit("B");
    reveal_strlit("SP");
    reveal_strlit("CDW");
    reveal_strlit("CDWO");
    reveal_strlit("SPP");
    assert("CS"@[1] != "CD"@[1] && "CS"@[0] != "SP"@[0]);
    assert("SPP"@[0] != "CDW"@[0]);
}

/// Short name of a pulse repetition frequency, from its number.
pub open spec fn prf_of_number(prf: u8) -> Seq<char> {
    if 1 <= prf <= 3 {
        "L"@
    } else if 4 <= prf <= 5 {
        "M"@
    } else if 6 <= prf <= 8 {
        "H"@
    } else {
        "-"@
    }
}

/// Short name of a pulse repetition frequency, from its number.
pub fn prf_number_to_short(prf: u8) -> (s: &'static str)
    ensures
        s@ == prf_of_number(prf),
{
    if 1 <= prf && prf <= 3 {
        "L"
    } else if 4 <= prf && prf <= 5 {
        "M"
    } else if 6 <= prf && prf <= 8 {
        "H"
    } else {
        "-"
    }
}

/// Short name of a pulse repetition frequency, from its name.
pub open spec fn prf_of_name(name: Seq<char>) -> Seq<char> {
    if name == "Low"@ {
        "L"@
    } else if name == "Med"@ {
        "M"@
    } else if name == "High"@ {
        "H"@
    } else {
        "-"@
    }
}

fn prf_name_to_short(name: &str) -> (s: &'static str)
    ensures
        s@ == prf_of_name(name@),
{
    if same_text(name, "Low") {
        "L"
    } else if same_text(name, "Med") {
        "M"
    } else if same_text(name, "High") {
        "H"
    } else {
        "-"
    }
}

/// A cut of a coverage pattern, as the radar announced it.
#[derive(Debug)]
pub struct ExtractedCut {
    pub angle: i32,
    pub waveform: String,
    pub prf_number: u8,
}

/// A cut of a coverage pattern, as it is defined.
#[derive(Debug)]
pub struct DefinedCut {
    pub angle: i32,
    pub waveform: String,
    pub prf: String,
}

/// When a cut is collected.
#[derive(Clone, Copy, Debug)]
pub struct CutTiming {
    pub start_ms: i64,
    pub observed: bool,
}

/// When the cuts of a volume are collected.
#[derive(Debug)]
pub struct VolumeTiming {
    pub volume_start_ms: i64,
    pub cuts: Vec<CutTiming>,
}

/// A row of the table of cuts.
#[derive(Debug)]
pub struct ElevRow {
    pub elevation_number: u8,
    pub angle: i32,
    pub is_current: bool,
    pub waveform: String,
    pub waveform_raw: String,
    pub prf: &'static str,
    /// From the volume's start.
    pub start_offset_ms: Option<i64>,
    pub estimated: bool,
}

/// What a row of the table of cuts says.
pub struct ElevRowView {
    pub elevation_number: u8,
    pub angle: i32,
    pub is_current: bool,
    pub waveform: Seq<char>,
    pub waveform_raw: Seq<char>,
    pub prf: Seq<char>,
    pub timing: (Option<i64>, bool),
}

impl View for ElevRow {
    type V = ElevRowView;

    open spec fn view(&self) -> ElevRowView {
        ElevRowView {
            elevation_number: self.elevation_number,
            angle: self.angle,
            is_current: self.is_current,
            waveform: self.waveform@,
            waveform_raw: self.waveform_raw@,
            prf: self.prf@,
            timing: (self.start_offset_ms, self.estimated),
        }
    }
}

/// When a cut begins, from the volume's start, and whether that is estimated. A
/// cut of which nothing is known counts as estimated.
pub open spec fn timing_of(timing: Option<&VolumeTiming>, k: int) -> (Option<i64>, bool) {
    match timing {
        Some(t) => if k < t.cuts@.len() {
            (Some((t.cuts@[k].start_ms - t.volume_start_ms) as i64), !t.cuts@[k].observed)
        } else {
            (None, true)
        },
        None => (None, true),
    }
}

/// Whether the offsets of a volume's cuts can be held.
pub open spec fn offsets_fit(timing: Option<&VolumeTiming>) -> bool {
    timing is Some ==> forall|k: int|
        0 <= k < timing->0.cuts@.len() ==> i64::MIN <= (#[trigger] timing->0.cuts@[k]).start_ms
            - timing->0.volume_start_ms <= i64::MAX
}

fn timing_for(timing: Option<&VolumeTiming>, k: usize) -> (r: (Option<i64>, bool))
    requires
        offsets_fit(timing),
    ensures
        r == timing_of(timing, k as int),
{
    match timing {
        Some(t) => {
            if k < t.cuts.len() {
                let c = t.cuts[k];
                (Some(c.start_ms - t.volume_start_ms), !c.observed)
            } else {
                (None, true)
            }
        },
        None => (None, true),
    }
}

/// The row of an announced cut.
pub open spec fn row_of_extracted(
    c: ExtractedCut,
    k: int,
    timing: Option<&VolumeTiming>,
    current: Option<u8>,
) -> ElevRowView {
    ElevRowView {
        elevation_number: (k + 1) as u8,
        angle: c.angle,
        is_current: current == Some((k + 1) as u8),
        waveform: waveform_name(c.waveform@),
        waveform_raw: c.waveform@,
        prf: prf_of_number(c.prf_number),
        timing: timing_of(timing, k),
    }
}

/// The row of a defined cut.
pub open spec fn row_of_defined(
    c: DefinedCut,
    k: int,
    timing: Option<&VolumeTiming>,
    current: Option<u8>,
) -> ElevRowView {
    ElevRowView {
        elevation_number: (k + 1) as u8,
        angle: c.angle,
        is_current: current == Some((k + 1) as u8),
        waveform: c.waveform@,
        waveform_raw: waveform_code(c.waveform@),
        prf: prf_of_name(c.prf@),
        timing: timing_of(timing, k),
    }
}

/// Whether two angles, held in single precision, are less than a tenth of a degree
/// apart.
pub open spec fn near_angle(a: int, b: int) -> bool {
    let off = crate::binary::settled(
        crate::binary::signed_single(a) - crate::binary::signed_single(b),
    );
    -crate::binary::single(100) < off < crate::binary::single(100)
}

fn is_near_angle(a: i32, b: i32) -> (r: bool)
    ensures
        r == near_angle(a as int, b as int),
{
    let off: i128 = settle(signed_single_of(a as i64) - signed_single_of(b as i64));
    let tenth: i128 = signed_single_of(100);
    -tenth < off && off < tenth
}

/// The first defined cut at an angle.
pub open spec fn cut_near(cuts: Seq<DefinedCut>, angle: int) -> Option<DefinedCut>
    decreases cuts.len(),
{
    if cuts.len() == 0 {
        None
    } else if near_angle(cuts[0].angle as int, angle) {
        Some(cuts[0])
    } else {
        cut_near(cuts.drop_first(), angle)
    }
}

/// The row of a recorded sweep: its waveform is the one defined for its angle.
pub open spec fn row_of_sweep(
    s: ScanSweep,
    k: int,
    defined: Seq<DefinedCut>,
    timing: Option<&VolumeTiming>,
    current: Option<u8>,
) -> ElevRowView {
    let cut = cut_near(defined, s.angle as int);
    ElevRowView {
        elevation_number: s.elevation_number,
        angle: s.angle,
        is_current: current == Some(s.elevation_number),
        waveform: match cut {
            Some(c) => c.waveform@,
            None => "--"@,
        },
        waveform_raw: match cut {
            Some(c) => waveform_code(c.waveform@),
            None => "--"@,
        },
        prf: match cut {
            Some(c) => prf_of_name(c.prf@),
            None => "-"@,
        },
        timing: timing_of(timing, k),
    }
}

fn find_cut_near(cuts: &Vec<DefinedCut>, angle: i32) -> (r: Option<usize>)
    ensures
        match r {
            Some(k) => k < cuts@.len() && cut_near(cuts@, angle as int) == Some(cuts@[k as int]),
            None => cut_near(cuts@, angle as int) is None,
        },
{
    let mut k: usize = 0;
    assert(cuts@.skip(0) =~= cuts@);
    while k < cuts.len()
        invariant
            k <= cuts@.len(),
            cut_near(cuts@, angle as int) == cut_near(cuts@.skip(k as int), angle as int),
        decreases cuts@.len() - k,
    {
        assert(cuts@.skip(k as int)[0] == cuts@[k as int]);
        assert(cuts@.skip(k as int).drop_first() =~= cuts@.skip(k + 1));
        if is_near_angle(cuts[k].angle, angle) {
            return Some(k);
        }
        k += 1;
    }
    None
}

/// The defined cuts, or none.
pub open spec fn defined_cuts(defined: Option<&Vec<DefinedCut>>) -> Seq<DefinedCut> {
    match defined {
        Some(d) => d@,
        None => seq![],
    }
}

/// The rows of the table of cuts: from the pattern that the radar announced,
/// else from the recorded sweeps, else from the pattern as it is defined.
pub open spec fn rows_of(
    scan: Option<&Scan>,
    extracted: Option<&Vec<ExtractedCut>>,
    defined: Option<&Vec<DefinedCut>>,
    timing: Option<&VolumeTiming>,
    current: Option<u8>,
) -> Seq<ElevRowView> {
    if extracted is Some {
        Seq::new(
            extracted->0@.len(),
            |k: int| row_of_extracted(extracted->0@[k], k, timing, current),
        )
    } else if scan is Some {
        Seq::new(
            scan->0.sweeps@.len(),
            |k: int|
                row_of_sweep(scan->0.sweeps@[k], k, defined_cuts(defined), timing, current),
        )
    } else if defined is Some {
        Seq::new(
            defined->0@.len(),
            |k: int| row_of_defined(defined->0@[k], k, timing, current),
        )
    } else {
        seq![]
    }
}

fn is_number(current: Option<u8>, n: u8) -> (b: bool)
    ensures
        b == (current == Some(n)),
{
    match current {
        Some(c) => c == n,
        None => false,
    }
}

fn rows_of_extracted(
    cuts: &Vec<ExtractedCut>,
    timing: Option<&VolumeTiming>,
    current: Option<u8>,
) -> (r: Vec<ElevRow>)
    requires
        cuts@.len() <= 255,
        offsets_fit(timing),
    ensures
        r@.len() == cuts@.len(),
        forall|k: int|
            0 <= k < r@.len() ==> (#[trigger] r@[k])@ == row_of_extracted(
                cuts@[k],
                k,
                timing,
                current,
            ),
{
    let mut r: Vec<ElevRow> = Vec::new();
    let mut k: usize = 0;
    while k < cuts.len()
        invariant
            k <= cuts@.len() <= 255,
            offsets_fit(timing),
            r@.len() == k,
            forall|i: int|
                0 <= i < k ==> (#[trigger] r@[i])@ == row_of_extracted(
                    cuts@[i],
                    i,
                    timing,
                    current,
                ),
        decreases cuts@.len() - k,
    {
        let (start_offset_ms, estimated) = timing_for(timing, k);
        let number: u8 = (k + 1) as u8;
        let row = ElevRow {
            elevation_number: number,
            angle: cuts[k].angle,
            is_current: is_number(current, number),
            waveform: short_waveform(cuts[k].waveform.as_str()),
            waveform_raw: cuts[k].waveform.as_str().to_owned(),
            prf: prf_number_to_short(cuts[k].prf_number),
            start_offset_ms,
            estimated,
        };
        r.push(row);
        k += 1;
    }
    r
}

fn rows_of_sweeps(
    sweeps: &Vec<ScanSweep>,
    defined: Option<&Vec<DefinedCut>>,
    timing: Option<&VolumeTiming>,
    current: Option<u8>,
) -> (r: Vec<ElevRow>)
    requires
        offsets_fit(timing),
    ensures
        r@.len() == sweeps@.len(),
        forall|k: int|
            0 <= k < r@.len() ==> (#[trigger] r@[k])@ == row_of_sweep(
                sweeps@[k],
                k,
                defined_cuts(defined),
                timing,
                current,
            ),
{
    let mut r: Vec<ElevRow> = Vec::new();
    let mut k: usize = 0;
    while k < sweeps.len()
        invariant
            k <= sweeps@.len(),
            offsets_fit(timing),
            r@.len() == k,
            forall|i: int|
                0 <= i < k ==> (#[trigger] r@[i])@ == row_of_sweep(
                    sweeps@[i],
                    i,
                    defined_cuts(defined),
                    timing,
                    current,
                ),
        decreases sweeps@.len() - k,
    {
        let (start_offset_ms, estimated) = timing_for(timing, k);
        let s = sweeps[k];
        let mut waveform = "--".to_owned();
        let mut waveform_raw = "--".to_owned();
        let mut prf = "-";
        if let Some(d) = defined {
            if let Some(c) = find_cut_near(d, s.angle) {
                waveform = d[c].waveform.as_str().to_owned();
                waveform_raw = raw_waveform(d[c].waveform.as_str());
                prf = prf_name_to_short(d[c].prf.as_str());
            }
        }
        let row = ElevRow {
            elevation_number: s.elevation_number,
            angle: s.angle,
            is_current: is_number(current, s.elevation_number),
            waveform,
            waveform_raw,
            prf,
            start_offset_ms,
            estimated,
        };
        r.push(row);
        k += 1;
    }
    r
}

fn rows_of_defined(
    cuts: &Vec<DefinedCut>,
    timing: Option<&VolumeTiming>,
    current: Option<u8>,
) -> (r: Vec<ElevRow>)
    requires
        cuts@.len() <= 255,
        offsets_fit(timing),
    ensures
        r@.len() == cuts@.len(),
        forall|k: int|
            0 <= k < r@.len() ==> (#[trigger] r@[k])@ == row_of_defined(
                cuts@[k],
                k,
                timing,
                current,
            ),
{
    let mut r: Vec<ElevRow> = Vec::new();
    let mut k: usize = 0;
    while k < cuts.len()
        invariant
            k <= cuts@.len() <= 255,
            offsets_fit(timing),
            r@.len() == k,
            forall|i: int|
                0 <= i < k ==> (#[trigger] r@[i])@ == row_of_defined(cuts@[i], i, timing, current),
        decreases cuts@.len() - k,
    {
        let (start_offset_ms, estimated) = timing_for(timing, k);
        let number: u8 = (k + 1) as u8;
        let row = ElevRow {
            elevation_number: number,
            angle: cuts[k].angle,
            is_current: is_number(current, number),
            waveform: cuts[k].waveform.as_str().to_owned(),
            waveform_raw: raw_waveform(cuts[k].waveform.as_str()),
            prf: prf_name_to_short(cuts[k].prf.as_str()),
            start_offset_ms,
            estimated,
        };
        r.push(row);
        k += 1;
    }
    r
}

/// The rows of the table of cuts.
pub fn build_elevation_rows(
    scan: Option<&Scan>,
    extracted: Option<&Vec<ExtractedCut>>,
    defined: Option<&Vec<DefinedCut>>,
    timing: Option<&VolumeTiming>,
    current: Option<u8>,
) -> (r: Vec<ElevRow>)
    requires
        extracted is Some ==> extracted->0@.len() <= 255,
        extracted is None && scan is None && defined is Some ==> defined->0@.len() <= 255,
        offsets_fit(timing),
    ensures
        r@.map_values(|w: ElevRow| w@) == rows_of(scan, extracted, defined, timing, current),
{
    let r = if let Some(e) = extracted {
        rows_of_extracted(e, timing, current)
    } else if let Some(s) = scan {
        rows_of_sweeps(&s.sweeps, defined, timing, current)
    } else if let Some(d) = defined {
        rows_of_defined(d, timing, current)
    } else {
        Vec::new()
    };
    assert(r@.map_values(|w: ElevRow| w@) =~= rows_of(scan, extracted, defined, timing, current));
    r
}

/// Where neither the radar nor a recorded scan tells its cuts, the defined
/// pattern is shown whole, its cuts numbered from one.
pub proof fn a_defined_pattern_is_numbered_from_one(
    defined: &Vec<DefinedCut>,
    timing: Option<&VolumeTiming>,
    current: Option<u8>,
    k: int,
)
    requires
        0 <= k < defined@.len() <= 255,
    ensures
        rows_of(None, None, Some(defined), timing, current).len() == defined@.len(),
        rows_of(None, None, Some(defined), timing, current)[k].elevation_number == k + 1,
{
}

/// When a cut begins, in minutes and seconds: rounded to whole seconds, marked
/// where it is estimated.
pub open spec fn offset_text(offset_ms: Option<i64>, estimated: bool) -> Seq<char> {
    if offset_ms is Some && offset_ms->0 >= 0 {
        let rounded = (offset_ms->0 + 500) / 1000;
        let secs = if rounded > u32::MAX {
            u32::MAX as int
        } else {
            rounded
        };
        (if estimated {
            "~"@
        } else {
            seq![]
        }) + crate::text::decimal((secs / 60) as nat) + ":"@ + crate::text::padded(
            (secs % 60) as nat,
            2,
        )
    } else {
        "--:--"@
    }
}

pub(crate) fn push_spaces(out: &mut String, n: usize)
    ensures
        final(out)@ == old(out)@ + spaces(n as int),
{
    let mut k: usize = 0;
    assert(out@ + spaces(0) =~= out@);
    while k < n
        invariant
            k <= n,
            out@ == old(out)@ + spaces(k as int),
        decreases n - k,
    {
        out.push(' ');
        k += 1;
        assert(out@ =~= old(out)@ + spaces(k as int));
    }
}

pub open spec fn spaces(n: int) -> Seq<char> {
    Seq::new(
        if n < 0 {
            0
        } else {
            n as nat
        },
        |i: int| ' ',
    )
}

/// An angle with one decimal.
pub open spec fn angle_text(angle: int) -> Seq<char> {
    crate::inspector::sign(angle < 0) + crate::text::tenths(
        crate::binary::shown_tenths(crate::inspector::size(angle)) as nat,
    )
}

pub(crate) fn push_angle(out: &mut String, angle: i32)
    ensures
        final(out)@ == old(out)@ + angle_text(angle as int),
{
    let wide: i64 = angle as i64;
    if wide < 0 {
        out.push('-');
        push_tenths(out, show_tenths((-wide) as u64));
    } else {
        push_tenths(out, show_tenths(wide as u64));
    }
    assert(out@ =~= old(out)@ + angle_text(angle as int));
}

/// The readout of an angle, or a dash.
pub fn angle_readout(angle: Option<i32>) -> (s: String)
    ensures
        s@ == match angle {
            Some(a) => angle_text(a as int) + "\u{b0}"@,
            None => "--"@,
        },
{
    match angle {
        Some(a) => {
            let mut s = String::new();
            push_angle(&mut s, a);
            s.append("\u{b0}");
            assert(s@ =~= angle_text(a as int) + "\u{b0}"@);
            s
        },
        None => "--".to_owned(),
    }
}

/// Heading of the table of cuts.
pub fn vcp_header(vcp: u16) -> (s: String)
    ensures
        s@ == "VCP "@ + crate::text::decimal(vcp as nat),
{
    let mut s = String::new();
    s.append("VCP ");
    push_decimal(&mut s, vcp as u64);
    assert(s@ =~= "VCP "@ + crate::text::decimal(vcp as nat));
    s
}

impl ElevRow {
    /// The cell on the cut: its number at the left of two places, its angle at
    /// the right of five.
    pub fn elevation_cell(&self) -> (s: String)
        ensures
            s@ == crate::text::decimal(self.elevation_number as nat) + spaces(
                2 - crate::text::decimal(self.elevation_number as nat).len(),
            ) + spaces(5 - angle_text(self.angle as int).len()) + angle_text(self.angle as int)
                + "\u{b0}"@,
    {
        let mut s = String::new();
        push_decimal(&mut s, self.elevation_number as u64);
        assert(s@ =~= crate::text::decimal(self.elevation_number as nat));
        let width: usize = s.as_str().unicode_len();
        if width < 2 {
            push_spaces(&mut s, 2 - width);
        }
        assert(s@ =~= crate::text::decimal(self.elevation_number as nat) + spaces(
            2 - crate::text::decimal(self.elevation_number as nat).len(),
        ));
        let ghost number = s@;
        let mut angle = String::new();
        push_angle(&mut angle, self.angle);
        assert(angle@ =~= angle_text(self.angle as int));
        let width: usize = angle.as_str().unicode_len();
        if width < 5 {
            push_spaces(&mut s, 5 - width);
        }
        assert(s@ =~= number + spaces(5 - angle@.len()));
        s.append(angle.as_str());
        s.append("\u{b0}");
        assert(s@ =~= number + spaces(5 - angle@.len()) + angle@ + "\u{b0}"@);
        s
    }

    /// The cell on when the cut begins.
    pub fn time_cell(&self) -> (s: String)
        ensures
            s@ == offset_text(self.start_offset_ms, self.estimated),
    {
        let mut s = String::new();
        match self.start_offset_ms {
            Some(offset) if offset >= 0 => {
                let rounded: u64 = (offset as u64 + 500) / 1000;
                let secs: u64 = if rounded > 0xffff_ffff {
                    0xffff_ffff
                } else {
                    rounded
                };
                if self.estimated {
                    s.append("~");
                }
                push_decimal(&mut s, secs / 60);
                s.append(":");
                push_padded(&mut s, secs % 60, 2);
            },
            _ => {
                s.append("--:--");
            },
        }
        assert(s@ =~= offset_text(self.start_offset_ms, self.estimated));
        s
    }

    /// What the cell on the cut's beginning says on hovering.
    pub fn time_hover(&self) -> (s: &'static str)
        ensures
            s@ == (if self.estimated {
                "Estimated from VCP azimuth rates"@
            } else {
                "Observed from radial timestamps"@
            }),
    {
        if self.estimated {
            "Estimated from VCP azimuth rates"
        } else {
            "Observed from radial timestamps"
        }
    }

    /// Colours of the row: of the cut's number and angle, and of the rest.
    pub fn colors(&self) -> (c: (Color32, Color32))
        ensures
            c == (if self.is_current {
                (crate::colors::rgb(100, 255, 100), crate::colors::rgb(80, 200, 80))
            } else {
                (crate::colors::rgb(180, 180, 180), crate::colors::rgb(120, 120, 130))
            }),
    {
        if self.is_current {
            (from_rgb(100, 255, 100), from_rgb(80, 200, 80))
        } else {
            (from_rgb(180, 180, 180), from_rgb(120, 120, 130))
        }
    }
}

/// What a waveform's short name stands for.
pub fn waveform_hover(name: &str) -> (r: Option<&'static str>)
    ensures
        (match r {
            Some(s) => Some(s@),
            None => None,
        }) == (if name@ == "CS"@ {
            Some("Contiguous Surveillance"@)
        } else if name@ == "CD"@ {
            Some("Contiguous Doppler"@)
        } else if name@ == "B"@ {
            Some("Batch"@)
        } else if name@ == "SP"@ {
            Some("Staggered Pulse Pair"@)
        } else {
            None
        }),
{
    if same_text(name, "CS") {
        Some("Contiguous Surveillance")
    } else if same_text(name, "CD") {
        Some("Contiguous Doppler")
    } else if same_text(name, "B") {
        Some("Batch")
    } else if same_text(name, "SP") {
        Some("Staggered Pulse Pair")
    } else {
        None
    }
}

/// What a frequency's short name stands for.
pub fn prf_hover(name: &str) -> (r: Option<&'static str>)
    ensures
        (match r {
            Some(s) => Some(s@),
            None => None,
        }) == (if name@ == "L"@ {
            Some("Low PRF"@)
        } else if name@ == "M"@ {
            Some("Medium PRF"@)
        } else if name@ == "H"@ {
            Some("High PRF"@)
        } else {
            None
        }),
{
    if same_text(name, "L") {
        Some("Low PRF")
    } else if same_text(name, "M") {
        Some("Medium PRF")
    } else if same_text(name, "H") {
        Some("High PRF")
    } else {
        None
    }
}

/// A product that a waveform yields.
#[derive(Clone, Copy, Debug, PartialEq, Eq, Structural)]
pub enum CutProduct {
    Reflectivity,
    Velocity,
    SpectrumWidth,
    DifferentialReflectivity,
    DifferentialPhase,
    CorrelationCoefficient,
}

impl CutProduct {
    pub fn letter(self) -> (s: &'static str)
        ensures
            s@ == match self {
                CutProduct::Reflectivity => "R"@,
                CutProduct::Velocity => "V"@,
                CutProduct::SpectrumWidth => "S"@,
                CutProduct::DifferentialReflectivity => "Z"@,
                CutProduct::DifferentialPhase => "P"@,
                CutProduct::CorrelationCoefficient => "C"@,
            },
    {
        match self {
            CutProduct::Reflectivity => "R",
            CutProduct::Velocity => "V",
            CutProduct::SpectrumWidth => "S",
            CutProduct::DifferentialReflectivity => "Z",
            CutProduct::DifferentialPhase => "P",
            CutProduct::CorrelationCoefficient => "C",
        }
    }

    pub fn color(self) -> (c: Color32)
        ensures
            c == match self {
                CutProduct::Reflectivity => crate::colors::rgb(80, 200, 80),
                CutProduct::Velocity => crate::colors::rgb(200, 80, 80),
                CutProduct::SpectrumWidth => crate::colors::rgb(80, 180, 180),
                CutProduct::DifferentialReflectivity => crate::colors::rgb(200, 200, 80),
                CutProduct::DifferentialPhase => crate::colors::rgb(180, 80, 180),
                CutProduct::CorrelationCoefficient => crate::colors::rgb(80, 120, 200),
            },
    {
        match self {
            CutProduct::Reflectivity => from_rgb(80, 200, 80),
            CutProduct::Velocity => from_rgb(200, 80, 80),
            CutProduct::SpectrumWidth => from_rgb(80, 180, 180),
            CutProduct::DifferentialReflectivity => from_rgb(200, 200, 80),
            CutProduct::DifferentialPhase => from_rgb(180, 80, 180),
            CutProduct::CorrelationCoefficient => from_rgb(80, 120, 200),
        }
    }

    pub fn name(self) -> (s: &'static str)
        ensures
            s@ == match self {
                CutProduct::Reflectivity => "Reflectivity"@,
                CutProduct::Velocity => "Velocity"@,
                CutProduct::SpectrumWidth => "Spectrum Width"@,
                CutProduct::DifferentialReflectivity => "Differential Reflectivity"@,
                CutProduct::DifferentialPhase => "Differential Phase"@,
                CutProduct::CorrelationCoefficient => "Correlation Coefficient"@,
            },
    {
        match self {
            CutProduct::Reflectivity => "Reflectivity",
            CutProduct::Velocity => "Velocity",
            CutProduct::SpectrumWidth => "Spectrum Width",
            CutProduct::DifferentialReflectivity => "Differential Reflectivity",
            CutProduct::DifferentialPhase => "Differential Phase",
            CutProduct::CorrelationCoefficient => "Correlation Coefficient",
        }
    }
}

/// The products that a waveform yields, by its code.
pub open spec fn products_of(code: Seq<char>) -> Seq<CutProduct> {
    if code == "CS"@ {
        seq![CutProduct::Reflectivity]
    } else if code == "CDW"@ {
        seq![
            CutProduct::Reflectivity,
            CutProduct::Velocity,
            CutProduct::SpectrumWidth,
            CutProduct::DifferentialReflectivity,
            CutProduct::DifferentialPhase,
            CutProduct::CorrelationCoefficient,
        ]
    } else if code == "CDWO"@ || code == "B"@ {
        seq![CutProduct::Reflectivity, CutProduct::Velocity, CutProduct::SpectrumWidth]
    } else if code == "SPP"@ {
        seq![CutProduct::Reflectivity, CutProduct::Velocity]
    } else {
        seq![]
    }
}

/// The products that a waveform yields, by its code.
pub fn waveform_to_products(code: &str) -> (r: Vec<CutProduct>)
    ensures
        r@ == products_of(code@),
{
    let r: Vec<CutProduct> = if same_text(code, "CS") {
        vec![CutProduct::Reflectivity]
    } else if same_text(code, "CDW") {
        vec![
            CutProduct::Reflectivity,
            CutProduct::Velocity,
            CutProduct::SpectrumWidth,
            CutProduct::DifferentialReflectivity,
            CutProduct::DifferentialPhase,
            CutProduct::CorrelationCoefficient,
        ]
    } else if same_text(code, "CDWO") || same_text(code, "B") {
        vec![CutProduct::Reflectivity, CutProduct::Velocity, CutProduct::SpectrumWidth]
    } else if same_text(code, "SPP") {
        vec![CutProduct::Reflectivity, CutProduct::Velocity]
    } else {
        vec![]
    };
    assert(r@ =~= products_of(code@));
    r
}

/// The cut that a live frame points at is the one that is told: its number, and its
/// angle where the frame brings none.
pub proof fn a_live_frame_tells_its_cut(v: LiveVolume, f: LiveFrame, k: usize)
    requires
        f.cut_index == Some(k),
        k < v.cuts@.len(),
    ensures
        v.state_of(f).elevation_number == Some(v.cuts@[k as int].elevation_number),
        f.elevation is None ==> v.state_of(f).elevation == Some(v.cuts@[k as int].angle),
{
}

/// A live frame's own elevation, azimuth and progress are told as they are, and the
/// pattern whenever it is known.
pub proof fn a_live_frame_tells_what_it_brings(v: LiveVolume, f: LiveFrame)
    ensures
        f.elevation is Some ==> v.state_of(f).elevation == f.elevation,
        v.state_of(f).azimuth == f.azimuth,
        v.state_of(f).progress == f.progress,
        v.vcp_number > 0 ==> v.state_of(f).vcp == Some(v.vcp_number),
        v.vcp_number == 0 ==> v.state_of(f).vcp is None,
{
}

/// Without a cut of the frame's own the cut in progress is told, which is counted
/// from one; where the volume does not list it, its number alone.
pub proof fn a_live_frame_falls_back_on_the_cut_in_progress(v: LiveVolume, f: LiveFrame, n: u8)
    requires
        f.cut_index is None,
        v.in_progress == Some(n),
        n >= 1,
    ensures
        n <= v.cuts@.len() ==> v.state_of(f).elevation_number == Some(
            v.cuts@[n - 1].elevation_number,
        ),
        n <= v.cuts@.len() && f.elevation is None ==> v.state_of(f).elevation == Some(
            v.cuts@[n - 1].angle,
        ),
        n > v.cuts@.len() ==> v.state_of(f).elevation_number == Some(n) && v.state_of(f).elevation
            == f.elevation,
{
}

/// A live frame that points at no listed cut tells the number in progress and no
/// angle but its own.
pub proof fn an_unlisted_cut_tells_no_angle(v: LiveVolume, f: LiveFrame)
    requires
        f.cut_index is Some && f.cut_index->0 >= v.cuts@.len() || (f.cut_index is None
            && v.in_progress is None),
    ensures
        v.state_of(f).elevation_number == v.in_progress,
        v.state_of(f).elevation == f.elevation,
{
}

/// The antenna turns once in the time of a sweep, evenly: after a share of the time
/// it has gone the same share of the turn.
pub proof fn the_antenna_turns_evenly(s: ScanSweep, ts_ms: int)
    requires
        s.start_ms <= ts_ms < s.end_ms,
    ensures
        ({
            let a = azimuth_of(s, ts_ms);
            &&& a is Some
            &&& a->0 < 360_000
            &&& a->0 * (s.end_ms - s.start_ms) <= 360_000 * (ts_ms - s.start_ms)
            &&& 360_000 * (ts_ms - s.start_ms) < (a->0 + 1) * (s.end_ms - s.start_ms)
        }),
{
    let n = (ts_ms - s.start_ms) * 360_000;
    let d = s.end_ms - s.start_ms;
    let q = n / d;
    vstd::arithmetic::div_mod::lemma_fundamental_div_mod(n, d);
    assert(0 <= q < 360_000) by (nonlinear_arith)
        requires
            n == d * q + n % d,
            0 <= n % d < d,
            0 <= n < d * 360_000,
            d > 0,
    ;
    assert(q * d == d * q && (q + 1) * d == d * q + d) by (nonlinear_arith);
    assert(q % 360_000 == q);
}

/// A sweep begins in the north and ends there again; one that takes no time tells
/// no direction.
pub proof fn a_sweep_runs_from_north_to_north(s: ScanSweep)
    ensures
        s.start_ms < s.end_ms ==> azimuth_of(s, s.start_ms as int) == Some(0u32) && azimuth_of(
            s,
            s.end_ms as int,
        ) == Some(0u32),
        s.end_ms <= s.start_ms ==> azimuth_of(s, s.start_ms as int) is None,
{
    if s.start_ms < s.end_ms {
        let d = s.end_ms - s.start_ms;
        assert(0int / d == 0) by {
            vstd::arithmetic::div_mod::lemma_basic_div(0, d);
        }
        assert(d * 360_000 / d == 360_000) by {
            vstd::arithmetic::div_mod::lemma_div_multiples_vanish(360_000, d);
            assert(d * 360_000 == 360_000 * d);
        }
    }
}

/// Of the sweeps that have ended the last one is found, and one is found whenever
/// any has ended.
pub proof fn the_last_ended_sweep_is_found(
    r: Option<usize>,
    sweeps: Seq<ScanSweep>,
    ts_ms: int,
    i: int,
)
    requires
        is_last_ended(r, sweeps, ts_ms),
        0 <= i < sweeps.len(),
    ensures
        sweeps[i].end_ms <= ts_ms ==> r is Some && sweeps[i].end_ms <= sweeps[r->0 as int].end_ms
            <= ts_ms,
        r is Some && i > r->0 && sweeps[i].end_ms <= ts_ms ==> sweeps[i].end_ms
            < sweeps[r->0 as int].end_ms,
{
}

/// Within a sweep of the archive that sweep is told: its number, its angle and where
/// the antenna points.
pub proof fn the_archive_tells_the_sweep_at_hand(
    s: RadarState,
    scan: Scan,
    k: usize,
    progress: Option<u32>,
    ts_ms: int,
)
    requires
        is_archive_state(s, scan, Some(k), progress, ts_ms, false),
        k < scan.sweeps@.len(),
        scan.sweeps@[k as int].start_ms <= ts_ms < scan.sweeps@[k as int].end_ms,
    ensures
        s.elevation_number == Some(scan.sweeps@[k as int].elevation_number),
        s.elevation == Some(scan.sweeps@[k as int].angle),
        s.azimuth == azimuth_of(scan.sweeps@[k as int], ts_ms),
        s.azimuth is Some,
        s.progress == progress,
        s.vcp == Some(scan.vcp),
{
}

/// Between the sweeps of the archive the last one that has ended is told, and no
/// direction; before the first there is none to tell.
pub proof fn the_archive_tells_the_sweep_before(
    s: RadarState,
    scan: Scan,
    progress: Option<u32>,
    ts_ms: int,
    i: int,
)
    requires
        is_archive_state(s, scan, None, progress, ts_ms, false),
        0 <= i < scan.sweeps@.len(),
    ensures
        s.azimuth is None,
        s.progress == progress,
        s.vcp == Some(scan.vcp),
        scan.sweeps@[i].end_ms <= ts_ms && (forall|j: int|
            0 <= j < scan.sweeps@.len() && j != i && (#[trigger] scan.sweeps@[j]).end_ms <= ts_ms
                ==> scan.sweeps@[j].end_ms < scan.sweeps@[i].end_ms) ==> s.elevation_number == Some(
            scan.sweeps@[i].elevation_number,
        ) && s.elevation == Some(scan.sweeps@[i].angle),
        (forall|j: int| 0 <= j < scan.sweeps@.len() ==> (#[trigger] scan.sweeps@[j]).end_ms > ts_ms)
            ==> s.elevation_number is None && s.elevation is None,
{
    let sweeps = scan.sweeps@;
    let h = choose|h: Option<usize>|
        {
            &&& #[trigger] is_highlight(h, sweeps, None, ts_ms)
            &&& s.elevation == match h {
                Some(k) => Some(sweeps[k as int].angle),
                None => None,
            }
            &&& s.elevation_number == match h {
                Some(k) => Some(sweeps[k as int].elevation_number),
                None => None,
            }
        };
    assert(is_last_ended(h, sweeps, ts_ms));
    if sweeps[i].end_ms <= ts_ms {
        assert(h is Some);
    }
}

/// In fast playback nothing but the pattern is told.
pub proof fn fast_playback_tells_only_the_pattern(
    s: RadarState,
    scan: Scan,
    at: Option<usize>,
    progress: Option<u32>,
    ts_ms: int,
)
    requires
        is_archive_state(s, scan, at, progress, ts_ms, true),
    ensures
        s == (RadarState {
            azimuth: None,
            elevation: None,
            vcp: Some(scan.vcp),
            elevation_number: None,
            progress: None,
        }),
{
}

/// Waveforms have short names: the two kinds of continuous Doppler share one, and
/// what is unknown has dashes.
pub proof fn waveforms_have_short_names(code: Seq<char>)
    ensures
        waveform_name("CS"@) == "CS"@,
        waveform_name("CDW"@) == "CD"@,
        waveform_name("CDWO"@) == "CD"@,
        waveform_name("B"@) == "B"@,
        waveform_name("SPP"@) == "SP"@,
        code != "CS"@ && code != "CDW"@ && code != "CDWO"@ && code != "B"@ && code != "SPP"@
            ==> waveform_name(code) == "--"@,
{
    reveal_strlit("CS");
    reveal_strlit("CDW");
    reveal_strlit("CDWO");
    reveal_strlit("B");
    reveal_strlit("SPP");
    assert("CDW"@[1] != "CS"@[1]);
    assert("CDWO"@.len() == 4 && "CS"@.len() == 2 && "CDW"@.len() == 3);
    assert("B"@.len() == 1 && "SPP"@.len() == 3);
    assert("SPP"@[0] != "CDW"@[0]);
}

/// Pulse repetition is low for the numbers one to three, medium for four and five,
/// high for six to eight, and unknown otherwise; a name and its numbers agree.
pub proof fn pulse_repetition_is_low_medium_or_high(n: u8)
    ensures
        1 <= n <= 3 ==> prf_of_number(n) == prf_of_name("Low"@),
        4 <= n <= 5 ==> prf_of_number(n) == prf_of_name("Med"@),
        6 <= n <= 8 ==> prf_of_number(n) == prf_of_name("High"@),
        n == 0 || n > 8 ==> prf_of_number(n) == "-"@,
        prf_of_name("Low"@) == "L"@,
        prf_of_name("Med"@) == "M"@,
        prf_of_name("High"@) == "H"@,
{
    reveal_strlit("Low");
    reveal_strlit("Med");
    reveal_strlit("High");
    assert("Med"@[0] != "Low"@[0]);
    assert("High"@.len() == 4 && "Low"@.len() == 3 && "Med"@.len() == 3);
}

/// A cut's time is counted from the start of the volume, and is an estimate exactly
/// where it was not observed.
pub proof fn cuts_are_timed_from_the_start_of_the_volume(t: &VolumeTiming, k: int)
    requires
        offsets_fit(Some(t)),
        0 <= k,
    ensures
        k < t.cuts@.len() ==> timing_of(Some(t), k).0 is Some && timing_of(Some(t), k).0->0
            + t.volume_start_ms == t.cuts@[k].start_ms && timing_of(Some(t), k).1
            == !t.cuts@[k].observed,
        k >= t.cuts@.len() ==> timing_of(Some(t), k) == (None::<i64>, true),
        timing_of(None, k) == (None::<i64>, true),
{
}

/// The cuts that were read out of the data come before all else: a row for each, in
/// their order, counted from one.
pub proof fn extracted_cuts_come_first(
    scan: Option<&Scan>,
    cuts: &Vec<ExtractedCut>,
    defined: Option<&Vec<DefinedCut>>,
    timing: Option<&VolumeTiming>,
    current: Option<u8>,
    k: int,
)
    requires
        0 <= k < cuts@.len() <= 255,
    ensures
        ({
            let rows = rows_of(scan, Some(cuts), defined, timing, current);
            &&& rows.len() == cuts@.len()
            &&& rows[k].elevation_number == k + 1
            &&& rows[k].angle == cuts@[k].angle
            &&& rows[k].waveform_raw == cuts@[k].waveform@
            &&& rows[k].waveform == waveform_name(cuts@[k].waveform@)
            &&& rows[k].prf == prf_of_number(cuts@[k].prf_number)
            &&& rows[k].timing == timing_of(timing, k)
            &&& rows[k].is_current <==> current is Some && current->0 == k + 1
        }),
{
}

/// Without them the sweeps of the scan are listed as they were flown, with waveform
/// and pulse repetition of the first defined cut at their angle.
pub proof fn sweeps_of_the_scan_come_second(
    scan: &Scan,
    defined: Option<&Vec<DefinedCut>>,
    timing: Option<&VolumeTiming>,
    current: Option<u8>,
    k: int,
)
    requires
        0 <= k < scan.sweeps@.len(),
    ensures
        ({
            let rows = rows_of(Some(scan), None, defined, timing, current);
            let sweep = scan.sweeps@[k];
            let cut = cut_near(defined_cuts(defined), sweep.angle as int);
            &&& rows.len() == scan.sweeps@.len()
            &&& rows[k].elevation_number == sweep.elevation_number
            &&& rows[k].angle == sweep.angle
            &&& rows[k].timing == timing_of(timing, k)
            &&& rows[k].is_current <==> current == Some(sweep.elevation_number)
            &&& cut is Some ==> rows[k].waveform == cut->0.waveform@ && rows[k].prf == prf_of_name(
                cut->0.prf@,
            ) && rows[k].waveform_raw == waveform_code(cut->0.waveform@)
            &&& cut is None ==> rows[k].waveform == "--"@ && rows[k].waveform_raw == "--"@
                && rows[k].prf == "-"@
        }),
{
}

/// Without a scan the defined pattern is listed, cut by cut.
pub proof fn the_defined_pattern_comes_last(
    defined: &Vec<DefinedCut>,
    timing: Option<&VolumeTiming>,
    current: Option<u8>,
    k: int,
)
    requires
        0 <= k < defined@.len() <= 255,
    ensures
        ({
            let rows = rows_of(None, None, Some(defined), timing, current);
            &&& rows[k].angle == defined@[k].angle
            &&& rows[k].waveform == defined@[k].waveform@
            &&& rows[k].prf == prf_of_name(defined@[k].prf@)
            &&& rows[k].timing == timing_of(timing, k)
            &&& rows[k].is_current <==> current is Some && current->0 == k + 1
        }),
        rows_of(None, None, None, timing, current).len() == 0,
{
}

/// The cut at an angle is the first that is near it, and there is one unless none is
/// near.
pub proof fn the_first_near_cut_is_taken(cuts: Seq<DefinedCut>, angle: int)
    ensures
        match cut_near(cuts, angle) {
            Some(c) => exists|i: int|
                {
                    &&& 0 <= i < cuts.len()
                    &&& #[trigger] cuts[i] == c
                    &&& near_angle(c.angle as int, angle)
                    &&& forall|j: int|
                        0 <= j < i ==> !near_angle((#[trigger] cuts[j]).angle as int, angle)
                },
            None => forall|j: int|
                0 <= j < cuts.len() ==> !near_angle((#[trigger] cuts[j]).angle as int, angle),
        },
    decreases cuts.len(),
{
    if cuts.len() > 0 && !near_angle(cuts[0].angle as int, angle) {
        let rest = cuts.drop_first();
        the_first_near_cut_is_taken(rest, angle);
        match cut_near(rest, angle) {
            Some(c) => {
                let i = choose|i: int|
                    {
                        &&& 0 <= i < rest.len()
                        &&& #[trigger] rest[i] == c
                        &&& forall|j: int|
                            0 <= j < i ==> !near_angle((#[trigger] rest[j]).angle as int, angle)
                    };
                assert(cuts[i + 1] == c);
                assert forall|j: int| 0 <= j < i + 1 implies !near_angle(
                    (#[trigger] cuts[j]).angle as int,
                    angle,
                ) by {
                    if j > 0 {
                        assert(rest[j - 1] == cuts[j]);
                    }
                }
            },
            None => {
                assert forall|j: int| 0 <= j < cuts.len() implies !near_angle(
                    (#[trigger] cuts[j]).angle as int,
                    angle,
                ) by {
                    if j > 0 {
                        assert(rest[j - 1] == cuts[j]);
                    }
                }
            },
        }
    }
}

proof fn lemma_single_is_close(n: int)
    requires
        0 <= n <= 90_000,
    ensures
        -200_000_000 <= 1000 * crate::binary::single(n) - n * crate::binary::SINGLE_PARTS
            <= 200_000_000,
        0 <= crate::binary::single(n) <= 0x200_0000_0000,
{
    let parts = crate::binary::SINGLE_PARTS as int;
    let unit = crate::binary::SINGLE as int;
    crate::binary::held_is_close(n * parts, 1000, unit);
}

/// Angles within the range of the antenna are near each other when less than a
/// tenth of a degree lies between them, and not when more does, whichever comes
/// first.
pub proof fn angles_are_near_within_a_tenth(a: int, b: int)
    requires
        -90_000 <= a <= 90_000,
        -90_000 <= b <= 90_000,
    ensures
        -99 <= a - b <= 99 ==> near_angle(a, b),
        a - b > 100 || a - b < -100 ==> !near_angle(a, b),
        near_angle(a, b) == near_angle(b, a),
{
    let parts = crate::binary::SINGLE_PARTS as int;
    let unit = crate::binary::SINGLE as int;
    lemma_single_is_close(crate::inspector::size(a));
    lemma_single_is_close(crate::inspector::size(b));
    lemma_single_is_close(100);
    let x = crate::binary::signed_single(a) - crate::binary::signed_single(b);
    crate::binary::held_is_close(crate::inspector::size(x), 1, unit);
}

/// An offset is told in minutes and seconds, to the nearest second, with a mark
/// where it is estimated; what is unknown or before the start has dashes.
pub proof fn offsets_are_told_to_the_nearest_second(
    offset_ms: i64,
    minutes: nat,
    seconds: nat,
    estimated: bool,
)
    requires
        seconds < 60,
        60 * minutes + seconds <= u32::MAX,
        0 <= offset_ms,
        1000 * (60 * minutes + seconds) - 500 <= offset_ms < 1000 * (60 * minutes + seconds) + 500,
    ensures
        offset_text(Some(offset_ms), false) == crate::text::decimal(minutes) + ":"@
            + crate::text::padded(seconds, 2),
        offset_text(Some(offset_ms), true) == "~"@ + crate::text::decimal(minutes) + ":"@
            + crate::text::padded(seconds, 2),
        offset_text(None, estimated) == "--:--"@,
        offset_text(Some((-1 - offset_ms) as i64), estimated) == "--:--"@,
{
    let secs = 60 * minutes + seconds;
    assert((offset_ms + 500) / 1000 == secs);
    assert(secs / 60 == minutes);
    assert(secs % 60 == seconds);
    assert(offset_text(Some(offset_ms), false) =~= crate::text::decimal(minutes) + ":"@
        + crate::text::padded(seconds, 2));
}

/// An angle is told to the nearest tenth of a degree, with its sign.
pub proof fn angles_are_told_to_the_nearest_tenth(angle: int, size: int)
    requires
        angle == size || angle == -size,
        0 <= size < 0x40_0000,
    ensures
        exists|t: nat|
            angle_text(angle) == (if angle < 0 {
                seq!['-']
            } else {
                seq![]
            }) + #[trigger] crate::text::tenths(t) && size - 50 <= 100 * t <= size + 50,
{
    crate::binary::the_nearest_tenth_is_shown_in_single_precision(size);
    let t = crate::binary::shown_tenths(size) as nat;
    assert(angle_text(angle) == (if angle < 0 {
        seq!['-']
    } else {
        seq![]
    }) + crate::text::tenths(t));
}

/// Every known waveform sees reflectivity; only those of Doppler see velocity; the
/// width needs a continuous one, and the dual polarisation products the one that
/// has them.
pub proof fn products_follow_the_waveform(code: Seq<char>)
    ensures
        products_of(code).contains(CutProduct::Reflectivity) <==> code == "CS"@ || code == "CDW"@
            || code == "CDWO"@ || code == "B"@ || code == "SPP"@,
        products_of(code).contains(CutProduct::Velocity) <==> code == "CDW"@ || code == "CDWO"@
            || code == "B"@ || code == "SPP"@,
        products_of(code).contains(CutProduct::SpectrumWidth) <==> code == "CDW"@ || code
            == "CDWO"@ || code == "B"@,
        products_of(code).contains(CutProduct::DifferentialReflectivity) <==> code == "CDW"@,
        products_of(code).contains(CutProduct::DifferentialPhase) <==> code == "CDW"@,
        products_of(code).contains(CutProduct::CorrelationCoefficient) <==> code == "CDW"@,
{
    reveal_strlit("CS");
    reveal_strlit("CDW");
    reveal_strlit("CDWO");
    reveal_strlit("B");
    reveal_strlit("SPP");
    assert("CDW"@.len() == 3 && "CS"@.len() == 2 && "CDWO"@.len() == 4);
    assert("B"@.len() == 1 && "SPP"@.len() == 3);
    assert("SPP"@[0] != "CDW"@[0]);
    let p = products_of(code);
    if code == "CS"@ {
        assert(p[0] == CutProduct::Reflectivity);
    } else if code == "CDW"@ {
        assert(p[0] == CutProduct::Reflectivity);
        assert(p[1] == CutProduct::Velocity);
        assert(p[2] == CutProduct::SpectrumWidth);
        assert(p[3] == CutProduct::DifferentialReflectivity);
        assert(p[4] == CutProduct::DifferentialPhase);
        assert(p[5] == CutProduct::CorrelationCoefficient);
    } else if code == "CDWO"@ || code == "B"@ {
        assert(p[0] == CutProduct::Reflectivity);
        assert(p[1] == CutProduct::Velocity);
        assert(p[2] == CutProduct::SpectrumWidth);
    } else if code == "SPP"@ {
        assert(p[0] == CutProduct::Reflectivity);
        assert(p[1] == CutProduct::Velocity);
    }
}

/// A scan of the archive is told before a live volume, and a live volume before
/// nothing at all.
pub proof fn the_archive_is_told_before_the_live_volume(
    scan: &Scan,
    live: &LiveVolume,
    progress: Option<u32>,
    ts_ms: i64,
    frame: LiveFrame,
    archived: RadarState,
    streamed: RadarState,
    idle: RadarState,
)
    requires
        call_ensures(
            query_radar_state_at_timestamp,
            (Some(scan), None, progress, ts_ms, true, Some(live), frame),
            archived,
        ),
        call_ensures(
            query_radar_state_at_timestamp,
            (None, None, progress, ts_ms, true, Some(live), frame),
            streamed,
        ),
        call_ensures(
            query_radar_state_at_timestamp,
            (None, None, progress, ts_ms, true, None, frame),
            idle,
        ),
    ensures
        archived.vcp == Some(scan.vcp),
        streamed == live.state_of(frame),
        idle.vcp is None && idle.azimuth is None && idle.elevation is None
            && idle.elevation_number is None && idle.progress is None,
{
}

/// What a live frame points at is what is asked for: the state at a time without a
/// scan tells the number and the angle of the frame's own cut.
pub proof fn the_state_of_a_stream_tells_the_frames_cut(
    live: &LiveVolume,
    at: Option<usize>,
    progress: Option<u32>,
    ts_ms: i64,
    fast: bool,
    frame: LiveFrame,
    k: usize,
    s: RadarState,
)
    requires
        call_ensures(
            query_radar_state_at_timestamp,
            (None, at, progress, ts_ms, fast, Some(live), frame),
            s,
        ),
        frame.cut_index == Some(k),
        k < live.cuts@.len(),
    ensures
        s.elevation_number == Some(live.cuts@[k as int].elevation_number),
        frame.elevation is None ==> s.elevation == Some(live.cuts@[k as int].angle),
        frame.elevation is Some ==> s.elevation == frame.elevation,
{
}

/// Playback is fast above thirty seconds of data in a second, while it plays.
pub proof fn playback_is_fast_above_thirty_seconds(speed_ms_per_sec: i64, plays: bool, rests: bool)
    requires
        call_ensures(is_fast, (true, speed_ms_per_sec), plays),
        call_ensures(is_fast, (false, speed_ms_per_sec), rests),
    ensures
        plays <==> speed_ms_per_sec > 30 * 1000,
        !rests,
{
}

/// The live state tells the number and the angle of the cut that its frame points at.
pub proof fn the_live_state_tells_the_frames_cut(
    v: &LiveVolume,
    f: LiveFrame,
    k: usize,
    s: RadarState,
)
    requires
        call_ensures(LiveVolume::state, (v, f), s),
        f.cut_index == Some(k),
        k < v.cuts@.len(),
    ensures
        s.elevation_number == Some(v.cuts@[k as int].elevation_number),
        f.elevation is None ==> s.elevation == Some(v.cuts@[k as int].angle),
{
}

/// A row's cells tell its number and angle in degrees, and its time as it is known.
pub proof fn cells_tell_number_angle_and_time(r: &ElevRow, elevation: String, time: String)
    requires
        call_ensures(ElevRow::elevation_cell, (r,), elevation),
        call_ensures(ElevRow::time_cell, (r,), time),
    ensures
        ({
            let number = crate::text::decimal(r.elevation_number as nat);
            let angle = angle_text(r.angle as int);
            &&& elevation@.take(number.len() as int) == number
            &&& elevation@.skip(elevation@.len() - angle.len() - "\u{b0}"@.len()) == angle
                + "\u{b0}"@
            &&& number.len() <= 2 && angle.len() <= 5 ==> elevation@.len() == 7 + "\u{b0}"@.len()
            &&& time@ == offset_text(r.start_offset_ms, r.estimated)
        }),
{
    let number = crate::text::decimal(r.elevation_number as nat);
    let angle = angle_text(r.angle as int);
    assert(elevation@.take(number.len() as int) =~= number);
    assert(elevation@.skip(elevation@.len() - angle.len() - "\u{b0}"@.len()) =~= angle
        + "\u{b0}"@);
}

/// The short names of Doppler and staggered pulses stand for their codes; every other
/// name is its own.
pub proof fn short_names_stand_for_codes(name: Seq<char>)
    ensures
        waveform_code("CD"@) == "CDW"@,
        waveform_code("SP"@) == "SPP"@,
        name != "CD"@ && name != "SP"@ ==> waveform_code(name) == name,
{
    reveal_strlit("CD");
    reveal_strlit("SP");
    assert("SP"@[0] != "CD"@[0]);
}

/// The products of a cut have different letters, and the first three the initials of
/// their names.
pub proof fn products_have_their_letters(
    p: CutProduct,
    q: CutProduct,
    letter: &'static str,
    other: &'static str,
    name: &'static str,
)
    requires
        call_ensures(CutProduct::letter, (p,), letter),
        call_ensures(CutProduct::letter, (q,), other),
        call_ensures(CutProduct::name, (p,), name),
    ensures
        letter@ == other@ ==> p == q,
        p == CutProduct::Reflectivity ==> letter@ == "R"@ && name@ == "Reflectivity"@,
        p == CutProduct::Velocity ==> letter@ == "V"@ && name@ == "Velocity"@,
        p == CutProduct::SpectrumWidth ==> letter@ == "S"@ && name@ == "Spectrum Width"@,
        p == CutProduct::DifferentialReflectivity ==> letter@ == "Z"@ && name@
            == "Differential Reflectivity"@,
        p == CutProduct::DifferentialPhase ==> letter@ == "P"@ && name@ == "Differential Phase"@,
        p == CutProduct::CorrelationCoefficient ==> letter@ == "C"@ && name@
            == "Correlation Coefficient"@,
{
    reveal_strlit("R");
    reveal_strlit("V");
    reveal_strlit("S");
    reveal_strlit("Z");
    reveal_strlit("P");
    reveal_strlit("C");
    assert("R"@[0] == 'R' && "V"@[0] == 'V' && "S"@[0] == 'S');
    assert("Z"@[0] == 'Z' && "P"@[0] == 'P' && "C"@[0] == 'C');
}

/// The current row stands out in green, and what was observed is told from what was
/// estimated.
pub proof fn the_current_row_stands_out(r: &ElevRow, c: (Color32, Color32), hover: &'static str)
    requires
        call_ensures(ElevRow::colors, (r,), c),
        call_ensures(ElevRow::time_hover, (r,), hover),
    ensures
        r.is_current <==> c.0 == crate::colors::rgb(100, 255, 100),
        !r.is_current <==> c.0 == crate::colors::rgb(180, 180, 180),
        r.is_current ==> c.1 == crate::colors::rgb(80, 200, 80),
        !r.is_current ==> c.1 == crate::colors::rgb(120, 120, 130),
        r.estimated ==> hover@ == "Estimated from VCP azimuth rates"@,
        !r.estimated ==> hover@ == "Observed from radial timestamps"@,
{
}

/// An unknown angle has dashes; a known one is told in degrees.
pub proof fn unknown_angles_have_dashes(angle: i32, known: String, unknown: String)
    requires
        call_ensures(angle_readout, (Some(angle),), known),
        call_ensures(angle_readout, (None::<i32>,), unknown),
    ensures
        known@ == angle_text(angle as int) + "\u{b0}"@,
        unknown@ == "--"@,
{
}

} // verus!
