//! The ambient activity chip and the sheet that it opens: what is being fetched,
//! how much is left, and how it goes.

use crate::binary::{double_of, push_double};
use crate::acquisition_drawer::{QueueButton, QueueCommand};
use crate::colors::{acquisition as acq_colors, from_rgb, ui as ui_colors, Color32};
use crate::text::{decimal_text, push_decimal, round_div};
use vstd::prelude::*;
use vstd::string::*;

verus! {

/// What the workbench is busy with.
#[derive(Clone, Copy, Debug, PartialEq, Eq, Structural)]
pub enum ActivityState {
    UpToDate,
    Downloading { scans: u32 },
    Processing,
    Streaming,
    Paused { queued: u32 },
}

impl ActivityState {
    /// The state in plain words.
    pub fn hover_text(self) -> (s: &'static str)
        ensures
            s@ == match self {
                ActivityState::UpToDate => "Everything you're viewing is downloaded"@,
                ActivityState::Downloading {
                    ..
                } => "Downloading scans \u{2014} click for details"@,
                ActivityState::Processing => "Decoding downloaded data \u{2014} click for details"@,
                ActivityState::Streaming => "Receiving live data \u{2014} click for details"@,
                ActivityState::Paused { .. } => "Downloads paused \u{2014} click to resume"@,
            },
    {
        match self {
            ActivityState::UpToDate => "Everything you're viewing is downloaded",
            ActivityState::Downloading { .. } => "Downloading scans \u{2014} click for details",
            ActivityState::Processing => "Decoding downloaded data \u{2014} click for details",
            ActivityState::Streaming => "Receiving live data \u{2014} click for details",
            ActivityState::Paused { .. } => "Downloads paused \u{2014} click to resume",
        }
    }

    /// Whether the chip says more than its glyph: while something happens, and
    /// always for advanced users.
    pub fn shows_label(self, advanced: bool) -> (b: bool)
        ensures
            b == (self != ActivityState::UpToDate || advanced),
    {
        match self {
            ActivityState::UpToDate => advanced,
            _ => true,
        }
    }

    /// What the sheet's button does to the queue: it resumes a paused one and
    /// pauses one that downloads.
    pub fn queue_toggle(self) -> (r: Option<QueueCommand>)
        ensures
            r == match self {
                ActivityState::Paused { .. } => Some(QueueCommand::ResumeQueue),
                ActivityState::Downloading { .. } => Some(QueueCommand::PauseQueue),
                _ => None,
            },
    {
        match self {
            ActivityState::Paused { .. } => Some(QueueCommand::ResumeQueue),
            ActivityState::Downloading { .. } => Some(QueueCommand::PauseQueue),
            _ => None,
        }
    }
}

/// The chip's text: its glyph, its count, and its label where that is shown.
pub open spec fn chip_words(glyph: Seq<char>, count: Option<u32>, label: Option<Seq<char>>) -> Seq<
    char,
> {
    glyph + match count {
        Some(n) => " "@ + crate::text::decimal(n as nat),
        None => seq![],
    } + match label {
        Some(l) => " "@ + l,
        None => seq![],
    }
}

/// The chip's text.
pub fn chip_text(glyph: &str, count: Option<u32>, label: Option<&str>) -> (s: String)
    ensures
        s@ == chip_words(
            glyph@,
            count,
            match label {
                Some(l) => Some(l@),
                None => None,
            },
        ),
{
    let mut s = String::new();
    s.append(glyph);
    if let Some(n) = count {
        s.append(" ");
        push_decimal(&mut s, n as u64);
    }
    if let Some(l) = label {
        s.append(" ");
        s.append(l);
    }
    assert(s@ =~= chip_words(
        glyph@,
        count,
        match label {
            Some(l) => Some(l@),
            None => None,
        },
    ));
    s
}

/// What the mark of failure says on hovering.
pub fn failure_hover(first_error: Option<&str>) -> (s: String)
    ensures
        s@ == match first_error {
            Some(e) => "Some downloads failed ("@ + e@ + ") \u{2014} click to retry"@,
            None => "Some downloads failed \u{2014} click to retry"@,
        },
{
    match first_error {
        Some(e) => {
            let mut s = String::new();
            s.append("Some downloads failed (");
            s.append(e);
            s.append(") \u{2014} click to retry");
            assert(s@ =~= "Some downloads failed ("@ + e@ + ") \u{2014} click to retry"@);
            s
        },
        None => "Some downloads failed \u{2014} click to retry".to_owned(),
    }
}

/// The chip's colour: muted while idle, else the accent, at the pulse's opacity
/// or at a fixed one without motion.
pub fn chip_tint(idle: bool, pulse: Option<u8>) -> (c: Color32)
    ensures
        c == (if idle {
            crate::colors::ui::label(true)
        } else {
            crate::colors::rgba(
                crate::colors::ui::active().r,
                crate::colors::ui::active().g,
                crate::colors::ui::active().b,
                match pulse {
                    Some(a) => a,
                    None => 220,
                },
            )
        }),
{
    if idle {
        ui_colors::label(true)
    } else {
        let base = ui_colors::active();
        crate::colors::from_rgba_unmultiplied(
            base.r,
            base.g,
            base.b,
            match pulse {
                Some(a) => a,
                None => 220,
            },
        )
    }
}

/// The sheet's headline: what is done, and for how many scans.
pub open spec fn headline_words(label: Seq<char>, count: Option<u32>) -> Seq<char> {
    match count {
        Some(n) => label + " \u{b7} "@ + crate::text::decimal(n as nat) + " scan"@ + if n == 1 {
            seq![]
        } else {
            "s"@
        },
        None => label,
    }
}

/// The sheet's headline.
pub fn headline_text(label: &str, count: Option<u32>) -> (s: String)
    ensures
        s@ == headline_words(label@, count),
{
    let mut s = String::new();
    s.append(label);
    if let Some(n) = count {
        s.append(" \u{b7} ");
        push_decimal(&mut s, n as u64);
        s.append(" scan");
        if n != 1 {
            s.append("s");
        }
    }
    assert(s@ =~= headline_words(label@, count));
    s
}

/// How many operations failed; nothing is said where none did.
pub fn failed_note(failed: u64) -> (r: Option<String>)
    ensures
        (match r {
            Some(s) => Some(s@),
            None => None,
        }) == (if failed > 0 {
            Some("\u{b7} "@ + crate::text::decimal(failed as nat) + " failed"@)
        } else {
            None
        }),
{
    if failed == 0 {
        return None;
    }
    let mut s = String::new();
    s.append("\u{b7} ");
    push_decimal(&mut s, failed);
    s.append(" failed");
    assert(s@ =~= "\u{b7} "@ + crate::text::decimal(failed as nat) + " failed"@);
    Some(s)
}

/// Bytes in a rate: none in one below zero.
pub fn rate_bytes(bytes_per_sec: i64) -> (b: u64)
    ensures
        b == (if bytes_per_sec < 0 {
            0
        } else {
            bytes_per_sec as int
        }),
{
    if bytes_per_sec < 0 {
        0
    } else {
        bytes_per_sec as u64
    }
}

/// A transfer rate, from its bytes as they are written; a dash where nothing
/// moves.
pub fn format_rate(bytes_text: Option<&str>) -> (s: String)
    ensures
        s@ == match bytes_text {
            Some(b) => b@ + "/s"@,
            None => "\u{2014}"@,
        },
{
    match bytes_text {
        Some(b) => {
            let mut s = String::new();
            s.append(b);
            s.append("/s");
            assert(s@ =~= b@ + "/s"@);
            s
        },
        None => "\u{2014}".to_owned(),
    }
}

/// A short age: in seconds below a minute, in minutes below an hour, else in
/// hours, rounded. An age below zero counts as none.
pub open spec fn short_age(age_ms: int) -> Seq<char> {
    let ms = if age_ms < 0 {
        0
    } else {
        age_ms
    };
    if ms < 60_000 {
        crate::text::decimal(crate::text::rounded(ms, 1_000) as nat) + "s"@
    } else if ms < 3_600_000 {
        crate::text::decimal(crate::text::rounded(ms, 60_000) as nat) + "m"@
    } else {
        crate::text::decimal(crate::text::rounded(ms, 3_600_000) as nat) + "h"@
    }
}

/// A short age.
pub fn format_age(age_ms: i64) -> (s: String)
    ensures
        s@ == short_age(age_ms as int),
{
    let ms: u64 = if age_ms < 0 {
        0
    } else {
        age_ms as u64
    };
    let mut s = String::new();
    if ms < 60_000 {
        push_decimal(&mut s, round_div(ms, 1_000));
        s.append("s");
    } else if ms < 3_600_000 {
        push_decimal(&mut s, round_div(ms, 60_000));
        s.append("m");
    } else {
        push_decimal(&mut s, round_div(ms, 3_600_000));
        s.append("h");
    }
    assert(s@ =~= short_age(age_ms as int));
    s
}

/// A stage that a scan goes through.
#[derive(Clone, Copy, Debug, PartialEq, Eq, Structural)]
pub enum ActivityStage {
    Queued,
    Downloading,
    Processing,
    Finishing,
}

impl ActivityStage {
    /// What the stage means.
    pub fn hint(self) -> (s: &'static str)
        ensures
            s@ == match self {
                ActivityStage::Queued => "Scans waiting for a free download slot"@,
                ActivityStage::Downloading => "Scans being fetched from the archive now"@,
                ActivityStage::Processing => "Jobs sent to the decode workers, awaiting a result"@,
                ActivityStage::Finishing => "Decoded and stored \u{2014} waiting for the timeline to pick them up"@,
            },
    {
        match self {
            ActivityStage::Queued => "Scans waiting for a free download slot",
            ActivityStage::Downloading => "Scans being fetched from the archive now",
            ActivityStage::Processing => "Jobs sent to the decode workers, awaiting a result",
            ActivityStage::Finishing => "Decoded and stored \u{2014} waiting for the timeline to pick them up",
        }
    }
}

/// A stage in the strip: its count before its name.
pub fn stage_text(count: u32, label: &str) -> (s: String)
    ensures
        s@ == crate::text::decimal(count as nat) + " "@ + label@,
{
    let mut s = String::new();
    push_decimal(&mut s, count as u64);
    s.append(" ");
    s.append(label);
    assert(s@ =~= crate::text::decimal(count as nat) + " "@ + label@);
    s
}

/// Colour of a stage in the strip.
pub fn stage_color(active: bool, dark: bool) -> (c: Color32)
    ensures
        c == (if active {
            crate::colors::ui::active()
        } else {
            crate::colors::ui::label(dark)
        }),
{
    if active {
        ui_colors::active()
    } else {
        ui_colors::label(dark)
    }
}

/// Where a download stands.
#[derive(Debug)]
pub enum RowStatus {
    Downloading,
    Queued { position: u32 },
    Completed { duration_ms: u64 },
    Failed { error: String },
    Cancelled,
}

/// An icon of the list of downloads.
#[derive(Clone, Copy, Debug, PartialEq, Eq, Structural)]
pub enum RowIcon {
    Spinner,
    Clock,
    CheckCircle,
    Warning,
    MinusCircle,
}

impl RowStatus {
    /// Icon and colour.
    pub open spec fn mark_of(self) -> (RowIcon, Color32) {
        match self {
            RowStatus::Downloading => (RowIcon::Spinner, crate::colors::acquisition::active()),
            RowStatus::Queued { .. } => (RowIcon::Clock, crate::colors::acquisition::queued()),
            RowStatus::Completed { .. } => (
                RowIcon::CheckCircle,
                crate::colors::acquisition::completed(),
            ),
            RowStatus::Failed { .. } => (RowIcon::Warning, crate::colors::acquisition::failed()),
            RowStatus::Cancelled => (
                RowIcon::MinusCircle,
                crate::colors::acquisition::cancelled(),
            ),
        }
    }

    /// Icon and colour.
    pub fn mark(&self) -> (r: (RowIcon, Color32))
        ensures
            r == self.mark_of(),
    {
        match self {
            RowStatus::Downloading => (RowIcon::Spinner, acq_colors::active()),
            RowStatus::Queued { .. } => (RowIcon::Clock, acq_colors::queued()),
            RowStatus::Completed { .. } => (RowIcon::CheckCircle, acq_colors::completed()),
            RowStatus::Failed { .. } => (RowIcon::Warning, acq_colors::failed()),
            RowStatus::Cancelled => (RowIcon::MinusCircle, acq_colors::cancelled()),
        }
    }

    /// The note at the end of the row.
    pub open spec fn note_of(self) -> Seq<char> {
        match self {
            RowStatus::Downloading => "downloading"@,
            RowStatus::Queued { position } => "#"@ + crate::text::decimal(position as nat),
            RowStatus::Completed { duration_ms } => crate::binary::double_text(
                crate::binary::double(duration_ms as int),
            ) + "s"@,
            RowStatus::Failed { .. } => "failed"@,
            RowStatus::Cancelled => "cancelled"@,
        }
    }

    /// The note at the end of the row.
    pub fn note(&self) -> (s: String)
        ensures
            s@ == self.note_of(),
    {
        match self {
            RowStatus::Downloading => "downloading".to_owned(),
            RowStatus::Queued { position } => {
                let mut s = String::new();
                s.append("#");
                push_decimal(&mut s, *position as u64);
                assert(s@ =~= self.note_of());
                s
            },
            RowStatus::Completed { duration_ms } => {
                let mut s = String::new();
                push_double(&mut s, double_of(*duration_ms));
                s.append("s");
                assert(s@ =~= self.note_of());
                s
            },
            RowStatus::Failed { .. } => "failed".to_owned(),
            RowStatus::Cancelled => "cancelled".to_owned(),
        }
    }
}

/// Rows that stand differently carry different icons, so the list reads without
/// its colours.
pub proof fn icons_tell_statuses_apart(a: RowStatus, b: RowStatus)
    requires
        a.mark_of().0 == b.mark_of().0,
    ensures
        a is Downloading == b is Downloading,
        a is Queued == b is Queued,
        a is Completed == b is Completed,
        a is Failed == b is Failed,
        a is Cancelled == b is Cancelled,
{
}

/// What may be done to a download.
#[derive(Clone, Copy, Debug)]
pub struct RowRights {
    pub can_cancel: bool,
    pub can_reorder: bool,
    pub can_retry: bool,
}

/// The buttons beside a download, from the right.
pub open spec fn row_buttons_of(status: RowStatus, rights: RowRights) -> Seq<QueueButton> {
    match status {
        RowStatus::Queued { .. } => (if rights.can_cancel {
            seq![QueueButton::Cancel]
        } else {
            seq![]
        }) + if rights.can_reorder {
            seq![QueueButton::MoveDown, QueueButton::MoveUp]
        } else {
            seq![]
        },
        RowStatus::Failed { .. } => (if rights.can_retry {
            seq![QueueButton::Retry]
        } else {
            seq![]
        }) + seq![QueueButton::Skip],
        _ => seq![],
    }
}

/// The buttons beside a download, from the right.
pub fn row_buttons(status: &RowStatus, rights: RowRights) -> (r: Vec<QueueButton>)
    ensures
        r@ == row_buttons_of(*status, rights),
{
    let mut r: Vec<QueueButton> = Vec::new();
    match status {
        RowStatus::Queued { .. } => {
            if rights.can_cancel {
                r.push(QueueButton::Cancel);
            }
            if rights.can_reorder {
                r.push(QueueButton::MoveDown);
                r.push(QueueButton::MoveUp);
            }
        },
        RowStatus::Failed { .. } => {
            if rights.can_retry {
                r.push(QueueButton::Retry);
            }
            r.push(QueueButton::Skip);
        },
        _ => {},
    }
    assert(r@ =~= row_buttons_of(*status, rights));
    r
}

/// A size as it is written, marked where it is an estimate.
pub fn size_note(bytes_text: &str, estimated: bool) -> (s: String)
    ensures
        s@ == (if estimated {
            "~"@
        } else {
            seq![]
        }) + bytes_text@,
{
    let mut s = String::new();
    if estimated {
        s.append("~");
    }
    s.append(bytes_text);
    assert(s@ =~= (if estimated {
        "~"@
    } else {
        seq![]
    }) + bytes_text@);
    s
}

/// Whether a retry of everything that failed is offered.
pub fn offers_retry_all(failed: u64) -> (b: bool)
    ensures
        b == (failed > 1),
{
    failed > 1
}

/// Colour of a response's status. Red is for failures alone.
pub open spec fn color_of_status(status: u16, ok: bool) -> Color32 {
    if !ok || status == 0 || status >= 400 {
        crate::colors::acquisition::failed()
    } else if status >= 300 {
        crate::colors::rgb(220, 180, 80)
    } else {
        crate::colors::ui::success()
    }
}

/// Colour of a response's status.
pub fn status_color(status: u16, ok: bool) -> (c: Color32)
    ensures
        c == color_of_status(status, ok),
{
    if !ok || status == 0 || status >= 400 {
        acq_colors::failed()
    } else if status >= 300 {
        from_rgb(220, 180, 80)
    } else {
        ui_colors::success()
    }
}

/// Only failures are red, and every failure is.
pub proof fn red_means_failure(status: u16, ok: bool)
    ensures
        color_of_status(status, ok) == crate::colors::acquisition::failed() <==> (!ok || status == 0
            || status >= 400),
{
}

/// Jobs sent to the decode workers.
#[derive(Clone, Copy, Debug)]
pub struct WorkerJobs {
    pub ingest: u32,
    pub chunk_ingest: u32,
    pub render: u32,
    pub render_live: u32,
    pub volume: u32,
}

impl WorkerJobs {
    pub open spec fn sum(&self) -> int {
        self.ingest + self.chunk_ingest + self.render + self.render_live + self.volume
    }

    /// All jobs.
    pub fn total(&self) -> (n: u64)
        ensures
            n == self.sum(),
    {
        self.ingest as u64 + self.chunk_ingest as u64 + self.render as u64 + self.render_live as u64
            + self.volume as u64
    }

    pub open spec fn words(&self) -> Seq<char> {
        crate::text::decimal(self.sum() as nat) + " (ingest "@ + crate::text::decimal(
            self.ingest as nat,
        ) + " \u{b7} chunk "@ + crate::text::decimal(self.chunk_ingest as nat) + " \u{b7} render "@
            + crate::text::decimal(self.render as nat) + " \u{b7} live "@ + crate::text::decimal(
            self.render_live as nat,
        ) + " \u{b7} vol "@ + crate::text::decimal(self.volume as nat) + ")"@
    }

    /// The jobs by kind.
    pub fn text(&self) -> (s: String)
        ensures
            s@ == self.words(),
    {
        let mut s = String::new();
        push_decimal(&mut s, self.total());
        s.append(" (ingest ");
        push_decimal(&mut s, self.ingest as u64);
        s.append(" \u{b7} chunk ");
        push_decimal(&mut s, self.chunk_ingest as u64);
        s.append(" \u{b7} render ");
        push_decimal(&mut s, self.render as u64);
        s.append(" \u{b7} live ");
        push_decimal(&mut s, self.render_live as u64);
        s.append(" \u{b7} vol ");
        push_decimal(&mut s, self.volume as u64);
        s.append(")");
        assert(s@ =~= self.words());
        s
    }
}

/// What is measured for developers. Times are in microseconds, the frame rate in
/// thousandths.
#[derive(Debug)]
pub struct ActivityDetail {
    pub http_in_flight: u32,
    pub worker: WorkerJobs,
    pub unavailable: u32,
    pub avg_fetch_us: Option<u64>,
    pub avg_processing_us: Option<u64>,
    pub avg_render_us: Option<u64>,
    /// The phases of decoding and of drawing, by name.
    pub phases: Vec<(String, u64)>,
    pub fps_thousandths: Option<u64>,
    pub cross_origin_isolated: bool,
}

/// A row of the details.
#[derive(Debug)]
pub struct DetailRow {
    pub label: String,
    pub value: String,
}

pub struct DetailRowView {
    pub label: Seq<char>,
    pub value: Seq<char>,
}

impl View for DetailRow {
    type V = DetailRowView;

    open spec fn view(&self) -> DetailRowView {
        DetailRowView { label: self.label@, value: self.value@ }
    }
}

/// An average of milliseconds, given in microseconds.
pub open spec fn average_text(us: int) -> Seq<char> {
    crate::text::decimal(crate::text::rounded(us, 1_000) as nat) + " ms avg"@
}

/// A row, where there is something to say.
pub open spec fn row_if(b: bool, label: Seq<char>, value: Seq<char>) -> Seq<DetailRowView> {
    if b {
        seq![DetailRowView { label, value }]
    } else {
        seq![]
    }
}

pub open spec fn average_row(label: Seq<char>, us: Option<u64>) -> Seq<DetailRowView> {
    match us {
        Some(n) => row_if(true, label, average_text(n as int)),
        None => seq![],
    }
}

/// A phase's row.
pub open spec fn phase_row(p: (String, u64)) -> DetailRowView {
    DetailRowView {
        label: p.0@,
        value: crate::binary::double_text(crate::binary::double(p.1 as int)) + " ms"@,
    }
}

impl ActivityDetail {
    /// The rows before the phases.
    pub open spec fn head_rows(&self) -> Seq<DetailRowView> {
        row_if(true, "HTTP in flight"@, crate::text::decimal(self.http_in_flight as nat)) + row_if(
            true,
            "Worker jobs"@,
            self.worker.words(),
        ) + row_if(
            self.unavailable > 0,
            "Unavailable tilts"@,
            crate::text::decimal(self.unavailable as nat),
        ) + average_row("Fetch latency"@, self.avg_fetch_us) + average_row(
            "Processing"@,
            self.avg_processing_us,
        ) + average_row("Render"@, self.avg_render_us)
    }

    /// The rows after the phases.
    pub open spec fn tail_rows(&self) -> Seq<DetailRowView> {
        (match self.fps_thousandths {
            Some(f) => row_if(
                true,
                "Frame rate"@,
                crate::text::decimal(crate::text::rounded(f as int, 1_000) as nat) + " fps"@,
            ),
            None => seq![],
        }) + row_if(
            true,
            "Cross-origin isolated"@,
            if self.cross_origin_isolated {
                "active"@
            } else {
                "inactive"@
            },
        )
    }

    /// The rows for developers.
    pub open spec fn all_rows(&self) -> Seq<DetailRowView> {
        self.head_rows() + Seq::new(
            self.phases@.len(),
            |i: int| phase_row(self.phases@[i]),
        ) + self.tail_rows()
    }

    /// The rows for developers.
    pub fn rows(&self) -> (r: Vec<DetailRow>)
        ensures
            r@.map_values(|w: DetailRow| w@) == self.all_rows(),
    {
        let mut r: Vec<DetailRow> = Vec::new();
        r.push(
            DetailRow {
                label: "HTTP in flight".to_owned(),
                value: decimal_text(self.http_in_flight as u64),
            },
        );
        r.push(DetailRow { label: "Worker jobs".to_owned(), value: self.worker.text() });
        if self.unavailable > 0 {
            r.push(
                DetailRow {
                    label: "Unavailable tilts".to_owned(),
                    value: decimal_text(self.unavailable as u64),
                },
            );
        }
        push_average(&mut r, "Fetch latency", self.avg_fetch_us);
        push_average(&mut r, "Processing", self.avg_processing_us);
        push_average(&mut r, "Render", self.avg_render_us);
        assert(r@.map_values(|w: DetailRow| w@) =~= self.head_rows());
        let ghost head = r@;
        let mut i: usize = 0;
        while i < self.phases.len()
            invariant
                i <= self.phases@.len(),
                r@.len() == head.len() + i,
                forall|k: int| 0 <= k < head.len() ==> #[trigger] r@[k] == head[k],
                forall|k: int|
                    head.len() <= k < r@.len() ==> (#[trigger] r@[k])@ == phase_row(
                        self.phases@[k - head.len()],
                    ),
            decreases self.phases@.len() - i,
        {
            let mut value = String::new();
            push_double(&mut value, double_of(self.phases[i].1));
            value.append(" ms");
            assert(value@ =~= phase_row(self.phases@[i as int]).value);
            let row = DetailRow { label: self.phases[i].0.as_str().to_owned(), value };
            r.push(row);
            i += 1;
        }
        assert(r@.map_values(|w: DetailRow| w@) =~= self.head_rows() + Seq::new(
            self.phases@.len(),
            |i: int| phase_row(self.phases@[i]),
        )) by {
            assert(head.map_values(|w: DetailRow| w@) == self.head_rows());
            assert forall|k: int| 0 <= k < head.len() implies (#[trigger] head[k])@
                == self.head_rows()[k] by {
                assert(head.map_values(|w: DetailRow| w@)[k] == self.head_rows()[k]);
            }
        }
        let ghost middle = r@;
        if let Some(f) = self.fps_thousandths {
            let mut value = String::new();
            push_decimal(&mut value, round_div(f, 1_000));
            value.append(" fps");
            assert(value@ =~= crate::text::decimal(
                crate::text::rounded(f as int, 1_000) as nat,
            ) + " fps"@);
            r.push(DetailRow { label: "Frame rate".to_owned(), value });
        }
        let isolated = if self.cross_origin_isolated {
            "active"
        } else {
            "inactive"
        };
        r.push(
            DetailRow { label: "Cross-origin isolated".to_owned(), value: isolated.to_owned() },
        );
        assert(r@.map_values(|w: DetailRow| w@) =~= middle.map_values(|w: DetailRow| w@)
            + self.tail_rows());
        r
    }
}

fn push_average(r: &mut Vec<DetailRow>, label: &str, us: Option<u64>)
    ensures
        final(r)@.map_values(|w: DetailRow| w@) == old(r)@.map_values(|w: DetailRow| w@)
            + average_row(label@, us),
{
    if let Some(n) = us {
        let mut value = String::new();
        push_decimal(&mut value, round_div(n, 1_000));
        value.append(" ms avg");
        assert(value@ =~= average_text(n as int));
        r.push(DetailRow { label: label.to_owned(), value });
    }
    assert(r@.map_values(|w: DetailRow| w@) =~= old(r)@.map_values(|w: DetailRow| w@)
        + average_row(label@, us));
}

/// What the session has transferred.
#[derive(Clone, Copy, Debug)]
pub struct SessionTotals {
    pub requests: u64,
    pub failed_requests: u64,
}

impl SessionTotals {
    /// The session's rows, with its bytes and those at hand as they are written.
    pub open spec fn all_rows(&self, bytes_text: Seq<char>, cache_text: Seq<char>) -> Seq<
        DetailRowView,
    > {
        row_if(true, "Requests"@, crate::text::decimal(self.requests as nat)) + row_if(
            self.failed_requests > 0,
            "Failed"@,
            crate::text::decimal(self.failed_requests as nat),
        ) + row_if(true, "Transferred"@, bytes_text) + row_if(true, "Cache"@, cache_text)
    }

    /// The session's rows.
    pub fn rows(&self, bytes_text: &str, cache_text: &str) -> (r: Vec<DetailRow>)
        ensures
            r@.map_values(|w: DetailRow| w@) == self.all_rows(bytes_text@, cache_text@),
    {
        let mut r: Vec<DetailRow> = Vec::new();
        r.push(DetailRow { label: "Requests".to_owned(), value: decimal_text(self.requests) });
        if self.failed_requests > 0 {
            r.push(
                DetailRow { label: "Failed".to_owned(), value: decimal_text(self.failed_requests) },
            );
        }
        r.push(DetailRow { label: "Transferred".to_owned(), value: bytes_text.to_owned() });
        r.push(DetailRow { label: "Cache".to_owned(), value: cache_text.to_owned() });
        assert(r@.map_values(|w: DetailRow| w@) =~= self.all_rows(bytes_text@, cache_text@));
        r
    }
}

/// A request's time and age, the time in microseconds.
pub fn request_note(duration_us: u64, age_ms: i64) -> (s: String)
    ensures
        s@ == crate::text::decimal(crate::text::rounded(duration_us as int, 1_000) as nat)
            + " ms \u{b7} "@ + short_age(age_ms as int),
{
    let mut s = String::new();
    push_decimal(&mut s, round_div(duration_us, 1_000));
    s.append(" ms \u{b7} ");
    s.append(format_age(age_ms).as_str());
    assert(s@ =~= crate::text::decimal(crate::text::rounded(duration_us as int, 1_000) as nat)
        + " ms \u{b7} "@ + short_age(age_ms as int));
    s
}

/// The chip shows its glyph, then a count where there is one, then a label where
/// there is one, set apart by spaces.
pub proof fn the_chip_shows_glyph_count_and_label(glyph: Seq<char>, n: u32, label: Seq<char>)
    ensures
        chip_words(glyph, None, None) == glyph,
        chip_words(glyph, Some(n), None) == glyph + (" "@ + crate::text::decimal(n as nat)),
        chip_words(glyph, None, Some(label)) == glyph + (" "@ + label),
        chip_words(glyph, Some(n), Some(label)) == chip_words(glyph, Some(n), None) + (" "@
            + label),
{
    assert(chip_words(glyph, None, None) =~= glyph);
    assert(chip_words(glyph, Some(n), None) =~= glyph + (" "@ + crate::text::decimal(n as nat)));
    assert(chip_words(glyph, None, Some(label)) =~= glyph + (" "@ + label));
    assert(chip_words(glyph, Some(n), Some(label)) =~= chip_words(glyph, Some(n), None) + (" "@
        + label));
}

/// The headline counts scans, and speaks of one in the singular.
pub proof fn the_headline_counts_scans(label: Seq<char>, n: u32)
    ensures
        headline_words(label, None) == label,
        n == 1 ==> headline_words(label, Some(n)) == label + " \u{b7} "@ + crate::text::decimal(1)
            + " scan"@,
        n != 1 ==> headline_words(label, Some(n)) == label + " \u{b7} "@ + crate::text::decimal(
            n as nat,
        ) + " scan"@ + "s"@,
{
    if n == 1 {
        assert(headline_words(label, Some(n)) =~= label + " \u{b7} "@ + crate::text::decimal(1)
            + " scan"@);
    }
}

/// An age is told in seconds below a minute, in minutes below an hour and in hours
/// from there on, each to the nearest; what lies ahead is no age.
pub proof fn ages_are_told_in_the_nearest_unit(age_ms: int)
    requires
        0 <= age_ms,
    ensures
        age_ms < 60_000 ==> exists|n: nat|
            short_age(age_ms) == #[trigger] crate::text::decimal(n) + "s"@ && age_ms - 500 <= 1000
                * n <= age_ms + 500,
        60_000 <= age_ms < 3_600_000 ==> exists|n: nat|
            short_age(age_ms) == #[trigger] crate::text::decimal(n) + "m"@ && age_ms - 30_000
                <= 60_000 * n <= age_ms + 30_000,
        3_600_000 <= age_ms ==> exists|n: nat|
            short_age(age_ms) == #[trigger] crate::text::decimal(n) + "h"@ && age_ms - 1_800_000
                <= 3_600_000 * n <= age_ms + 1_800_000,
        short_age(-age_ms) == short_age(0) || age_ms == 0,
        short_age(0) == crate::text::decimal(0) + "s"@,
{
    crate::text::rounding_is_to_the_nearest(age_ms, 1000);
    crate::text::rounding_is_to_the_nearest(age_ms, 60_000);
    crate::text::rounding_is_to_the_nearest(age_ms, 3_600_000);
    if age_ms < 60_000 {
        let n = crate::text::rounded(age_ms, 1000) as nat;
        assert(short_age(age_ms) == crate::text::decimal(n) + "s"@);
    } else if age_ms < 3_600_000 {
        let n = crate::text::rounded(age_ms, 60_000) as nat;
        assert(short_age(age_ms) == crate::text::decimal(n) + "m"@);
    } else {
        let n = crate::text::rounded(age_ms, 3_600_000) as nat;
        assert(short_age(age_ms) == crate::text::decimal(n) + "h"@);
    }
}

/// A row's note tells its place in the queue, the tenths of seconds it took, or in
/// a word how it stands.
pub proof fn notes_tell_place_or_duration(position: u32, duration_ms: u64, error: String)
    requires
        duration_ms < 0x8_0000_0000_0000,
    ensures
        (RowStatus::Queued { position }).note_of() == "#"@ + crate::text::decimal(position as nat),
        exists|t: nat|
            (RowStatus::Completed { duration_ms }).note_of() == #[trigger] crate::text::tenths(t)
                + "s"@ && duration_ms - 50 <= 100 * t <= duration_ms + 50,
        RowStatus::Downloading.note_of() == "downloading"@,
        (RowStatus::Failed { error }).note_of() == "failed"@,
        RowStatus::Cancelled.note_of() == "cancelled"@,
{
    crate::binary::the_nearest_tenth_is_shown(duration_ms as int);
    let t = choose|t: nat|
        crate::binary::double_text(crate::binary::double(duration_ms as int))
            == #[trigger] crate::text::tenths(t) && duration_ms - 50 <= 100 * t <= duration_ms + 50;
    assert((RowStatus::Completed { duration_ms }).note_of() == crate::text::tenths(t) + "s"@);
}

/// Each status has its own icon and colour.
pub proof fn statuses_have_their_own_marks(position: u32, duration_ms: u64, error: String)
    ensures
        RowStatus::Downloading.mark_of() == (
            RowIcon::Spinner,
            crate::colors::acquisition::active(),
        ),
        (RowStatus::Queued { position }).mark_of() == (
            RowIcon::Clock,
            crate::colors::acquisition::queued(),
        ),
        (RowStatus::Completed { duration_ms }).mark_of() == (
            RowIcon::CheckCircle,
            crate::colors::acquisition::completed(),
        ),
        (RowStatus::Failed { error }).mark_of() == (
            RowIcon::Warning,
            crate::colors::acquisition::failed(),
        ),
        RowStatus::Cancelled.mark_of() == (
            RowIcon::MinusCircle,
            crate::colors::acquisition::cancelled(),
        ),
{
}

/// Only what waits can be cancelled or moved, where that is allowed; only what
/// failed can be retried, where that is allowed, and always be skipped.
pub proof fn buttons_follow_status_and_rights(status: RowStatus, rights: RowRights)
    ensures
        row_buttons_of(status, rights).contains(QueueButton::Cancel) <==> status is Queued
            && rights.can_cancel,
        row_buttons_of(status, rights).contains(QueueButton::MoveUp) <==> status is Queued
            && rights.can_reorder,
        row_buttons_of(status, rights).contains(QueueButton::MoveDown) <==> status is Queued
            && rights.can_reorder,
        row_buttons_of(status, rights).contains(QueueButton::Retry) <==> status is Failed
            && rights.can_retry,
        row_buttons_of(status, rights).contains(QueueButton::Skip) <==> status is Failed,
{
    let b = row_buttons_of(status, rights);
    let n = b.len() as int;
    if status is Queued {
        if rights.can_cancel {
            assert(b[0] == QueueButton::Cancel);
        }
        if rights.can_reorder {
            assert(b[n - 1] == QueueButton::MoveUp);
            assert(b[n - 2] == QueueButton::MoveDown);
        }
    } else if status is Failed {
        if rights.can_retry {
            assert(b[0] == QueueButton::Retry);
        }
        assert(b[n - 1] == QueueButton::Skip);
    }
}

/// Redirects are yellow and other successes green.
pub proof fn yellow_means_redirected(status: u16, ok: bool)
    ensures
        ok && 300 <= status < 400 <==> color_of_status(status, ok) == crate::colors::rgb(
            220,
            180,
            80,
        ),
        ok && 1 <= status < 300 <==> color_of_status(status, ok) == crate::colors::ui::success(),
{
}

/// All kinds of jobs count, and are told one by one behind their sum.
pub proof fn jobs_are_told_by_kind(w: WorkerJobs)
    ensures
        w.sum() >= w.ingest && w.sum() >= w.chunk_ingest && w.sum() >= w.render,
        w.sum() >= w.render_live && w.sum() >= w.volume,
        w.sum() - w.ingest - w.chunk_ingest - w.render - w.render_live - w.volume == 0,
        w.words() == crate::text::decimal(w.sum() as nat) + " (ingest "@ + crate::text::decimal(
            w.ingest as nat,
        ) + " \u{b7} chunk "@ + crate::text::decimal(w.chunk_ingest as nat) + " \u{b7} render "@
            + crate::text::decimal(w.render as nat) + " \u{b7} live "@ + crate::text::decimal(
            w.render_live as nat,
        ) + " \u{b7} vol "@ + crate::text::decimal(w.volume as nat) + ")"@,
{
}

/// An average is told to the nearest millisecond, under its own label; one that is
/// not known has no row.
pub proof fn averages_are_told_in_milliseconds(label: Seq<char>, us: u64)
    ensures
        average_row(label, None).len() == 0,
        exists|n: nat|
            average_row(label, Some(us)) == seq![
                DetailRowView {
                    label,
                    value: #[trigger] crate::text::decimal(n) + " ms avg"@,
                },
            ] && us - 500 <= 1000 * n <= us + 500,
{
    crate::text::rounding_is_to_the_nearest(us as int, 1000);
    let n = crate::text::rounded(us as int, 1000) as nat;
    assert(average_row(label, Some(us)) == seq![
        DetailRowView { label, value: crate::text::decimal(n) + " ms avg"@ },
    ]);
}

/// The details begin with the requests in flight and the jobs, and name unavailable
/// tilts only where there are any; the averages follow, each of its own measure.
pub proof fn details_begin_with_requests_and_jobs(d: ActivityDetail)
    ensures
        ({
            let rows = d.head_rows();
            &&& rows[0] == (DetailRowView {
                label: "HTTP in flight"@,
                value: crate::text::decimal(d.http_in_flight as nat),
            })
            &&& rows[1] == (DetailRowView { label: "Worker jobs"@, value: d.worker.words() })
            &&& d.unavailable > 0 ==> rows[2] == (DetailRowView {
                label: "Unavailable tilts"@,
                value: crate::text::decimal(d.unavailable as nat),
            })
            &&& rows.len() == 2 + (if d.unavailable > 0 {
                1int
            } else {
                0
            }) + (if d.avg_fetch_us is Some {
                1int
            } else {
                0
            }) + (if d.avg_processing_us is Some {
                1int
            } else {
                0
            }) + (if d.avg_render_us is Some {
                1int
            } else {
                0
            })
            &&& d.avg_fetch_us is Some ==> rows.contains(
                average_row("Fetch latency"@, d.avg_fetch_us)[0],
            )
            &&& d.avg_processing_us is Some ==> rows.contains(
                average_row("Processing"@, d.avg_processing_us)[0],
            )
            &&& d.avg_render_us is Some ==> rows.last() == average_row(
                "Render"@,
                d.avg_render_us,
            )[0]
        }),
{
    let rows = d.head_rows();
    let a = if d.unavailable > 0 {
        3int
    } else {
        2
    };
    let b = if d.avg_fetch_us is Some {
        a + 1
    } else {
        a
    };
    if d.avg_fetch_us is Some {
        assert(rows[a] == average_row("Fetch latency"@, d.avg_fetch_us)[0]);
    }
    if d.avg_processing_us is Some {
        assert(rows[b] == average_row("Processing"@, d.avg_processing_us)[0]);
    }
}

/// The phases stand between the averages and the frame rate, each with its own time
/// to the nearest tenth of a millisecond.
pub proof fn phases_are_told_one_by_one(d: ActivityDetail, i: int)
    requires
        0 <= i < d.phases@.len(),
        d.phases@[i].1 < 0x8_0000_0000_0000,
    ensures
        d.all_rows()[d.head_rows().len() + i].label == d.phases@[i].0@,
        exists|t: nat|
            d.all_rows()[d.head_rows().len() + i].value == #[trigger] crate::text::tenths(t)
                + " ms"@ && d.phases@[i].1 - 50 <= 100 * t <= d.phases@[i].1 + 50,
        d.all_rows().len() == d.head_rows().len() + d.phases@.len() + d.tail_rows().len(),
{
    let us = d.phases@[i].1 as int;
    crate::binary::the_nearest_tenth_is_shown(us);
    let t = choose|t: nat|
        crate::binary::double_text(crate::binary::double(us)) == #[trigger] crate::text::tenths(t)
            && us - 50 <= 100 * t <= us + 50;
    assert(d.all_rows()[d.head_rows().len() + i] == phase_row(d.phases@[i]));
    assert(phase_row(d.phases@[i]).value == crate::text::tenths(t) + " ms"@);
}

/// The details end with the frame rate, to the nearest whole, where it is known, and
/// with whether the page is isolated.
pub proof fn details_end_with_frame_rate_and_isolation(d: ActivityDetail)
    ensures
        ({
            let rows = d.tail_rows();
            &&& d.cross_origin_isolated ==> rows.last() == (DetailRowView {
                label: "Cross-origin isolated"@,
                value: "active"@,
            })
            &&& !d.cross_origin_isolated ==> rows.last() == (DetailRowView {
                label: "Cross-origin isolated"@,
                value: "inactive"@,
            })
            &&& d.fps_thousandths is None ==> rows.len() == 1
            &&& d.fps_thousandths matches Some(f) ==> rows.len() == 2 && exists|n: nat|
                rows[0] == (DetailRowView {
                    label: "Frame rate"@,
                    value: #[trigger] crate::text::decimal(n) + " fps"@,
                }) && f - 500 <= 1000 * n <= f + 500
        }),
{
    if d.fps_thousandths is Some {
        let f = d.fps_thousandths->0 as int;
        crate::text::rounding_is_to_the_nearest(f, 1000);
        let n = crate::text::rounded(f, 1000) as nat;
        assert(d.tail_rows()[0] == (DetailRowView {
            label: "Frame rate"@,
            value: crate::text::decimal(n) + " fps"@,
        }));
    }
}

/// A session sums up its requests, those that failed where any did, what was
/// transferred and what is cached.
pub proof fn sessions_sum_up(t: SessionTotals, bytes: Seq<char>, cache: Seq<char>)
    ensures
        ({
            let rows = t.all_rows(bytes, cache);
            let n = rows.len() as int;
            &&& n == (if t.failed_requests > 0 {
                4int
            } else {
                3
            })
            &&& rows[0] == (DetailRowView {
                label: "Requests"@,
                value: crate::text::decimal(t.requests as nat),
            })
            &&& t.failed_requests > 0 ==> rows[1] == (DetailRowView {
                label: "Failed"@,
                value: crate::text::decimal(t.failed_requests as nat),
            })
            &&& rows[n - 2] == (DetailRowView { label: "Transferred"@, value: bytes })
            &&& rows[n - 1] == (DetailRowView { label: "Cache"@, value: cache })
        }),
{
}

/// The chip resumes what is paused and pauses what downloads; otherwise there is
/// nothing to toggle.
pub proof fn the_chip_toggles_the_queue(
    s: ActivityState,
    r: Option<QueueCommand>,
)
    requires
        call_ensures(ActivityState::queue_toggle, (s,), r),
    ensures
        s is Paused <==> r == Some(QueueCommand::ResumeQueue),
        s is Downloading <==> r == Some(QueueCommand::PauseQueue),
        !(s is Paused) && !(s is Downloading) <==> r is None,
{
}

/// Failures are noted where there are any, and all can be retried at once where there
/// are several.
pub proof fn failures_are_noted(failed: u64, note: Option<String>, all: bool)
    requires
        call_ensures(failed_note, (failed,), note),
        call_ensures(offers_retry_all, (failed,), all),
    ensures
        failed == 0 ==> note is None && !all,
        failed >= 1 ==> note is Some && note->0@ == "\u{b7} "@ + crate::text::decimal(failed as nat)
            + " failed"@,
        all <==> failed >= 2,
{
}

/// A request tells how long it took, to the nearest millisecond, and then how long ago
/// it was made.
pub proof fn requests_tell_duration_and_age(duration_us: u64, age_ms: i64, s: String)
    requires
        call_ensures(request_note, (duration_us, age_ms), s),
    ensures
        exists|n: nat|
            s@ == #[trigger] crate::text::decimal(n) + " ms \u{b7} "@ + short_age(age_ms as int)
                && duration_us - 500 <= 1000 * n <= duration_us + 500,
{
    crate::text::rounding_is_to_the_nearest(duration_us as int, 1000);
    let n = crate::text::rounded(duration_us as int, 1000) as nat;
    assert(s@ == crate::text::decimal(n) + " ms \u{b7} "@ + short_age(age_ms as int));
}

/// The idle chip has a label only for those who want everything; any other always
/// has.
pub proof fn the_idle_chip_is_silent(s: ActivityState, plain: bool, advanced: bool)
    requires
        call_ensures(ActivityState::shows_label, (s, false), plain),
        call_ensures(ActivityState::shows_label, (s, true), advanced),
    ensures
        advanced,
        plain <==> s != ActivityState::UpToDate,
{
}

/// A rate below zero counts as none, and an estimated size is marked.
pub proof fn rates_and_sizes_are_told(rate: i64, b: u64, text: &str, rough: String, exact: String)
    requires
        call_ensures(rate_bytes, (rate,), b),
        call_ensures(size_note, (text, true), rough),
        call_ensures(size_note, (text, false), exact),
    ensures
        rate >= 0 ==> b == rate,
        rate < 0 ==> b == 0,
        exact@ == text@,
        rough@ == "~"@ + text@,
{
    assert(exact@ =~= text@);
}

/// A chip at rest is muted; a busy one pulses, and is nearly opaque where it does not.
pub proof fn a_busy_chip_pulses(pulse: u8, idle: Color32, busy: Color32, steady: Color32)
    requires
        call_ensures(chip_tint, (true, Some(pulse)), idle),
        call_ensures(chip_tint, (false, Some(pulse)), busy),
        call_ensures(chip_tint, (false, None::<u8>), steady),
    ensures
        idle == crate::colors::ui::label(true),
        busy.a == pulse,
        steady.a == 220,
{
}

/// A failure tells the first error where that is known.
pub proof fn failures_tell_the_first_error(e: &str, known: String, unknown: String)
    requires
        call_ensures(failure_hover, (Some(e),), known),
        call_ensures(failure_hover, (None::<&str>,), unknown),
    ensures
        known@ == "Some downloads failed ("@ + e@ + ") \u{2014} click to retry"@,
        unknown@ == "Some downloads failed \u{2014} click to retry"@,
{
}

/// Stages at work are lit, the others muted; each tells its count before its name.
pub proof fn stages_at_work_are_lit(
    dark: bool,
    count: u32,
    label: &str,
    lit: Color32,
    muted: Color32,
    s: String,
)
    requires
        call_ensures(stage_color, (true, dark), lit),
        call_ensures(stage_color, (false, dark), muted),
        call_ensures(stage_text, (count, label), s),
    ensures
        lit == crate::colors::ui::active(),
        muted == crate::colors::ui::label(dark),
        s@ == crate::text::decimal(count as nat) + " "@ + label@,
{
}

} // verus!
