//! The acquisition drawer: the download queue and its controls.

use crate::binary::{divide, double_of, push_double};
use crate::colors::{acquisition as acq_colors, Color32};
use crate::text::{push_decimal, round_div};
use vstd::prelude::*;
use vstd::string::*;

verus! {

/// Where an operation stands.
#[derive(Debug)]
pub enum OperationStatus {
    Active,
    Queued,
    Completed { duration_ms: u64, bytes: u64 },
    Failed { error: String },
    Cancelled,
}

/// An icon of the drawer.
#[derive(Clone, Copy, Debug, PartialEq, Eq, Structural)]
pub enum QueueIcon {
    Spinner,
    Clock,
    CheckCircle,
    XCircle,
    MinusCircle,
}

/// Icon and colour of a status.
pub open spec fn status_mark_of(status: OperationStatus) -> (QueueIcon, Color32) {
    match status {
        OperationStatus::Active => (QueueIcon::Spinner, crate::colors::acquisition::active()),
        OperationStatus::Queued => (QueueIcon::Clock, crate::colors::acquisition::queued()),
        OperationStatus::Completed { .. } => (
            QueueIcon::CheckCircle,
            crate::colors::acquisition::completed(),
        ),
        OperationStatus::Failed { .. } => (QueueIcon::XCircle, crate::colors::acquisition::failed()),
        OperationStatus::Cancelled => (
            QueueIcon::MinusCircle,
            crate::colors::acquisition::cancelled(),
        ),
    }
}

/// Icon and colour of a status.
pub fn status_mark(status: &OperationStatus) -> (r: (QueueIcon, Color32))
    ensures
        r == status_mark_of(*status),
{
    match status {
        OperationStatus::Active => (QueueIcon::Spinner, acq_colors::active()),
        OperationStatus::Queued => (QueueIcon::Clock, acq_colors::queued()),
        OperationStatus::Completed { .. } => (QueueIcon::CheckCircle, acq_colors::completed()),
        OperationStatus::Failed { .. } => (QueueIcon::XCircle, acq_colors::failed()),
        OperationStatus::Cancelled => (QueueIcon::MinusCircle, acq_colors::cancelled()),
    }
}

/// What the queue says of an operation; a completed one by its duration in
/// seconds and its bytes as they are written.
pub open spec fn status_line_of(status: OperationStatus, bytes_text: Seq<char>) -> Seq<char> {
    match status {
        OperationStatus::Active => "Downloading..."@,
        OperationStatus::Queued => "Queued"@,
        OperationStatus::Completed { duration_ms, .. } => crate::binary::double_text(
            crate::binary::double(duration_ms as int),
        ) + "s  "@ + bytes_text,
        OperationStatus::Failed { error } => error@,
        OperationStatus::Cancelled => "Cancelled"@,
    }
}

/// What the queue says of an operation.
pub fn status_line(status: &OperationStatus, bytes_text: &str) -> (s: String)
    ensures
        s@ == status_line_of(*status, bytes_text@),
{
    match status {
        OperationStatus::Active => "Downloading...".to_owned(),
        OperationStatus::Queued => "Queued".to_owned(),
        OperationStatus::Completed { duration_ms, .. } => {
            let mut s = String::new();
            push_double(&mut s, double_of(*duration_ms));
            s.append("s  ");
            s.append(bytes_text);
            assert(s@ =~= status_line_of(*status, bytes_text@));
            s
        },
        OperationStatus::Failed { error } => error.clone(),
        OperationStatus::Cancelled => "Cancelled".to_owned(),
    }
}

/// A button beside an operation.
#[derive(Clone, Copy, Debug, PartialEq, Eq, Structural)]
pub enum QueueButton {
    Cancel,
    MoveDown,
    MoveUp,
    Retry,
    Skip,
}

/// A command to the acquisition queue.
#[derive(Clone, Copy, Debug, PartialEq, Eq, Structural)]
pub enum QueueCommand {
    PauseQueue,
    ResumeQueue,
    CancelOperation(u64),
    ReorderOperation(u64, i32),
    RetryFailed(u64),
    SkipFailed(u64),
}

/// The buttons beside an operation, from the right: a queued one may be
/// cancelled or moved, a failed one retried or skipped.
pub open spec fn buttons_of(status: OperationStatus) -> Seq<QueueButton> {
    match status {
        OperationStatus::Queued => seq![
            QueueButton::Cancel,
            QueueButton::MoveDown,
            QueueButton::MoveUp,
        ],
        OperationStatus::Failed { .. } => seq![QueueButton::Retry, QueueButton::Skip],
        _ => seq![],
    }
}

/// The buttons beside an operation, from the right.
pub fn row_buttons(status: &OperationStatus) -> (r: Vec<QueueButton>)
    ensures
        r@ == buttons_of(*status),
{
    let mut r: Vec<QueueButton> = Vec::new();
    match status {
        OperationStatus::Queued => {
            r.push(QueueButton::Cancel);
            r.push(QueueButton::MoveDown);
            r.push(QueueButton::MoveUp);
        },
        OperationStatus::Failed { .. } => {
            r.push(QueueButton::Retry);
            r.push(QueueButton::Skip);
        },
        _ => {},
    }
    assert(r@ =~= buttons_of(*status));
    r
}

/// The command of a button.
pub open spec fn command_of(button: QueueButton, id: u64) -> QueueCommand {
    match button {
        QueueButton::Cancel => QueueCommand::CancelOperation(id),
        QueueButton::MoveDown => QueueCommand::ReorderOperation(id, 1),
        QueueButton::MoveUp => QueueCommand::ReorderOperation(id, (-1) as i32),
        QueueButton::Retry => QueueCommand::RetryFailed(id),
        QueueButton::Skip => QueueCommand::SkipFailed(id),
    }
}

/// The command of a button.
pub fn row_command(button: QueueButton, id: u64) -> (c: QueueCommand)
    ensures
        c == command_of(button, id),
{
    match button {
        QueueButton::Cancel => QueueCommand::CancelOperation(id),
        QueueButton::MoveDown => QueueCommand::ReorderOperation(id, 1),
        QueueButton::MoveUp => QueueCommand::ReorderOperation(id, -1),
        QueueButton::Retry => QueueCommand::RetryFailed(id),
        QueueButton::Skip => QueueCommand::SkipFailed(id),
    }
}

/// The order in which `n` operations are listed: the most recent first.
pub fn newest_first(n: usize) -> (r: Vec<usize>)
    ensures
        r@.len() == n,
        forall|k: int| 0 <= k < n ==> (#[trigger] r@[k]) == n - 1 - k,
{
    let mut r: Vec<usize> = Vec::new();
    let mut left: usize = n;
    while left > 0
        invariant
            left <= n,
            r@.len() == n - left,
            forall|k: int| 0 <= k < r@.len() ==> (#[trigger] r@[k]) == n - 1 - k,
        decreases left,
    {
        left -= 1;
        r.push(left);
    }
    r
}

/// How many latencies the chart shows.
pub const SPARKLINE_BARS: usize = 20;

/// The latencies that the chart shows: the last twenty.
pub open spec fn recent(all: Seq<u64>) -> Seq<u64> {
    if all.len() > SPARKLINE_BARS {
        all.skip(all.len() - SPARKLINE_BARS)
    } else {
        all
    }
}

/// The latencies that the chart shows, oldest first.
pub fn recent_latencies(all: &Vec<u64>) -> (r: Vec<u64>)
    ensures
        r@ == recent(all@),
{
    let start: usize = if all.len() > SPARKLINE_BARS {
        all.len() - SPARKLINE_BARS
    } else {
        0
    };
    let mut r: Vec<u64> = Vec::new();
    let mut i: usize = start;
    while i < all.len()
        invariant
            start <= i <= all@.len(),
            r@ == all@.subrange(start as int, i as int),
        decreases all@.len() - i,
    {
        r.push(all[i]);
        i += 1;
    }
    assert(r@ =~= all@.skip(start as int));
    assert(all@.skip(0) =~= all@);
    r
}

/// The highest of the shown latencies in microseconds, at least a
/// millisecond.
pub open spec fn chart_top(values: Seq<u64>) -> int
    decreases values.len(),
{
    if values.len() == 0 {
        1000
    } else {
        let before = chart_top(values.drop_last());
        if values.last() > before {
            values.last() as int
        } else {
            before
        }
    }
}

/// Which bars of the chart stand out: those above four fifths of the highest.
/// Latencies are in microseconds.
pub fn high_bars(values: &Vec<u64>) -> (r: Vec<bool>)
    ensures
        r@.len() == values@.len(),
        forall|i: int|
            0 <= i < values@.len() ==> (#[trigger] r@[i]) == (5 * values@[i] > 4 * chart_top(
                values@,
            )),
{
    let mut top: u64 = 1000;
    let mut i: usize = 0;
    while i < values.len()
        invariant
            i <= values@.len(),
            top == chart_top(values@.take(i as int)),
        decreases values@.len() - i,
    {
        assert(values@.take(i + 1).drop_last() =~= values@.take(i as int));
        if values[i] > top {
            top = values[i];
        }
        i += 1;
    }
    assert(values@.take(i as int) =~= values@);
    let mut r: Vec<bool> = Vec::new();
    let mut k: usize = 0;
    while k < values.len()
        invariant
            k <= values@.len(),
            top == chart_top(values@),
            r@.len() == k,
            forall|i: int|
                0 <= i < k ==> (#[trigger] r@[i]) == (5 * values@[i] > 4 * chart_top(values@)),
        decreases values@.len() - k,
    {
        r.push(5 * (values[k] as u128) > 4 * (top as u128));
        k += 1;
    }
    r
}

/// A tab of the drawer.
#[derive(Clone, Copy, Debug, PartialEq, Eq, Structural)]
pub enum DrawerTab {
    Queue,
    Network,
}

/// Whether the queue runs.
#[derive(Clone, Copy, Debug, PartialEq, Eq, Structural)]
pub enum QueueState {
    Running,
    Paused,
    ErrorPaused,
}

/// The control at the right of the drawer's tabs.
#[derive(Clone, Copy, Debug, PartialEq, Eq, Structural)]
pub enum DrawerControl {
    Resume,
    Pause,
    FullLog,
    Absent,
}

/// The control at the right of the drawer's tabs: the queue is resumed while
/// it is paused and paused while it works; the network tab leads to the log.
pub fn drawer_control(tab: DrawerTab, paused: bool, has_active: bool) -> (c: DrawerControl)
    ensures
        c == (match tab {
            DrawerTab::Network => DrawerControl::FullLog,
            DrawerTab::Queue => if paused {
                DrawerControl::Resume
            } else if has_active {
                DrawerControl::Pause
            } else {
                DrawerControl::Absent
            },
        }),
{
    match tab {
        DrawerTab::Network => DrawerControl::FullLog,
        DrawerTab::Queue => {
            if paused {
                DrawerControl::Resume
            } else if has_active {
                DrawerControl::Pause
            } else {
                DrawerControl::Absent
            }
        },
    }
}

/// The commands that the error banner offers, from the left; none while the
/// queue is not paused by an error.
pub open spec fn error_banner_of(state: QueueState, failed: Option<u64>) -> Seq<QueueCommand> {
    if state != QueueState::ErrorPaused {
        seq![]
    } else {
        match failed {
            Some(id) => seq![
                QueueCommand::RetryFailed(id),
                QueueCommand::SkipFailed(id),
                QueueCommand::ResumeQueue,
            ],
            None => seq![QueueCommand::ResumeQueue],
        }
    }
}

/// The commands that the error banner offers, from the left.
pub fn error_banner(state: QueueState, failed: Option<u64>) -> (r: Vec<QueueCommand>)
    ensures
        r@ == error_banner_of(state, failed),
{
    let mut r: Vec<QueueCommand> = Vec::new();
    match state {
        QueueState::ErrorPaused => {
            if let Some(id) = failed {
                r.push(QueueCommand::RetryFailed(id));
                r.push(QueueCommand::SkipFailed(id));
            }
            r.push(QueueCommand::ResumeQueue);
        },
        _ => {},
    }
    assert(r@ =~= error_banner_of(state, failed));
    r
}

/// How long the chunks of a stream take, in microseconds: to fetch on average
/// and at worst but for one in twenty, and from the radar to the screen.
#[derive(Clone, Copy, Debug)]
pub struct LatencySummary {
    pub avg_fetch_us: u64,
    pub p95_fetch_us: u64,
    pub avg_e2e_us: Option<u64>,
}

/// What the queue says of the chunks' latencies.
#[derive(Debug)]
pub struct LatencyView {
    pub fetch: String,
    pub e2e: Option<String>,
    /// The bars of the chart; none where there is no chart.
    pub bars: Vec<u64>,
}

impl LatencySummary {
    /// How long fetching takes, in whole milliseconds.
    pub open spec fn fetch_of(&self) -> Seq<char> {
        "avg "@ + crate::text::decimal(
            crate::text::rounded(self.avg_fetch_us as int, 1000) as nat,
        ) + "ms \u{b7} p95 "@ + crate::text::decimal(
            crate::text::rounded(self.p95_fetch_us as int, 1000) as nat,
        ) + "ms"@
    }

    /// How long it is from the radar to the screen, in tenths of a second.
    pub open spec fn e2e_of(&self) -> Option<Seq<char>> {
        match self.avg_e2e_us {
            Some(us) => Some(
                "\u{b7} e2e "@ + crate::binary::double_text(
                    crate::binary::divided(crate::binary::double(us as int), 1000),
                ) + "s"@,
            ),
            None => None,
        }
    }

    fn fetch_text(&self) -> (s: String)
        ensures
            s@ == self.fetch_of(),
    {
        let mut s = "avg ".to_owned();
        push_decimal(&mut s, round_div(self.avg_fetch_us, 1000));
        s.append("ms \u{b7} p95 ");
        push_decimal(&mut s, round_div(self.p95_fetch_us, 1000));
        s.append("ms");
        assert(s@ =~= self.fetch_of());
        s
    }

    fn e2e_text(&self) -> (r: Option<String>)
        ensures
            match r {
                Some(s) => Some(s@) == self.e2e_of(),
                None => self.e2e_of() is None,
            },
    {
        match self.avg_e2e_us {
            Some(us) => {
                let mut s = "\u{b7} e2e ".to_owned();
                push_double(&mut s, divide(double_of(us), 1000));
                s.append("s");
                assert(Some(s@) =~= self.e2e_of());
                Some(s)
            },
            None => None,
        }
    }
}

/// What the queue says of the chunks' latencies: nothing unless a stream runs
/// and some are known. A chart takes two of them at least.
pub fn latency_view(
    streaming: bool,
    summary: Option<LatencySummary>,
    latencies: &Vec<u64>,
) -> (r: Option<LatencyView>)
    ensures
        r is Some <==> streaming && summary is Some,
        r is Some ==> {
            &&& r->0.fetch@ == summary->0.fetch_of()
            &&& (match r->0.e2e {
                Some(s) => Some(s@),
                None => None,
            }) == summary->0.e2e_of()
            &&& r->0.bars@ == (if latencies@.len() >= 2 {
                recent(latencies@)
            } else {
                seq![]
            })
        },
{
    if !streaming {
        return None;
    }
    match summary {
        Some(s) => {
            let bars = if latencies.len() >= 2 {
                recent_latencies(latencies)
            } else {
                Vec::new()
            };
            Some(LatencyView { fetch: s.fetch_text(), e2e: s.e2e_text(), bars })
        },
        None => None,
    }
}

/// Each status has its own icon and colour.
pub proof fn statuses_have_their_own_marks(duration_ms: u64, bytes: u64, error: String)
    ensures
        status_mark_of(OperationStatus::Active) == (
            QueueIcon::Spinner,
            crate::colors::acquisition::active(),
        ),
        status_mark_of(OperationStatus::Queued) == (
            QueueIcon::Clock,
            crate::colors::acquisition::queued(),
        ),
        status_mark_of(OperationStatus::Completed { duration_ms, bytes }) == (
            QueueIcon::CheckCircle,
            crate::colors::acquisition::completed(),
        ),
        status_mark_of(OperationStatus::Failed { error }) == (
            QueueIcon::XCircle,
            crate::colors::acquisition::failed(),
        ),
        status_mark_of(OperationStatus::Cancelled) == (
            QueueIcon::MinusCircle,
            crate::colors::acquisition::cancelled(),
        ),
{
}

/// A finished download tells its tenths of seconds, to the nearest, and its size; a
/// failed one its error.
pub proof fn status_lines_tell_duration_size_or_error(
    duration_ms: u64,
    bytes: u64,
    error: String,
    bytes_text: Seq<char>,
)
    requires
        duration_ms < 0x8_0000_0000_0000,
    ensures
        exists|t: nat|
            status_line_of(OperationStatus::Completed { duration_ms, bytes }, bytes_text)
                == #[trigger] crate::text::tenths(t) + "s  "@ + bytes_text && duration_ms - 50
                <= 100 * t <= duration_ms + 50,
        status_line_of(OperationStatus::Failed { error }, bytes_text) == error@,
        status_line_of(OperationStatus::Active, bytes_text) == "Downloading..."@,
        status_line_of(OperationStatus::Queued, bytes_text) == "Queued"@,
        status_line_of(OperationStatus::Cancelled, bytes_text) == "Cancelled"@,
{
    crate::binary::the_nearest_tenth_is_shown(duration_ms as int);
    let t = choose|t: nat|
        crate::binary::double_text(crate::binary::double(duration_ms as int))
            == #[trigger] crate::text::tenths(t) && duration_ms - 50 <= 100 * t <= duration_ms + 50;
    assert(status_line_of(OperationStatus::Completed { duration_ms, bytes }, bytes_text)
        == crate::text::tenths(t) + "s  "@ + bytes_text);
}

/// Only what waits can be cancelled or moved, and only what failed be retried or
/// skipped.
pub proof fn buttons_follow_the_status(status: OperationStatus)
    ensures
        buttons_of(status).contains(QueueButton::Cancel) <==> status is Queued,
        buttons_of(status).contains(QueueButton::MoveDown) <==> status is Queued,
        buttons_of(status).contains(QueueButton::MoveUp) <==> status is Queued,
        buttons_of(status).contains(QueueButton::Retry) <==> status is Failed,
        buttons_of(status).contains(QueueButton::Skip) <==> status is Failed,
{
    let b = buttons_of(status);
    if status is Queued {
        assert(b[0] == QueueButton::Cancel);
        assert(b[1] == QueueButton::MoveDown);
        assert(b[2] == QueueButton::MoveUp);
    } else if status is Failed {
        assert(b[0] == QueueButton::Retry);
        assert(b[1] == QueueButton::Skip);
    }
}

/// Each button commands what it says of the very operation: down is one place later,
/// up one place earlier.
pub proof fn buttons_command_their_operation(id: u64)
    ensures
        command_of(QueueButton::Cancel, id) == QueueCommand::CancelOperation(id),
        command_of(QueueButton::Retry, id) == QueueCommand::RetryFailed(id),
        command_of(QueueButton::Skip, id) == QueueCommand::SkipFailed(id),
        match (command_of(QueueButton::MoveDown, id), command_of(QueueButton::MoveUp, id)) {
            (QueueCommand::ReorderOperation(a, down), QueueCommand::ReorderOperation(b, up)) => a
                == id && b == id && down > 0 && down + up == 0 && down == 1,
            _ => false,
        },
{
}

/// The latest twenty latencies are shown, in their order; fewer are shown whole.
pub proof fn the_latest_latencies_are_shown(all: Seq<u64>, i: int)
    ensures
        recent(all).len() <= 20 && recent(all).len() <= all.len(),
        all.len() >= 20 ==> recent(all).len() == 20,
        all.len() <= 20 ==> recent(all) == all,
        0 <= i < recent(all).len() ==> recent(all)[i] == all[all.len() - recent(all).len() + i],
{
}

/// The top of the chart is its highest value, and at least a second.
pub proof fn the_chart_reaches_its_highest_value(values: Seq<u64>)
    ensures
        chart_top(values) >= 1000,
        forall|i: int| 0 <= i < values.len() ==> #[trigger] values[i] <= chart_top(values),
        chart_top(values) > 1000 ==> exists|i: int|
            0 <= i < values.len() && #[trigger] values[i] == chart_top(values),
    decreases values.len(),
{
    if values.len() > 0 {
        let rest = values.drop_last();
        the_chart_reaches_its_highest_value(rest);
        assert forall|i: int| 0 <= i < values.len() implies #[trigger] values[i] <= chart_top(
            values,
        ) by {
            if i < rest.len() {
                assert(rest[i] == values[i]);
            }
        }
        if chart_top(values) > 1000 {
            if chart_top(values) == chart_top(rest) {
                let k = choose|k: int|
                    0 <= k < rest.len() && #[trigger] rest[k] == chart_top(rest);
                assert(values[k] == rest[k]);
            } else {
                assert(values[values.len() - 1] == chart_top(values));
            }
        }
    }
}

/// The banner stands while an error holds the queue up: it resumes the queue, and
/// before that offers to retry or skip what failed, where that is known.
pub proof fn the_banner_offers_a_way_on(state: QueueState, id: u64)
    ensures
        state != QueueState::ErrorPaused ==> error_banner_of(state, Some(id)).len() == 0
            && error_banner_of(state, None).len() == 0,
        error_banner_of(QueueState::ErrorPaused, None) == seq![QueueCommand::ResumeQueue],
        error_banner_of(QueueState::ErrorPaused, Some(id)) == seq![
            QueueCommand::RetryFailed(id),
            QueueCommand::SkipFailed(id),
            QueueCommand::ResumeQueue,
        ],
{
}

/// Latencies are told in milliseconds, to the nearest, the average before the
/// ninety-fifth percentile; the way end to end in tenths of seconds.
pub proof fn latencies_are_told_average_first(s: LatencySummary)
    ensures
        exists|avg: nat, p95: nat|
            {
                &&& s.fetch_of() == "avg "@ + #[trigger] crate::text::decimal(avg)
                    + "ms \u{b7} p95 "@ + #[trigger] crate::text::decimal(p95) + "ms"@
                &&& s.avg_fetch_us - 500 <= 1000 * avg <= s.avg_fetch_us + 500
                &&& s.p95_fetch_us - 500 <= 1000 * p95 <= s.p95_fetch_us + 500
            },
        s.avg_e2e_us is None ==> s.e2e_of() is None,
        s.avg_e2e_us is Some && s.avg_e2e_us->0 < 0x2_0000_0000_0000 ==> exists|t: nat|
            s.e2e_of() == Some("\u{b7} e2e "@ + #[trigger] crate::text::tenths(t) + "s"@)
                && s.avg_e2e_us->0 - 50_000 <= 100_000 * t <= s.avg_e2e_us->0 + 50_000,
{
    crate::text::rounding_is_to_the_nearest(s.avg_fetch_us as int, 1000);
    crate::text::rounding_is_to_the_nearest(s.p95_fetch_us as int, 1000);
    let avg = crate::text::rounded(s.avg_fetch_us as int, 1000) as nat;
    let p95 = crate::text::rounded(s.p95_fetch_us as int, 1000) as nat;
    assert(s.fetch_of() == "avg "@ + crate::text::decimal(avg) + "ms \u{b7} p95 "@
        + crate::text::decimal(p95) + "ms"@);
    if s.avg_e2e_us is Some && s.avg_e2e_us->0 < 0x2_0000_0000_0000 {
        let us = s.avg_e2e_us->0 as int;
        crate::binary::the_nearest_tenth_of_a_share_is_shown(us, 1000);
        let t = choose|t: nat|
            crate::binary::double_text(crate::binary::divided(crate::binary::double(us), 1000))
                == #[trigger] crate::text::tenths(t) && us - 50 * 1000 <= 100 * 1000 * t <= us + 50
                * 1000;
        assert(s.e2e_of() == Some("\u{b7} e2e "@ + crate::text::tenths(t) + "s"@));
    }
}

/// The queue can be resumed while it is paused and paused while it works; the log of
/// the network has its own control.
pub proof fn the_drawer_controls_its_tab(
    has_active: bool,
    paused: DrawerControl,
    working: DrawerControl,
    resting: DrawerControl,
    network: DrawerControl,
)
    requires
        call_ensures(drawer_control, (DrawerTab::Queue, true, has_active), paused),
        call_ensures(drawer_control, (DrawerTab::Queue, false, true), working),
        call_ensures(drawer_control, (DrawerTab::Queue, false, false), resting),
        call_ensures(drawer_control, (DrawerTab::Network, true, has_active), network),
    ensures
        paused == DrawerControl::Resume,
        working == DrawerControl::Pause,
        resting == DrawerControl::Absent,
        network == DrawerControl::FullLog,
{
}

/// A bar is high above four fifths of the chart.
pub proof fn bars_are_high_above_four_fifths(values: &Vec<u64>, r: Vec<bool>, i: int)
    requires
        call_ensures(high_bars, (values,), r),
        0 <= i < values@.len(),
    ensures
        r@.len() == values@.len(),
        r@[i] <==> 10 * values@[i] > 8 * chart_top(values@),
        values@[i] <= 800 ==> !r@[i],
{
    the_chart_reaches_its_highest_value(values@);
}

/// The newest operation is listed first and the oldest last, none twice.
pub proof fn the_newest_operation_comes_first(n: usize, r: Vec<usize>, i: int, j: int)
    requires
        call_ensures(newest_first, (n,), r),
        0 <= i < j < n,
    ensures
        r@.len() == n,
        r@[0] == n - 1,
        r@[n - 1] == 0,
        r@[j] < r@[i] < n,
{
}

/// Latencies are shown while streaming, once they are summed up; the bars once there
/// are two of them.
pub proof fn latencies_are_shown_while_streaming(
    summary: LatencySummary,
    latencies: &Vec<u64>,
    runs: Option<LatencyView>,
    rests: Option<LatencyView>,
    early: Option<LatencyView>,
)
    requires
        call_ensures(latency_view, (true, Some(summary), latencies), runs),
        call_ensures(latency_view, (false, Some(summary), latencies), rests),
        call_ensures(latency_view, (true, None::<LatencySummary>, latencies), early),
    ensures
        rests is None && early is None,
        runs is Some,
        runs->0.fetch@ == summary.fetch_of(),
        latencies@.len() < 2 ==> runs->0.bars@.len() == 0,
        latencies@.len() >= 2 ==> runs->0.bars@ == recent(latencies@),
        runs->0.e2e is Some <==> summary.avg_e2e_us is Some,
{
}

} // verus!
