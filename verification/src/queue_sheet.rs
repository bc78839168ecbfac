//! The sheet of downloads: what is fetched, what waits, and what failed.

use crate::acquisition_drawer::{OperationStatus, QueueCommand};
use crate::activity::RowIcon;
use crate::binary::{double_of, push_double};
use crate::colors::{acquisition as acq_colors, Color32};
use crate::text::push_decimal;
use vstd::prelude::*;
use vstd::string::*;

verus! {

/// The sheet's heading.
pub fn counts_text(active: u64, queued: u64) -> (s: String)
    ensures
        s@ == crate::text::decimal(active as nat) + " downloading \u{b7} "@ + crate::text::decimal(
            queued as nat,
        ) + " queued"@,
{
    let mut s = String::new();
    push_decimal(&mut s, active);
    s.append(" downloading \u{b7} ");
    push_decimal(&mut s, queued);
    s.append(" queued");
    assert(s@ =~= crate::text::decimal(active as nat) + " downloading \u{b7} "@
        + crate::text::decimal(queued as nat) + " queued"@);
    s
}

/// What the sheet's button does to the queue: it resumes a paused one and pauses
/// one that works.
pub fn queue_toggle(paused: bool, has_active: bool) -> (r: Option<QueueCommand>)
    ensures
        r == (if paused {
            Some(QueueCommand::ResumeQueue)
        } else if has_active {
            Some(QueueCommand::PauseQueue)
        } else {
            None
        }),
{
    if paused {
        Some(QueueCommand::ResumeQueue)
    } else if has_active {
        Some(QueueCommand::PauseQueue)
    } else {
        None
    }
}

/// Whether `r` holds the places of the operations that are listed, the newest
/// first.
pub open spec fn is_newest_first_listing(r: Seq<usize>, listed: Seq<bool>) -> bool {
    &&& forall|i: int| 0 <= i < r.len() ==> (#[trigger] r[i]) < listed.len() && listed[r[i] as int]
    &&& forall|i: int, j: int| 0 <= i < j < r.len() ==> #[trigger] r[i] > #[trigger] r[j]
    &&& forall|k: usize| k < listed.len() && listed[k as int] ==> #[trigger] r.contains(k)
}

/// The operations that are listed, the newest first. `listed` says of each,
/// oldest first, whether it belongs in the list.
pub fn operation_list(listed: &Vec<bool>) -> (r: Vec<usize>)
    ensures
        is_newest_first_listing(r@, listed@),
{
    let mut r: Vec<usize> = Vec::new();
    let mut k: usize = listed.len();
    while k > 0
        invariant
            k <= listed@.len(),
            forall|i: int|
                0 <= i < r@.len() ==> k <= (#[trigger] r@[i]) < listed@.len()
                    && listed@[r@[i] as int],
            forall|i: int, j: int| 0 <= i < j < r@.len() ==> #[trigger] r@[i] > #[trigger] r@[j],
            forall|m: usize|
                k <= m < listed@.len() && listed@[m as int] ==> #[trigger] r@.contains(m),
        decreases k,
    {
        k -= 1;
        let ghost before = r@;
        if listed[k] {
            r.push(k);
        }
        proof {
            assert forall|m: usize| k <= m < listed@.len() && listed@[m as int] implies
                #[trigger] r@.contains(m) by {
                if m == k {
                    assert(r@[before.len() as int] == k);
                } else {
                    assert(before.contains(m));
                    let i = choose|i: int| 0 <= i < before.len() && before[i] == m;
                    assert(r@[i] == m);
                }
            }
        }
    }
    r
}

/// Icon and colour of an operation.
pub open spec fn operation_mark_of(status: OperationStatus) -> (RowIcon, Color32) {
    match status {
        OperationStatus::Active => (RowIcon::Spinner, crate::colors::acquisition::active()),
        OperationStatus::Queued => (RowIcon::Clock, crate::colors::acquisition::queued()),
        OperationStatus::Completed { .. } => (
            RowIcon::CheckCircle,
            crate::colors::acquisition::completed(),
        ),
        OperationStatus::Failed { .. } => (RowIcon::Warning, crate::colors::acquisition::failed()),
        OperationStatus::Cancelled => (
            RowIcon::MinusCircle,
            crate::colors::acquisition::cancelled(),
        ),
    }
}

/// Icon and colour of an operation.
pub fn operation_mark(status: &OperationStatus) -> (r: (RowIcon, Color32))
    ensures
        r == operation_mark_of(*status),
{
    match status {
        OperationStatus::Active => (RowIcon::Spinner, acq_colors::active()),
        OperationStatus::Queued => (RowIcon::Clock, acq_colors::queued()),
        OperationStatus::Completed { .. } => (RowIcon::CheckCircle, acq_colors::completed()),
        OperationStatus::Failed { .. } => (RowIcon::Warning, acq_colors::failed()),
        OperationStatus::Cancelled => (RowIcon::MinusCircle, acq_colors::cancelled()),
    }
}

/// The note at the end of an operation's row; a queued one has buttons alone.
pub open spec fn operation_note_of(status: OperationStatus) -> Option<Seq<char>> {
    match status {
        OperationStatus::Active => Some("downloading"@),
        OperationStatus::Queued => None,
        OperationStatus::Completed { duration_ms, .. } => Some(
            crate::binary::double_text(crate::binary::double(duration_ms as int)) + "s"@,
        ),
        OperationStatus::Failed { .. } => Some("failed"@),
        OperationStatus::Cancelled => Some("cancelled"@),
    }
}

/// The note at the end of an operation's row.
pub fn operation_note(status: &OperationStatus) -> (r: Option<String>)
    ensures
        (match r {
            Some(s) => Some(s@),
            None => None,
        }) == operation_note_of(*status),
{
    match status {
        OperationStatus::Active => Some("downloading".to_owned()),
        OperationStatus::Queued => None,
        OperationStatus::Completed { duration_ms, .. } => {
            let mut s = String::new();
            push_double(&mut s, double_of(*duration_ms));
            s.append("s");
            assert(s@ =~= operation_note_of(*status)->0);
            Some(s)
        },
        OperationStatus::Failed { .. } => Some("failed".to_owned()),
        OperationStatus::Cancelled => Some("cancelled".to_owned()),
    }
}

/// Whether an operation's size is an estimate: until it is completed.
pub fn size_is_estimated(status: &OperationStatus) -> (b: bool)
    ensures
        b == !(*status is Completed),
{
    match status {
        OperationStatus::Completed { .. } => false,
        _ => true,
    }
}

/// A listed operation stands in the list exactly once, before all older ones.
pub proof fn listed_operations_stand_newest_first(
    r: Seq<usize>,
    listed: Seq<bool>,
    k: usize,
    i: int,
    j: int,
)
    requires
        is_newest_first_listing(r, listed),
    ensures
        k < listed.len() && listed[k as int] ==> r.contains(k),
        k < listed.len() && !listed[k as int] ==> !r.contains(k),
        0 <= i < r.len() && 0 <= j < r.len() && r[i] > r[j] ==> i < j,
        0 <= i < r.len() && 0 <= j < r.len() && r[i] == r[j] ==> i == j,
{
}

/// The sheet marks a download as the activity sheet does.
pub proof fn both_sheets_mark_alike(position: u32, duration_ms: u64, bytes: u64, error: String)
    ensures
        operation_mark_of(OperationStatus::Active)
            == crate::activity::RowStatus::Downloading.mark_of(),
        operation_mark_of(OperationStatus::Queued) == (crate::activity::RowStatus::Queued {
            position,
        }).mark_of(),
        operation_mark_of(OperationStatus::Completed { duration_ms, bytes }) == (
        crate::activity::RowStatus::Completed { duration_ms }).mark_of(),
        operation_mark_of(OperationStatus::Failed { error }) == (
        crate::activity::RowStatus::Failed { error }).mark_of(),
        operation_mark_of(OperationStatus::Cancelled)
            == crate::activity::RowStatus::Cancelled.mark_of(),
{
}

/// It notes the same of it, but for what waits, of which it notes nothing.
pub proof fn both_sheets_note_alike(duration_ms: u64, bytes: u64, error: String)
    ensures
        operation_note_of(OperationStatus::Active) == Some(
            crate::activity::RowStatus::Downloading.note_of(),
        ),
        operation_note_of(OperationStatus::Queued) is None,
        operation_note_of(OperationStatus::Completed { duration_ms, bytes }) == Some(
            (crate::activity::RowStatus::Completed { duration_ms }).note_of(),
        ),
        operation_note_of(OperationStatus::Failed { error }) == Some(
            (crate::activity::RowStatus::Failed { error }).note_of(),
        ),
        operation_note_of(OperationStatus::Cancelled) == Some(
            crate::activity::RowStatus::Cancelled.note_of(),
        ),
{
}

/// A paused queue can be resumed, a working one paused, and a resting one neither.
pub proof fn the_queue_is_paused_or_resumed(
    has_active: bool,
    paused: Option<QueueCommand>,
    working: Option<QueueCommand>,
    resting: Option<QueueCommand>,
)
    requires
        call_ensures(queue_toggle, (true, has_active), paused),
        call_ensures(queue_toggle, (false, true), working),
        call_ensures(queue_toggle, (false, false), resting),
    ensures
        paused == Some(QueueCommand::ResumeQueue),
        working == Some(QueueCommand::PauseQueue),
        resting is None,
{
}

/// The sheet counts what downloads before what waits; a size is an estimate until the
/// download is complete.
pub proof fn the_sheet_counts_active_before_queued(
    active: u64,
    queued: u64,
    status: &OperationStatus,
    s: String,
    b: bool,
)
    requires
        call_ensures(counts_text, (active, queued), s),
        call_ensures(size_is_estimated, (status,), b),
    ensures
        s@ == crate::text::decimal(active as nat) + " downloading \u{b7} "@ + crate::text::decimal(
            queued as nat,
        ) + " queued"@,
        b <==> !(*status is Completed),
{
}

} // verus!
