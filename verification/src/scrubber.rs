//! The compact track along which a touch moves the playhead.
//!
//! Times are in milliseconds from the epoch, distances along the track in
//! thousandths of a point.

use crate::live::{Live, StreamEffect};
use crate::playback::PlaybackState;
use vstd::prelude::*;

verus! {

/// A span of time.
#[derive(Clone, Copy, Debug, PartialEq, Eq, Structural)]
pub struct TimeSpan {
    pub start_ms: i64,
    pub end_ms: i64,
}

/// Half of the track's span where there is no data to show.
pub const EMPTY_HALF_SPAN_MS: i64 = 1_800_000;

/// The spans that the track has to show: that of the data at hand, and those of
/// the archive's listing.
pub open spec fn all_spans(cached: Option<TimeSpan>, listed: Seq<TimeSpan>) -> Seq<TimeSpan> {
    match cached {
        Some(c) => seq![c] + listed,
        None => listed,
    }
}

/// Whether a span starts with the earliest of some spans and ends with the
/// latest.
pub open spec fn is_hull(h: TimeSpan, spans: Seq<TimeSpan>) -> bool {
    &&& forall|i: int|
        0 <= i < spans.len() ==> h.start_ms <= (#[trigger] spans[i]).start_ms && spans[i].end_ms
            <= h.end_ms
    &&& exists|i: int| 0 <= i < spans.len() && (#[trigger] spans[i]).start_ms == h.start_ms
    &&& exists|i: int| 0 <= i < spans.len() && (#[trigger] spans[i]).end_ms == h.end_ms
}

/// Whether `r` is the whole span of the data at hand and the archive's listing.
pub open spec fn is_data_range(
    r: Option<TimeSpan>,
    cached: Option<TimeSpan>,
    listed: Seq<TimeSpan>,
) -> bool {
    match r {
        Some(h) => is_hull(h, all_spans(cached, listed)),
        None => all_spans(cached, listed).len() == 0,
    }
}

/// The whole span of the data at hand and the archive's listing.
pub fn data_range(cached: Option<TimeSpan>, listed: &Vec<TimeSpan>) -> (r: Option<TimeSpan>)
    ensures
        is_data_range(r, cached, listed@),
{
    let mut r: Option<TimeSpan> = cached;
    let mut i: usize = 0;
    proof {
        let spans = all_spans(cached, listed@.take(0));
        if let Some(c) = cached {
            assert(spans =~= seq![c]);
            assert(spans[0] == c);
        } else {
            assert(spans =~= seq![]);
        }
    }
    while i < listed.len()
        invariant
            i <= listed@.len(),
            is_data_range(r, cached, listed@.take(i as int)),
        decreases listed@.len() - i,
    {
        let b = listed[i];
        let ghost before = all_spans(cached, listed@.take(i as int));
        let ghost after = all_spans(cached, listed@.take(i + 1));
        let ghost was = r;
        proof {
            assert(after =~= before.push(b));
            assert(after[before.len() as int] == b);
        }
        r = match r {
            Some(h) => Some(
                TimeSpan {
                    start_ms: if b.start_ms < h.start_ms {
                        b.start_ms
                    } else {
                        h.start_ms
                    },
                    end_ms: if b.end_ms > h.end_ms {
                        b.end_ms
                    } else {
                        h.end_ms
                    },
                },
            ),
            None => Some(b),
        };
        proof {
            if let Some(h) = was {
                let k = choose|k: int| 0 <= k < before.len() && (#[trigger] before[k]).start_ms
                    == h.start_ms;
                let m = choose|m: int| 0 <= m < before.len() && (#[trigger] before[m]).end_ms
                    == h.end_ms;
                assert(after[k] == before[k] && after[m] == before[m]);
            }
            assert(forall|j: int| 0 <= j < before.len() ==> #[trigger] after[j] == before[j]);
        }
        i += 1;
    }
    assert(listed@.take(listed@.len() as int) =~= listed@);
    r
}

/// There is only one such span.
pub proof fn data_range_is_unique(
    a: Option<TimeSpan>,
    b: Option<TimeSpan>,
    cached: Option<TimeSpan>,
    listed: Seq<TimeSpan>,
)
    requires
        is_data_range(a, cached, listed),
        is_data_range(b, cached, listed),
    ensures
        a == b,
{
}

/// The span of the track: that of the data, drawn out to the present while a
/// stream runs; an hour around the present where that leaves no extent.
pub open spec fn track_of(data: Option<TimeSpan>, streaming: bool, now_ms: int) -> (int, int) {
    match data {
        Some(d) => {
            let end = if streaming && now_ms > d.end_ms {
                now_ms
            } else {
                d.end_ms as int
            };
            if end > d.start_ms {
                (d.start_ms as int, end)
            } else {
                (now_ms - EMPTY_HALF_SPAN_MS, now_ms + EMPTY_HALF_SPAN_MS)
            }
        },
        None => (now_ms - EMPTY_HALF_SPAN_MS, now_ms + EMPTY_HALF_SPAN_MS),
    }
}

/// The span of the track. It is never empty.
pub fn track_span(data: Option<TimeSpan>, streaming: bool, now_ms: i64) -> (t: TimeSpan)
    requires
        i64::MIN + EMPTY_HALF_SPAN_MS <= now_ms <= i64::MAX - EMPTY_HALF_SPAN_MS,
    ensures
        (t.start_ms as int, t.end_ms as int) == track_of(data, streaming, now_ms as int),
        t.start_ms < t.end_ms,
{
    if let Some(d) = data {
        let end_ms: i64 = if streaming && now_ms > d.end_ms {
            now_ms
        } else {
            d.end_ms
        };
        if end_ms > d.start_ms {
            return TimeSpan { start_ms: d.start_ms, end_ms };
        }
    }
    TimeSpan { start_ms: now_ms - EMPTY_HALF_SPAN_MS, end_ms: now_ms + EMPTY_HALF_SPAN_MS }
}

/// While a stream runs over data that lies in the past, the present is on the
/// track.
pub proof fn a_running_stream_reaches_the_present(data: TimeSpan, now_ms: int)
    requires
        data.start_ms < now_ms,
    ensures
        ({
            let (start, end) = track_of(Some(data), true, now_ms);
            start <= now_ms <= end
        }),
{
}

/// Whether the marker of the present is shown.
pub fn now_marker(t: TimeSpan, streaming: bool, now_ms: i64) -> (b: bool)
    ensures
        b == (streaming && t.start_ms <= now_ms <= t.end_ms),
{
    streaming && now_ms >= t.start_ms && now_ms <= t.end_ms
}

/// Where an instant stands on a track of a width; one beyond an end stands at
/// that end.
pub open spec fn offset_of(t: TimeSpan, ts_ms: int, width: int) -> int {
    (crate::modal_states::clamped(ts_ms, t.start_ms as int, t.end_ms as int) - t.start_ms) * width
        / (t.end_ms - t.start_ms)
}

/// The instant at a distance along a track of a width; one beyond an end is that
/// end.
pub open spec fn time_of(t: TimeSpan, offset: int, width: int) -> int {
    t.start_ms + crate::modal_states::clamped(offset, 0, width) * (t.end_ms - t.start_ms) / width
}

proof fn lemma_share(part: int, whole: int, scale: int)
    requires
        0 <= part <= whole,
        0 < whole <= u64::MAX,
        0 <= scale <= u64::MAX,
    ensures
        0 <= part * scale <= u64::MAX * u64::MAX,
        0 <= part * scale / whole <= scale,
        part == 0 ==> part * scale / whole == 0,
        part == whole ==> part * scale / whole == scale,
{
    assert(0 <= part * scale <= whole * scale && whole * scale <= u64::MAX * u64::MAX)
        by (nonlinear_arith)
        requires
            0 <= part <= whole <= u64::MAX,
            0 <= scale <= u64::MAX,
    ;
    vstd::arithmetic::div_mod::lemma_div_is_ordered(part * scale, whole * scale, whole);
    vstd::arithmetic::div_mod::lemma_div_multiples_vanish(scale, whole);
    vstd::arithmetic::mul::lemma_mul_is_commutative(whole, scale);
    vstd::arithmetic::div_mod::lemma_div_pos_is_pos(part * scale, whole);
}

/// Where an instant stands on a track of a width.
pub fn offset_at(t: TimeSpan, ts_ms: i64, width: u32) -> (x: u32)
    requires
        t.start_ms < t.end_ms,
    ensures
        x == offset_of(t, ts_ms as int, width as int),
        x <= width,
{
    let ts: i128 = if ts_ms < t.start_ms {
        t.start_ms as i128
    } else if ts_ms > t.end_ms {
        t.end_ms as i128
    } else {
        ts_ms as i128
    };
    let part: u128 = (ts - t.start_ms as i128) as u128;
    let whole: u128 = (t.end_ms as i128 - t.start_ms as i128) as u128;
    proof {
        lemma_share(part as int, whole as int, width as int);
    }
    let x: u128 = part * (width as u128) / whole;
    x as u32
}

/// The instant at a distance along a track of a width.
pub fn time_at(t: TimeSpan, offset: i64, width: u32) -> (ts_ms: i64)
    requires
        t.start_ms < t.end_ms,
        width > 0,
    ensures
        ts_ms == time_of(t, offset as int, width as int),
        t.start_ms <= ts_ms <= t.end_ms,
{
    let part: u128 = if offset < 0 {
        0
    } else if offset > width as i64 {
        width as u128
    } else {
        offset as u128
    };
    let whole: u128 = (t.end_ms as i128 - t.start_ms as i128) as u128;
    proof {
        lemma_share(part as int, width as int, whole as int);
    }
    let d: u128 = part * whole / (width as u128);
    (t.start_ms as i128 + d as i128) as i64
}

/// The track's ends are the ends of its span, both ways.
pub proof fn track_ends_meet(t: TimeSpan, width: int)
    requires
        t.start_ms < t.end_ms,
        0 < width <= u32::MAX,
    ensures
        time_of(t, 0, width) == t.start_ms,
        time_of(t, width, width) == t.end_ms,
        offset_of(t, t.start_ms as int, width) == 0,
        offset_of(t, t.end_ms as int, width) == width,
{
    let whole = t.end_ms - t.start_ms;
    lemma_share(0, width, whole);
    lemma_share(width, width, whole);
    lemma_share(0, whole, width);
    lemma_share(whole, whole, width);
}

/// Farther along the track is later.
pub proof fn track_runs_forward(t: TimeSpan, near: int, far: int, width: int)
    requires
        t.start_ms < t.end_ms,
        0 < width,
        near <= far,
    ensures
        time_of(t, near, width) <= time_of(t, far, width),
{
    let whole = t.end_ms - t.start_ms;
    let a = crate::modal_states::clamped(near, 0, width);
    let b = crate::modal_states::clamped(far, 0, width);
    assert(a * whole <= b * whole) by (nonlinear_arith)
        requires
            a <= b,
            whole > 0,
    ;
    vstd::arithmetic::div_mod::lemma_div_is_ordered(a * whole, b * whole, width);
}

/// The listed spans that are drawn as available: those that no data at hand
/// covers.
pub fn available_spans(covered: &Vec<bool>) -> (r: Vec<usize>)
    ensures
        crate::select::selects(r@, covered@.len() as int, |i: int| !covered@[i]),
{
    let mut r: Vec<usize> = Vec::new();
    let mut i: usize = 0;
    let ghost keep = |i: int| !covered@[i];
    while i < covered.len()
        invariant
            i <= covered@.len(),
            keep == (|i: int| !covered@[i]),
            crate::select::selects(r@, i as int, keep),
        decreases covered@.len() - i,
    {
        proof {
            crate::select::lemma_select_step(r@, i, keep);
        }
        if !covered[i] {
            r.push(i);
        }
        i += 1;
    }
    r
}

/// What a frame brings to the track.
#[derive(Clone, Copy, Debug)]
pub struct ScrubInput {
    /// Whether a long press was recognized, and on which scan.
    pub long_pressed: bool,
    pub pressed_scan: Option<i64>,
    /// The instant under the pointer, where it touches the track.
    pub pointer_ms: Option<i64>,
    pub dragged: bool,
    pub clicked: bool,
    /// Whether the pointer is where the pill for rejoining stands.
    pub on_pill: bool,
}

/// What a frame does with the track.
#[derive(Clone, Copy, Debug, PartialEq, Eq)]
pub enum ScrubEffect {
    Nothing,
    /// The inspector opens on a scan.
    OpenInspector(i64),
    ReturnToLive,
    /// The playhead moved; says what is left to do about the stream.
    Sought(StreamEffect),
}

/// What a frame does with the track: a long press opens the inspector and
/// nothing else; a tap on the pill, which stands while the playhead is away from
/// a running stream, rejoins it; another tap or a drag moves the playhead.
pub open spec fn scrub_effect(
    input: ScrubInput,
    live: Live,
    playback: PlaybackState,
    pause_stream: bool,
) -> ScrubEffect {
    let detached = live.mode_state.is_active() && !playback.is_tethered();
    if input.long_pressed {
        match input.pressed_scan {
            Some(s) => ScrubEffect::OpenInspector(s),
            None => ScrubEffect::Nothing,
        }
    } else if input.pointer_ms is None || !(input.dragged || input.clicked) {
        ScrubEffect::Nothing
    } else if input.clicked && detached && input.on_pill {
        ScrubEffect::ReturnToLive
    } else {
        ScrubEffect::Sought(Live::detach_effect(live.mode_state, pause_stream))
    }
}

/// Takes a frame in. A drag pauses playback, so that the playhead stays where it
/// is put.
pub fn scrub(
    input: ScrubInput,
    live: &mut Live,
    playback: &mut PlaybackState,
    now_ms: i64,
    pause_stream: bool,
) -> (r: ScrubEffect)
    ensures
        r == scrub_effect(input, *old(live), *old(playback), pause_stream),
        r is Sought ==> {
            &&& *final(playback) == (PlaybackState {
                time_model: crate::playback::TimeModel::Free,
                playing: old(playback).playing && !input.dragged,
                position_ms: input.pointer_ms->0,
                ..*old(playback)
            })
            &&& final(live).mode_state == Live::after_detach(
                old(live).mode_state,
                now_ms,
                pause_stream,
            )
        },
        !(r is Sought) ==> *final(playback) == *old(playback) && final(live).mode_state == old(
            live,
        ).mode_state,
        final(live).app_mode == old(live).app_mode,
        final(live).frame_projection == old(live).frame_projection,
        final(live).expected_sweep == old(live).expected_sweep,
{
    if input.long_pressed {
        match input.pressed_scan {
            Some(s) => ScrubEffect::OpenInspector(s),
            None => ScrubEffect::Nothing,
        }
    } else if !(input.dragged || input.clicked) {
        ScrubEffect::Nothing
    } else if let Some(ts) = input.pointer_ms {
        if input.clicked && input.on_pill && live.is_detached(playback) {
            ScrubEffect::ReturnToLive
        } else {
            let effect = live.detach_playhead(playback, now_ms, pause_stream);
            if input.dragged {
                playback.playing = false;
            }
            playback.position_ms = ts;
            ScrubEffect::Sought(effect)
        }
    } else {
        ScrubEffect::Nothing
    }
}

/// What is cached and what is listed both count as data.
pub proof fn cached_and_listed_data_both_count(
    cached: Option<TimeSpan>,
    listed: Seq<TimeSpan>,
    i: int,
)
    requires
        0 <= i < listed.len(),
    ensures
        all_spans(cached, listed).contains(listed[i]),
        cached is Some ==> all_spans(cached, listed).contains(cached->0),
        all_spans(cached, listed).len() == listed.len() + (if cached is Some {
            1int
        } else {
            0
        }),
{
    if cached is Some {
        assert(all_spans(cached, listed)[0] == cached->0);
        assert(all_spans(cached, listed)[i + 1] == listed[i]);
    } else {
        assert(all_spans(cached, listed)[i] == listed[i]);
    }
}

/// The range of the data holds every span of it, and begins and ends with one.
pub proof fn the_range_holds_all_data(
    r: TimeSpan,
    cached: Option<TimeSpan>,
    listed: Seq<TimeSpan>,
    i: int,
)
    requires
        is_data_range(Some(r), cached, listed),
        0 <= i < listed.len(),
    ensures
        r.start_ms <= listed[i].start_ms,
        listed[i].end_ms <= r.end_ms,
        cached is Some ==> r.start_ms <= cached->0.start_ms && cached->0.end_ms <= r.end_ms,
        listed.len() == 1 && cached is None ==> r == listed[0],
{
    cached_and_listed_data_both_count(cached, listed, i);
    let spans = all_spans(cached, listed);
    if cached is Some {
        assert(spans[0] == cached->0);
        assert(spans[i + 1] == listed[i]);
    } else {
        assert(spans[i] == listed[i]);
    }
}

/// Without a stream the track is the range of the data; a stream extends it to the
/// present, never shortens it; and without data, or with data of no length, it is the
/// hour around the present.
pub proof fn the_track_spans_the_data(data: TimeSpan, now_ms: int)
    ensures
        data.start_ms < data.end_ms ==> track_of(Some(data), false, now_ms) == (
            data.start_ms as int,
            data.end_ms as int,
        ),
        data.start_ms < data.end_ms && now_ms <= data.end_ms ==> track_of(Some(data), true, now_ms)
            == (data.start_ms as int, data.end_ms as int),
        data.start_ms < now_ms && data.end_ms < now_ms ==> track_of(Some(data), true, now_ms) == (
            data.start_ms as int,
            now_ms,
        ),
        data.end_ms <= data.start_ms ==> track_of(Some(data), false, now_ms) == (
            now_ms - 1_800_000,
            now_ms + 1_800_000,
        ),
        track_of(None, true, now_ms) == (now_ms - 1_800_000, now_ms + 1_800_000),
        track_of(None, false, now_ms) == (now_ms - 1_800_000, now_ms + 1_800_000),
{
}

/// A time stands on the track at the share of its width that has passed by then, and
/// a time off the track at its nearer end.
pub proof fn times_stand_in_proportion(t: TimeSpan, ts_ms: int, width: int)
    requires
        t.start_ms < t.end_ms,
        0 <= width <= u32::MAX,
    ensures
        t.start_ms <= ts_ms <= t.end_ms ==> offset_of(t, ts_ms, width) * (t.end_ms - t.start_ms)
            <= (ts_ms - t.start_ms) * width < (offset_of(t, ts_ms, width) + 1) * (t.end_ms
            - t.start_ms),
        ts_ms <= t.start_ms ==> offset_of(t, ts_ms, width) == 0,
        ts_ms >= t.end_ms ==> offset_of(t, ts_ms, width) == width,
{
    let d = t.end_ms - t.start_ms;
    if t.start_ms <= ts_ms <= t.end_ms {
        let n = (ts_ms - t.start_ms) * width;
        let q = n / d;
        vstd::arithmetic::div_mod::lemma_fundamental_div_mod(n, d);
        assert(q * d == d * q && (q + 1) * d == d * q + d) by (nonlinear_arith);
    }
    lemma_share(0, d, width);
    lemma_share(d, d, width);
}

/// A place on the track stands for the time at its share of the span, and a place
/// off the track for the time at its nearer end.
pub proof fn places_stand_in_proportion(t: TimeSpan, offset: int, width: int)
    requires
        t.start_ms < t.end_ms,
        0 < width <= u32::MAX,
    ensures
        0 <= offset <= width ==> (time_of(t, offset, width) - t.start_ms) * width <= offset * (
        t.end_ms - t.start_ms) < (time_of(t, offset, width) - t.start_ms + 1) * width,
        offset <= 0 ==> time_of(t, offset, width) == t.start_ms,
        offset >= width ==> time_of(t, offset, width) == t.end_ms,
{
    let d = t.end_ms - t.start_ms;
    if 0 <= offset <= width {
        let n = offset * d;
        let q = n / width;
        vstd::arithmetic::div_mod::lemma_fundamental_div_mod(n, width);
        assert(q * width == width * q && (q + 1) * width == width * q + width) by (nonlinear_arith);
    }
    lemma_share(0, width, d);
    lemma_share(width, width, d);
}

/// A long press opens the scan under it and does nothing else; without a pointer on
/// the track nothing happens.
pub proof fn a_long_press_only_opens_the_scan(
    input: ScrubInput,
    live: Live,
    playback: PlaybackState,
    pause_stream: bool,
)
    ensures
        input.long_pressed && input.pressed_scan is Some ==> scrub_effect(
            input,
            live,
            playback,
            pause_stream,
        ) == ScrubEffect::OpenInspector(input.pressed_scan->0),
        input.long_pressed && input.pressed_scan is None ==> scrub_effect(
            input,
            live,
            playback,
            pause_stream,
        ) == ScrubEffect::Nothing,
        !input.long_pressed && input.pointer_ms is None ==> scrub_effect(
            input,
            live,
            playback,
            pause_stream,
        ) == ScrubEffect::Nothing,
        !input.long_pressed && !input.dragged && !input.clicked ==> scrub_effect(
            input,
            live,
            playback,
            pause_stream,
        ) == ScrubEffect::Nothing,
{
}

/// A click on the pill of a detached stream returns to it; every other drag or click
/// on the track seeks.
pub proof fn the_pill_returns_to_live(
    input: ScrubInput,
    live: Live,
    playback: PlaybackState,
    pause_stream: bool,
)
    requires
        !input.long_pressed,
        input.pointer_ms is Some,
        input.dragged || input.clicked,
    ensures
        scrub_effect(input, live, playback, pause_stream) == ScrubEffect::ReturnToLive
            <==> input.clicked && input.on_pill && live.mode_state.phase
            != crate::live::LivePhase::Idle && playback.time_model
            == crate::playback::TimeModel::Free,
        scrub_effect(input, live, playback, pause_stream) is ReturnToLive || scrub_effect(
            input,
            live,
            playback,
            pause_stream,
        ) is Sought,
{
}

/// A drag or a click on the track sets the free playhead where the pointer is; a drag
/// stops playback, a click does not. Anything else leaves the playhead alone.
pub proof fn seeking_sets_the_playhead(
    input: ScrubInput,
    live: &mut Live,
    playback: &mut PlaybackState,
    now_ms: i64,
    pause_stream: bool,
    r: ScrubEffect,
)
    requires
        call_ensures(scrub, (input, live, playback, now_ms, pause_stream), r),
    ensures
        r is Sought ==> {
            &&& input.pointer_ms == Some(final(playback).position_ms)
            &&& final(playback).time_model == crate::playback::TimeModel::Free
            &&& input.dragged ==> !final(playback).playing
            &&& !input.dragged ==> final(playback).playing == old(playback).playing
            &&& final(playback).selection == old(playback).selection
            &&& final(playback).speed_ms_per_sec == old(playback).speed_ms_per_sec
        },
        !(r is Sought) ==> *final(playback) == *old(playback) && final(live).mode_state == old(
            live,
        ).mode_state,
        input.long_pressed ==> !(r is Sought),
{
}

/// The present is marked on the track of a stream, where it lies on it.
pub proof fn a_stream_marks_the_present(t: TimeSpan, now_ms: i64, runs: bool, rests: bool)
    requires
        call_ensures(now_marker, (t, true, now_ms), runs),
        call_ensures(now_marker, (t, false, now_ms), rests),
    ensures
        runs <==> t.start_ms <= now_ms && now_ms <= t.end_ms,
        !rests,
{
}

/// Places and times of one track belong together: the time at a place stands there
/// again, at most a place before.
pub proof fn times_stand_where_they_were_picked(
    t: TimeSpan,
    offset: i64,
    width: u32,
    ts_ms: i64,
    x: u32,
)
    requires
        t.start_ms < t.end_ms,
        0 <= offset <= width,
        0 < width,
        width <= t.end_ms - t.start_ms,
        call_ensures(time_at, (t, offset, width), ts_ms),
        call_ensures(offset_at, (t, ts_ms, width), x),
    ensures
        x <= offset <= x + 1,
{
    let d = t.end_ms - t.start_ms;
    let w = width as int;
    let o = offset as int;
    let y = x as int;
    let u = ts_ms - t.start_ms;
    lemma_share(o, w, d);
    places_stand_in_proportion(t, o, w);
    times_stand_in_proportion(t, ts_ms as int, w);
    assert(y <= o) by (nonlinear_arith)
        requires
            y * d <= u * w,
            u * w <= o * d,
            d > 0,
    ;
    assert(o <= y + 1) by (nonlinear_arith)
        requires
            u * w < (y + 1) * d,
            o * d < (u + 1) * w,
            0 < w <= d,
    ;
}

/// Spans that are listed but not covered are available, in their order.
pub proof fn uncovered_spans_are_available(covered: &Vec<bool>, r: Vec<usize>, i: usize)
    requires
        call_ensures(available_spans, (covered,), r),
        i < covered@.len(),
    ensures
        r@.contains(i) <==> !covered@[i as int],
{
    let keep = |x: int| !covered@[x];
    assert(keep(i as int) == !covered@[i as int]);
    if r@.contains(i) {
        let x = choose|x: int| 0 <= x < r@.len() && r@[x] == i;
        assert(keep(r@[x] as int));
    }
}

} // verus!
