//! Captured network requests: how they are grouped, summed up and shown.

use crate::colors::{from_rgb, Color32};
use crate::text::{
    byte_len, can_split, chars_of, decimal_text, find_after_last, find_first, push_decimal, round_div,
    skip_bytes, starts_with, string_of, take_bytes,
};
use vstd::prelude::*;
use vstd::string::*;

verus! {

/// A captured request. Durations are in microseconds, times in milliseconds
/// from the epoch.
#[derive(Debug)]
pub struct NetworkRequest {
    pub url: String,
    /// HTTP status; zero where there was no response.
    pub status: u16,
    pub ok: bool,
    pub bytes: u64,
    pub duration_us: u64,
    pub timestamp_ms: u64,
    /// The acquisition operation that it belongs to.
    pub operation_id: Option<u64>,
}

// ---- one request -------------------------------------------------------------

/// Colour of a status: red for failures, yellow for redirects, green
/// otherwise.
pub open spec fn status_color_of(status: u16, ok: bool) -> Color32 {
    if !ok || status == 0 || status >= 400 {
        crate::colors::rgb(255, 100, 100)
    } else if status >= 300 {
        crate::colors::rgb(255, 200, 80)
    } else {
        crate::colors::rgb(100, 200, 100)
    }
}

/// Colour of a status.
pub fn status_color(status: u16, ok: bool) -> (c: Color32)
    ensures
        c == status_color_of(status, ok),
{
    if !ok || status == 0 || status >= 400 {
        from_rgb(255, 100, 100)
    } else if status >= 300 {
        from_rgb(255, 200, 80)
    } else {
        from_rgb(100, 200, 100)
    }
}

/// Text of a status.
pub fn status_text(status: u16) -> (s: String)
    ensures
        s@ == (if status > 0 {
            crate::text::decimal(status as nat)
        } else {
            "ERR"@
        }),
{
    if status > 0 {
        crate::text::decimal_text(status as u64)
    } else {
        "ERR".to_owned()
    }
}

/// Text of a size: how it is written where anything was transferred, and
/// `absent` where not.
pub fn size_text(bytes: u64, written: &str, absent: &str) -> (s: String)
    ensures
        s@ == (if bytes > 0 {
            written@
        } else {
            absent@
        }),
{
    if bytes > 0 {
        written.to_owned()
    } else {
        absent.to_owned()
    }
}

/// Text of a duration, in whole milliseconds.
pub fn duration_text(duration_us: u64) -> (s: String)
    ensures
        s@ == crate::text::decimal(crate::text::rounded(duration_us as int, 1000) as nat) + "ms"@,
{
    let mut s = String::new();
    push_decimal(&mut s, round_div(duration_us, 1000));
    s.append("ms");
    assert(s@ =~= crate::text::decimal(crate::text::rounded(duration_us as int, 1000) as nat)
        + "ms"@);
    s
}

/// Length of the scheme at the front of a URL.
pub open spec fn scheme_len(url: Seq<char>) -> int {
    if crate::text::begins_with(url, "https://"@) {
        8
    } else if crate::text::begins_with(url, "http://"@) {
        7
    } else {
        0
    }
}

fn find_scheme(url: &Vec<char>) -> (n: usize)
    ensures
        n == scheme_len(url@),
        n <= url@.len(),
{
    proof {
        reveal_strlit("https://");
        reveal_strlit("http://");
    }
    if starts_with(url, "https://") {
        8
    } else if starts_with(url, "http://") {
        7
    } else {
        0
    }
}

/// The part of a schemeless URL before its first slash.
pub open spec fn host_of(s: Seq<char>) -> Seq<char> {
    s.take(crate::text::first_index(s, '/'))
}

/// The part of a schemeless URL behind its first slash.
pub open spec fn path_of(s: Seq<char>) -> Seq<char> {
    let i = crate::text::first_index(s, '/');
    if i < s.len() {
        s.skip(i + 1)
    } else {
        Seq::empty()
    }
}

/// The part of a path behind its last slash.
pub open spec fn last_segment(path: Seq<char>) -> Seq<char> {
    path.skip(crate::text::after_last(path, '/'))
}

fn split_host(v: &Vec<char>, from: usize) -> (r: (String, String))
    requires
        from <= v@.len(),
    ensures
        r.0@ == host_of(v@.skip(from as int)),
        r.1@ == path_of(v@.skip(from as int)),
{
    let rest = chars_of(string_of(v, from, v.len()).as_str());
    assert(rest@ =~= v@.skip(from as int));
    let i: usize = find_first(&rest, '/');
    let host = string_of(&rest, 0, i);
    assert(host@ =~= rest@.take(i as int));
    if i < rest.len() {
        let path = string_of(&rest, i + 1, rest.len());
        assert(path@ =~= rest@.skip(i + 1));
        (host, path)
    } else {
        (host, String::new())
    }
}

fn segment_of(path: &str) -> (s: String)
    ensures
        s@ == last_segment(path@),
{
    let v = chars_of(path);
    let i: usize = find_after_last(&v, '/');
    assert(v@.subrange(i as int, v@.len() as int) =~= v@.skip(i as int));
    string_of(&v, i, v.len())
}

/// A URL for the drawer: the last part of its path, or its host where there is
/// none; the end of it where that is long. Without a scheme, the end of a long
/// URL or all of a short one.
pub open spec fn compact_url(url: Seq<char>) -> Seq<char> {
    let n = scheme_len(url);
    if n > 0 {
        let rest = url.skip(n);
        let segment = last_segment(path_of(rest));
        let len = crate::text::bytes(segment).len() as int;
        if segment.len() == 0 {
            host_of(rest)
        } else if len > 35 {
            ".../"@ + crate::text::byte_suffix(segment, len - 30)
        } else {
            ".../"@ + segment
        }
    } else {
        let len = crate::text::bytes(url).len() as int;
        if len > 50 {
            "..."@ + crate::text::byte_suffix(url, len - 47)
        } else {
            url
        }
    }
}

/// Where `compact_url` cuts, it cuts between characters.
pub open spec fn compact_url_cuts(url: Seq<char>) -> bool {
    let n = scheme_len(url);
    let segment = last_segment(path_of(url.skip(n)));
    let segment_len = crate::text::bytes(segment).len() as int;
    let url_len = crate::text::bytes(url).len() as int;
    if n > 0 {
        segment_len > 35 ==> crate::text::splits_at(segment, segment_len - 30)
    } else {
        url_len > 50 ==> crate::text::splits_at(url, url_len - 47)
    }
}

/// Whether `shorten_url_compact` cuts a URL between characters.
pub fn can_shorten_url_compact(url: &str) -> (b: bool)
    ensures
        b == compact_url_cuts(url@),
{
    let v = chars_of(url);
    let n: usize = find_scheme(&v);
    if n > 0 {
        let (_host, path) = split_host(&v, n);
        let segment = segment_of(path.as_str());
        let len: usize = byte_len(segment.as_str());
        len <= 35 || can_split(segment.as_str(), len - 30)
    } else {
        let len: usize = byte_len(url);
        len <= 50 || can_split(url, len - 47)
    }
}

/// A URL for the drawer.
pub fn shorten_url_compact(url: &str) -> (s: String)
    requires
        compact_url_cuts(url@),
    ensures
        s@ == compact_url(url@),
{
    let v = chars_of(url);
    let n: usize = find_scheme(&v);
    if n > 0 {
        let (host, path) = split_host(&v, n);
        let segment = segment_of(path.as_str());
        if segment.as_str().is_empty() {
            return host;
        }
        let len: usize = byte_len(segment.as_str());
        let mut s = String::new();
        s.append(".../");
        if len > 35 {
            let tail = skip_bytes(segment.as_str(), len - 30);
            s.append(tail.as_str());
        } else {
            s.append(segment.as_str());
        }
        assert(s@ =~= compact_url(url@));
        s
    } else {
        let len: usize = byte_len(url);
        if len > 50 {
            let mut s = String::new();
            s.append("...");
            let tail = skip_bytes(url, len - 47);
            s.append(tail.as_str());
            assert(s@ =~= compact_url(url@));
            s
        } else {
            url.to_owned()
        }
    }
}

/// The most bytes of a URL that the log shows.
pub const MAX_URL: usize = 120;

/// A URL for the log, without its scheme: all of it up to 120 bytes; else the
/// host and the end of the path; else, where the host leaves no room or the path
/// is short, the first 40 and the last 77 bytes.
pub open spec fn log_url(url: Seq<char>) -> Seq<char> {
    let rest = url.skip(scheme_len(url));
    let len = crate::text::bytes(rest).len() as int;
    let host = host_of(rest);
    let path = path_of(rest);
    let room = MAX_URL - (crate::text::bytes(host).len() + 5);
    let path_len = crate::text::bytes(path).len() as int;
    if len <= MAX_URL {
        rest
    } else if room > 0 && path_len > room {
        host + "/.../"@ + crate::text::byte_suffix(path, path_len - room)
    } else {
        crate::text::byte_prefix(rest, 40) + "..."@ + crate::text::byte_suffix(rest, len - 77)
    }
}

/// Where `log_url` cuts, it cuts between characters.
pub open spec fn log_url_cuts(url: Seq<char>) -> bool {
    let rest = url.skip(scheme_len(url));
    let len = crate::text::bytes(rest).len() as int;
    let host = host_of(rest);
    let path = path_of(rest);
    let room = MAX_URL - (crate::text::bytes(host).len() + 5);
    let path_len = crate::text::bytes(path).len() as int;
    len <= MAX_URL || (if room > 0 && path_len > room {
        crate::text::splits_at(path, path_len - room)
    } else {
        crate::text::splits_at(rest, 40) && crate::text::splits_at(rest, len - 77)
    })
}

/// Whether `shorten_url` cuts a URL between characters.
pub fn can_shorten_url(url: &str) -> (b: bool)
    ensures
        b == log_url_cuts(url@),
{
    let v = chars_of(url);
    let n: usize = find_scheme(&v);
    let rest = string_of(&v, n, v.len());
    assert(rest@ =~= url@.skip(n as int));
    let len: usize = byte_len(rest.as_str());
    if len <= MAX_URL {
        return true;
    }
    let (host, path) = split_host(&v, n);
    let host_len: usize = byte_len(host.as_str());
    let path_len: usize = byte_len(path.as_str());
    if host_len < MAX_URL - 5 && path_len > MAX_URL - 5 - host_len {
        can_split(path.as_str(), path_len - (MAX_URL - 5 - host_len))
    } else {
        can_split(rest.as_str(), 40) && can_split(rest.as_str(), len - 77)
    }
}

/// A URL for the log.
pub fn shorten_url(url: &str) -> (s: String)
    requires
        log_url_cuts(url@),
    ensures
        s@ == log_url(url@),
{
    let v = chars_of(url);
    let n: usize = find_scheme(&v);
    let rest = string_of(&v, n, v.len());
    assert(rest@ =~= url@.skip(n as int));
    let len: usize = byte_len(rest.as_str());
    if len <= MAX_URL {
        return rest;
    }
    let (host, path) = split_host(&v, n);
    let host_len: usize = byte_len(host.as_str());
    let room: usize = if host_len < MAX_URL - 5 {
        MAX_URL - 5 - host_len
    } else {
        0
    };
    let path_len: usize = byte_len(path.as_str());
    if room > 0 && path_len > room {
        let mut s = host;
        s.append("/.../");
        let tail = skip_bytes(path.as_str(), path_len - room);
        s.append(tail.as_str());
        s
    } else {
        let mut s = take_bytes(rest.as_str(), 40);
        s.append("...");
        let tail = skip_bytes(rest.as_str(), len - 77);
        s.append(tail.as_str());
        s
    }
}

// ---- grouping ----------------------------------------------------------------

/// The requests of one operation, or those of none.
#[derive(Debug)]
pub struct RequestGroup {
    pub id: Option<u64>,
    /// Indices of its requests, in order.
    pub indices: Vec<usize>,
    pub bytes: u64,
    pub duration_us: u64,
}

/// The bytes of the requests of a group.
pub open spec fn group_bytes(reqs: Seq<NetworkRequest>, id: Option<u64>) -> int
    decreases reqs.len(),
{
    if reqs.len() == 0 {
        0
    } else {
        group_bytes(reqs.drop_last(), id) + if reqs.last().operation_id == id {
            reqs.last().bytes as int
        } else {
            0
        }
    }
}

/// How long the requests of a group took, taken together.
pub open spec fn group_duration(reqs: Seq<NetworkRequest>, id: Option<u64>) -> int
    decreases reqs.len(),
{
    if reqs.len() == 0 {
        0
    } else {
        group_duration(reqs.drop_last(), id) + if reqs.last().operation_id == id {
            reqs.last().duration_us as int
        } else {
            0
        }
    }
}

/// When the latest request of a group was made; zero for an empty group.
pub open spec fn latest_of(reqs: Seq<NetworkRequest>, id: Option<u64>) -> int
    decreases reqs.len(),
{
    if reqs.len() == 0 {
        0
    } else {
        let before = latest_of(reqs.drop_last(), id);
        if reqs.last().operation_id == id && reqs.last().timestamp_ms > before {
            reqs.last().timestamp_ms as int
        } else {
            before
        }
    }
}

/// The bytes of all requests.
pub open spec fn all_bytes(reqs: Seq<NetworkRequest>) -> int
    decreases reqs.len(),
{
    if reqs.len() == 0 {
        0
    } else {
        all_bytes(reqs.drop_last()) + reqs.last().bytes
    }
}

/// How long all requests took, taken together.
pub open spec fn all_durations(reqs: Seq<NetworkRequest>) -> int
    decreases reqs.len(),
{
    if reqs.len() == 0 {
        0
    } else {
        all_durations(reqs.drop_last()) + reqs.last().duration_us
    }
}

/// Whether a group may stand before another: operations before requests of
/// none, and among groups of a kind the one with the latest request first.
pub open spec fn may_precede(a: (Option<u64>, u64), b: (Option<u64>, u64)) -> bool {
    &&& a.0 is Some || b.0 is None
    &&& (a.0 is Some <==> b.0 is Some) ==> a.1 >= b.1
}

fn comes_before(a: &(Option<u64>, u64), b: &(Option<u64>, u64)) -> (r: bool)
    ensures
        r == may_precede(*a, *b),
{
    match (a.0, b.0) {
        (Some(_), None) => true,
        (None, Some(_)) => false,
        _ => a.1 >= b.1,
    }
}

/// Whether the groups are in order, each at its latest request.
pub open spec fn in_order(keys: Seq<(Option<u64>, u64)>) -> bool {
    forall|i: int, j: int| 0 <= i < j < keys.len() ==> may_precede(#[trigger] keys[i], #[trigger] keys[j])
}

/// Whether no group occurs twice.
pub open spec fn distinct_ids(keys: Seq<(Option<u64>, u64)>) -> bool {
    forall|i: int, j: int| 0 <= i < j < keys.len() ==> (#[trigger] keys[i]).0 != (#[trigger] keys[j]).0
}

pub open spec fn has_id(keys: Seq<(Option<u64>, u64)>, id: Option<u64>) -> bool {
    exists|i: int| 0 <= i < keys.len() && (#[trigger] keys[i]).0 == id
}

fn same_id(a: Option<u64>, b: Option<u64>) -> (r: bool)
    ensures
        r == (a == b),
{
    match (a, b) {
        (Some(x), Some(y)) => x == y,
        (None, None) => true,
        _ => false,
    }
}

fn latest_request(reqs: &Vec<NetworkRequest>, id: Option<u64>) -> (t: u64)
    ensures
        t == latest_of(reqs@, id),
{
    let mut t: u64 = 0;
    let mut i: usize = 0;
    while i < reqs.len()
        invariant
            i <= reqs@.len(),
            t == latest_of(reqs@.take(i as int), id),
        decreases reqs@.len() - i,
    {
        assert(reqs@.take(i + 1).drop_last() =~= reqs@.take(i as int));
        if same_id(reqs[i].operation_id, id) && reqs[i].timestamp_ms > t {
            t = reqs[i].timestamp_ms;
        }
        i += 1;
    }
    assert(reqs@.take(i as int) =~= reqs@);
    t
}

/// Puts one more group into its place.
fn insert_key(keys: &mut Vec<(Option<u64>, u64)>, key: (Option<u64>, u64))
    requires
        in_order(old(keys)@),
        distinct_ids(old(keys)@),
        !has_id(old(keys)@, key.0),
        old(keys)@.len() < usize::MAX,
    ensures
        in_order(final(keys)@),
        distinct_ids(final(keys)@),
        final(keys)@.len() == old(keys)@.len() + 1,
        forall|id: Option<u64>| #[trigger]
            has_id(final(keys)@, id) <==> id == key.0 || has_id(old(keys)@, id),
        forall|k: (Option<u64>, u64)| #[trigger]
            final(keys)@.contains(k) ==> k == key || old(keys)@.contains(k),
{
    let ghost before = keys@;
    let mut p: usize = 0;
    while p < keys.len() && comes_before(&keys[p], &key)
        invariant
            p <= keys@.len(),
            keys@ == before,
            forall|i: int| 0 <= i < p ==> may_precede(#[trigger] keys@[i], key),
        decreases keys@.len() - p,
    {
        p += 1;
    }
    keys.insert(p, key);
    proof {
        let after = keys@;
        assert(after[p as int] == key);
        assert forall|i: int| 0 <= i < after.len() implies (i < p ==> after[i] == before[i]) && (i
            > p ==> #[trigger] after[i] == before[i - 1]) by {}
        assert forall|i: int, j: int| 0 <= i < j < after.len() implies may_precede(
            #[trigger] after[i],
            #[trigger] after[j],
        ) by {
            if i == p {
                assert(after[j] == before[j - 1]);
                assert(!may_precede(before[p as int], key));
                if j - 1 > p {
                    assert(may_precede(before[p as int], before[j - 1]));
                }
            } else if j == p {
                assert(after[i] == before[i]);
            } else if i < p && j > p {
                assert(may_precede(before[i], before[j - 1]));
            }
        }
        assert forall|i: int, j: int| 0 <= i < j < after.len() implies (#[trigger] after[i]).0 != (
        #[trigger] after[j]).0 by {
            let a = if i < p {
                i
            } else {
                i - 1
            };
            let b = if j < p {
                j
            } else {
                j - 1
            };
            if i == p {
                assert(after[j] == before[b]);
                assert(before[b].0 != key.0);
            } else if j == p {
                assert(after[i] == before[a]);
                assert(before[a].0 != key.0);
            } else {
                assert(after[i] == before[a] && after[j] == before[b]);
                assert(a < b);
            }
        }
        assert forall|id: Option<u64>| #[trigger] has_id(after, id) <==> id == key.0 || has_id(
            before,
            id,
        ) by {
            if id == key.0 {
                assert(after[p as int].0 == id);
            }
            if has_id(before, id) {
                let i = choose|i: int| 0 <= i < before.len() && (#[trigger] before[i]).0 == id;
                if i < p {
                    assert(after[i] == before[i]);
                } else {
                    assert(after[i + 1] == before[i]);
                }
            }
            if has_id(after, id) && id != key.0 {
                let i = choose|i: int| 0 <= i < after.len() && (#[trigger] after[i]).0 == id;
                if i < p {
                    assert(before[i].0 == id);
                } else {
                    assert(before[i - 1].0 == id);
                }
            }
        }
        assert forall|k: (Option<u64>, u64)| #[trigger] after.contains(k) implies k == key
            || before.contains(k) by {
            let i = choose|i: int| 0 <= i < after.len() && after[i] == k;
            if i < p {
                assert(before[i] == k);
            } else if i > p {
                assert(before[i - 1] == k);
            }
        }
    }
}

/// The groups that occur, each with the time of its latest request, in the
/// order in which they are shown.
fn ordered_keys(reqs: &Vec<NetworkRequest>) -> (keys: Vec<(Option<u64>, u64)>)
    ensures
        in_order(keys@),
        distinct_ids(keys@),
        forall|i: int| 0 <= i < keys@.len() ==> (#[trigger] keys@[i]).1 == latest_of(reqs@, keys@[i].0),
        forall|id: Option<u64>| #[trigger]
            has_id(keys@, id) <==> exists|i: int|
                0 <= i < reqs@.len() && (#[trigger] reqs@[i]).operation_id == id,
{
    let mut keys: Vec<(Option<u64>, u64)> = Vec::new();
    let mut i: usize = 0;
    while i < reqs.len()
        invariant
            i <= reqs@.len(),
            in_order(keys@),
            distinct_ids(keys@),
            keys@.len() <= i,
            forall|k: (Option<u64>, u64)| #[trigger]
                keys@.contains(k) ==> k.1 == latest_of(reqs@, k.0),
            forall|id: Option<u64>| #[trigger]
                has_id(keys@, id) <==> exists|j: int|
                    0 <= j < i && (#[trigger] reqs@[j]).operation_id == id,
        decreases reqs@.len() - i,
    {
        let id = reqs[i].operation_id;
        let mut known = false;
        let mut k: usize = 0;
        while k < keys.len()
            invariant
                k <= keys@.len(),
                known <==> exists|j: int| 0 <= j < k && (#[trigger] keys@[j]).0 == id,
            decreases keys@.len() - k,
        {
            if same_id(keys[k].0, id) {
                known = true;
            }
            k += 1;
        }
        let ghost before = keys@;
        assert(known <==> has_id(before, id));
        if !known {
            insert_key(&mut keys, (id, latest_request(reqs, id)));
        }
        proof {
            assert forall|x: Option<u64>| #[trigger] has_id(keys@, x) <==> exists|j: int|
                0 <= j < i + 1 && (#[trigger] reqs@[j]).operation_id == x by {
                if has_id(keys@, x) {
                    if x == id {
                        assert(reqs@[i as int].operation_id == x);
                    } else {
                        assert(has_id(before, x));
                    }
                }
                if exists|j: int| 0 <= j < i + 1 && (#[trigger] reqs@[j]).operation_id == x {
                    if x != id {
                        let j = choose|j: int|
                            0 <= j < i + 1 && (#[trigger] reqs@[j]).operation_id == x;
                        assert(j < i);
                        assert(has_id(before, x));
                    }
                }
            }
        }
        i += 1;
    }
    proof {
        assert forall|j: int| 0 <= j < keys@.len() implies (#[trigger] keys@[j]).1 == latest_of(
            reqs@,
            keys@[j].0,
        ) by {
            assert(keys@.contains(keys@[j]));
        }
    }
    keys
}

/// The keys of a list of groups.
pub open spec fn keys_of(
    reqs: Seq<NetworkRequest>,
    groups: Seq<RequestGroup>,
) -> Seq<(Option<u64>, u64)> {
    Seq::new(groups.len(), |i: int| (groups[i].id, latest_of(reqs, groups[i].id) as u64))
}

/// Whether a group holds exactly the requests of its operation, with their
/// sums.
pub open spec fn is_group(reqs: Seq<NetworkRequest>, g: RequestGroup) -> bool {
    &&& crate::select::selects(
        g.indices@,
        reqs.len() as int,
        |i: int| reqs[i].operation_id == g.id,
    )
    &&& g.bytes == group_bytes(reqs, g.id)
    &&& g.duration_us == group_duration(reqs, g.id)
}

/// Whether requests are grouped as the drawer shows them: each operation that
/// occurs has one group with all its requests, and the groups are in order.
pub open spec fn is_grouped(reqs: Seq<NetworkRequest>, groups: Seq<RequestGroup>) -> bool {
    let keys = keys_of(reqs, groups);
    &&& forall|k: int| 0 <= k < groups.len() ==> is_group(reqs, #[trigger] groups[k])
    &&& in_order(keys)
    &&& distinct_ids(keys)
    &&& forall|id: Option<u64>| #[trigger]
        has_id(keys, id) <==> exists|i: int|
            0 <= i < reqs.len() && (#[trigger] reqs[i]).operation_id == id
}

proof fn lemma_group_within_all(reqs: Seq<NetworkRequest>, n: int, id: Option<u64>)
    requires
        0 <= n <= reqs.len(),
    ensures
        0 <= group_bytes(reqs.take(n), id) <= all_bytes(reqs),
        0 <= group_duration(reqs.take(n), id) <= all_durations(reqs),
        0 <= all_bytes(reqs.take(n)) <= all_bytes(reqs),
    decreases reqs.len(), n,
{
    if n < reqs.len() {
        lemma_group_within_all(reqs.drop_last(), n, id);
        assert(reqs.drop_last().take(n) =~= reqs.take(n));
    } else if n > 0 {
        assert(reqs.take(n) =~= reqs);
        lemma_group_within_all(reqs.drop_last(), n - 1, id);
        assert(reqs.drop_last().take(n - 1) =~= reqs.drop_last());
    } else {
        assert(reqs.take(n) =~= reqs);
    }
}

fn group_of(reqs: &Vec<NetworkRequest>, id: Option<u64>) -> (g: RequestGroup)
    requires
        all_bytes(reqs@) <= u64::MAX,
        all_durations(reqs@) <= u64::MAX,
    ensures
        g.id == id,
        is_group(reqs@, g),
{
    let ghost keep = |i: int| reqs@[i].operation_id == id;
    let mut indices: Vec<usize> = Vec::new();
    let mut bytes: u64 = 0;
    let mut duration_us: u64 = 0;
    let mut i: usize = 0;
    while i < reqs.len()
        invariant
            i <= reqs@.len(),
            all_bytes(reqs@) <= u64::MAX,
            all_durations(reqs@) <= u64::MAX,
            keep == (|i: int| reqs@[i].operation_id == id),
            crate::select::selects(indices@, i as int, keep),
            bytes == group_bytes(reqs@.take(i as int), id),
            duration_us == group_duration(reqs@.take(i as int), id),
        decreases reqs@.len() - i,
    {
        proof {
            crate::select::lemma_select_step(indices@, i, keep);
            lemma_group_within_all(reqs@, i + 1, id);
            assert(reqs@.take(i + 1).drop_last() =~= reqs@.take(i as int));
        }
        if same_id(reqs[i].operation_id, id) {
            indices.push(i);
            bytes = bytes + reqs[i].bytes;
            duration_us = duration_us + reqs[i].duration_us;
        }
        i += 1;
    }
    assert(reqs@.take(i as int) =~= reqs@);
    let g = RequestGroup { id, indices, bytes, duration_us };
    assert(crate::select::selects(
        g.indices@,
        reqs@.len() as int,
        |i: int| reqs@[i].operation_id == g.id,
    )) by {
        assert((|i: int| reqs@[i].operation_id == g.id) =~= keep);
    }
    g
}

/// Groups requests by their operation.
pub fn group_requests(reqs: &Vec<NetworkRequest>) -> (groups: Vec<RequestGroup>)
    requires
        all_bytes(reqs@) <= u64::MAX,
        all_durations(reqs@) <= u64::MAX,
    ensures
        is_grouped(reqs@, groups@),
{
    let keys = ordered_keys(reqs);
    let mut groups: Vec<RequestGroup> = Vec::new();
    let mut k: usize = 0;
    while k < keys.len()
        invariant
            k <= keys@.len(),
            all_bytes(reqs@) <= u64::MAX,
            all_durations(reqs@) <= u64::MAX,
            groups@.len() == k,
            forall|j: int| 0 <= j < k ==> is_group(reqs@, #[trigger] groups@[j]),
            forall|j: int| 0 <= j < k ==> (#[trigger] groups@[j]).id == keys@[j].0,
        decreases keys@.len() - k,
    {
        groups.push(group_of(reqs, keys[k].0));
        k += 1;
    }
    assert(keys_of(reqs@, groups@) =~= keys@);
    groups
}

/// The bytes of all requests.
pub fn total_bytes(reqs: &Vec<NetworkRequest>) -> (n: u64)
    requires
        all_bytes(reqs@) <= u64::MAX,
    ensures
        n == all_bytes(reqs@),
{
    let mut n: u64 = 0;
    let mut i: usize = 0;
    while i < reqs.len()
        invariant
            i <= reqs@.len(),
            all_bytes(reqs@) <= u64::MAX,
            n == all_bytes(reqs@.take(i as int)),
        decreases reqs@.len() - i,
    {
        proof {
            lemma_group_within_all(reqs@, i + 1, None);
            assert(reqs@.take(i + 1).drop_last() =~= reqs@.take(i as int));
        }
        n = n + reqs[i].bytes;
        i += 1;
    }
    assert(reqs@.take(i as int) =~= reqs@);
    n
}

pub open spec fn sum_of_groups(groups: Seq<RequestGroup>) -> int
    decreases groups.len(),
{
    if groups.len() == 0 {
        0
    } else {
        sum_of_groups(groups.drop_last()) + groups.last().bytes
    }
}

spec fn sum_by_id(reqs: Seq<NetworkRequest>, ids: Seq<Option<u64>>) -> int
    decreases ids.len(),
{
    if ids.len() == 0 {
        0
    } else {
        sum_by_id(reqs, ids.drop_last()) + group_bytes(reqs, ids.last())
    }
}

proof fn lemma_sum_step(reqs: Seq<NetworkRequest>, ids: Seq<Option<u64>>)
    requires
        reqs.len() > 0,
        forall|i: int, j: int| 0 <= i < j < ids.len() ==> (#[trigger] ids[i]) != (#[trigger] ids[j]),
    ensures
        sum_by_id(reqs, ids) == sum_by_id(reqs.drop_last(), ids) + if ids.contains(
            reqs.last().operation_id,
        ) {
            reqs.last().bytes as int
        } else {
            0
        },
    decreases ids.len(),
{
    let id = reqs.last().operation_id;
    if ids.len() > 0 {
        let front = ids.drop_last();
        lemma_sum_step(reqs, front);
        if ids.last() == id {
            assert(ids[ids.len() - 1] == id);
            if front.contains(id) {
                let i = choose|i: int| 0 <= i < front.len() && front[i] == id;
                assert(ids[i] != ids[ids.len() - 1]);
            }
        } else {
            if ids.contains(id) {
                let i = choose|i: int| 0 <= i < ids.len() && ids[i] == id;
                assert(front[i] == id);
            }
            if front.contains(id) {
                let i = choose|i: int| 0 <= i < front.len() && front[i] == id;
                assert(ids[i] == id);
            }
        }
    }
}

proof fn lemma_sum_is_total(reqs: Seq<NetworkRequest>, ids: Seq<Option<u64>>)
    requires
        forall|i: int, j: int| 0 <= i < j < ids.len() ==> (#[trigger] ids[i]) != (#[trigger] ids[j]),
        forall|i: int| 0 <= i < reqs.len() ==> ids.contains((#[trigger] reqs[i]).operation_id),
    ensures
        sum_by_id(reqs, ids) == all_bytes(reqs),
    decreases reqs.len(),
{
    if reqs.len() > 0 {
        lemma_sum_step(reqs, ids);
        assert(ids.contains(reqs[reqs.len() - 1].operation_id));
        lemma_sum_is_total(reqs.drop_last(), ids);
    } else {
        assert(reqs =~= Seq::<NetworkRequest>::empty());
        lemma_empty_sum(ids);
    }
}

proof fn lemma_empty_sum(ids: Seq<Option<u64>>)
    ensures
        sum_by_id(Seq::empty(), ids) == 0,
    decreases ids.len(),
{
    if ids.len() > 0 {
        lemma_empty_sum(ids.drop_last());
    }
}

proof fn lemma_sums_agree(reqs: Seq<NetworkRequest>, groups: Seq<RequestGroup>)
    requires
        forall|k: int| 0 <= k < groups.len() ==> is_group(reqs, #[trigger] groups[k]),
    ensures
        sum_of_groups(groups) == sum_by_id(reqs, Seq::new(groups.len(), |i: int| groups[i].id)),
    decreases groups.len(),
{
    if groups.len() > 0 {
        let ids = Seq::new(groups.len(), |i: int| groups[i].id);
        lemma_sums_agree(reqs, groups.drop_last());
        assert(ids.drop_last() =~= Seq::new(
            groups.drop_last().len(),
            |i: int| groups.drop_last()[i].id,
        ));
        assert(is_group(reqs, groups[groups.len() - 1]));
    }
}

/// Grouping loses nothing and counts nothing twice: the groups' bytes add up
/// to those of all requests.
pub proof fn groups_account_for_every_byte(
    reqs: Seq<NetworkRequest>,
    groups: Seq<RequestGroup>,
)
    requires
        is_grouped(reqs, groups),
    ensures
        sum_of_groups(groups) == all_bytes(reqs),
{
    let ids = Seq::new(groups.len(), |i: int| groups[i].id);
    let keys = keys_of(reqs, groups);
    lemma_sums_agree(reqs, groups);
    assert forall|i: int, j: int| 0 <= i < j < ids.len() implies (#[trigger] ids[i]) != (
    #[trigger] ids[j]) by {
        assert(keys[i].0 != keys[j].0);
    }
    assert forall|i: int| 0 <= i < reqs.len() implies ids.contains(
        (#[trigger] reqs[i]).operation_id,
    ) by {
        let id = reqs[i].operation_id;
        assert(has_id(keys, id));
        let k = choose|k: int| 0 <= k < keys.len() && (#[trigger] keys[k]).0 == id;
        assert(ids[k] == id);
    }
    lemma_sum_is_total(reqs, ids);
}

/// Every request stands in exactly one group.
pub proof fn every_request_stands_in_one_group(
    reqs: Seq<NetworkRequest>,
    groups: Seq<RequestGroup>,
    i: int,
)
    requires
        is_grouped(reqs, groups),
        0 <= i < reqs.len(),
        reqs.len() <= usize::MAX,
    ensures
        exists|k: int| 0 <= k < groups.len() && (#[trigger] groups[k]).indices@.contains(i as usize),
        forall|a: int, b: int|
            0 <= a < groups.len() && 0 <= b < groups.len() && (
            #[trigger] groups[a]).indices@.contains(i as usize) && (
            #[trigger] groups[b]).indices@.contains(i as usize) ==> a == b,
{
    let keys = keys_of(reqs, groups);
    let id = reqs[i].operation_id;
    assert(has_id(keys, id));
    let k = choose|k: int| 0 <= k < keys.len() && (#[trigger] keys[k]).0 == id;
    let g = groups[k];
    assert(is_group(reqs, g));
    let keep = |j: int| reqs[j].operation_id == g.id;
    assert(keep(i));
    assert(groups[k].indices@.contains(i as usize));
    assert forall|a: int, b: int|
        0 <= a < groups.len() && 0 <= b < groups.len() && (#[trigger] groups[a]).indices@.contains(
            i as usize,
        ) && (#[trigger] groups[b]).indices@.contains(i as usize) implies a == b by {
        assert(is_group(reqs, groups[a]));
        assert(is_group(reqs, groups[b]));
        let pa = choose|p: int| 0 <= p < groups[a].indices@.len() && groups[a].indices@[p] == i as usize;
        let pb = choose|p: int| 0 <= p < groups[b].indices@.len() && groups[b].indices@[p] == i as usize;
        assert(groups[a].id == id);
        assert(groups[b].id == id);
        if a < b {
            assert(keys[a].0 != keys[b].0);
        } else if b < a {
            assert(keys[b].0 != keys[a].0);
        }
    }
}

/// Whether a group was opened or closed, and no other.
pub open spec fn is_toggled(
    before: Seq<Option<u64>>,
    after: Seq<Option<u64>>,
    id: Option<u64>,
) -> bool {
    forall|x: Option<u64>| #[trigger]
        after.contains(x) <==> if x == id {
            !before.contains(id)
        } else {
            before.contains(x)
        }
}

/// A group that is toggled twice is as it was, and so is every other.
pub proof fn toggling_twice_restores(
    first: Seq<Option<u64>>,
    second: Seq<Option<u64>>,
    third: Seq<Option<u64>>,
    id: Option<u64>,
)
    requires
        is_toggled(first, second, id),
        is_toggled(second, third, id),
    ensures
        forall|x: Option<u64>| #[trigger] third.contains(x) <==> first.contains(x),
{
    assert forall|x: Option<u64>| #[trigger] third.contains(x) <==> first.contains(x) by {
        assert(second.contains(id) <==> !first.contains(id));
        assert(x != id ==> (second.contains(x) <==> first.contains(x)));
    }
}

/// Opens a closed group of the drawer, and closes an open one.
pub fn toggle_group(expanded: &mut Vec<Option<u64>>, id: Option<u64>)
    ensures
        is_toggled(old(expanded)@, final(expanded)@, id),
{
    let mut kept: Vec<Option<u64>> = Vec::new();
    let mut found = false;
    let mut i: usize = 0;
    while i < expanded.len()
        invariant
            expanded@ == old(expanded)@,
            i <= expanded@.len(),
            found <==> exists|j: int| 0 <= j < i && #[trigger] expanded@[j] == id,
            forall|x: Option<u64>| #[trigger]
                kept@.contains(x) <==> x != id && exists|j: int|
                    0 <= j < i && #[trigger] expanded@[j] == x,
        decreases expanded@.len() - i,
    {
        let v = expanded[i];
        let ghost before = kept@;
        if same_id(v, id) {
            found = true;
        } else {
            kept.push(v);
            assert(kept@[before.len() as int] == v);
        }
        proof {
            assert forall|x: Option<u64>| #[trigger] kept@.contains(x) <==> x != id && exists|j: int|
                0 <= j < i + 1 && #[trigger] expanded@[j] == x by {
                if kept@.contains(x) {
                    let k = choose|k: int| 0 <= k < kept@.len() && kept@[k] == x;
                    if k < before.len() {
                        assert(before[k] == x);
                        assert(before.contains(x));
                    } else {
                        assert(expanded@[i as int] == x);
                    }
                }
                if x != id && exists|j: int| 0 <= j < i + 1 && #[trigger] expanded@[j] == x {
                    let j = choose|j: int| 0 <= j < i + 1 && #[trigger] expanded@[j] == x;
                    if j < i {
                        assert(before.contains(x));
                        let k = choose|k: int| 0 <= k < before.len() && before[k] == x;
                        assert(kept@[k] == x);
                    }
                }
            }
        }
        i += 1;
    }
    let ghost without = kept@;
    if !found {
        kept.push(id);
        assert(kept@[without.len() as int] == id);
    }
    proof {
        assert forall|x: Option<u64>| #[trigger] kept@.contains(x) <==> if x == id {
            !old(expanded)@.contains(id)
        } else {
            old(expanded)@.contains(x)
        } by {
            if kept@.contains(x) {
                let k = choose|k: int| 0 <= k < kept@.len() && kept@[k] == x;
                if k < without.len() {
                    assert(without[k] == x);
                    assert(without.contains(x));
                }
            }
            if x != id && old(expanded)@.contains(x) {
                assert(without.contains(x));
                let k = choose|k: int| 0 <= k < without.len() && without[k] == x;
                assert(kept@[k] == x);
            }
        }
    }
    *expanded = kept;
}

/// Whether a group of the drawer is open.
pub fn is_expanded(expanded: &Vec<Option<u64>>, id: Option<u64>) -> (b: bool)
    ensures
        b == expanded@.contains(id),
{
    let mut i: usize = 0;
    while i < expanded.len()
        invariant
            i <= expanded@.len(),
            forall|j: int| 0 <= j < i ==> #[trigger] expanded@[j] != id,
        decreases expanded@.len() - i,
    {
        if same_id(expanded[i], id) {
            assert(expanded@[i as int] == id);
            return true;
        }
        i += 1;
    }
    false
}

/// Heading of a group: its name, then how many requests it has, their bytes as
/// they are written, and how long they took.
pub fn group_header(name: &str, requests: usize, bytes: &str, duration_us: u64) -> (s: String)
    ensures
        s@ == name@ + "  ("@ + crate::text::decimal(requests as nat) + " req, "@ + bytes@ + ", "@
            + crate::text::decimal(crate::text::rounded(duration_us as int, 1000) as nat) + "ms)"@,
{
    let mut s = name.to_owned();
    s.append("  (");
    push_decimal(&mut s, requests as u64);
    s.append(" req, ");
    s.append(bytes);
    s.append(", ");
    push_decimal(&mut s, round_div(duration_us, 1000));
    s.append("ms)");
    s
}

/// Name of a group: that of its operation where it is known, its number where
/// not.
pub fn group_name(id: Option<u64>, description: Option<String>) -> (s: String)
    ensures
        s@ == (match (id, description) {
            (None, _) => "Ungrouped"@,
            (Some(_), Some(d)) => d@,
            (Some(n), None) => "Op #"@ + crate::text::decimal(n as nat),
        }),
{
    match (id, description) {
        (None, _) => "Ungrouped".to_owned(),
        (Some(_), Some(d)) => d,
        (Some(n), None) => {
            let mut s = "Op #".to_owned();
            push_decimal(&mut s, n);
            s
        },
    }
}

/// How many requests there are and their bytes as they are written.
pub fn requests_summary(requests: usize, bytes: &str) -> (s: String)
    ensures
        s@ == crate::text::decimal(requests as nat) + " requests \u{00b7} "@ + bytes@,
{
    let mut s = String::new();
    push_decimal(&mut s, requests as u64);
    s.append(" requests \u{00b7} ");
    s.append(bytes);
    assert(s@ =~= crate::text::decimal(requests as nat) + " requests \u{00b7} "@ + bytes@);
    s
}

/// A note above the log, and its colour.
#[derive(Debug)]
pub struct LogNote {
    pub text: String,
    pub color: Color32,
}

impl View for LogNote {
    type V = (Seq<char>, Color32);

    open spec fn view(&self) -> (Seq<char>, Color32) {
        (self.text@, self.color)
    }
}

/// The notes above the log, from the left. Failures are only spoken of where
/// there are any.
pub open spec fn log_notes_of(
    requests: int,
    failed: int,
    bytes: Seq<char>,
    isolated: bool,
    dark: bool,
) -> Seq<(Seq<char>, Color32)> {
    let value = crate::colors::ui::value(dark);
    let made = seq![(crate::text::decimal(requests as nat) + " requests"@, value)];
    let lost = if failed > 0 {
        seq![
            (
                crate::text::decimal(failed as nat) + " failed"@,
                crate::colors::rgb(255, 100, 100),
            ),
        ]
    } else {
        seq![]
    };
    made + lost + seq![
        (bytes + " transferred"@, value),
        if isolated {
            ("COI: active"@, crate::colors::ui::success())
        } else {
            ("COI: inactive"@, crate::colors::ui::label(dark))
        },
    ]
}

/// The notes above the log, from the left: how many requests were made and how
/// many failed, their bytes as they are written, and whether the page is isolated
/// from other origins.
pub fn log_notes(
    requests: u64,
    failed: u64,
    bytes: &str,
    isolated: bool,
    dark: bool,
) -> (r: Vec<LogNote>)
    ensures
        r@.map_values(|n: LogNote| n@) == log_notes_of(
            requests as int,
            failed as int,
            bytes@,
            isolated,
            dark,
        ),
{
    let value = crate::colors::ui::value(dark);
    let mut r: Vec<LogNote> = Vec::new();
    let mut made = decimal_text(requests);
    made.append(" requests");
    r.push(LogNote { text: made, color: value });
    if failed > 0 {
        let mut lost = decimal_text(failed);
        lost.append(" failed");
        r.push(LogNote { text: lost, color: from_rgb(255, 100, 100) });
    }
    let mut moved = bytes.to_owned();
    moved.append(" transferred");
    r.push(LogNote { text: moved, color: value });
    r.push(
        if isolated {
            LogNote { text: "COI: active".to_owned(), color: crate::colors::ui::success() }
        } else {
            LogNote { text: "COI: inactive".to_owned(), color: crate::colors::ui::label(dark) }
        },
    );
    assert(r@.map_values(|n: LogNote| n@) =~= log_notes_of(
        requests as int,
        failed as int,
        bytes@,
        isolated,
        dark,
    ));
    r
}

// ---- what holds of the log -----------------------------------------------------

/// A request that failed, got no answer, or was refused is red, one that was
/// redirected yellow, every other green.
pub proof fn requests_are_coloured_by_outcome(status: u16, ok: bool)
    ensures
        !ok || status == 0 || status >= 400 <==> status_color_of(status, ok) == crate::colors::rgb(
            255,
            100,
            100,
        ),
        ok && 300 <= status < 400 <==> status_color_of(status, ok) == crate::colors::rgb(
            255,
            200,
            80,
        ),
        ok && 1 <= status < 300 <==> status_color_of(status, ok) == crate::colors::rgb(
            100,
            200,
            100,
        ),
{
}

/// Only the two schemes of the web are taken off, each whole.
pub proof fn web_schemes_are_taken_off(rest: Seq<char>, url: Seq<char>)
    ensures
        scheme_len("https://"@ + rest) == "https://"@.len(),
        scheme_len("http://"@ + rest) == "http://"@.len(),
        scheme_len(url) > 0 ==> url.take(scheme_len(url)) == "https://"@ || url.take(
            scheme_len(url),
        ) == "http://"@,
{
    reveal_strlit("https://");
    reveal_strlit("http://");
    let s = "https://"@ + rest;
    let p = "http://"@ + rest;
    assert(s.take(8) =~= "https://"@);
    assert(p.take(7) =~= "http://"@);
    if p.len() >= 8 {
        assert(p.take(8)[4] == ':');
        assert("https://"@[4] == 's');
    }
}

/// The host runs up to the first slash and the path from behind it to the end.
pub proof fn host_and_path_make_up_the_address(s: Seq<char>)
    ensures
        !host_of(s).contains('/'),
        s.contains('/') ==> s == host_of(s) + seq!['/'] + path_of(s),
        !s.contains('/') ==> host_of(s) == s && path_of(s).len() == 0,
{
    let i = crate::text::first_index(s, '/');
    crate::text::the_first_occurrence_is_found(s, '/');
    if host_of(s).contains('/') {
        let k = choose|k: int| 0 <= k < host_of(s).len() && host_of(s)[k] == '/';
        assert(s[k] == '/');
    }
    if i < s.len() {
        assert(s =~= host_of(s) + seq!['/'] + path_of(s));
        assert(s[i] == '/');
    } else {
        assert(host_of(s) =~= s);
        if s.contains('/') {
            let k = choose|k: int| 0 <= k < s.len() && s[k] == '/';
            assert(s[k] != '/');
        }
    }
}

/// The last segment ends the path and holds no slash; a slash stands before it
/// unless it is the whole path.
pub proof fn the_last_segment_ends_the_path(path: Seq<char>)
    ensures
        !last_segment(path).contains('/'),
        last_segment(path).len() <= path.len(),
        path.skip(path.len() - last_segment(path).len()) == last_segment(path),
        last_segment(path).len() < path.len() ==> path[path.len() - last_segment(path).len() - 1]
            == '/',
{
    let i = crate::text::after_last(path, '/');
    crate::text::the_last_occurrence_is_found(path, '/');
    assert(last_segment(path).len() == path.len() - i);
    if last_segment(path).contains('/') {
        let k = choose|k: int| 0 <= k < last_segment(path).len() && last_segment(path)[k] == '/';
        assert(path[i + k] == '/');
    }
}

/// A web address is shortened to its last segment, of which at most the last thirty
/// bytes are kept where it is longer than thirty-five, and to its host where it has
/// none.
pub proof fn addresses_shorten_to_their_last_segment(url: Seq<char>, segment: Seq<char>)
    requires
        scheme_len(url) > 0,
        segment == last_segment(path_of(url.skip(scheme_len(url)))),
    ensures
        segment.len() == 0 ==> compact_url(url) == host_of(url.skip(scheme_len(url))),
        segment.len() > 0 && crate::text::bytes(segment).len() <= 35 ==> compact_url(url)
            == ".../"@ + segment,
        segment.len() > 0 && crate::text::bytes(segment).len() > 35 ==> compact_url(url) == ".../"@
            + crate::text::byte_suffix(segment, crate::text::bytes(segment).len() - 30),
{
}

/// Any other address is kept up to fifty bytes; of a longer one the last
/// forty-seven are.
pub proof fn other_addresses_keep_their_end(url: Seq<char>)
    requires
        scheme_len(url) == 0,
    ensures
        crate::text::bytes(url).len() <= 50 ==> compact_url(url) == url,
        crate::text::bytes(url).len() > 50 ==> compact_url(url) == "..."@
            + crate::text::byte_suffix(url, crate::text::bytes(url).len() - 47),
{
}

/// The log keeps an address whole, without its scheme, up to a hundred and twenty
/// bytes.
pub proof fn the_log_keeps_short_addresses(url: Seq<char>, rest: Seq<char>)
    requires
        rest == url.skip(scheme_len(url)),
    ensures
        crate::text::bytes(rest).len() <= 120 ==> log_url(url) == rest,
{
}

/// Of a longer one it keeps the host and as much of the path's end as fits beside
/// it; where the path fits, or the host leaves no room, the first forty bytes and
/// the last seventy-seven.
pub proof fn the_log_keeps_host_and_end_of_long_addresses(url: Seq<char>, rest: Seq<char>)
    requires
        rest == url.skip(scheme_len(url)),
        crate::text::bytes(rest).len() > 120,
    ensures
        ({
            let host = crate::text::bytes(host_of(rest)).len() as int;
            let path = crate::text::bytes(path_of(rest)).len() as int;
            &&& host + 5 < 120 && path + host + 5 > 120 ==> log_url(url) == host_of(rest)
                + "/.../"@ + crate::text::byte_suffix(path_of(rest), path + host + 5 - 120)
            &&& host + 5 >= 120 || path + host + 5 <= 120 ==> log_url(url)
                == crate::text::byte_prefix(rest, 40) + "..."@ + crate::text::byte_suffix(
                rest,
                crate::text::bytes(rest).len() - 77,
            )
        }),
{
}

/// Each request adds its bytes and its time to its own group, and its bytes to the
/// total.
pub proof fn each_request_adds_to_its_group(
    reqs: Seq<NetworkRequest>,
    r: NetworkRequest,
    id: Option<u64>,
)
    ensures
        group_bytes(Seq::empty(), id) == 0 && group_duration(Seq::empty(), id) == 0,
        all_bytes(Seq::empty()) == 0,
        all_bytes(reqs.push(r)) == all_bytes(reqs) + r.bytes,
        all_durations(reqs.push(r)) == all_durations(reqs) + r.duration_us,
        r.operation_id == id ==> group_bytes(reqs.push(r), id) == group_bytes(reqs, id) + r.bytes
            && group_duration(reqs.push(r), id) == group_duration(reqs, id) + r.duration_us,
        r.operation_id != id ==> group_bytes(reqs.push(r), id) == group_bytes(reqs, id)
            && group_duration(reqs.push(r), id) == group_duration(reqs, id),
{
    assert(reqs.push(r).drop_last() =~= reqs);
}

/// A group is as recent as its latest request.
pub proof fn a_group_is_as_recent_as_its_latest_request(
    reqs: Seq<NetworkRequest>,
    id: Option<u64>,
    i: int,
)
    requires
        0 <= i < reqs.len(),
        reqs[i].operation_id == id,
    ensures
        reqs[i].timestamp_ms <= latest_of(reqs, id) <= u64::MAX,
        latest_of(reqs, id) > 0 ==> exists|k: int|
            0 <= k < reqs.len() && (#[trigger] reqs[k]).operation_id == id && reqs[k].timestamp_ms
                == latest_of(reqs, id),
    decreases reqs.len(),
{
    lemma_latest(reqs, id);
    let rest = reqs.drop_last();
    if i < rest.len() {
        assert(rest[i] == reqs[i]);
        a_group_is_as_recent_as_its_latest_request(rest, id, i);
    }
}

proof fn lemma_latest(reqs: Seq<NetworkRequest>, id: Option<u64>)
    ensures
        0 <= latest_of(reqs, id) <= u64::MAX,
        latest_of(reqs, id) > 0 ==> exists|k: int|
            0 <= k < reqs.len() && (#[trigger] reqs[k]).operation_id == id && reqs[k].timestamp_ms
                == latest_of(reqs, id),
    decreases reqs.len(),
{
    if reqs.len() > 0 {
        let rest = reqs.drop_last();
        lemma_latest(rest, id);
        if latest_of(reqs, id) > 0 {
            if latest_of(reqs, id) == latest_of(rest, id) {
                let k = choose|k: int|
                    0 <= k < rest.len() && (#[trigger] rest[k]).operation_id == id
                        && rest[k].timestamp_ms == latest_of(rest, id);
                assert(reqs[k] == rest[k]);
            } else {
                assert(reqs[reqs.len() - 1] == reqs.last());
            }
        }
    }
}

/// Groups of operations come before the group of all other requests, and the more
/// recent before the less recent.
pub proof fn groups_are_listed_by_recency(
    reqs: Seq<NetworkRequest>,
    groups: Seq<RequestGroup>,
    i: int,
    j: int,
)
    requires
        is_grouped(reqs, groups),
        0 <= i < j < groups.len(),
    ensures
        groups[i].id is Some,
        groups[j].id is Some ==> latest_of(reqs, groups[i].id) >= latest_of(reqs, groups[j].id),
        groups[i].id != groups[j].id,
{
    let keys = keys_of(reqs, groups);
    lemma_latest(reqs, groups[i].id);
    lemma_latest(reqs, groups[j].id);
    assert(keys[i].0 == groups[i].id && keys[j].0 == groups[j].id);
    assert(may_precede(keys[i], keys[j]));
}

/// The log counts its requests, those that failed where any did, and what was
/// transferred, and says last whether the page is isolated.
pub proof fn the_log_sums_up(
    requests: int,
    failed: int,
    bytes: Seq<char>,
    isolated: bool,
    dark: bool,
)
    requires
        0 <= requests,
        0 <= failed,
    ensures
        ({
            let notes = log_notes_of(requests, failed, bytes, isolated, dark);
            let n = notes.len() as int;
            &&& n == (if failed > 0 {
                4int
            } else {
                3
            })
            &&& notes[0].0 == crate::text::decimal(requests as nat) + " requests"@
            &&& failed > 0 ==> notes[1].0 == crate::text::decimal(failed as nat) + " failed"@
                && notes[1].1 == crate::colors::rgb(255, 100, 100)
            &&& notes[n - 2].0 == bytes + " transferred"@
            &&& isolated ==> notes[n - 1] == ("COI: active"@, crate::colors::ui::success())
            &&& !isolated ==> notes[n - 1] == ("COI: inactive"@, crate::colors::ui::label(dark))
        }),
{
}

/// A request tells its status, or that there is none, and its duration to the nearest
/// millisecond.
pub proof fn requests_tell_status_and_duration(status: u16, us: u64, s: String, d: String)
    requires
        call_ensures(status_text, (status,), s),
        call_ensures(duration_text, (us,), d),
    ensures
        status > 0 ==> s@ == crate::text::decimal(status as nat),
        status == 0 ==> s@ == "ERR"@,
        exists|n: nat|
            d@ == #[trigger] crate::text::decimal(n) + "ms"@ && us - 500 <= 1000 * n <= us + 500,
{
    crate::text::rounding_is_to_the_nearest(us as int, 1000);
    let n = crate::text::rounded(us as int, 1000) as nat;
    assert(d@ == crate::text::decimal(n) + "ms"@);
}

/// A group has the name of its operation, its number where it has no name, and a name
/// of its own where it belongs to none.
pub proof fn groups_are_named_after_their_operation(
    n: u64,
    d: String,
    named: String,
    numbered: String,
    free: String,
)
    requires
        call_ensures(group_name, (Some(n), Some(d)), named),
        call_ensures(group_name, (Some(n), None::<String>), numbered),
        call_ensures(group_name, (None::<u64>, Some(d)), free),
    ensures
        named@ == d@,
        numbered@ == "Op #"@ + crate::text::decimal(n as nat),
        free@ == "Ungrouped"@,
{
}

/// Plain addresses can always be shortened.
pub proof fn plain_addresses_can_be_shortened(url: Seq<char>)
    requires
        vstd::utf8::is_ascii_chars(url),
    ensures
        compact_url_cuts(url),
        log_url_cuts(url),
{
    let n = scheme_len(url);
    reveal_strlit("https://");
    reveal_strlit("http://");
    let rest = url.skip(n);
    let host = host_of(rest);
    let path = path_of(rest);
    let segment = last_segment(path);
    crate::text::the_first_occurrence_is_found(rest, '/');
    crate::text::the_last_occurrence_is_found(path, '/');
    assert(vstd::utf8::is_ascii_chars(rest));
    assert(vstd::utf8::is_ascii_chars(host));
    assert(vstd::utf8::is_ascii_chars(path));
    assert(vstd::utf8::is_ascii_chars(segment));
    crate::text::plain_text_is_cut_anywhere(url, 0);
    crate::text::plain_text_is_cut_anywhere(rest, 0);
    crate::text::plain_text_is_cut_anywhere(host, 0);
    crate::text::plain_text_is_cut_anywhere(path, 0);
    crate::text::plain_text_is_cut_anywhere(segment, 0);
    if segment.len() > 35 {
        crate::text::plain_text_is_cut_anywhere(segment, segment.len() - 30);
    }
    if url.len() > 50 {
        crate::text::plain_text_is_cut_anywhere(url, url.len() - 47);
    }
    if rest.len() > 120 {
        crate::text::plain_text_is_cut_anywhere(rest, 40);
        crate::text::plain_text_is_cut_anywhere(rest, rest.len() - 77);
        let room = 120 - (host.len() + 5);
        if room > 0 && path.len() > room {
            crate::text::plain_text_is_cut_anywhere(path, path.len() - room);
        }
    }
}

/// A shortened plain address is at most 50 characters long in the list and at most 120
/// in the log, and ends as the address does.
pub proof fn shortened_addresses_fit_and_keep_their_end(url: Seq<char>)
    requires
        vstd::utf8::is_ascii_chars(url),
        scheme_len(url) == 0,
    ensures
        compact_url(url).len() <= 50,
        log_url(url).len() <= 120,
        url.len() >= 47 ==> compact_url(url).skip(compact_url(url).len() - 47) == url.skip(
            url.len() - 47,
        ),
        url.len() <= 50 ==> compact_url(url) == url,
        url.len() <= 120 ==> log_url(url) == url,
{
    let rest = url.skip(0);
    assert(rest =~= url);
    let host = host_of(rest);
    let path = path_of(rest);
    crate::text::the_first_occurrence_is_found(rest, '/');
    assert(vstd::utf8::is_ascii_chars(host));
    assert(vstd::utf8::is_ascii_chars(path));
    crate::text::plain_text_is_cut_anywhere(url, 0);
    crate::text::plain_text_is_cut_anywhere(host, 0);
    crate::text::plain_text_is_cut_anywhere(path, 0);
    reveal_strlit("...");
    reveal_strlit("/.../");
    if url.len() > 50 {
        crate::text::plain_text_is_cut_anywhere(url, url.len() - 47);
        assert(compact_url(url).skip(3) =~= url.skip(url.len() - 47));
    }
    if url.len() > 120 {
        crate::text::plain_text_is_cut_anywhere(url, 40);
        crate::text::plain_text_is_cut_anywhere(url, url.len() - 77);
        let room = 120 - (host.len() + 5);
        if room > 0 && path.len() > room {
            crate::text::plain_text_is_cut_anywhere(path, path.len() - room);
        }
    }
}

/// The header of a group tells its name, then its requests, then its bytes, then its
/// duration to the nearest millisecond.
pub proof fn group_headers_sum_up(name: &str, n: usize, bytes: &str, us: u64, s: String)
    requires
        call_ensures(group_header, (name, n, bytes, us), s),
    ensures
        exists|ms: nat|
            s@ == name@ + "  ("@ + crate::text::decimal(n as nat) + " req, "@ + bytes@ + ", "@
                + #[trigger] crate::text::decimal(ms) + "ms)"@ && us - 500 <= 1000 * ms <= us + 500,
{
    crate::text::rounding_is_to_the_nearest(us as int, 1000);
    let ms = crate::text::rounded(us as int, 1000) as nat;
    assert(s@ == name@ + "  ("@ + crate::text::decimal(n as nat) + " req, "@ + bytes@ + ", "@
        + crate::text::decimal(ms) + "ms)"@);
}

/// Without bytes the text for none is shown.
pub proof fn empty_answers_have_no_size(bytes: u64, written: &str, absent: &str, s: String)
    requires
        call_ensures(size_text, (bytes, written, absent), s),
    ensures
        bytes == 0 ==> s@ == absent@,
        bytes > 0 ==> s@ == written@,
{
}

} // verus!
