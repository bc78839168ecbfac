//! What the user has typed into a modal or a popup: text buffers that nothing
//! outside the widget that owns them ever reads.

use crate::calendar::{
    date_time_exists, parse_naive_date, parse_naive_date_time, parse_rfc3339, utc_civil,
    utc_seconds, CivilTime,
};
use crate::event_modal::EventModalState;
use crate::mping::MpingModalState;
use crate::text::{
    chars_of, parse_i32, parse_i64, parse_u32, push_padded_signed, trim,
};
use vstd::prelude::*;

verus! {

broadcast use vstd::string::group_string_axioms;

/// A date and time typed in the viewer's own time zone. Months count from
/// zero.
#[derive(Clone, Copy, Debug, PartialEq, Eq, Structural)]
pub struct LocalFields {
    pub year: i32,
    pub month0: u32,
    pub day: u32,
    pub hour: u32,
    pub minute: u32,
    pub second: u32,
}

/// What six typed fields amount to.
#[derive(Clone, Copy, Debug, PartialEq, Eq, Structural)]
pub enum TypedTime {
    /// They name no time.
    Invalid,
    /// An instant, in seconds from the epoch.
    At(i64),
    /// A time in the viewer's zone, which only the browser can place.
    Local(LocalFields),
}

/// The six numbers in the fields, where all of them are numbers.
pub open spec fn typed_fields(
    year: Seq<char>,
    month: Seq<char>,
    day: Seq<char>,
    hour: Seq<char>,
    minute: Seq<char>,
    second: Seq<char>,
) -> Option<CivilTime> {
    match (
        crate::text::parsed_i32(year),
        crate::text::parsed_u32(month),
        crate::text::parsed_u32(day),
        crate::text::parsed_u32(hour),
        crate::text::parsed_u32(minute),
        crate::text::parsed_u32(second),
    ) {
        (Some(y), Some(mo), Some(d), Some(h), Some(mi), Some(s)) => Some(
            CivilTime {
                year: y as i32,
                month: mo as u32,
                day: d as u32,
                hour: h as u32,
                minute: mi as u32,
                second: s as u32,
            },
        ),
        _ => None,
    }
}

/// What typed numbers amount to, where the date and the time of day exist: in UTC
/// their instant, in a year that the calendar covers; in the viewer's zone the
/// numbers, with the month counted from zero.
pub open spec fn placed(fields: Option<CivilTime>, use_local: bool) -> TypedTime {
    match fields {
        Some(c) => if use_local {
            if crate::calendar::is_date_time(c) {
                TypedTime::Local(local_fields(c))
            } else {
                TypedTime::Invalid
            }
        } else if crate::calendar::is_civil(c) {
            TypedTime::At(crate::calendar::epoch_seconds(c) as i64)
        } else {
            TypedTime::Invalid
        },
        None => TypedTime::Invalid,
    }
}

/// A date and time, with the month counted from zero.
pub open spec fn local_fields(c: CivilTime) -> LocalFields {
    LocalFields {
        year: c.year,
        month0: (c.month - 1) as u32,
        day: c.day,
        hour: c.hour,
        minute: c.minute,
        second: c.second,
    }
}

/// Numbers that name no date and time are rejected in either zone, and all others
/// are taken, as far as the calendar covers their year.
pub proof fn only_existing_times_are_taken(c: CivilTime)
    ensures
        placed(Some(c), true) == TypedTime::Invalid <==> !crate::calendar::is_date_time(c),
        placed(Some(c), false) == TypedTime::Invalid <==> !crate::calendar::is_civil(c),
{
}

/// Reads six typed fields as numbers.
pub fn read_fields(
    year: &str,
    month: &str,
    day: &str,
    hour: &str,
    minute: &str,
    second: &str,
) -> (r: Option<CivilTime>)
    ensures
        r == typed_fields(year@, month@, day@, hour@, minute@, second@),
{
    match (
        parse_i32(year),
        parse_u32(month),
        parse_u32(day),
        parse_u32(hour),
        parse_u32(minute),
        parse_u32(second),
    ) {
        (Some(y), Some(mo), Some(d), Some(h), Some(mi), Some(s)) => Some(
            CivilTime { year: y, month: mo, day: d, hour: h, minute: mi, second: s },
        ),
        _ => None,
    }
}

/// A date and time, with the month counted from zero.
pub fn to_local_fields(c: CivilTime) -> (f: LocalFields)
    requires
        c.month >= 1,
    ensures
        f == local_fields(c),
{
    LocalFields {
        year: c.year,
        month0: c.month - 1,
        day: c.day,
        hour: c.hour,
        minute: c.minute,
        second: c.second,
    }
}

/// The instant of typed numbers in UTC, where the calendar has it.
pub fn utc_instant(c: CivilTime) -> (r: TypedTime)
    ensures
        r == placed(Some(c), false),
{
    match utc_seconds(c) {
        Some(ts) => TypedTime::At(ts),
        None => TypedTime::Invalid,
    }
}

/// Reads six typed fields.
pub fn parse_time(
    year: &str,
    month: &str,
    day: &str,
    hour: &str,
    minute: &str,
    second: &str,
    use_local: bool,
) -> (r: TypedTime)
    ensures
        r == placed(typed_fields(year@, month@, day@, hour@, minute@, second@), use_local),
{
    match read_fields(year, month, day, hour, minute, second) {
        Some(c) => if !use_local {
            utc_instant(c)
        } else if date_time_exists(c) {
            TypedTime::Local(to_local_fields(c))
        } else {
            TypedTime::Invalid
        },
        None => TypedTime::Invalid,
    }
}

/// State of the date and time jump picker.
#[derive(Debug)]
pub struct DateTimePickerState {
    /// Whether the picker popup is open.
    pub open: bool,
    pub year: String,
    pub month: String,
    pub day: String,
    pub hour: String,
    pub minute: String,
    pub second: String,
}

/// What a pasted text stands for.
#[derive(Clone, Copy, Debug, PartialEq, Eq, Structural)]
pub enum Pasted {
    /// No time.
    Nothing,
    /// An instant, in seconds from the epoch.
    Instant(i64),
    /// A date and time without a zone, taken as the viewer sees it.
    Fields(CivilTime),
}

/// What became of a paste.
#[derive(Clone, Copy, Debug, PartialEq, Eq, Structural)]
pub enum PasteOutcome {
    /// The text is no time; the fields are untouched.
    Rejected,
    /// The fields hold the pasted time.
    Filled,
    /// The text names this instant, in seconds from the epoch; its date and
    /// time in the viewer's zone are for the browser to say, and the fields are
    /// to be filled with them.
    ConvertToLocal(i64),
}

/// Whether a text is a bare epoch: ten to thirteen digits.
pub open spec fn is_bare_epoch(t: Seq<char>) -> bool {
    10 <= t.len() <= 13 && crate::text::all_digits(t)
}

/// The whole second that a bare epoch names: seconds where it has ten digits,
/// milliseconds where it has more.
pub open spec fn bare_epoch_seconds(t: Seq<char>) -> int {
    if t.len() > 10 {
        crate::text::digits_value(t) / 1000
    } else {
        crate::text::digits_value(t)
    }
}

/// What a trimmed text stands for, given what it reads as: an instant with an
/// offset first, then a bare epoch, then a date and time, then a date at
/// midnight.
pub open spec fn pasted(
    t: Seq<char>,
    rfc3339: Option<i64>,
    date_time: Option<(i32, u32, u32, u32, u32, u32)>,
    date: Option<(i32, u32, u32)>,
) -> Pasted {
    if t.len() == 0 {
        Pasted::Nothing
    } else if rfc3339 is Some {
        Pasted::Instant(rfc3339->0)
    } else if is_bare_epoch(t) {
        Pasted::Instant(bare_epoch_seconds(t) as i64)
    } else if date_time is Some {
        let (year, month, day, hour, minute, second) = date_time->0;
        Pasted::Fields(CivilTime { year, month, day, hour, minute, second })
    } else if date is Some {
        let (year, month, day) = date->0;
        Pasted::Fields(CivilTime { year, month, day, hour: 0, minute: 0, second: 0 })
    } else {
        Pasted::Nothing
    }
}

/// The first of the four date and time forms that reads a text.
pub open spec fn first_date_time(t: Seq<char>) -> Option<(i32, u32, u32, u32, u32, u32)> {
    if crate::calendar::naive_date_time(t, "%Y-%m-%dT%H:%M:%S"@) is Some {
        crate::calendar::naive_date_time(t, "%Y-%m-%dT%H:%M:%S"@)
    } else if crate::calendar::naive_date_time(t, "%Y-%m-%d %H:%M:%S"@) is Some {
        crate::calendar::naive_date_time(t, "%Y-%m-%d %H:%M:%S"@)
    } else if crate::calendar::naive_date_time(t, "%Y-%m-%dT%H:%M"@) is Some {
        crate::calendar::naive_date_time(t, "%Y-%m-%dT%H:%M"@)
    } else {
        crate::calendar::naive_date_time(t, "%Y-%m-%d %H:%M"@)
    }
}

fn all_ascii_digits(v: &Vec<char>) -> (b: bool)
    ensures
        b == crate::text::all_digits(v@),
{
    let mut i: usize = 0;
    while i < v.len()
        invariant
            i <= v@.len(),
            crate::text::all_digits(v@.take(i as int)),
        decreases v@.len() - i,
    {
        if !('0' <= v[i] && v[i] <= '9') {
            assert(!crate::text::is_digit(v@[i as int]));
            return false;
        }
        assert(v@.take(i + 1) =~= v@.take(i as int).push(v@[i as int]));
        i += 1;
    }
    assert(v@.take(i as int) =~= v@);
    true
}

/// What a trimmed text stands for, given what it reads as.
pub fn read_paste(
    t: &str,
    rfc3339: Option<i64>,
    date_time: Option<(i32, u32, u32, u32, u32, u32)>,
    date: Option<(i32, u32, u32)>,
) -> (r: Pasted)
    ensures
        r == pasted(t@, rfc3339, date_time, date),
{
    let v = chars_of(t);
    if v.len() == 0 {
        return Pasted::Nothing;
    }
    if let Some(secs) = rfc3339 {
        return Pasted::Instant(secs);
    }
    if v.len() >= 10 && v.len() <= 13 && all_ascii_digits(&v) {
        proof {
            lemma_thirteen_digits(t@);
            assert(crate::text::is_digit(t@[0]));
            lemma_plain_digits(t@);
        }
        if let Some(n) = parse_i64(t) {
            return Pasted::Instant(
                if v.len() > 10 {
                    n / 1000
                } else {
                    n
                },
            );
        }
    }
    if let Some((year, month, day, hour, minute, second)) = date_time {
        return Pasted::Fields(CivilTime { year, month, day, hour, minute, second });
    }
    if let Some((year, month, day)) = date {
        return Pasted::Fields(CivilTime { year, month, day, hour: 0, minute: 0, second: 0 });
    }
    Pasted::Nothing
}

proof fn lemma_plain_digits(t: Seq<char>)
    requires
        is_bare_epoch(t),
        0 <= crate::text::digits_value(t) < 10_000_000_000_000,
    ensures
        crate::text::parsed_i64(t) == Some(crate::text::digits_value(t)),
{
    assert(crate::text::is_digit(t[0]));
}

proof fn lemma_thirteen_digits(t: Seq<char>)
    requires
        t.len() <= 13,
        crate::text::all_digits(t),
    ensures
        0 <= crate::text::digits_value(t) < 10_000_000_000_000,
        t.len() <= 10 ==> crate::text::digits_value(t) < 10_000_000_000,
{
    lemma_digits_bound(t, t.len() as int);
    assert(t.take(t.len() as int) =~= t);
    vstd::arithmetic::power::lemma_pow_increases(10, t.len(), 13);
    if t.len() <= 10 {
        vstd::arithmetic::power::lemma_pow_increases(10, t.len(), 10);
    }
    reveal_with_fuel(vstd::arithmetic::power::pow, 14);
}

proof fn lemma_digits_bound(t: Seq<char>, n: int)
    requires
        crate::text::all_digits(t),
        0 <= n <= t.len(),
    ensures
        0 <= crate::text::digits_value(t.take(n)) < vstd::arithmetic::power::pow(10, n as nat),
    decreases n,
{
    reveal(vstd::arithmetic::power::pow);
    if n > 0 {
        lemma_digits_bound(t, n - 1);
        assert(t.take(n).drop_last() =~= t.take(n - 1));
        assert(crate::text::is_digit(t[n - 1]));
    }
}

fn padded_field(n: u32) -> (s: String)
    ensures
        s@ == crate::text::padded(n as nat, 2),
{
    crate::text::padded_text(n as u64, 2)
}

fn padded_year(year: i32) -> (s: String)
    ensures
        s@ == crate::text::padded_signed(year as int, 4),
{
    let mut s = String::new();
    push_padded_signed(&mut s, year as i64, 4);
    assert(s@ =~= crate::text::padded_signed(year as int, 4));
    s
}

impl Default for DateTimePickerState {
    fn default() -> (p: Self)
        ensures
            p.is_reset(),
    {
        DateTimePickerState {
            open: false,
            year: String::new(),
            month: String::new(),
            day: String::new(),
            hour: String::new(),
            minute: String::new(),
            second: String::new(),
        }
    }
}

impl DateTimePickerState {
    /// Whether the picker is closed, with nothing in its fields.
    pub open spec fn is_reset(&self) -> bool {
        &&& !self.open
        &&& self.year@.len() == 0
        &&& self.month@.len() == 0
        &&& self.day@.len() == 0
        &&& self.hour@.len() == 0
        &&& self.minute@.len() == 0
        &&& self.second@.len() == 0
    }

    /// Whether the fields show a date and time: four digits for the year, two
    /// for the others, filled with zeros.
    pub open spec fn shows(&self, c: CivilTime) -> bool {
        &&& self.year@ == crate::text::padded_signed(c.year as int, 4)
        &&& self.month@ == crate::text::padded(c.month as nat, 2)
        &&& self.day@ == crate::text::padded(c.day as nat, 2)
        &&& self.hour@ == crate::text::padded(c.hour as nat, 2)
        &&& self.minute@ == crate::text::padded(c.minute as nat, 2)
        &&& self.second@ == crate::text::padded(c.second as nat, 2)
    }

    /// What the fields amount to.
    pub open spec fn typed(&self, use_local: bool) -> TypedTime {
        placed(
            typed_fields(
                self.year@,
                self.month@,
                self.day@,
                self.hour@,
                self.minute@,
                self.second@,
            ),
            use_local,
        )
    }

    /// Writes date and time components into the six buffers.
    pub fn set_parts(&mut self, c: CivilTime)
        ensures
            final(self).shows(c),
            final(self).open == old(self).open,
    {
        self.year = padded_year(c.year);
        self.month = padded_field(c.month);
        self.day = padded_field(c.day);
        self.hour = padded_field(c.hour);
        self.minute = padded_field(c.minute);
        self.second = padded_field(c.second);
    }

    /// Opens the picker on a date and time.
    pub fn init_from_parts(&mut self, c: CivilTime)
        ensures
            final(self).shows(c),
            final(self).open,
    {
        self.set_parts(c);
        self.open = true;
    }

    /// Opens the picker on an instant in UTC, given in seconds from the epoch.
    pub fn init_from_timestamp(&mut self, secs: i64)
        requires
            crate::calendar::in_calendar(secs as int),
        ensures
            final(self).shows(crate::calendar::civil_at(secs as int)),
            final(self).open,
    {
        self.init_from_parts(utc_civil(secs));
    }

    /// Reads the fields.
    pub fn to_timestamp(&self, use_local: bool) -> (r: TypedTime)
        ensures
            r == self.typed(use_local),
    {
        parse_time(
            self.year.as_str(),
            self.month.as_str(),
            self.day.as_str(),
            self.hour.as_str(),
            self.minute.as_str(),
            self.second.as_str(),
            use_local,
        )
    }

    /// Closes the picker and empties its fields.
    pub fn close(&mut self)
        ensures
            final(self).is_reset(),
    {
        *self = DateTimePickerState::default();
    }

    /// Whether taking over what a pasted text stands for made of one picker
    /// another: fields are taken verbatim, an instant in UTC by its date and time,
    /// and an instant to be shown in the viewer's zone is handed back.
    pub open spec fn took(
        before: Self,
        after: Self,
        p: Pasted,
        use_local: bool,
        r: PasteOutcome,
    ) -> bool {
        match p {
            Pasted::Nothing => r == PasteOutcome::Rejected && after == before,
            Pasted::Fields(c) => r == PasteOutcome::Filled && after.shows(c) && after.open
                == before.open,
            Pasted::Instant(secs) => if use_local {
                r == PasteOutcome::ConvertToLocal(secs) && after == before
            } else {
                r == PasteOutcome::Filled && after.shows(crate::calendar::civil_at(secs as int))
                    && after.open
            },
        }
    }

    /// Takes over what a pasted text stands for.
    pub fn fill(&mut self, p: Pasted, use_local: bool) -> (r: PasteOutcome)
        requires
            p matches Pasted::Instant(secs) ==> crate::calendar::in_calendar(secs as int),
        ensures
            Self::took(*old(self), *final(self), p, use_local, r),
    {
        match p {
            Pasted::Nothing => PasteOutcome::Rejected,
            Pasted::Fields(c) => {
                self.set_parts(c);
                PasteOutcome::Filled
            },
            Pasted::Instant(secs) => {
                if use_local {
                    PasteOutcome::ConvertToLocal(secs)
                } else {
                    self.init_from_timestamp(secs);
                    PasteOutcome::Filled
                }
            },
        }
    }

    /// Fills every field from a pasted timestamp.
    ///
    /// Accepts RFC 3339 with an offset, which names an instant and is converted
    /// to the displayed zone; a date and time to the second, the minute or the
    /// day, taken verbatim in the displayed zone; and a bare epoch in seconds or
    /// milliseconds. Only what looks like a whole timestamp is ever taken.
    pub fn apply_paste(&mut self, text: &str, use_local: bool) -> (r: PasteOutcome)
        ensures
            ({
                let t = crate::text::trimmed(text@);
                Self::took(
                    *old(self),
                    *final(self),
                    pasted(
                        t,
                        crate::calendar::rfc3339_seconds(t),
                        first_date_time(t),
                        crate::calendar::naive_date(t, "%Y-%m-%d"@),
                    ),
                    use_local,
                    r,
                )
            }),
            is_bare_epoch(crate::text::trimmed(text@)) ==> Self::took(
                *old(self),
                *final(self),
                Pasted::Instant(bare_epoch_seconds(crate::text::trimmed(text@)) as i64),
                use_local,
                r,
            ),
            r != PasteOutcome::Rejected ==> timestamp_like(text@),
    {
        let t = trim(text);
        let rfc3339 = parse_rfc3339(t.as_str());
        let mut date_time = parse_naive_date_time(t.as_str(), "%Y-%m-%dT%H:%M:%S");
        if date_time.is_none() {
            date_time = parse_naive_date_time(t.as_str(), "%Y-%m-%d %H:%M:%S");
        }
        if date_time.is_none() {
            date_time = parse_naive_date_time(t.as_str(), "%Y-%m-%dT%H:%M");
        }
        if date_time.is_none() {
            date_time = parse_naive_date_time(t.as_str(), "%Y-%m-%d %H:%M");
        }
        let date = parse_naive_date(t.as_str(), "%Y-%m-%d");
        let p = read_paste(t.as_str(), rfc3339, date_time, date);
        proof {
            lemma_paste_formats();
            if is_bare_epoch(t@) {
                lemma_thirteen_digits(t@);
                lemma_epochs_in_calendar(bare_epoch_seconds(t@));
                assert(!t@.contains('-')) by {
                    assert(!crate::text::is_digit('-'));
                }
            }
        }
        self.fill(p, use_local)
    }
}

proof fn lemma_paste_formats()
    ensures
        crate::calendar::is_plain_format("%Y-%m-%dT%H:%M:%S"@),
        crate::calendar::is_plain_format("%Y-%m-%d %H:%M:%S"@),
        crate::calendar::is_plain_format("%Y-%m-%dT%H:%M"@),
        crate::calendar::is_plain_format("%Y-%m-%d %H:%M"@),
        crate::calendar::is_plain_format("%Y-%m-%d"@),
        "%Y-%m-%dT%H:%M:%S"@.contains('-'),
        "%Y-%m-%d %H:%M:%S"@.contains('-'),
        "%Y-%m-%dT%H:%M"@.contains('-'),
        "%Y-%m-%d %H:%M"@.contains('-'),
        "%Y-%m-%d"@.contains('-'),
{
    reveal_strlit("%Y-%m-%dT%H:%M:%S");
    reveal_strlit("%Y-%m-%d %H:%M:%S");
    reveal_strlit("%Y-%m-%dT%H:%M");
    reveal_strlit("%Y-%m-%d %H:%M");
    reveal_strlit("%Y-%m-%d");
    lemma_time_format("%Y-%m-%dT%H:%M:%S"@);
    lemma_time_format("%Y-%m-%d %H:%M:%S"@);
    lemma_time_format("%Y-%m-%dT%H:%M"@);
    lemma_time_format("%Y-%m-%d %H:%M"@);
    lemma_time_format("%Y-%m-%d"@);
}

/// Fields of two characters with one character between any two of them.
proof fn lemma_time_format(f: Seq<char>)
    requires
        f.len() % 3 == 2,
        forall|i: int|
            #![trigger f[i]]
            0 <= i < f.len() ==> if i % 3 == 0 {
                f[i] == '%'
            } else if i % 3 == 1 {
                crate::calendar::is_format_field(f[i])
            } else {
                f[i] != '%'
            },
    ensures
        crate::calendar::is_plain_format(f),
        f.len() > 2 && f[2] == '-' ==> f.contains('-'),
    decreases f.len(),
{
    reveal_with_fuel(crate::calendar::is_plain_format, 3);
    assert(f[0] == '%' && crate::calendar::is_format_field(f[1]));
    if f.len() > 2 {
        lemma_time_format(f.skip(3));
        assert(f.skip(2).skip(1) =~= f.skip(3));
    }
}

/// A run of digits has no white space around it.
proof fn lemma_trimmed_digits(t: Seq<char>)
    requires
        crate::text::all_digits(t),
    ensures
        crate::text::trimmed(t) == t,
{
    if t.len() > 0 {
        assert(crate::text::is_digit(t[0]) && crate::text::is_digit(t[t.len() - 1]));
    }
    assert(t.skip(0) =~= t);
    assert(t.take(t.len() as int) =~= t);
}

/// Epoch seconds and epoch milliseconds agree: ten digits, and the same ten with
/// the three of a millisecond behind them, are read as the same instant.
pub proof fn epoch_seconds_and_millis_agree(t: Seq<char>, millis: Seq<char>)
    requires
        t.len() == 10,
        crate::text::all_digits(t),
        millis.len() == 3,
        crate::text::all_digits(millis),
    ensures
        is_bare_epoch(crate::text::trimmed(t)),
        is_bare_epoch(crate::text::trimmed(t + millis)),
        bare_epoch_seconds(crate::text::trimmed(t)) == bare_epoch_seconds(
            crate::text::trimmed(t + millis),
        ),
        pasted(crate::text::trimmed(t), None, None, None) == pasted(
            crate::text::trimmed(t + millis),
            None,
            None,
            None,
        ),
{
    let long = t + millis;
    assert forall|i: int| 0 <= i < long.len() implies crate::text::is_digit(
        #[trigger] long[i],
    ) by {
        assert(long[i] == if i < 10 {
            t[i]
        } else {
            millis[i - 10]
        });
    }
    lemma_trimmed_digits(t);
    lemma_trimmed_digits(long);
    reveal_with_fuel(crate::text::digits_value, 4);
    assert(long.drop_last().drop_last().drop_last() =~= t);
    assert(long.last() == millis[2]);
    assert(long.drop_last().last() == millis[1]);
    assert(long.drop_last().drop_last().last() == millis[0]);
    lemma_thirteen_digits(t);
}

/// Two pastes into one picker that name the same instant end alike: the same is
/// said of both, neither is rejected, and the same is shown.
pub proof fn equal_instants_paste_alike(
    before: DateTimePickerState,
    secs: i64,
    use_local: bool,
    first: (DateTimePickerState, PasteOutcome),
    second: (DateTimePickerState, PasteOutcome),
)
    requires
        DateTimePickerState::took(before, first.0, Pasted::Instant(secs), use_local, first.1),
        DateTimePickerState::took(before, second.0, Pasted::Instant(secs), use_local, second.1),
    ensures
        first.1 == second.1,
        first.1 != PasteOutcome::Rejected,
        first.0.open == second.0.open,
        first.0.year@ == second.0.year@,
        first.0.month@ == second.0.month@,
        first.0.day@ == second.0.day@,
        first.0.hour@ == second.0.hour@,
        first.0.minute@ == second.0.minute@,
        first.0.second@ == second.0.second@,
{
}

proof fn lemma_epochs_in_calendar(secs: int)
    requires
        0 <= secs < 10_000_000_000,
    ensures
        crate::calendar::in_calendar(secs),
{
    reveal_with_fuel(crate::calendar::days_before_month, 2);
}

/// The picker reads back what it was opened on: fields that show an existing
/// date and time amount to its instant in UTC, and to itself in the viewer's
/// zone.
pub proof fn picker_reads_back_what_it_shows(p: DateTimePickerState, c: CivilTime)
    requires
        p.shows(c),
        crate::calendar::is_civil(c),
    ensures
        p.typed(false) == TypedTime::At(crate::calendar::epoch_seconds(c) as i64),
        p.typed(true) == TypedTime::Local(local_fields(c)),
{
    crate::text::lemma_padded_signed_reads_back(c.year as int, 4);
    crate::text::lemma_padded_reads_back(c.month as nat, 2);
    crate::text::lemma_padded_reads_back(c.day as nat, 2);
    crate::text::lemma_padded_reads_back(c.hour as nat, 2);
    crate::text::lemma_padded_reads_back(c.minute as nat, 2);
    crate::text::lemma_padded_reads_back(c.second as nat, 2);
}

/// One editable component of the picker.
#[derive(Clone, Copy, Debug, PartialEq, Eq, Structural)]
pub enum PickerField {
    Year,
    Month,
    Day,
    Hour,
    Minute,
    Second,
}

impl PickerField {
    /// Smallest value, largest value and width of the field.
    pub open spec fn bounds(self) -> (int, int, int) {
        match self {
            PickerField::Year => (1991, 2100, 4),
            PickerField::Month => (1, 12, 2),
            PickerField::Day => (1, 31, 2),
            PickerField::Hour => (0, 23, 2),
            PickerField::Minute => (0, 59, 2),
            PickerField::Second => (0, 59, 2),
        }
    }

    /// Smallest value, largest value and width of the field.
    ///
    /// The year starts with the archive. The day reaches 31 whatever the month:
    /// `to_timestamp` is what rejects a date that does not exist.
    pub fn range(self) -> (r: (i64, i64, usize))
        ensures
            r.0 == self.bounds().0,
            r.1 == self.bounds().1,
            r.2 == self.bounds().2,
    {
        match self {
            PickerField::Year => (1991, 2100, 4),
            PickerField::Month => (1, 12, 2),
            PickerField::Day => (1, 31, 2),
            PickerField::Hour => (0, 23, 2),
            PickerField::Minute => (0, 59, 2),
            PickerField::Second => (0, 59, 2),
        }
    }
}

pub open spec fn clamped(v: int, lo: int, hi: int) -> int {
    if v < lo {
        lo
    } else if v > hi {
        hi
    } else {
        v
    }
}

/// A field's text after a nudge: the number moved and held within the field's
/// range, filled with zeros; text that is no number stays as it is.
pub open spec fn nudged(text: Seq<char>, field: PickerField, delta: int) -> Seq<char> {
    let (lo, hi, width) = field.bounds();
    match crate::text::parsed_i64(crate::text::trimmed(text)) {
        Some(v) => crate::text::padded(clamped(v + delta, lo, hi) as nat, width),
        None => text,
    }
}

/// Nudges one field buffer. The number is held within the field's range
/// rather than wrapped: a wrap that does not carry into the next field would
/// land on another day.
pub fn nudge_buf(buf: &mut String, field: PickerField, delta: i64)
    ensures
        final(buf)@ == nudged(old(buf)@, field, delta as int),
{
    let (lo, hi, width) = field.range();
    let t = trim(buf.as_str());
    if let Some(current) = parse_i64(t.as_str()) {
        let moved: i128 = current as i128 + delta as i128;
        let next: i64 = if moved < lo as i128 {
            lo
        } else if moved > hi as i128 {
            hi
        } else {
            moved as i64
        };
        *buf = crate::text::padded_text(next as u64, width);
    }
}

/// A nudged field holds a number of the field's range, however far the nudge.
pub proof fn nudge_stays_in_range(text: Seq<char>, field: PickerField, delta: int)
    requires
        crate::text::parsed_i64(crate::text::trimmed(text)) is Some,
    ensures
        ({
            let (lo, hi, width) = field.bounds();
            let v = crate::text::parsed_i64(nudged(text, field, delta));
            v is Some && lo <= v->0 <= hi && nudged(text, field, delta).len() >= width
        }),
{
    let (lo, hi, width) = field.bounds();
    let n = clamped(crate::text::parsed_i64(crate::text::trimmed(text))->0 + delta, lo, hi);
    crate::text::lemma_padded(n as nat, width);
    assert(crate::text::is_digit(nudged(text, field, delta)[0]));
}

/// Whether a pasted text looks like a whole timestamp rather than the digits
/// of one field.
pub open spec fn timestamp_like(s: Seq<char>) -> bool {
    let t = crate::text::trimmed(s);
    t.contains('-') || t.contains(':') || (t.len() >= 10 && crate::text::all_digits(t))
}

/// Whether a pasted text looks like a whole timestamp rather than the digits
/// of one field, which paste into that field as usual.
pub fn looks_like_timestamp(s: &str) -> (b: bool)
    ensures
        b == timestamp_like(s@),
{
    let v = chars_of(trim(s).as_str());
    let mut i: usize = 0;
    while i < v.len()
        invariant
            i <= v@.len(),
            v@ == crate::text::trimmed(s@),
            forall|k: int| 0 <= k < i ==> v@[k] != '-' && v@[k] != ':',
        decreases v@.len() - i,
    {
        if v[i] == '-' || v[i] == ':' {
            assert(v@[i as int] == '-' || v@[i as int] == ':');
            return true;
        }
        i += 1;
    }
    v.len() >= 10 && all_ascii_digits(&v)
}

/// Whether `r` is the first of the pasted texts that looks like a time, or none where
/// none does.
pub open spec fn is_first_timestamp(pastes: Seq<String>, r: Option<usize>) -> bool {
    match r {
        Some(k) => k < pastes.len() && timestamp_like(pastes[k as int]@) && forall|j: int|
            0 <= j < k ==> !timestamp_like(#[trigger] pastes[j]@),
        None => forall|j: int| 0 <= j < pastes.len() ==> !timestamp_like(#[trigger] pastes[j]@),
    }
}

/// The first of several pasted texts that looks like a whole timestamp.
pub fn first_timestamp_paste(pastes: &Vec<String>) -> (r: Option<usize>)
    ensures
        is_first_timestamp(pastes@, r),
        match r {
            Some(k) => k < pastes@.len() && timestamp_like(pastes@[k as int]@) && forall|j: int|
                0 <= j < k ==> !timestamp_like(#[trigger] pastes@[j]@),
            None => forall|j: int|
                0 <= j < pastes@.len() ==> !timestamp_like(#[trigger] pastes@[j]@),
        },
{
    let mut i: usize = 0;
    while i < pastes.len()
        invariant
            i <= pastes@.len(),
            forall|j: int| 0 <= j < i ==> !timestamp_like(#[trigger] pastes@[j]@),
        decreases pastes@.len() - i,
    {
        if looks_like_timestamp(pastes[i].as_str()) {
            return Some(i);
        }
        i += 1;
    }
    None
}

/// What the site modal shows first.
#[derive(Clone, Copy, Debug, PartialEq, Eq, Structural)]
pub enum SiteModalMode {
    Welcome,
    Browse,
}

/// State of the site modal.
#[derive(Debug)]
pub struct SiteModalState {
    pub mode: SiteModalMode,
    pub filter: String,
    pub zip_input: String,
    pub error_message: Option<String>,
    /// Whether the viewer is greeted as a newcomer.
    pub is_first_visit: bool,
}

/// The state of all modals.
#[derive(Debug)]
pub struct ModalStates {
    pub site: SiteModalState,
    pub event: EventModalState,
    pub mping: MpingModalState,
    pub datetime: DateTimePickerState,
}

impl ModalStates {
    /// All forms empty. A viewer who has picked a site before is no newcomer.
    pub fn new(has_preferred_site: bool) -> (m: Self)
        ensures
            m.site.mode == SiteModalMode::Welcome,
            m.site.filter@.len() == 0,
            m.site.zip_input@.len() == 0,
            m.site.error_message is None,
            m.site.is_first_visit == !has_preferred_site,
            !m.event.initialized,
            m.event.name@.len() == 0,
            m.event.site_id@.len() == 0,
            m.event.start.is_blank(),
            m.event.end.is_blank(),
            m.mping.key_input@.len() == 0,
            !m.mping.seeded,
            m.datetime.is_reset(),
    {
        ModalStates {
            site: SiteModalState {
                mode: SiteModalMode::Welcome,
                filter: String::new(),
                zip_input: String::new(),
                error_message: None,
                is_first_visit: !has_preferred_site,
            },
            event: EventModalState::default(),
            mping: MpingModalState::default(),
            datetime: DateTimePickerState::default(),
        }
    }
}

/// Typed fields are read each for its own part of the time, and only all together.
pub proof fn each_field_is_read_for_its_part(
    year: Seq<char>,
    month: Seq<char>,
    day: Seq<char>,
    hour: Seq<char>,
    minute: Seq<char>,
    second: Seq<char>,
)
    ensures
        match typed_fields(year, month, day, hour, minute, second) {
            Some(c) => {
                &&& crate::text::parsed_i32(year) == Some(c.year as int)
                &&& crate::text::parsed_u32(month) == Some(c.month as int)
                &&& crate::text::parsed_u32(day) == Some(c.day as int)
                &&& crate::text::parsed_u32(hour) == Some(c.hour as int)
                &&& crate::text::parsed_u32(minute) == Some(c.minute as int)
                &&& crate::text::parsed_u32(second) == Some(c.second as int)
            },
            None => {
                ||| crate::text::parsed_i32(year) is None
                ||| crate::text::parsed_u32(month) is None
                ||| crate::text::parsed_u32(day) is None
                ||| crate::text::parsed_u32(hour) is None
                ||| crate::text::parsed_u32(minute) is None
                ||| crate::text::parsed_u32(second) is None
            },
        },
{
}

/// A local time keeps its fields, the month counted from zero; a universal one
/// becomes the instant that it names.
pub proof fn times_are_placed_in_their_zone(c: CivilTime)
    ensures
        crate::calendar::is_date_time(c) ==> (placed(Some(c), true) matches TypedTime::Local(f)
            && f.year == c.year && f.month0 + 1 == c.month && f.day == c.day && f.hour == c.hour
            && f.minute == c.minute && f.second == c.second),
        crate::calendar::is_civil(c) ==> placed(Some(c), false) == TypedTime::At(
            crate::calendar::epoch_seconds(c) as i64,
        ),
        placed(None, true) == TypedTime::Invalid && placed(None, false) == TypedTime::Invalid,
{
}

/// Ten digits are seconds from the epoch, eleven to thirteen are milliseconds; fewer
/// or more, or anything but digits, are neither.
pub proof fn bare_digits_are_seconds_or_milliseconds(t: Seq<char>)
    ensures
        is_bare_epoch(t) ==> 10 <= t.len() <= 13 && crate::text::all_digits(t),
        crate::text::all_digits(t) && 10 <= t.len() <= 13 ==> is_bare_epoch(t),
        t.len() == 10 ==> bare_epoch_seconds(t) == crate::text::digits_value(t),
        11 <= t.len() <= 13 ==> 1000 * bare_epoch_seconds(t) <= crate::text::digits_value(t) < 1000
            * bare_epoch_seconds(t) + 1000,
{
}

/// A pasted text is read as an instant with its zone before all else, then as bare
/// digits, then as a date and time, then as a date, which begins at midnight.
pub proof fn pasted_texts_are_read_in_turn(
    t: Seq<char>,
    instant: i64,
    date_time: (i32, u32, u32, u32, u32, u32),
    date: (i32, u32, u32),
)
    requires
        t.len() > 0,
    ensures
        pasted(t, Some(instant), Some(date_time), Some(date)) == Pasted::Instant(instant),
        is_bare_epoch(t) ==> pasted(t, None, Some(date_time), Some(date)) == Pasted::Instant(
            bare_epoch_seconds(t) as i64,
        ),
        !is_bare_epoch(t) ==> pasted(t, None, Some(date_time), Some(date)) == Pasted::Fields(
            CivilTime {
                year: date_time.0,
                month: date_time.1,
                day: date_time.2,
                hour: date_time.3,
                minute: date_time.4,
                second: date_time.5,
            },
        ),
        !is_bare_epoch(t) ==> pasted(t, None, None, Some(date)) == Pasted::Fields(
            CivilTime {
                year: date.0,
                month: date.1,
                day: date.2,
                hour: 0,
                minute: 0,
                second: 0,
            },
        ),
        !is_bare_epoch(t) ==> pasted(t, None, None, None) == Pasted::Nothing,
        pasted(Seq::empty(), Some(instant), Some(date_time), Some(date)) == Pasted::Nothing,
{
}

/// A date and time is taken with a `T` or a space between them, with seconds or
/// without: the first form that fits, seconds before none.
pub proof fn dates_and_times_are_read_in_four_forms(t: Seq<char>)
    ensures
        ({
            let a = crate::calendar::naive_date_time(t, "%Y-%m-%dT%H:%M:%S"@);
            let b = crate::calendar::naive_date_time(t, "%Y-%m-%d %H:%M:%S"@);
            let c = crate::calendar::naive_date_time(t, "%Y-%m-%dT%H:%M"@);
            let d = crate::calendar::naive_date_time(t, "%Y-%m-%d %H:%M"@);
            &&& a is Some ==> first_date_time(t) == a
            &&& a is None && b is Some ==> first_date_time(t) == b
            &&& a is None && b is None && c is Some ==> first_date_time(t) == c
            &&& a is None && b is None && c is None && d is Some ==> first_date_time(t) == d
            &&& first_date_time(t) is None <==> a is None && b is None && c is None && d is None
        }),
{
}

/// Filling the picker shows the time in it, opens it only for an instant, and leaves
/// it alone where nothing could be read or the browser has to convert first.
pub proof fn a_paste_fills_the_picker_or_leaves_it(
    before: DateTimePickerState,
    after: DateTimePickerState,
    p: Pasted,
    use_local: bool,
    r: PasteOutcome,
)
    requires
        DateTimePickerState::took(before, after, p, use_local, r),
    ensures
        r == PasteOutcome::Rejected <==> p == Pasted::Nothing,
        r == PasteOutcome::Rejected || r is ConvertToLocal ==> after == before,
        p matches Pasted::Instant(secs) ==> (use_local ==> r == PasteOutcome::ConvertToLocal(secs)),
        p matches Pasted::Instant(secs) ==> (!use_local ==> after.shows(
            crate::calendar::civil_at(secs as int),
        ) && after.open),
        p matches Pasted::Fields(c) ==> after.shows(c) && after.open == before.open,
{
}

/// Each field of the picker has its bounds: the years of the archive, the months of
/// a year, the days of the longest month, and the parts of a day.
pub proof fn fields_have_their_bounds()
    ensures
        PickerField::Year.bounds() == (1991int, 2100int, 4int),
        PickerField::Month.bounds() == (1int, 12int, 2int),
        PickerField::Day.bounds() == (1int, 31int, 2int),
        PickerField::Hour.bounds() == (0int, 24 - 1, 2int),
        PickerField::Minute.bounds() == (0int, 60 - 1, 2int),
        PickerField::Second.bounds() == PickerField::Minute.bounds(),
{
}

/// A nudge adds to what the field reads, and stops at the nearer bound; what is no
/// number stays.
pub proof fn a_nudge_adds_to_the_field(text: Seq<char>, field: PickerField, delta: int, v: int)
    ensures
        crate::text::parsed_i64(crate::text::trimmed(text)) is None ==> nudged(text, field, delta)
            == text,
        crate::text::parsed_i64(crate::text::trimmed(text)) == Some(v) ==> {
            let (lo, hi, width) = field.bounds();
            let shown = crate::text::digits_value(nudged(text, field, delta));
            &&& lo <= v + delta <= hi ==> shown == v + delta
            &&& v + delta < lo ==> shown == lo
            &&& v + delta > hi ==> shown == hi
            &&& nudged(text, field, delta).len() == width
        },
{
    let (lo, hi, width) = field.bounds();
    let n = clamped(v + delta, lo, hi) as nat;
    crate::text::lemma_padded(n, width);
    crate::text::padding_fills_the_width(n);
}

/// A bounded value is within its bounds, and is the value where that is.
pub proof fn bounds_hold_a_value(v: int, lo: int, hi: int)
    requires
        lo <= hi,
    ensures
        lo <= clamped(v, lo, hi) <= hi,
        lo <= v <= hi ==> clamped(v, lo, hi) == v,
        v <= lo ==> clamped(v, lo, hi) == lo,
        v >= hi ==> clamped(v, lo, hi) == hi,
{
}

/// A text looks like a time where a dash or a colon is in it, or where it is ten
/// digits or more, but for space around it.
pub proof fn times_have_a_dash_a_colon_or_ten_digits(s: Seq<char>)
    ensures
        crate::text::trimmed(s).contains('-') ==> timestamp_like(s),
        crate::text::trimmed(s).contains(':') ==> timestamp_like(s),
        crate::text::trimmed(s).len() >= 10 && crate::text::all_digits(crate::text::trimmed(s))
            ==> timestamp_like(s),
        timestamp_like(s) ==> crate::text::trimmed(s).contains('-') || crate::text::trimmed(
            s,
        ).contains(':') || crate::text::trimmed(s).len() >= 10,
        timestamp_like(crate::text::trimmed(s)) == timestamp_like(s),
{
    crate::text::trimming_once_is_enough(s);
}

/// Of what was pasted the first text that looks like a time is taken.
pub proof fn the_first_timestamp_is_taken(pastes: Seq<String>, r: Option<usize>, j: int)
    requires
        is_first_timestamp(pastes, r),
        0 <= j < pastes.len(),
        timestamp_like(pastes[j]@),
    ensures
        r is Some,
        r->0 <= j,
        timestamp_like(pastes[r->0 as int]@),
{
}

/// A pasted number of seconds fills the picker with the instant it counts to.
pub proof fn pasted_seconds_fill_the_picker(
    p: &mut DateTimePickerState,
    text: &str,
    secs: i64,
    r: PasteOutcome,
)
    requires
        call_ensures(DateTimePickerState::apply_paste, (p, text, false), r),
        text@.len() == 10,
        crate::text::all_digits(text@),
        secs == crate::text::digits_value(text@),
    ensures
        r == PasteOutcome::Filled,
        final(p).open,
        final(p).typed(false) == TypedTime::At(secs),
{
    lemma_trimmed_digits(text@);
    lemma_thirteen_digits(text@);
    lemma_epochs_in_calendar(secs as int);
    crate::calendar::civil_time_exists(secs as int);
    picker_reads_back_what_it_shows(*final(p), crate::calendar::civil_at(secs as int));
}

/// A picker that is set to an instant shows it, and reads back as it.
pub proof fn a_picker_reads_back_its_instant(p: &mut DateTimePickerState, secs: i64, r: ())
    requires
        crate::calendar::in_calendar(secs as int),
        call_ensures(DateTimePickerState::init_from_timestamp, (p, secs), r),
    ensures
        final(p).open,
        final(p).typed(false) == TypedTime::At(secs),
{
    crate::calendar::civil_time_exists(secs as int);
    picker_reads_back_what_it_shows(*final(p), crate::calendar::civil_at(secs as int));
}

} // verus!
