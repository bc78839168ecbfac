//! What the probe, the ruler and the storm markers say.

use crate::binary::{double_of, push_double, show_degrees, show_tenths, show_thousandths};
use crate::colors::{from_rgb, Color32};
use crate::text::{push_decimal, push_padded, push_ten_thousandths, push_tenths, round_div};
use vstd::prelude::*;
use vstd::string::*;

verus! {

/// A minus sign, where asked for.
pub open spec fn sign(negative: bool) -> Seq<char> {
    if negative {
        seq!['-']
    } else {
        seq![]
    }
}

pub open spec fn size(v: int) -> int {
    if v < 0 {
        -v
    } else {
        v
    }
}

fn push_sign(out: &mut String, negative: bool)
    ensures
        final(out)@ == old(out)@ + sign(negative),
{
    if negative {
        out.push('-');
    }
    assert(out@ =~= old(out)@ + sign(negative));
}

fn size_of(v: i64) -> (r: u64)
    ensures
        r == size(v as int),
{
    if v >= 0 {
        v as u64
    } else {
        (-(v + 1)) as u64 + 1
    }
}

/// A number of thousandths with three decimals.
pub open spec fn thousandths(n: nat) -> Seq<char> {
    crate::text::decimal(n / 1000) + seq!['.'] + crate::text::padded(n % 1000, 3)
}

/// A position to four decimals of a degree, north and west. Given in millionths
/// of a degree, north and east.
///
/// The western longitude is the negated eastern one, and carries its minus sign
/// on the meridian itself too.
pub open spec fn position_text(lat: int, lon: int) -> Seq<char> {
    sign(lat < 0) + crate::text::ten_thousandths(crate::binary::shown_degrees(size(lat)) as nat)
        + "\u{b0}N "@ + sign(lon >= 0) + crate::text::ten_thousandths(
        crate::binary::shown_degrees(size(lon)) as nat,
    ) + "\u{b0}W"@
}

/// The line on the probed position.
pub fn position_line(lat: i64, lon: i64) -> (s: String)
    ensures
        s@ == position_text(lat as int, lon as int),
{
    let mut s = String::new();
    push_sign(&mut s, lat < 0);
    push_ten_thousandths(&mut s, show_degrees(size_of(lat)));
    s.append("\u{b0}N ");
    push_sign(&mut s, lon >= 0);
    push_ten_thousandths(&mut s, show_degrees(size_of(lon)));
    s.append("\u{b0}W");
    assert(s@ =~= position_text(lat as int, lon as int));
    s
}

/// The direction and the distance of the probed position from the radar.
pub open spec fn polar_text(azimuth: int, range_m: int) -> Seq<char> {
    "Az: "@ + crate::binary::double_text(crate::binary::double(azimuth)) + "\u{b0}  Rng: "@
        + crate::binary::double_text(crate::binary::double(range_m)) + " km"@
}

/// The line on the probed position seen from the radar, given in thousandths of
/// a degree and in metres.
pub fn polar_line(azimuth: u64, range_m: u64) -> (s: String)
    ensures
        s@ == polar_text(azimuth as int, range_m as int),
{
    let mut s = String::new();
    s.append("Az: ");
    push_double(&mut s, double_of(azimuth));
    s.append("\u{b0}  Rng: ");
    push_double(&mut s, double_of(range_m));
    s.append(" km");
    assert(s@ =~= polar_text(azimuth as int, range_m as int));
    s
}

/// A probed value, given in thousandths: three decimals for a product without a
/// unit, one before a unit.
pub open spec fn value_text(code: Seq<char>, value: int, unit: Seq<char>) -> Seq<char> {
    code + ": "@ + sign(value < 0) + if unit.len() == 0 {
        thousandths(crate::binary::shown_thousandths(size(value)) as nat)
    } else {
        crate::text::tenths(crate::binary::shown_tenths(size(value)) as nat) + " "@ + unit
    }
}

/// The line on the probed value.
pub fn value_line(code: &str, value: i64, unit: &str) -> (s: String)
    ensures
        s@ == value_text(code@, value as int, unit@),
{
    let mut s = String::new();
    s.append(code);
    s.append(": ");
    push_sign(&mut s, value < 0);
    let n: u64 = size_of(value);
    if unit.unicode_len() == 0 {
        let shown: u128 = show_thousandths(n);
        push_decimal(&mut s, (shown / 1000) as u64);
        s.push('.');
        push_padded(&mut s, (shown % 1000) as u64, 3);
    } else {
        push_tenths(&mut s, show_tenths(n));
        s.append(" ");
        s.append(unit);
    }
    assert(s@ =~= value_text(code@, value as int, unit@));
    s
}

/// What the probe found.
#[derive(Clone, Copy, Debug)]
pub struct Probe {
    /// Millionths of a degree.
    pub lat: i64,
    pub lon: i64,
    /// Thousandths of a degree.
    pub azimuth: u64,
    pub range_m: u64,
    /// Thousandths of the product's unit.
    pub value: Option<i64>,
}

/// The probe's lines: position, direction and distance, then value and
/// collection time where they are known.
pub open spec fn probe_text(p: Probe, code: Seq<char>, unit: Seq<char>, time: Option<Seq<char>>) -> Seq<
    Seq<char>,
> {
    let placed = seq![
        position_text(p.lat as int, p.lon as int),
        polar_text(p.azimuth as int, p.range_m as int),
    ];
    let valued = match p.value {
        Some(v) => placed.push(value_text(code, v as int, unit)),
        None => placed,
    };
    match time {
        Some(t) => valued.push(t),
        None => valued,
    }
}

/// The probe's lines. `time` is the text of the collection time.
pub fn probe_lines(p: Probe, code: &str, unit: &str, time: Option<String>) -> (r: Vec<String>)
    ensures
        r@.map_values(|s: String| s@) == probe_text(
            p,
            code@,
            unit@,
            match time {
                Some(t) => Some(t@),
                None => None,
            },
        ),
{
    let mut r: Vec<String> = Vec::new();
    r.push(position_line(p.lat, p.lon));
    r.push(polar_line(p.azimuth, p.range_m));
    if let Some(v) = p.value {
        r.push(value_line(code, v, unit));
    }
    let ghost shown = match &time {
        Some(t) => Some(t@),
        None => None,
    };
    if let Some(t) = time {
        r.push(t);
    }
    assert(r@.map_values(|s: String| s@) =~= probe_text(p, code@, unit@, shown));
    r
}

/// A distance in kilometres, nautical miles and miles, given in metres.
pub open spec fn distance_text(metres: int) -> Seq<char> {
    crate::binary::double_text(crate::binary::double(metres)) + " km / "@
        + crate::text::tenths(crate::text::rounded(metres * 539_957, 100_000_000) as nat)
        + " nm / "@ + crate::text::tenths(
        crate::text::rounded(metres * 621_371, 100_000_000) as nat,
    ) + " mi"@
}

/// The ruler's label.
pub fn distance_label(metres: u64) -> (s: String)
    requires
        metres * 621_371 <= u64::MAX,
    ensures
        s@ == distance_text(metres as int),
{
    let mut s = String::new();
    push_double(&mut s, double_of(metres));
    s.append(" km / ");
    push_tenths(&mut s, round_div(metres * 539_957, 100_000_000));
    s.append(" nm / ");
    push_tenths(&mut s, round_div(metres * 621_371, 100_000_000));
    s.append(" mi");
    assert(s@ =~= distance_text(metres as int));
    s
}

/// Colour of a storm's marker, by its strongest echo in tenths of a dBZ.
pub fn storm_color(max_dbz_tenths: i64) -> (c: Color32)
    ensures
        c == (if max_dbz_tenths >= 600 {
            crate::colors::rgb(255, 50, 50)
        } else if max_dbz_tenths >= 500 {
            crate::colors::rgb(255, 150, 50)
        } else {
            crate::colors::rgb(255, 220, 80)
        }),
{
    if max_dbz_tenths >= 600 {
        from_rgb(255, 50, 50)
    } else if max_dbz_tenths >= 500 {
        from_rgb(255, 150, 50)
    } else {
        from_rgb(255, 220, 80)
    }
}

/// Label of a storm's marker: its strongest echo in whole dBZ.
pub fn storm_label(max_dbz_tenths: i64) -> (s: String)
    ensures
        s@ == sign(max_dbz_tenths < 0) + crate::text::decimal(
            crate::text::rounded(size(max_dbz_tenths as int), 10) as nat,
        ),
{
    let mut s = String::new();
    push_sign(&mut s, max_dbz_tenths < 0);
    push_decimal(&mut s, round_div(size_of(max_dbz_tenths), 10));
    assert(s@ =~= sign(max_dbz_tenths < 0) + crate::text::decimal(
        crate::text::rounded(size(max_dbz_tenths as int), 10) as nat,
    ));
    s
}

/// A position is told as its latitude and then its longitude, each to the nearest
/// ten-thousandth of a degree: degrees north, less than zero in the south, and
/// degrees west, less than zero in the east.
pub proof fn positions_are_told_north_and_west(lat: int, lon: int, north: int, west: int)
    requires
        lat == north || lat == -north,
        lon == west || lon == -west,
        0 <= north < 0x4_0000_0000_0000,
        0 <= west < 0x4_0000_0000_0000,
    ensures
        exists|n: nat, w: nat|
            {
                &&& position_text(lat, lon) == (if lat < 0 {
                    seq!['-']
                } else {
                    seq![]
                }) + #[trigger] crate::text::ten_thousandths(n) + "\u{b0}N "@ + (if lon >= 0 {
                    seq!['-']
                } else {
                    seq![]
                }) + #[trigger] crate::text::ten_thousandths(w) + "\u{b0}W"@
                &&& north - 50 <= 100 * n <= north + 50
                &&& west - 50 <= 100 * w <= west + 50
            },
{
    crate::binary::the_nearest_ten_thousandth_is_shown(north);
    crate::binary::the_nearest_ten_thousandth_is_shown(west);
    let n = crate::binary::shown_degrees(north) as nat;
    let w = crate::binary::shown_degrees(west) as nat;
    assert(position_text(lat, lon) == (if lat < 0 {
        seq!['-']
    } else {
        seq![]
    }) + crate::text::ten_thousandths(n) + "\u{b0}N "@ + (if lon >= 0 {
        seq!['-']
    } else {
        seq![]
    }) + crate::text::ten_thousandths(w) + "\u{b0}W"@);
}

/// Where the probe lies from the radar is told as azimuth and then range, each to
/// the nearest tenth.
pub proof fn azimuth_comes_before_range(azimuth: int, range_m: int)
    requires
        0 <= azimuth < 0x8_0000_0000_0000,
        0 <= range_m < 0x8_0000_0000_0000,
    ensures
        exists|a: nat, r: nat|
            {
                &&& polar_text(azimuth, range_m) == "Az: "@ + #[trigger] crate::text::tenths(a)
                    + "\u{b0}  Rng: "@ + #[trigger] crate::text::tenths(r) + " km"@
                &&& azimuth - 50 <= 100 * a <= azimuth + 50
                &&& range_m - 50 <= 100 * r <= range_m + 50
            },
{
    crate::binary::the_nearest_tenth_is_shown(azimuth);
    crate::binary::the_nearest_tenth_is_shown(range_m);
    let a = choose|a: nat|
        crate::binary::double_text(crate::binary::double(azimuth))
            == #[trigger] crate::text::tenths(a) && azimuth - 50 <= 100 * a <= azimuth + 50;
    let r = choose|r: nat|
        crate::binary::double_text(crate::binary::double(range_m))
            == #[trigger] crate::text::tenths(r) && range_m - 50 <= 100 * r <= range_m + 50;
    assert(polar_text(azimuth, range_m) == "Az: "@ + crate::text::tenths(a) + "\u{b0}  Rng: "@
        + crate::text::tenths(r) + " km"@);
}

/// A value with a unit is told to the nearest tenth with the unit behind it; one
/// without to the thousandth. A value below zero has a sign.
pub proof fn values_are_told_with_their_unit(
    code: Seq<char>,
    value: int,
    magnitude: int,
    unit: Seq<char>,
)
    requires
        value == magnitude || value == -magnitude,
        0 <= magnitude < 0x40_0000,
    ensures
        unit.len() > 0 ==> exists|t: nat|
            value_text(code, value, unit) == code + ": "@ + (if value < 0 {
                seq!['-']
            } else {
                seq![]
            }) + (#[trigger] crate::text::tenths(t) + " "@ + unit) && magnitude - 50 <= 100 * t
                <= magnitude + 50,
        unit.len() == 0 ==> value_text(code, value, unit) == code + ": "@ + (if value < 0 {
            seq!['-']
        } else {
            seq![]
        }) + thousandths(magnitude as nat),
{
    crate::binary::the_nearest_tenth_is_shown_in_single_precision(magnitude);
    if unit.len() > 0 {
        let t = crate::binary::shown_tenths(magnitude) as nat;
        assert(value_text(code, value, unit) == code + ": "@ + (if value < 0 {
            seq!['-']
        } else {
            seq![]
        }) + (crate::text::tenths(t) + " "@ + unit));
    }
}

/// Three digits stand behind the point of a thousandth.
pub proof fn thousandths_stand_behind_the_point(whole: nat, part: nat)
    requires
        part < 1000,
    ensures
        thousandths(1000 * whole + part) == crate::text::decimal(whole) + seq!['.']
            + crate::text::padded(part, 3),
        crate::text::padded(part, 3).len() == 3,
{
    assert((1000 * whole + part) / 1000 == whole);
    assert((1000 * whole + part) % 1000 == part);
    crate::text::padding_fills_the_width(part);
}

/// The probe tells its position, then where it lies from the radar, then its value
/// where there is one, then the time where that is known.
pub proof fn the_probe_tells_place_value_and_time(
    p: Probe,
    code: Seq<char>,
    unit: Seq<char>,
    time: Option<Seq<char>>,
)
    ensures
        ({
            let lines = probe_text(p, code, unit, time);
            &&& lines.len() == 2 + (if p.value is Some {
                1int
            } else {
                0
            }) + (if time is Some {
                1int
            } else {
                0
            })
            &&& lines[0] == position_text(p.lat as int, p.lon as int)
            &&& lines[1] == polar_text(p.azimuth as int, p.range_m as int)
            &&& p.value is Some ==> lines[2] == value_text(code, p.value->0 as int, unit)
            &&& time is Some ==> lines.last() == time->0
        }),
{
}

/// A distance is told in kilometres, nautical miles of 1852 metres and miles of
/// 1609.344 metres, in this order, each to the tenth that lies nearest.
pub proof fn distances_are_told_in_three_units(metres: int)
    requires
        0 <= metres <= 1_000_000,
    ensures
        exists|km: nat, nm: nat, mi: nat|
            {
                &&& distance_text(metres) == #[trigger] crate::text::tenths(km) + " km / "@
                    + #[trigger] crate::text::tenths(nm) + " nm / "@
                    + #[trigger] crate::text::tenths(mi) + " mi"@
                &&& metres - 50 <= 100 * km <= metres + 50
                &&& 10 * metres - 930 <= 1852 * nm <= 10 * metres + 930
                &&& 10_000 * metres - 808_000 <= 1_609_344 * mi <= 10_000 * metres + 808_000
            },
{
    crate::binary::the_nearest_tenth_is_shown(metres);
    crate::text::rounding_is_to_the_nearest(metres * 539_957, 100_000_000);
    crate::text::rounding_is_to_the_nearest(metres * 621_371, 100_000_000);
    let km = choose|t: nat|
        crate::binary::double_text(crate::binary::double(metres))
            == #[trigger] crate::text::tenths(t) && metres - 50 <= 100 * t <= metres + 50;
    let nm = crate::text::rounded(metres * 539_957, 100_000_000) as nat;
    let mi = crate::text::rounded(metres * 621_371, 100_000_000) as nat;
    assert(distance_text(metres) == crate::text::tenths(km) + " km / "@ + crate::text::tenths(nm)
        + " nm / "@ + crate::text::tenths(mi) + " mi"@);
}

/// Storms are red from sixty, orange from fifty and yellow below.
pub proof fn storms_are_coloured_by_strength(max_dbz_tenths: i64, c: Color32)
    requires
        call_ensures(storm_color, (max_dbz_tenths,), c),
    ensures
        max_dbz_tenths >= 600 <==> c == crate::colors::rgb(255, 50, 50),
        500 <= max_dbz_tenths < 600 <==> c == crate::colors::rgb(255, 150, 50),
        max_dbz_tenths < 500 <==> c == crate::colors::rgb(255, 220, 80),
{
}

/// The lines of the probe take latitude before longitude, and azimuth before range.
pub proof fn probe_lines_take_their_parts_in_order(
    lat: i64,
    lon: i64,
    azimuth: u64,
    range_m: u64,
    position: String,
    polar: String,
)
    requires
        call_ensures(position_line, (lat, lon), position),
        call_ensures(polar_line, (azimuth, range_m), polar),
    ensures
        position@ == position_text(lat as int, lon as int),
        polar@ == polar_text(azimuth as int, range_m as int),
{
}

/// A storm is labelled with its strength to the nearest whole, and a sign below zero.
pub proof fn storms_are_labelled_with_their_strength(dbz_tenths: i64, magnitude: int, s: String)
    requires
        dbz_tenths == magnitude || dbz_tenths == -magnitude,
        0 <= magnitude,
        call_ensures(storm_label, (dbz_tenths,), s),
    ensures
        exists|n: nat|
            s@ == (if dbz_tenths < 0 {
                seq!['-']
            } else {
                seq![]
            }) + #[trigger] crate::text::decimal(n) && magnitude - 5 <= 10 * n <= magnitude + 5,
{
    crate::text::rounding_is_to_the_nearest(magnitude, 10);
    let n = crate::text::rounded(magnitude, 10) as nat;
    assert(s@ == (if dbz_tenths < 0 {
        seq!['-']
    } else {
        seq![]
    }) + crate::text::decimal(n));
}

} // verus!
