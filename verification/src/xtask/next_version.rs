//! The next release version. Versions are `Y.M.DN`: the year, the month,
//! and the day followed by a two-digit release number of that day
//! (`00` to `99`), for the release date in the release time zone
//! (`Europe/Kyiv` unless another is configured).

use chrono::Datelike;
use vstd::prelude::*;
use crate::text::{
    chars_eq, chars_of, decimal, parse_u32, parsed_u32, pieces_view, push_char, push_decimal,
    push_signed_decimal, signed_decimal, split_at_char, split_chars,
};

verus! {

/// The lines of a text: the pieces between `\n`, with a `\r` that
/// precedes a `\n` removed. (When the text ends in `\n` the last piece is
/// empty; an empty line never names a release.)
pub open spec fn text_lines(text: Seq<char>) -> Seq<Seq<char>> {
    let pieces = split_at_char(text, '\n');
    Seq::new(
        pieces.len(),
        |i: int|
            if i < pieces.len() - 1 && pieces[i].len() > 0 && pieces[i].last() == '\r' {
                pieces[i].drop_last()
            } else {
                pieces[i]
            },
    )
}

/// The release number part of a tag `year.month.patch` of the given year
/// and month, when the patch is a number.
pub open spec fn tag_patch(line: Seq<char>, year: int, month: nat) -> Option<u32> {
    let parts = split_at_char(line, '.');
    if parts.len() == 3 && parts[0] == signed_decimal(year) && parts[1] == decimal(month) {
        parsed_u32(parts[2])
    } else {
        None
    }
}

/// The daily release number that must follow a tag: one more than its
/// number when it is a release of the day (patch `day_patch` to
/// `day_patch + 99`), else 0.
pub open spec fn release_after(line: Seq<char>, year: int, month: nat, day_patch: int) -> int {
    match tag_patch(line, year, month) {
        Some(p) => if day_patch <= p <= day_patch + 99 { p - day_patch + 1 } else { 0 },
        None => 0,
    }
}

/// The next daily release number after all the tags in `lines`.
pub open spec fn next_daily_release(lines: Seq<Seq<char>>, year: int, month: nat, day_patch: int) -> int
    decreases lines.len(),
{
    if lines.len() == 0 {
        0
    } else {
        let earlier = next_daily_release(lines.drop_last(), year, month, day_patch);
        let last = release_after(lines.last(), year, month, day_patch);
        if earlier >= last { earlier } else { last }
    }
}

/// The version text `year.month.patch`.
pub open spec fn version_text(year: int, month: nat, patch: nat) -> Seq<char> {
    signed_decimal(year) + seq!['.'] + decimal(month) + seq!['.'] + decimal(patch)
}

/// Why no version could be given.
#[derive(Clone, Copy, Debug, PartialEq, Eq, Structural)]
pub enum NextVersionError {
    /// All hundred release numbers of the day are taken.
    NoReleaseNumbersLeft,
    /// The release time zone is not a known time zone name.
    InvalidTimezone,
}

fn release_after_exec(line: &[char], year_text: &[char], month_text: &[char], day_patch: u32, ghost_year: Ghost<int>, ghost_month: Ghost<nat>) -> (r: u32)
    requires
        year_text@ == signed_decimal(ghost_year@),
        month_text@ == decimal(ghost_month@),
        day_patch as int + 99 <= u32::MAX,
    ensures
        r == release_after(line@, ghost_year@, ghost_month@, day_patch as int),
        r <= 100,
{
    let parts = split_chars(line, '.');
    proof {
        assert(pieces_view(parts@).len() == parts@.len());
    }
    if parts.len() != 3 {
        return 0;
    }
    assert(pieces_view(parts@)[0] == parts@[0]@);
    assert(pieces_view(parts@)[1] == parts@[1]@);
    assert(pieces_view(parts@)[2] == parts@[2]@);
    if !chars_eq(parts[0].as_slice(), year_text) || !chars_eq(parts[1].as_slice(), month_text) {
        return 0;
    }
    match parse_u32(parts[2].as_slice()) {
        Some(patch) => {
            if day_patch <= patch && patch <= day_patch + 99 {
                patch - day_patch + 1
            } else {
                0
            }
        },
        None => 0,
    }
}

/// The next release version for the date (`year`, `month`, `day`) given
/// the existing Git tag names, one per line: the day's first free release
/// number after the highest release of the day among the tags, or an
/// error when that would exceed 99.
pub fn calculate(year: i32, month: u32, day: u32, tags: &str) -> (r: Result<String, NextVersionError>)
    requires
        day as int * 100 + 99 <= u32::MAX,
    ensures
        ({
            let next = next_daily_release(text_lines(tags@), year as int, month as nat, day * 100);
            &&& next > 99 <==> r is Err
            &&& r is Err ==> r == Err::<String, NextVersionError>(NextVersionError::NoReleaseNumbersLeft)
            &&& r matches Ok(v) ==> v@ == version_text(year as int, month as nat, (day * 100 + next) as nat)
        }),
{
    let ghost lines = text_lines(tags@);
    let ghost y = year as int;
    let ghost m = month as nat;
    let mut year_string = String::new();
    push_signed_decimal(&mut year_string, year as i64);
    assert(year_string@ =~= signed_decimal(y));
    let mut month_string = String::new();
    push_decimal(&mut month_string, month as u64);
    assert(month_string@ =~= decimal(m));
    let year_text = chars_of(year_string.as_str());
    let month_text = chars_of(month_string.as_str());
    let day_patch: u32 = day * 100;
    let text = chars_of(tags);
    let pieces = split_chars(text.as_slice(), '\n');
    let ghost pv = pieces_view(pieces@);
    assert(pv.len() == lines.len());
    let mut next: u32 = 0;
    let mut i: usize = 0;
    while i < pieces.len()
        invariant
            i <= pieces@.len(),
            pv == pieces_view(pieces@),
            pv == split_at_char(tags@, '\n'),
            lines == text_lines(tags@),
            lines.len() == pieces@.len(),
            year_text@ == signed_decimal(y),
            month_text@ == decimal(m),
            day_patch == day * 100,
            day_patch as int + 99 <= u32::MAX,
            next <= 100,
            next == next_daily_release(lines.take(i as int), y, m, day_patch as int),
        decreases pieces.len() - i,
    {
        let piece = &pieces[i];
        let n = piece.len();
        let strip = i + 1 < pieces.len() && n > 0 && piece[n - 1] == '\r';
        let line: Vec<char> = if strip {
            let mut l: Vec<char> = Vec::new();
            let mut k: usize = 0;
            while k < n - 1
                invariant
                    n == piece@.len(),
                    n > 0,
                    k <= n - 1,
                    l@ == piece@.subrange(0, k as int),
                decreases n - 1 - k,
            {
                l.push(piece[k]);
                k = k + 1;
                assert(l@ =~= piece@.subrange(0, k as int));
            }
            assert(l@ =~= piece@.drop_last());
            l
        } else {
            let mut l: Vec<char> = Vec::new();
            let mut k: usize = 0;
            while k < n
                invariant
                    n == piece@.len(),
                    k <= n,
                    l@ == piece@.subrange(0, k as int),
                decreases n - k,
            {
                l.push(piece[k]);
                k = k + 1;
                assert(l@ =~= piece@.subrange(0, k as int));
            }
            assert(l@ =~= piece@);
            l
        };
        assert(pv[i as int] == piece@);
        assert(line@ == lines[i as int]);
        let candidate = release_after_exec(line.as_slice(), year_text.as_slice(), month_text.as_slice(), day_patch, Ghost(y), Ghost(m));
        assert(lines.take(i + 1).drop_last() =~= lines.take(i as int));
        if candidate > next {
            next = candidate;
        }
        i = i + 1;
    }
    assert(lines.take(pieces@.len() as int) =~= lines);
    if next > 99 {
        return Err(NextVersionError::NoReleaseNumbersLeft);
    }
    let mut version = String::new();
    push_signed_decimal(&mut version, year as i64);
    push_char(&mut version, '.');
    push_decimal(&mut version, month as u64);
    push_char(&mut version, '.');
    push_decimal(&mut version, (day_patch + next) as u64);
    assert(version@ =~= version_text(y, m, (day * 100 + next) as nat));
    Ok(version)
}

/// The release time zone used when none is configured.
pub const DEFAULT_RELEASE_TIMEZONE: &'static str = "Europe/Kyiv";

/// The most seconds from 1970 (either way) that a release instant may be:
/// about 250,000 years, all within the dates the calendar library
/// represents.
pub const MAX_RELEASE_SECONDS: i64 = 8000000000000;

/// What the date in the time zone named `zone` is at `utc_seconds`
/// seconds after 1970-01-01 00:00 UTC, as (year, month, day); `None` when
/// `zone` is not a time zone name of the tz database.
pub uninterp spec fn zone_date(zone: Seq<char>, utc_seconds: int) -> Option<(int, nat, nat)>;

/// The date in a time zone at an instant, by parsing the name as a
/// `chrono_tz::Tz` and converting `chrono::DateTime::from_timestamp` to it.
/// Trusted: the result is `zone_date(zone@, utc_seconds)`, with the month
/// in 1..=12 and the day in 1..=31 as chrono documents; which date a zone
/// gives at an instant (the tz database's rules) is not stated here.
#[verifier::external_body]
fn date_in_zone(zone: &str, utc_seconds: i64) -> (r: Option<(i32, u32, u32)>)
    requires
        -MAX_RELEASE_SECONDS <= utc_seconds <= MAX_RELEASE_SECONDS,
    ensures
        match r {
            Some((y, m, d)) => zone_date(zone@, utc_seconds as int) == Some((y as int, m as nat, d as nat))
                && 1 <= m <= 12 && 1 <= d <= 31,
            None => zone_date(zone@, utc_seconds as int) is None,
        },
{
    let tz: chrono_tz::Tz = zone.parse().ok()?;
    let local = chrono::DateTime::from_timestamp(utc_seconds, 0)?.with_timezone(&tz);
    Some((local.year(), local.month(), local.day()))
}

/// The release time zone's name: the configured one, else `Europe/Kyiv`.
pub open spec fn release_zone(timezone: Option<&str>) -> Seq<char> {
    match timezone {
        Some(z) => z@,
        None => DEFAULT_RELEASE_TIMEZONE@,
    }
}

/// The release date at an instant: the date in the configured time zone,
/// or in `Europe/Kyiv` when none is configured; an error when the zone
/// name is unknown.
pub fn release_date(timezone: Option<&str>, utc_seconds: i64) -> (r: Result<(i32, u32, u32), NextVersionError>)
    requires
        -MAX_RELEASE_SECONDS <= utc_seconds <= MAX_RELEASE_SECONDS,
    ensures
        match zone_date(release_zone(timezone), utc_seconds as int) {
            Some((y, m, d)) => r matches Ok((ry, rm, rd)) && ry == y && rm == m && rd == d
                && 1 <= rm <= 12 && 1 <= rd <= 31,
            None => r == Err::<(i32, u32, u32), NextVersionError>(NextVersionError::InvalidTimezone),
        },
{
    let zone = match timezone {
        Some(z) => z,
        None => DEFAULT_RELEASE_TIMEZONE,
    };
    match date_in_zone(zone, utc_seconds) {
        Some(date) => Ok(date),
        None => Err(NextVersionError::InvalidTimezone),
    }
}

/// The tag names of a month: `year.month.*`.
pub fn tag_pattern(year: i32, month: u32) -> (r: String)
    ensures
        r@ == signed_decimal(year as int) + seq!['.'] + decimal(month as nat) + seq!['.', '*'],
{
    let mut r = String::new();
    push_signed_decimal(&mut r, year as i64);
    push_char(&mut r, '.');
    push_decimal(&mut r, month as u64);
    push_char(&mut r, '.');
    push_char(&mut r, '*');
    r
}

/// The next release version at an instant, given the existing tag names
/// of the release month, one per line: the version for the release date
/// in the release time zone (`Europe/Kyiv` unless another is configured),
/// an error when the zone is unknown, or when the day has no release
/// number left.
pub fn next_version(timezone: Option<&str>, utc_seconds: i64, tags: &str) -> (r: Result<String, NextVersionError>)
    requires
        -MAX_RELEASE_SECONDS <= utc_seconds <= MAX_RELEASE_SECONDS,
    ensures
        match zone_date(release_zone(timezone), utc_seconds as int) {
            None => r == Err::<String, NextVersionError>(NextVersionError::InvalidTimezone),
            Some((y, m, d)) => {
                let next = next_daily_release(text_lines(tags@), y, m, (d * 100) as int);
                &&& next > 99 <==> r is Err
                &&& r is Err ==> r == Err::<String, NextVersionError>(NextVersionError::NoReleaseNumbersLeft)
                &&& r matches Ok(v) ==> v@ == version_text(y, m, (d * 100 + next) as nat)
            },
        },
{
    match release_date(timezone, utc_seconds) {
        Err(e) => Err(e),
        Ok((year, month, day)) => calculate(year, month, day, tags),
    }
}

/// The next daily release number is past every release of the day among
/// the tags, so the new version never repeats an existing tag.
pub proof fn next_release_is_new(lines: Seq<Seq<char>>, year: int, month: nat, day_patch: int, i: int)
    requires
        0 <= i < lines.len(),
    ensures
        release_after(lines[i], year, month, day_patch) <= next_daily_release(lines, year, month, day_patch),
        tag_patch(lines[i], year, month) matches Some(p) ==> (day_patch <= p <= day_patch + 99
            ==> p < day_patch + next_daily_release(lines, year, month, day_patch)),
    decreases lines.len(),
{
    if i < lines.len() - 1 {
        next_release_is_new(lines.drop_last(), year, month, day_patch, i);
        assert(lines.drop_last()[i] == lines[i]);
    }
}

/// The next daily release number is one past a release of the day among
/// the tags, or 0 when there is none: it is the first number not taken
/// by a later release.
pub proof fn next_release_is_tight(lines: Seq<Seq<char>>, year: int, month: nat, day_patch: int)
    ensures
        next_daily_release(lines, year, month, day_patch) == 0 || exists|i: int|
            0 <= i < lines.len() && #[trigger] release_after(lines[i], year, month, day_patch)
                == next_daily_release(lines, year, month, day_patch),
        0 <= next_daily_release(lines, year, month, day_patch) <= 100,
    decreases lines.len(),
{
    if lines.len() > 0 {
        next_release_is_tight(lines.drop_last(), year, month, day_patch);
        let earlier = next_daily_release(lines.drop_last(), year, month, day_patch);
        if earlier != 0 && earlier >= release_after(lines.last(), year, month, day_patch) {
            let i = choose|i: int|
                0 <= i < lines.drop_last().len() && #[trigger] release_after(lines.drop_last()[i], year, month, day_patch)
                    == earlier;
            assert(lines.drop_last()[i] == lines[i]);
        } else if earlier < release_after(lines.last(), year, month, day_patch) {
            assert(release_after(lines[lines.len() - 1], year, month, day_patch) == release_after(lines.last(), year, month, day_patch));
        }
    }
}

} // verus!
