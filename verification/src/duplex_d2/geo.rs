//! The geolocation record of the modem.
//!
//! The record is text: after `GU`, the latitude after `N:` and the
//! longitude after `W:` (each degrees, minutes and seconds, as numbers
//! separated by whitespace), the time of the last connection after `TIME:`
//! (`DD MM YYYY HH:MM:SS`, UTC), and the location error after `ERR: < `
//! (a number, whitespace and a unit), then `OK`. This module finds the
//! fields and reads the time; the numbers are handed out as their text.

use vstd::prelude::*;
use vstd::utf8::{decode_utf8, valid_utf8};
use crate::bytes::copy_range;
use crate::duplex_d2::scan::{
    as_pos, byte_is, ends_within, float_at, float_end, spaces, spaces_at,
};
use crate::radio::{ErrorKind, ParseError, ParseResult};
use crate::text::utf8_text;

verus! {

/// The UNIX time that `chrono` reads from `text` in the strftime-style
/// format `fmt`, the date taken as UTC; `None` when the text does not
/// match the format.
pub uninterp spec fn chrono_utc_timestamp(text: Seq<char>, fmt: Seq<char>) -> Option<i64>;

/// The format of the time in a geolocation record: `DD MM YYYY HH:MM:SS`.
pub open spec fn geo_time_format() -> Seq<char> {
    "%d %m %Y %H:%M:%S"@
}

/// Reads a UTC date written in the format `fmt`.
///
/// Calls `chrono::NaiveDateTime::parse_from_str(text, fmt)`, and on success
/// `and_utc().timestamp()`. Claimed: the result is the name
/// [`chrono_utc_timestamp`] of the text and the format; it depends on those
/// alone (the date is taken as UTC, not local time).
#[verifier::external_body]
fn utc_timestamp(text: &str, fmt: &str) -> (r: Option<i64>)
    ensures
        r == chrono_utc_timestamp(text@, fmt@),
{
    match chrono::NaiveDateTime::parse_from_str(text, fmt) {
        Ok(dt) => Some(dt.and_utc().timestamp()),
        Err(_) => None,
    }
}

/// Whether `t` occurs in `s` at `j`.
pub open spec fn occurs_at(s: Seq<u8>, j: int, t: Seq<u8>) -> bool {
    0 <= j && j + t.len() <= s.len() && s.subrange(j, j + t.len()) == t
}

/// The first index at or after `i` where `t` occurs in `s`.
pub open spec fn find_from(s: Seq<u8>, i: int, t: Seq<u8>) -> Option<int>
    decreases s.len() + 1 - i,
{
    if i < 0 || i + t.len() > s.len() {
        None
    } else if occurs_at(s, i, t) {
        Some(i)
    } else {
        find_from(s, i + 1, t)
    }
}

/// Everything up to and including the first `t` at or after `i`: the
/// index after `t`. Without `t` the input is incomplete.
pub open spec fn past_at(s: Seq<u8>, i: int, t: Seq<u8>) -> Result<int, ParseError> {
    match find_from(s, i, t) {
        None => Err(ParseError::Incomplete),
        Some(j) => Ok(j + t.len()),
    }
}

/// Everything up to the first `t` at or after `i`: the index of `t`.
/// Without `t` the input is incomplete.
pub open spec fn before_at(s: Seq<u8>, i: int, t: Seq<u8>) -> Result<int, ParseError> {
    match find_from(s, i, t) {
        None => Err(ParseError::Incomplete),
        Some(j) => Ok(j),
    }
}

/// `OK` at `i`.
pub open spec fn ok_at(s: Seq<u8>, i: int) -> Result<int, ParseError> {
    if i >= s.len() {
        Err(ParseError::Incomplete)
    } else if s[i] != 0x4f {
        Err(ParseError::Error(ErrorKind::Tag))
    } else if i + 1 >= s.len() {
        Err(ParseError::Incomplete)
    } else if s[i + 1] != 0x4b {
        Err(ParseError::Error(ErrorKind::Tag))
    } else {
        Ok(i + 2)
    }
}

/// `GU`
pub open spec fn gu_tag() -> Seq<u8> {
    seq![0x47u8, 0x55u8]
}

/// `N:`
pub open spec fn north_tag() -> Seq<u8> {
    seq![0x4eu8, 0x3au8]
}

/// `W:`
pub open spec fn west_tag() -> Seq<u8> {
    seq![0x57u8, 0x3au8]
}

/// `TIME:`
pub open spec fn time_tag() -> Seq<u8> {
    seq![0x54u8, 0x49u8, 0x4du8, 0x45u8, 0x3au8]
}

/// `ERR: < `
pub open spec fn err_tag() -> Seq<u8> {
    seq![0x45u8, 0x52u8, 0x52u8, 0x3au8, 0x20u8, 0x3cu8, 0x20u8]
}

/// A line feed.
pub open spec fn newline() -> Seq<u8> {
    seq![0x0au8]
}

/// A coordinate at `i`: whitespace, degrees, whitespace, minutes,
/// whitespace, seconds. Gives where each of the three numbers starts and
/// ends.
pub open spec fn coord_at(s: Seq<u8>, i: int) -> Result<(int, int, int, int, int, int), ParseError> {
    match spaces_at(s, i) {
        Err(e) => Err(e),
        Ok(a) => match float_at(s, a) {
            Err(e) => Err(e),
            Ok(b) => match spaces_at(s, b) {
                Err(e) => Err(e),
                Ok(c) => match float_at(s, c) {
                    Err(e) => Err(e),
                    Ok(d) => match spaces_at(s, d) {
                        Err(e) => Err(e),
                        Ok(f) => match float_at(s, f) {
                            Err(e) => Err(e),
                            Ok(g) => Ok((a, b, c, d, f, g)),
                        },
                    },
                },
            },
        },
    }
}

/// The date at `i`: after `TIME:`, the text up to the line feed, read as
/// UTF-8 (else [`ErrorKind::MapRes`]) and as a date (else
/// [`ErrorKind::Tag`]). Gives the index of the line feed and the time.
pub open spec fn date_at(s: Seq<u8>, i: int) -> Result<(int, i64), ParseError> {
    match past_at(s, i, time_tag()) {
        Err(e) => Err(e),
        Ok(j) => match before_at(s, j, newline()) {
            Err(e) => Err(e),
            Ok(k) => if !valid_utf8(s.subrange(j, k)) {
                Err(ParseError::Error(ErrorKind::MapRes))
            } else {
                match chrono_utc_timestamp(decode_utf8(s.subrange(j, k)), geo_time_format()) {
                    None => Err(ParseError::Error(ErrorKind::Tag)),
                    Some(t) => Ok((k, t)),
                }
            },
        },
    }
}

/// Where the fields of a geolocation record lie in the input, and its time.
pub struct GeoLayout {
    /// Starts and ends of the latitude's degrees, minutes and seconds
    pub north: (int, int, int, int, int, int),
    /// Starts and ends of the longitude's degrees, minutes and seconds
    pub west: (int, int, int, int, int, int),
    /// Time of the last connection
    pub time: i64,
    /// Start and end of the error's number
    pub err: (int, int),
    /// Start and end of the error's unit
    pub unit: (int, int),
    /// Where the rest of the input starts
    pub end: int,
}

/// The layout of the geolocation record that `s` holds, or why it holds
/// none.
pub open spec fn geo_layout(s: Seq<u8>) -> Result<GeoLayout, ParseError> {
    match past_at(s, 0, gu_tag()) {
        Err(e) => Err(e),
        Ok(a) => match past_at(s, a, north_tag()) {
            Err(e) => Err(e),
            Ok(b) => match coord_at(s, b) {
                Err(e) => Err(e),
                Ok(north) => match past_at(s, north.5, west_tag()) {
                    Err(e) => Err(e),
                    Ok(c) => match coord_at(s, c) {
                        Err(e) => Err(e),
                        Ok(west) => match date_at(s, west.5) {
                            Err(e) => Err(e),
                            Ok((d, time)) => match past_at(s, d, err_tag()) {
                                Err(e) => Err(e),
                                Ok(e0) => match float_at(s, e0) {
                                    Err(e) => Err(e),
                                    Ok(e1) => match spaces_at(s, e1) {
                                        Err(e) => Err(e),
                                        Ok(u0) => match before_at(s, u0, newline()) {
                                            Err(e) => Err(e),
                                            Ok(u1) => match spaces_at(s, u1) {
                                                Err(e) => Err(e),
                                                Ok(o) => match ok_at(s, o) {
                                                    Err(e) => Err(e),
                                                    Ok(o2) => match spaces_at(s, o2) {
                                                        Err(e) => Err(e),
                                                        Ok(end) => Ok(
                                                            GeoLayout {
                                                                north,
                                                                west,
                                                                time,
                                                                err: (e0, e1),
                                                                unit: (u0, u1),
                                                                end,
                                                            },
                                                        ),
                                                    },
                                                },
                                            },
                                        },
                                    },
                                },
                            },
                        },
                    },
                },
            },
        },
    }
}

/// The fields of a geolocation record: the texts of its numbers, its time
/// and the text of the error's unit.
#[derive(Clone, Debug, PartialEq)]
pub struct GeoFields {
    /// Latitude: degrees, minutes and seconds
    pub north: [Vec<u8>; 3],
    /// Longitude (west): degrees, minutes and seconds
    pub west: [Vec<u8>; 3],
    /// Time of the last connection (UNIX time)
    pub time: i64,
    /// Location error, in the unit below
    pub max_error: Vec<u8>,
    /// Unit of the location error
    pub unit: Vec<u8>,
}

/// Whether `f` holds the fields that layout `l` locates in `s`.
pub open spec fn fields_of(f: GeoFields, l: GeoLayout, s: Seq<u8>) -> bool {
    &&& f.north[0]@ == s.subrange(l.north.0, l.north.1)
    &&& f.north[1]@ == s.subrange(l.north.2, l.north.3)
    &&& f.north[2]@ == s.subrange(l.north.4, l.north.5)
    &&& f.west[0]@ == s.subrange(l.west.0, l.west.1)
    &&& f.west[1]@ == s.subrange(l.west.2, l.west.3)
    &&& f.west[2]@ == s.subrange(l.west.4, l.west.5)
    &&& f.time == l.time
    &&& f.max_error@ == s.subrange(l.err.0, l.err.1)
    &&& f.unit@ == s.subrange(l.unit.0, l.unit.1)
}

/// Whether the bytes of `s` at `j` are those of `t`.
fn bytes_at(s: &[u8], j: usize, t: &[u8]) -> (r: bool)
    requires
        j + t@.len() <= s@.len(),
    ensures
        r == occurs_at(s@, j as int, t@),
{
    let n: usize = s.len();
    let mut k: usize = 0;
    while k < t.len()
        invariant
            n == s@.len(),
            j + t@.len() <= n,
            k <= t@.len(),
            forall|m: int| 0 <= m < k ==> s@[j + m] == t@[m],
        decreases t@.len() - k,
    {
        if s[j + k] != t[k] {
            assert(s@.subrange(j as int, j + t@.len())[k as int] != t@[k as int]);
            return false;
        }
        k = k + 1;
    }
    assert(s@.subrange(j as int, j + t@.len()) =~= t@);
    true
}

/// The first index at or after `i` where `t` occurs in `s`.
fn find(s: &[u8], i: usize, t: &[u8]) -> (r: Option<usize>)
    requires
        i <= s@.len(),
    ensures
        r matches Some(j) ==> find_from(s@, i as int, t@) == Some(j as int),
        r is None ==> find_from(s@, i as int, t@) is None,
        r matches Some(j) ==> i <= j && j + t@.len() <= s@.len(),
{
    if t.len() > s.len() {
        return None;
    }
    let last: usize = s.len() - t.len();
    if i > last {
        return None;
    }
    let mut j: usize = i;
    loop
        invariant
            t@.len() <= s@.len(),
            last == s@.len() - t@.len(),
            i <= j <= last,
            find_from(s@, i as int, t@) == find_from(s@, j as int, t@),
        decreases last - j,
    {
        if bytes_at(s, j, t) {
            return Some(j);
        }
        if j == last {
            return None;
        }
        j = j + 1;
    }
}

/// Everything up to and including `t` (see [`past_at`]).
fn past(s: &[u8], i: usize, t: &[u8]) -> (r: Result<usize, ParseError>)
    requires
        i <= s@.len(),
    ensures
        as_pos(r) == past_at(s@, i as int, t@),
        ends_within(as_pos(r), s@, i as int),
{
    let n: usize = s.len();
    match find(s, i, t) {
        None => Err(ParseError::Incomplete),
        Some(j) => Ok(j + t.len()),
    }
}

/// Everything up to `t` (see [`before_at`]).
fn before(s: &[u8], i: usize, t: &[u8]) -> (r: Result<usize, ParseError>)
    requires
        i <= s@.len(),
    ensures
        as_pos(r) == before_at(s@, i as int, t@),
        ends_within(as_pos(r), s@, i as int),
{
    match find(s, i, t) {
        None => Err(ParseError::Incomplete),
        Some(j) => Ok(j),
    }
}

/// `OK` at `i` (see [`ok_at`]).
fn ok_tag(s: &[u8], i: usize) -> (r: Result<usize, ParseError>)
    requires
        i <= s@.len(),
    ensures
        as_pos(r) == ok_at(s@, i as int),
        ends_within(as_pos(r), s@, i as int),
{
    if i >= s.len() {
        Err(ParseError::Incomplete)
    } else if s[i] != 0x4f {
        Err(ParseError::Error(ErrorKind::Tag))
    } else if i + 1 >= s.len() {
        Err(ParseError::Incomplete)
    } else if s[i + 1] != 0x4b {
        Err(ParseError::Error(ErrorKind::Tag))
    } else {
        Ok(i + 2)
    }
}

/// A coordinate at `i` (see [`coord_at`]).
fn coord(s: &[u8], i: usize) -> (r: Result<(usize, usize, usize, usize, usize, usize), ParseError>)
    requires
        i <= s@.len(),
    ensures
        match coord_at(s@, i as int) {
            Err(e) => r == Err::<(usize, usize, usize, usize, usize, usize), ParseError>(e),
            Ok(p) => r matches Ok(q) && p == (q.0 as int, q.1 as int, q.2 as int, q.3 as int, q.4 as int, q.5 as int)
                && i <= q.0 <= q.1 <= q.2 <= q.3 <= q.4 <= q.5 <= s@.len(),
        },
{
    let a: usize = match spaces(s, i) {
        Ok(a) => a,
        Err(e) => {
            return Err(e);
        },
    };
    let b: usize = match float_end(s, a) {
        Ok(b) => b,
        Err(e) => {
            return Err(e);
        },
    };
    let c: usize = match spaces(s, b) {
        Ok(c) => c,
        Err(e) => {
            return Err(e);
        },
    };
    let d: usize = match float_end(s, c) {
        Ok(d) => d,
        Err(e) => {
            return Err(e);
        },
    };
    let f: usize = match spaces(s, d) {
        Ok(f) => f,
        Err(e) => {
            return Err(e);
        },
    };
    let g: usize = match float_end(s, f) {
        Ok(g) => g,
        Err(e) => {
            return Err(e);
        },
    };
    Ok((a, b, c, d, f, g))
}

/// The date at `i` (see [`date_at`]).
fn date(s: &[u8], i: usize) -> (r: Result<(usize, i64), ParseError>)
    requires
        i <= s@.len(),
    ensures
        match date_at(s@, i as int) {
            Err(e) => r == Err::<(usize, i64), ParseError>(e),
            Ok((k, t)) => r matches Ok((k2, t2)) && k == k2 && t == t2 && i <= k2 <= s@.len(),
        },
{
    let time: [u8; 5] = [0x54, 0x49, 0x4d, 0x45, 0x3a];
    let nl: [u8; 1] = [0x0a];
    assert(time@ =~= time_tag());
    assert(nl@ =~= newline());
    let j: usize = match past(s, i, time.as_slice()) {
        Ok(j) => j,
        Err(e) => {
            return Err(e);
        },
    };
    let k: usize = match before(s, j, nl.as_slice()) {
        Ok(k) => k,
        Err(e) => {
            return Err(e);
        },
    };
    let text: String = match utf8_text(vstd::slice::slice_subrange(s, j, k)) {
        Ok(t) => t,
        Err(_) => {
            return Err(ParseError::Error(ErrorKind::MapRes));
        },
    };
    match utc_timestamp(text.as_str(), "%d %m %Y %H:%M:%S") {
        Some(t) => Ok((k, t)),
        None => Err(ParseError::Error(ErrorKind::Tag)),
    }
}

impl GeoFields {
    /// Finds the fields of the geolocation record at the start of `input`
    /// (after its first `GU`) and reads its time (see [`geo_layout`]).
    pub fn parse(input: &[u8]) -> (r: ParseResult<GeoFields>)
        ensures
            match geo_layout(input@) {
                Err(e) => r == Err::<(&[u8], GeoFields), ParseError>(e),
                Ok(l) => r matches Ok((rest, f)) && rest@ == input@.subrange(
                    l.end,
                    input@.len() as int,
                ) && fields_of(f, l, input@),
            },
    {
        let gu: [u8; 2] = [0x47, 0x55];
        let north_t: [u8; 2] = [0x4e, 0x3a];
        let west_t: [u8; 2] = [0x57, 0x3a];
        let err_t: [u8; 7] = [0x45, 0x52, 0x52, 0x3a, 0x20, 0x3c, 0x20];
        let nl: [u8; 1] = [0x0a];
        assert(gu@ =~= gu_tag());
        assert(north_t@ =~= north_tag());
        assert(west_t@ =~= west_tag());
        assert(err_t@ =~= err_tag());
        assert(nl@ =~= newline());
        let s: &[u8] = input;
        let a: usize = match past(s, 0, gu.as_slice()) {
            Ok(v) => v,
            Err(e) => {
                return Err(e);
            },
        };
        let b: usize = match past(s, a, north_t.as_slice()) {
            Ok(v) => v,
            Err(e) => {
                return Err(e);
            },
        };
        let north = match coord(s, b) {
            Ok(v) => v,
            Err(e) => {
                return Err(e);
            },
        };
        let c: usize = match past(s, north.5, west_t.as_slice()) {
            Ok(v) => v,
            Err(e) => {
                return Err(e);
            },
        };
        let west = match coord(s, c) {
            Ok(v) => v,
            Err(e) => {
                return Err(e);
            },
        };
        let (d, time) = match date(s, west.5) {
            Ok(v) => v,
            Err(e) => {
                return Err(e);
            },
        };
        let e0: usize = match past(s, d, err_t.as_slice()) {
            Ok(v) => v,
            Err(e) => {
                return Err(e);
            },
        };
        let e1: usize = match float_end(s, e0) {
            Ok(v) => v,
            Err(e) => {
                return Err(e);
            },
        };
        let u0: usize = match spaces(s, e1) {
            Ok(v) => v,
            Err(e) => {
                return Err(e);
            },
        };
        let u1: usize = match before(s, u0, nl.as_slice()) {
            Ok(v) => v,
            Err(e) => {
                return Err(e);
            },
        };
        let o: usize = match spaces(s, u1) {
            Ok(v) => v,
            Err(e) => {
                return Err(e);
            },
        };
        let o2: usize = match ok_tag(s, o) {
            Ok(v) => v,
            Err(e) => {
                return Err(e);
            },
        };
        let end: usize = match spaces(s, o2) {
            Ok(v) => v,
            Err(e) => {
                return Err(e);
            },
        };
        let f = GeoFields {
            north: [
                copy_range(s, north.0, north.1),
                copy_range(s, north.2, north.3),
                copy_range(s, north.4, north.5),
            ],
            west: [
                copy_range(s, west.0, west.1),
                copy_range(s, west.2, west.3),
                copy_range(s, west.4, west.5),
            ],
            time,
            max_error: copy_range(s, e0, e1),
            unit: copy_range(s, u0, u1),
        };
        Ok((vstd::slice::slice_subrange(s, end, s.len()), f))
    }

    /// Whether the error is given in kilometres (its unit is `km`).
    pub fn error_in_km(&self) -> (r: bool)
        ensures
            r == (self.unit@ == seq![0x6bu8, 0x6du8]),
    {
        let r: bool = self.unit.len() == 2 && self.unit[0] == 0x6b && self.unit[1] == 0x6d;
        proof {
            if r {
                assert(self.unit@ =~= seq![0x6bu8, 0x6du8]);
            }
        }
        r
    }
}

} // verus!
