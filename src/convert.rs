use vstd::prelude::*;

use chrono::DateTime;
use chrono_tz::Tz;
use vstd::string::*;

use crate::error::ServiceError;
use crate::instant::Instant;
use crate::text::{
    local_seconds, manual_utc_seconds, offset_shape, rfc3339_valid, text_day, text_month,
    text_nanos, text_offset, text_second, text_year,
};

verus! {

/// Relies on chrono::DateTime::parse_from_rfc3339 (and on `timestamp`,
/// `timestamp_subsec_nanos` and `local_minus_utc` of its result). Its parser
/// reads the date and time fields at fixed places of the first 19 characters,
/// checks the date with `NaiveDate::from_ymd_opt`, reads up to nine fraction
/// digits and skips the rest, reads the offset (`Z`, or a sign, `HH:MM`) at
/// the very end and bounds it below a day, and counts a leap second as second
/// 59 plus a billion nanoseconds. On failure the error's description is
/// handed back.
#[verifier::external_body]
fn chrono_parse_rfc3339(text: &str) -> (r: Result<(i64, u32, i32), String>)
    ensures
        r is Ok <==> rfc3339_valid(text@),
        r matches Ok((secs, nanos, offset)) ==> {
            &&& offset == text_offset(text@)
            &&& secs == local_seconds(text@) - offset
            &&& nanos == text_nanos(text@)
            &&& nanos < 2_000_000_000
            &&& (nanos >= 1_000_000_000 <==> text_second(text@) == 60)
        },
{
    match DateTime::parse_from_rfc3339(text) {
        Ok(dt) => Ok((dt.timestamp(), dt.timestamp_subsec_nanos(), dt.offset().local_minus_utc())),
        Err(e) => Err(e.to_string()),
    }
}

/// A parsed timestamp: the absolute instant, and the offset east of UTC, in
/// seconds, that the text carried.
#[derive(Clone, Copy, Debug, PartialEq, Eq, Structural)]
pub struct ParsedTimestamp {
    pub instant: Instant,
    pub offset_secs: i32,
}

proof fn lemma_days_bounds(y: int, m: int, d: int)
    requires
        0 <= y <= 9999,
        1 <= m <= 12,
        1 <= d <= 31,
    ensures
        -719529 <= crate::instant::days_from_civil(y, m, d) <= 2932897,
{
}

/// Parses a date-time text with an explicit UTC offset into the instant it
/// denotes. The offset only serves to find the instant; it is reported
/// beside it and not kept in it.
pub fn parse_offset_timestamp(text: &str) -> (r: Result<ParsedTimestamp, ServiceError>)
    ensures
        r is Ok <==> rfc3339_valid(text@),
        text@.len() < 19 ==> r is Err,
        !offset_shape(text@) ==> r is Err,
        r matches Err(e) ==> e is MalformedTimestamp,
        r matches Ok(p) ==> {
            &&& p.instant.wf()
            &&& p.instant.secs == manual_utc_seconds(text@)
            &&& p.instant.nanos == text_nanos(text@)
            &&& p.offset_secs == text_offset(text@)
            &&& -86400 < p.offset_secs < 86400
            &&& (p.instant.nanos >= 1_000_000_000 <==> text_second(text@) == 60)
        },
{
    match chrono_parse_rfc3339(text) {
        Ok((secs, nanos, offset)) => {
            proof {
                let s = text@;
                lemma_days_bounds(text_year(s), text_month(s), text_day(s));
            }
            Ok(ParsedTimestamp { instant: Instant { secs, nanos }, offset_secs: offset })
        },
        Err(e) => Err(ServiceError::MalformedTimestamp(e)),
    }
}

/// `s` with each `%2F`, read from left to right, turned back into `/`.
pub open spec fn decode_separator(s: Seq<char>) -> Seq<char>
    decreases s.len(),
{
    if s.len() == 0 {
        s
    } else if s.len() >= 3 && s[0] == '%' && s[1] == '2' && s[2] == 'F' {
        seq!['/'] + decode_separator(s.skip(3))
    } else {
        seq![s[0]] + decode_separator(s.skip(1))
    }
}

/// Whether the timezone database holds an entry of exactly this identifier.
pub uninterp spec fn known_zone(id: Seq<char>) -> bool;

/// The RFC 3339 text of the instant `secs`, `nanos` as wall-clock time in the
/// zone `id`, with that zone's offset at that instant.
pub uninterp spec fn rendered_rfc3339(id: Seq<char>, secs: int, nanos: int) -> Seq<char>;

/// Relies on std's `FromIterator<char>` for `String`: the characters in order.
#[verifier::external_body]
fn string_from_chars(cs: &Vec<char>) -> (r: String)
    ensures
        r@ == cs@,
{
    cs.iter().collect()
}

/// Relies on chrono_tz's `FromStr` for `Tz`, an exact lookup of the
/// identifier in the compiled-in database; on failure the error's
/// description is handed back.
#[verifier::external_body]
fn chrono_tz_lookup(id: &str) -> (r: Result<(), String>)
    ensures
        r is Ok <==> known_zone(id@),
{
    match id.parse::<Tz>() {
        Ok(_) => Ok(()),
        Err(e) => Err(e.to_string()),
    }
}

/// Relies on chrono_tz's `FromStr` for `Tz`, chrono's
/// `DateTime::from_timestamp`, `with_timezone` and `to_rfc3339`. The lookup
/// succeeds on a known identifier, and `from_timestamp` returns a value for
/// any second in range and any nanosecond count under two billion (at or
/// above one billion only after second 59 of a minute).
#[verifier::external_body]
fn chrono_render_rfc3339(id: &str, secs: i64, nanos: u32) -> (r: String)
    requires
        known_zone(id@),
        (Instant { secs, nanos }).wf(),
    ensures
        r@ == rendered_rfc3339(id@, secs as int, nanos as int),
{
    let tz: Tz = id.parse().unwrap();
    DateTime::from_timestamp(secs, nanos).unwrap().with_timezone(&tz).to_rfc3339()
}

/// The identifier of an entry of the timezone database.
pub struct TimezoneName {
    id: String,
}

impl View for TimezoneName {
    type V = Seq<char>;

    closed spec fn view(&self) -> Seq<char> {
        self.id@
    }
}

impl TimezoneName {
    pub closed spec fn wf(&self) -> bool {
        known_zone(self.id@)
    }

    /// The identifier as text.
    pub fn as_str(&self) -> (r: &str)
        ensures
            r@ == self@,
    {
        self.id.as_str()
    }
}

/// Turns a caller-supplied identifier, whose `/` may have come as `%2F`, into
/// the name of a timezone of the database.
pub fn decode_timezone_name(raw: &str) -> (r: Result<TimezoneName, ServiceError>)
    ensures
        r is Ok <==> known_zone(decode_separator(raw@)),
        r matches Ok(z) ==> z@ == decode_separator(raw@) && z.wf(),
        r matches Err(e) ==> e is UnknownTimezone,
{
    let n = raw.unicode_len();
    let mut out: Vec<char> = Vec::new();
    let mut i: usize = 0;
    proof {
        assert(raw@.skip(0) =~= raw@);
        assert(out@ + raw@ =~= raw@);
    }
    while i < n
        invariant
            n == raw@.len(),
            i <= n,
            decode_separator(raw@) == out@ + decode_separator(raw@.skip(i as int)),
        decreases n - i,
    {
        let rest = Ghost(raw@.skip(i as int));
        let c = raw.get_char(i);
        if c == '%' && n - i > 2 && raw.get_char(i + 1) == '2' && raw.get_char(i + 2) == 'F' {
            proof {
                assert(rest@.skip(3) =~= raw@.skip(i + 3));
                assert(out@.push('/') + decode_separator(rest@.skip(3)) =~= out@ + (seq!['/']
                    + decode_separator(rest@.skip(3))));
            }
            out.push('/');
            i = i + 3;
        } else {
            proof {
                assert(rest@.skip(1) =~= raw@.skip(i + 1));
                assert(out@.push(c) + decode_separator(rest@.skip(1)) =~= out@ + (seq![c]
                    + decode_separator(rest@.skip(1))));
            }
            out.push(c);
            i = i + 1;
        }
    }
    proof {
        assert(raw@.skip(n as int) =~= Seq::<char>::empty());
        assert(out@ + Seq::<char>::empty() =~= out@);
    }
    let id = string_from_chars(&out);
    match chrono_tz_lookup(id.as_str()) {
        Ok(()) => Ok(TimezoneName { id }),
        Err(e) => Err(ServiceError::UnknownTimezone(e)),
    }
}

/// The wall-clock text of `instant` in `zone`, as RFC 3339 with the zone's
/// offset at that instant.
pub open spec fn projection(instant: Instant, zone: Seq<char>) -> Seq<char> {
    rendered_rfc3339(zone, instant.secs as int, instant.nanos as int)
}

/// Renders `instant` in `zone`.
pub fn project(instant: Instant, zone: &TimezoneName) -> (r: String)
    requires
        instant.wf(),
        zone.wf(),
    ensures
        r@ == projection(instant, zone@),
{
    chrono_render_rfc3339(zone.as_str(), instant.secs, instant.nanos)
}

} // verus!
