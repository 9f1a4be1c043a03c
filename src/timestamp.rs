//! Times of lines: microseconds since the Unix epoch, split into whole
//! seconds and nanoseconds, and rendered as RFC 3339 text in local time.

use vstd::prelude::*;

verus! {

/// Whole seconds and nanoseconds of `micros` microseconds since the epoch:
/// seconds rounded toward negative infinity, so the nanoseconds are never negative.
pub open spec fn utc_parts(micros: int) -> (int, int) {
    (micros / 1_000_000, (micros % 1_000_000) * 1000)
}

/// Splits `micros` into whole seconds and the nanoseconds within the second.
pub fn split_micros(micros: i64) -> (r: (i64, u32))
    ensures
        (r.0 as int, r.1 as int) == utc_parts(micros as int),
        r.0 as int * 1_000_000 + r.1 as int / 1000 == micros as int,
        r.1 < 1_000_000_000,
        r.1 % 1000 == 0,
{
    if micros >= 0 {
        let u = micros as u64;
        let secs = (u / 1_000_000) as i64;
        let sub = (u % 1_000_000) as u32;
        (secs, sub * 1000)
    } else {
        let p = (-(micros + 1)) as u64;
        let q = p / 1_000_000;
        let m = p % 1_000_000;
        assert(p == q * 1_000_000 + m);
        assert(micros as int == -(q as int) * 1_000_000 - 1_000_000 + (999_999 - m as int));
        assert((micros as int) / 1_000_000 == -(q as int) - 1 && (micros as int) % 1_000_000 == 999_999
            - m as int) by (nonlinear_arith)
            requires
                micros as int == -(q as int) * 1_000_000 - 1_000_000 + (999_999 - m as int),
                0 <= m < 1_000_000,
        ;
        let secs = -(q as i64) - 1;
        let sub = (999_999 - m) as u32;
        (secs, sub * 1000)
    }
}

/// Whether chrono can represent an instant `secs` seconds after the epoch:
/// its day, counted so that 1 January of year 1 is day 1, lies between
/// 1 January of year -262143 and 31 December of year 262142.
pub open spec fn chrono_range(secs: int) -> bool {
    -95_746_129 <= secs / 86_400 + 719_163 <= 95_745_399
}

/// The RFC 3339 text that chrono renders for the instant `secs` seconds and
/// `nanos` nanoseconds after the epoch, seen at `offset` seconds east of UTC.
pub uninterp spec fn rfc3339_at(secs: int, nanos: int, offset: int) -> Seq<char>;

/// Relies on chrono's `TimeZone::timestamp_opt` for `Local`, which builds the
/// instant with `DateTime::from_timestamp` (`None` outside chrono's day range),
/// and on `FixedOffset::local_minus_utc` of the local offset there. A
/// `FixedOffset` lies strictly within a day of UTC.
#[verifier::external_body]
fn local_offset(secs: i64, nanos: u32) -> (r: Option<i32>)
    requires
        nanos < 1_000_000_000,
    ensures
        r is Some <==> chrono_range(secs as int),
        r matches Some(o) ==> -86_400 < o < 86_400,
{
    match chrono::TimeZone::timestamp_opt(&chrono::Local, secs, nanos) {
        chrono::MappedLocalTime::Single(t) => Some(t.offset().local_minus_utc()),
        _ => None,
    }
}

/// Relies on chrono's `FixedOffset::east_opt` (`None` unless the offset lies
/// strictly within a day), `TimeZone::timestamp_opt` for that offset, and
/// `DateTime::to_rfc3339`, which always writes a date, a time and the offset.
#[verifier::external_body]
fn rfc3339_at_offset(secs: i64, nanos: u32, offset: i32) -> (r: Option<String>)
    requires
        nanos < 1_000_000_000,
    ensures
        r is Some <==> (chrono_range(secs as int) && -86_400 < offset < 86_400),
        r matches Some(t) ==> t@ == rfc3339_at(secs as int, nanos as int, offset as int)
            && t@.len() > 0,
{
    match chrono::FixedOffset::east_opt(offset) {
        Some(o) => match chrono::TimeZone::timestamp_opt(&o, secs, nanos) {
            chrono::MappedLocalTime::Single(t) => Some(t.to_rfc3339()),
            _ => None,
        },
        None => None,
    }
}

/// `t` is the time text of `micros` microseconds after the epoch: where chrono
/// can represent the instant, its RFC 3339 rendering at some offset from UTC
/// within a day (the local one), and otherwise empty.
pub open spec fn is_time_text(micros: int, t: Seq<char>) -> bool {
    let (secs, nanos) = utc_parts(micros);
    &&& (t.len() > 0 <==> chrono_range(secs))
    &&& (chrono_range(secs) ==> exists|off: int|
        -86_400 < off < 86_400 && t == #[trigger] rfc3339_at(secs, nanos, off))
}

/// The RFC 3339 text, in the local time zone, of `micros` microseconds since
/// the epoch; empty where the instant lies outside what can be represented.
pub fn format_timestamp(micros: i64) -> (r: String)
    ensures
        is_time_text(micros as int, r@),
{
    let (secs, nanos) = split_micros(micros);
    match local_offset(secs, nanos) {
        Some(off) => match rfc3339_at_offset(secs, nanos, off) {
            Some(t) => {
                assert(-86_400 < (off as int) && (off as int) < 86_400 && t@ == rfc3339_at(
                    secs as int,
                    nanos as int,
                    off as int,
                ));
                t
            },
            None => String::new(),
        },
        None => String::new(),
    }
}

} // verus!
