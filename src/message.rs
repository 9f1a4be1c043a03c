//! A raw log line and its assembly into a structured event.

use vstd::prelude::*;
use crate::conference::{parse_conference_tags, split_conference};
use crate::level::{error_prefix, split_level_spec, warn_prefix, Severity};
use crate::tags::{
    core_tags_spec, handle_failure_text, handle_prefix, parse_numeral, scan_digits, source_spec,
    CoreTags, SourceView, SourceWithTags,
};
use crate::timestamp::{format_timestamp, is_time_text, split_micros, utc_parts};
use crate::text::{chars_of, chars_occur_at, push_decimal, trim, trimmed};

verus! {

/// A line as the host handed it over, with its time in microseconds since
/// the Unix epoch.
#[derive(Debug)]
pub struct Message {
    pub timestamp: i64,
    pub line: String,
}

/// The structured form of a line: its time as text, its severity, its
/// producer with the producer's tags, and its trimmed message text.
#[derive(Debug)]
pub struct StructuredEvent {
    pub ts: String,
    pub level: Severity,
    pub source_with_tags: SourceWithTags,
    pub msg: String,
}

/// What the source extraction returned, in terms of views.
pub open spec fn source_result_view(r: Result<(SourceWithTags, &str), String>) -> Result<
    (SourceView, Seq<char>),
    Seq<char>,
> {
    match r {
        Ok((s, m)) => Ok((s@, m@)),
        Err(e) => Err(e@),
    }
}

/// The severity, producer and message text of the event made from `line`.
/// Where the producer's tags cannot be read, the producer is `Unknown` with
/// the diagnostic, and the message is all that follows the severity prefix.
pub open spec fn event_spec(line: Seq<char>) -> (Severity, SourceView, Seq<char>) {
    let (level, rest) = split_level_spec(line);
    match source_spec(rest) {
        Ok((src, m)) => (level, src, trimmed(m)),
        Err(e) => (level, SourceView::Unknown { logger_error: e }, trimmed(rest)),
    }
}

impl Message {
    /// Captures a line and its time.
    pub fn new(timestamp: i64, line: &str) -> (r: Self)
        ensures
            r.timestamp == timestamp,
            r.line@ == line@,
    {
        Message { timestamp, line: line.to_owned() }
    }

    /// Splits the line into its severity and the text after the severity prefix.
    pub fn extract_level(&self) -> (r: (Severity, &str))
        ensures
            (r.0, r.1@) == split_level_spec(self.line@),
    {
        let cs = chars_of(self.line.as_str());
        let n = cs.len();
        if n >= 6 && cs[0] == '[' && cs[1] == 'E' && cs[2] == 'R' && cs[3] == 'R' && cs[4] == ']'
            && cs[5] == ' ' {
            assert(self.line@.subrange(0, 6) =~= error_prefix());
            assert(self.line@.subrange(6, n as int) =~= self.line@.skip(6));
            return (Severity::Error, self.line.as_str().substring_char(6, n));
        }
        proof {
            if n >= 6 && self.line@.subrange(0, 6) == error_prefix() {
                assert(self.line@.subrange(0, 6)[5] == ' ');
            }
        }
        if n >= 7 && cs[0] == '[' && cs[1] == 'W' && cs[2] == 'A' && cs[3] == 'R' && cs[4] == 'N'
            && cs[5] == ']' && cs[6] == ' ' {
            assert(self.line@.subrange(0, 7) =~= warn_prefix());
            assert(self.line@.subrange(7, n as int) =~= self.line@.skip(7));
            return (Severity::Warn, self.line.as_str().substring_char(7, n));
        }
        proof {
            if n >= 7 && self.line@.subrange(0, 7) == warn_prefix() {
                assert(self.line@.subrange(0, 7)[6] == ' ');
            }
        }
        (Severity::Info, self.line.as_str())
    }

    /// Reads the core producer's tags from the start of `line`: a leading `[<n>]`
    /// gives the handle `n`, and `[<n>] ` (with `n` written in shortest decimal) is
    /// removed from the message. A handle number too large for `usize` is an error.
    pub fn extract_core_tags(line: &str) -> (r: Result<(CoreTags, &str), String>)
        ensures
            core_tags_spec(line@) is None <==> r is Err,
            r matches Ok((t, rest)) ==> core_tags_spec(line@) == Some((t.handle_id, rest@)),
            r matches Err(e) ==> e@ == handle_failure_text(),
    {
        let cs = chars_of(line);
        let n = cs.len();
        if n == 0 || cs[0] != '[' {
            return Ok((CoreTags { handle_id: None }, line));
        }
        let e = scan_digits(&cs, 1);
        if e == 1 || e >= n || cs[e] != ']' {
            return Ok((CoreTags { handle_id: None }, line));
        }
        assert(cs@.subrange(1, e as int) == line@.subrange(1, e as int));
        match parse_numeral(&cs, 1, e) {
            None => Err(String::from_str("Failed to parse handle id")),
            Some(v) => {
                let mut p: Vec<char> = Vec::new();
                p.push('[');
                push_decimal(v, &mut p);
                p.push(']');
                p.push(' ');
                assert(p@ =~= handle_prefix(v as nat));
                if chars_occur_at(&cs, 0, &p) {
                    assert(line@.subrange(p@.len() as int, n as int) =~= line@.skip(p@.len() as int));
                    Ok((CoreTags { handle_id: Some(v) }, line.substring_char(p.len(), n)))
                } else {
                    Ok((CoreTags { handle_id: Some(v) }, line))
                }
            },
        }
    }

    /// The producer of `line` (a line after its severity prefix), its tags,
    /// and the message text that follows them; an error with a diagnostic
    /// where the tags cannot be read.
    pub fn extract_source_with_tags(line: &str) -> (r: Result<(SourceWithTags, &str), String>)
        ensures
            source_result_view(r) == source_spec(line@),
    {
        match split_conference(line) {
            Some((tags, rest)) => match parse_conference_tags(tags) {
                Ok(t) => Ok((SourceWithTags::Conference(t), rest)),
                Err(e) => Err(e),
            },
            None => match Self::extract_core_tags(line) {
                Ok((t, rest)) => Ok((SourceWithTags::Core(t), rest)),
                Err(e) => Err(e),
            },
        }
    }

    /// The whole seconds and nanoseconds of the line's time since the epoch;
    /// seconds are rounded toward negative infinity.
    pub fn timestamp(&self) -> (r: (i64, u32))
        ensures
            (r.0 as int, r.1 as int) == utc_parts(self.timestamp as int),
            r.0 as int * 1_000_000 + r.1 as int / 1000 == self.timestamp as int,
            r.1 < 1_000_000_000,
    {
        split_micros(self.timestamp)
    }

    /// The event made from this line, its time rendered in the local time zone.
    pub fn to_json_message(&self) -> (r: StructuredEvent)
        ensures
            is_time_text(self.timestamp as int, r.ts@),
            (r.level, r.source_with_tags@, r.msg@) == event_spec(self.line@),
    {
        self.to_event_with_ts(format_timestamp(self.timestamp))
    }

    /// The event made from this line, with `ts` as its time text.
    pub fn to_event_with_ts(&self, ts: String) -> (r: StructuredEvent)
        ensures
            r.ts@ == ts@,
            (r.level, r.source_with_tags@, r.msg@) == event_spec(self.line@),
    {
        let (level, rest) = self.extract_level();
        match Self::extract_source_with_tags(rest) {
            Ok((source_with_tags, m)) => StructuredEvent {
                ts,
                level,
                source_with_tags,
                msg: trim(m).to_owned(),
            },
            Err(e) => StructuredEvent {
                ts,
                level,
                source_with_tags: SourceWithTags::Unknown { logger_error: e },
                msg: trim(rest).to_owned(),
            },
        }
    }
}

} // verus!
