//! The tag grammar: which producer wrote a line, and the tags it declared.
//!
//! A conference line starts with `[CONFERENCE ` followed by a JSON object and
//! `] `; any other line is a core line, which may start with a bracketed
//! handle number such as `[42]`.

use vstd::prelude::*;
use crate::conference::{
    conference_split, conference_tags_spec, json_object_members, member_error, tags_failure_text,
    ConferenceTags, ConferenceTagsView,
};
use crate::text::{decimal_text, is_ascii_digit, numeral_value, occurs_at};

verus! {

/// Tags of a line written by the core producer.
#[derive(Clone, Debug, PartialEq, Eq, Structural)]
pub struct CoreTags {
    pub handle_id: Option<usize>,
}

/// End (exclusive) of the run of ASCII digits that starts at `i`.
pub open spec fn digits_end(s: Seq<char>, i: int) -> int
    decreases s.len() - i,
{
    if 0 <= i < s.len() && is_ascii_digit(s[i]) {
        digits_end(s, i + 1)
    } else {
        i
    }
}

/// The digits of a leading `[<digits>]`, if `s` starts with one.
pub open spec fn handle_digits(s: Seq<char>) -> Option<Seq<char>> {
    let e = digits_end(s, 1);
    if s.len() > 0 && s[0] == '[' && e > 1 && e < s.len() && s[e] == ']' {
        Some(s.subrange(1, e))
    } else {
        None
    }
}

/// The prefix that is removed from a core line that declares handle `n`.
pub open spec fn handle_prefix(n: nat) -> Seq<char> {
    seq!['['] + decimal_text(n) + seq![']', ' ']
}

/// What the core grammar makes of `s`: `None` where the leading handle number
/// does not fit a `usize`, else the handle (if any) and the message text.
/// The prefix is rebuilt from the number, so `[007] x` keeps its prefix.
pub open spec fn core_tags_spec(s: Seq<char>) -> Option<(Option<usize>, Seq<char>)> {
    match handle_digits(s) {
        None => Some((None, s)),
        Some(d) => if numeral_value(d) <= usize::MAX {
            let p = handle_prefix(numeral_value(d));
            Some(
                (
                    Some(numeral_value(d) as usize),
                    if occurs_at(s, 0, p) {
                        s.skip(p.len() as int)
                    } else {
                        s
                    },
                ),
            )
        } else {
            None
        },
    }
}

/// Index just past the run of ASCII digits that starts at `i`.
pub(crate) fn scan_digits(cs: &Vec<char>, i: usize) -> (r: usize)
    requires
        i <= cs@.len(),
    ensures
        r as int == digits_end(cs@, i as int),
        i <= r <= cs@.len(),
        forall|k: int| i <= k < r ==> is_ascii_digit(#[trigger] cs@[k]),
    decreases cs@.len() - i,
{
    if i < cs.len() && '0' <= cs[i] && cs[i] <= '9' {
        scan_digits(cs, i + 1)
    } else {
        i
    }
}

/// The value of `cs[a..b]`, a run of ASCII digits, or `None` where it exceeds `usize::MAX`.
pub(crate) fn parse_numeral(cs: &Vec<char>, a: usize, b: usize) -> (r: Option<usize>)
    requires
        a <= b <= cs@.len(),
        forall|k: int| a <= k < b ==> is_ascii_digit(#[trigger] cs@[k]),
    ensures
        r matches Some(v) ==> v as nat == numeral_value(cs@.subrange(a as int, b as int)),
        r is None ==> numeral_value(cs@.subrange(a as int, b as int)) > usize::MAX,
{
    let mut acc: usize = 0;
    let mut i: usize = a;
    while i < b
        invariant
            a <= i <= b <= cs@.len(),
            forall|k: int| a <= k < b ==> is_ascii_digit(#[trigger] cs@[k]),
            acc as nat == numeral_value(cs@.subrange(a as int, i as int)),
        decreases b - i,
    {
        let c = cs[i];
        assert(is_ascii_digit(cs@[i as int]));
        let d = (c as u32 - '0' as u32) as usize;
        assert(cs@.subrange(a as int, i + 1).drop_last() =~= cs@.subrange(a as int, i as int));
        match acc.checked_mul(10) {
            Some(m) => match m.checked_add(d) {
                Some(v) => {
                    acc = v;
                },
                None => {
                    proof {
                        lemma_numeral_grows(cs@, a as int, i as int + 1, b as int);
                    }
                    return None;
                },
            },
            None => {
                proof {
                    lemma_numeral_grows(cs@, a as int, i as int + 1, b as int);
                }
                return None;
            },
        }
        i = i + 1;
    }
    Some(acc)
}

/// A numeral is at least as large as any of its prefixes.
proof fn lemma_numeral_grows(s: Seq<char>, a: int, i: int, b: int)
    requires
        0 <= a <= i <= b <= s.len(),
    ensures
        numeral_value(s.subrange(a, i)) <= numeral_value(s.subrange(a, b)),
    decreases b - i,
{
    if i < b {
        lemma_numeral_grows(s, a, i, b - 1);
        assert(s.subrange(a, b).drop_last() =~= s.subrange(a, b - 1));
    }
}

/// Which producer wrote a line, with the tags it declared; `Unknown` where
/// the line claims a producer but its tags could not be read.
#[derive(Debug)]
pub enum SourceWithTags {
    Core(CoreTags),
    Conference(ConferenceTags),
    Unknown { logger_error: String },
}

pub enum SourceView {
    Core { handle_id: Option<usize> },
    Conference(ConferenceTagsView),
    Unknown { logger_error: Seq<char> },
}

impl View for SourceWithTags {
    type V = SourceView;

    open spec fn view(&self) -> SourceView {
        match self {
            SourceWithTags::Core(t) => SourceView::Core { handle_id: t.handle_id },
            SourceWithTags::Conference(t) => SourceView::Conference(t@),
            SourceWithTags::Unknown { logger_error } => SourceView::Unknown {
                logger_error: logger_error@,
            },
        }
    }
}

/// The producer of `s` (a line after its severity prefix) and its message
/// text, or the diagnostic where its tags cannot be read. The conference
/// grammar is tried first; a line that does not follow it is a core line.
pub open spec fn source_spec(s: Seq<char>) -> Result<(SourceView, Seq<char>), Seq<char>> {
    match conference_split(s) {
        Some(j) => {
            let tags = s.subrange(12, j);
            match json_object_members(tags) {
                Ok(ms) => match conference_tags_spec(ms) {
                    Some(t) => Ok((SourceView::Conference(t), s.skip(j + 2))),
                    None => Err(tags_failure_text(tags, member_error(ms))),
                },
                Err(m) => Err(tags_failure_text(tags, m)),
            }
        },
        None => match core_tags_spec(s) {
            Some((h, rest)) => Ok((SourceView::Core { handle_id: h }, rest)),
            None => Err(handle_failure_text()),
        },
    }
}

pub open spec fn handle_failure_text() -> Seq<char> {
    "Failed to parse handle id"@
}

} // verus!
