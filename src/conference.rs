//! The conference producer's line head: `[CONFERENCE <json object>] `, and the
//! reading of its tag object.

use vstd::prelude::*;
use crate::text::{chars_of, occurs_at, text_eq};

verus! {

/// Tags declared by the conference producer. Every field is optional.
#[derive(Clone, Debug, PartialEq, Eq)]
pub struct ConferenceTags {
    pub handle_id: Option<usize>,
    pub rtc_id: Option<String>,
    pub agent_id: Option<String>,
    pub transaction: Option<String>,
}

pub struct ConferenceTagsView {
    pub handle_id: Option<usize>,
    pub rtc_id: Option<Seq<char>>,
    pub agent_id: Option<Seq<char>>,
    pub transaction: Option<Seq<char>>,
}

pub open spec fn opt_text(o: Option<String>) -> Option<Seq<char>> {
    match o {
        Some(s) => Some(s@),
        None => None,
    }
}

impl View for ConferenceTags {
    type V = ConferenceTagsView;

    open spec fn view(&self) -> ConferenceTagsView {
        ConferenceTagsView {
            handle_id: self.handle_id,
            rtc_id: opt_text(self.rtc_id),
            agent_id: opt_text(self.agent_id),
            transaction: opt_text(self.transaction),
        }
    }
}

/// A member value of a JSON object, reduced to what the tag record reads.
/// A number is kept only where it is a non-negative integer that fits a `u64`.
#[derive(Debug)]
pub enum JsonScalar {
    Null,
    Bool(bool),
    Number(Option<u64>),
    Text(String),
    Composite,
}

pub enum JsonScalarView {
    Null,
    Bool(bool),
    Number(Option<u64>),
    Text(Seq<char>),
    Composite,
}

impl View for JsonScalar {
    type V = JsonScalarView;

    open spec fn view(&self) -> JsonScalarView {
        match self {
            JsonScalar::Null => JsonScalarView::Null,
            JsonScalar::Bool(b) => JsonScalarView::Bool(*b),
            JsonScalar::Number(n) => JsonScalarView::Number(*n),
            JsonScalar::Text(s) => JsonScalarView::Text(s@),
            JsonScalar::Composite => JsonScalarView::Composite,
        }
    }
}

pub open spec fn members_view(v: Seq<(String, JsonScalar)>) -> Seq<(Seq<char>, JsonScalarView)> {
    v.map_values(|m: (String, JsonScalar)| (m.0@, m.1@))
}

/// What serde_json makes of `text` read as a JSON object: its members, or the
/// text of its error.
pub uninterp spec fn json_object_members(text: Seq<char>) -> Result<
    Seq<(Seq<char>, JsonScalarView)>,
    Seq<char>,
>;

/// Relies on `serde_json::from_str` into `serde_json::Map<String, Value>`:
/// parses `text` as one JSON object, or gives the error's text. Each member
/// value is told apart by its `Value` variant; a number through `Number::as_u64`.
/// The map holds one value per name, so a name given twice keeps its last value.
#[verifier::external_body]
fn parse_json_object(text: &str) -> (r: Result<Vec<(String, JsonScalar)>, String>)
    ensures
        json_object_members(text@) == (match r {
            Ok(v) => Ok(members_view(v@)),
            Err(e) => Err(e@),
        }),
{
    match serde_json::from_str::<serde_json::Map<String, serde_json::Value>>(text) {
        Ok(m) => Ok(m.into_iter().map(|(k, v)| (k, match v {
            serde_json::Value::Null => JsonScalar::Null,
            serde_json::Value::Bool(b) => JsonScalar::Bool(b),
            serde_json::Value::Number(n) => JsonScalar::Number(n.as_u64()),
            serde_json::Value::String(s) => JsonScalar::Text(s),
            _ => JsonScalar::Composite,
        })).collect()),
        Err(e) => Err(e.to_string()),
    }
}

pub open spec fn conference_marker() -> Seq<char> {
    seq!['[', 'C', 'O', 'N', 'F', 'E', 'R', 'E', 'N', 'C', 'E', ' ']
}

/// Scanning an object from `i` on, `depth` braces deep, inside a string or
/// not, after a backslash in a string or not: the index of the brace that
/// closes the object.
pub open spec fn object_close(s: Seq<char>, i: int, depth: nat, in_str: bool, esc: bool) -> Option<
    int,
>
    decreases s.len() - i,
{
    if i < 0 || i >= s.len() {
        None
    } else if in_str {
        if esc {
            object_close(s, i + 1, depth, true, false)
        } else if s[i] == '\\' {
            object_close(s, i + 1, depth, true, true)
        } else if s[i] == '"' {
            object_close(s, i + 1, depth, false, false)
        } else {
            object_close(s, i + 1, depth, true, false)
        }
    } else if s[i] == '"' {
        object_close(s, i + 1, depth, true, false)
    } else if s[i] == '{' {
        object_close(s, i + 1, depth + 1, false, false)
    } else if s[i] == '}' {
        if depth <= 1 {
            Some(i)
        } else {
            object_close(s, i + 1, (depth - 1) as nat, false, false)
        }
    } else {
        object_close(s, i + 1, depth, false, false)
    }
}

/// Where `s` follows the conference grammar: the end `j` of its tag object, so
/// that the object is `s[12..j]` and the message is what follows `s[j..j + 2]`, `] `.
pub open spec fn conference_split(s: Seq<char>) -> Option<int> {
    if occurs_at(s, 0, conference_marker()) && s.len() > 12 && s[12] == '{' {
        match object_close(s, 13, 1, false, false) {
            Some(c) => if occurs_at(s, c + 1, seq![']', ' ']) {
                Some(c + 1)
            } else {
                None
            },
            None => None,
        }
    } else {
        None
    }
}

/// The index of the brace that closes the object opened just before `start`.
fn find_object_close(cs: &Vec<char>, start: usize) -> (r: Option<usize>)
    requires
        1 <= start <= cs@.len(),
    ensures
        match r {
            Some(c) => c < cs@.len() && object_close(cs@, start as int, 1, false, false) == Some(
                c as int,
            ),
            None => object_close(cs@, start as int, 1, false, false) is None,
        },
{
    let n = cs.len();
    let mut i: usize = start;
    let mut depth: usize = 1;
    let mut in_str = false;
    let mut esc = false;
    while i < n
        invariant
            n == cs@.len(),
            1 <= start <= i <= n,
            1 <= depth,
            depth <= i - start + 1,
            esc ==> in_str,
            object_close(cs@, i as int, depth as nat, in_str, esc) == object_close(
                cs@,
                start as int,
                1,
                false,
                false,
            ),
        decreases n - i,
    {
        let c = cs[i];
        if in_str {
            if esc {
                esc = false;
            } else if c == '\\' {
                esc = true;
            } else if c == '"' {
                in_str = false;
            }
        } else if c == '"' {
            in_str = true;
        } else if c == '{' {
            depth = depth + 1;
        } else if c == '}' {
            if depth <= 1 {
                return Some(i);
            }
            depth = depth - 1;
        }
        i = i + 1;
    }
    None
}

/// Splits a conference line: `Some((tags, rest))` where `line` starts with
/// `[CONFERENCE `, a JSON object whose closing brace is found by balancing
/// braces outside strings, and `] `; `tags` is the object's text and `rest`
/// what follows.
pub fn split_conference(line: &str) -> (r: Option<(&str, &str)>)
    ensures
        match conference_split(line@) {
            Some(j) => r matches Some((t, m)) && t@ == line@.subrange(12, j) && m@ == line@.skip(
                j + 2,
            ),
            None => r is None,
        },
{
    let cs = chars_of(line);
    let n = cs.len();
    if n <= 12 || cs[0] != '[' || cs[1] != 'C' || cs[2] != 'O' || cs[3] != 'N' || cs[4] != 'F'
        || cs[5] != 'E' || cs[6] != 'R' || cs[7] != 'E' || cs[8] != 'N' || cs[9] != 'C' || cs[10]
        != 'E' || cs[11] != ' ' || cs[12] != '{' {
        proof {
            if occurs_at(line@, 0, conference_marker()) && n > 12 {
                assert(line@.subrange(0, 12) == conference_marker());
                assert(forall|k: int|
                    0 <= k < 12 ==> line@[k] == #[trigger] line@.subrange(0, 12)[k]);
            }
        }
        return None;
    }
    assert(line@.subrange(0, 12) =~= conference_marker());
    match find_object_close(&cs, 13) {
        None => None,
        Some(c) => {
            if c < n - 2 && cs[c + 1] == ']' && cs[c + 2] == ' ' {
                assert(line@.subrange(c + 1, c + 3) =~= seq![']', ' ']);
                assert(line@.subrange(c + 3, n as int) =~= line@.skip(c + 3));
                Some((line.substring_char(12, c + 1), line.substring_char(c + 3, n)))
            } else {
                proof {
                    if occurs_at(line@, c + 1, seq![']', ' ']) {
                        assert(line@.subrange(c + 1, c + 3)[0] == line@[c + 1]);
                        assert(line@.subrange(c + 1, c + 3)[1] == line@[c + 2]);
                    }
                }
                None
            }
        },
    }
}

/// The value of the first member of `ms` named `key`.
pub open spec fn member_value(ms: Seq<(Seq<char>, JsonScalarView)>, key: Seq<char>) -> Option<
    JsonScalarView,
>
    decreases ms.len(),
{
    if ms.len() == 0 {
        None
    } else if ms[0].0 == key {
        Some(ms[0].1)
    } else {
        member_value(ms.drop_first(), key)
    }
}

/// A handle member: absent or null gives no handle, an integer that fits a
/// `usize` gives that handle, anything else is malformed (`None`).
pub open spec fn handle_field(m: Option<JsonScalarView>) -> Option<Option<usize>> {
    match m {
        None => Some(None),
        Some(JsonScalarView::Null) => Some(None),
        Some(JsonScalarView::Number(Some(n))) => if n <= usize::MAX {
            Some(Some(n as usize))
        } else {
            None
        },
        _ => None,
    }
}

/// A text member: absent or null gives no text, a JSON string gives its
/// contents, anything else is malformed (`None`).
pub open spec fn text_field(m: Option<JsonScalarView>) -> Option<Option<Seq<char>>> {
    match m {
        None => Some(None),
        Some(JsonScalarView::Null) => Some(None),
        Some(JsonScalarView::Text(t)) => Some(Some(t)),
        _ => None,
    }
}

/// The tag record that the members `ms` of a tag object declare; members with
/// other names are ignored. `None` where a known member is malformed.
pub open spec fn conference_tags_spec(ms: Seq<(Seq<char>, JsonScalarView)>) -> Option<
    ConferenceTagsView,
> {
    let h = handle_field(member_value(ms, "handle_id"@));
    let r = text_field(member_value(ms, "rtc_id"@));
    let a = text_field(member_value(ms, "agent_id"@));
    let t = text_field(member_value(ms, "transaction"@));
    if h is Some && r is Some && a is Some && t is Some {
        Some(
            ConferenceTagsView {
                handle_id: h->Some_0,
                rtc_id: r->Some_0,
                agent_id: a->Some_0,
                transaction: t->Some_0,
            },
        )
    } else {
        None
    }
}

/// Why the members `ms` declare no tag record: the first malformed known member.
pub open spec fn member_error(ms: Seq<(Seq<char>, JsonScalarView)>) -> Seq<char> {
    if handle_field(member_value(ms, "handle_id"@)) is None {
        "invalid value for member `handle_id`"@
    } else if text_field(member_value(ms, "rtc_id"@)) is None {
        "invalid value for member `rtc_id`"@
    } else if text_field(member_value(ms, "agent_id"@)) is None {
        "invalid value for member `agent_id`"@
    } else {
        "invalid value for member `transaction`"@
    }
}

/// Index of the first member of `ms` named `key`.
fn find_member(ms: &Vec<(String, JsonScalar)>, key: &str) -> (r: Option<usize>)
    ensures
        match r {
            Some(i) => i < ms@.len() && member_value(members_view(ms@), key@) == Some(
                ms@[i as int].1@,
            ),
            None => member_value(members_view(ms@), key@) is None,
        },
{
    let n = ms.len();
    let mut i: usize = 0;
    assert(members_view(ms@).subrange(0, n as int) =~= members_view(ms@));
    while i < n
        invariant
            n == ms@.len(),
            i <= n,
            member_value(members_view(ms@).subrange(i as int, n as int), key@) == member_value(
                members_view(ms@),
                key@,
            ),
        decreases n - i,
    {
        let ghost rest = members_view(ms@).subrange(i as int, n as int);
        assert(rest[0] == (ms@[i as int].0@, ms@[i as int].1@));
        if text_eq(ms[i].0.as_str(), key) {
            return Some(i);
        }
        assert(rest.drop_first() =~= members_view(ms@).subrange(i + 1, n as int));
        i = i + 1;
    }
    None
}

fn handle_member(ms: &Vec<(String, JsonScalar)>) -> (r: Option<Option<usize>>)
    ensures
        r == handle_field(member_value(members_view(ms@), "handle_id"@)),
{
    match find_member(ms, "handle_id") {
        None => Some(None),
        Some(i) => match &ms[i].1 {
            JsonScalar::Null => Some(None),
            JsonScalar::Number(Some(n)) => if *n as u128 <= usize::MAX as u128 {
                Some(Some(*n as usize))
            } else {
                None
            },
            _ => None,
        },
    }
}

fn text_member(ms: &Vec<(String, JsonScalar)>, key: &str) -> (r: Option<Option<String>>)
    ensures
        match r {
            Some(o) => text_field(member_value(members_view(ms@), key@)) == Some(opt_text(o)),
            None => text_field(member_value(members_view(ms@), key@)) is None,
        },
{
    match find_member(ms, key) {
        None => Some(None),
        Some(i) => match &ms[i].1 {
            JsonScalar::Null => Some(None),
            JsonScalar::Text(t) => Some(Some(t.clone())),
            _ => None,
        },
    }
}

/// Reads the tag record from the members of a parsed tag object. Members
/// with other names are ignored; a known member of the wrong kind is an error
/// that names the member.
pub fn conference_tags_from_members(ms: &Vec<(String, JsonScalar)>) -> (r: Result<
    ConferenceTags,
    String,
>)
    ensures
        match conference_tags_spec(members_view(ms@)) {
            Some(t) => r matches Ok(c) && c@ == t,
            None => r matches Err(e) && e@ == member_error(members_view(ms@)),
        },
{
    proof {
        reveal_strlit("invalid value for member `handle_id`");
        reveal_strlit("invalid value for member `rtc_id`");
        reveal_strlit("invalid value for member `agent_id`");
        reveal_strlit("invalid value for member `transaction`");
    }
    let h = match handle_member(ms) {
        Some(h) => h,
        None => {
            return Err(String::from_str("invalid value for member `handle_id`"));
        },
    };
    let rtc_id = match text_member(ms, "rtc_id") {
        Some(v) => v,
        None => {
            return Err(String::from_str("invalid value for member `rtc_id`"));
        },
    };
    let agent_id = match text_member(ms, "agent_id") {
        Some(v) => v,
        None => {
            return Err(String::from_str("invalid value for member `agent_id`"));
        },
    };
    let transaction = match text_member(ms, "transaction") {
        Some(v) => v,
        None => {
            return Err(String::from_str("invalid value for member `transaction`"));
        },
    };
    Ok(ConferenceTags { handle_id: h, rtc_id, agent_id, transaction })
}

/// The diagnostic for a tag object that could not be read.
pub open spec fn tags_failure_text(tags: Seq<char>, reason: Seq<char>) -> Seq<char> {
    "Failed to parse conference tags '"@ + tags + "': "@ + reason
}

/// Parses the text of a tag object into the tag record; on failure, the
/// diagnostic names the text and the reason.
pub fn parse_conference_tags(tags: &str) -> (r: Result<ConferenceTags, String>)
    ensures
        match json_object_members(tags@) {
            Ok(ms) => match conference_tags_spec(ms) {
                Some(t) => r matches Ok(c) && c@ == t,
                None => r matches Err(e) && e@ == tags_failure_text(tags@, member_error(ms)),
            },
            Err(m) => r matches Err(e) && e@ == tags_failure_text(tags@, m),
        },
{
    let reason = match parse_json_object(tags) {
        Ok(ms) => match conference_tags_from_members(&ms) {
            Ok(c) => {
                return Ok(c);
            },
            Err(m) => m,
        },
        Err(m) => m,
    };
    let mut e = String::from_str("Failed to parse conference tags '");
    e.append(tags);
    e.append("': ");
    e.append(reason.as_str());
    Err(e)
}

} // verus!
