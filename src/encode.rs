//! Rendering of a structured event as one line of JSON: an object whose
//! members are `ts`, `level`, `source`, the producer's present tags, and `msg`.
//! Absent tags are left out, never written as `null`.

use vstd::prelude::*;
use crate::conference::ConferenceTagsView;
use crate::level::{severity_label, Severity};
use crate::message::StructuredEvent;
use crate::tags::{SourceView, SourceWithTags};
use crate::text::{chars_of, decimal_text, push_decimal};

verus! {

/// The value of a member of an emitted record.
pub enum FieldValue {
    Text(Seq<char>),
    Number(nat),
}

pub open spec fn lower_hex_digits() -> Seq<char> {
    seq!['0', '1', '2', '3', '4', '5', '6', '7', '8', '9', 'a', 'b', 'c', 'd', 'e', 'f']
}

/// How one character is written inside a JSON string literal: quote and
/// backslash are escaped, the five control characters with short escapes use
/// them, other control characters below 0x20 become `\u00XX` in lowercase hex,
/// and every other character stands for itself.
pub open spec fn json_escape(c: char) -> Seq<char> {
    let u = c as u32;
    if c == '"' {
        seq!['\\', '"']
    } else if c == '\\' {
        seq!['\\', '\\']
    } else if u == 0x08 {
        seq!['\\', 'b']
    } else if u == 0x09 {
        seq!['\\', 't']
    } else if u == 0x0a {
        seq!['\\', 'n']
    } else if u == 0x0c {
        seq!['\\', 'f']
    } else if u == 0x0d {
        seq!['\\', 'r']
    } else if u < 0x20 {
        seq![
            '\\',
            'u',
            '0',
            '0',
            lower_hex_digits()[(u / 16) as int],
            lower_hex_digits()[(u % 16) as int],
        ]
    } else {
        seq![c]
    }
}

/// The characters of `s`, each escaped.
pub open spec fn json_escaped(s: Seq<char>) -> Seq<char>
    decreases s.len(),
{
    if s.len() == 0 {
        seq![]
    } else {
        json_escaped(s.drop_last()) + json_escape(s.last())
    }
}

/// The JSON string literal of `s`.
pub open spec fn json_quoted(s: Seq<char>) -> Seq<char> {
    seq!['"'] + json_escaped(s) + seq!['"']
}

/// Relies on `serde_json::to_string` applied to a `str`: it writes the text
/// between quotes with the escapes of `json_escape`, into a `Vec`, which
/// cannot fail.
#[verifier::external_body]
fn json_string(s: &str) -> (r: Option<String>)
    ensures
        r is Some,
        r matches Some(t) ==> t@ == json_quoted(s@),
{
    match serde_json::to_string(s) {
        Ok(t) => Some(t),
        Err(_) => None,
    }
}

/// Relies on `String`'s `FromIterator<&char>`: the string of the characters of `v`, in order.
#[verifier::external_body]
fn string_from_chars(v: &Vec<char>) -> (r: String)
    ensures
        r@ == v@,
{
    v.iter().collect()
}

/// The discriminant that names the producer in a record.
pub open spec fn source_name(s: SourceView) -> Seq<char> {
    match s {
        SourceView::Core { .. } => "core"@,
        SourceView::Conference(_) => "conference"@,
        SourceView::Unknown { .. } => "unknown"@,
    }
}

pub open spec fn number_member(key: Seq<char>, v: Option<usize>) -> Seq<(Seq<char>, FieldValue)> {
    match v {
        Some(n) => seq![(key, FieldValue::Number(n as nat))],
        None => seq![],
    }
}

pub open spec fn text_member(key: Seq<char>, v: Option<Seq<char>>) -> Seq<(Seq<char>, FieldValue)> {
    match v {
        Some(t) => seq![(key, FieldValue::Text(t))],
        None => seq![],
    }
}

/// The members that a producer contributes: its present tags, or the diagnostic.
pub open spec fn source_members(s: SourceView) -> Seq<(Seq<char>, FieldValue)> {
    match s {
        SourceView::Core { handle_id } => number_member("handle_id"@, handle_id),
        SourceView::Conference(t) => number_member("handle_id"@, t.handle_id) + text_member(
            "rtc_id"@,
            t.rtc_id,
        ) + text_member("agent_id"@, t.agent_id) + text_member("transaction"@, t.transaction),
        SourceView::Unknown { logger_error } => seq![
            ("logger_error"@, FieldValue::Text(logger_error)),
        ],
    }
}

/// The members of the record of an event, in the order they are written.
pub open spec fn event_members(ts: Seq<char>, level: Severity, src: SourceView, msg: Seq<char>) -> Seq<
    (Seq<char>, FieldValue),
> {
    seq![
        ("ts"@, FieldValue::Text(ts)),
        ("level"@, FieldValue::Text(severity_label(level))),
        ("source"@, FieldValue::Text(source_name(src))),
    ] + source_members(src) + seq![("msg"@, FieldValue::Text(msg))]
}

pub open spec fn value_text(v: FieldValue) -> Seq<char> {
    match v {
        FieldValue::Text(t) => json_quoted(t),
        FieldValue::Number(n) => decimal_text(n),
    }
}

/// `"key":value`.
pub open spec fn member_text(f: (Seq<char>, FieldValue)) -> Seq<char> {
    seq!['"'] + f.0 + seq!['"', ':'] + value_text(f.1)
}

/// The members written one after another, separated by commas.
pub open spec fn members_text(fs: Seq<(Seq<char>, FieldValue)>) -> Seq<char>
    decreases fs.len(),
{
    if fs.len() == 0 {
        seq![]
    } else if fs.len() == 1 {
        member_text(fs[0])
    } else {
        members_text(fs.drop_last()) + seq![','] + member_text(fs.last())
    }
}

/// The record text: the members between braces.
pub open spec fn record_text(fs: Seq<(Seq<char>, FieldValue)>) -> Seq<char> {
    seq!['{'] + members_text(fs) + seq!['}']
}

/// The record text of an event.
pub open spec fn event_record(e: &StructuredEvent) -> Seq<char> {
    record_text(event_members(e.ts@, e.level, e.source_with_tags@, e.msg@))
}

/// A member value as the encoder holds it.
pub enum Field<'a> {
    Text(&'a str),
    Number(usize),
}

pub open spec fn field_view(f: (&str, Field)) -> (Seq<char>, FieldValue) {
    (
        f.0@,
        match f.1 {
            Field::Text(t) => FieldValue::Text(t@),
            Field::Number(n) => FieldValue::Number(n as nat),
        },
    )
}

pub open spec fn fields_view(v: Seq<(&str, Field)>) -> Seq<(Seq<char>, FieldValue)> {
    v.map_values(|f: (&str, Field)| field_view(f))
}

fn push_optional_number<'a>(out: &mut Vec<(&'a str, Field<'a>)>, key: &'a str, v: Option<usize>)
    ensures
        fields_view(final(out)@) == fields_view(old(out)@) + number_member(key@, v),
{
    let ghost before = fields_view(out@);
    if let Some(n) = v {
        out.push((key, Field::Number(n)));
    }
    assert(fields_view(out@) =~= before + number_member(key@, v));
}

fn push_optional_text<'a>(out: &mut Vec<(&'a str, Field<'a>)>, key: &'a str, v: &'a Option<String>)
    ensures
        fields_view(final(out)@) == fields_view(old(out)@) + text_member(
            key@,
            crate::conference::opt_text(*v),
        ),
{
    let ghost before = fields_view(out@);
    if let Some(t) = v {
        out.push((key, Field::Text(t.as_str())));
    }
    assert(fields_view(out@) =~= before + text_member(key@, crate::conference::opt_text(*v)));
}

impl StructuredEvent {
    /// The members of this event's record, in the order they are written.
    pub fn members(&self) -> (r: Vec<(&str, Field)>)
        ensures
            fields_view(r@) == event_members(
                self.ts@,
                self.level,
                self.source_with_tags@,
                self.msg@,
            ),
    {
        let mut r: Vec<(&str, Field)> = Vec::new();
        r.push(("ts", Field::Text(self.ts.as_str())));
        r.push(("level", Field::Text(self.level.label())));
        let name = match &self.source_with_tags {
            SourceWithTags::Core(_) => "core",
            SourceWithTags::Conference(_) => "conference",
            SourceWithTags::Unknown { .. } => "unknown",
        };
        r.push(("source", Field::Text(name)));
        let ghost head = fields_view(r@);
        assert(head =~= seq![
            ("ts"@, FieldValue::Text(self.ts@)),
            ("level"@, FieldValue::Text(severity_label(self.level))),
            ("source"@, FieldValue::Text(source_name(self.source_with_tags@))),
        ]);
        match &self.source_with_tags {
            SourceWithTags::Core(t) => {
                push_optional_number(&mut r, "handle_id", t.handle_id);
            },
            SourceWithTags::Conference(t) => {
                push_optional_number(&mut r, "handle_id", t.handle_id);
                push_optional_text(&mut r, "rtc_id", &t.rtc_id);
                push_optional_text(&mut r, "agent_id", &t.agent_id);
                push_optional_text(&mut r, "transaction", &t.transaction);
            },
            SourceWithTags::Unknown { logger_error } => {
                r.push(("logger_error", Field::Text(logger_error.as_str())));
            },
        }
        assert(fields_view(r@) =~= head + source_members(self.source_with_tags@));
        let ghost mid = fields_view(r@);
        r.push(("msg", Field::Text(self.msg.as_str())));
        assert(fields_view(r@) =~= mid + seq![("msg"@, FieldValue::Text(self.msg@))]);
        r
    }

    /// The event as one line of JSON.
    pub fn to_json(&self) -> (r: String)
        ensures
            r@ == event_record(self),
    {
        let fs = self.members();
        let ghost fv = fields_view(fs@);
        let n = fs.len();
        let mut body: Vec<char> = Vec::new();
        let mut i: usize = 0;
        while i < n
            invariant
                n == fs@.len(),
                fv == fields_view(fs@),
                fv == event_members(self.ts@, self.level, self.source_with_tags@, self.msg@),
                i <= n,
                members_text(fv.subrange(0, i as int)) == body@,
            decreases n - i,
        {
            let (key, value) = &fs[i];
            assert(fv[i as int] == field_view(fs@[i as int]));
            let mut piece: Vec<char> = Vec::new();
            if i > 0 {
                piece.push(',');
            }
            piece.push('"');
            let mut k = chars_of(key);
            piece.append(&mut k);
            piece.push('"');
            piece.push(':');
            match value {
                Field::Text(t) => {
                    let q = json_string(t).unwrap();
                    let mut qs = chars_of(q.as_str());
                    piece.append(&mut qs);
                },
                Field::Number(m) => {
                    push_decimal(*m, &mut piece);
                },
            }
            let ghost sub = fv.subrange(0, i + 1);
            assert(sub.drop_last() =~= fv.subrange(0, i as int));
            assert(sub.last() == fv[i as int]);
            let ghost old_body = body@;
            body.append(&mut piece);
            proof {
                if i == 0 {
                    assert(sub[0] == fv[0]);
                    assert(body@ =~= member_text(fv[0]));
                } else {
                    assert(body@ =~= old_body + seq![','] + member_text(fv[i as int]));
                }
            }
            i = i + 1;
        }
        assert(fv.subrange(0, n as int) =~= fv);
        let mut rec: Vec<char> = Vec::new();
        rec.push('{');
        rec.append(&mut body);
        rec.push('}');
        string_from_chars(&rec)
    }
}

/// The value of the first member of `fs` named `key`: what a reader of the
/// record finds under that key.
pub open spec fn member_of(fs: Seq<(Seq<char>, FieldValue)>, key: Seq<char>) -> Option<FieldValue>
    decreases fs.len(),
{
    if fs.len() == 0 {
        None
    } else if fs[0].0 == key {
        Some(fs[0].1)
    } else {
        member_of(fs.drop_first(), key)
    }
}

pub open spec fn number_value(v: Option<usize>) -> Option<FieldValue> {
    match v {
        Some(n) => Some(FieldValue::Number(n as nat)),
        None => None,
    }
}

pub open spec fn text_value(v: Option<Seq<char>>) -> Option<FieldValue> {
    match v {
        Some(t) => Some(FieldValue::Text(t)),
        None => None,
    }
}

/// What a record holds under `key` for the producer `src`: a tag where it is
/// present, the diagnostic of an unknown producer, and nothing else.
pub open spec fn tag_value(src: SourceView, key: Seq<char>) -> Option<FieldValue> {
    match src {
        SourceView::Core { handle_id } => if key == "handle_id"@ {
            number_value(handle_id)
        } else {
            None
        },
        SourceView::Conference(t) => if key == "handle_id"@ {
            number_value(t.handle_id)
        } else if key == "rtc_id"@ {
            text_value(t.rtc_id)
        } else if key == "agent_id"@ {
            text_value(t.agent_id)
        } else if key == "transaction"@ {
            text_value(t.transaction)
        } else {
            None
        },
        SourceView::Unknown { logger_error } => if key == "logger_error"@ {
            Some(FieldValue::Text(logger_error))
        } else {
            None
        },
    }
}

proof fn lemma_member_of_concat(a: Seq<(Seq<char>, FieldValue)>, b: Seq<(Seq<char>, FieldValue)>, key: Seq<char>)
    ensures
        member_of(a + b, key) == (match member_of(a, key) {
            Some(v) => Some(v),
            None => member_of(b, key),
        }),
    decreases a.len(),
{
    if a.len() == 0 {
        assert(a + b =~= b);
    } else {
        assert((a + b).drop_first() =~= a.drop_first() + b);
        lemma_member_of_concat(a.drop_first(), b, key);
    }
}

proof fn lemma_single(key: Seq<char>, v: FieldValue, k: Seq<char>)
    ensures
        member_of(seq![(key, v)], k) == (if k == key {
            Some(v)
        } else {
            None
        }),
{
    if k != key {
        assert(seq![(key, v)].drop_first() =~= Seq::<(Seq<char>, FieldValue)>::empty());
        assert(member_of(Seq::<(Seq<char>, FieldValue)>::empty(), k) is None);
    }
}

proof fn lemma_number_member(key: Seq<char>, v: Option<usize>, k: Seq<char>)
    ensures
        member_of(number_member(key, v), k) == (if k == key {
            number_value(v)
        } else {
            None
        }),
{
    if let Some(n) = v {
        lemma_single(key, FieldValue::Number(n as nat), k);
    }
}

proof fn lemma_text_member(key: Seq<char>, v: Option<Seq<char>>, k: Seq<char>)
    ensures
        member_of(text_member(key, v), k) == (if k == key {
            text_value(v)
        } else {
            None
        }),
{
    if let Some(t) = v {
        lemma_single(key, FieldValue::Text(t), k);
    }
}

/// Reading an event's record back gives what went in: its time, severity,
/// producer name and message under `ts`, `level`, `source` and `msg`, and under
/// every other key exactly the producer's tag of that name where it is present
/// (or an unknown producer's diagnostic); an absent tag has no member at all.
pub proof fn lemma_record_reads_back(
    ts: Seq<char>,
    level: Severity,
    src: SourceView,
    msg: Seq<char>,
    key: Seq<char>,
)
    ensures
        member_of(event_members(ts, level, src, msg), "ts"@) == Some(FieldValue::Text(ts)),
        member_of(event_members(ts, level, src, msg), "level"@) == Some(
            FieldValue::Text(severity_label(level)),
        ),
        member_of(event_members(ts, level, src, msg), "source"@) == Some(
            FieldValue::Text(source_name(src)),
        ),
        member_of(event_members(ts, level, src, msg), "msg"@) == Some(FieldValue::Text(msg)),
        key != "ts"@ && key != "level"@ && key != "source"@ && key != "msg"@ ==> member_of(
            event_members(ts, level, src, msg),
            key,
        ) == tag_value(src, key),
{
    reveal_strlit("ts");
    reveal_strlit("level");
    reveal_strlit("source");
    reveal_strlit("msg");
    reveal_strlit("handle_id");
    reveal_strlit("rtc_id");
    reveal_strlit("agent_id");
    reveal_strlit("transaction");
    reveal_strlit("logger_error");
    assert("ts"@.len() == 2 && "level"@.len() == 5 && "source"@.len() == 6 && "msg"@.len() == 3);
    assert("handle_id"@.len() == 9 && "rtc_id"@.len() == 6 && "agent_id"@.len() == 8);
    assert("transaction"@.len() == 11 && "logger_error"@.len() == 12);
    assert("source"@[0] != "rtc_id"@[0]);
    assert forall|k: Seq<char>|
        k == "ts"@ || k == "level"@ || k == "source"@ || k == "msg"@ || k == key implies member_of(
            event_members(ts, level, src, msg),
            k,
        ) == (if k == "ts"@ {
            Some(FieldValue::Text(ts))
        } else if k == "level"@ {
            Some(FieldValue::Text(severity_label(level)))
        } else if k == "source"@ {
            Some(FieldValue::Text(source_name(src)))
        } else if k == "msg"@ {
            Some(FieldValue::Text(msg))
        } else {
            tag_value(src, k)
        }) by {
        let s1 = seq![("ts"@, FieldValue::Text(ts))];
        let s2 = seq![("level"@, FieldValue::Text(severity_label(level)))];
        let s3 = seq![("source"@, FieldValue::Text(source_name(src)))];
        let tail = seq![("msg"@, FieldValue::Text(msg))];
        let mid = source_members(src);
        assert(event_members(ts, level, src, msg) =~= s1 + s2 + s3 + mid + tail);
        lemma_member_of_concat(s1 + s2 + s3 + mid, tail, k);
        lemma_member_of_concat(s1 + s2 + s3, mid, k);
        lemma_member_of_concat(s1 + s2, s3, k);
        lemma_member_of_concat(s1, s2, k);
        lemma_single("ts"@, FieldValue::Text(ts), k);
        lemma_single("level"@, FieldValue::Text(severity_label(level)), k);
        lemma_single("source"@, FieldValue::Text(source_name(src)), k);
        lemma_single("msg"@, FieldValue::Text(msg), k);
        match src {
            SourceView::Core { handle_id } => {
                lemma_number_member("handle_id"@, handle_id, k);
            },
            SourceView::Conference(t) => {
                let n = number_member("handle_id"@, t.handle_id);
                let r = text_member("rtc_id"@, t.rtc_id);
                let a = text_member("agent_id"@, t.agent_id);
                let x = text_member("transaction"@, t.transaction);
                lemma_member_of_concat(n + r + a, x, k);
                lemma_member_of_concat(n + r, a, k);
                lemma_member_of_concat(n, r, k);
                lemma_number_member("handle_id"@, t.handle_id, k);
                lemma_text_member("rtc_id"@, t.rtc_id, k);
                lemma_text_member("agent_id"@, t.agent_id, k);
                lemma_text_member("transaction"@, t.transaction, k);
            },
            SourceView::Unknown { logger_error } => {
                lemma_single("logger_error"@, FieldValue::Text(logger_error), k);
            },
        }
    }
}

} // verus!
