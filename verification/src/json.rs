//! Rendering a transaction result as a plain JSON string, field names as the
//! result defines them, for cross-process handoff.

use vstd::prelude::*;

use crate::events::EventField;
use crate::events::FieldValue;
use crate::events::TransactionEvent;
use crate::outcome::TransactionResult;
use crate::outcome::TransactionStatus;

verus! {

/// One lowercase hexadecimal digit.
pub open spec fn hex_digit(n: int) -> char {
    if n == 0 {
        '0'
    } else if n == 1 {
        '1'
    } else if n == 2 {
        '2'
    } else if n == 3 {
        '3'
    } else if n == 4 {
        '4'
    } else if n == 5 {
        '5'
    } else if n == 6 {
        '6'
    } else if n == 7 {
        '7'
    } else if n == 8 {
        '8'
    } else if n == 9 {
        '9'
    } else if n == 10 {
        'a'
    } else if n == 11 {
        'b'
    } else if n == 12 {
        'c'
    } else if n == 13 {
        'd'
    } else if n == 14 {
        'e'
    } else {
        'f'
    }
}

/// The escaped form of one character inside a JSON string literal: quote and
/// backslash gain a backslash, a control character becomes its four-digit
/// escape, and every other character stands as itself.
pub open spec fn escaped_char(c: char) -> Seq<char> {
    if c == '"' {
        seq!['\\', '"']
    } else if c == '\\' {
        seq!['\\', '\\']
    } else if (c as u32) < 32 {
        seq!['\\', 'u', '0', '0', hex_digit(c as int / 16), hex_digit(c as int % 16)]
    } else {
        seq![c]
    }
}

/// The escaped form of a whole string.
pub open spec fn escaped(s: Seq<char>) -> Seq<char>
    decreases s.len(),
{
    if s.len() == 0 {
        Seq::empty()
    } else {
        escaped_char(s[0]) + escaped(s.drop_first())
    }
}

/// Escaping distributes over appending one character.
proof fn lemma_escaped_snoc(s: Seq<char>, c: char)
    ensures
        escaped(s.push(c)) == escaped(s) + escaped_char(c),
    decreases s.len(),
{
    if s.len() == 0 {
        assert(s.push(c)[0] == c);
        assert(s.push(c).drop_first() =~= s);
        assert(escaped(s.push(c)) =~= escaped(s) + escaped_char(c));
    } else {
        assert(s.push(c)[0] == s[0]);
        assert(s.push(c).drop_first() =~= s.drop_first().push(c));
        lemma_escaped_snoc(s.drop_first(), c);
        assert(escaped(s.push(c)) =~= escaped(s) + escaped_char(c));
    }
}

/// A quoted, escaped JSON string literal.
pub open spec fn json_string(s: Seq<char>) -> Seq<char> {
    seq!['"'] + escaped(s) + seq!['"']
}

/// The JSON form of one field value.
pub open spec fn field_value_json(v: FieldValue) -> Seq<char> {
    match v {
        FieldValue::Null => "null"@,
        FieldValue::Bool(b) => if b {
            "true"@
        } else {
            "false"@
        },
        FieldValue::Text(s) => json_string(s@),
    }
}

/// The JSON form of one named field: quoted name, colon, value.
pub open spec fn field_json(f: EventField) -> Seq<char> {
    json_string(f.name@) + ":"@ + field_value_json(f.value)
}

/// The comma-separated body of a JSON object holding the fields in order.
pub open spec fn fields_json(fs: Seq<EventField>) -> Seq<char>
    decreases fs.len(),
{
    if fs.len() == 0 {
        Seq::empty()
    } else if fs.len() == 1 {
        field_json(fs[0])
    } else {
        field_json(fs[0]) + ","@ + fields_json(fs.drop_first())
    }
}

/// The object body distributes over appending one field.
proof fn lemma_fields_json_snoc(fs: Seq<EventField>, f: EventField)
    ensures
        fields_json(fs.push(f)) == if fs.len() == 0 {
            field_json(f)
        } else {
            fields_json(fs) + ","@ + field_json(f)
        },
    decreases fs.len(),
{
    let t = fs.push(f);
    if fs.len() == 0 {
        assert(t[0] == f);
    } else {
        assert(t[0] == fs[0]);
        assert(t.drop_first() =~= fs.drop_first().push(f));
        lemma_fields_json_snoc(fs.drop_first(), f);
        if fs.len() == 1 {
            assert(fields_json(t) =~= fields_json(fs) + ","@ + field_json(f));
        } else {
            assert(fields_json(t) =~= fields_json(fs) + ","@ + field_json(f));
        }
    }
}

/// The JSON form of one decoded event.
pub open spec fn event_json(e: TransactionEvent) -> Seq<char> {
    "{\"pallet\":"@ + json_string(e.pallet@) + ",\"variant\":"@ + json_string(e.variant@)
        + ",\"data\":{"@ + fields_json(e.data@) + "}}"@
}

/// The comma-separated body of the JSON array holding the events in order.
pub open spec fn events_json(es: Seq<TransactionEvent>) -> Seq<char>
    decreases es.len(),
{
    if es.len() == 0 {
        Seq::empty()
    } else if es.len() == 1 {
        event_json(es[0])
    } else {
        event_json(es[0]) + ","@ + events_json(es.drop_first())
    }
}

/// The array body distributes over appending one event.
proof fn lemma_events_json_snoc(es: Seq<TransactionEvent>, e: TransactionEvent)
    ensures
        events_json(es.push(e)) == if es.len() == 0 {
            event_json(e)
        } else {
            events_json(es) + ","@ + event_json(e)
        },
    decreases es.len(),
{
    let t = es.push(e);
    if es.len() == 0 {
        assert(t[0] == e);
    } else {
        assert(t[0] == es[0]);
        assert(t.drop_first() =~= es.drop_first().push(e));
        lemma_events_json_snoc(es.drop_first(), e);
        assert(events_json(t) =~= events_json(es) + ","@ + event_json(e));
    }
}

/// The JSON form of the status tag.
pub open spec fn status_json(st: TransactionStatus) -> Seq<char> {
    match st {
        TransactionStatus::Pending => "\"Pending\""@,
        TransactionStatus::InBlock => "\"InBlock\""@,
        TransactionStatus::Finalized => "\"Finalized\""@,
        TransactionStatus::Failed => "\"Failed\""@,
    }
}

/// The JSON form of an optional string: `null` when absent.
pub open spec fn opt_string_json(o: Option<String>) -> Seq<char> {
    match o {
        Option::None => "null"@,
        Option::Some(s) => json_string(s@),
    }
}

/// The JSON form of a whole result: its five fields, in declaration order,
/// under their own names.
pub open spec fn result_json(r: TransactionResult) -> Seq<char> {
    "{\"hash\":"@ + json_string(r.hash@) + ",\"block_hash\":"@ + opt_string_json(r.block_hash)
        + ",\"status\":"@ + status_json(r.status) + ",\"events\":["@ + events_json(r.events@)
        + "],\"error\":"@ + opt_string_json(r.error) + "}"@
}

/// Append one lowercase hexadecimal digit.
fn append_hex_digit(out: &mut String, n: u32)
    requires
        n < 16,
    ensures
        final(out)@ == old(out)@ + seq![hex_digit(n as int)],
{
    if n == 0 {
        out.append("0");
        proof {
            reveal_strlit("0");
            assert("0"@ =~= seq![hex_digit(n as int)]);
        }
    } else if n == 1 {
        out.append("1");
        proof {
            reveal_strlit("1");
            assert("1"@ =~= seq![hex_digit(n as int)]);
        }
    } else if n == 2 {
        out.append("2");
        proof {
            reveal_strlit("2");
            assert("2"@ =~= seq![hex_digit(n as int)]);
        }
    } else if n == 3 {
        out.append("3");
        proof {
            reveal_strlit("3");
            assert("3"@ =~= seq![hex_digit(n as int)]);
        }
    } else if n == 4 {
        out.append("4");
        proof {
            reveal_strlit("4");
            assert("4"@ =~= seq![hex_digit(n as int)]);
        }
    } else if n == 5 {
        out.append("5");
        proof {
            reveal_strlit("5");
            assert("5"@ =~= seq![hex_digit(n as int)]);
        }
    } else if n == 6 {
        out.append("6");
        proof {
            reveal_strlit("6");
            assert("6"@ =~= seq![hex_digit(n as int)]);
        }
    } else if n == 7 {
        out.append("7");
        proof {
            reveal_strlit("7");
            assert("7"@ =~= seq![hex_digit(n as int)]);
        }
    } else if n == 8 {
        out.append("8");
        proof {
            reveal_strlit("8");
            assert("8"@ =~= seq![hex_digit(n as int)]);
        }
    } else if n == 9 {
        out.append("9");
        proof {
            reveal_strlit("9");
            assert("9"@ =~= seq![hex_digit(n as int)]);
        }
    } else if n == 10 {
        out.append("a");
        proof {
            reveal_strlit("a");
            assert("a"@ =~= seq![hex_digit(n as int)]);
        }
    } else if n == 11 {
        out.append("b");
        proof {
            reveal_strlit("b");
            assert("b"@ =~= seq![hex_digit(n as int)]);
        }
    } else if n == 12 {
        out.append("c");
        proof {
            reveal_strlit("c");
            assert("c"@ =~= seq![hex_digit(n as int)]);
        }
    } else if n == 13 {
        out.append("d");
        proof {
            reveal_strlit("d");
            assert("d"@ =~= seq![hex_digit(n as int)]);
        }
    } else if n == 14 {
        out.append("e");
        proof {
            reveal_strlit("e");
            assert("e"@ =~= seq![hex_digit(n as int)]);
        }
    } else {
        out.append("f");
        proof {
            reveal_strlit("f");
            assert("f"@ =~= seq![hex_digit(n as int)]);
        }
    }
}

/// Append the escaped form of `s`.
fn append_escaped(out: &mut String, s: &str)
    ensures
        final(out)@ == old(out)@ + escaped(s@),
{
    let n = s.unicode_len();
    let mut i: usize = 0;
    while i < n
        invariant
            n == s@.len(),
            i <= n,
            out@ == old(out)@ + escaped(s@.take(i as int)),
        decreases n - i,
    {
        let c = s.get_char(i);
        if c == '"' {
            out.append("\\\"");
            proof {
                reveal_strlit("\\\"");
                assert("\\\""@ =~= escaped_char(s@[i as int]));
            }
        } else if c == '\\' {
            out.append("\\\\");
            proof {
                reveal_strlit("\\\\");
                assert("\\\\"@ =~= escaped_char(s@[i as int]));
            }
        } else if (c as u32) < 32 {
            let code = c as u32;
            out.append("\\u00");
            append_hex_digit(out, code / 16);
            append_hex_digit(out, code % 16);
            proof {
                reveal_strlit("\\u00");
                assert("\\u00"@ + seq![hex_digit(code as int / 16)] + seq![
                    hex_digit(code as int % 16),
                ] =~= escaped_char(s@[i as int]));
            }
        } else {
            let piece = s.substring_char(i, i + 1);
            out.append(piece);
            proof {
                assert(piece@ =~= escaped_char(s@[i as int]));
            }
        }
        proof {
            assert(s@.take(i as int).push(s@[i as int]) =~= s@.take(i as int + 1));
            lemma_escaped_snoc(s@.take(i as int), s@[i as int]);
            assert(out@ =~= old(out)@ + escaped(s@.take(i as int + 1)));
        }
        i += 1;
    }
    proof {
        assert(s@.take(n as int) =~= s@);
    }
}

/// Append a quoted, escaped JSON string literal.
fn append_json_string(out: &mut String, s: &str)
    ensures
        final(out)@ == old(out)@ + json_string(s@),
{
    out.append("\"");
    append_escaped(out, s);
    out.append("\"");
    proof {
        reveal_strlit("\"");
        assert("\""@ =~= seq!['"']);
        assert(out@ =~= old(out)@ + json_string(s@));
    }
}

/// Append the JSON form of one field value.
fn append_field_value(out: &mut String, v: &FieldValue)
    ensures
        final(out)@ == old(out)@ + field_value_json(*v),
{
    match v {
        FieldValue::Null => {
            out.append("null");
        },
        FieldValue::Bool(b) => {
            if *b {
                out.append("true");
            } else {
                out.append("false");
            }
        },
        FieldValue::Text(s) => {
            append_json_string(out, s.as_str());
        },
    }
}

/// Append the JSON form of one named field.
fn append_field(out: &mut String, f: &EventField)
    ensures
        final(out)@ == old(out)@ + field_json(*f),
{
    append_json_string(out, f.name.as_str());
    out.append(":");
    append_field_value(out, &f.value);
    proof {
        assert(out@ =~= old(out)@ + field_json(*f));
    }
}

/// Append the comma-separated object body of a field list.
fn append_fields(out: &mut String, fs: &Vec<EventField>)
    ensures
        final(out)@ == old(out)@ + fields_json(fs@),
{
    let mut i: usize = 0;
    while i < fs.len()
        invariant
            i <= fs@.len(),
            out@ == old(out)@ + fields_json(fs@.take(i as int)),
        decreases fs@.len() - i,
    {
        if i > 0 {
            out.append(",");
        }
        append_field(out, &fs[i]);
        proof {
            assert(fs@.take(i as int).push(fs@[i as int]) =~= fs@.take(i as int + 1));
            lemma_fields_json_snoc(fs@.take(i as int), fs@[i as int]);
            assert(out@ =~= old(out)@ + fields_json(fs@.take(i as int + 1)));
        }
        i += 1;
    }
    proof {
        assert(fs@.take(fs@.len() as int) =~= fs@);
    }
}

/// Append the JSON form of one decoded event.
fn append_event(out: &mut String, e: &TransactionEvent)
    ensures
        final(out)@ == old(out)@ + event_json(*e),
{
    out.append("{\"pallet\":");
    append_json_string(out, e.pallet.as_str());
    out.append(",\"variant\":");
    append_json_string(out, e.variant.as_str());
    out.append(",\"data\":{");
    append_fields(out, &e.data);
    out.append("}}");
    proof {
        assert(out@ =~= old(out)@ + event_json(*e));
    }
}

/// Append the comma-separated array body of an event list.
fn append_events(out: &mut String, es: &Vec<TransactionEvent>)
    ensures
        final(out)@ == old(out)@ + events_json(es@),
{
    let mut i: usize = 0;
    while i < es.len()
        invariant
            i <= es@.len(),
            out@ == old(out)@ + events_json(es@.take(i as int)),
        decreases es@.len() - i,
    {
        if i > 0 {
            out.append(",");
        }
        append_event(out, &es[i]);
        proof {
            assert(es@.take(i as int).push(es@[i as int]) =~= es@.take(i as int + 1));
            lemma_events_json_snoc(es@.take(i as int), es@[i as int]);
            assert(out@ =~= old(out)@ + events_json(es@.take(i as int + 1)));
        }
        i += 1;
    }
    proof {
        assert(es@.take(es@.len() as int) =~= es@);
    }
}

/// Append the JSON form of an optional string.
fn append_opt_string(out: &mut String, o: &Option<String>)
    ensures
        final(out)@ == old(out)@ + opt_string_json(*o),
{
    match o {
        Option::None => {
            out.append("null");
        },
        Option::Some(s) => {
            append_json_string(out, s.as_str());
        },
    }
}

impl TransactionResult {
    /// This result as a JSON string: the five fields under their own names,
    /// in declaration order, with events as an array of objects.
    pub fn to_json(&self) -> (s: String)
        ensures
            s@ == result_json(*self),
    {
        let mut out = String::new();
        out.append("{\"hash\":");
        append_json_string(&mut out, self.hash.as_str());
        out.append(",\"block_hash\":");
        append_opt_string(&mut out, &self.block_hash);
        out.append(",\"status\":");
        match self.status {
            TransactionStatus::Pending => out.append("\"Pending\""),
            TransactionStatus::InBlock => out.append("\"InBlock\""),
            TransactionStatus::Finalized => out.append("\"Finalized\""),
            TransactionStatus::Failed => out.append("\"Failed\""),
        }
        out.append(",\"events\":[");
        append_events(&mut out, &self.events);
        out.append("],\"error\":");
        append_opt_string(&mut out, &self.error);
        out.append("}");
        proof {
            assert(out@ =~= result_json(*self));
        }
        out
    }
}

} // verus!
