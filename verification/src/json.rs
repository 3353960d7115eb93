//! A plain model of JSON documents.
//!
//! Server payloads are duck-typed JSON, held here as a tagged union. Numbers
//! are carried as `i64`: the pagination rules only ever read integer values,
//! and a non-integer number arriving in a response is carried as its decimal
//! text in a `Str`.
use crate::strutil::{i64_text, spec_digit, spec_int_text, str_eq};
use vstd::prelude::*;
use vstd::string::StrSliceExecFns;
use vstd::string::StringExecFns;

verus! {

/// One JSON document: null, boolean, integer, string, array or object.
/// An object keeps its members in order; a lookup takes the first member
/// with the asked-for key.
#[derive(Debug, PartialEq, Eq)]
pub enum JsonValue {
    Null,
    Bool(bool),
    Int(i64),
    Str(String),
    Arr(Vec<JsonValue>),
    Obj(Vec<(String, JsonValue)>),
}

/// The first value under `key` among `entries`, if any.
pub open spec fn spec_obj_get(entries: Seq<(String, JsonValue)>, key: Seq<char>) -> Option<
    JsonValue,
>
    decreases entries.len(),
{
    if entries.len() == 0 {
        None
    } else if entries[0].0@ == key {
        Some(entries[0].1)
    } else {
        spec_obj_get(entries.drop_first(), key)
    }
}

/// Looks a key up among object entries, first match wins.
pub fn obj_get<'a>(entries: &'a Vec<(String, JsonValue)>, key: &str) -> (r: Option<&'a JsonValue>)
    ensures
        match r {
            Some(v) => spec_obj_get(entries@, key@) == Some(*v),
            None => spec_obj_get(entries@, key@) is None,
        },
{
    match obj_find(entries, key) {
        Some(i) => Some(&entries[i].1),
        None => None,
    }
}

/// Index of the first entry under `key`, if any.
pub fn obj_find(entries: &Vec<(String, JsonValue)>, key: &str) -> (r: Option<usize>)
    ensures
        match r {
            Some(i) => i < entries@.len() && entries@[i as int].0@ == key@ && spec_obj_get(
                entries@,
                key@,
            ) == Some(entries@[i as int].1),
            None => spec_obj_get(entries@, key@) is None,
        },
{
    let n = entries.len();
    let mut i: usize = 0;
    proof {
        assert(entries@.skip(0) =~= entries@);
    }
    while i < n
        invariant
            i <= n,
            n == entries@.len(),
            spec_obj_get(entries@, key@) == spec_obj_get(entries@.skip(i as int), key@),
        decreases n - i,
    {
        proof {
            assert(entries@.skip(i as int)[0] == entries@[i as int]);
            assert(entries@.skip(i as int).drop_first() =~= entries@.skip(i as int + 1));
        }
        if str_eq(entries[i].0.as_str(), key) {
            return Some(i);
        }
        i += 1;
    }
    None
}

/// One hexadecimal digit as text, lower case.
pub open spec fn spec_hex_digit(d: int) -> Seq<char> {
    if d < 10 {
        spec_digit(d)
    } else if d == 10 {
        "a"@
    } else if d == 11 {
        "b"@
    } else if d == 12 {
        "c"@
    } else if d == 13 {
        "d"@
    } else if d == 14 {
        "e"@
    } else {
        "f"@
    }
}

/// How one character appears inside a JSON string literal: quote and
/// backslash are escaped, control characters use the short escapes or
/// `\u00..`, everything else stands as itself.
pub open spec fn spec_escape_char(c: char) -> Seq<char> {
    if c == '"' {
        "\\\""@
    } else if c == '\\' {
        "\\\\"@
    } else if c == '\u{0008}' {
        "\\b"@
    } else if c == '\u{000C}' {
        "\\f"@
    } else if c == '\n' {
        "\\n"@
    } else if c == '\r' {
        "\\r"@
    } else if c == '\t' {
        "\\t"@
    } else if (c as u32) < 32 {
        "\\u00"@ + spec_hex_digit((c as u32) as int / 16) + spec_hex_digit((c as u32) as int % 16)
    } else {
        seq![c]
    }
}

/// A whole character sequence escaped for a JSON string literal.
pub open spec fn spec_escape(s: Seq<char>) -> Seq<char>
    decreases s.len(),
{
    if s.len() == 0 {
        Seq::<char>::empty()
    } else {
        spec_escape(s.drop_last()) + spec_escape_char(s.last())
    }
}

/// A JSON string literal: the escaped characters between double quotes.
pub open spec fn spec_string_text(s: Seq<char>) -> Seq<char> {
    "\""@ + spec_escape(s) + "\""@
}

/// The canonical compact JSON text of a value.
pub open spec fn spec_json_text(v: JsonValue) -> Seq<char>
    decreases v,
{
    match v {
        JsonValue::Null => "null"@,
        JsonValue::Bool(b) => if b {
            "true"@
        } else {
            "false"@
        },
        JsonValue::Int(i) => spec_int_text(i as int),
        JsonValue::Str(s) => spec_string_text(s@),
        JsonValue::Arr(items) => "["@ + spec_items_text(items@) + "]"@,
        JsonValue::Obj(entries) => "{"@ + spec_entries_text(entries@) + "}"@,
    }
}

/// Array elements joined with commas.
pub open spec fn spec_items_text(items: Seq<JsonValue>) -> Seq<char>
    decreases items,
{
    if items.len() == 0 {
        Seq::<char>::empty()
    } else if items.len() == 1 {
        spec_json_text(items[0])
    } else {
        spec_items_text(items.drop_last()) + ","@ + spec_json_text(items.last())
    }
}

/// One object member: quoted key, colon, value.
pub open spec fn spec_entry_text(entry: (String, JsonValue)) -> Seq<char>
    decreases entry,
{
    spec_string_text(entry.0@) + ":"@ + spec_json_text(entry.1)
}

/// Object members joined with commas.
pub open spec fn spec_entries_text(entries: Seq<(String, JsonValue)>) -> Seq<char>
    decreases entries,
{
    if entries.len() == 0 {
        Seq::<char>::empty()
    } else if entries.len() == 1 {
        spec_entry_text(entries[0])
    } else {
        spec_entries_text(entries.drop_last()) + ","@ + spec_entry_text(entries.last())
    }
}

fn hex_digit_str(d: u64) -> (r: &'static str)
    requires
        d < 16,
    ensures
        r@ == spec_hex_digit(d as int),
{
    match d {
        0 => "0",
        1 => "1",
        2 => "2",
        3 => "3",
        4 => "4",
        5 => "5",
        6 => "6",
        7 => "7",
        8 => "8",
        9 => "9",
        10 => "a",
        11 => "b",
        12 => "c",
        13 => "d",
        14 => "e",
        _ => "f",
    }
}

/// Appends the escaped form of `s` to `out`.
fn escape_into(s: &str, out: &mut String)
    ensures
        final(out)@ == old(out)@ + spec_escape(s@),
{
    let n = s.unicode_len();
    let mut i: usize = 0;
    proof {
        assert(s@.take(0) =~= Seq::<char>::empty());
        assert(out@ + Seq::<char>::empty() =~= out@);
    }
    while i < n
        invariant
            i <= n,
            n == s@.len(),
            out@ == old(out)@ + spec_escape(s@.take(i as int)),
        decreases n - i,
    {
        let c = s.get_char(i);
        if c == '"' {
            out.append("\\\"");
        } else if c == '\\' {
            out.append("\\\\");
        } else if c == '\u{0008}' {
            out.append("\\b");
        } else if c == '\u{000C}' {
            out.append("\\f");
        } else if c == '\n' {
            out.append("\\n");
        } else if c == '\r' {
            out.append("\\r");
        } else if c == '\t' {
            out.append("\\t");
        } else if (c as u32) < 32 {
            out.append("\\u00");
            out.append(hex_digit_str(((c as u32) / 16) as u64));
            out.append(hex_digit_str(((c as u32) % 16) as u64));
        } else {
            let piece = s.substring_char(i, i + 1);
            out.append(piece);
            proof {
                assert(s@.subrange(i as int, i as int + 1) =~= seq![s@[i as int]]);
            }
        }
        proof {
            assert(s@.take(i as int + 1).drop_last() =~= s@.take(i as int));
            assert(s@.take(i as int + 1).last() == s@[i as int]);
        }
        i += 1;
    }
    proof {
        assert(s@.take(n as int) =~= s@);
    }
}

/// A JSON string literal holding `s`.
pub fn quoted(s: &str) -> (r: String)
    ensures
        r@ == spec_string_text(s@),
{
    let mut out = String::from_str("\"");
    escape_into(s, &mut out);
    out.append("\"");
    out
}

/// Renders a value as compact JSON text.
pub fn to_json_text(v: &JsonValue) -> (r: String)
    ensures
        r@ == spec_json_text(*v),
    decreases *v,
{
    match v {
        JsonValue::Null => String::from_str("null"),
        JsonValue::Bool(b) => if *b {
            String::from_str("true")
        } else {
            String::from_str("false")
        },
        JsonValue::Int(i) => i64_text(*i),
        JsonValue::Str(s) => quoted(s.as_str()),
        JsonValue::Arr(items) => {
            let mut out = String::from_str("[");
            let mut i: usize = 0;
            proof {
                assert(items@.take(0) =~= Seq::<JsonValue>::empty());
                assert(out@ + Seq::<char>::empty() =~= out@);
            }
            while i < items.len()
                invariant
                    i <= items@.len(),
                    out@ == "["@ + spec_items_text(items@.take(i as int)),
                    *v == JsonValue::Arr(*items),
                decreases items@.len() - i,
            {
                if i > 0 {
                    out.append(",");
                }
                proof {
                    let ghost vv = *v;
                    assert(decreases_to!(vv => vv->Arr_0));
                    assert(decreases_to!(vv->Arr_0 => vv->Arr_0@));
                    assert(decreases_to!(vv->Arr_0@ => vv->Arr_0@[i as int]));
                    assert(decreases_to!(vv => vv->Arr_0@[i as int]));
                    assert(vv->Arr_0@[i as int] == items@[i as int]);
                }
                let piece = to_json_text(&items[i]);
                out.append(piece.as_str());
                proof {
                    assert(items@.take(i as int + 1).drop_last() =~= items@.take(i as int));
                    assert(items@.take(i as int + 1).last() == items@[i as int]);
                    if i == 0 {
                        assert(items@.take(1)[0] == items@[0]);
                    }
                    assert(out@ =~= "["@ + spec_items_text(items@.take(i as int + 1)));
                }
                i += 1;
            }
            out.append("]");
            proof {
                assert(items@.take(items@.len() as int) =~= items@);
            }
            out
        },
        JsonValue::Obj(entries) => {
            let mut out = String::from_str("{");
            let mut i: usize = 0;
            proof {
                assert(entries@.take(0) =~= Seq::<(String, JsonValue)>::empty());
                assert(out@ + Seq::<char>::empty() =~= out@);
            }
            while i < entries.len()
                invariant
                    i <= entries@.len(),
                    out@ == "{"@ + spec_entries_text(entries@.take(i as int)),
                    *v == JsonValue::Obj(*entries),
                decreases entries@.len() - i,
            {
                if i > 0 {
                    out.append(",");
                }
                let key_text = quoted(entries[i].0.as_str());
                out.append(key_text.as_str());
                out.append(":");
                proof {
                    let ghost vv = *v;
                    assert(decreases_to!(vv => vv->Obj_0));
                    assert(decreases_to!(vv->Obj_0 => vv->Obj_0@));
                    assert(decreases_to!(vv->Obj_0@ => vv->Obj_0@[i as int]));
                    assert(decreases_to!(vv->Obj_0@[i as int] => vv->Obj_0@[i as int].1));
                    assert(decreases_to!(vv => vv->Obj_0@[i as int].1));
                    assert(vv->Obj_0@[i as int].1 == entries@[i as int].1);
                }
                let piece = to_json_text(&entries[i].1);
                out.append(piece.as_str());
                proof {
                    let ghost k_seq = entries@[i as int].0@;
                    let ghost val_txt = spec_json_text(entries@[i as int].1);
                    assert(key_text@ == spec_string_text(k_seq));
                    assert(piece@ == val_txt);
                    assert(spec_entry_text(entries@[i as int]) == spec_string_text(k_seq) + ":"@
                        + val_txt);
                    assert(entries@.take(i as int + 1).drop_last() =~= entries@.take(i as int));
                    assert(entries@.take(i as int + 1).last() == entries@[i as int]);
                    if i == 0 {
                        assert(entries@.take(1)[0] == entries@[0]);
                        assert(spec_entries_text(entries@.take(1)) == spec_entry_text(
                            entries@[0],
                        ));
                    } else {
                        assert(spec_entries_text(entries@.take(i as int + 1))
                            == spec_entries_text(entries@.take(i as int)) + ","@ + spec_entry_text(
                            entries@[i as int],
                        ));
                    }
                    assert(out@ =~= "{"@ + spec_entries_text(entries@.take(i as int + 1)));
                }
                i += 1;
            }
            out.append("}");
            proof {
                assert(entries@.take(entries@.len() as int) =~= entries@);
            }
            out
        },
    }
}

} // verus!
