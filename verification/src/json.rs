//! JSON text: string literals as serde_json writes them, and the framing of objects and
//! arrays as serde_json's compact writer lays them out.
use vstd::prelude::*;
use vstd::string::*;
use crate::text::{decimal, decimal_string, joined, push_joined};

verus! {

pub open spec fn hex_digit(n: nat) -> char {
    seq!['0', '1', '2', '3', '4', '5', '6', '7', '8', '9', 'a', 'b', 'c', 'd', 'e', 'f'][n as int]
}

/// How one character is written inside a JSON string literal.
pub open spec fn json_escape_char(c: char) -> Seq<char> {
    let u = c as u32;
    if c == '"' {
        seq!['\\', '"']
    } else if c == '\\' {
        seq!['\\', '\\']
    } else if u == 0x08 {
        seq!['\\', 'b']
    } else if u == 0x0c {
        seq!['\\', 'f']
    } else if u == 0x0a {
        seq!['\\', 'n']
    } else if u == 0x0d {
        seq!['\\', 'r']
    } else if u == 0x09 {
        seq!['\\', 't']
    } else if u < 0x20 {
        seq!['\\', 'u', '0', '0', hex_digit((u / 16) as nat), hex_digit((u % 16) as nat)]
    } else {
        seq![c]
    }
}

pub open spec fn json_escaped(s: Seq<char>) -> Seq<char>
    decreases s.len(),
{
    if s.len() == 0 {
        Seq::empty()
    } else {
        json_escaped(s.drop_last()) + json_escape_char(s.last())
    }
}

/// The JSON string literal of `s`.
pub open spec fn json_string(s: Seq<char>) -> Seq<char> {
    seq!['"'] + json_escaped(s) + seq!['"']
}

/// `serde_json::to_string` on a string slice.
///
/// Claimed: the result is the literal `"` + escaped text + `"`, escaping `"` and `\` with a
/// backslash, the control characters U+0008, U+0009, U+000A, U+000C, U+000D as `\b \t \n \f \r`,
/// every other character below U+0020 as `\u00` and two lower-case hex digits, and leaving all
/// other characters as they are. Serialising a `str` into a `Vec` never fails.
#[verifier::external_body]
pub(crate) fn json_string_text(s: &str) -> (res: String)
    ensures
        res@ == json_string(s@),
{
    serde_json::to_string(s).unwrap_or_default()
}

/// Items separated by commas.
pub open spec fn json_list(items: Seq<Seq<char>>) -> Seq<char> {
    joined(items, seq![','])
}

pub open spec fn json_object(members: Seq<Seq<char>>) -> Seq<char> {
    seq!['{'] + json_list(members) + seq!['}']
}

pub open spec fn json_array(items: Seq<Seq<char>>) -> Seq<char> {
    seq!['['] + json_list(items) + seq![']']
}

/// A `"key":value` member of an object.
pub open spec fn json_member(key: Seq<char>, value: Seq<char>) -> Seq<char> {
    json_string(key) + seq![':'] + value
}

pub open spec fn json_null() -> Seq<char> {
    seq!['n', 'u', 'l', 'l']
}

pub open spec fn json_opt_string(o: Option<Seq<char>>) -> Seq<char> {
    match o {
        Some(s) => json_string(s),
        None => json_null(),
    }
}

pub open spec fn json_opt_int(o: Option<i64>) -> Seq<char> {
    match o {
        Some(n) => decimal(n as int),
        None => json_null(),
    }
}

/// Text that is already JSON, or `null`.
pub open spec fn json_opt_raw(o: Option<Seq<char>>) -> Seq<char> {
    match o {
        Some(s) => s,
        None => json_null(),
    }
}

fn push_list(out: &mut String, items: &Vec<String>)
    ensures
        final(out)@ == old(out)@ + json_list(items.deep_view()),
{
    proof {
        reveal_strlit(",");
    }
    assert(","@ =~= seq![',']);
    push_joined(out, items, ",");
}

/// The JSON object made of the given members, in order.
pub fn json_object_text(members: &Vec<String>) -> (res: String)
    ensures
        res@ == json_object(members.deep_view()),
{
    let mut out = "{".to_owned();
    push_list(&mut out, members);
    out.append("}");
    proof {
        reveal_strlit("{");
        reveal_strlit("}");
    }
    assert(out@ =~= json_object(members.deep_view()));
    out
}

/// The JSON array made of the given items, in order.
pub fn json_array_text(items: &Vec<String>) -> (res: String)
    ensures
        res@ == json_array(items.deep_view()),
{
    let mut out = "[".to_owned();
    push_list(&mut out, items);
    out.append("]");
    proof {
        reveal_strlit("[");
        reveal_strlit("]");
    }
    assert(out@ =~= json_array(items.deep_view()));
    out
}

/// The member `"key":value`, `value` being JSON text.
pub fn json_member_text(key: &str, value: String) -> (res: String)
    ensures
        res@ == json_member(key@, value@),
{
    let mut out = json_string_text(key);
    out.append(":");
    out.append(value.as_str());
    proof {
        reveal_strlit(":");
    }
    assert(out@ =~= json_member(key@, value@));
    out
}

pub fn json_null_text() -> (res: String)
    ensures
        res@ == json_null(),
{
    proof {
        reveal_strlit("null");
    }
    let s = "null".to_owned();
    assert(s@ =~= json_null());
    s
}

pub fn json_opt_string_text(o: &Option<String>) -> (res: String)
    ensures
        res@ == json_opt_string(o.deep_view()),
{
    match o {
        Some(s) => json_string_text(s.as_str()),
        None => json_null_text(),
    }
}

pub fn json_opt_int_text(o: Option<i64>) -> (res: String)
    ensures
        res@ == json_opt_int(o),
{
    match o {
        Some(n) => decimal_string(n),
        None => json_null_text(),
    }
}

pub fn json_opt_raw_text(o: &Option<String>) -> (res: String)
    ensures
        res@ == json_opt_raw(o.deep_view()),
{
    match o {
        Some(s) => s.clone(),
        None => json_null_text(),
    }
}

/// `{"<key>":id}`, the answer to inserting a row.
pub open spec fn id_json(key: Seq<char>, id: i64) -> Seq<char> {
    json_object(seq![json_member(key, decimal(id as int))])
}

pub fn render_id_json(key: &str, id: i64) -> (res: String)
    ensures
        res@ == id_json(key@, id),
{
    let mut m: Vec<String> = Vec::new();
    m.push(json_member_text(key, decimal_string(id)));
    assert(m.deep_view() =~= seq![json_member(key@, decimal(id as int))]);
    json_object_text(&m)
}

pub open spec fn json_opt_i32(o: Option<i32>) -> Seq<char> {
    match o {
        Some(n) => decimal(n as int),
        None => json_null(),
    }
}

pub fn json_opt_i32_text(o: Option<i32>) -> (res: String)
    ensures
        res@ == json_opt_i32(o),
{
    match o {
        Some(n) => decimal_string(n as i64),
        None => json_null_text(),
    }
}

} // verus!
