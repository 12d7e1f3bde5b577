//! JSON values.

use vstd::prelude::*;

verus! {

// ---- Values ----

/// A JSON value of the `serde_json` crate.
#[verifier::external_type_specification]
#[verifier::external_body]
pub struct ExValue(serde_json::Value);

/// What a JSON value holds.
pub enum Json {
    Null,
    Bool(bool),
    /// An integer, or `None` for a number with a fraction or an exponent, or
    /// out of the range of 64 bits.
    Number(Option<int>),
    Text(Seq<char>),
    List(Seq<Json>),
    Object(Map<Seq<char>, Json>),
}

/// What a value holds.
pub uninterp spec fn json_of(value: serde_json::Value) -> Json;

/// The value that a text spells; `None` where it is no JSON.
pub uninterp spec fn parsed(text: Seq<char>) -> Option<Json>;

/// `serde_json::from_str::<serde_json::Value>`: the value that the text spells.
/// It depends on the text alone.
#[verifier::external_body]
pub(crate) fn parse(text: &str) -> (res: Option<serde_json::Value>)
    ensures
        match res {
            Some(value) => parsed(text@) == Some(json_of(value)),
            None => parsed(text@) is None,
        },
{
    match serde_json::from_str::<serde_json::Value>(text) {
        Ok(value) => Some(value),
        Err(_) => None,
    }
}

/// The member of an object under a key; none of another value.
pub open spec fn member(value: Json, key: Seq<char>) -> Option<Json> {
    match value {
        Json::Object(members) => if members.dom().contains(key) {
            Some(members[key])
        } else {
            None
        },
        _ => None,
    }
}

/// `serde_json::Value::get` with a key: the member of an object under that key,
/// `None` where there is none or the value is no object.
#[verifier::external_body]
pub(crate) fn get_member<'a>(value: &'a serde_json::Value, key: &str) -> (res: Option<
    &'a serde_json::Value,
>)
    ensures
        match res {
            Some(found) => member(json_of(*value), key@) == Some(json_of(*found)),
            None => member(json_of(*value), key@) is None,
        },
{
    value.get(key)
}

/// `serde_json::Value::as_array`: the elements of a list, `None` of another
/// value.
pub assume_specification[ serde_json::Value::as_array ](value: &serde_json::Value) -> (res: Option<
    &Vec<serde_json::Value>,
>)
    ensures
        match res {
            Some(list) => json_of(*value) == Json::List(values(list@)),
            None => !(json_of(*value) is List),
        },
;

/// What the values of a list hold.
pub open spec fn values(list: Seq<serde_json::Value>) -> Seq<Json> {
    list.map(|i: int, v: serde_json::Value| json_of(v))
}

/// `serde_json::Value::as_str`: the text of a string, `None` of another value.
pub assume_specification[ serde_json::Value::as_str ](value: &serde_json::Value) -> (res: Option<
    &str,
>)
    ensures
        match res {
            Some(text) => json_of(*value) == Json::Text(text@),
            None => !(json_of(*value) is Text),
        },
;

/// `serde_json::Value::as_bool`: a boolean, `None` of another value.
pub assume_specification[ serde_json::Value::as_bool ](value: &serde_json::Value) -> (res: Option<
    bool,
>)
    ensures
        match res {
            Some(b) => json_of(*value) == Json::Bool(b),
            None => !(json_of(*value) is Bool),
        },
;

/// The integer of a value, where it is one between `low` and `high`.
pub open spec fn integer(value: Json, low: int, high: int) -> Option<int> {
    match value {
        Json::Number(Some(n)) => if low <= n <= high {
            Some(n)
        } else {
            None
        },
        _ => None,
    }
}

/// `serde_json::Value::as_i64`: an integer that 64 bits with a sign hold, `None`
/// of another value.
pub assume_specification[ serde_json::Value::as_i64 ](value: &serde_json::Value) -> (res: Option<
    i64,
>)
    ensures
        match res {
            Some(n) => integer(json_of(*value), i64::MIN as int, i64::MAX as int) == Some(n as int),
            None => integer(json_of(*value), i64::MIN as int, i64::MAX as int) is None,
        },
;

/// `serde_json::Value::as_u64`: an integer that 64 bits without a sign hold,
/// `None` of another value.
pub assume_specification[ serde_json::Value::as_u64 ](value: &serde_json::Value) -> (res: Option<
    u64,
>)
    ensures
        match res {
            Some(n) => integer(json_of(*value), 0, u64::MAX as int) == Some(n as int),
            None => integer(json_of(*value), 0, u64::MAX as int) is None,
        },
;

/// `serde_json::Value::is_null`.
pub assume_specification[ serde_json::Value::is_null ](value: &serde_json::Value) -> (res: bool)
    ensures
        res == (json_of(*value) is Null),
;

/// `serde_json::Value::is_object`.
pub assume_specification[ serde_json::Value::is_object ](value: &serde_json::Value) -> (res: bool)
    ensures
        res == (json_of(*value) is Object),
;

/// `serde_json::Value::is_number`.
pub assume_specification[ serde_json::Value::is_number ](value: &serde_json::Value) -> (res: bool)
    ensures
        res == (json_of(*value) is Number),
;

// ---- Messages ----

/// What an optional text holds.
pub open spec fn opt_text(text: Option<String>) -> Option<Seq<char>> {
    match text {
        Some(text) => Some(text@),
        None => None,
    }
}

/// The text without byte order marks at its start.
pub open spec fn without_bom(text: Seq<char>) -> Seq<char> {
    text.skip(crate::text::scan(text, crate::text::not_char('\u{feff}'), 0))
}

/// Cut byte order marks, which some shells put before what they pipe, from the
/// start of a text.
pub fn strip_bom(input: &str) -> (res: String)
    ensures
        res@ == without_bom(input@),
{
    let chars: Vec<char> = crate::text::to_chars(input);
    let mut i: usize = 0;
    while i < chars.len() && chars[i] == '\u{feff}'
        invariant
            i <= chars@.len(),
            chars@ == input@,
            crate::text::scan(input@, crate::text::not_char('\u{feff}'), i as int)
                == crate::text::scan(input@, crate::text::not_char('\u{feff}'), 0),
        decreases chars@.len() - i,
    {
        i += 1;
    }
    assert(input@.skip(i as int) =~= input@.subrange(i as int, input@.len() as int));
    crate::text::slice_to_string(chars.as_slice(), i, chars.len())
}

/// The value that a text spells, byte order marks before it aside.
pub open spec fn message(text: Seq<char>) -> Option<Json> {
    parsed(without_bom(text))
}

pub fn read_message(text: &str) -> (res: Option<serde_json::Value>)
    ensures
        match res {
            Some(value) => message(text@) == Some(json_of(value)),
            None => message(text@) is None,
        },
{
    parse(strip_bom(text).as_str())
}

/// Byte order marks before a message change nothing, however many there are.
pub proof fn law_marks_before_a_message_are_ignored(text: Seq<char>)
    ensures
        without_bom(seq!['\u{feff}'] + text) == without_bom(text),
        without_bom(without_bom(text)) == without_bom(text),
{
    let p = crate::text::not_char('\u{feff}');
    let more = seq!['\u{feff}'] + text;
    lemma_scan_shifts(text, more, 0);
    let k = crate::text::scan(text, p, 0);
    assert(crate::text::scan(more, p, 0) == crate::text::scan(more, p, 1));
    crate::text::lemma_scan(text, p, 0);
    assert(more.skip(k + 1) =~= text.skip(k));
    let rest = text.skip(k);
    if rest.len() > 0 {
        assert(rest[0] == text[k]);
    }
    assert(crate::text::scan(rest, p, 0) == 0);
    assert(rest.skip(0) =~= rest);
}

proof fn lemma_scan_shifts(text: Seq<char>, more: Seq<char>, i: int)
    requires
        more == seq!['\u{feff}'] + text,
        0 <= i <= text.len(),
    ensures
        crate::text::scan(more, crate::text::not_char('\u{feff}'), i + 1) == crate::text::scan(
            text,
            crate::text::not_char('\u{feff}'),
            i,
        ) + 1,
    decreases text.len() - i,
{
    if i < text.len() {
        assert(more[i + 1] == text[i]);
        if text[i] == '\u{feff}' {
            lemma_scan_shifts(text, more, i + 1);
        }
    }
}

} // verus!
