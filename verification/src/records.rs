//! Messages of the multiplexer: JSON whose objects are read field by field.
//!
//! A field that a message does not have is passed over whatever it holds. One
//! that it has must be of its kind and may be given once only.

use crate::json::{opt_text, parse, parsed, strip_bom, without_bom, Json};
use crate::text::{scan, slice_to_string, str_eq, to_chars};
use vstd::prelude::*;

verus! {

// ---- Values in a text ----

/// The characters that the value at the start of a text takes, blanks before it
/// included; `None` where the text does not start with one.
pub uninterp spec fn value_len(text: Seq<char>) -> Option<nat>;

/// The string at the start of a text, and the characters that it takes, blanks
/// before it included; `None` where the text does not start with one.
pub uninterp spec fn leading_text(text: Seq<char>) -> Option<(Seq<char>, nat)>;

/// `serde_json::StreamDeserializer`, asked for one `serde::de::IgnoredAny`: the
/// value at the start of the text, cut off from what follows. Whether there is one
/// and where it ends depend on the text alone, and it is never empty. It is passed
/// over as the crate passes over a field that is not asked for: numbers may be of
/// any size, and values nested to any depth.
#[verifier::external_body]
fn skip_value(text: &str) -> (res: Option<(String, String)>)
    ensures
        match res {
            Some((value, rest)) => {
                &&& value_len(text@) == Some(value@.len())
                &&& value@ + rest@ == text@
                &&& value@.len() > 0
            },
            None => value_len(text@) is None,
        },
{
    let mut values =
        serde_json::Deserializer::from_str(text).into_iter::<serde::de::IgnoredAny>();
    match values.next() {
        Some(Ok(_)) => {
            let (value, rest) = text.split_at(values.byte_offset());
            Some((value.to_string(), rest.to_string()))
        },
        _ => None,
    }
}

/// `serde_json::StreamDeserializer`, asked for one `String`: the string at the
/// start of the text, decoded, and what follows it. Whether there is one, and
/// both of these, depend on the text alone, and something is always taken.
#[verifier::external_body]
fn take_text(text: &str) -> (res: Option<(String, String)>)
    ensures
        match res {
            Some((found, rest)) => {
                &&& rest@.len() < text@.len()
                &&& leading_text(text@) == Some((found@, (text@.len() - rest@.len()) as nat))
                &&& rest@ == text@.skip(text@.len() - rest@.len())
            },
            None => leading_text(text@) is None,
        },
{
    let mut texts = serde_json::Deserializer::from_str(text).into_iter::<String>();
    match texts.next() {
        Some(Ok(found)) => Some((found, text[texts.byte_offset()..].to_string())),
        _ => None,
    }
}

/// The blanks that may stand between the parts of a value.
pub open spec fn is_blank(c: char) -> bool {
    c == ' ' || c == '\n' || c == '\t' || c == '\r'
}

pub open spec fn not_blank() -> spec_fn(char) -> bool {
    |c: char| !is_blank(c)
}

/// The first character of a text that is no blank, and what follows it.
pub open spec fn sign(text: Seq<char>) -> Option<(char, Seq<char>)> {
    let at = scan(text, not_blank(), 0);
    if 0 <= at < text.len() {
        Some((text[at], text.skip(at + 1)))
    } else {
        None
    }
}

fn take_sign(text: &str) -> (res: Option<(char, String)>)
    ensures
        match res {
            Some((c, rest)) => sign(text@) == Some((c, rest@)) && rest@.len() < text@.len(),
            None => sign(text@) is None,
        },
{
    let chars: Vec<char> = to_chars(text);
    let mut i: usize = 0;
    while i < chars.len() && (chars[i] == ' ' || chars[i] == '\n' || chars[i] == '\t' || chars[i]
        == '\r')
        invariant
            i <= chars@.len(),
            chars@ == text@,
            scan(text@, not_blank(), i as int) == scan(text@, not_blank(), 0),
        decreases chars@.len() - i,
    {
        i += 1;
    }
    if i == chars.len() {
        return None;
    }
    assert(text@.skip(i + 1) =~= text@.subrange(i + 1, text@.len() as int));
    Some((chars[i], slice_to_string(chars.as_slice(), i + 1, chars.len())))
}

/// The members of an object from a key on: each with its name and the text of its
/// value, up to the end of the object.
pub open spec fn members_from(text: Seq<char>) -> Option<Seq<(Seq<char>, Seq<char>)>>
    decreases text.len(),
{
    match leading_text(text) {
        Some((name, taken)) => match sign(text.skip(taken as int)) {
            Some((':', after)) => match value_len(after) {
                Some(len) => {
                    let one = seq![(name, after.take(len as int))];
                    match sign(after.skip(len as int)) {
                        Some(('}', _)) => Some(one),
                        Some((',', next)) => if next.len() < text.len() {
                            match members_from(next) {
                                Some(more) => Some(one + more),
                                None => None,
                            }
                        } else {
                            None
                        },
                        _ => None,
                    }
                },
                None => None,
            },
            _ => None,
        },
        None => None,
    }
}

/// The members of an object, in their order; `None` where a text is none.
pub open spec fn members_of(text: Seq<char>) -> Option<Seq<(Seq<char>, Seq<char>)>> {
    match sign(text) {
        Some(('{', inside)) => match sign(inside) {
            Some(('}', _)) => Some(Seq::empty()),
            _ => members_from(inside),
        },
        _ => None,
    }
}

/// The texts of the elements of a list from one on, up to its end.
pub open spec fn items_from(text: Seq<char>) -> Option<Seq<Seq<char>>>
    decreases text.len(),
{
    match value_len(text) {
        Some(len) => {
            let one = seq![text.take(len as int)];
            match sign(text.skip(len as int)) {
                Some((']', _)) => Some(one),
                Some((',', next)) => if next.len() < text.len() {
                    match items_from(next) {
                        Some(more) => Some(one + more),
                        None => None,
                    }
                } else {
                    None
                },
                _ => None,
            }
        },
        None => None,
    }
}

/// The texts of the elements of a list; `None` where a text is none.
pub open spec fn items_of(text: Seq<char>) -> Option<Seq<Seq<char>>> {
    match sign(text) {
        Some(('[', inside)) => match sign(inside) {
            Some((']', _)) => Some(Seq::empty()),
            _ => items_from(inside),
        },
        _ => None,
    }
}

/// What texts hold.
pub open spec fn texts(list: Seq<String>) -> Seq<Seq<char>> {
    list.map(|i: int, s: String| s@)
}

/// What named texts hold.
pub open spec fn named_texts(list: Seq<(String, String)>) -> Seq<(Seq<char>, Seq<char>)> {
    list.map(|i: int, m: (String, String)| (m.0@, m.1@))
}

fn read_members(text: &str) -> (res: Option<Vec<(String, String)>>)
    ensures
        match res {
            Some(members) => members_of(text@) == Some(named_texts(members@)),
            None => members_of(text@) is None,
        },
{
    let inside: String = match take_sign(text) {
        Some((c, inside)) => if c == '{' {
            inside
        } else {
            return None;
        },
        None => {
            return None;
        },
    };
    let mut out: Vec<(String, String)> = Vec::new();
    assert(named_texts(out@) =~= Seq::empty());
    if let Some((c, _)) = take_sign(inside.as_str()) {
        if c == '}' {
            return Some(out);
        }
    }
    let mut at: String = inside;
    let ghost whole: Option<Seq<(Seq<char>, Seq<char>)>> = members_from(inside@);
    assert(members_of(text@) == whole);
    assert(whole matches Some(all) ==> all =~= named_texts(out@) + all);
    loop
        invariant
            members_of(text@) == whole,
            match members_from(at@) {
                Some(more) => whole == Some(named_texts(out@) + more),
                None => whole is None,
            },
        decreases at@.len(),
    {
        let ghost here: Seq<char> = at@;
        let (name, after_name): (String, String) = match take_text(at.as_str()) {
            Some(found) => found,
            None => {
                return None;
            },
        };
        let value_text: String = match take_sign(after_name.as_str()) {
            Some((c, rest)) => if c == ':' {
                rest
            } else {
                return None;
            },
            None => {
                return None;
            },
        };
        let (value, after_value): (String, String) = match skip_value(value_text.as_str()) {
            Some(found) => found,
            None => {
                return None;
            },
        };
        assert(value_text@.take(value@.len() as int) =~= value@);
        assert(value_text@.skip(value@.len() as int) =~= after_value@);
        let ghost before: Seq<(Seq<char>, Seq<char>)> = named_texts(out@);
        let ghost one: Seq<(Seq<char>, Seq<char>)> = seq![(name@, value@)];
        out.push((name, value));
        assert(named_texts(out@) =~= before + one);
        match take_sign(after_value.as_str()) {
            Some((c, next)) => {
                if c == '}' {
                    assert(members_from(here) == Some(one));
                    return Some(out);
                }
                if c != ',' {
                    return None;
                }
                proof {
                    if let Some(more) = members_from(next@) {
                        assert(before + (one + more) =~= (before + one) + more);
                    }
                }
                at = next;
            },
            None => {
                return None;
            },
        }
    }
}

fn read_items(text: &str) -> (res: Option<Vec<String>>)
    ensures
        match res {
            Some(items) => items_of(text@) == Some(texts(items@)),
            None => items_of(text@) is None,
        },
{
    let inside: String = match take_sign(text) {
        Some((c, inside)) => if c == '[' {
            inside
        } else {
            return None;
        },
        None => {
            return None;
        },
    };
    let mut out: Vec<String> = Vec::new();
    assert(texts(out@) =~= Seq::empty());
    if let Some((c, _)) = take_sign(inside.as_str()) {
        if c == ']' {
            return Some(out);
        }
    }
    let mut at: String = inside;
    let ghost whole: Option<Seq<Seq<char>>> = items_from(inside@);
    assert(items_of(text@) == whole);
    assert(whole matches Some(all) ==> all =~= texts(out@) + all);
    loop
        invariant
            items_of(text@) == whole,
            match items_from(at@) {
                Some(more) => whole == Some(texts(out@) + more),
                None => whole is None,
            },
        decreases at@.len(),
    {
        let ghost here: Seq<char> = at@;
        let (value, after_value): (String, String) = match skip_value(at.as_str()) {
            Some(found) => found,
            None => {
                return None;
            },
        };
        assert(here.take(value@.len() as int) =~= value@);
        assert(here.skip(value@.len() as int) =~= after_value@);
        let ghost before: Seq<Seq<char>> = texts(out@);
        let ghost one: Seq<Seq<char>> = seq![value@];
        out.push(value);
        assert(texts(out@) =~= before + one);
        match take_sign(after_value.as_str()) {
            Some((c, next)) => {
                if c == ']' {
                    assert(items_from(here) == Some(one));
                    return Some(out);
                }
                if c != ',' {
                    return None;
                }
                proof {
                    if let Some(more) = items_from(next@) {
                        assert(before + (one + more) =~= (before + one) + more);
                    }
                }
                at = next;
            },
            None => {
                return None;
            },
        }
    }
}

// ---- Records ----

/// The fields of a message as they are given: by name, or in a list in their
/// order.
pub enum Fields {
    Named(Seq<(Seq<char>, Seq<char>)>),
    Listed(Seq<Seq<char>>),
}

/// The fields of a value that is a message of `n` fields; `None` where it is none.
pub open spec fn fields_of(value: Seq<char>, n: int) -> Option<Fields> {
    match members_of(value) {
        Some(members) => Some(Fields::Named(members)),
        None => match items_of(value) {
            Some(list) => if list.len() <= n {
                Some(Fields::Listed(list))
            } else {
                None
            },
            None => None,
        },
    }
}

#[derive(Debug)]
pub enum Record {
    Named(Vec<(String, String)>),
    Listed(Vec<String>),
}

impl View for Record {
    type V = Fields;

    open spec fn view(&self) -> Fields {
        match *self {
            Record::Named(members) => Fields::Named(named_texts(members@)),
            Record::Listed(list) => Fields::Listed(texts(list@)),
        }
    }
}

pub fn read_record(value: &str, n: usize) -> (res: Option<Record>)
    ensures
        match res {
            Some(record) => fields_of(value@, n as int) == Some(record@),
            None => fields_of(value@, n as int) is None,
        },
{
    match read_members(value) {
        Some(members) => Some(Record::Named(members)),
        None => match read_items(value) {
            Some(list) => if list.len() <= n {
                Some(Record::Listed(list))
            } else {
                None
            },
            None => None,
        },
    }
}

/// Whether a field is given.
pub enum Given {
    Not,
    /// The text of its value.
    Once(Seq<char>),
    /// More than once, which spoils the message.
    Again,
}

/// The first member from the `i`th on that is called `name`, or how many there are.
pub open spec fn named_at(
    members: Seq<(Seq<char>, Seq<char>)>,
    name: Seq<char>,
    i: int,
) -> int
    decreases members.len() - i,
{
    if 0 <= i < members.len() && members[i].0 != name {
        named_at(members, name, i + 1)
    } else {
        i
    }
}

/// The `i`th field of a message, which is called `name`.
pub open spec fn given(fields: Fields, i: int, name: Seq<char>) -> Given {
    match fields {
        Fields::Listed(list) => if 0 <= i < list.len() {
            Given::Once(list[i])
        } else {
            Given::Not
        },
        Fields::Named(members) => {
            let first = named_at(members, name, 0);
            if first >= members.len() {
                Given::Not
            } else if named_at(members, name, first + 1) < members.len() {
                Given::Again
            } else {
                Given::Once(members[first].1)
            }
        },
    }
}

/// A field of a message.
#[derive(Debug)]
pub enum Field {
    Not,
    Once(String),
    Again,
}

impl View for Field {
    type V = Given;

    open spec fn view(&self) -> Given {
        match *self {
            Field::Not => Given::Not,
            Field::Once(value) => Given::Once(value@),
            Field::Again => Given::Again,
        }
    }
}

fn find_named(members: &Vec<(String, String)>, name: &str, from: usize) -> (res: usize)
    requires
        from <= members@.len(),
    ensures
        res == named_at(named_texts(members@), name@, from as int),
        from <= res <= members@.len(),
{
    let ghost all: Seq<(Seq<char>, Seq<char>)> = named_texts(members@);
    let mut i: usize = from;
    while i < members.len() && !str_eq(members[i].0.as_str(), name)
        invariant
            from <= i <= members@.len(),
            all == named_texts(members@),
            named_at(all, name@, i as int) == named_at(all, name@, from as int),
        decreases members@.len() - i,
    {
        assert(all[i as int] == (members@[i as int].0@, members@[i as int].1@));
        i += 1;
    }
    if i < members.len() {
        assert(all[i as int] == (members@[i as int].0@, members@[i as int].1@));
    }
    i
}

pub fn get_field(record: &Record, i: usize, name: &str) -> (res: Field)
    ensures
        res@ == given(record@, i as int, name@),
{
    match record {
        Record::Listed(list) => if i < list.len() {
            assert(texts(list@)[i as int] == list@[i as int]@);
            Field::Once(list[i].clone())
        } else {
            Field::Not
        },
        Record::Named(members) => {
            let first: usize = find_named(members, name, 0);
            if first == members.len() {
                Field::Not
            } else if find_named(members, name, first + 1) < members.len() {
                Field::Again
            } else {
                assert(named_texts(members@)[first as int] == (
                    members@[first as int].0@,
                    members@[first as int].1@,
                ));
                Field::Once(members[first].1.clone())
            }
        },
    }
}

/// A field that has to be given: the text of its value.
pub open spec fn required(fields: Fields, i: int, name: Seq<char>) -> Option<Seq<char>> {
    match given(fields, i, name) {
        Given::Once(value) => Some(value),
        _ => None,
    }
}

pub fn get_required(record: &Record, i: usize, name: &str) -> (res: Option<String>)
    ensures
        opt_text(res) == required(record@, i as int, name@),
{
    match get_field(record, i, name) {
        Field::Once(value) => Some(value),
        _ => None,
    }
}

/// A field that may be null, and among named ones left out: the text of its
/// value. `None` where it spoils the message.
pub open spec fn optional(fields: Fields, i: int, name: Seq<char>) -> Option<Option<Seq<char>>> {
    match given(fields, i, name) {
        Given::Once(value) => if parsed(value) == Some(Json::Null) {
            Some(None)
        } else {
            Some(Some(value))
        },
        Given::Not => if fields is Listed {
            None
        } else {
            Some(None)
        },
        Given::Again => None,
    }
}

pub fn get_optional(record: &Record, i: usize, name: &str) -> (res: Option<Option<String>>)
    ensures
        match res {
            Some(value) => optional(record@, i as int, name@) == Some(opt_text(value)),
            None => optional(record@, i as int, name@) is None,
        },
{
    match get_field(record, i, name) {
        Field::Once(value) => {
            let null: bool = match parse(value.as_str()) {
                Some(read) => read.is_null(),
                None => false,
            };
            if null {
                Some(None)
            } else {
                Some(Some(value))
            }
        },
        Field::Not => match record {
            Record::Listed(_) => None,
            Record::Named(_) => Some(None),
        },
        Field::Again => None,
    }
}

/// A field of text that may be null, and among named ones left out. `None` where
/// it spoils the message.
pub open spec fn text_field(fields: Fields, i: int, name: Seq<char>) -> Option<Option<Seq<char>>> {
    match optional(fields, i, name) {
        Some(Some(value)) => match parsed(value) {
            Some(Json::Text(text)) => Some(Some(text)),
            _ => None,
        },
        Some(None) => Some(None),
        None => None,
    }
}

pub fn get_text(record: &Record, i: usize, name: &str) -> (res: Option<Option<String>>)
    ensures
        match res {
            Some(text) => text_field(record@, i as int, name@) == Some(opt_text(text)),
            None => text_field(record@, i as int, name@) is None,
        },
{
    match get_optional(record, i, name) {
        Some(Some(value)) => match parse(value.as_str()) {
            Some(read) => match read.as_str() {
                Some(text) => Some(Some(text.to_owned())),
                None => None,
            },
            None => None,
        },
        Some(None) => Some(None),
        None => None,
    }
}

/// A boolean that may be left out, and is then false. `None` where the field
/// spoils the message.
pub open spec fn flag_field(fields: Fields, i: int, name: Seq<char>) -> Option<bool> {
    match given(fields, i, name) {
        Given::Once(value) => match parsed(value) {
            Some(Json::Bool(b)) => Some(b),
            _ => None,
        },
        Given::Not => Some(false),
        Given::Again => None,
    }
}

pub fn get_flag(record: &Record, i: usize, name: &str) -> (res: Option<bool>)
    ensures
        res == flag_field(record@, i as int, name@),
{
    match get_field(record, i, name) {
        Field::Once(value) => match parse(value.as_str()) {
            Some(read) => read.as_bool(),
            None => None,
        },
        Field::Not => Some(false),
        Field::Again => None,
    }
}

/// A list that may be left out, and is then empty: the texts of its elements.
/// `None` where the field spoils the message.
pub open spec fn list_field(fields: Fields, i: int, name: Seq<char>) -> Option<Seq<Seq<char>>> {
    match given(fields, i, name) {
        Given::Once(value) => items_of(value),
        Given::Not => Some(Seq::empty()),
        Given::Again => None,
    }
}

pub fn get_list(record: &Record, i: usize, name: &str) -> (res: Option<Vec<String>>)
    ensures
        match res {
            Some(list) => list_field(record@, i as int, name@) == Some(texts(list@)),
            None => list_field(record@, i as int, name@) is None,
        },
{
    match get_field(record, i, name) {
        Field::Once(value) => read_items(value.as_str()),
        Field::Not => {
            let none: Vec<String> = Vec::new();
            assert(texts(none@) =~= Seq::empty());
            Some(none)
        },
        Field::Again => None,
    }
}

// ---- Values within a message ----

/// A value within `levels` lists of one element.
pub open spec fn wrapped(value: Seq<char>, levels: nat) -> Seq<char>
    decreases levels,
{
    if levels == 0 {
        value
    } else {
        seq!['['] + wrapped(value, (levels - 1) as nat) + seq![']']
    }
}

/// The value within `levels` lists of one element.
pub open spec fn unwrapped(value: Json, levels: nat) -> Option<Json>
    decreases levels,
{
    if levels == 0 {
        Some(value)
    } else {
        match value {
            Json::List(list) => if list.len() == 1 {
                unwrapped(list[0], (levels - 1) as nat)
            } else {
                None
            },
            _ => None,
        }
    }
}

/// The value that a text spells, at `levels` levels below the outermost. How deep
/// values may be nested is counted from the outermost.
pub open spec fn value_within(text: Seq<char>, levels: nat) -> Option<Json> {
    match parsed(wrapped(text, levels)) {
        Some(outer) => unwrapped(outer, levels),
        None => None,
    }
}

/// Put a value within `levels` lists of one element.
pub fn wrap(value: &str, levels: usize) -> (res: String)
    ensures
        res@ == wrapped(value@, levels as nat),
{
    let mut out: String = value.to_owned();
    let mut i: usize = 0;
    while i < levels
        invariant
            i <= levels,
            out@ == wrapped(value@, i as nat),
        decreases levels - i,
    {
        let mut outer: String = String::new();
        outer.push('[');
        outer.append(out.as_str());
        outer.push(']');
        assert(outer@ =~= seq!['['] + out@ + seq![']']);
        out = outer;
        i += 1;
    }
    out
}

/// Take a value out of `levels` lists of one element.
pub fn unwrap_value(value: &serde_json::Value, levels: usize) -> (res: Option<&serde_json::Value>)
    ensures
        match res {
            Some(inner) => unwrapped(crate::json::json_of(*value), levels as nat) == Some(
                crate::json::json_of(*inner),
            ),
            None => unwrapped(crate::json::json_of(*value), levels as nat) is None,
        },
    decreases levels,
{
    if levels == 0 {
        return Some(value);
    }
    match value.as_array() {
        Some(list) => if list.len() == 1 {
            assert(crate::json::values(list@)[0] == crate::json::json_of(list@[0]));
            unwrap_value(&list[0], levels - 1)
        } else {
            None
        },
        None => None,
    }
}

// ---- Whole messages ----

/// The value that a text is made of, byte order marks before it and blanks around
/// it aside.
pub open spec fn message_value(text: Seq<char>) -> Option<Seq<char>> {
    let bare = without_bom(text);
    match value_len(bare) {
        Some(len) => if sign(bare.skip(len as int)) is None {
            Some(bare.take(len as int))
        } else {
            None
        },
        None => None,
    }
}

pub fn read_value(text: &str) -> (res: Option<String>)
    ensures
        opt_text(res) == message_value(text@),
{
    let bare: String = strip_bom(text);
    match skip_value(bare.as_str()) {
        Some((value, rest)) => {
            assert(bare@.take(value@.len() as int) =~= value@);
            assert(bare@.skip(value@.len() as int) =~= rest@);
            match take_sign(rest.as_str()) {
                None => Some(value),
                Some(_) => None,
            }
        },
        None => None,
    }
}

// ---- Laws ----

/// A field that a message has may be given once only, whatever else it holds.
pub proof fn law_repeated_fields_spoil_a_message(
    members: Seq<(Seq<char>, Seq<char>)>,
    name: Seq<char>,
    i: int,
    a: int,
    b: int,
)
    requires
        0 <= a < b < members.len(),
        members[a].0 == name,
        members[b].0 == name,
    ensures
        ({
            let fields = Fields::Named(members);
            &&& required(fields, i, name) is None
            &&& text_field(fields, i, name) is None
            &&& flag_field(fields, i, name) is None
            &&& list_field(fields, i, name) is None
        }),
{
    lemma_named_at(members, name, 0, a);
    let first = named_at(members, name, 0);
    lemma_named_at(members, name, first + 1, b);
}

proof fn lemma_named_at(members: Seq<(Seq<char>, Seq<char>)>, name: Seq<char>, i: int, k: int)
    requires
        0 <= i,
        k < members.len(),
        members[k].0 == name,
    ensures
        i <= k ==> i <= named_at(members, name, i) <= k,
    decreases members.len() - i,
{
    if i < members.len() && members[i].0 != name {
        lemma_named_at(members, name, i + 1, k);
    }
}

/// Members that a message does not have change none of its fields.
pub proof fn law_other_members_are_passed_over(
    members: Seq<(Seq<char>, Seq<char>)>,
    other: (Seq<char>, Seq<char>),
    i: int,
    name: Seq<char>,
)
    requires
        other.0 != name,
    ensures
        given(Fields::Named(members.push(other)), i, name) == given(
            Fields::Named(members),
            i,
            name,
        ),
{
    let more = members.push(other);
    lemma_named_before(members, other, name, 0);
    let first = named_at(members, name, 0);
    if first < members.len() {
        lemma_named_before(members, other, name, first + 1);
    }
}

proof fn lemma_named_before(
    members: Seq<(Seq<char>, Seq<char>)>,
    other: (Seq<char>, Seq<char>),
    name: Seq<char>,
    i: int,
)
    requires
        other.0 != name,
        0 <= i <= members.len(),
    ensures
        ({
            let now = named_at(members, name, i);
            let later = named_at(members.push(other), name, i);
            &&& i <= now <= members.len()
            &&& now < members.len() ==> later == now
            &&& now == members.len() ==> later == now + 1
        }),
    decreases members.len() - i,
{
    if i < members.len() {
        assert(members.push(other)[i] == members[i]);
        if members[i].0 != name {
            lemma_named_before(members, other, name, i + 1);
        }
    } else {
        assert(members.push(other)[i] == other);
        assert(named_at(members.push(other), name, i + 1) == i + 1);
    }
}

} // verus!
