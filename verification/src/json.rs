//! JSON documents: what a value holds, the documents about devices, and the
//! report on a device's information.

use crate::notice::DeviceRow;
use crate::text::optional_view;
use vstd::prelude::*;
use vstd::string::*;

verus! {

/// `serde_json::Value`, any JSON value.
#[verifier::external_type_specification]
#[verifier::external_body]
pub struct ExValue(serde_json::Value);

/// `serde_json::Error`, the error of reading or writing JSON.
#[verifier::external_type_specification]
#[verifier::external_body]
pub struct ExError(serde_json::Error);

/// What a JSON value holds. A number is held as its text.
pub ghost enum Json {
    Null,
    Bool(bool),
    Number(Seq<char>),
    Text(Seq<char>),
    Array(Seq<Json>),
    Object(Map<Seq<char>, Json>),
}

/// What a `serde_json::Value` holds.
pub uninterp spec fn json_content(value: serde_json::Value) -> Json;

/// The text that `serde_json::to_string_pretty` writes. The members of an object
/// are written in the order of their keys, as the crate's map without the
/// feature `preserve_order` hands them out.
pub uninterp spec fn json_pretty(content: Json) -> Seq<char>;

/// The compact text that a `serde_json::Value` is displayed as, the members of
/// an object in the order of their keys.
pub uninterp spec fn json_compact(content: Json) -> Seq<char>;

/// `Value::from` on a string makes a JSON string of it.
#[verifier::external_body]
fn text_value(s: &str) -> (res: serde_json::Value)
    ensures
        json_content(res) == Json::Text(s@),
{
    serde_json::Value::from(s)
}

/// `Value::from` on an optional string makes a JSON string of it, or null.
#[verifier::external_body]
fn optional_text_value(s: Option<&str>) -> (res: serde_json::Value)
    ensures
        json_content(res) == optional_text(match s {
            Some(s) => Some(s@),
            None => None,
        }),
{
    serde_json::Value::from(s)
}

/// `Value::from` on a truth value makes a JSON truth value of it.
#[verifier::external_body]
fn bool_value(b: bool) -> (res: serde_json::Value)
    ensures
        json_content(res) == Json::Bool(b),
{
    serde_json::Value::from(b)
}

/// `Value::from` on a vector of values makes a JSON array of them, in order.
#[verifier::external_body]
fn array_value(items: Vec<serde_json::Value>) -> (res: serde_json::Value)
    ensures
        json_content(res) == Json::Array(
            items@.map_values(|item: serde_json::Value| json_content(item)),
        ),
{
    serde_json::Value::from(items)
}

/// Collecting pairs into a `Value` makes a JSON object of them. Which of two
/// pairs with one key would stay is left open, so the keys are to be distinct.
#[verifier::external_body]
fn object_value(members: Vec<(String, serde_json::Value)>) -> (res: serde_json::Value)
    requires
        forall|i: int, j: int|
            0 <= i < j < members@.len() ==> (#[trigger] members@[i]).0@ != (
            #[trigger] members@[j]).0@,
    ensures
        json_content(res) == Json::Object(
            members_inserted(
                members@.map_values(|m: (String, serde_json::Value)| (m.0@, json_content(m.1))),
            ),
        ),
{
    members.into_iter().collect()
}

/// `serde_json::to_string_pretty` writes a value as indented text, which depends
/// on what the value holds. It fails only on a type that refuses to be written
/// and on a map with keys that are no strings, and a `Value` is neither.
#[verifier::external_body]
fn to_string_pretty(value: &serde_json::Value) -> (res: Result<String, serde_json::Error>)
    ensures
        res is Ok,
        res->Ok_0@ == json_pretty(json_content(*value)),
{
    serde_json::to_string_pretty(value)
}

/// A `Value` is displayed as compact text, which depends on what it holds.
#[verifier::external_body]
fn compact_text(value: &serde_json::Value) -> (res: String)
    ensures
        res@ == json_compact(json_content(*value)),
{
    value.to_string()
}

/// `Value::as_str` gives the text of a JSON string, and nothing of any other
/// value.
pub assume_specification[ serde_json::Value::as_str ](value: &serde_json::Value) -> (res: Option<
    &str,
>)
    ensures
        match json_content(*value) {
            Json::Text(text) => res is Some && res->Some_0@ == text,
            _ => res is None,
        },
;

/// `Value::as_object` gives the map behind a JSON object, and nothing of any
/// other value. The map is a B-tree, unless the crate's feature
/// `preserve_order` is on: it hands its members out once each, in the order of
/// their keys.
#[verifier::external_body]
fn object_members(value: &serde_json::Value) -> (res: Option<Vec<(String, serde_json::Value)>>)
    ensures
        match json_content(*value) {
            Json::Object(members) => {
                &&& res matches Some(found)
                &&& in_key_order(members, Seq::new(found@.len(), |i: int| found@[i].0@))
                &&& forall|i: int|
                    0 <= i < found@.len() ==> json_content((#[trigger] found@[i]).1)
                        == members[found@[i].0@]
            },
            _ => res is None,
        },
{
    value.as_object().map(|m| m.iter().map(|(k, v)| (k.clone(), v.clone())).collect())
}

/// A JSON string, or null.
pub open spec fn optional_text(s: Option<Seq<char>>) -> Json {
    match s {
        Some(s) => Json::Text(s),
        None => Json::Null,
    }
}

/// The members that are there after inserting pairs one after the other.
pub open spec fn members_inserted(pairs: Seq<(Seq<char>, Json)>) -> Map<Seq<char>, Json>
    decreases pairs.len(),
{
    if pairs.len() == 0 {
        Map::empty()
    } else {
        members_inserted(pairs.drop_last()).insert(pairs.last().0, pairs.last().1)
    }
}

/// `a` comes before `b` in the order of strings, that of their code points.
pub open spec fn precedes(a: Seq<char>, b: Seq<char>) -> bool
    decreases a.len(),
{
    &&& b.len() > 0
    &&& {
        ||| a.len() == 0
        ||| a[0] < b[0]
        ||| a[0] == b[0] && precedes(a.drop_first(), b.drop_first())
    }
}

/// `keys` are the keys of `members`, each once, in ascending order.
pub open spec fn in_key_order(members: Map<Seq<char>, Json>, keys: Seq<Seq<char>>) -> bool {
    &&& forall|i: int, j: int|
        0 <= i < j < keys.len() ==> precedes(#[trigger] keys[i], #[trigger] keys[j])
    &&& forall|i: int| 0 <= i < keys.len() ==> members.contains_key(#[trigger] keys[i])
    &&& forall|k: Seq<char>| #[trigger] members.contains_key(k) ==> keys.contains(k)
}

/// A registered device as the JSON device list shows it.
pub open spec fn listed_device(
    serial: Seq<char>,
    nickname: Option<Seq<char>>,
    is_default: bool,
) -> Json {
    Json::Object(
        map![
            "serial"@ => Json::Text(serial),
            "nickname"@ => optional_text(nickname),
            "default"@ => Json::Bool(is_default),
        ],
    )
}

/// The active device as a JSON document.
pub open spec fn shown_device(
    serial: Seq<char>,
    password: Seq<char>,
    nickname: Option<Seq<char>>,
    is_default: bool,
) -> Json {
    Json::Object(
        map![
            "serial"@ => Json::Text(serial),
            "password"@ => Json::Text(password),
            "nickname"@ => optional_text(nickname),
            "default"@ => Json::Bool(is_default),
        ],
    )
}

/// The JSON device list.
pub open spec fn device_list(rows: Seq<DeviceRow>) -> Json {
    Json::Array(
        rows.map_values(
            |row: DeviceRow|
                listed_device(row.serial@, optional_view(row.nickname), row.is_default),
        ),
    )
}

/// The text of an optional string.
fn borrowed(s: &Option<String>) -> (res: Option<&str>)
    ensures
        match res {
            Some(text) => optional_view(*s) == Some(text@),
            None => s is None,
        },
{
    match s {
        Some(s) => Some(s.as_str()),
        None => None,
    }
}

/// A registered device as a member of the JSON device list.
fn listed_device_value(row: &DeviceRow) -> (res: serde_json::Value)
    ensures
        json_content(res) == listed_device(
            row.serial@,
            optional_view(row.nickname),
            row.is_default,
        ),
{
    let mut members: Vec<(String, serde_json::Value)> = Vec::new();
    members.push(("serial".to_owned(), text_value(row.serial.as_str())));
    members.push(("nickname".to_owned(), optional_text_value(borrowed(&row.nickname))));
    members.push(("default".to_owned(), bool_value(row.is_default)));
    proof {
        let pairs = members@.map_values(
            |m: (String, serde_json::Value)| (m.0@, json_content(m.1)),
        );
        assert(pairs =~= seq![
            ("serial"@, Json::Text(row.serial@)),
            ("nickname"@, optional_text(optional_view(row.nickname))),
            ("default"@, Json::Bool(row.is_default)),
        ]);
        assert(pairs.drop_last().drop_last().drop_last() =~= Seq::empty());
        reveal_with_fuel(members_inserted, 4);
        assert(members@[0].0@ == "serial"@ && members@[1].0@ == "nickname"@);
        assert(members@[2].0@ == "default"@);
        reveal_strlit("serial");
        reveal_strlit("nickname");
        reveal_strlit("default");
        assert("serial"@.len() < "default"@.len() < "nickname"@.len());
    }
    object_value(members)
}

/// Writes the registered devices as a JSON document, in their order. That never
/// fails.
pub fn device_list_json(rows: &Vec<DeviceRow>) -> (res: Result<String, serde_json::Error>)
    ensures
        res is Ok,
        res->Ok_0@ == json_pretty(device_list(rows@)),
{
    let mut items: Vec<serde_json::Value> = Vec::new();
    for i in 0..rows.len()
        invariant
            items@.len() == i,
            forall|j: int|
                0 <= j < i ==> json_content(#[trigger] items@[j]) == listed_device(
                    rows@[j].serial@,
                    optional_view(rows@[j].nickname),
                    rows@[j].is_default,
                ),
    {
        items.push(listed_device_value(&rows[i]));
    }
    let list = array_value(items);
    assert(json_content(list) == device_list(rows@)) by {
        assert(items@.map_values(|item: serde_json::Value| json_content(item))
            =~= device_list(rows@)->Array_0);
    }
    to_string_pretty(&list)
}

/// Writes a device and its credentials as a JSON document. That never fails.
pub fn device_json(
    serial: &str,
    password: &str,
    nickname: &Option<String>,
    is_default: bool,
) -> (res: Result<String, serde_json::Error>)
    ensures
        res is Ok,
        res->Ok_0@ == json_pretty(
            shown_device(serial@, password@, optional_view(*nickname), is_default),
        ),
{
    let mut members: Vec<(String, serde_json::Value)> = Vec::new();
    members.push(("serial".to_owned(), text_value(serial)));
    members.push(("password".to_owned(), text_value(password)));
    members.push(("nickname".to_owned(), optional_text_value(borrowed(nickname))));
    members.push(("default".to_owned(), bool_value(is_default)));
    proof {
        let pairs = members@.map_values(
            |m: (String, serde_json::Value)| (m.0@, json_content(m.1)),
        );
        assert(pairs =~= seq![
            ("serial"@, Json::Text(serial@)),
            ("password"@, Json::Text(password@)),
            ("nickname"@, optional_text(optional_view(*nickname))),
            ("default"@, Json::Bool(is_default)),
        ]);
        assert(pairs.drop_last().drop_last().drop_last().drop_last() =~= Seq::empty());
        reveal_with_fuel(members_inserted, 5);
        assert(members@[0].0@ == "serial"@ && members@[1].0@ == "password"@);
        assert(members@[2].0@ == "nickname"@ && members@[3].0@ == "default"@);
        reveal_strlit("serial");
        reveal_strlit("password");
        reveal_strlit("nickname");
        reveal_strlit("default");
        assert("serial"@.len() < "default"@.len() < "nickname"@.len());
        assert("password"@.len() == "nickname"@.len() && "password"@[0] != "nickname"@[0]);
    }
    let document = object_value(members);
    to_string_pretty(&document)
}

/// How a member's value is shown: a string as its bare text, anything else as
/// compact JSON.
pub open spec fn shown_value(value: Json) -> Seq<char> {
    match value {
        Json::Text(text) => text,
        _ => json_compact(value),
    }
}

/// The line of a member.
pub open spec fn member_line(key: Seq<char>, shown: Seq<char>) -> Seq<char> {
    key + ": "@ + shown
}

/// One line per member: its key and its value as shown.
pub fn member_lines(members: &Vec<(String, String)>) -> (res: Vec<String>)
    ensures
        res.deep_view() == Seq::new(
            members@.len(),
            |i: int| member_line(members@[i].0@, members@[i].1@),
        ),
{
    let mut lines: Vec<String> = Vec::new();
    for i in 0..members.len()
        invariant
            lines@.len() == i,
            forall|j: int|
                0 <= j < i ==> (#[trigger] lines@[j])@ == member_line(
                    members@[j].0@,
                    members@[j].1@,
                ),
    {
        let line = members[i].0.clone().concat(": ").concat(members[i].1.as_str());
        lines.push(line);
    }
    assert(lines.deep_view() =~= Seq::new(
        members@.len(),
        |i: int| member_line(members@[i].0@, members@[i].1@),
    ));
    lines
}

/// How a value is shown: its text where it is a string, else its compact form.
fn show_value(value: &serde_json::Value) -> (res: String)
    ensures
        res@ == shown_value(json_content(*value)),
{
    match value.as_str() {
        Some(text) => text.to_owned(),
        None => compact_text(value),
    }
}

/// The lines that report on a device's information: of an object one line per
/// member, in the order of the keys; of anything else its compact form.
pub open spec fn is_info_report(info: Json, lines: Seq<Seq<char>>) -> bool {
    match info {
        Json::Object(members) => exists|keys: Seq<Seq<char>>| #[trigger]
            in_key_order(members, keys) && lines == Seq::new(
                keys.len(),
                |i: int| member_line(keys[i], shown_value(members[keys[i]])),
            ),
        _ => lines == seq![json_compact(info)],
    }
}

/// Reports on a device's information, line by line.
pub fn info_lines(info: &serde_json::Value) -> (res: Vec<String>)
    ensures
        is_info_report(json_content(*info), res.deep_view()),
{
    match object_members(info) {
        Some(found) => {
            let mut shown: Vec<(String, String)> = Vec::new();
            for i in 0..found.len()
                invariant
                    shown@.len() == i,
                    forall|j: int|
                        0 <= j < i ==> (#[trigger] shown@[j]).0@ == found@[j].0@
                            && shown@[j].1@ == shown_value(json_content(found@[j].1)),
            {
                let value = show_value(&found[i].1);
                shown.push((found[i].0.clone(), value));
            }
            let lines = member_lines(&shown);
            proof {
                let members = json_content(*info)->Object_0;
                let keys = Seq::new(found@.len(), |i: int| found@[i].0@);
                assert(in_key_order(members, keys));
                assert(lines.deep_view() =~= Seq::new(
                    keys.len(),
                    |i: int| member_line(keys[i], shown_value(members[keys[i]])),
                ));
            }
            lines
        },
        None => {
            let mut lines: Vec<String> = Vec::new();
            lines.push(compact_text(info));
            assert(lines.deep_view() =~= seq![json_compact(json_content(*info))]);
            lines
        },
    }
}

/// Writes a device's information as a JSON document. That never fails.
pub fn info_json(info: &serde_json::Value) -> (res: Result<String, serde_json::Error>)
    ensures
        res is Ok,
        res->Ok_0@ == json_pretty(json_content(*info)),
{
    to_string_pretty(info)
}

} // verus!
