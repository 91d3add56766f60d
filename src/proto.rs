//! The Info message: the list of scenes that a scene binary offers, written as
//! a JSON object tagged with the protocol version.
//!
//! JSON text is read and written by serde_json. The library holds a parsed
//! document as a `JsonValue` and decides on it; `Json` is its mathematical
//! model.

use vstd::prelude::*;

use crate::text::texts;

verus! {

/// serde_json's JSON number, carried through the library unread.
#[verifier::external_type_specification]
#[verifier::external_body]
pub struct ExJsonNumber(serde_json::Number);

/// serde_json's document type, which only the conversions below handle.
#[verifier::external_type_specification]
#[verifier::external_body]
pub struct ExJsonDocument(serde_json::Value);

/// A JSON document, mathematically. Object members keep the order in which
/// the document holds them.
pub enum Json {
    Null,
    Bool(bool),
    Number(serde_json::Number),
    Str(Seq<char>),
    Array(Seq<Json>),
    Object(Seq<(Seq<char>, Json)>),
}

/// A JSON document held by the library.
#[derive(Debug)]
pub enum JsonValue {
    Null,
    Bool(bool),
    Number(serde_json::Number),
    Str(String),
    Array(Vec<JsonValue>),
    Object(Vec<(String, JsonValue)>),
}

impl JsonValue {
    pub open spec fn model(self) -> Json
        decreases self,
    {
        match self {
            JsonValue::Null => Json::Null,
            JsonValue::Bool(b) => Json::Bool(b),
            JsonValue::Number(n) => Json::Number(n),
            JsonValue::Str(s) => Json::Str(s@),
            JsonValue::Array(items) => Json::Array(
                Seq::new(
                    items.len() as nat,
                    |i: int|
                        if 0 <= i < items.len() {
                            items[i].model()
                        } else {
                            Json::Null
                        },
                ),
            ),
            JsonValue::Object(entries) => Json::Object(
                Seq::new(
                    entries.len() as nat,
                    |i: int|
                        if 0 <= i < entries.len() {
                            (entries[i].0@, entries[i].1.model())
                        } else {
                            (Seq::empty(), Json::Null)
                        },
                ),
            ),
        }
    }

    /// Relies on the variants of `serde_json::Value`: converts a parsed
    /// document one node for one node, keeping the order of object members.
    #[verifier::external_body]
    fn from_document(v: serde_json::Value) -> JsonValue {
        match v {
            serde_json::Value::Null => JsonValue::Null,
            serde_json::Value::Bool(b) => JsonValue::Bool(b),
            serde_json::Value::Number(n) => JsonValue::Number(n),
            serde_json::Value::String(s) => JsonValue::Str(s),
            serde_json::Value::Array(a) => JsonValue::Array(a.into_iter().map(JsonValue::from_document).collect()),
            serde_json::Value::Object(o) => JsonValue::Object(o.into_iter().map(|(k, v)| (k, JsonValue::from_document(v))).collect()),
        }
    }

    /// Relies on the variants of `serde_json::Value` and on collecting
    /// members into `serde_json::Map`: converts one node for one node.
    #[verifier::external_body]
    fn to_document(&self) -> serde_json::Value {
        match self {
            JsonValue::Null => serde_json::Value::Null,
            JsonValue::Bool(b) => serde_json::Value::Bool(*b),
            JsonValue::Number(n) => serde_json::Value::Number(n.clone()),
            JsonValue::Str(s) => serde_json::Value::String(s.clone()),
            JsonValue::Array(a) => serde_json::Value::Array(a.iter().map(JsonValue::to_document).collect()),
            JsonValue::Object(o) => serde_json::Value::Object(o.iter().map(|(k, v)| (k.clone(), v.to_document())).collect()),
        }
    }
}

/// The document that serde_json parses from these bytes; `None` where it
/// refuses them (they are not one JSON document, or nest too deep).
pub uninterp spec fn json_document(bytes: Seq<u8>) -> Option<Json>;

/// The compact JSON text that serde_json writes for this document.
pub uninterp spec fn json_text(doc: Json) -> Seq<char>;

/// Relies on `serde_json::from_slice::<serde_json::Value>`: whether it
/// succeeds, and the document it gives, depend on the bytes alone. The error
/// is handed on as its text.
#[verifier::external_body]
fn parse_json(bytes: &[u8]) -> (r: Result<JsonValue, String>)
    ensures
        match r {
            Ok(v) => json_document(bytes@) == Some(v.model()),
            Err(_) => json_document(bytes@) is None,
        },
{
    serde_json::from_slice::<serde_json::Value>(bytes)
        .map(JsonValue::from_document)
        .map_err(|e| e.to_string())
}

/// Relies on the `Display` impl of `serde_json::Value`: the compact JSON text
/// of the document, which depends on the document alone.
#[verifier::external_body]
fn write_json(v: &JsonValue) -> (r: String)
    ensures
        r@ == json_text(v.model()),
{
    v.to_document().to_string()
}

/// The key of the version tag.
pub open spec fn version_key() -> Seq<char> {
    "snowglobe_version"@
}

/// The key of the scene list.
pub open spec fn scenes_key() -> Seq<char> {
    "scenes"@
}

/// The protocol version that this library writes and accepts.
pub open spec fn version() -> Seq<char> {
    "1"@
}

/// The value of the first member of an object named `key`.
pub open spec fn field(entries: Seq<(Seq<char>, Json)>, key: Seq<char>) -> Option<Json>
    decreases entries.len(),
{
    if entries.len() == 0 {
        None
    } else if entries[0].0 == key {
        Some(entries[0].1)
    } else {
        field(entries.drop_first(), key)
    }
}

/// The strings of an array, if every item is a string.
pub open spec fn strings_of(items: Seq<Json>) -> Option<Seq<Seq<char>>> {
    if forall|i: int| 0 <= i < items.len() ==> (#[trigger] items[i]) is Str {
        Some(Seq::new(items.len(), |i: int| items[i]->Str_0))
    } else {
        None
    }
}

/// Why a JSON document is not an Info message.
pub enum Fault {
    /// The document is not of the message's shape; the text says how.
    Json(Seq<char>),
    /// The version tag is not "1": the expected and the found tag.
    VersionMismatch(Seq<char>, Seq<char>),
}

/// The fault of a document that is not an object.
pub open spec fn not_an_object() -> Seq<char> {
    "expected an object"@
}

/// The fault of an object without the version tag.
pub open spec fn missing_version() -> Seq<char> {
    "missing field `snowglobe_version`"@
}

/// The fault of an object without the scene list.
pub open spec fn missing_scenes() -> Seq<char> {
    "missing field `scenes`"@
}

/// The fault of a scene list that is not an array of strings.
pub open spec fn invalid_scenes() -> Seq<char> {
    "invalid type for field `scenes`"@
}

/// The scene list that a document carries, or why it carries none. Members
/// other than the two of the message are ignored.
pub open spec fn decode_info(doc: Json) -> Result<Seq<Seq<char>>, Fault> {
    match doc {
        Json::Object(entries) => match field(entries, version_key()) {
            None => Err(Fault::Json(missing_version())),
            Some(v) => if v != Json::Str(version()) {
                Err(Fault::VersionMismatch(version(), json_text(v)))
            } else {
                match field(entries, scenes_key()) {
                    None => Err(Fault::Json(missing_scenes())),
                    Some(Json::Array(items)) => match strings_of(items) {
                        Some(names) => Ok(names),
                        None => Err(Fault::Json(invalid_scenes())),
                    },
                    Some(_) => Err(Fault::Json(invalid_scenes())),
                }
            },
        },
        _ => Err(Fault::Json(not_an_object())),
    }
}

/// The document of the Info message for a scene list.
pub open spec fn info_document(names: Seq<Seq<char>>) -> Json {
    Json::Object(
        seq![
            (scenes_key(), Json::Array(names.map_values(|n: Seq<char>| Json::Str(n)))),
            (version_key(), Json::Str(version())),
        ],
    )
}

/// Why bytes could not be read as an Info message.
#[derive(Debug)]
pub enum Error {
    /// The bytes are not JSON, or not of the message's shape; the text says
    /// why.
    Json(String),
    /// The version tag is not the one this library speaks.
    VersionMismatch { expected: String, got: String },
}

impl Error {
    /// What the error says of the document.
    pub open spec fn fault(self) -> Fault {
        match self {
            Error::Json(m) => Fault::Json(m@),
            Error::VersionMismatch { expected, got } => Fault::VersionMismatch(expected@, got@),
        }
    }

    /// The text of the error.
    pub open spec fn text(self) -> Seq<char> {
        match self {
            Error::Json(m) => "json: "@ + m@,
            Error::VersionMismatch { expected, got } => "version mismatch: expected '"@ + expected@
                + "', got '"@ + got@ + "'"@,
        }
    }

    /// The error as a line of text.
    pub fn message(&self) -> (r: String)
        ensures
            r@ == self.text(),
    {
        match self {
            Error::Json(m) => String::from_str("json: ").concat(m.as_str()),
            Error::VersionMismatch { expected, got } => String::from_str(
                "version mismatch: expected '",
            ).concat(expected.as_str()).concat("', got '").concat(got.as_str()).concat("'"),
        }
    }
}

proof fn lemma_field_first(entries: Seq<(Seq<char>, Json)>, key: Seq<char>, i: int)
    requires
        0 <= i < entries.len(),
        entries[i].0 == key,
        forall|j: int| 0 <= j < i ==> (#[trigger] entries[j]).0 != key,
    ensures
        field(entries, key) == Some(entries[i].1),
    decreases i,
{
    if i > 0 {
        assert(entries[0].0 != key);
        let rest = entries.drop_first();
        assert forall|j: int| 0 <= j < i - 1 implies (#[trigger] rest[j]).0 != key by {
            assert(rest[j] == entries[j + 1]);
        }
        lemma_field_first(rest, key, i - 1);
    }
}

proof fn lemma_field_absent(entries: Seq<(Seq<char>, Json)>, key: Seq<char>)
    requires
        forall|j: int| 0 <= j < entries.len() ==> (#[trigger] entries[j]).0 != key,
    ensures
        field(entries, key) is None,
    decreases entries.len(),
{
    if entries.len() > 0 {
        let rest = entries.drop_first();
        assert forall|j: int| 0 <= j < rest.len() implies (#[trigger] rest[j]).0 != key by {
            assert(rest[j] == entries[j + 1]);
        }
        lemma_field_absent(rest, key);
    }
}

/// The index of the first member named `key`.
fn find_field(entries: &Vec<(String, JsonValue)>, key: &String) -> (r: Option<usize>)
    ensures
        match r {
            Some(i) => i < entries.len() && entries[i as int].0@ == key@ && forall|j: int|
                0 <= j < i ==> (#[trigger] entries[j]).0@ != key@,
            None => forall|j: int| 0 <= j < entries.len() ==> (#[trigger] entries[j]).0@ != key@,
        },
{
    let mut i: usize = 0;
    while i < entries.len()
        invariant
            i <= entries.len(),
            forall|j: int| 0 <= j < i ==> (#[trigger] entries[j]).0@ != key@,
        decreases entries.len() - i,
    {
        if entries[i].0.eq(key) {
            return Some(i);
        }
        i = i + 1;
    }
    None
}

/// The model of an object's members.
pub open spec fn members_model(entries: Seq<(String, JsonValue)>) -> Seq<(Seq<char>, Json)> {
    Seq::new(entries.len(), |i: int| (entries[i].0@, entries[i].1.model()))
}

/// The member named `key`, with what the model says of it.
fn member<'a>(entries: &'a Vec<(String, JsonValue)>, key: &String) -> (r: Option<&'a JsonValue>)
    ensures
        match r {
            Some(v) => field(members_model(entries@), key@) == Some(v.model()),
            None => field(members_model(entries@), key@) is None,
        },
{
    let ghost m = members_model(entries@);
    match find_field(entries, key) {
        Some(i) => {
            proof {
                assert forall|j: int| 0 <= j < i implies (#[trigger] m[j]).0 != key@ by {
                    assert(entries[j].0@ != key@);
                }
                lemma_field_first(m, key@, i as int);
            }
            Some(&entries[i].1)
        },
        None => {
            proof {
                assert forall|j: int| 0 <= j < m.len() implies (#[trigger] m[j]).0 != key@ by {
                    assert(entries[j].0@ != key@);
                }
                lemma_field_absent(m, key@);
            }
            None
        },
    }
}

/// The models of an array's items.
pub open spec fn items_model(items: Seq<JsonValue>) -> Seq<Json> {
    Seq::new(items.len(), |i: int| items[i].model())
}

proof fn lemma_array_model(items: Vec<JsonValue>)
    ensures
        JsonValue::Array(items).model() == Json::Array(items_model(items@)),
{
    assert(JsonValue::Array(items).model()->Array_0 =~= items_model(items@));
}

/// The strings of an array's items, if all of them are strings.
fn string_items(items: &Vec<JsonValue>) -> (r: Option<Vec<String>>)
    ensures
        match r {
            Some(names) => strings_of(items_model(items@)) == Some(texts(names@)),
            None => strings_of(items_model(items@)) is None,
        },
{
    let ghost m = items_model(items@);
    let mut names: Vec<String> = Vec::new();
    let mut i: usize = 0;
    while i < items.len()
        invariant
            i <= items.len(),
            m == items_model(items@),
            names.len() == i,
            forall|j: int| 0 <= j < i ==> (#[trigger] m[j]) is Str && m[j]->Str_0 == names[j]@,
        decreases items.len() - i,
    {
        match &items[i] {
            JsonValue::Str(s) => {
                names.push(s.clone());
            },
            _ => {
                assert(!(m[i as int] is Str));
                return None;
            },
        }
        i = i + 1;
    }
    assert(strings_of(m) is Some);
    assert(strings_of(m)->Some_0 =~= texts(names@));
    Some(names)
}

/// Whether a value is the version tag this library speaks.
fn is_current_version(v: &JsonValue) -> (r: bool)
    ensures
        r == (v.model() == Json::Str(version())),
{
    match v {
        JsonValue::Str(s) => s.eq(&String::from_str("1")),
        _ => false,
    }
}

/// The list of scenes that a scene binary offers.
#[derive(Debug, Clone)]
pub struct Info {
    pub scenes: Vec<String>,
}

impl Info {
    /// Writes the message: an object with the scene list and the version tag.
    pub fn serialize(&self) -> (r: String)
        ensures
            r@ == json_text(info_document(texts(self.scenes@))),
    {
        let mut items: Vec<JsonValue> = Vec::new();
        let mut i: usize = 0;
        while i < self.scenes.len()
            invariant
                i <= self.scenes.len(),
                items.len() == i,
                forall|j: int| 0 <= j < i ==> #[trigger] items[j] == JsonValue::Str(self.scenes[j]),
            decreases self.scenes.len() - i,
        {
            items.push(JsonValue::Str(self.scenes[i].clone()));
            i = i + 1;
        }
        let mut entries: Vec<(String, JsonValue)> = Vec::new();
        let scenes = JsonValue::Array(items);
        let tag = JsonValue::Str(String::from_str("1"));
        entries.push((String::from_str("scenes"), scenes));
        entries.push((String::from_str("snowglobe_version"), tag));
        let doc = JsonValue::Object(entries);
        let ghost names = texts(self.scenes@);
        proof {
            let sm = scenes.model()->Array_0;
            let target = names.map_values(|n: Seq<char>| Json::Str(n));
            assert forall|j: int| 0 <= j < sm.len() implies sm[j] == target[j] by {
                assert(items[j] == JsonValue::Str(self.scenes[j]));
                assert(sm[j] == items[j].model());
            }
            assert(sm =~= target);
            let dm = doc.model()->Object_0;
            let want = info_document(names)->Object_0;
            assert(dm[0] == (entries[0].0@, entries[0].1.model()));
            assert(dm[1] == (entries[1].0@, entries[1].1.model()));
            assert(dm =~= want);
        }
        write_json(&doc)
    }

    /// Reads a message: the bytes must be a JSON object whose version tag is
    /// "1" and whose `scenes` member is an array of strings. Other members
    /// are ignored.
    pub fn deserialize(bytes: &[u8]) -> (r: Result<Info, Error>)
        ensures
            match json_document(bytes@) {
                None => r matches Err(Error::Json(_)),
                Some(doc) => match decode_info(doc) {
                    Ok(names) => r matches Ok(info) && texts(info.scenes@) == names,
                    Err(fault) => r matches Err(e) && e.fault() == fault,
                },
            },
    {
        let doc = match parse_json(bytes) {
            Ok(v) => v,
            Err(e) => return Err(Error::Json(e)),
        };
        let entries = match doc {
            JsonValue::Object(entries) => entries,
            _ => return Err(Error::Json(String::from_str("expected an object"))),
        };
        proof {
            assert(doc.model()->Object_0 =~= members_model(entries@));
        }
        let version_key = String::from_str("snowglobe_version");
        let found = match member(&entries, &version_key) {
            Some(v) => v,
            None => return Err(Error::Json(String::from_str("missing field `snowglobe_version`"))),
        };
        if !is_current_version(found) {
            return Err(
                Error::VersionMismatch { expected: String::from_str("1"), got: write_json(found) },
            );
        }
        let scenes_key = String::from_str("scenes");
        let scenes = match member(&entries, &scenes_key) {
            Some(v) => v,
            None => return Err(Error::Json(String::from_str("missing field `scenes`"))),
        };
        match scenes {
            JsonValue::Array(items) => match string_items(items) {
                Some(names) => {
                    proof {
                        lemma_array_model(*items);
                    }
                    Ok(Info { scenes: names })
                },
                None => {
                    proof {
                        lemma_array_model(*items);
                    }
                    Err(Error::Json(String::from_str("invalid type for field `scenes`")))
                },
            },
            _ => Err(Error::Json(String::from_str("invalid type for field `scenes`"))),
        }
    }
}

/// Decoding the document of the Info message for a scene list gives back the
/// same list, and that document carries the version tag "1".
pub proof fn info_round_trip(names: Seq<Seq<char>>)
    ensures
        decode_info(info_document(names)) == Ok::<Seq<Seq<char>>, Fault>(names),
        field(info_document(names)->Object_0, version_key()) == Some(Json::Str(version())),
{
    reveal_strlit("scenes");
    reveal_strlit("snowglobe_version");
    let entries = info_document(names)->Object_0;
    assert(entries[0].0 != version_key()) by {
        assert(entries[0].0.len() != version_key().len());
    }
    assert(entries.drop_first()[0] == entries[1]);
    assert(field(entries.drop_first(), version_key()) == Some(Json::Str(version())));
    assert(field(entries, version_key()) == Some(Json::Str(version())));
    assert(field(entries, scenes_key()) == Some(entries[0].1));
    let items = names.map_values(|n: Seq<char>| Json::Str(n));
    assert(strings_of(items)->Some_0 =~= names);
}

/// An object whose version tag is anything but the string "1" is refused with
/// a version mismatch that reports the tag it found.
pub proof fn version_rejection(entries: Seq<(Seq<char>, Json)>, found: Json)
    requires
        field(entries, version_key()) == Some(found),
        found != Json::Str(version()),
    ensures
        decode_info(Json::Object(entries)) == Err::<Seq<Seq<char>>, Fault>(
            Fault::VersionMismatch(version(), json_text(found)),
        ),
{
}

} // verus!
