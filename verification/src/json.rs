//! JSON documents: those that arrive ([`Json`]) and those that are sent ([`Payload`]).
//!
//! The `serde_json` crate reads and writes the text. Both types here show what a document
//! holds as plain values, and both have the same mathematical model, [`JsonView`].
use crate::text::same_text;
use vstd::prelude::*;

verus! {

/// What a JSON document holds. An object is a map: the order of its members means nothing.
/// A number that is no integer is held as its text.
pub enum JsonView {
    Null,
    Bool(bool),
    Integer(int),
    Float(Seq<char>),
    Text(Seq<char>),
    Array(Seq<JsonView>),
    Object(Map<Seq<char>, JsonView>),
}

/// The members of an object, given as a row of names and values. Of two with one name the
/// later counts.
pub open spec fn members(entries: Seq<(Seq<char>, JsonView)>) -> Map<Seq<char>, JsonView>
    decreases entries.len(),
{
    if entries.len() == 0 {
        Map::empty()
    } else {
        members(entries.drop_last()).insert(entries.last().0, entries.last().1)
    }
}

/// The object with a row of members.
pub open spec fn object(entries: Seq<(Seq<char>, JsonView)>) -> JsonView {
    JsonView::Object(members(entries))
}

/// The member of an object by its name; nothing where the document is no object.
pub open spec fn member(document: JsonView, name: Seq<char>) -> Option<JsonView> {
    match document {
        JsonView::Object(fields) => if fields.contains_key(name) {
            Some(fields[name])
        } else {
            None
        },
        _ => None,
    }
}

/// The text, where a value is a text.
pub open spec fn text_of(value: Option<JsonView>) -> Option<Seq<char>> {
    match value {
        Some(JsonView::Text(text)) => Some(text),
        _ => None,
    }
}

/// The number, where a value is an integer that fits in 64 bits without a sign.
pub open spec fn unsigned_of(value: Option<JsonView>) -> Option<u64> {
    match value {
        Some(JsonView::Integer(number)) => if 0 <= number <= u64::MAX {
            Some(number as u64)
        } else {
            None
        },
        _ => None,
    }
}

/// A document of the `serde_json` crate.
#[verifier::external_type_specification]
#[verifier::external_body]
pub struct ExValue(serde_json::Value);

/// The members of an object of the `serde_json` crate.
#[verifier::external_type_specification]
#[verifier::external_body]
#[verifier::reject_recursive_types(K)]
#[verifier::reject_recursive_types(V)]
pub struct ExMap<K, V>(serde_json::Map<K, V>);

/// What a document of the `serde_json` crate holds.
pub uninterp spec fn json_of(value: serde_json::Value) -> JsonView;

/// The names and values that a `serde_json::Map` holds.
pub uninterp spec fn map_members(map: serde_json::Map<String, serde_json::Value>) -> Map<
    Seq<char>,
    JsonView,
>;

/// What `serde_json::from_slice` reads from bytes as a document; nothing where it refuses them.
pub uninterp spec fn json_parse(bytes: Seq<u8>) -> Option<JsonView>;

/// The compact text that `serde_json` writes for a document.
pub uninterp spec fn json_text(document: JsonView) -> Seq<char>;

/// The outermost layer of a `serde_json` document that was read. A number is given as what it
/// is without a sign, as what it is with a sign, and as its text.
enum OpenValue<'a> {
    Null,
    Bool(bool),
    Number(Option<u64>, Option<i64>, String),
    Text(&'a String),
    Items(&'a Vec<serde_json::Value>),
    Entries(Vec<(&'a String, &'a serde_json::Value)>),
}

/// The outermost layer of a `serde_json` document that is to be written.
enum SealValue {
    Null,
    Bool(bool),
    UInt(u64),
    Int(i64),
    Text(String),
    Items(Vec<serde_json::Value>),
    Members(serde_json::Map<String, serde_json::Value>),
}

/// What each of a row of `serde_json` documents holds.
spec fn values_of(items: Seq<serde_json::Value>) -> Seq<JsonView> {
    Seq::new(items.len(), |i: int| json_of(items[i]))
}

spec fn open_entries(entries: Seq<(&String, &serde_json::Value)>) -> Seq<(Seq<char>, JsonView)> {
    Seq::new(entries.len(), |i: int| (entries[i].0@, json_of(*entries[i].1)))
}

/// `serde_json::from_slice`, read as a `serde_json::Value`. It is a function of the bytes
/// alone; its error is dropped. Claimed is that the document holds what the name says.
#[verifier::external_body]
fn value_from_slice(bytes: &[u8]) -> (r: Option<serde_json::Value>)
    ensures
        match r {
            Some(value) => json_parse(bytes@) == Some(json_of(value)),
            None => json_parse(bytes@) is None,
        },
{
    serde_json::from_slice(bytes).ok()
}

/// The variants of `serde_json::Value` told apart. Claimed is what each of them says of the
/// document: a number is the integer that `as_u64` or `as_i64` gives, else the text that it
/// prints as; an object's members have distinct names.
#[verifier::external_body]
fn open_value<'a>(value: &'a serde_json::Value) -> (r: OpenValue<'a>)
    ensures
        match r {
            OpenValue::Null => json_of(*value) == JsonView::Null,
            OpenValue::Bool(b) => json_of(*value) == JsonView::Bool(b),
            OpenValue::Number(Some(n), _, _) => json_of(*value) == JsonView::Integer(n as int),
            OpenValue::Number(None, Some(n), _) => json_of(*value) == JsonView::Integer(n as int),
            OpenValue::Number(None, None, text) => json_of(*value) == JsonView::Float(text@),
            OpenValue::Text(text) => json_of(*value) == JsonView::Text(text@),
            OpenValue::Items(items) => json_of(*value) == JsonView::Array(values_of(items@)),
            OpenValue::Entries(entries) => {
                &&& json_of(*value) == JsonView::Object(members(open_entries(entries@)))
                &&& forall|i: int, j: int|
                    0 <= i < j < entries@.len() ==> (#[trigger] entries@[i]).0@ != (
                    #[trigger] entries@[j]).0@
            },
        },
{
    match value {
        serde_json::Value::Null => OpenValue::Null,
        serde_json::Value::Bool(b) => OpenValue::Bool(*b),
        serde_json::Value::Number(n) => OpenValue::Number(n.as_u64(), n.as_i64(), n.to_string()),
        serde_json::Value::String(text) => OpenValue::Text(text),
        serde_json::Value::Array(items) => OpenValue::Items(items),
        serde_json::Value::Object(entries) => OpenValue::Entries(entries.iter().collect()),
    }
}

/// `serde_json::Map::new`: an object without members.
#[verifier::external_body]
fn map_new() -> (r: serde_json::Map<String, serde_json::Value>)
    ensures
        map_members(r) == members(Seq::empty()),
{
    serde_json::Map::new()
}

/// `serde_json::Map::insert`: one more member, in place of the one with the same name if there
/// is one. The value that it replaces is dropped.
#[verifier::external_body]
fn map_insert(
    object: &mut serde_json::Map<String, serde_json::Value>,
    name: String,
    value: serde_json::Value,
)
    ensures
        map_members(*final(object)) == map_members(*old(object)).insert(name@, json_of(value)),
{
    object.insert(name, value);
}

/// A `serde_json::Value` from its outermost layer: its variants, and `Value::from` on an
/// integer. Claimed is what the document then holds.
#[verifier::external_body]
fn seal_value(layer: SealValue) -> (r: serde_json::Value)
    ensures
        json_of(r) == match layer {
            SealValue::Null => JsonView::Null,
            SealValue::Bool(b) => JsonView::Bool(b),
            SealValue::UInt(n) => JsonView::Integer(n as int),
            SealValue::Int(n) => JsonView::Integer(n as int),
            SealValue::Text(text) => JsonView::Text(text@),
            SealValue::Items(items) => JsonView::Array(values_of(items@)),
            SealValue::Members(map) => JsonView::Object(map_members(map)),
        },
{
    match layer {
        SealValue::Null => serde_json::Value::Null,
        SealValue::Bool(b) => serde_json::Value::Bool(b),
        SealValue::UInt(n) => serde_json::Value::from(n),
        SealValue::Int(n) => serde_json::Value::from(n),
        SealValue::Text(text) => serde_json::Value::String(text),
        SealValue::Items(items) => serde_json::Value::Array(items),
        SealValue::Members(map) => serde_json::Value::Object(map),
    }
}

/// `serde_json::Value::to_string`: the document as compact JSON text. The text is a function
/// of what the document holds, since `serde_json::Map`, built without `preserve_order`, keeps its
/// members in the order of their names.
#[verifier::external_body]
fn value_text(value: &serde_json::Value) -> (r: String)
    ensures
        r@ == json_text(json_of(*value)),
{
    value.to_string()
}

/// In a row of members with distinct names each member counts.
proof fn lemma_distinct_members(entries: Seq<(Seq<char>, JsonView)>, i: int)
    requires
        0 <= i < entries.len(),
        forall|a: int, b: int|
            0 <= a < b < entries.len() ==> (#[trigger] entries[a]).0 != (#[trigger] entries[b]).0,
    ensures
        members(entries).contains_key(entries[i].0),
        members(entries)[entries[i].0] == entries[i].1,
        members(entries).dom().finite(),
    decreases entries.len(),
{
    lemma_members_finite(entries);
    if i < entries.len() - 1 {
        lemma_distinct_members(entries.drop_last(), i);
        assert(entries.drop_last()[i] == entries[i]);
        assert(entries[i].0 != entries[entries.len() - 1].0);
    }
}

proof fn lemma_members_finite(entries: Seq<(Seq<char>, JsonView)>)
    ensures
        members(entries).dom().finite(),
    decreases entries.len(),
{
    if entries.len() > 0 {
        lemma_members_finite(entries.drop_last());
    }
}

/// A JSON document that arrived.
#[derive(Debug)]
pub enum Json {
    Null,
    Bool(bool),
    UInt(u64),
    Int(i64),
    Float(String),
    Text(String),
    Array(Vec<Json>),
    Object(Vec<(String, Json)>),
}

impl Json {
    /// What the document holds.
    pub open spec fn view(&self) -> JsonView
        decreases self,
    {
        match self {
            Json::Null => JsonView::Null,
            Json::Bool(value) => JsonView::Bool(*value),
            Json::UInt(number) => JsonView::Integer(*number as int),
            Json::Int(number) => JsonView::Integer(*number as int),
            Json::Float(text) => JsonView::Float(text@),
            Json::Text(text) => JsonView::Text(text@),
            Json::Array(items) => JsonView::Array(Json::item_views(items@)),
            Json::Object(entries) => JsonView::Object(members(Json::entry_views(entries@))),
        }
    }

    /// What each of a row of documents holds.
    pub open spec fn item_views(items: Seq<Json>) -> Seq<JsonView>
        decreases items,
    {
        Seq::new(
            items.len(),
            |i: int|
                if 0 <= i < items.len() {
                    items[i].view()
                } else {
                    JsonView::Null
                },
        )
    }

    /// The names and values of a row of object members.
    pub open spec fn entry_views(entries: Seq<(String, Json)>) -> Seq<(Seq<char>, JsonView)>
        decreases entries,
    {
        Seq::new(
            entries.len(),
            |i: int|
                if 0 <= i < entries.len() {
                    (entries[i].0@, entries[i].1.view())
                } else {
                    (Seq::empty(), JsonView::Null)
                },
        )
    }

    /// The document that `serde_json` holds, as plain values.
    pub fn from_value(value: &serde_json::Value) -> (r: Json)
        ensures
            r@ == json_of(*value),
        decreases json_of(*value),
    {
        match open_value(value) {
            OpenValue::Null => Json::Null,
            OpenValue::Bool(b) => Json::Bool(b),
            OpenValue::Number(Some(number), _, _) => Json::UInt(number),
            OpenValue::Number(None, Some(number), _) => Json::Int(number),
            OpenValue::Number(None, None, text) => Json::Float(text),
            OpenValue::Text(text) => Json::Text(text.clone()),
            OpenValue::Items(items) => {
                let mut converted: Vec<Json> = Vec::new();
                for i in 0..items.len()
                    invariant
                        converted@.len() == i,
                        json_of(*value) == JsonView::Array(values_of(items@)),
                        forall|j: int|
                            0 <= j < i ==> (#[trigger] converted@[j])@ == json_of(items@[j]),
                {
                    assert(values_of(items@)[i as int] == json_of(items@[i as int]));
                    assert(decreases_to!(json_of(*value) => json_of(*value)->Array_0));
                    assert(decreases_to!(values_of(items@) => values_of(items@)[i as int]));
                    converted.push(Json::from_value(&items[i]));
                }
                assert(Json::item_views(converted@) == values_of(items@));
                Json::Array(converted)
            },
            OpenValue::Entries(entries) => {
                let mut converted: Vec<(String, Json)> = Vec::new();
                let ghost views = open_entries(entries@);
                for i in 0..entries.len()
                    invariant
                        converted@.len() == i,
                        views == open_entries(entries@),
                        json_of(*value) == JsonView::Object(members(views)),
                        forall|a: int, b: int|
                            0 <= a < b < views.len() ==> (#[trigger] views[a]).0 != (
                            #[trigger] views[b]).0,
                        forall|j: int|
                            0 <= j < i ==> {
                                &&& (#[trigger] converted@[j]).0@ == views[j].0
                                &&& converted@[j].1@ == views[j].1
                            },
                {
                    let (name, inner) = entries[i];
                    proof {
                        assert(views[i as int] == (name@, json_of(*inner)));
                        lemma_distinct_members(views, i as int);
                        assert(decreases_to!(members(views) => members(views)[name@]));
                        assert(decreases_to!(json_of(*value) => json_of(*value)->Object_0));
                    }
                    converted.push((name.clone(), Json::from_value(inner)));
                }
                assert(Json::entry_views(converted@) == views);
                Json::Object(converted)
            },
        }
    }

    /// The document that the bytes hold, where they are JSON.
    pub fn parse(bytes: &[u8]) -> (r: Option<Json>)
        ensures
            match r {
                Some(document) => json_parse(bytes@) == Some(document@),
                None => json_parse(bytes@) is None,
            },
    {
        match value_from_slice(bytes) {
            Some(value) => Some(Json::from_value(&value)),
            None => None,
        }
    }

    /// The member of an object by its name.
    pub fn get(&self, name: &str) -> (r: Option<&Json>)
        ensures
            match r {
                Some(value) => member(self@, name@) == Some(value@),
                None => member(self@, name@) is None,
            },
    {
        match self {
            Json::Object(entries) => {
                let ghost views = Json::entry_views(entries@);
                assert(views.take(entries@.len() as int) == views);
                let mut i: usize = entries.len();
                while i > 0
                    invariant
                        i <= entries@.len(),
                        views == Json::entry_views(entries@),
                        self@ == JsonView::Object(members(views)),
                        member(self@, name@) == member(
                            JsonView::Object(members(views.take(i as int))),
                            name@,
                        ),
                    decreases i,
                {
                    let entry = &entries[i - 1];
                    assert(views.take(i as int).drop_last() == views.take(i - 1));
                    assert(views.take(i as int).last() == (entry.0@, entry.1@));
                    if same_text(entry.0.as_str(), name) {
                        return Some(&entry.1);
                    }
                    i -= 1;
                }
                None
            },
            _ => None,
        }
    }

    /// The text, where the value is a text.
    pub fn as_str(&self) -> (r: Option<&str>)
        ensures
            match r {
                Some(text) => text_of(Some(self@)) == Some(text@),
                None => text_of(Some(self@)) is None,
            },
    {
        match self {
            Json::Text(text) => Some(text.as_str()),
            _ => None,
        }
    }

    /// The number, where the value is an integer that fits in 64 bits without a sign.
    pub fn as_u64(&self) -> (r: Option<u64>)
        ensures
            r == unsigned_of(Some(self@)),
    {
        match self {
            Json::UInt(number) => Some(*number),
            Json::Int(number) => if *number >= 0 {
                Some(*number as u64)
            } else {
                None
            },
            _ => None,
        }
    }
}

/// A JSON document to be sent.
#[derive(Debug, PartialEq)]
pub enum Payload {
    Null,
    Bool(bool),
    UInt(u64),
    Int(i64),
    Text(String),
    Array(Vec<Payload>),
    Object(Vec<(String, Payload)>),
}

/// A member of an object to be sent.
pub fn entry(name: &str, value: Payload) -> (r: (String, Payload))
    ensures
        r.0@ == name@,
        r.1 == value,
{
    (name.to_owned(), value)
}

impl Payload {
    /// What the document holds.
    pub open spec fn view(&self) -> JsonView
        decreases self,
    {
        match self {
            Payload::Null => JsonView::Null,
            Payload::Bool(value) => JsonView::Bool(*value),
            Payload::UInt(number) => JsonView::Integer(*number as int),
            Payload::Int(number) => JsonView::Integer(*number as int),
            Payload::Text(text) => JsonView::Text(text@),
            Payload::Array(items) => JsonView::Array(Payload::item_views(items@)),
            Payload::Object(entries) => JsonView::Object(
                members(Payload::entry_views(entries@)),
            ),
        }
    }

    /// What each of a row of documents holds.
    pub open spec fn item_views(items: Seq<Payload>) -> Seq<JsonView>
        decreases items,
    {
        Seq::new(
            items.len(),
            |i: int|
                if 0 <= i < items.len() {
                    items[i].view()
                } else {
                    JsonView::Null
                },
        )
    }

    /// The names and values of a row of object members.
    pub open spec fn entry_views(entries: Seq<(String, Payload)>) -> Seq<(Seq<char>, JsonView)>
        decreases entries,
    {
        Seq::new(
            entries.len(),
            |i: int|
                if 0 <= i < entries.len() {
                    (entries[i].0@, entries[i].1.view())
                } else {
                    (Seq::empty(), JsonView::Null)
                },
        )
    }

    /// The document as `serde_json` holds it.
    pub fn to_value(&self) -> (r: serde_json::Value)
        ensures
            json_of(r) == self@,
        decreases self,
    {
        match self {
            Payload::Null => seal_value(SealValue::Null),
            Payload::Bool(value) => seal_value(SealValue::Bool(*value)),
            Payload::UInt(number) => seal_value(SealValue::UInt(*number)),
            Payload::Int(number) => seal_value(SealValue::Int(*number)),
            Payload::Text(text) => seal_value(SealValue::Text(text.clone())),
            Payload::Array(items) => {
                let mut sealed: Vec<serde_json::Value> = Vec::new();
                for i in 0..items.len()
                    invariant
                        *self == Payload::Array(*items),
                        sealed@.len() == i,
                        forall|j: int|
                            0 <= j < i ==> json_of(#[trigger] sealed@[j]) == items@[j]@,
                {
                    assert(decreases_to!(self => self->Array_0));
                    assert(decreases_to!(items => items@));
                    assert(decreases_to!(items@ => items@[i as int]));
                    sealed.push(items[i].to_value());
                }
                assert(values_of(sealed@) == Payload::item_views(items@));
                seal_value(SealValue::Items(sealed))
            },
            Payload::Object(entries) => {
                let mut map = map_new();
                let ghost views = Payload::entry_views(entries@);
                for i in 0..entries.len()
                    invariant
                        *self == Payload::Object(*entries),
                        views == Payload::entry_views(entries@),
                        map_members(map) == members(views.take(i as int)),
                {
                    assert(decreases_to!(self => self->Object_0));
                    assert(decreases_to!(entries => entries@));
                    assert(decreases_to!(entries@ => entries@[i as int]));
                    assert(decreases_to!(entries@[i as int] => entries@[i as int].1));
                    assert(views.take(i + 1).drop_last() == views.take(i as int));
                    map_insert(&mut map, entries[i].0.clone(), entries[i].1.to_value());
                }
                assert(views.take(views.len() as int) == views);
                seal_value(SealValue::Members(map))
            },
        }
    }

    /// The document as compact JSON text.
    pub fn to_text(&self) -> (r: String)
        ensures
            r@ == json_text(self@),
    {
        value_text(&self.to_value())
    }
}

/// Whether no two members of a row have one name.
pub open spec fn distinct_names(entries: Seq<(Seq<char>, JsonView)>) -> bool {
    forall|a: int, b: int|
        0 <= a < b < entries.len() ==> (#[trigger] entries[a]).0 != (#[trigger] entries[b]).0
}

/// A member of an object is found by its name, unless a later one has the same name.
pub proof fn law_last_member_of_a_name_is_found(entries: Seq<(Seq<char>, JsonView)>, i: int)
    requires
        0 <= i < entries.len(),
        forall|j: int| i < j < entries.len() ==> (#[trigger] entries[j]).0 != entries[i].0,
    ensures
        member(object(entries), entries[i].0) == Some(entries[i].1),
    decreases entries.len(),
{
    if i < entries.len() - 1 {
        let shorter = entries.drop_last();
        assert(entries[entries.len() - 1].0 != entries[i].0);
        assert forall|j: int| i < j < shorter.len() implies (#[trigger] shorter[j]).0
            != shorter[i].0 by {
            assert(shorter[j] == entries[j]);
        }
        law_last_member_of_a_name_is_found(shorter, i);
    }
}

/// A name that no member of an object has is not found.
pub proof fn law_other_names_are_not_found(entries: Seq<(Seq<char>, JsonView)>, name: Seq<char>)
    requires
        forall|i: int| 0 <= i < entries.len() ==> (#[trigger] entries[i]).0 != name,
    ensures
        member(object(entries), name) is None,
    decreases entries.len(),
{
    if entries.len() > 0 {
        let shorter = entries.drop_last();
        assert(entries[entries.len() - 1].0 != name);
        assert forall|i: int| 0 <= i < shorter.len() implies (#[trigger] shorter[i]).0 != name by {
            assert(shorter[i] == entries[i]);
        }
        law_other_names_are_not_found(shorter, name);
    }
}

/// In an object without repeated names every member is found, and nothing else.
pub proof fn law_members_are_found(entries: Seq<(Seq<char>, JsonView)>)
    requires
        distinct_names(entries),
    ensures
        forall|i: int|
            0 <= i < entries.len() ==> member(object(entries), (#[trigger] entries[i]).0) == Some(
                entries[i].1,
            ),
        forall|name: Seq<char>| #[trigger]
            member(object(entries), name) is Some ==> exists|i: int|
                0 <= i < entries.len() && (#[trigger] entries[i]).0 == name,
{
    assert forall|i: int| 0 <= i < entries.len() implies member(
        object(entries),
        (#[trigger] entries[i]).0,
    ) == Some(entries[i].1) by {
        law_last_member_of_a_name_is_found(entries, i);
    }
    assert forall|name: Seq<char>| #[trigger] member(object(entries), name) is Some implies exists|
        i: int,
    | 0 <= i < entries.len() && (#[trigger] entries[i]).0 == name by {
        if forall|i: int| 0 <= i < entries.len() ==> (#[trigger] entries[i]).0 != name {
            law_other_names_are_not_found(entries, name);
        }
    }
}

/// A document that is not an object has no members.
pub proof fn law_only_objects_have_members(document: JsonView, name: Seq<char>)
    requires
        document !is Object,
    ensures
        member(document, name) is None,
{
}

/// A text reads as just that text and as no number; an integer reads as a number where it is
/// neither negative nor larger than 64 bits hold, and as no text; nothing else reads as either.
pub proof fn law_values_read_as_what_they_are(value: JsonView, text: Seq<char>, number: int)
    ensures
        text_of(Some(JsonView::Text(text))) == Some(text),
        text_of(Some(value)) is Some ==> value is Text,
        text_of(None) is None,
        unsigned_of(Some(JsonView::Integer(number))) is Some <==> 0 <= number
            < 0x1_0000_0000_0000_0000,
        0 <= number < 0x1_0000_0000_0000_0000 ==> unsigned_of(Some(JsonView::Integer(number)))
            == Some(number as u64),
        unsigned_of(Some(value)) is Some ==> value is Integer,
        unsigned_of(None) is None,
{
}

/// A document to be sent shows what it was made of.
pub proof fn law_payloads_show_what_they_hold(text: String, number: u64, signed: i64, value: bool)
    ensures
        Payload::Text(text)@ == JsonView::Text(text@),
        Payload::UInt(number)@ == JsonView::Integer(number as int),
        Payload::Int(signed)@ == JsonView::Integer(signed as int),
        Payload::Bool(value)@ == JsonView::Bool(value),
        Payload::Null@ == JsonView::Null,
{
}

/// A document that arrived shows what it was made of.
pub proof fn law_documents_show_what_they_hold(text: String, number: u64, signed: i64, value: bool)
    ensures
        Json::Text(text)@ == JsonView::Text(text@),
        Json::UInt(number)@ == JsonView::Integer(number as int),
        Json::Int(signed)@ == JsonView::Integer(signed as int),
        Json::Bool(value)@ == JsonView::Bool(value),
        Json::Null@ == JsonView::Null,
{
}

/// The rows of a document to be sent show each of their entries in its place.
pub proof fn law_payload_rows_show_their_entries(
    items: Seq<Payload>,
    entries: Seq<(String, Payload)>,
    i: int,
)
    ensures
        Payload::item_views(items).len() == items.len(),
        0 <= i < items.len() ==> Payload::item_views(items)[i] == items[i]@,
        Payload::entry_views(entries).len() == entries.len(),
        0 <= i < entries.len() ==> Payload::entry_views(entries)[i] == (
            entries[i].0@,
            entries[i].1@,
        ),
{
}

/// The rows of a document that arrived show each of their entries in its place.
pub proof fn law_document_rows_show_their_entries(
    items: Seq<Json>,
    entries: Seq<(String, Json)>,
    i: int,
)
    ensures
        Json::item_views(items).len() == items.len(),
        0 <= i < items.len() ==> Json::item_views(items)[i] == items[i]@,
        Json::entry_views(entries).len() == entries.len(),
        0 <= i < entries.len() ==> Json::entry_views(entries)[i] == (entries[i].0@, entries[i].1@),
{
}

} // verus!
