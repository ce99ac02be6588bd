//! JSON values, as the server sends and receives them.

use crate::text::texts;
use vstd::prelude::*;

verus! {

/// A JSON value.
pub enum JsonValue {
    Null,
    Bool(bool),
    Int(i64),
    /// A number that is not an `i64`.
    OtherNumber,
    Text(String),
    Array(Vec<JsonValue>),
    Object(Vec<Field>),
}

/// One field of a JSON object.
pub struct Field {
    pub key: String,
    pub value: JsonValue,
}

/// The model of a [`JsonValue`].
pub enum Json {
    Null,
    Bool(bool),
    Int(int),
    OtherNumber,
    Text(Seq<char>),
    Array(Seq<Json>),
    Object(Seq<(Seq<char>, Json)>),
}

/// The model of a value.
pub open spec fn json_of(v: JsonValue) -> Json
    decreases v,
{
    match v {
        JsonValue::Null => Json::Null,
        JsonValue::Bool(b) => Json::Bool(b),
        JsonValue::Int(n) => Json::Int(n as int),
        JsonValue::OtherNumber => Json::OtherNumber,
        JsonValue::Text(s) => Json::Text(s@),
        JsonValue::Array(items) => Json::Array(
            Seq::new(
                items@.len(),
                |i: int|
                    if 0 <= i < items@.len() {
                        json_of(items@[i])
                    } else {
                        Json::Null
                    },
            ),
        ),
        JsonValue::Object(fields) => Json::Object(
            Seq::new(
                fields@.len(),
                |i: int|
                    if 0 <= i < fields@.len() {
                        (fields@[i].key@, json_of(fields@[i].value))
                    } else {
                        (Seq::empty(), Json::Null)
                    },
            ),
        ),
    }
}

impl View for JsonValue {
    type V = Json;

    open spec fn view(&self) -> Json {
        json_of(*self)
    }
}

/// The models of some values.
pub open spec fn jsons(items: Seq<JsonValue>) -> Seq<Json> {
    items.map_values(|v: JsonValue| v@)
}

/// The models of some fields.
pub open spec fn field_jsons(fields: Seq<Field>) -> Seq<(Seq<char>, Json)> {
    fields.map_values(|f: Field| (f.key@, f.value@))
}

/// A JSON array.
pub fn array(items: Vec<JsonValue>) -> (res: JsonValue)
    ensures
        res@ == Json::Array(jsons(items@)),
{
    let res = JsonValue::Array(items);
    assert(res@->Array_0 =~= jsons(items@));
    res
}

/// A JSON object.
pub fn object(fields: Vec<Field>) -> (res: JsonValue)
    ensures
        res@ == Json::Object(field_jsons(fields@)),
{
    let res = JsonValue::Object(fields);
    assert(res@->Object_0 =~= field_jsons(fields@));
    res
}

/// A JSON string.
pub fn text(s: &str) -> (res: JsonValue)
    ensures
        res@ == Json::Text(s@),
{
    JsonValue::Text(s.to_owned())
}

/// The model of a string that may be absent.
pub open spec fn text_or_null(s: Option<Seq<char>>) -> Json {
    match s {
        Some(t) => Json::Text(t),
        None => Json::Null,
    }
}

/// The model of a number that may be absent.
pub open spec fn int_or_null(n: Option<i64>) -> Json {
    match n {
        Some(v) => Json::Int(v as int),
        None => Json::Null,
    }
}

/// An optional text by its model.
pub open spec fn opt_text(s: Option<String>) -> Option<Seq<char>> {
    match s {
        Some(t) => Some(t@),
        None => None,
    }
}

/// A JSON string, or null.
pub fn text_or_none(s: &Option<String>) -> (res: JsonValue)
    ensures
        res@ == text_or_null(opt_text(*s)),
{
    match s {
        Some(t) => JsonValue::Text(t.clone()),
        None => JsonValue::Null,
    }
}

/// A JSON integer, or null.
pub fn int_or_none(n: Option<i64>) -> (res: JsonValue)
    ensures
        res@ == int_or_null(n),
{
    match n {
        Some(v) => JsonValue::Int(v),
        None => JsonValue::Null,
    }
}

/// An array of strings.
pub open spec fn texts_json(items: Seq<Seq<char>>) -> Json {
    Json::Array(items.map_values(|t: Seq<char>| Json::Text(t)))
}

/// A JSON array of strings.
pub fn text_array(items: &Vec<String>) -> (res: JsonValue)
    ensures
        res@ == texts_json(texts(items@)),
{
    let mut out: Vec<JsonValue> = Vec::new();
    let mut i: usize = 0;
    let ghost all = texts(items@);
    while i < items.len()
        invariant
            i <= items@.len(),
            all == texts(items@),
            jsons(out@) == all.take(i as int).map_values(|t: Seq<char>| Json::Text(t)),
        decreases items@.len() - i,
    {
        let ghost before = jsons(out@);
        let v = text(items[i].as_str());
        out.push(v);
        i += 1;
        proof {
            assert(all[i - 1] == items@[i - 1]@);
            assert(jsons(out@) =~= before.push(v@));
            assert(jsons(out@) =~= all.take(i as int).map_values(|t: Seq<char>| Json::Text(t)));
        }
    }
    proof {
        assert(all.take(i as int) =~= all);
    }
    array(out)
}

/// The model of an object under construction.
pub struct Obj {
    pub fields: Seq<(Seq<char>, Json)>,
}

/// An object without fields.
pub open spec fn obj() -> Obj {
    Obj { fields: Seq::empty() }
}

impl Obj {
    /// With one more field.
    pub open spec fn with(self, key: Seq<char>, value: Json) -> Obj {
        Obj { fields: self.fields.push((key, value)) }
    }

    /// The finished object.
    pub open spec fn json(self) -> Json {
        Json::Object(self.fields)
    }
}

/// The fields of an object under construction.
pub struct Fields {
    pub fields: Vec<Field>,
}

impl View for Fields {
    type V = Seq<(Seq<char>, Json)>;

    open spec fn view(&self) -> Seq<(Seq<char>, Json)> {
        field_jsons(self.fields@)
    }
}

impl Fields {
    /// No fields.
    pub fn new() -> (res: Fields)
        ensures
            res@ == Seq::<(Seq<char>, Json)>::empty(),
    {
        let res = Fields { fields: Vec::new() };
        assert(res@ =~= Seq::<(Seq<char>, Json)>::empty());
        res
    }

    /// One more field.
    pub fn put(self, key: &str, value: JsonValue) -> (res: Fields)
        ensures
            res@ == self@.push((key@, value@)),
    {
        let mut fields = self.fields;
        fields.push(Field { key: key.to_owned(), value });
        let res = Fields { fields };
        assert(res@ =~= self@.push((key@, value@)));
        res
    }

    /// One more field, a string.
    pub fn put_text(self, key: &str, value: &str) -> (res: Fields)
        ensures
            res@ == self@.push((key@, Json::Text(value@))),
    {
        self.put(key, text(value))
    }

    /// One more field, an integer.
    pub fn put_int(self, key: &str, value: i64) -> (res: Fields)
        ensures
            res@ == self@.push((key@, Json::Int(value as int))),
    {
        self.put(key, JsonValue::Int(value))
    }

    /// One more field, a boolean.
    pub fn put_bool(self, key: &str, value: bool) -> (res: Fields)
        ensures
            res@ == self@.push((key@, Json::Bool(value))),
    {
        self.put(key, JsonValue::Bool(value))
    }

    /// The finished object.
    pub fn done(self) -> (res: JsonValue)
        ensures
            res@ == Json::Object(self@),
    {
        object(self.fields)
    }
}

/// The value of the first field named `key`.
pub open spec fn field_of(fields: Seq<(Seq<char>, Json)>, key: Seq<char>) -> Option<Json>
    decreases fields.len(),
{
    if fields.len() == 0 {
        None
    } else if fields[0].0 == key {
        Some(fields[0].1)
    } else {
        field_of(fields.drop_first(), key)
    }
}

/// The model of member access: only an object has members.
pub open spec fn member_of(v: Json, key: Seq<char>) -> Option<Json> {
    match v {
        Json::Object(fields) => field_of(fields, key),
        _ => None,
    }
}

impl JsonValue {
    /// The member named `key`, where the value is an object that has it.
    pub fn get(&self, key: &str) -> (res: Option<&JsonValue>)
        ensures
            res is Some <==> member_of(self@, key@) is Some,
            res matches Some(v) ==> member_of(self@, key@) == Some(v@),
    {
        match self {
            JsonValue::Object(fields) => {
                let mut i: usize = 0;
                let ghost all = field_jsons(fields@);
                assert(self@->Object_0 =~= all);
                assert(all.skip(0) =~= all);
                while i < fields.len()
                    invariant
                        i <= fields@.len(),
                        all == field_jsons(fields@),
                        self@ == Json::Object(all),
                        field_of(all, key@) == field_of(all.skip(i as int), key@),
                    decreases fields@.len() - i,
                {
                    assert(all.skip(i as int)[0] == all[i as int]);
                    assert(all.skip(i as int).drop_first() =~= all.skip(i + 1));
                    if crate::text::same(fields[i].key.as_str(), key) {
                        return Some(&fields[i].value);
                    }
                    i += 1;
                }
                None
            },
            _ => None,
        }
    }

    /// The string, where the value is one.
    pub fn as_text(&self) -> (res: Option<String>)
        ensures
            opt_text(res) == match self@ {
                Json::Text(s) => Some(s),
                _ => None,
            },
    {
        match self {
            JsonValue::Text(s) => Some(s.clone()),
            _ => None,
        }
    }

    /// Whether the value is `true`.
    pub fn is_true(&self) -> (res: bool)
        ensures
            res == (self@ == Json::Bool(true)),
    {
        match self {
            JsonValue::Bool(b) => *b,
            _ => false,
        }
    }
}

/// Looking a key up in an object with one more field: an earlier field of that
/// name comes first.
pub broadcast proof fn lookup_of_push(
    fields: Seq<(Seq<char>, Json)>,
    field: (Seq<char>, Json),
    key: Seq<char>,
)
    ensures
        #[trigger] field_of(fields.push(field), key) == (match field_of(fields, key) {
            Some(v) => Some(v),
            None => if field.0 == key {
                Some(field.1)
            } else {
                None
            },
        }),
        field.0.len() != key.len() || field.0[0] != key[0] || field.0[field.0.len() - 1] != key[key.len() - 1]
            ==> field.0 != key,
    decreases fields.len(),
{
    if fields.len() > 0 {
        assert(fields.push(field).drop_first() =~= fields.drop_first().push(field));
        lookup_of_push(fields.drop_first(), field, key);
    } else {
        assert(fields.push(field).drop_first() =~= fields);
    }
}

/// Looking up a key that no earlier field has gives the field's value.
pub proof fn lookup_of_field(fields: Seq<(Seq<char>, Json)>, k: int)
    requires
        0 <= k < fields.len(),
        forall|j: int| 0 <= j < k ==> (#[trigger] fields[j]).0 != fields[k].0,
    ensures
        field_of(fields, fields[k].0) == Some(fields[k].1),
    decreases fields.len(),
{
    if k > 0 {
        let rest = fields.drop_first();
        assert(fields[0].0 != fields[k].0);
        assert forall|j: int| 0 <= j < k - 1 implies (#[trigger] rest[j]).0 != rest[k - 1].0 by {
            assert(rest[j] == fields[j + 1]);
        }
        lookup_of_field(rest, k - 1);
    }
}

/// Looking up a key that no field has gives nothing.
pub proof fn lookup_of_nothing(fields: Seq<(Seq<char>, Json)>, key: Seq<char>)
    requires
        forall|j: int| 0 <= j < fields.len() ==> (#[trigger] fields[j]).0 != key,
    ensures
        field_of(fields, key) is None,
    decreases fields.len(),
{
    if fields.len() > 0 {
        let rest = fields.drop_first();
        assert forall|j: int| 0 <= j < rest.len() implies (#[trigger] rest[j]).0 != key by {
            assert(rest[j] == fields[j + 1]);
        }
        lookup_of_nothing(rest, key);
    }
}

/// An array of strings holds the strings in their order.
pub proof fn texts_stay_in_order(items: Seq<Seq<char>>, i: int)
    ensures
        texts_json(items) matches Json::Array(told) && told.len() == items.len() && (0 <= i < items.len()
            ==> told[i] == Json::Text(items[i])),
{
}

} // verus!
