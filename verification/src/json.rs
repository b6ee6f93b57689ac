//! JSON values as plain data, and the texts that stand for them.

use crate::text;
use vstd::prelude::*;

verus! {

/// `serde_json::Value`, a parsed JSON text.
#[verifier::external_type_specification]
#[verifier::external_body]
pub struct ExValue(serde_json::Value);

/// `serde_json::Number`, carried where a number is not an integer.
#[verifier::external_type_specification]
#[verifier::external_body]
pub struct ExNumber(serde_json::Number);

/// A JSON value.
pub enum Json {
    Null,
    Bool(bool),
    /// An integer that fits in an `i64`.
    Int(i64),
    /// An integer that fits in a `u64`.
    Uint(u64),
    /// A number that is no integer.
    Float(serde_json::Number),
    Text(String),
    Array(Vec<Json>),
    Object(Vec<(String, Json)>),
}

/// What a JSON value is.
pub enum JsonTree {
    Null,
    Bool(bool),
    Number(int),
    Float(serde_json::Number),
    Text(Seq<char>),
    Array(Seq<JsonTree>),
    Object(Seq<(Seq<char>, JsonTree)>),
}

impl Json {
    /// What the value is.
    pub open spec fn tree(self) -> JsonTree
        decreases self,
    {
        match self {
            Json::Null => JsonTree::Null,
            Json::Bool(b) => JsonTree::Bool(b),
            Json::Int(n) => JsonTree::Number(n as int),
            Json::Uint(n) => JsonTree::Number(n as int),
            Json::Float(n) => JsonTree::Float(n),
            Json::Text(s) => JsonTree::Text(s@),
            Json::Array(items) => JsonTree::Array(
                Seq::new(
                    items@.len(),
                    |i: int|
                        if 0 <= i < items@.len() {
                            items@[i].tree()
                        } else {
                            JsonTree::Null
                        },
                ),
            ),
            Json::Object(fields) => JsonTree::Object(
                Seq::new(
                    fields@.len(),
                    |i: int|
                        if 0 <= i < fields@.len() {
                            (fields@[i].0@, fields@[i].1.tree())
                        } else {
                            (Seq::empty(), JsonTree::Null)
                        },
                ),
            ),
        }
    }
}

/// The value of the first field of that name.
pub open spec fn field_of(fields: Seq<(Seq<char>, JsonTree)>, key: Seq<char>) -> Option<JsonTree>
    decreases fields.len(),
{
    if fields.len() == 0 {
        None
    } else if fields[0].0 == key {
        Some(fields[0].1)
    } else {
        field_of(fields.skip(1), key)
    }
}

impl JsonTree {
    /// The field of that name; nothing where the value is no object or lacks it.
    pub open spec fn get(self, key: Seq<char>) -> Option<JsonTree> {
        match self {
            JsonTree::Object(fields) => field_of(fields, key),
            _ => None,
        }
    }

    /// The text of the field of that name; nothing where it is no text.
    pub open spec fn get_text(self, key: Seq<char>) -> Option<Seq<char>> {
        match self.get(key) {
            Some(JsonTree::Text(s)) => Some(s),
            _ => None,
        }
    }

    /// The integer of the field of that name; nothing where it is none or exceeds an `i64`.
    pub open spec fn get_i64(self, key: Seq<char>) -> Option<int> {
        match self.get(key) {
            Some(JsonTree::Number(n)) => if i64::MIN <= n <= i64::MAX {
                Some(n)
            } else {
                None
            },
            _ => None,
        }
    }

    /// The natural number of the field of that name; nothing where it is none.
    pub open spec fn get_u64(self, key: Seq<char>) -> Option<int> {
        match self.get(key) {
            Some(JsonTree::Number(n)) => if 0 <= n <= u64::MAX {
                Some(n)
            } else {
                None
            },
            _ => None,
        }
    }

    /// The truth value of the field of that name; nothing where it is none.
    pub open spec fn get_bool(self, key: Seq<char>) -> Option<bool> {
        match self.get(key) {
            Some(JsonTree::Bool(b)) => Some(b),
            _ => None,
        }
    }

    /// The elements of the field of that name; nothing where it is no array.
    pub open spec fn get_array(self, key: Seq<char>) -> Option<Seq<JsonTree>> {
        match self.get(key) {
            Some(JsonTree::Array(items)) => Some(items),
            _ => None,
        }
    }
}

impl Json {
    /// The field of that name; nothing where the value is no object or lacks it.
    pub fn get(&self, key: &str) -> (value: Option<&Json>)
        ensures
            match value {
                Some(v) => self.tree().get(key@) == Some(v.tree()),
                None => self.tree().get(key@) is None,
            },
    {
        match self {
            Json::Object(fields) => {
                let ghost all = self.tree()->Object_0;
                let mut i: usize = 0;
                assert(all.skip(0) =~= all);
                while i < fields.len()
                    invariant
                        i <= fields@.len(),
                        self.tree() == JsonTree::Object(all),
                        all.len() == fields@.len(),
                        forall|j: int|
                            0 <= j < fields@.len() ==> #[trigger] all[j] == (
                                fields@[j].0@,
                                fields@[j].1.tree(),
                            ),
                        field_of(all, key@) == field_of(all.skip(i as int), key@),
                    decreases fields.len() - i,
                {
                    assert(all.skip(i as int)[0] == all[i as int]);
                    if text::text_eq(fields[i].0.as_str(), key) {
                        return Some(&fields[i].1);
                    }
                    assert(all.skip(i as int).skip(1) =~= all.skip(i as int + 1));
                    i = i + 1;
                }
                None
            },
            _ => None,
        }
    }

    /// The text of the field of that name.
    pub fn get_text(&self, key: &str) -> (value: Option<&str>)
        ensures
            match value {
                Some(v) => self.tree().get_text(key@) == Some(v@),
                None => self.tree().get_text(key@) is None,
            },
    {
        match self.get(key) {
            Some(v) => match v {
                Json::Text(s) => Some(s.as_str()),
                _ => None,
            },
            None => None,
        }
    }

    /// The integer of the field of that name.
    pub fn get_i64(&self, key: &str) -> (value: Option<i64>)
        ensures
            match value {
                Some(v) => self.tree().get_i64(key@) == Some(v as int),
                None => self.tree().get_i64(key@) is None,
            },
    {
        match self.get(key) {
            Some(v) => match v {
                Json::Int(n) => Some(*n),
                Json::Uint(n) => if *n <= i64::MAX as u64 {
                    Some(*n as i64)
                } else {
                    None
                },
                _ => None,
            },
            None => None,
        }
    }

    /// The natural number of the field of that name.
    pub fn get_u64(&self, key: &str) -> (value: Option<u64>)
        ensures
            match value {
                Some(v) => self.tree().get_u64(key@) == Some(v as int),
                None => self.tree().get_u64(key@) is None,
            },
    {
        match self.get(key) {
            Some(v) => match v {
                Json::Int(n) => if *n >= 0 {
                    Some(*n as u64)
                } else {
                    None
                },
                Json::Uint(n) => Some(*n),
                _ => None,
            },
            None => None,
        }
    }

    /// The truth value of the field of that name.
    pub fn get_bool(&self, key: &str) -> (value: Option<bool>)
        ensures
            value == self.tree().get_bool(key@),
    {
        match self.get(key) {
            Some(v) => match v {
                Json::Bool(b) => Some(*b),
                _ => None,
            },
            None => None,
        }
    }

    /// The elements of the field of that name.
    pub fn get_array(&self, key: &str) -> (value: Option<&Vec<Json>>)
        ensures
            match value {
                Some(v) => self.tree().get_array(key@) == Some(trees(v@)),
                None => self.tree().get_array(key@) is None,
            },
    {
        match self.get(key) {
            Some(v) => match v {
                Json::Array(items) => {
                    assert(v.tree()->Array_0 =~= trees(items@));
                    Some(items)
                },
                _ => None,
            },
            None => None,
        }
    }
}

/// What each value of a list is.
pub open spec fn trees(items: Seq<Json>) -> Seq<JsonTree> {
    items.map_values(|j: Json| j.tree())
}

/// What the fields of an object are.
pub open spec fn field_trees(fields: Seq<(String, Json)>) -> Seq<(Seq<char>, JsonTree)> {
    fields.map_values(|f: (String, Json)| (f.0@, f.1.tree()))
}

/// A field of an object.
pub fn field(name: &str, value: Json) -> (f: (String, Json))
    ensures
        f.0@ == name@,
        f.1 == value,
{
    (name.to_owned(), value)
}

/// The object with these fields.
pub fn object(fields: Vec<(String, Json)>) -> (json: Json)
    ensures
        json.tree() == JsonTree::Object(field_trees(fields@)),
{
    let json = Json::Object(fields);
    assert(json.tree()->Object_0 =~= field_trees(fields@));
    json
}

/// A text, or null without one.
pub open spec fn text_or_null(text: Option<Seq<char>>) -> JsonTree {
    match text {
        Some(t) => JsonTree::Text(t),
        None => JsonTree::Null,
    }
}

/// A text, or null without one.
pub fn opt_text_json(text: &Option<String>) -> (json: Json)
    ensures
        json.tree() == text_or_null(
            match *text {
                Some(t) => Some(t@),
                None => None,
            },
        ),
{
    match text {
        Some(t) => Json::Text(t.clone()),
        None => Json::Null,
    }
}

// ---------- texts ----------

/// What a `serde_json::Value` holds.
pub uninterp spec fn value_tree(value: serde_json::Value) -> JsonTree;

/// What a JSON text stands for; nothing where `serde_json` refuses it.
pub uninterp spec fn json_value(text: Seq<char>) -> Option<JsonTree>;

/// The compact text of a JSON value.
pub uninterp spec fn json_text(tree: JsonTree) -> Seq<char>;

/// `serde_json::from_str` to a `serde_json::Value`.
#[verifier::external_body]
fn parse_value(text: &str) -> (value: Option<serde_json::Value>)
    ensures
        match value {
            Some(v) => json_value(text@) == Some(value_tree(v)),
            None => json_value(text@) is None,
        },
{
    serde_json::from_str(text).ok()
}

/// A `serde_json::Value` as plain data, variant for variant; an integer keeps its value.
#[verifier::external_body]
fn tree_of(value: serde_json::Value) -> (json: Json)
    ensures
        json.tree() == value_tree(value),
{
    match value {
        serde_json::Value::Null => Json::Null,
        serde_json::Value::Bool(b) => Json::Bool(b),
        serde_json::Value::Number(n) => match (n.as_i64(), n.as_u64()) {
            (Some(i), _) => Json::Int(i),
            (None, Some(u)) => Json::Uint(u),
            (None, None) => Json::Float(n),
        },
        serde_json::Value::String(s) => Json::Text(s),
        serde_json::Value::Array(v) => Json::Array(v.into_iter().map(tree_of).collect()),
        serde_json::Value::Object(m) => Json::Object(
            m.into_iter().map(|(k, v)| (k, tree_of(v))).collect()),
    }
}

/// What a JSON text stands for; nothing where it is not JSON.
pub fn parse_json(text: &str) -> (json: Option<Json>)
    ensures
        match json {
            Some(j) => json_value(text@) == Some(j.tree()),
            None => json_value(text@) is None,
        },
{
    match parse_value(text) {
        Some(value) => Some(tree_of(value)),
        None => None,
    }
}

/// Whether a value is a null, a truth value, an integer or a text.
pub open spec fn is_scalar(tree: JsonTree) -> bool {
    match tree {
        JsonTree::Null => true,
        JsonTree::Bool(_) => true,
        JsonTree::Number(n) => i64::MIN <= n <= u64::MAX,
        JsonTree::Text(_) => true,
        _ => false,
    }
}

/// Whether a value is an object of scalars whose field names are distinct.
pub open spec fn is_record(tree: JsonTree) -> bool {
    match tree {
        JsonTree::Object(fields) => {
            &&& forall|i: int| 0 <= i < fields.len() ==> is_scalar((#[trigger] fields[i]).1)
            &&& forall|i: int, j: int|
                0 <= i < j < fields.len() ==> (#[trigger] fields[i]).0 != (#[trigger] fields[j]).0
        },
        _ => false,
    }
}

/// An object whose field names are distinct has each of its fields under its name.
pub proof fn fields_are_found(fields: Seq<(Seq<char>, JsonTree)>, i: int)
    requires
        0 <= i < fields.len(),
        forall|a: int, b: int|
            0 <= a < b < fields.len() ==> (#[trigger] fields[a]).0 != (#[trigger] fields[b]).0,
    ensures
        field_of(fields, fields[i].0) == Some(fields[i].1),
    decreases fields.len(),
{
    if i > 0 {
        let rest = fields.skip(1);
        assert(rest[i - 1] == fields[i]);
        assert forall|a: int, b: int| 0 <= a < b < rest.len() implies (#[trigger] rest[a]).0 != (
        #[trigger] rest[b]).0 by {
            assert(rest[a] == fields[a + 1] && rest[b] == fields[b + 1]);
        }
        fields_are_found(rest, i - 1);
        assert(fields[0].0 != fields[i].0);
    }
}

/// Whether two values have the same fields.
pub open spec fn same_fields(a: JsonTree, b: JsonTree) -> bool {
    forall|key: Seq<char>| #[trigger] a.get(key) == b.get(key)
}

/// A value with the fields of its objects as a `serde_json::Map` holds them.
pub uninterp spec fn ordered_tree(tree: JsonTree) -> JsonTree;

/// Plain data as a `serde_json::Value`, variant for variant. An object of scalars with
/// distinct field names keeps its fields; the crate may order them anew.
#[verifier::external_body]
fn value_of(json: &Json) -> (value: serde_json::Value)
    ensures
        value_tree(value) == ordered_tree(json.tree()),
        is_record(json.tree()) ==> is_record(value_tree(value)) && same_fields(
            value_tree(value),
            json.tree(),
        ),
{
    match json {
        Json::Null => serde_json::Value::Null,
        Json::Bool(b) => serde_json::Value::Bool(*b),
        Json::Int(n) => serde_json::Value::Number((*n).into()),
        Json::Uint(n) => serde_json::Value::Number((*n).into()),
        Json::Float(n) => serde_json::Value::Number(n.clone()),
        Json::Text(s) => serde_json::Value::String(s.clone()),
        Json::Array(v) => serde_json::Value::Array(v.iter().map(value_of).collect()),
        Json::Object(m) => serde_json::Value::Object(
            m.iter().map(|(k, v)| (k.clone(), value_of(v))).collect()),
    }
}

/// The `Display` text of a `serde_json::Value`. Parsing the text of an object of scalars
/// gives the object back.
#[verifier::external_body]
fn value_text(value: &serde_json::Value) -> (text: String)
    ensures
        text@ == json_text(value_tree(*value)),
        is_record(value_tree(*value)) ==> json_value(text@) == Some(value_tree(*value)),
{
    value.to_string()
}

/// The compact text of a value.
pub fn render_json(json: &Json) -> (text: String)
    ensures
        text@ == json_text(ordered_tree(json.tree())),
        is_record(json.tree()) ==> json_value(text@) is Some && same_fields(
            json_value(text@)->0,
            json.tree(),
        ),
        is_record(json.tree()) ==> compact(text@) == Some(text@),
{
    let value = value_of(json);
    value_text(&value)
}

/// The text of a JSON value with nothing but what the value needs, were it parsed and
/// written again; nothing where it is not JSON.
pub open spec fn compact(text: Seq<char>) -> Option<Seq<char>> {
    match json_value(text) {
        Some(tree) => Some(json_text(tree)),
        None => None,
    }
}

/// The text of a JSON value, parsed and written again.
pub fn compact_json(text: &str) -> (out: Option<String>)
    ensures
        match out {
            Some(t) => compact(text@) == Some(t@),
            None => compact(text@) is None,
        },
{
    match parse_value(text) {
        Some(value) => Some(value_text(&value)),
        None => None,
    }
}

} // verus!
