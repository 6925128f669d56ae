//! JSON values, as far as window reports need them.

use vstd::prelude::*;

use crate::text::same;

verus! {

/// A JSON value. Of a number only this is kept: its value, where it is a whole
/// number from zero up that 64 bits can hold. The entries of an object have
/// distinct keys; where they have not, the first entry counts.
#[derive(Debug)]
pub enum Json {
    Null,
    Bool(bool),
    Number(Option<u64>),
    Text(String),
    Array(Vec<Json>),
    Object(Vec<(String, Json)>),
}

/// The mathematical content of a JSON value.
pub enum JsonTree {
    Null,
    Bool(bool),
    Number(Option<u64>),
    Text(Seq<char>),
    Array(Seq<JsonTree>),
    Object(Seq<(Seq<char>, JsonTree)>),
}

/// The value of the first entry with the given key.
pub open spec fn entry(entries: Seq<(Seq<char>, JsonTree)>, key: Seq<char>) -> Option<JsonTree>
    decreases entries.len(),
{
    if entries.len() == 0 {
        None
    } else if entries[0].0 == key {
        Some(entries[0].1)
    } else {
        entry(entries.skip(1), key)
    }
}

impl JsonTree {
    /// The field of an object; nothing has no fields but an object.
    pub open spec fn get(self, key: Seq<char>) -> Option<JsonTree> {
        match self {
            JsonTree::Object(entries) => entry(entries, key),
            _ => None,
        }
    }

    pub open spec fn as_text(self) -> Option<Seq<char>> {
        match self {
            JsonTree::Text(s) => Some(s),
            _ => None,
        }
    }

    pub open spec fn as_u64(self) -> Option<u64> {
        match self {
            JsonTree::Number(n) => n,
            _ => None,
        }
    }

    pub open spec fn as_bool(self) -> Option<bool> {
        match self {
            JsonTree::Bool(b) => Some(b),
            _ => None,
        }
    }

    pub open spec fn as_array(self) -> Option<Seq<JsonTree>> {
        match self {
            JsonTree::Array(items) => Some(items),
            _ => None,
        }
    }

    /// The text of a field, where the field holds one.
    pub open spec fn text_field(self, key: Seq<char>) -> Option<Seq<char>> {
        match self.get(key) {
            Some(value) => value.as_text(),
            None => None,
        }
    }

    /// The whole number of a field, where the field holds one.
    pub open spec fn u64_field(self, key: Seq<char>) -> Option<u64> {
        match self.get(key) {
            Some(value) => value.as_u64(),
            None => None,
        }
    }

    /// The truth value of a field, where the field holds one.
    pub open spec fn bool_field(self, key: Seq<char>) -> Option<bool> {
        match self.get(key) {
            Some(value) => value.as_bool(),
            None => None,
        }
    }

    /// The items of a field, where the field holds an array.
    pub open spec fn array_field(self, key: Seq<char>) -> Option<Seq<JsonTree>> {
        match self.get(key) {
            Some(value) => value.as_array(),
            None => None,
        }
    }
}

impl View for Json {
    type V = JsonTree;

    open spec fn view(&self) -> JsonTree {
        self.tree()
    }
}

/// The contents of a list of JSON values.
pub open spec fn trees(items: Seq<Json>) -> Seq<JsonTree> {
    items.map_values(|item: Json| item@)
}

impl Json {
    /// The mathematical content.
    pub open spec fn tree(self) -> JsonTree
        decreases self,
    {
        match self {
            Json::Null => JsonTree::Null,
            Json::Bool(b) => JsonTree::Bool(b),
            Json::Number(n) => JsonTree::Number(n),
            Json::Text(s) => JsonTree::Text(s@),
            Json::Array(items) => JsonTree::Array(
                Seq::new(
                    items@.len(),
                    |i: int|
                        if 0 <= i < items@.len() {
                            items@[i].tree()
                        } else {
                            JsonTree::Null
                        },
                ),
            ),
            Json::Object(entries) => JsonTree::Object(
                Seq::new(
                    entries@.len(),
                    |i: int|
                        if 0 <= i < entries@.len() {
                            (entries@[i].0@, entries@[i].1.tree())
                        } else {
                            (Seq::empty(), JsonTree::Null)
                        },
                ),
            ),
        }
    }

    /// The field of an object.
    pub fn get(&self, key: &str) -> (r: Option<&Json>)
        ensures
            match r {
                Some(value) => self@.get(key@) == Some(value@),
                None => self@.get(key@) is None,
            },
    {
        match self {
            Json::Object(entries) => {
                let ghost all = self@->Object_0;
                assert(all.skip(0) =~= all);
                let mut i: usize = 0;
                while i < entries.len()
                    invariant
                        i <= entries@.len(),
                        self == Json::Object(*entries),
                        all == self@->Object_0,
                        self@ is Object,
                        all.len() == entries@.len(),
                        entry(all, key@) == entry(all.skip(i as int), key@),
                    decreases entries@.len() - i,
                {
                    assert(all[i as int] == (entries@[i as int].0@, entries@[i as int].1@));
                    if same(entries[i].0.as_str(), key) {
                        return Some(&entries[i].1);
                    }
                    assert(all.skip(i as int).skip(1) =~= all.skip(i + 1));
                    i += 1;
                }
                None
            },
            _ => None,
        }
    }

    /// The text of a field, where the field holds one.
    pub fn text_field(&self, key: &str) -> (r: Option<&str>)
        ensures
            match r {
                Some(s) => self@.text_field(key@) == Some(s@),
                None => self@.text_field(key@) is None,
            },
    {
        match self.get(key) {
            Some(Json::Text(s)) => Some(s.as_str()),
            _ => None,
        }
    }

    /// The whole number of a field, where the field holds one.
    pub fn u64_field(&self, key: &str) -> (r: Option<u64>)
        ensures
            r == self@.u64_field(key@),
    {
        match self.get(key) {
            Some(Json::Number(n)) => *n,
            _ => None,
        }
    }

    /// The truth value of a field, where the field holds one.
    pub fn bool_field(&self, key: &str) -> (r: Option<bool>)
        ensures
            r == self@.bool_field(key@),
    {
        match self.get(key) {
            Some(Json::Bool(b)) => Some(*b),
            _ => None,
        }
    }

    /// The items of a field, where the field holds an array.
    pub fn array_field(&self, key: &str) -> (r: Option<&Vec<Json>>)
        ensures
            match r {
                Some(items) => self@.array_field(key@) == Some(trees(items@)),
                None => self@.array_field(key@) is None,
            },
    {
        match self.get(key) {
            Some(value) => {
                match value {
                    Json::Array(items) => {
                        assert(value@->Array_0 =~= trees(items@));
                        Some(items)
                    },
                    _ => None,
                }
            },
            _ => None,
        }
    }
}

/// A value of the `serde_json` crate.
#[verifier::external_type_specification]
#[verifier::external_body]
pub struct ExValue(serde_json::Value);

/// The content of a `serde_json` value.
pub uninterp spec fn json_contents(value: serde_json::Value) -> JsonTree;

/// What `serde_json::from_str` makes of a text: a value, or the message of its
/// error.
pub uninterp spec fn json_of_text(text: Seq<char>) -> Result<JsonTree, Seq<char>>;

/// What `serde_json::from_slice` makes of bytes: a value, or nothing where it
/// gives an error.
pub uninterp spec fn json_of_bytes(bytes: Seq<u8>) -> Option<JsonTree>;

/// One layer of a `serde_json` value.
enum Layer {
    Null,
    Bool(bool),
    Number(Option<u64>),
    Text(String),
    Array(Vec<serde_json::Value>),
    Object(Vec<(String, serde_json::Value)>),
}

/// The content of a layer.
spec fn layer_tree(layer: Layer) -> JsonTree {
    match layer {
        Layer::Null => JsonTree::Null,
        Layer::Bool(b) => JsonTree::Bool(b),
        Layer::Number(n) => JsonTree::Number(n),
        Layer::Text(s) => JsonTree::Text(s@),
        Layer::Array(items) => JsonTree::Array(
            items@.map_values(|item: serde_json::Value| json_contents(item)),
        ),
        Layer::Object(entries) => JsonTree::Object(
            entries@.map_values(|e: (String, serde_json::Value)| (e.0@, json_contents(e.1))),
        ),
    }
}

/// The variants of `serde_json::Value`, taken apart one layer deep: what an
/// array or an object holds comes out in the order in which the value holds it,
/// and a number as `serde_json::Number::as_u64` gives it.
#[verifier::external_body]
fn take_apart(value: serde_json::Value) -> (r: Layer)
    ensures
        layer_tree(r) == json_contents(value),
{
    match value {
        serde_json::Value::Null => Layer::Null,
        serde_json::Value::Bool(b) => Layer::Bool(b),
        serde_json::Value::Number(n) => Layer::Number(n.as_u64()),
        serde_json::Value::String(s) => Layer::Text(s),
        serde_json::Value::Array(items) => Layer::Array(items),
        serde_json::Value::Object(entries) => Layer::Object(entries.into_iter().collect()),
    }
}

/// `serde_json::from_str`, for a value of any shape; of its error only the
/// message is kept.
#[verifier::external_body]
fn value_of_text(text: &str) -> (r: Result<serde_json::Value, String>)
    ensures
        match r {
            Ok(value) => json_of_text(text@) == Ok::<JsonTree, Seq<char>>(json_contents(value)),
            Err(message) => json_of_text(text@) == Err::<JsonTree, Seq<char>>(message@),
        },
{
    serde_json::from_str(text).map_err(|e| e.to_string())
}

/// `serde_json::from_slice`, for a value of any shape; its error is dropped.
#[verifier::external_body]
fn value_of_bytes(bytes: &[u8]) -> (r: Option<serde_json::Value>)
    ensures
        match r {
            Some(value) => json_of_bytes(bytes@) == Some(json_contents(value)),
            None => json_of_bytes(bytes@) is None,
        },
{
    serde_json::from_slice(bytes).ok()
}

/// The `serde_json` value as one of this library.
fn convert(value: serde_json::Value) -> (r: Json)
    ensures
        r@ == json_contents(value),
    decreases json_contents(value),
{
    let layer: Layer = take_apart(value);
    match layer {
        Layer::Null => Json::Null,
        Layer::Bool(b) => Json::Bool(b),
        Layer::Number(n) => Json::Number(n),
        Layer::Text(s) => Json::Text(s),
        Layer::Array(items) => {
            let ghost all = items@;
            let ghost tree = json_contents(value)->Array_0;
            let mut out: Vec<Json> = Vec::new();
            for item in it: items
                invariant
                    it.seq() == all,
                    tree == all.map_values(|item: serde_json::Value| json_contents(item)),
                    json_contents(value) == JsonTree::Array(tree),
                    out@.len() == it.index(),
                    forall|j: int| 0 <= j < it.index() ==> (#[trigger] out@[j])@ == tree[j],
            {
                assert(tree[it.index() as int] == json_contents(item));
                assert(decreases_to!(json_contents(value) => json_contents(value)->Array_0));
                assert(decreases_to!(tree => tree[it.index() as int]));
                out.push(convert(item));
            }
            let json: Json = Json::Array(out);
            assert(json@->Array_0 =~= tree);
            json
        },
        Layer::Object(entries) => {
            let ghost all = entries@;
            let ghost tree = json_contents(value)->Object_0;
            let mut out: Vec<(String, Json)> = Vec::new();
            for item in it: entries
                invariant
                    it.seq() == all,
                    tree == all.map_values(
                        |e: (String, serde_json::Value)| (e.0@, json_contents(e.1)),
                    ),
                    json_contents(value) == JsonTree::Object(tree),
                    out@.len() == it.index(),
                    forall|j: int|
                        0 <= j < it.index() ==> (#[trigger] out@[j].0@, out@[j].1@) == tree[j],
            {
                assert(tree[it.index() as int] == (item.0@, json_contents(item.1)));
                assert(decreases_to!(json_contents(value) => json_contents(value)->Object_0));
                assert(decreases_to!(tree => tree[it.index() as int]));
                assert(decreases_to!(tree[it.index() as int] => tree[it.index() as int].1));
                out.push((item.0, convert(item.1)));
            }
            let json: Json = Json::Object(out);
            assert(json@->Object_0 =~= tree);
            json
        },
    }
}

/// Reads a JSON value from a text; the message of the error where it holds
/// none.
pub fn parse_text(text: &str) -> (r: Result<Json, String>)
    ensures
        match r {
            Ok(json) => json_of_text(text@) == Ok::<JsonTree, Seq<char>>(json@),
            Err(message) => json_of_text(text@) == Err::<JsonTree, Seq<char>>(message@),
        },
{
    match value_of_text(text) {
        Ok(value) => Ok(convert(value)),
        Err(message) => Err(message),
    }
}

/// Reads a JSON value from bytes.
pub fn parse_bytes(bytes: &[u8]) -> (r: Option<Json>)
    ensures
        match r {
            Some(json) => json_of_bytes(bytes@) == Some(json@),
            None => json_of_bytes(bytes@) is None,
        },
{
    match value_of_bytes(bytes) {
        Some(value) => Some(convert(value)),
        None => None,
    }
}

/// The field of an object is the value of the first entry of that name; there is
/// none only where no entry has the name, or where the value is no object.
pub proof fn law_fields_go_by_name(tree: JsonTree, key: Seq<char>)
    ensures
        tree.get(key) matches Some(value) ==> {
            &&& tree matches JsonTree::Object(entries)
            &&& exists|i: int|
                0 <= i < entries.len() && (#[trigger] entries[i]).0 == key && entries[i].1 == value
                    && forall|j: int| 0 <= j < i ==> (#[trigger] entries[j]).0 != key
        },
        tree.get(key) is None ==> (tree matches JsonTree::Object(entries) ==> forall|i: int|
            0 <= i < entries.len() ==> (#[trigger] entries[i]).0 != key),
{
    if let JsonTree::Object(entries) = tree {
        lemma_entry(entries, key);
    }
}

proof fn lemma_entry(entries: Seq<(Seq<char>, JsonTree)>, key: Seq<char>)
    ensures
        entry(entries, key) matches Some(value) ==> exists|i: int|
            0 <= i < entries.len() && (#[trigger] entries[i]).0 == key && entries[i].1 == value
                && forall|j: int| 0 <= j < i ==> (#[trigger] entries[j]).0 != key,
        entry(entries, key) is None ==> forall|i: int|
            0 <= i < entries.len() ==> (#[trigger] entries[i]).0 != key,
    decreases entries.len(),
{
    if entries.len() > 0 {
        let rest = entries.skip(1);
        if entries[0].0 == key {
            assert(entries[0].1 == entry(entries, key)->0);
        } else {
            lemma_entry(rest, key);
            if let Some(value) = entry(rest, key) {
                let i = choose|i: int|
                    0 <= i < rest.len() && (#[trigger] rest[i]).0 == key && rest[i].1 == value
                        && forall|j: int| 0 <= j < i ==> (#[trigger] rest[j]).0 != key;
                assert(entries[i + 1] == rest[i]);
                assert forall|j: int| 0 <= j < i + 1 implies (#[trigger] entries[j]).0 != key by {
                    if j > 0 {
                        assert(rest[j - 1] == entries[j]);
                    }
                }
            } else {
                assert forall|i: int| 0 <= i < entries.len() implies (#[trigger] entries[i]).0
                    != key by {
                    if i > 0 {
                        assert(rest[i - 1] == entries[i]);
                    }
                }
            }
        }
    }
}

/// A field is a text, a whole number, a truth value or a list only where it holds
/// one, and is then just that.
pub proof fn law_fields_go_by_kind(tree: JsonTree, key: Seq<char>)
    ensures
        tree.get(key) is None ==> tree.text_field(key) is None && tree.u64_field(key) is None
            && tree.bool_field(key) is None && tree.array_field(key) is None,
        tree.get(key) matches Some(value) ==> {
            &&& tree.text_field(key) is Some <==> value is Text
            &&& value matches JsonTree::Text(s) ==> tree.text_field(key) == Some(s)
            &&& tree.bool_field(key) is Some <==> value is Bool
            &&& value matches JsonTree::Bool(b) ==> tree.bool_field(key) == Some(b)
            &&& tree.array_field(key) is Some <==> value is Array
            &&& value matches JsonTree::Array(items) ==> tree.array_field(key) == Some(items)
            &&& value matches JsonTree::Number(n) ==> tree.u64_field(key) == n
            &&& !(value is Number) ==> tree.u64_field(key) is None
        },
{
}

/// The content of a JSON value is that of what it holds, kind for kind, item for
/// item and entry for entry.
pub proof fn law_values_show_their_content(value: Json)
    ensures
        value is Null ==> value@ is Null,
        value matches Json::Bool(b) ==> value@ == JsonTree::Bool(b),
        value matches Json::Number(n) ==> value@ == JsonTree::Number(n),
        value matches Json::Text(s) ==> value@ == JsonTree::Text(s@),
        value matches Json::Array(items) ==> {
            &&& value@ matches JsonTree::Array(trees)
            &&& trees.len() == items@.len()
            &&& forall|i: int| 0 <= i < items@.len() ==> #[trigger] trees[i] == items@[i]@
        },
        value matches Json::Object(entries) ==> {
            &&& value@ matches JsonTree::Object(trees)
            &&& trees.len() == entries@.len()
            &&& forall|i: int|
                0 <= i < entries@.len() ==> #[trigger] trees[i] == (
                    entries@[i].0@,
                    entries@[i].1@,
                )
        },
{
}

} // verus!
