//! JSON documents as plain trees.
//!
//! Text is parsed by `serde_json`; everything the rest of the library does
//! with a document happens on the tree defined here.

use vstd::prelude::*;

verus! {

/// Mathematical form of a JSON document.
///
/// Numbers are split three ways: integers that fit `i64`, larger integers
/// that fit `u64`, and every other number (`Real`), whose value is not kept.
/// An object is the list of its fields. A document that was parsed is
/// [`canonical`]: it lists the fields in ascending order of their keys, each
/// key once.
pub enum JsonValue {
    Null,
    Bool(bool),
    Int(i64),
    UInt(u64),
    Real,
    Text(Seq<char>),
    List(Seq<JsonValue>),
    Object(Seq<(Seq<char>, JsonValue)>),
}

/// A JSON document held in memory.
#[derive(Debug)]
pub enum Json {
    Null,
    Bool(bool),
    Int(i64),
    UInt(u64),
    Real,
    Text(String),
    List(Vec<Json>),
    Object(Vec<(String, Json)>),
}

/// The mathematical form of a document held in memory.
pub open spec fn tree(doc: Json) -> JsonValue
    decreases doc,
{
    match doc {
        Json::Null => JsonValue::Null,
        Json::Bool(b) => JsonValue::Bool(b),
        Json::Int(i) => JsonValue::Int(i),
        Json::UInt(u) => JsonValue::UInt(u),
        Json::Real => JsonValue::Real,
        Json::Text(s) => JsonValue::Text(s@),
        Json::List(items) => JsonValue::List(
            Seq::new(
                items@.len(),
                |i: int|
                    if 0 <= i < items@.len() {
                        tree(items@[i])
                    } else {
                        JsonValue::Null
                    },
            ),
        ),
        Json::Object(fields) => JsonValue::Object(
            Seq::new(
                fields@.len(),
                |i: int|
                    if 0 <= i < fields@.len() {
                        (fields@[i].0@, tree(fields@[i].1))
                    } else {
                        (Seq::empty(), JsonValue::Null)
                    },
            ),
        ),
    }
}

impl View for Json {
    type V = JsonValue;

    open spec fn view(&self) -> JsonValue {
        tree(*self)
    }
}

/// The value stored under `key` in a list of object fields: that of the
/// first field with this key.
pub open spec fn lookup(fields: Seq<(Seq<char>, JsonValue)>, key: Seq<char>) -> Option<JsonValue>
    decreases fields.len(),
{
    if fields.len() == 0 {
        None
    } else if fields[0].0 == key {
        Some(fields[0].1)
    } else {
        lookup(fields.drop_first(), key)
    }
}

/// The value under a key is that of the field at `at` if that field has the
/// key and none before it has.
pub proof fn lemma_lookup_at(fields: Seq<(Seq<char>, JsonValue)>, key: Seq<char>, at: int)
    requires
        0 <= at < fields.len(),
        fields[at].0 == key,
        forall|j: int| 0 <= j < at ==> (#[trigger] fields[j]).0 != key,
    ensures
        lookup(fields, key) == Some(fields[at].1),
    decreases at,
{
    if at > 0 {
        let rest = fields.drop_first();
        assert(rest[at - 1] == fields[at]);
        assert forall|j: int| 0 <= j < at - 1 implies (#[trigger] rest[j]).0 != key by {
            assert(rest[j] == fields[j + 1]);
        }
        lemma_lookup_at(rest, key, at - 1);
    }
}

/// There is no value under a key that no field has.
pub proof fn lemma_lookup_none(fields: Seq<(Seq<char>, JsonValue)>, key: Seq<char>)
    requires
        forall|j: int| 0 <= j < fields.len() ==> (#[trigger] fields[j]).0 != key,
    ensures
        lookup(fields, key) is None,
    decreases fields.len(),
{
    if fields.len() > 0 {
        let rest = fields.drop_first();
        assert forall|j: int| 0 <= j < rest.len() implies (#[trigger] rest[j]).0 != key by {
            assert(rest[j] == fields[j + 1]);
        }
        lemma_lookup_none(rest, key);
    }
}

impl JsonValue {
    /// The member `key` of an object; `None` for a missing member and for a
    /// document that is not an object.
    pub open spec fn member(self, key: Seq<char>) -> Option<JsonValue> {
        match self {
            JsonValue::Object(fields) => lookup(fields, key),
            _ => None,
        }
    }

    /// The member `key`, with an explicit `null` counted as absent.
    pub open spec fn present(self, key: Seq<char>) -> Option<JsonValue> {
        match self.member(key) {
            Some(JsonValue::Null) => None,
            other => other,
        }
    }

    /// The integer this document stands for, if it is one that fits `i64`.
    pub open spec fn as_i64(self) -> Option<i64> {
        match self {
            JsonValue::Int(i) => Some(i),
            _ => None,
        }
    }

    /// The integer this document stands for, if it is one that fits `u64`.
    pub open spec fn as_u64(self) -> Option<u64> {
        match self {
            JsonValue::Int(i) => if i >= 0 {
                Some(i as u64)
            } else {
                None
            },
            JsonValue::UInt(u) => Some(u),
            _ => None,
        }
    }

    /// The text this document stands for, if it is a string.
    pub open spec fn as_text(self) -> Option<Seq<char>> {
        match self {
            JsonValue::Text(s) => Some(s),
            _ => None,
        }
    }
}

/// Every item of `items` is an integer that fits `i64`.
pub open spec fn all_i64(items: Seq<JsonValue>) -> bool {
    forall|i: int| 0 <= i < items.len() ==> (#[trigger] items[i]).as_i64() is Some
}

/// Every item of `items` is a string.
pub open spec fn all_text(items: Seq<JsonValue>) -> bool {
    forall|i: int| 0 <= i < items.len() ==> (#[trigger] items[i]).as_text() is Some
}

/// An array of integers read as a sequence of `i64`; `None` if the document
/// is not an array or one of its items is something else.
pub open spec fn i64_list(doc: JsonValue) -> Option<Seq<i64>> {
    match doc {
        JsonValue::List(items) => if all_i64(items) {
            Some(Seq::new(items.len(), |i: int| items[i].as_i64().unwrap()))
        } else {
            None
        },
        _ => None,
    }
}

/// An array of strings read as a sequence of texts; `None` if the document is
/// not an array or one of its items is something else.
pub open spec fn text_list(doc: JsonValue) -> Option<Seq<Seq<char>>> {
    match doc {
        JsonValue::List(items) => if all_text(items) {
            Some(Seq::new(items.len(), |i: int| items[i].as_text().unwrap()))
        } else {
            None
        },
        _ => None,
    }
}

impl Json {
    /// Looks up the member `key` of an object.
    pub fn member(&self, key: &str) -> (found: Option<&Json>)
        ensures
            match found {
                Some(doc) => self@.member(key@) == Some(doc@),
                None => self@.member(key@) is None,
            },
    {
        match self {
            Json::Object(fields) => {
                let wanted = key.to_owned();
                let ghost all = self@->Object_0;
                assert(all.skip(0) == all);
                let mut i: usize = 0;
                while i < fields.len()
                    invariant
                        0 <= i <= fields.len(),
                        wanted@ == key@,
                        self@ == JsonValue::Object(all),
                        all.len() == fields@.len(),
                        forall|j: int|
                            0 <= j < fields@.len() ==> all[j] == (fields@[j].0@, fields@[j].1@),
                        lookup(all, key@) == lookup(all.skip(i as int), key@),
                    decreases fields.len() - i,
                {
                    proof {
                        let rest = all.skip(i as int);
                        assert(rest[0] == all[i as int]);
                        assert(rest.drop_first() == all.skip(i + 1));
                    }
                    if fields[i].0 == wanted {
                        return Some(&fields[i].1);
                    }
                    i += 1;
                }
                None
            },
            _ => None,
        }
    }

    /// Looks up the member `key` of an object and treats `null` as absent.
    pub fn present(&self, key: &str) -> (found: Option<&Json>)
        ensures
            match found {
                Some(doc) => self@.present(key@) == Some(doc@),
                None => self@.present(key@) is None,
            },
    {
        match self.member(key) {
            Some(Json::Null) => None,
            other => other,
        }
    }

    /// Reads the document as an integer that fits `i64`.
    pub fn as_i64(&self) -> (out: Option<i64>)
        ensures
            out == self@.as_i64(),
    {
        match self {
            Json::Int(i) => Some(*i),
            _ => None,
        }
    }

    /// Reads the document as an integer that fits `u64`.
    pub fn as_u64(&self) -> (out: Option<u64>)
        ensures
            out == self@.as_u64(),
    {
        match self {
            Json::Int(i) => if *i >= 0 {
                Some(*i as u64)
            } else {
                None
            },
            Json::UInt(u) => Some(*u),
            _ => None,
        }
    }

    /// Reads the document as a string.
    pub fn as_text(&self) -> (out: Option<&String>)
        ensures
            match out {
                Some(s) => self@.as_text() == Some(s@),
                None => self@.as_text() is None,
            },
    {
        match self {
            Json::Text(s) => Some(s),
            _ => None,
        }
    }

    /// Reads the document as an array of integers.
    pub fn as_i64_list(&self) -> (out: Option<Vec<i64>>)
        ensures
            match out {
                Some(ids) => i64_list(self@) == Some(ids@),
                None => i64_list(self@) is None,
            },
    {
        match self {
            Json::List(items) => {
                let ghost all = self@->List_0;
                assert(*self == Json::List(*items));
                assert(self@ is List);
                assert(Json::List(*items)@->List_0.len() == items@.len());
                assert(all.len() == items@.len());
                let mut ids: Vec<i64> = Vec::new();
                let mut i: usize = 0;
                while i < items.len()
                    invariant
                        0 <= i <= items.len(),
                        self@ == JsonValue::List(all),
                        all.len() == items@.len(),
                        forall|j: int| 0 <= j < items@.len() ==> all[j] == items@[j]@,
                        ids@.len() == i,
                        forall|j: int| 0 <= j < i ==> (#[trigger] all[j]).as_i64() == Some(ids@[j]),
                    decreases items.len() - i,
                {
                    match items[i].as_i64() {
                        Some(id) => ids.push(id),
                        None => {
                            assert(all[i as int].as_i64() is None);
                            return None;
                        },
                    }
                    i += 1;
                }
                assert(all_i64(all));
                assert(ids@ =~= Seq::new(all.len(), |j: int| all[j].as_i64().unwrap()));
                Some(ids)
            },
            _ => None,
        }
    }

    /// Reads the document as an array of strings.
    pub fn as_text_list(&self) -> (out: Option<Vec<String>>)
        ensures
            match out {
                Some(texts) => text_list(self@) == Some(texts@.map_values(|s: String| s@)),
                None => text_list(self@) is None,
            },
    {
        match self {
            Json::List(items) => {
                let ghost all = self@->List_0;
                let mut texts: Vec<String> = Vec::new();
                let mut i: usize = 0;
                while i < items.len()
                    invariant
                        0 <= i <= items.len(),
                        self@ == JsonValue::List(all),
                        all.len() == items@.len(),
                        forall|j: int| 0 <= j < items@.len() ==> all[j] == items@[j]@,
                        texts@.len() == i,
                        forall|j: int|
                            0 <= j < i ==> (#[trigger] all[j]).as_text() == Some(texts@[j]@),
                    decreases items.len() - i,
                {
                    match items[i].as_text() {
                        Some(s) => texts.push(s.clone()),
                        None => {
                            assert(all[i as int].as_text() is None);
                            return None;
                        },
                    }
                    i += 1;
                }
                assert(all_text(all));
                assert(texts@.map_values(|s: String| s@) =~= Seq::new(
                    all.len(),
                    |j: int| all[j].as_text().unwrap(),
                ));
                Some(texts)
            },
            _ => None,
        }
    }
}

impl Json {
    /// Whether two documents are the same document.
    pub fn same(&self, other: &Json) -> (yes: bool)
        ensures
            yes == (self@ == other@),
        decreases self,
    {
        match (self, other) {
            (Json::Null, Json::Null) => true,
            (Json::Bool(a), Json::Bool(b)) => *a == *b,
            (Json::Int(a), Json::Int(b)) => *a == *b,
            (Json::UInt(a), Json::UInt(b)) => *a == *b,
            (Json::Real, Json::Real) => true,
            (Json::Text(a), Json::Text(b)) => *a == *b,
            (Json::List(a), Json::List(b)) => {
                let ghost left = self@->List_0;
                let ghost right = other@->List_0;
                if a.len() != b.len() {
                    assert(left.len() != right.len());
                    return false;
                }
                let mut i: usize = 0;
                while i < a.len()
                    invariant
                        0 <= i <= a.len(),
                        a.len() == b.len(),
                        *self == Json::List(*a),
                        *other == Json::List(*b),
                        self@ == JsonValue::List(left),
                        other@ == JsonValue::List(right),
                        left.len() == a@.len(),
                        right.len() == b@.len(),
                        forall|j: int| 0 <= j < a@.len() ==> left[j] == a@[j]@,
                        forall|j: int| 0 <= j < b@.len() ==> right[j] == b@[j]@,
                        forall|j: int| 0 <= j < i ==> left[j] == right[j],
                    decreases a.len() - i,
                {
                    if !a[i].same(&b[i]) {
                        assert(left[i as int] != right[i as int]);
                        return false;
                    }
                    i += 1;
                }
                assert(left =~= right);
                true
            },
            (Json::Object(a), Json::Object(b)) => {
                let ghost left = self@->Object_0;
                let ghost right = other@->Object_0;
                if a.len() != b.len() {
                    assert(left.len() != right.len());
                    return false;
                }
                let mut i: usize = 0;
                while i < a.len()
                    invariant
                        0 <= i <= a.len(),
                        a.len() == b.len(),
                        *self == Json::Object(*a),
                        *other == Json::Object(*b),
                        self@ == JsonValue::Object(left),
                        other@ == JsonValue::Object(right),
                        left.len() == a@.len(),
                        right.len() == b@.len(),
                        forall|j: int| 0 <= j < a@.len() ==> left[j] == (a@[j].0@, a@[j].1@),
                        forall|j: int| 0 <= j < b@.len() ==> right[j] == (b@[j].0@, b@[j].1@),
                        forall|j: int| 0 <= j < i ==> left[j] == right[j],
                    decreases a.len() - i,
                {
                    if !(a[i].0 == b[i].0) || !a[i].1.same(&b[i].1) {
                        assert(left[i as int] != right[i as int]);
                        return false;
                    }
                    i += 1;
                }
                assert(left =~= right);
                true
            },
            _ => false,
        }
    }
}

/// What `serde_json` makes of a text: the document it stands for, or `None`
/// where the text is not one JSON document.
pub uninterp spec fn json_document(text: Seq<char>) -> Option<JsonValue>;

/// The tree that a `serde_json::Value` holds.
pub uninterp spec fn value_tree(value: serde_json::Value) -> JsonValue;

/// `serde_json::Value`, made known by name. What a value holds is told by
/// `value_tree` alone.
#[verifier::external_type_specification]
#[verifier::external_body]
pub struct ExValue(serde_json::Value);

/// Parses `text` with `serde_json::from_str`. Trusted: the outcome depends on
/// the text alone, which is all that naming it `json_document` claims.
#[verifier::external_body]
pub(crate) fn parse_value(text: &str) -> (out: Option<serde_json::Value>)
    ensures
        match out {
            Some(value) => json_document(text@) == Some(value_tree(value)),
            None => json_document(text@) is None,
        },
{
    serde_json::from_str::<serde_json::Value>(text).ok()
}

/// Copies a `serde_json::Value` into a [`Json`] tree, variant by variant.
/// Trusted: a number becomes `Int` where `as_i64` gives one, else `UInt`
/// where `as_u64` gives one, else `Real`; object fields come in the order in
/// which the map hands them out, which is ascending by key.
#[verifier::external_body]
pub(crate) fn tree_of_value(value: &serde_json::Value) -> (out: Json)
    ensures
        out@ == value_tree(*value),
{
    match value {
        serde_json::Value::Null => Json::Null,
        serde_json::Value::Bool(b) => Json::Bool(*b),
        serde_json::Value::Number(n) => match (n.as_i64(), n.as_u64()) {
            (Some(i), _) => Json::Int(i),
            (None, Some(u)) => Json::UInt(u),
            (None, None) => Json::Real,
        },
        serde_json::Value::String(s) => Json::Text(s.clone()),
        serde_json::Value::Array(items) => Json::List(items.iter().map(tree_of_value).collect()),
        serde_json::Value::Object(fields) => Json::Object(
            fields.iter().map(|(k, v)| (k.clone(), tree_of_value(v))).collect(),
        ),
    }
}

/// Whether a document holds every number it contains: no `Real` anywhere.
pub open spec fn exact(doc: JsonValue) -> bool
    decreases doc,
{
    match doc {
        JsonValue::Real => false,
        JsonValue::List(items) => forall|i: int|
            0 <= i < items.len() ==> exact(#[trigger] items[i]),
        JsonValue::Object(fields) => forall|i: int|
            0 <= i < fields.len() ==> exact((#[trigger] fields[i]).1),
        _ => true,
    }
}

/// Whether the text `a` comes before the text `b`: at the first place where
/// they differ `a` has the smaller character, or `a` ends there and `b` does
/// not. This is the order in which the keys of an object are kept.
pub open spec fn text_before(a: Seq<char>, b: Seq<char>) -> bool
    decreases a.len(),
{
    if b.len() == 0 {
        false
    } else if a.len() == 0 {
        true
    } else if a[0] != b[0] {
        (a[0] as u32) < (b[0] as u32)
    } else {
        text_before(a.drop_first(), b.drop_first())
    }
}

/// Whether a document is written the one way in which a parsed document is:
/// an integer that fits `i64` is an `Int`, and the fields of every object are
/// in ascending order of their keys, each key once.
pub open spec fn canonical(doc: JsonValue) -> bool
    decreases doc,
{
    match doc {
        JsonValue::UInt(u) => u > i64::MAX,
        JsonValue::List(items) => forall|i: int|
            0 <= i < items.len() ==> canonical(#[trigger] items[i]),
        JsonValue::Object(fields) => (forall|i: int|
            0 <= i < fields.len() ==> canonical((#[trigger] fields[i]).1)) && (forall|i: int|
            0 <= i < fields.len() - 1 ==> text_before(
                (#[trigger] fields[i]).0,
                fields[i + 1].0,
            )),
        _ => true,
    }
}

/// Copies a [`Json`] tree into a `serde_json::Value`, variant by variant:
/// integers with `Value::from`, the fields of an object into its map, and
/// `null` for a `Real`, which holds no number to copy. Trusted: the value
/// holds the tree it was made of, if the tree is `exact` and `canonical`,
/// for a `Value` keeps integers and fields in that one way. Of any other
/// tree nothing is taken on trust: `to_value` holds the value against it.
#[verifier::external_body]
fn value_of_tree(doc: &Json) -> (value: serde_json::Value)
    ensures
        exact(doc@) && canonical(doc@) ==> value_tree(value) == doc@,
{
    match doc {
        Json::Null | Json::Real => serde_json::Value::Null,
        Json::Bool(b) => serde_json::Value::Bool(*b),
        Json::Int(i) => serde_json::Value::from(*i),
        Json::UInt(u) => serde_json::Value::from(*u),
        Json::Text(s) => serde_json::Value::String(s.clone()),
        Json::List(items) => serde_json::Value::Array(items.iter().map(value_of_tree).collect()),
        Json::Object(fields) => serde_json::Value::Object(
            fields.iter().map(|(k, v)| (k.clone(), value_of_tree(v))).collect(),
        ),
    }
}

/// Copies a document into a `serde_json::Value`, and makes sure that the
/// value holds the document. This works for every document that is `exact`
/// and `canonical`. Of another one the value may hold something else, for a
/// value has no place for a `Real` and keeps its fields in order; then the
/// answer is `None`.
pub(crate) fn to_value(doc: &Json) -> (out: Option<serde_json::Value>)
    ensures
        out matches Some(value) ==> value_tree(value) == doc@,
        exact(doc@) && canonical(doc@) ==> out is Some,
{
    let value = value_of_tree(doc);
    if tree_of_value(&value).same(doc) {
        Some(value)
    } else {
        None
    }
}

/// The text that `serde_json` writes for a document without a `Real`, or
/// `None` where it writes none.
pub uninterp spec fn json_text(doc: JsonValue) -> Option<Seq<char>>;

/// The view of an optional owned string.
pub open spec fn text_view(text: Option<String>) -> Option<Seq<char>> {
    match text {
        Some(text) => Some(text@),
        None => None,
    }
}

/// Writes a value as text with `serde_json::to_string`. Trusted: the text
/// depends on the value alone, and a value without a `Real` is all in its
/// tree. That the text stands for the value is not taken on trust: whoever
/// needs that reads the text back.
#[verifier::external_body]
fn write_value(value: &serde_json::Value) -> (out: Option<String>)
    ensures
        exact(value_tree(*value)) ==> text_view(out) == json_text(value_tree(*value)),
{
    serde_json::to_string(value).ok()
}

/// What writing a document and reading the text back gives: the text, if it
/// stands for the document again.
pub open spec fn rendered(doc: JsonValue) -> Option<Seq<char>> {
    match json_text(doc) {
        Some(text) => if json_document(text) == Some(doc) {
            Some(text)
        } else {
            None
        },
        None => None,
    }
}

/// Writes a document as text, and makes sure that the text reads back as the
/// document. `None` if it does not.
pub fn render(doc: &Json) -> (out: Option<String>)
    ensures
        out matches Some(text) ==> json_document(text@) == Some(doc@),
        exact(doc@) && canonical(doc@) ==> text_view(out) == rendered(doc@),
{
    let text = match write_value(&value_of_tree(doc)) {
        Some(text) => text,
        None => return None,
    };
    match parse_json(text.as_str()) {
        Some(back) => if back.same(doc) {
            Some(text)
        } else {
            None
        },
        None => None,
    }
}

/// An array of integers as a document.
pub open spec fn ids_doc(ids: Seq<i64>) -> JsonValue {
    JsonValue::List(Seq::new(ids.len(), |i: int| JsonValue::Int(ids[i])))
}

/// An array of strings as a document.
pub open spec fn texts_doc(items: Seq<Seq<char>>) -> JsonValue {
    JsonValue::List(Seq::new(items.len(), |i: int| JsonValue::Text(items[i])))
}

/// An optional string as a document: `null` for none.
pub open spec fn optional_text_doc(text: Option<Seq<char>>) -> JsonValue {
    match text {
        Some(text) => JsonValue::Text(text),
        None => JsonValue::Null,
    }
}

/// Arrays of integers and of strings read back as what they were made of,
/// and are written the way a parsed document is.
pub proof fn lemma_lists_read_back(ids: Seq<i64>, items: Seq<Seq<char>>)
    ensures
        i64_list(ids_doc(ids)) == Some(ids),
        text_list(texts_doc(items)) == Some(items),
        exact(ids_doc(ids)),
        canonical(ids_doc(ids)),
        exact(texts_doc(items)),
        canonical(texts_doc(items)),
{
    let a = ids_doc(ids)->List_0;
    let b = texts_doc(items)->List_0;
    assert(all_i64(a));
    assert(all_text(b));
    assert(Seq::new(a.len(), |i: int| a[i].as_i64().unwrap()) =~= ids);
    assert(Seq::new(b.len(), |i: int| b[i].as_text().unwrap()) =~= items);
    reveal_with_fuel(exact, 2);
    reveal_with_fuel(canonical, 2);
    assert forall|i: int| 0 <= i < a.len() implies exact(#[trigger] a[i]) && canonical(a[i]) by {}
    assert forall|i: int| 0 <= i < b.len() implies exact(#[trigger] b[i]) && canonical(b[i]) by {}
}

impl Json {
    /// An array of integers as a document.
    pub fn of_ids(ids: &Vec<i64>) -> (out: Json)
        ensures
            out@ == ids_doc(ids@),
    {
        let mut items: Vec<Json> = Vec::new();
        let mut i: usize = 0;
        while i < ids.len()
            invariant
                0 <= i <= ids.len(),
                items@.len() == i,
                forall|j: int| 0 <= j < i ==> (#[trigger] items@[j])@ == JsonValue::Int(ids@[j]),
            decreases ids.len() - i,
        {
            items.push(Json::Int(ids[i]));
            i += 1;
        }
        let out = Json::List(items);
        assert(out@->List_0 =~= ids_doc(ids@)->List_0);
        out
    }

    /// An array of strings as a document.
    pub fn of_texts(texts: &Vec<String>) -> (out: Json)
        ensures
            out@ == texts_doc(crate::text::texts(texts@)),
    {
        let mut items: Vec<Json> = Vec::new();
        let mut i: usize = 0;
        while i < texts.len()
            invariant
                0 <= i <= texts.len(),
                items@.len() == i,
                forall|j: int|
                    0 <= j < i ==> (#[trigger] items@[j])@ == JsonValue::Text(texts@[j]@),
            decreases texts.len() - i,
        {
            items.push(Json::Text(texts[i].clone()));
            i += 1;
        }
        let out = Json::List(items);
        assert(out@->List_0 =~= texts_doc(crate::text::texts(texts@))->List_0);
        out
    }

    /// An optional string as a document.
    pub fn of_optional_text(text: &Option<String>) -> (out: Json)
        ensures
            out@ == optional_text_doc(
                match text {
                    Some(text) => Some(text@),
                    None => None,
                },
            ),
    {
        match text {
            Some(text) => Json::Text(text.clone()),
            None => Json::Null,
        }
    }
}

/// Parses a text into a document tree.
pub fn parse_json(text: &str) -> (out: Option<Json>)
    ensures
        match out {
            Some(doc) => json_document(text@) == Some(doc@),
            None => json_document(text@) is None,
        },
{
    match parse_value(text) {
        Some(value) => Some(tree_of_value(&value)),
        None => None,
    }
}

} // verus!
