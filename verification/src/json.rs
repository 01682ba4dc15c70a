//! JSON documents: the tree that the parser hands out, the value tree that
//! callers get, and the decoding from the one to the other.
//!
//! Parsing is `serde_json`'s. Decoding prefers integers: a number that has a
//! value as a signed 64-bit integer becomes an integer, any other number a
//! float. Arrays keep their order. An object becomes an ordered mapping in
//! which every key occurs once: a repeated key keeps its first position and
//! takes its last value.

use vstd::prelude::*;
use crate::error::ResponseError;

verus! {

/// A parsed document as a mathematical value. A number holds what the
/// parser offers for it: its value as a signed 64-bit integer, where it has
/// one, and the bits of its value as a 64-bit float, where it has one.
pub enum TreeModel {
    Null,
    Bool(bool),
    Number(Option<i64>, Option<u64>),
    Text(Seq<char>),
    Array(Seq<TreeModel>),
    Object(Seq<(Seq<char>, TreeModel)>),
}

/// A decoded value as a mathematical value. A float is held by its bits.
pub enum ValueModel {
    Null,
    Boolean(bool),
    Integer(i64),
    Float(u64),
    String(Seq<char>),
    Sequence(Seq<ValueModel>),
    Mapping(Seq<(Seq<char>, ValueModel)>),
}

/// A parsed document.
#[derive(Debug, PartialEq, Eq)]
pub enum JsonTree {
    Null,
    Bool(bool),
    Number(Option<i64>, Option<u64>),
    Text(String),
    Array(Vec<JsonTree>),
    Object(Vec<(String, JsonTree)>),
}

/// A decoded value. A float is held by the bits of its IEEE 754 form.
#[derive(Debug, PartialEq, Eq)]
pub enum JsonValue {
    Null,
    Boolean(bool),
    Integer(i64),
    Float(u64),
    String(String),
    Sequence(Vec<JsonValue>),
    Mapping(Vec<(String, JsonValue)>),
}

/// The models of a sequence of keyed values.
pub open spec fn value_entry_models(entries: Seq<(String, JsonValue)>) -> Seq<
    (Seq<char>, ValueModel),
> {
    Seq::new(entries.len(), |i: int| (entries[i].0@, entries[i].1@))
}

impl JsonTree {
    /// The document as a mathematical value.
    pub open spec fn view(&self) -> TreeModel
        decreases self,
    {
        match self {
            JsonTree::Null => TreeModel::Null,
            JsonTree::Bool(b) => TreeModel::Bool(*b),
            JsonTree::Number(i, f) => TreeModel::Number(*i, *f),
            JsonTree::Text(s) => TreeModel::Text(s@),
            JsonTree::Array(items) => TreeModel::Array(
                Seq::new(
                    items@.len(),
                    |i: int|
                        if 0 <= i < items@.len() {
                            items@[i].view()
                        } else {
                            TreeModel::Null
                        },
                ),
            ),
            JsonTree::Object(entries) => TreeModel::Object(
                Seq::new(
                    entries@.len(),
                    |i: int|
                        if 0 <= i < entries@.len() {
                            (entries@[i].0@, entries@[i].1.view())
                        } else {
                            (Seq::empty(), TreeModel::Null)
                        },
                ),
            ),
        }
    }
}

impl JsonValue {
    /// The value as a mathematical value.
    pub open spec fn view(&self) -> ValueModel
        decreases self,
    {
        match self {
            JsonValue::Null => ValueModel::Null,
            JsonValue::Boolean(b) => ValueModel::Boolean(*b),
            JsonValue::Integer(i) => ValueModel::Integer(*i),
            JsonValue::Float(f) => ValueModel::Float(*f),
            JsonValue::String(s) => ValueModel::String(s@),
            JsonValue::Sequence(items) => ValueModel::Sequence(
                Seq::new(
                    items@.len(),
                    |i: int|
                        if 0 <= i < items@.len() {
                            items@[i].view()
                        } else {
                            ValueModel::Null
                        },
                ),
            ),
            JsonValue::Mapping(entries) => ValueModel::Mapping(
                Seq::new(
                    entries@.len(),
                    |i: int|
                        if 0 <= i < entries@.len() {
                            (entries@[i].0@, entries@[i].1.view())
                        } else {
                            (Seq::empty(), ValueModel::Null)
                        },
                ),
            ),
        }
    }
}

/// Whether some entry is stored under `key`.
pub open spec fn holds(entries: Seq<(Seq<char>, ValueModel)>, key: Seq<char>) -> bool {
    exists|i: int| 0 <= i < entries.len() && (#[trigger] entries[i]).0 == key
}

/// Whether no key occurs twice.
pub open spec fn unique_keys(entries: Seq<(Seq<char>, ValueModel)>) -> bool {
    forall|i: int, j: int|
        0 <= i < j < entries.len() ==> (#[trigger] entries[i]).0 != (#[trigger] entries[j]).0
}

/// The entries after storing `value` under `key`: an entry under that key
/// takes the value where it stands, a new key goes to the end.
pub open spec fn put(entries: Seq<(Seq<char>, ValueModel)>, key: Seq<char>, value: ValueModel) -> Seq<
    (Seq<char>, ValueModel),
> {
    if holds(entries, key) {
        Seq::new(
            entries.len(),
            |i: int|
                if entries[i].0 == key {
                    (key, value)
                } else {
                    entries[i]
                },
        )
    } else {
        entries.push((key, value))
    }
}

/// The ordered mapping that storing the pairs one after the other gives.
pub open spec fn collected(pairs: Seq<(Seq<char>, ValueModel)>) -> Seq<(Seq<char>, ValueModel)>
    decreases pairs.len(),
{
    if pairs.len() == 0 {
        Seq::empty()
    } else {
        put(collected(pairs.drop_last()), pairs.last().0, pairs.last().1)
    }
}

/// What a parsed document decodes to; `None` where a number in it has no
/// value as an integer or a float.
pub open spec fn decoded(t: TreeModel) -> Option<ValueModel>
    decreases t,
{
    match t {
        TreeModel::Null => Some(ValueModel::Null),
        TreeModel::Bool(b) => Some(ValueModel::Boolean(b)),
        TreeModel::Number(Some(i), _) => Some(ValueModel::Integer(i)),
        TreeModel::Number(None, Some(f)) => Some(ValueModel::Float(f)),
        TreeModel::Number(None, None) => None,
        TreeModel::Text(s) => Some(ValueModel::String(s)),
        TreeModel::Array(items) => if forall|i: int|
            0 <= i < items.len() ==> decoded(#[trigger] items[i]) is Some {
            Some(ValueModel::Sequence(decoded_items(items)))
        } else {
            None
        },
        TreeModel::Object(entries) => if forall|i: int|
            0 <= i < entries.len() ==> decoded((#[trigger] entries[i]).1) is Some {
            Some(ValueModel::Mapping(collected(decoded_entries(entries))))
        } else {
            None
        },
    }
}

/// The decoded items of an array, in order.
pub open spec fn decoded_items(items: Seq<TreeModel>) -> Seq<ValueModel>
    decreases items,
{
    Seq::new(
        items.len(),
        |i: int|
            if 0 <= i < items.len() {
                decoded(items[i])->0
            } else {
                ValueModel::Null
            },
    )
}

/// The entries of an object with their values decoded, in order.
pub open spec fn decoded_entries(entries: Seq<(Seq<char>, TreeModel)>) -> Seq<
    (Seq<char>, ValueModel),
>
    decreases entries,
{
    Seq::new(
        entries.len(),
        |i: int|
            if 0 <= i < entries.len() {
                (entries[i].0, decoded(entries[i].1)->0)
            } else {
                (Seq::empty(), ValueModel::Null)
            },
    )
}

/// Storing keeps the keys unique.
pub proof fn lemma_put_unique(entries: Seq<(Seq<char>, ValueModel)>, key: Seq<char>, value: ValueModel)
    requires
        unique_keys(entries),
    ensures
        unique_keys(put(entries, key, value)),
{
    let after = put(entries, key, value);
    assert forall|i: int, j: int| 0 <= i < j < after.len() implies (#[trigger] after[i]).0 != (
    #[trigger] after[j]).0 by {
        if holds(entries, key) {
        } else {
            if j < entries.len() {
            } else {
            }
        }
    }
}

/// In a collected mapping every key occurs once.
pub proof fn lemma_collected_unique(pairs: Seq<(Seq<char>, ValueModel)>)
    ensures
        unique_keys(collected(pairs)),
    decreases pairs.len(),
{
    if pairs.len() > 0 {
        lemma_collected_unique(pairs.drop_last());
        lemma_put_unique(collected(pairs.drop_last()), pairs.last().0, pairs.last().1);
    }
}

/// Stores `value` under `key` in an ordered mapping.
fn put_entry(entries: &mut Vec<(String, JsonValue)>, key: String, value: JsonValue)
    requires
        unique_keys(value_entry_models(old(entries)@)),
    ensures
        value_entry_models(final(entries)@) == put(value_entry_models(old(entries)@), key@, value@),
{
    let ghost before = value_entry_models(entries@);
    let mut i: usize = 0;
    while i < entries.len() && entries[i].0 != key
        invariant
            0 <= i <= entries.len(),
            before == value_entry_models(entries@),
            forall|j: int| 0 <= j < i ==> (#[trigger] before[j]).0 != key@,
        decreases entries.len() - i,
    {
        i += 1;
    }
    if i < entries.len() {
        assert(before[i as int].0 == key@);
        entries.set(i, (key, value));
        let ghost after = value_entry_models(entries@);
        assert forall|k: int| 0 <= k < after.len() implies #[trigger] after[k] == put(
            before,
            key@,
            value@,
        )[k] by {
            assert(k == i || before[k].0 != before[i as int].0);
        }
    } else {
        entries.push((key, value));
    }
}

impl JsonValue {
    /// Decodes a parsed document into a value tree.
    pub fn from_tree(tree: &JsonTree) -> (r: Result<JsonValue, ResponseError>)
        ensures
            match r {
                Ok(value) => decoded(tree@) == Some(value@),
                Err(e) => decoded(tree@) is None && e is Value,
            },
        decreases tree,
    {
        match tree {
            JsonTree::Null => Ok(JsonValue::Null),
            JsonTree::Bool(b) => Ok(JsonValue::Boolean(*b)),
            JsonTree::Number(Some(i), _) => Ok(JsonValue::Integer(*i)),
            JsonTree::Number(None, Some(f)) => Ok(JsonValue::Float(*f)),
            JsonTree::Number(None, None) => Err(ResponseError::Value),
            JsonTree::Text(s) => Ok(JsonValue::String(s.clone())),
            JsonTree::Array(items) => {
                let ghost models = tree@->Array_0;
                let mut values: Vec<JsonValue> = Vec::new();
                let mut i: usize = 0;
                while i < items.len()
                    invariant
                        0 <= i <= items.len(),
                        *tree == JsonTree::Array(*items),
                        models == tree@->Array_0,
                        models.len() == items.len(),
                        values@.len() == i,
                        forall|j: int|
                            0 <= j < i ==> decoded(#[trigger] models[j]) == Some(values@[j]@),
                    decreases items.len() - i,
                {
                    assert(models[i as int] == items@[i as int]@);
                    match JsonValue::from_tree(&items[i]) {
                        Ok(value) => {
                            values.push(value);
                        },
                        Err(e) => {
                            return Err(e);
                        },
                    }
                    i += 1;
                }
                let value = JsonValue::Sequence(values);
                assert(decoded(tree@) == Some(value@)) by {
                    assert(decoded_items(models) =~= value@->Sequence_0);
                }
                Ok(value)
            },
            JsonTree::Object(entries) => {
                let ghost models = tree@->Object_0;
                let ghost pairs = decoded_entries(models);
                let mut mapping: Vec<(String, JsonValue)> = Vec::new();
                let mut i: usize = 0;
                while i < entries.len()
                    invariant
                        0 <= i <= entries.len(),
                        *tree == JsonTree::Object(*entries),
                        models == tree@->Object_0,
                        pairs.len() == models.len() == entries.len(),
                        forall|j: int|
                            0 <= j < models.len() ==> (#[trigger] pairs[j]) == (
                                models[j].0,
                                decoded(models[j].1)->0,
                            ),
                        forall|j: int| 0 <= j < i ==> decoded((#[trigger] models[j]).1) is Some,
                        value_entry_models(mapping@) == collected(pairs.take(i as int)),
                    decreases entries.len() - i,
                {
                    match JsonValue::from_tree(&entries[i].1) {
                        Ok(value) => {
                            proof {
                                lemma_collected_unique(pairs.take(i as int));
                                assert(pairs.take(i + 1).drop_last() =~= pairs.take(i as int));
                                assert(pairs.take(i + 1).last() == (
                                    entries@[i as int].0@,
                                    value@,
                                ));
                            }
                            put_entry(&mut mapping, entries[i].0.clone(), value);
                        },
                        Err(e) => {
                            return Err(e);
                        },
                    }
                    i += 1;
                }
                assert(pairs.take(i as int) =~= pairs);
                let ghost stored = value_entry_models(mapping@);
                let value = JsonValue::Mapping(mapping);
                assert(value@->Mapping_0 =~= stored);
                assert(decoded(tree@) == Some(ValueModel::Mapping(collected(pairs)))) by {
                    assert(forall|j: int|
                        0 <= j < models.len() ==> decoded((#[trigger] models[j]).1) is Some);
                }
                Ok(value)
            },
        }
    }
}

/// `serde_json::Value`, a document as the parser hands it out; read only
/// through `top_level`.
#[verifier::external_type_specification]
#[verifier::external_body]
pub struct ExJsonDocument(serde_json::Value);

/// `serde_json::Error`, the error of the parser; carried through unread.
#[verifier::external_type_specification]
#[verifier::external_body]
pub struct ExJsonError(serde_json::Error);

/// What `serde_json` reads from a text: the document, or `None` where the
/// text is no JSON document.
pub uninterp spec fn json_parsed(text: Seq<char>) -> Option<TreeModel>;

/// What a document of `serde_json` holds.
pub uninterp spec fn document_tree(document: serde_json::Value) -> TreeModel;

/// The top level of a document of `serde_json`, its children still unread.
pub enum Node<'a> {
    Null,
    Bool(bool),
    Number(Option<i64>, Option<u64>),
    Text(&'a String),
    Array(&'a Vec<serde_json::Value>),
    Object(Vec<(&'a String, &'a serde_json::Value)>),
}

impl<'a> Node<'a> {
    /// The tree that a top level and its children stand for.
    pub open spec fn tree(self) -> TreeModel {
        match self {
            Node::Null => TreeModel::Null,
            Node::Bool(b) => TreeModel::Bool(b),
            Node::Number(i, f) => TreeModel::Number(i, f),
            Node::Text(s) => TreeModel::Text(s@),
            Node::Array(items) => TreeModel::Array(
                Seq::new(items@.len(), |i: int| document_tree(items@[i])),
            ),
            Node::Object(entries) => TreeModel::Object(
                Seq::new(
                    entries@.len(),
                    |i: int| (entries@[i].0@, document_tree(*entries@[i].1)),
                ),
            ),
        }
    }
}

/// Calls `serde_json::from_str` for a `serde_json::Value`. The outcome is a
/// function of the text alone, named `json_parsed`; a failure hands out the
/// parser's error.
#[verifier::external_body]
pub(crate) fn parse_document(text: &str) -> (r: Result<serde_json::Value, serde_json::Error>)
    ensures
        match r {
            Ok(document) => json_parsed(text@) == Some(document_tree(document)),
            Err(_) => json_parsed(text@) is None,
        },
{
    serde_json::from_str(text)
}

/// Tells the variants of `serde_json::Value` apart and hands out what the
/// variant holds: for a number what `Number::as_i64` and `Number::as_f64`
/// return, the float as its bits; for an array its items; for an object its
/// entries in the order in which `Map::iter` yields them.
#[verifier::external_body]
pub(crate) fn top_level<'a>(document: &'a serde_json::Value) -> (node: Node<'a>)
    ensures
        node.tree() == document_tree(*document),
{
    match document {
        serde_json::Value::Null => Node::Null,
        serde_json::Value::Bool(b) => Node::Bool(*b),
        serde_json::Value::Number(n) => Node::Number(n.as_i64(), n.as_f64().map(|x| x.to_bits())),
        serde_json::Value::String(s) => Node::Text(s),
        serde_json::Value::Array(items) => Node::Array(items),
        serde_json::Value::Object(entries) => Node::Object(entries.iter().collect()),
    }
}

/// The message of a parser's error, as `serde_json::Error` displays it.
/// Nothing is claimed of the text.
#[verifier::external_body]
pub(crate) fn json_error_text(e: &serde_json::Error) -> String {
    format!("{e}")
}

impl JsonTree {
    /// Reads a whole document of `serde_json` into a tree.
    pub fn from_document(document: &serde_json::Value) -> (tree: JsonTree)
        ensures
            tree@ == document_tree(*document),
        decreases document_tree(*document),
    {
        match top_level(document) {
            Node::Null => JsonTree::Null,
            Node::Bool(b) => JsonTree::Bool(b),
            Node::Number(i, f) => JsonTree::Number(i, f),
            Node::Text(s) => JsonTree::Text(s.clone()),
            Node::Array(items) => {
                let mut trees: Vec<JsonTree> = Vec::new();
                let mut i: usize = 0;
                while i < items.len()
                    invariant
                        0 <= i <= items.len(),
                        document_tree(*document) == Node::Array(items).tree(),
                        trees@.len() == i,
                        forall|j: int|
                            0 <= j < i ==> (#[trigger] trees@[j])@ == document_tree(items@[j]),
                    decreases items.len() - i,
                {
                    assert(document_tree(*document)->Array_0[i as int] == document_tree(
                        items@[i as int],
                    ));
                    trees.push(JsonTree::from_document(&items[i]));
                    i += 1;
                }
                let tree = JsonTree::Array(trees);
                assert(tree@->Array_0 =~= document_tree(*document)->Array_0);
                tree
            },
            Node::Object(entries) => {
                let mut trees: Vec<(String, JsonTree)> = Vec::new();
                let mut i: usize = 0;
                while i < entries.len()
                    invariant
                        0 <= i <= entries.len(),
                        document_tree(*document) == Node::Object(entries).tree(),
                        trees@.len() == i,
                        forall|j: int|
                            0 <= j < i ==> (#[trigger] trees@[j]).0@ == entries@[j].0@ && trees@[j].1@
                                == document_tree(*entries@[j].1),
                    decreases entries.len() - i,
                {
                    assert(document_tree(*document)->Object_0[i as int].1 == document_tree(
                        *entries@[i as int].1,
                    ));
                    let key = entries[i].0.clone();
                    let child = JsonTree::from_document(entries[i].1);
                    trees.push((key, child));
                    i += 1;
                }
                let tree = JsonTree::Object(trees);
                assert(tree@->Object_0 =~= document_tree(*document)->Object_0);
                tree
            },
        }
    }
}

/// Parses `text` and reads the document into a tree; a failure hands out
/// the parser's message.
pub fn parse_tree(text: &str) -> (r: Result<JsonTree, ResponseError>)
    ensures
        match r {
            Ok(tree) => json_parsed(text@) == Some(tree@),
            Err(e) => json_parsed(text@) is None && e is Parse,
        },
{
    match parse_document(text) {
        Ok(document) => Ok(JsonTree::from_document(&document)),
        Err(e) => Err(ResponseError::Parse(json_error_text(&e))),
    }
}

} // verus!
