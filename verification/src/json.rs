//! Dynamic JSON values: the mathematical model, the executable tree, and the
//! boundary to the JSON text parser.

use vstd::prelude::*;
use vstd::string::StringExecFns;

verus! {

/// The mathematical model of a JSON document.
pub enum Json {
    Null,
    Bool(bool),
    /// A number, by its text.
    Number(Seq<char>),
    Text(Seq<char>),
    Array(Seq<Json>),
    /// The members of an object, each a name and a value, in sequence. Where a name
    /// occurs twice, the last occurrence counts.
    Object(Seq<(Seq<char>, Json)>),
}

/// An untyped JSON value.
#[derive(Debug, PartialEq)]
pub enum DynamicValue {
    Null,
    Bool(bool),
    /// A number, by its text.
    Number(String),
    Text(String),
    Array(Vec<DynamicValue>),
    /// The members of an object, each a name and a value, in sequence. Where a name
    /// occurs twice, the last occurrence counts.
    Object(Vec<(String, DynamicValue)>),
}

impl DynamicValue {
    /// The document that the value stands for.
    pub open spec fn model(self) -> Json
        decreases self,
    {
        match self {
            DynamicValue::Null => Json::Null,
            DynamicValue::Bool(b) => Json::Bool(b),
            DynamicValue::Number(text) => Json::Number(text@),
            DynamicValue::Text(text) => Json::Text(text@),
            DynamicValue::Array(items) => Json::Array(
                Seq::new(
                    items@.len(),
                    |i: int|
                        if 0 <= i < items@.len() {
                            items@[i].model()
                        } else {
                            Json::Null
                        },
                ),
            ),
            DynamicValue::Object(members) => Json::Object(
                Seq::new(
                    members@.len(),
                    |i: int|
                        if 0 <= i < members@.len() {
                            (members@[i].0@, members@[i].1.model())
                        } else {
                            (Seq::empty(), Json::Null)
                        },
                ),
            ),
        }
    }
}

impl View for DynamicValue {
    type V = Json;

    open spec fn view(&self) -> Json {
        self.model()
    }
}

/// The parser's own tree, `serde_json::Value`. What it holds is known only through
/// `json_of`.
#[verifier::external_type_specification]
#[verifier::external_body]
pub struct ExJsonValue(serde_json::Value);

/// The parser's error, `serde_json::Error`. It is handed on as it comes: nothing is
/// stated of what it holds.
#[verifier::external_type_specification]
#[verifier::external_body]
pub struct ExJsonError(serde_json::Error);

/// The document that a `serde_json::Value` holds: its variant and, below it, the
/// documents of its children in their order; a number by the text that it prints.
pub uninterp spec fn json_of(value: serde_json::Value) -> Json;

/// What `serde_json::from_slice` makes of a text: the document that it reads, or the
/// error with which it refuses the text.
pub uninterp spec fn json_text(bytes: Seq<u8>) -> Result<Json, serde_json::Error>;

/// One level of a `serde_json::Value`: the variant, with the children still unread.
enum RawNode {
    Null,
    Bool(bool),
    Number(String),
    Text(String),
    Array(Vec<serde_json::Value>),
    Object(Vec<(String, serde_json::Value)>),
}

impl RawNode {
    /// The document that this level describes, each child taken by what it holds.
    spec fn model(self) -> Json {
        match self {
            RawNode::Null => Json::Null,
            RawNode::Bool(b) => Json::Bool(b),
            RawNode::Number(text) => Json::Number(text@),
            RawNode::Text(text) => Json::Text(text@),
            RawNode::Array(items) => Json::Array(
                Seq::new(items@.len(), |i: int| json_of(items@[i])),
            ),
            RawNode::Object(members) => Json::Object(
                Seq::new(members@.len(), |i: int| (members@[i].0@, json_of(members@[i].1))),
            ),
        }
    }
}

/// Calls `serde_json::from_slice` for a `serde_json::Value`. The contract names the
/// outcome: the same text always reads as the same document, or is always refused
/// with the same error.
#[verifier::external_body]
fn read_value(bytes: &[u8]) -> (outcome: Result<serde_json::Value, serde_json::Error>)
    ensures
        match outcome {
            Ok(value) => json_text(bytes@) == Ok::<Json, serde_json::Error>(json_of(value)),
            Err(cause) => json_text(bytes@) == Err::<Json, serde_json::Error>(cause),
        },
{
    serde_json::from_slice::<serde_json::Value>(bytes)
}

/// Tells the six variants of `serde_json::Value` apart and moves the fields out. A
/// number is given by the text that `serde_json::Number` prints, an object by the
/// entries that `serde_json::Map::into_iter` yields, in that order. The contract ties
/// the document of the value to the documents of its children, and says no more.
#[verifier::external_body]
fn open_value(value: serde_json::Value) -> (node: RawNode)
    ensures
        node.model() == json_of(value),
{
    match value {
        serde_json::Value::Null => RawNode::Null,
        serde_json::Value::Bool(b) => RawNode::Bool(b),
        serde_json::Value::Number(n) => RawNode::Number(n.to_string()),
        serde_json::Value::String(s) => RawNode::Text(s),
        serde_json::Value::Array(items) => RawNode::Array(items),
        serde_json::Value::Object(members) => RawNode::Object(members.into_iter().collect()),
    }
}

/// The value under `key` among the members of an object: that of the last member
/// with this name, if there is one.
pub open spec fn member_of(members: Seq<(Seq<char>, Json)>, key: Seq<char>) -> Option<Json>
    decreases members.len(),
{
    if members.len() == 0 {
        None
    } else if members.last().0 == key {
        Some(members.last().1)
    } else {
        member_of(members.drop_last(), key)
    }
}

impl Json {
    /// The value under `key`, where the document is an object that has such a member.
    pub open spec fn member(self, key: Seq<char>) -> Option<Json> {
        match self {
            Json::Object(members) => member_of(members, key),
            _ => None,
        }
    }

    /// The text of the document, where it is a string.
    pub open spec fn text(self) -> Option<Seq<char>> {
        match self {
            Json::Text(text) => Some(text),
            _ => None,
        }
    }
}

/// The documents that a sequence of values stands for.
pub open spec fn item_models(items: Seq<DynamicValue>) -> Seq<Json> {
    Seq::new(items.len(), |i: int| items[i]@)
}

/// The members that a sequence of named values stands for.
pub open spec fn member_models(members: Seq<(String, DynamicValue)>) -> Seq<(Seq<char>, Json)> {
    Seq::new(members.len(), |i: int| (members[i].0@, members[i].1@))
}

/// An array stands for the documents of its items, in their order.
pub proof fn lemma_array_view(items: Vec<DynamicValue>)
    ensures
        DynamicValue::Array(items)@ == Json::Array(item_models(items@)),
{
    assert(DynamicValue::Array(items)@->Array_0 =~= item_models(items@));
}

/// An object stands for its members, each by its name and its document, in their order.
pub proof fn lemma_object_view(members: Vec<(String, DynamicValue)>)
    ensures
        DynamicValue::Object(members)@ == Json::Object(member_models(members@)),
{
    assert(DynamicValue::Object(members)@->Object_0 =~= member_models(members@));
}

/// The place of the last member named `key`.
pub(crate) fn find_member(
    members: &Vec<(String, DynamicValue)>,
    key: &str,
) -> (found: Option<usize>)
    ensures
        match found {
            Some(i) => i < members@.len() && members@[i as int].0@ == key@ && member_of(
                member_models(members@),
                key@,
            ) == Some(members@[i as int].1@),
            None => member_of(member_models(members@), key@) is None,
        },
{
    let wanted = String::from_str(key);
    let ghost all = member_models(members@);
    let mut i: usize = members.len();
    assert(all.take(i as int) =~= all);
    while i > 0
        invariant
            i <= members@.len(),
            wanted@ == key@,
            all == member_models(members@),
            member_of(all, key@) == member_of(all.take(i as int), key@),
        decreases i,
    {
        i = i - 1;
        assert(all.take(i + 1).drop_last() =~= all.take(i as int));
        if members[i].0 == wanted {
            return Some(i);
        }
    }
    None
}

impl DynamicValue {
    /// The value under `key`, where this is an object that has such a member.
    pub fn get(&self, key: &str) -> (found: Option<&DynamicValue>)
        ensures
            match found {
                Some(value) => self@.member(key@) == Some(value@),
                None => self@.member(key@) is None,
            },
    {
        match self {
            DynamicValue::Object(members) => {
                proof {
                    lemma_object_view(*members);
                }
                match find_member(members, key) {
                    Some(i) => Some(&members[i].1),
                    None => None,
                }
            },
            _ => None,
        }
    }

    /// The text of the value, where it is a string.
    pub fn as_str(&self) -> (text: Option<&str>)
        ensures
            match text {
                Some(text) => self@.text() == Some(text@),
                None => self@.text() is None,
            },
    {
        match self {
            DynamicValue::Text(text) => Some(text.as_str()),
            _ => None,
        }
    }

    /// Reads a JSON text.
    pub fn parse(bytes: &[u8]) -> (outcome: Result<DynamicValue, serde_json::Error>)
        ensures
            match outcome {
                Ok(value) => json_text(bytes@) == Ok::<Json, serde_json::Error>(value@),
                Err(cause) => json_text(bytes@) == Err::<Json, serde_json::Error>(cause),
            },
    {
        match read_value(bytes) {
            Ok(value) => Ok(lift(value)),
            Err(cause) => Err(cause),
        }
    }
}

/// Turns a vector round.
pub(crate) fn turn_round<T>(items: Vec<T>) -> (turned: Vec<T>)
    ensures
        turned@ == items@.reverse(),
{
    let mut rest = items;
    let mut turned: Vec<T> = Vec::new();
    while rest.len() > 0
        invariant
            rest@.len() + turned@.len() == items@.len(),
            forall|i: int| 0 <= i < rest@.len() ==> rest@[i] == items@[i],
            forall|i: int| 0 <= i < turned@.len() ==> turned@[i] == items@[items@.len() - 1 - i],
        decreases rest@.len(),
    {
        let item = rest.pop().unwrap();
        turned.push(item);
    }
    turned
}

/// Reads a whole `serde_json::Value` into a tree of the library's own.
fn lift(value: serde_json::Value) -> (tree: DynamicValue)
    ensures
        tree@ == json_of(value),
    decreases json_of(value),
{
    match open_value(value) {
        RawNode::Null => DynamicValue::Null,
        RawNode::Bool(b) => DynamicValue::Bool(b),
        RawNode::Number(text) => DynamicValue::Number(text),
        RawNode::Text(text) => DynamicValue::Text(text),
        RawNode::Array(items) => {
            let ghost children = Seq::new(items@.len(), |i: int| json_of(items@[i]));
            let mut rest = items;
            let mut turned: Vec<DynamicValue> = Vec::new();
            while rest.len() > 0
                invariant
                    json_of(value) == Json::Array(children),
                    rest@.len() + turned@.len() == children.len(),
                    forall|i: int| 0 <= i < rest@.len() ==> json_of(rest@[i]) == children[i],
                    forall|i: int|
                        0 <= i < turned@.len() ==> turned@[i]@ == children[children.len() - 1 - i],
                decreases rest@.len(),
            {
                let child = rest.pop().unwrap();
                proof {
                    let k = rest@.len() as int;
                    assert(decreases_to!(json_of(value) => json_of(value)->Array_0));
                    assert(decreases_to!(children => children[k]));
                }
                let tree = lift(child);
                turned.push(tree);
            }
            let ordered = turn_round(turned);
            let tree = DynamicValue::Array(ordered);
            assert(tree@->Array_0 =~= children);
            tree
        },
        RawNode::Object(members) => {
            let ghost children = Seq::new(
                members@.len(),
                |i: int| (members@[i].0@, json_of(members@[i].1)),
            );
            let mut rest = members;
            let mut turned: Vec<(String, DynamicValue)> = Vec::new();
            while rest.len() > 0
                invariant
                    json_of(value) == Json::Object(children),
                    rest@.len() + turned@.len() == children.len(),
                    forall|i: int|
                        0 <= i < rest@.len() ==> (rest@[i].0@, json_of(rest@[i].1)) == children[i],
                    forall|i: int|
                        0 <= i < turned@.len() ==> (turned@[i].0@, turned@[i].1@)
                            == children[children.len() - 1 - i],
                decreases rest@.len(),
            {
                let (name, child) = rest.pop().unwrap();
                proof {
                    let k = rest@.len() as int;
                    assert(decreases_to!(json_of(value) => json_of(value)->Object_0));
                    assert(decreases_to!(children => children[k]));
                    assert(decreases_to!(children[k] => children[k].1));
                }
                let tree = lift(child);
                turned.push((name, tree));
            }
            let ordered = turn_round(turned);
            let tree = DynamicValue::Object(ordered);
            assert(tree@->Object_0 =~= children);
            tree
        },
    }
}

} // verus!
