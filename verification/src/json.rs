use vstd::prelude::*;
use serde_json::Value;

verus! {

broadcast use {vstd::seq::group_seq_axioms, vstd::std_specs::vec::group_vec_axioms};

/// `serde_json::Value`, made known so that it can be handed from one
/// wrapper to the next. Nothing is known of its inside; the document it
/// holds is `json_tree` of it.
#[verifier::external_type_specification]
#[verifier::external_body]
pub struct ExValue(serde_json::Value);

/// A JSON document held as plain values.
#[derive(Debug, PartialEq, Eq)]
pub enum JsonValue {
    Null,
    Bool(bool),
    /// A number that is an integer from 0 to 2^64 - 1.
    Unsigned(u64),
    /// Any other number, held as its text.
    OtherNumber(String),
    String(String),
    Array(Vec<JsonValue>),
    /// The members of an object, in the order of the document.
    Object(Vec<JsonMember>),
}

/// One member of a JSON object.
#[derive(Debug, PartialEq, Eq)]
pub struct JsonMember {
    pub name: String,
    pub value: JsonValue,
}

/// A JSON document as a mathematical value.
pub enum JsonTree {
    Null,
    Bool(bool),
    Unsigned(u64),
    OtherNumber(Seq<char>),
    String(Seq<char>),
    Array(Seq<JsonTree>),
    Object(Seq<(Seq<char>, JsonTree)>),
}

/// The document that a value holds.
pub open spec fn tree_of(value: JsonValue) -> JsonTree
    decreases value,
{
    match value {
        JsonValue::Null => JsonTree::Null,
        JsonValue::Bool(flag) => JsonTree::Bool(flag),
        JsonValue::Unsigned(number) => JsonTree::Unsigned(number),
        JsonValue::OtherNumber(text) => JsonTree::OtherNumber(text@),
        JsonValue::String(text) => JsonTree::String(text@),
        JsonValue::Array(items) => JsonTree::Array(trees_of(items@)),
        JsonValue::Object(members) => JsonTree::Object(members_of(members@)),
    }
}

/// The documents that the values hold, in order.
pub open spec fn trees_of(items: Seq<JsonValue>) -> Seq<JsonTree>
    decreases items,
{
    if items.len() == 0 {
        Seq::empty()
    } else {
        trees_of(items.drop_last()).push(tree_of(items.last()))
    }
}

/// The members as pairs of a name and a document, in order.
pub open spec fn members_of(members: Seq<JsonMember>) -> Seq<(Seq<char>, JsonTree)>
    decreases members,
{
    if members.len() == 0 {
        Seq::empty()
    } else {
        members_of(members.drop_last()).push((members.last().name@, tree_of(members.last().value)))
    }
}

impl View for JsonValue {
    type V = JsonTree;

    open spec fn view(&self) -> JsonTree {
        tree_of(*self)
    }
}

/// `trees_of` goes item by item.
pub proof fn lemma_trees_of(items: Seq<JsonValue>)
    ensures
        trees_of(items).len() == items.len(),
        forall|i: int| 0 <= i < items.len() ==> #[trigger] trees_of(items)[i] == tree_of(items[i]),
    decreases items.len(),
{
    if items.len() > 0 {
        lemma_trees_of(items.drop_last());
    }
}

/// `members_of` goes member by member.
pub proof fn lemma_members_of(members: Seq<JsonMember>)
    ensures
        members_of(members).len() == members.len(),
        forall|i: int|
            0 <= i < members.len() ==> #[trigger] members_of(members)[i] == (
                members[i].name@,
                tree_of(members[i].value),
            ),
    decreases members.len(),
{
    if members.len() > 0 {
        lemma_members_of(members.drop_last());
    }
}

/// The first member of that name, if there is one.
pub open spec fn find_member(members: Seq<(Seq<char>, JsonTree)>, name: Seq<char>) -> Option<
    JsonTree,
>
    decreases members.len(),
{
    if members.len() == 0 {
        None
    } else if members[0].0 == name {
        Some(members[0].1)
    } else {
        find_member(members.drop_first(), name)
    }
}

impl JsonTree {
    /// What an object holds under a name: its first member of that name.
    /// `None` for an object without such a member and for a document that
    /// is no object.
    pub open spec fn member(self, name: Seq<char>) -> Option<JsonTree> {
        match self {
            JsonTree::Object(members) => find_member(members, name),
            _ => None,
        }
    }
}

impl JsonValue {
    /// What an object holds under a name: its first member of that name.
    pub fn member(&self, name: &str) -> (found: Option<&JsonValue>)
        ensures
            match found {
                Some(value) => self@.member(name@) == Some(value@),
                None => self@.member(name@) is None,
            },
    {
        match self {
            JsonValue::Object(members) => {
                let wanted = name.to_owned();
                let ghost all = members_of(members@);
                proof {
                    lemma_members_of(members@);
                    assert(all.skip(0) =~= all);
                }
                let mut i: usize = 0;
                while i < members.len()
                    invariant
                        i <= members.len(),
                        wanted@ == name@,
                        self@ == JsonTree::Object(all),
                        all == members_of(members@),
                        all.len() == members.len(),
                        forall|k: int|
                            0 <= k < members.len() ==> #[trigger] all[k] == (
                                members[k].name@,
                                tree_of(members[k].value),
                            ),
                        find_member(all, name@) == find_member(all.skip(i as int), name@),
                    decreases members.len() - i,
                {
                    assert(all.skip(i as int).drop_first() =~= all.skip(i + 1));
                    if members[i].name == wanted {
                        return Some(&members[i].value);
                    }
                    i = i + 1;
                }
                None
            },
            _ => None,
        }
    }
}

/// The document that `serde_json::from_str` reads from a text, or `None`
/// where it reports an error.
pub uninterp spec fn json_document(text: Seq<char>) -> Option<JsonTree>;

/// The document that a `serde_json::Value` holds.
pub uninterp spec fn json_tree(value: serde_json::Value) -> JsonTree;

/// The document held by the `serde_json::Value` that is put together from
/// a document. Where the two differ is left open: a value holds the members
/// of an object under one name each, and a number as a number.
pub uninterp spec fn json_built(tree: JsonTree) -> JsonTree;

/// The text that `serde_json::to_string` writes for a value that holds the
/// document, or `None` where it reports an error.
pub uninterp spec fn json_written(tree: JsonTree) -> Option<Seq<char>>;

/// Calls `serde_json::from_str` for a `serde_json::Value`. The contract
/// only gives the outcome its name.
#[verifier::external_body]
fn read_value(text: &str) -> (value: Option<serde_json::Value>)
    ensures
        value is Some == json_document(text@) is Some,
        value is Some ==> json_document(text@) == Some(json_tree(value.unwrap())),
{
    serde_json::from_str(text).ok()
}

/// Takes a `serde_json::Value` apart, variant by variant, into the
/// library's own type. A number goes through `Number::as_u64` and, where
/// that gives nothing, through its `Display`. The contract only names the
/// document.
#[verifier::external_body]
fn tree_from_value(value: serde_json::Value) -> (tree: JsonValue)
    ensures
        tree@ == json_tree(value),
{
    match value {
        Value::Null => JsonValue::Null,
        Value::Bool(flag) => JsonValue::Bool(flag),
        Value::Number(number) => match number.as_u64() {
            Some(unsigned) => JsonValue::Unsigned(unsigned),
            None => JsonValue::OtherNumber(number.to_string()),
        },
        Value::String(text) => JsonValue::String(text),
        Value::Array(items) => JsonValue::Array(items.into_iter().map(tree_from_value).collect()),
        Value::Object(members) => JsonValue::Object(
            members.into_iter().map(|(name, value)| JsonMember { name, value: tree_from_value(value) }).collect(),
        ),
    }
}

/// Puts a document together as a `serde_json::Value`, variant by variant.
/// The text of a number is read by `serde_json::from_str`; where that
/// fails the number becomes `null`. The contract only names the document
/// that the value holds.
#[verifier::external_body]
fn value_from_tree(tree: &JsonValue) -> (value: serde_json::Value)
    ensures
        json_tree(value) == json_built(tree@),
{
    match tree {
        JsonValue::Null => Value::Null,
        JsonValue::Bool(flag) => Value::Bool(*flag),
        JsonValue::Unsigned(number) => Value::from(*number),
        JsonValue::OtherNumber(text) => serde_json::from_str(text).map_or(Value::Null, Value::Number),
        JsonValue::String(text) => Value::String(text.clone()),
        JsonValue::Array(items) => Value::Array(items.iter().map(value_from_tree).collect()),
        JsonValue::Object(members) => Value::Object(
            members.iter().map(|member| (member.name.clone(), value_from_tree(&member.value))).collect(),
        ),
    }
}

/// Calls `serde_json::to_string` on a `serde_json::Value`. The contract
/// only gives the outcome its name: the text depends on nothing but the
/// document that the value holds.
#[verifier::external_body]
fn write_value(value: &serde_json::Value) -> (text: Option<String>)
    ensures
        text is Some == json_written(json_tree(*value)) is Some,
        text is Some ==> text.unwrap()@ == json_written(json_tree(*value)).unwrap(),
{
    serde_json::to_string(value).ok()
}

/// The document that a text holds: what `serde_json` reads from it.
pub open spec fn parsed(text: Seq<char>) -> Option<JsonTree> {
    json_document(text)
}

/// The text of a document: what `serde_json` writes for it.
pub open spec fn printed(tree: JsonTree) -> Option<Seq<char>> {
    json_written(json_built(tree))
}

impl JsonValue {
    /// Reads a JSON text. `None` for a text that is no JSON document.
    pub fn parse(text: &str) -> (document: Option<JsonValue>)
        ensures
            match document {
                Some(value) => parsed(text@) == Some(value@),
                None => parsed(text@) is None,
            },
    {
        match read_value(text) {
            Some(value) => Some(tree_from_value(value)),
            None => None,
        }
    }

    /// Writes the document as a JSON text. `None` where the document cannot
    /// be written.
    pub fn to_text(&self) -> (text: Option<String>)
        ensures
            match text {
                Some(text) => printed(self@) == Some(text@),
                None => printed(self@) is None,
            },
    {
        let value = value_from_tree(self);
        write_value(&value)
    }
}

} // verus!
