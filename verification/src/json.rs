//! JSON documents as plain trees, read with `serde_json`.

use crate::text::same_text;
use vstd::prelude::*;

verus! {

/// A JSON value. An object keeps its members as a list of name and value.
#[derive(Debug, PartialEq, Eq)]
pub enum Json {
    Null,
    Bool(bool),
    /// A number that is an unsigned integer of at most 64 bits.
    Unsigned(u64),
    /// Any other number: negative, with a fraction, or too large. It is
    /// kept as text, so that nothing here depends on floating point.
    Number(String),
    Text(String),
    Array(Vec<Json>),
    Object(Vec<Member>),
}

/// One member of an object.
#[derive(Debug, PartialEq, Eq)]
pub struct Member {
    pub name: String,
    pub value: Json,
}

/// The model of a `Json` value.
pub enum JsonView {
    Null,
    Bool(bool),
    Unsigned(u64),
    Number(Seq<char>),
    Text(Seq<char>),
    Array(Seq<JsonView>),
    Object(Seq<MemberView>),
}

/// The model of a `Member`.
pub struct MemberView {
    pub name: Seq<char>,
    pub value: JsonView,
}

impl View for Json {
    type V = JsonView;

    open spec fn view(&self) -> JsonView
        decreases self,
    {
        match self {
            Json::Null => JsonView::Null,
            Json::Bool(b) => JsonView::Bool(*b),
            Json::Unsigned(number) => JsonView::Unsigned(*number),
            Json::Number(text) => JsonView::Number(text@),
            Json::Text(text) => JsonView::Text(text@),
            Json::Array(items) => JsonView::Array(
                Seq::new(
                    items@.len(),
                    |i: int|
                        if 0 <= i < items@.len() {
                            items@[i]@
                        } else {
                            JsonView::Null
                        },
                ),
            ),
            Json::Object(members) => JsonView::Object(
                Seq::new(
                    members@.len(),
                    |i: int|
                        if 0 <= i < members@.len() {
                            MemberView { name: members@[i].name@, value: members@[i].value@ }
                        } else {
                            MemberView { name: Seq::empty(), value: JsonView::Null }
                        },
                ),
            ),
        }
    }
}

/// The view of an array: the views of its items, in order.
pub proof fn lemma_array_view(items: Vec<Json>)
    ensures
        Json::Array(items)@ is Array,
        Json::Array(items)@->Array_0.len() == items@.len(),
        forall|i: int|
            0 <= i < items@.len() ==> #[trigger] Json::Array(items)@->Array_0[i] == items@[i]@,
{
    reveal_with_fuel(<Json as View>::view, 2);
}

/// The view of an object: the names and the views of the values of its
/// members, in order.
pub proof fn lemma_object_view(members: Vec<Member>)
    ensures
        Json::Object(members)@ is Object,
        Json::Object(members)@->Object_0.len() == members@.len(),
        forall|i: int|
            0 <= i < members@.len() ==> #[trigger] Json::Object(members)@->Object_0[i]
                == (MemberView { name: members@[i].name@, value: members@[i].value@ }),
{
    reveal_with_fuel(<Json as View>::view, 2);
}

/// The value of the first member called `name`, if there is one.
pub open spec fn find_member(members: Seq<MemberView>, name: Seq<char>) -> Option<JsonView>
    decreases members.len(),
{
    if members.len() == 0 {
        None
    } else if members[0].name == name {
        Some(members[0].value)
    } else {
        find_member(members.drop_first(), name)
    }
}

impl JsonView {
    /// The member called `name` of an object. Anything but an object has
    /// no members.
    pub open spec fn member(self, name: Seq<char>) -> Option<JsonView> {
        match self {
            JsonView::Object(members) => find_member(members, name),
            _ => None,
        }
    }

    /// The element at `index` of an array. Anything but an array has no
    /// elements.
    pub open spec fn element(self, index: int) -> Option<JsonView> {
        match self {
            JsonView::Array(items) => if 0 <= index < items.len() {
                Some(items[index])
            } else {
                None
            },
            _ => None,
        }
    }

    /// The text of a string. Anything but a string has none.
    pub open spec fn as_text(self) -> Option<Seq<char>> {
        match self {
            JsonView::Text(text) => Some(text),
            _ => None,
        }
    }

    /// The value of a number that is an unsigned integer of at most 64
    /// bits. Any other number has none, and neither has anything but a
    /// number.
    pub open spec fn as_u64(self) -> Option<u64> {
        match self {
            JsonView::Unsigned(number) => Some(number),
            _ => None,
        }
    }
}

/// How a lookup that hands out a reference relates to the model.
pub open spec fn found_is(found: Option<&Json>, expected: Option<JsonView>) -> bool {
    match found {
        Some(value) => expected == Some(value@),
        None => expected is None,
    }
}

impl Json {
    /// Looks up a member of an object by name.
    pub fn member(&self, name: &str) -> (found: Option<&Json>)
        ensures
            found_is(found, self@.member(name@)),
    {
        match self {
            Json::Object(members) => {
                let count: usize = members.len();
                let ghost all = self@->Object_0;
                let mut i: usize = 0;
                proof {
                    lemma_object_view(*members);
                    assert(all.subrange(0, count as int) == all);
                }
                while i < count
                    invariant
                        count == members@.len(),
                        i <= count,
                        self@ == JsonView::Object(all),
                        all.len() == count,
                        forall|k: int|
                            0 <= k < count ==> (#[trigger] all[k]).name == members@[k].name@,
                        forall|k: int|
                            0 <= k < count ==> (#[trigger] all[k]).value == members@[k].value@,
                        find_member(all, name@) == find_member(
                            all.subrange(i as int, count as int),
                            name@,
                        ),
                    decreases count - i,
                {
                    proof {
                        let rest = all.subrange(i as int, count as int);
                        assert(rest.drop_first() == all.subrange(i + 1, count as int));
                    }
                    if same_text(members[i].name.as_str(), name) {
                        return Some(&members[i].value);
                    }
                    i = i + 1;
                }
                None
            },
            _ => None,
        }
    }

    /// Looks up an element of an array by position.
    pub fn element(&self, index: usize) -> (found: Option<&Json>)
        ensures
            found_is(found, self@.element(index as int)),
    {
        match self {
            Json::Array(items) => {
                proof {
                    lemma_array_view(*items);
                }
                if index < items.len() {
                    Some(&items[index])
                } else {
                    None
                }
            },
            _ => None,
        }
    }

    /// The text of a string.
    pub fn as_text(&self) -> (text: Option<&String>)
        ensures
            match text {
                Some(text) => self@.as_text() == Some(text@),
                None => self@.as_text() is None,
            },
    {
        match self {
            Json::Text(text) => Some(text),
            _ => None,
        }
    }

    /// Whether the value is `null`.
    pub fn is_null(&self) -> (null: bool)
        ensures
            null == (self@ is Null),
    {
        match self {
            Json::Null => true,
            _ => false,
        }
    }

    /// Reads a number as an unsigned 64-bit integer.
    pub fn as_u64(&self) -> (value: Option<u64>)
        ensures
            value == self@.as_u64(),
    {
        match self {
            Json::Unsigned(number) => Some(*number),
            _ => None,
        }
    }
}

/// `serde_json::Value`, handed from `read_value` to `lift` unopened.
#[verifier::external_type_specification]
#[verifier::external_body]
pub struct ExValue(serde_json::Value);

/// `serde_json::Error`. Nothing is read from it.
#[verifier::external_type_specification]
#[verifier::external_body]
pub struct ExError(serde_json::Error);

/// The tree that `serde_json::from_str` reads from a text, or `None` where
/// it rejects the text.
pub uninterp spec fn json_document(text: Seq<char>) -> Option<JsonView>;

/// The tree that a `serde_json::Value` holds.
pub uninterp spec fn json_content(value: serde_json::Value) -> JsonView;

/// `serde_json::from_str`, reading a `serde_json::Value`. The contract
/// only gives the outcome its name: `json_document` of the text is the
/// content of the value read, and is `None` exactly when reading fails.
#[verifier::external_body]
fn read_value(text: &str) -> (read: Result<serde_json::Value, serde_json::Error>)
    ensures
        match read {
            Ok(value) => json_document(text@) == Some(json_content(value)),
            Err(_) => json_document(text@) is None,
        },
{
    serde_json::from_str::<serde_json::Value>(text)
}

/// Takes a `serde_json::Value` apart, one arm for each of its variants,
/// and builds the same tree as a `Json`. A number becomes `Unsigned` where
/// `serde_json::Number::as_u64` gives a value, and is otherwise carried
/// over as the text that its `Display` impl writes. An object's members
/// come in the order in which `serde_json::Map` hands them out.
#[verifier::external_body]
fn lift(value: serde_json::Value) -> (tree: Json)
    ensures
        tree@ == json_content(value),
{
    match value {
        serde_json::Value::Null => Json::Null,
        serde_json::Value::Bool(flag) => Json::Bool(flag),
        serde_json::Value::Number(number) => match number.as_u64() {
            Some(unsigned) => Json::Unsigned(unsigned),
            None => Json::Number(number.to_string()),
        },
        serde_json::Value::String(text) => Json::Text(text),
        serde_json::Value::Array(items) => Json::Array(items.into_iter().map(lift).collect()),
        serde_json::Value::Object(members) => Json::Object(
            members.into_iter().map(|(name, value)| Member { name, value: lift(value) }).collect(),
        ),
    }
}

/// How a document that was read relates to the text it was read from.
pub open spec fn document_is(read: Option<Json>, expected: Option<JsonView>) -> bool {
    match read {
        Some(tree) => expected == Some(tree@),
        None => expected is None,
    }
}

/// Reads a JSON document. `None` means that the text is not JSON.
pub fn parse_document(text: &str) -> (read: Option<Json>)
    ensures
        document_is(read, json_document(text@)),
{
    match read_value(text) {
        Ok(value) => Some(lift(value)),
        Err(_) => None,
    }
}

} // verus!
