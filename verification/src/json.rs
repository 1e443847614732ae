//! JSON documents as trees of plain values, read and written by `serde_json`.

use vstd::prelude::*;
use vstd::string::StringExecFns;

verus! {

/// `serde_json::Value`, as the parser hands it out and the printer takes it.
#[verifier::external_type_specification]
#[verifier::external_body]
pub struct ExValue(serde_json::Value);

/// `serde_json::Number`: a JSON number, carried as the parser made it.
#[verifier::external_type_specification]
#[verifier::external_body]
pub struct ExNumber(serde_json::Number);

/// A JSON document.
#[derive(Debug, PartialEq)]
pub enum Json {
    Null,
    Bool(bool),
    Number(serde_json::Number),
    Text(String),
    Array(Vec<Json>),
    /// The members in the order they were written. Where a name occurs more
    /// than once, the last member of that name is the one that counts.
    Object(Vec<(String, Json)>),
}

/// The mathematical value of a [`Json`].
pub enum JsonView {
    Null,
    Bool(bool),
    Number(serde_json::Number),
    Text(Seq<char>),
    Array(Seq<JsonView>),
    Object(Seq<(Seq<char>, JsonView)>),
}

impl Json {
    /// The value of this document: its strings as sequences of characters,
    /// its arrays and objects as sequences of values.
    pub open spec fn tree(&self) -> JsonView
        decreases self,
    {
        match self {
            Json::Null => JsonView::Null,
            Json::Bool(b) => JsonView::Bool(*b),
            Json::Number(n) => JsonView::Number(*n),
            Json::Text(s) => JsonView::Text(s@),
            Json::Array(items) => JsonView::Array(
                Seq::new(
                    items.len() as nat,
                    |i: int|
                        if 0 <= i < items.len() {
                            items[i].tree()
                        } else {
                            JsonView::Null
                        },
                ),
            ),
            Json::Object(members) => JsonView::Object(
                Seq::new(
                    members.len() as nat,
                    |i: int|
                        if 0 <= i < members.len() {
                            (members[i].0@, members[i].1.tree())
                        } else {
                            (Seq::empty(), JsonView::Null)
                        },
                ),
            ),
        }
    }
}

impl View for Json {
    type V = JsonView;

    open spec fn view(&self) -> JsonView {
        self.tree()
    }
}

/// The value of the last member called `name` among `members`.
pub open spec fn last_member(members: Seq<(Seq<char>, JsonView)>, name: Seq<char>) -> Option<
    JsonView,
>
    decreases members.len(),
{
    if members.len() == 0 {
        None
    } else if members.last().0 == name {
        Some(members.last().1)
    } else {
        last_member(members.drop_last(), name)
    }
}

impl JsonView {
    /// The member `name` of an object; nothing for any other value and for an
    /// object without such a member.
    pub open spec fn member(self, name: Seq<char>) -> Option<JsonView> {
        match self {
            JsonView::Object(members) => last_member(members, name),
            _ => None,
        }
    }

    /// The item at `index` of an array; nothing for any other value and for
    /// an index past the end.
    pub open spec fn item(self, index: int) -> Option<JsonView> {
        match self {
            JsonView::Array(items) => if 0 <= index < items.len() {
                Some(items[index])
            } else {
                None
            },
            _ => None,
        }
    }

    /// The characters of a string; nothing for any other value.
    pub open spec fn text(self) -> Option<Seq<char>> {
        match self {
            JsonView::Text(s) => Some(s),
            _ => None,
        }
    }
}

/// The values of the items of an array.
pub open spec fn item_views(items: Seq<Json>) -> Seq<JsonView> {
    Seq::new(items.len(), |i: int| items[i]@)
}

/// The names and values of the members of an object.
pub open spec fn member_views(members: Seq<(String, Json)>) -> Seq<(Seq<char>, JsonView)> {
    Seq::new(members.len(), |i: int| (members[i].0@, members[i].1@))
}

/// What is found when one more step, through a member or an item, is taken
/// from a place that may already be nothing.
pub open spec fn view_of(found: Option<&Json>) -> Option<JsonView> {
    match found {
        Some(json) => Some(json@),
        None => None,
    }
}

impl Json {
    /// The string that holds `text`.
    pub fn text(text: String) -> (document: Json)
        ensures
            document@ == JsonView::Text(text@),
    {
        Json::Text(text)
    }

    /// The array of `items`, in their order.
    pub fn array(items: Vec<Json>) -> (document: Json)
        ensures
            document@ == JsonView::Array(item_views(items@)),
    {
        let ghost views = item_views(items@);
        let document = Json::Array(items);
        assert(document@->Array_0 =~= views);
        document
    }

    /// The object of `members`, in their order.
    pub fn object(members: Vec<(String, Json)>) -> (document: Json)
        ensures
            document@ == JsonView::Object(member_views(members@)),
    {
        let ghost views = member_views(members@);
        let document = Json::Object(members);
        assert(document@->Object_0 =~= views);
        document
    }

    /// The member `name` of this object.
    pub fn member(&self, name: &str) -> (found: Option<&Json>)
        ensures
            view_of(found) == self@.member(name@),
    {
        match self {
            Json::Object(members) => {
                let wanted = String::from_str(name);
                let ghost all = self@->Object_0;
                let mut i: usize = members.len();
                assert(all.take(i as int) == all);
                while i > 0
                    invariant
                        i <= members.len(),
                        wanted@ == name@,
                        self@ == JsonView::Object(all),
                        all.len() == members.len(),
                        forall|k: int|
                            0 <= k < members.len() ==> all[k] == (
                                #[trigger] members[k].0@,
                                members[k].1@,
                            ),
                        last_member(all, name@) == last_member(all.take(i as int), name@),
                    decreases i,
                {
                    i -= 1;
                    assert(all.take(i + 1).last() == all[i as int]);
                    assert(all.take(i + 1).drop_last() == all.take(i as int));
                    if members[i].0 == wanted {
                        return Some(&members[i].1);
                    }
                }
                None
            },
            _ => None,
        }
    }

    /// The item at `index` of this array.
    pub fn item(&self, index: usize) -> (found: Option<&Json>)
        ensures
            view_of(found) == self@.item(index as int),
    {
        match self {
            Json::Array(items) => if index < items.len() {
                Some(&items[index])
            } else {
                None
            },
            _ => None,
        }
    }

    /// The characters of this string.
    pub fn as_text(&self) -> (found: Option<&str>)
        ensures
            match found {
                Some(s) => self@.text() == Some(s@),
                None => self@.text() is None,
            },
    {
        match self {
            Json::Text(s) => Some(s.as_str()),
            _ => None,
        }
    }
}

/// What `serde_json` makes of `body`: the document it holds, or the words with
/// which the parser refuses it.
pub uninterp spec fn json_document(body: Seq<u8>) -> Result<JsonView, Seq<char>>;

/// The compact text that `serde_json` prints for a document.
pub uninterp spec fn json_text(document: JsonView) -> Seq<char>;

/// The outcome of parsing, seen as mathematical values.
pub open spec fn parsed_view(parsed: Result<Json, String>) -> Result<JsonView, Seq<char>> {
    match parsed {
        Ok(document) => Ok(document@),
        Err(refusal) => Err(refusal@),
    }
}

/// Moves a `serde_json::Value` into a [`Json`], variant by variant. It is the
/// recursive half of [`parse`], which alone calls it; nothing is stated of it.
#[verifier::external_body]
fn from_value(value: serde_json::Value) -> Json {
    match value {
        serde_json::Value::Null => Json::Null,
        serde_json::Value::Bool(b) => Json::Bool(b),
        serde_json::Value::Number(n) => Json::Number(n),
        serde_json::Value::String(s) => Json::Text(s),
        serde_json::Value::Array(items) => Json::Array(items.into_iter().map(from_value).collect()),
        serde_json::Value::Object(members) => Json::Object(
            members.into_iter().map(|(name, value)| (name, from_value(value))).collect(),
        ),
    }
}

/// Copies a [`Json`] into a `serde_json::Value`, variant by variant. It is the
/// recursive half of [`print`], which alone calls it; nothing is stated of it.
#[verifier::external_body]
fn to_value(document: &Json) -> serde_json::Value {
    match document {
        Json::Null => serde_json::Value::Null,
        Json::Bool(b) => serde_json::Value::Bool(*b),
        Json::Number(n) => serde_json::Value::Number(n.clone()),
        Json::Text(s) => serde_json::Value::String(s.clone()),
        Json::Array(items) => serde_json::Value::Array(items.iter().map(to_value).collect()),
        Json::Object(members) => serde_json::Value::Object(
            members.iter().map(|(name, value)| (name.clone(), to_value(value))).collect(),
        ),
    }
}

/// `serde_json::from_slice`, asked for a `serde_json::Value`. The contract
/// claims that the outcome depends on the bytes alone: either the document
/// they hold, or the text that the parser's error displays.
#[verifier::external_body]
pub(crate) fn parse(body: &[u8]) -> (parsed: Result<Json, String>)
    ensures
        parsed_view(parsed) == json_document(body@),
{
    match serde_json::from_slice::<serde_json::Value>(body) {
        Ok(value) => Ok(from_value(value)),
        Err(e) => Err(e.to_string()),
    }
}

/// `serde_json::to_string`, given the document as a `serde_json::Value`. The
/// contract claims that the text depends on the document alone. Printing a
/// `Value` into a string has no way to fail.
#[verifier::external_body]
pub(crate) fn print(document: &Json) -> (text: String)
    ensures
        text@ == json_text(document@),
{
    serde_json::to_string(&to_value(document)).unwrap_or_default()
}

} // verus!
