//! The document tree that saved games are written as and read from.
//!
//! Turning text into a tree and a tree into text is `serde_json`'s work; the
//! tree itself is plain data that the rest of the library builds and takes
//! apart under proof.

use crate::duplicate::Duplicate;
use serde_json::Value;
use vstd::prelude::*;

verus! {

/// A number as a document holds it. Whole numbers are kept by value; any
/// other number is kept by its decimal text and only ever moved, never
/// computed with.
#[derive(Debug, PartialEq, Eq)]
pub enum Number {
    /// A whole number that is not negative.
    UInt(u64),
    /// A whole number. Numbers read from text are negative here.
    Int(i64),
    /// Any other number, by its decimal text, such as `"0.5"`.
    Decimal(String),
}

/// `Number` with its text as a sequence of characters.
pub enum NumberView {
    UInt(u64),
    Int(i64),
    Decimal(Seq<char>),
}

impl DeepView for Number {
    type V = NumberView;

    open spec fn deep_view(&self) -> NumberView {
        match self {
            Number::UInt(u) => NumberView::UInt(*u),
            Number::Int(i) => NumberView::Int(*i),
            Number::Decimal(text) => NumberView::Decimal(text@),
        }
    }
}

/// A document tree.
#[derive(Debug, PartialEq, Eq)]
pub enum Json {
    Null,
    Bool(bool),
    Number(Number),
    Text(String),
    Array(Vec<Json>),
    /// Named members, in order.
    Object(Vec<(String, Json)>),
}

/// `Json` over sequences.
pub enum JsonView {
    Null,
    Bool(bool),
    Number(NumberView),
    Text(Seq<char>),
    Array(Seq<JsonView>),
    Object(Seq<(Seq<char>, JsonView)>),
}

impl DeepView for Json {
    type V = JsonView;

    open spec fn deep_view(&self) -> JsonView
        decreases self,
    {
        match self {
            Json::Null => JsonView::Null,
            Json::Bool(b) => JsonView::Bool(*b),
            Json::Number(n) => JsonView::Number(n.deep_view()),
            Json::Text(text) => JsonView::Text(text@),
            Json::Array(items) => JsonView::Array(
                Seq::new(
                    items.len() as nat,
                    |i: int|
                        if 0 <= i < items.len() {
                            items[i].deep_view()
                        } else {
                            JsonView::Null
                        },
                ),
            ),
            Json::Object(members) => JsonView::Object(
                Seq::new(
                    members.len() as nat,
                    |i: int|
                        if 0 <= i < members.len() {
                            (members[i].0@, members[i].1.deep_view())
                        } else {
                            (Seq::empty(), JsonView::Null)
                        },
                ),
            ),
        }
    }
}

/// `serde_json::Value`, the tree that the outside parser builds. Opaque here:
/// it is converted to a `Json` as soon as it arrives.
#[verifier::external_type_specification]
#[verifier::external_body]
pub struct ExValue(Value);

/// `serde_json::Error`, carried only far enough to be told from success.
#[verifier::external_type_specification]
#[verifier::external_body]
pub struct ExError(serde_json::Error);

/// The tree that `serde_json::from_str` reads from `text`, or `None` where it
/// reports an error.
pub uninterp spec fn parsed_json(text: Seq<char>) -> Option<JsonView>;

/// The text that `serde_json::to_string_pretty` writes for `tree`.
pub uninterp spec fn rendered_json(tree: JsonView) -> Seq<char>;

/// Copies a `serde_json::Value` into a `Json`, variant by variant. A number
/// is kept as `UInt` where `as_u64` gives one, else as `Int` where `as_i64`
/// gives one, else by the text of its `Display`. Nothing is claimed of the
/// result here; `read_tree` names it.
#[verifier::external_body]
fn tree_of_value(value: &Value) -> Json {
    match value {
        Value::Null => Json::Null,
        Value::Bool(b) => Json::Bool(*b),
        Value::Number(n) => Json::Number(match (n.as_u64(), n.as_i64()) {
            (Some(u), _) => Number::UInt(u),
            (_, Some(i)) => Number::Int(i),
            _ => Number::Decimal(n.to_string()),
        }),
        Value::String(s) => Json::Text(s.clone()),
        Value::Array(a) => Json::Array(a.iter().map(tree_of_value).collect()),
        Value::Object(m) => Json::Object(
            m.iter().map(|(k, v)| (k.clone(), tree_of_value(v))).collect(),
        ),
    }
}

/// Copies a `Json` into a `serde_json::Value`, variant by variant. Decimal
/// text goes through `serde_json::from_str` as a `serde_json::Number`; text
/// that it does not accept as a number becomes `null`. Nothing is claimed of
/// the result here; `write_tree` names what is made of it.
#[verifier::external_body]
fn value_of_tree(tree: &Json) -> Value {
    match tree {
        Json::Null => Value::Null,
        Json::Bool(b) => Value::Bool(*b),
        Json::Number(Number::UInt(u)) => Value::from(*u),
        Json::Number(Number::Int(i)) => Value::from(*i),
        Json::Number(Number::Decimal(t)) => serde_json::from_str::<serde_json::Number>(t)
            .map_or(Value::Null, Value::Number),
        Json::Text(s) => Value::String(s.clone()),
        Json::Array(a) => Value::Array(a.iter().map(value_of_tree).collect()),
        Json::Object(m) => Value::Object(
            m.iter().map(|(k, v)| (k.clone(), value_of_tree(v))).collect(),
        ),
    }
}

/// Calls `serde_json::from_str` for a `serde_json::Value` and copies the
/// value into a `Json`. The contract only gives the outcome its name: the
/// same text always reads as the same tree, or always fails.
#[verifier::external_body]
fn read_tree(text: &str) -> (r: Result<Json, serde_json::Error>)
    ensures
        match r {
            Ok(tree) => parsed_json(text@) == Some(tree.deep_view()),
            Err(_) => parsed_json(text@) is None,
        },
{
    serde_json::from_str::<Value>(text).map(|value| tree_of_value(&value))
}

/// Calls `serde_json::to_string_pretty` on the `serde_json::Value` made from
/// `tree`. Writing such a value does not fail: its keys are strings and its
/// numbers finite. Were it to fail, the text would be empty. The contract
/// only gives the text its name.
#[verifier::external_body]
fn write_tree(tree: &Json) -> (r: String)
    ensures
        r@ == rendered_json(tree.deep_view()),
{
    match serde_json::to_string_pretty(&value_of_tree(tree)) {
        Ok(text) => text,
        Err(_) => String::new(),
    }
}

impl Json {
    /// Reads a document tree from text; `None` where the text is not a
    /// well-formed document.
    pub fn parse(text: &str) -> (r: Option<Json>)
        ensures
            r.deep_view() == parsed_json(text@),
    {
        match read_tree(text) {
            Ok(tree) => Some(tree),
            Err(_) => None,
        }
    }

    /// Writes the tree as indented text.
    pub fn render(&self) -> (r: String)
        ensures
            r@ == rendered_json(self.deep_view()),
    {
        write_tree(self)
    }
}

/// The first member of `members` called `key`, if there is one.
pub open spec fn find_member(members: Seq<(Seq<char>, JsonView)>, key: Seq<char>) -> Option<
    JsonView,
>
    decreases members.len(),
{
    if members.len() == 0 {
        None
    } else if members[0].0 == key {
        Some(members[0].1)
    } else {
        find_member(members.drop_first(), key)
    }
}

impl JsonView {
    /// The member called `key`, where this is an object that has one.
    pub open spec fn member(self, key: Seq<char>) -> Option<JsonView> {
        match self {
            JsonView::Object(members) => find_member(members, key),
            _ => None,
        }
    }

    /// The text, where this is text.
    pub open spec fn as_text(self) -> Option<Seq<char>> {
        match self {
            JsonView::Text(text) => Some(text),
            _ => None,
        }
    }

    /// The number, where this is a number of any kind.
    pub open spec fn as_number(self) -> Option<NumberView> {
        match self {
            JsonView::Number(n) => Some(n),
            _ => None,
        }
    }

    /// The items, where this is an array.
    pub open spec fn as_array(self) -> Option<Seq<JsonView>> {
        match self {
            JsonView::Array(items) => Some(items),
            _ => None,
        }
    }

    /// The value, where this is a whole number from zero up to `max`.
    pub open spec fn as_uint(self, max: u64) -> Option<u64> {
        match self {
            JsonView::Number(NumberView::UInt(u)) if u <= max => Some(u),
            _ => None,
        }
    }

    /// The value, where this is a whole number that fits in 32 bits with a
    /// sign.
    pub open spec fn as_i32(self) -> Option<i32> {
        match self {
            JsonView::Number(NumberView::UInt(u)) if u <= i32::MAX => Some(u as i32),
            JsonView::Number(NumberView::Int(i)) if i32::MIN <= i <= i32::MAX => Some(i as i32),
            _ => None,
        }
    }

    /// The tree that stands for a non-negative whole number.
    pub open spec fn unsigned(u: u64) -> JsonView {
        JsonView::Number(NumberView::UInt(u))
    }

    /// The tree that stands for a signed whole number: written as `UInt`
    /// from zero up, as `Int` below.
    pub open spec fn signed(i: i32) -> JsonView {
        if i >= 0 {
            JsonView::Number(NumberView::UInt(i as u64))
        } else {
            JsonView::Number(NumberView::Int(i as i64))
        }
    }
}

impl Number {
    /// A number from its decimal text.
    pub fn decimal(text: &str) -> (r: Number)
        ensures
            r.deep_view() == NumberView::Decimal(text@),
    {
        Number::Decimal(String::from_str(text))
    }
}

impl Json {
    /// What an array holds, item by item.
    pub proof fn lemma_array_view(items: Vec<Json>)
        ensures
            Json::Array(items).deep_view() is Array,
            Json::Array(items).deep_view()->Array_0.len() == items.len(),
            forall|i: int|
                0 <= i < items.len() ==> #[trigger] Json::Array(items).deep_view()->Array_0[i]
                    == items[i].deep_view(),
    {
        reveal_with_fuel(<Json as DeepView>::deep_view, 2);
    }

    /// What an object holds, member by member.
    pub proof fn lemma_object_view(members: Vec<(String, Json)>)
        ensures
            Json::Object(members).deep_view() is Object,
            Json::Object(members).deep_view()->Object_0.len() == members.len(),
            forall|i: int|
                0 <= i < members.len() ==> #[trigger] Json::Object(
                    members,
                ).deep_view()->Object_0[i] == (members[i].0@, members[i].1.deep_view()),
    {
        reveal_with_fuel(<Json as DeepView>::deep_view, 2);
    }

    /// The member called `key`, where this is an object that has one.
    pub fn member(&self, key: &str) -> (r: Option<&Json>)
        ensures
            r.deep_view() == self.deep_view().member(key@),
    {
        match self {
            Json::Object(members) => {
                proof {
                    Json::lemma_object_view(*members);
                }
                let wanted = String::from_str(key);
                let ghost all = self.deep_view()->Object_0;
                let mut i: usize = 0;
                assert(all.skip(0) =~= all);
                while i < members.len()
                    invariant
                        i <= members.len(),
                        wanted@ == key@,
                        self.deep_view() == JsonView::Object(all),
                        all.len() == members.len(),
                        forall|k: int|
                            0 <= k < members.len() ==> #[trigger] all[k] == (
                                members[k].0@,
                                members[k].1.deep_view(),
                            ),
                        find_member(all, key@) == find_member(all.skip(i as int), key@),
                    decreases members.len() - i,
                {
                    proof {
                        let rest = all.skip(i as int);
                        assert(rest[0] == all[i as int]);
                        assert(rest.drop_first() == all.skip(i + 1));
                    }
                    if members[i].0 == wanted {
                        let found = &members[i].1;
                        assert(all[i as int] == (
                            members[i as int].0@,
                            members[i as int].1.deep_view(),
                        ));
                        assert(find_member(all.skip(i as int), key@) == Some(found.deep_view()));
                        return Some(found);
                    }
                    i += 1;
                }
                None
            },
            _ => None,
        }
    }

    /// The text, where this is text.
    pub fn as_text(&self) -> (r: Option<&String>)
        ensures
            r.deep_view() == self.deep_view().as_text(),
    {
        match self {
            Json::Text(text) => Some(text),
            _ => None,
        }
    }

    /// The number, where this is a number of any kind.
    pub fn as_number(&self) -> (r: Option<&Number>)
        ensures
            r.deep_view() == self.deep_view().as_number(),
    {
        match self {
            Json::Number(n) => Some(n),
            _ => None,
        }
    }

    /// The items, where this is an array.
    pub fn as_array(&self) -> (r: Option<&Vec<Json>>)
        ensures
            r is Some == self.deep_view().as_array() is Some,
            r is Some ==> self.deep_view().as_array()->0.len() == r->0.len(),
            r is Some ==> forall|i: int|
                0 <= i < r->0.len() ==> #[trigger] self.deep_view().as_array()->0[i]
                    == r->0[i].deep_view(),
    {
        match self {
            Json::Array(items) => {
                proof {
                    Json::lemma_array_view(*items);
                }
                Some(items)
            },
            _ => None,
        }
    }

    /// The value, where this is a whole number from zero up to `max`.
    pub fn as_uint(&self, max: u64) -> (r: Option<u64>)
        ensures
            r == self.deep_view().as_uint(max),
    {
        match self {
            Json::Number(Number::UInt(u)) => if *u <= max {
                Some(*u)
            } else {
                None
            },
            _ => None,
        }
    }

    /// The value, where this is a whole number that fits in 32 bits with a
    /// sign.
    pub fn as_i32(&self) -> (r: Option<i32>)
        ensures
            r == self.deep_view().as_i32(),
    {
        match self {
            Json::Number(Number::UInt(u)) => if *u <= i32::MAX as u64 {
                Some(*u as i32)
            } else {
                None
            },
            Json::Number(Number::Int(i)) => if i32::MIN as i64 <= *i && *i <= i32::MAX as i64 {
                Some(*i as i32)
            } else {
                None
            },
            _ => None,
        }
    }

    /// The tree that stands for a non-negative whole number.
    pub fn unsigned(u: u64) -> (r: Json)
        ensures
            r.deep_view() == JsonView::unsigned(u),
    {
        Json::Number(Number::UInt(u))
    }

    /// The tree that stands for a signed whole number.
    pub fn signed(i: i32) -> (r: Json)
        ensures
            r.deep_view() == JsonView::signed(i),
    {
        if i >= 0 {
            Json::Number(Number::UInt(i as u64))
        } else {
            Json::Number(Number::Int(i as i64))
        }
    }

    /// The tree that stands for a piece of text.
    pub fn text(text: &String) -> (r: Json)
        ensures
            r.deep_view() == JsonView::Text(text@),
    {
        Json::Text(text.clone())
    }

    /// The tree that stands for a number of any kind.
    pub fn number(n: &Number) -> (r: Json)
        ensures
            r.deep_view() == JsonView::Number(n.deep_view()),
    {
        Json::Number(n.duplicate())
    }
}

/// The members of an object under construction, as contracts see them.
pub open spec fn members_view(members: Vec<(String, Json)>) -> Seq<(Seq<char>, JsonView)> {
    Seq::new(members.len() as nat, |i: int| (members[i].0@, members[i].1.deep_view()))
}

/// The items of an array under construction, as contracts see them.
pub open spec fn items_view(items: Vec<Json>) -> Seq<JsonView> {
    Seq::new(items.len() as nat, |i: int| items[i].deep_view())
}

/// Looking a key up after one more member was appended: earlier members
/// win, then the new one.
pub broadcast proof fn lemma_find_member_push(
    members: Seq<(Seq<char>, JsonView)>,
    last: (Seq<char>, JsonView),
    key: Seq<char>,
)
    ensures
        #[trigger] find_member(members.push(last), key) == if find_member(members, key) is Some {
            find_member(members, key)
        } else if last.0 == key {
            Some(last.1)
        } else {
            None
        },
    decreases members.len(),
{
    let longer = members.push(last);
    if members.len() == 0 {
        assert(longer.drop_first() =~= members);
    } else {
        assert(longer[0] == members[0]);
        assert(longer.drop_first() =~= members.drop_first().push(last));
        lemma_find_member_push(members.drop_first(), last, key);
    }
}

impl Json {
    /// An object with the given members.
    pub fn object(members: Vec<(String, Json)>) -> (r: Json)
        ensures
            r.deep_view() == JsonView::Object(members_view(members)),
    {
        proof {
            Json::lemma_object_view(members);
            assert(Json::Object(members).deep_view()->Object_0 =~= members_view(members));
        }
        Json::Object(members)
    }

    /// An array with the given items.
    pub fn array(items: Vec<Json>) -> (r: Json)
        ensures
            r.deep_view() == JsonView::Array(items_view(items)),
    {
        proof {
            Json::lemma_array_view(items);
            assert(Json::Array(items).deep_view()->Array_0 =~= items_view(items));
        }
        Json::Array(items)
    }
}

/// Appends a member to an object under construction.
pub fn with_member(members: Vec<(String, Json)>, key: &str, value: Json) -> (r: Vec<
    (String, Json),
>)
    ensures
        members_view(r) == members_view(members).push((key@, value.deep_view())),
{
    let mut members = members;
    let ghost before = members_view(members);
    let ghost added = (key@, value.deep_view());
    members.push((String::from_str(key), value));
    assert(members_view(members) =~= before.push(added));
    members
}

/// Appends an item to an array under construction.
pub fn with_item(items: Vec<Json>, value: Json) -> (r: Vec<Json>)
    ensures
        items_view(r) == items_view(items).push(value.deep_view()),
{
    let mut items = items;
    let ghost before = items_view(items);
    let ghost added = value.deep_view();
    items.push(value);
    assert(items_view(items) =~= before.push(added));
    items
}

} // verus!
