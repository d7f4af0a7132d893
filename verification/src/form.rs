//! How values take and leave their saved form.
//!
//! Every kind of value that a saved game holds says what tree stands for it
//! and how a tree is read back, and proves that reading back what it wrote
//! gives the value again. Lists are handled here once, for every kind.

use crate::duplicate::Duplicate;
use crate::json::{items_view, with_item, Json, JsonView, Number, NumberView};
use vstd::prelude::*;

verus! {

/// A value with a saved form.
pub trait Saved: DeepView + Sized {
    /// The tree that stands for a value.
    spec fn form(value: Self::V) -> JsonView;

    /// The value that a tree stands for, if it stands for one.
    spec fn read(tree: JsonView) -> Option<Self::V>;

    /// Reading back what was written gives the value again.
    proof fn lemma_read_form(value: Self::V)
        ensures
            Self::read(Self::form(value)) == Some(value),
    ;

    /// Writes the value as a tree.
    fn to_json(&self) -> (r: Json)
        ensures
            r.deep_view() == Self::form(self.deep_view()),
    ;

    /// Reads a value from a tree; `None` where the tree is not the saved
    /// form of any value of this kind.
    fn from_json(tree: &Json) -> (r: Option<Self>)
        ensures
            r.deep_view() == Self::read(tree.deep_view()),
    ;
}

/// The trees that stand for the values of a list, in order.
pub open spec fn list_forms<T: Saved>(values: Seq<T::V>) -> Seq<JsonView> {
    Seq::new(values.len(), |i: int| T::form(values[i]))
}

/// The tree that stands for a list: an array of its values' trees.
pub open spec fn list_form<T: Saved>(values: Seq<T::V>) -> JsonView {
    JsonView::Array(list_forms::<T>(values))
}

/// Whether every tree of `items` stands for a value.
pub open spec fn all_readable<T: Saved>(items: Seq<JsonView>) -> bool {
    forall|i: int| 0 <= i < items.len() ==> (#[trigger] T::read(items[i])) is Some
}

/// The list that a tree stands for: it must be an array whose every item
/// stands for a value.
pub open spec fn list_read<T: Saved>(tree: JsonView) -> Option<Seq<T::V>> {
    match tree {
        JsonView::Array(items) => if all_readable::<T>(items) {
            Some(Seq::new(items.len(), |i: int| T::read(items[i])->0))
        } else {
            None
        },
        _ => None,
    }
}

/// Reading back a written list gives the list again.
pub proof fn lemma_list_read_form<T: Saved>(values: Seq<T::V>)
    ensures
        list_read::<T>(list_form::<T>(values)) == Some(values),
{
    let items = list_forms::<T>(values);
    assert forall|i: int| 0 <= i < items.len() implies (#[trigger] T::read(items[i])) == Some(
        values[i],
    ) by {
        T::lemma_read_form(values[i]);
    }
    assert(Seq::new(items.len(), |i: int| T::read(items[i])->0) =~= values);
}

/// Writes a list as an array.
pub fn list_to_json<T: Saved>(values: &Vec<T>) -> (r: Json)
    ensures
        r.deep_view() == list_form::<T>(values.deep_view()),
{
    let mut items: Vec<Json> = Vec::new();
    let mut i: usize = 0;
    while i < values.len()
        invariant
            i <= values.len(),
            items_view(items).len() == i,
            forall|k: int|
                0 <= k < i ==> #[trigger] items_view(items)[k] == T::form(values[k].deep_view()),
        decreases values.len() - i,
    {
        items = with_item(items, values[i].to_json());
        i += 1;
    }
    assert(items_view(items) =~= list_forms::<T>(values.deep_view()));
    Json::array(items)
}

/// Reads a list from an array.
pub fn list_from_json<T: Saved>(tree: &Json) -> (r: Option<Vec<T>>)
    ensures
        r.deep_view() == list_read::<T>(tree.deep_view()),
{
    match tree.as_array() {
        Some(items) => {
            let ghost trees = tree.deep_view()->Array_0;
            let mut values: Vec<T> = Vec::new();
            let mut i: usize = 0;
            while i < items.len()
                invariant
                    i <= items.len(),
                    tree.deep_view() == JsonView::Array(trees),
                    trees.len() == items.len(),
                    forall|k: int|
                        0 <= k < items.len() ==> #[trigger] trees[k] == items[k].deep_view(),
                    values.len() == i,
                    forall|k: int| 0 <= k < i ==> (#[trigger] T::read(trees[k])) is Some,
                    forall|k: int|
                        0 <= k < i ==> T::read(trees[k]) == Some(#[trigger] values[k].deep_view()),
                decreases items.len() - i,
            {
                match T::from_json(&items[i]) {
                    Some(value) => {
                        values.push(value);
                    },
                    None => {
                        assert(T::read(trees[i as int]) is None);
                        return None;
                    },
                }
                i += 1;
            }
            assert(all_readable::<T>(trees));
            assert(values.deep_view() =~= Seq::new(trees.len(), |i: int| T::read(trees[i])->0));
            Some(values)
        },
        None => None,
    }
}

/// What stands under `key` in an object, read as a value of kind `T`.
pub open spec fn field<T: Saved>(tree: JsonView, key: Seq<char>) -> Option<T::V> {
    match tree.member(key) {
        Some(inner) => T::read(inner),
        None => None,
    }
}

/// Reads the member called `key` as a value of kind `T`; `None` where this
/// is no object, has no such member, or the member is not of that kind.
pub fn read_field<T: Saved>(tree: &Json, key: &str) -> (r: Option<T>)
    ensures
        r.deep_view() == field::<T>(tree.deep_view(), key@),
{
    match tree.member(key) {
        Some(inner) => T::from_json(inner),
        None => None,
    }
}

/// Text is saved as text.
impl Saved for String {
    open spec fn form(value: Seq<char>) -> JsonView {
        JsonView::Text(value)
    }

    open spec fn read(tree: JsonView) -> Option<Seq<char>> {
        tree.as_text()
    }

    proof fn lemma_read_form(value: Seq<char>) {
    }

    fn to_json(&self) -> (r: Json) {
        Json::text(self)
    }

    fn from_json(tree: &Json) -> (r: Option<String>) {
        match tree.as_text() {
            Some(text) => Some(text.clone()),
            None => None,
        }
    }
}

/// A number of any kind is saved as it is.
impl Saved for Number {
    open spec fn form(value: NumberView) -> JsonView {
        JsonView::Number(value)
    }

    open spec fn read(tree: JsonView) -> Option<NumberView> {
        tree.as_number()
    }

    proof fn lemma_read_form(value: NumberView) {
    }

    fn to_json(&self) -> (r: Json) {
        Json::number(self)
    }

    fn from_json(tree: &Json) -> (r: Option<Number>) {
        match tree.as_number() {
            Some(n) => Some(n.duplicate()),
            None => None,
        }
    }
}

/// A byte is saved as a whole number and read back only from one that fits.
impl Saved for u8 {
    open spec fn form(value: u8) -> JsonView {
        JsonView::unsigned(value as u64)
    }

    open spec fn read(tree: JsonView) -> Option<u8> {
        match tree.as_uint(0xff) {
            Some(u) => Some(u as u8),
            None => None,
        }
    }

    proof fn lemma_read_form(value: u8) {
    }

    fn to_json(&self) -> (r: Json) {
        Json::unsigned(*self as u64)
    }

    fn from_json(tree: &Json) -> (r: Option<u8>) {
        match tree.as_uint(0xff) {
            Some(u) => Some(u as u8),
            None => None,
        }
    }
}

/// A 32-bit count is saved as a whole number and read back only from one
/// that fits.
impl Saved for u32 {
    open spec fn form(value: u32) -> JsonView {
        JsonView::unsigned(value as u64)
    }

    open spec fn read(tree: JsonView) -> Option<u32> {
        match tree.as_uint(0xffff_ffff) {
            Some(u) => Some(u as u32),
            None => None,
        }
    }

    proof fn lemma_read_form(value: u32) {
    }

    fn to_json(&self) -> (r: Json) {
        Json::unsigned(*self as u64)
    }

    fn from_json(tree: &Json) -> (r: Option<u32>) {
        match tree.as_uint(0xffff_ffff) {
            Some(u) => Some(u as u32),
            None => None,
        }
    }
}

/// A 64-bit count is saved as a whole number.
impl Saved for u64 {
    open spec fn form(value: u64) -> JsonView {
        JsonView::unsigned(value)
    }

    open spec fn read(tree: JsonView) -> Option<u64> {
        tree.as_uint(0xffff_ffff_ffff_ffff)
    }

    proof fn lemma_read_form(value: u64) {
    }

    fn to_json(&self) -> (r: Json) {
        Json::unsigned(*self)
    }

    fn from_json(tree: &Json) -> (r: Option<u64>) {
        tree.as_uint(0xffff_ffff_ffff_ffff)
    }
}

/// A signed 32-bit value is saved as a whole number and read back only from
/// one that fits.
impl Saved for i32 {
    open spec fn form(value: i32) -> JsonView {
        JsonView::signed(value)
    }

    open spec fn read(tree: JsonView) -> Option<i32> {
        tree.as_i32()
    }

    proof fn lemma_read_form(value: i32) {
    }

    fn to_json(&self) -> (r: Json) {
        Json::signed(*self)
    }

    fn from_json(tree: &Json) -> (r: Option<i32>) {
        tree.as_i32()
    }
}

/// A pair is saved as an array of two and read back only from an array of
/// exactly two.
impl<A: Saved, B: Saved> Saved for (A, B) {
    open spec fn form(value: (A::V, B::V)) -> JsonView {
        JsonView::Array(Seq::empty().push(A::form(value.0)).push(B::form(value.1)))
    }

    open spec fn read(tree: JsonView) -> Option<(A::V, B::V)> {
        match tree {
            JsonView::Array(items) => if items.len() == 2 && A::read(items[0]) is Some && B::read(
                items[1],
            ) is Some {
                Some((A::read(items[0])->0, B::read(items[1])->0))
            } else {
                None
            },
            _ => None,
        }
    }

    proof fn lemma_read_form(value: (A::V, B::V)) {
        A::lemma_read_form(value.0);
        B::lemma_read_form(value.1);
    }

    fn to_json(&self) -> (r: Json) {
        let items = Vec::new();
        assert(items_view(items) =~= Seq::empty());
        let items = with_item(items, self.0.to_json());
        let items = with_item(items, self.1.to_json());
        Json::array(items)
    }

    fn from_json(tree: &Json) -> (r: Option<(A, B)>) {
        match tree.as_array() {
            Some(items) => {
                if items.len() != 2 {
                    return None;
                }
                match (A::from_json(&items[0]), B::from_json(&items[1])) {
                    (Some(first), Some(second)) => Some((first, second)),
                    _ => None,
                }
            },
            None => None,
        }
    }
}

/// A list is saved as an array of its values.
impl<T: Saved> Saved for Vec<T> {
    open spec fn form(value: Seq<T::V>) -> JsonView {
        list_form::<T>(value)
    }

    open spec fn read(tree: JsonView) -> Option<Seq<T::V>> {
        list_read::<T>(tree)
    }

    proof fn lemma_read_form(value: Seq<T::V>) {
        lemma_list_read_form::<T>(value);
    }

    fn to_json(&self) -> (r: Json) {
        list_to_json(self)
    }

    fn from_json(tree: &Json) -> (r: Option<Vec<T>>) {
        list_from_json(tree)
    }
}

} // verus!
