//! The item as callers see it, and the request to create one.

use crate::entities::items::Items;
use crate::time_helper::{tells, IntoTimerHelper};
use std::sync::Arc;
use vstd::prelude::*;

verus! {

/// The kinds of item that the service knows. The set is closed.
#[derive(Clone, Copy, Debug, PartialEq, Eq, Structural)]
pub enum Category {
    Staff,
    Sword,
}

impl Category {
    /// The word under which the category is stored and sent.
    pub open spec fn name(self) -> Seq<char> {
        match self {
            Category::Staff => "Staff"@,
            Category::Sword => "Sword"@,
        }
    }

    /// The category that a stored word stands for: the one whose name it is,
    /// letter for letter.
    pub open spec fn decode(word: Seq<char>) -> Option<Category> {
        if word == Category::Staff.name() {
            Some(Category::Staff)
        } else if word == Category::Sword.name() {
            Some(Category::Sword)
        } else {
            None
        }
    }

    /// The category's name as an owned string.
    pub fn to_string(&self) -> (word: String)
        ensures
            word@ == self.name(),
    {
        match self {
            Category::Staff => String::from_str("Staff"),
            Category::Sword => String::from_str("Sword"),
        }
    }
}

/// A category survives being written down and read again: the word that
/// names a category decodes to that category, and so to the same word.
pub proof fn lemma_category_round_trip(category: Category)
    ensures
        Category::decode(category.name()) == Some(category),
        Category::decode(category.name())->0.name() == category.name(),
{
    reveal_strlit("Staff");
    reveal_strlit("Sword");
    assert("Staff"@[1] != "Sword"@[1]);
}

/// A stored item as it is sent to callers.
#[derive(Debug, PartialEq)]
pub struct Item {
    pub id: i32,
    pub name: String,
    pub category: Category,
}

/// An [`Item`] as a value of mathematics.
#[verifier::ext_equal]
pub struct ItemView {
    pub id: i32,
    pub name: Seq<char>,
    pub category: Category,
}

impl View for Item {
    type V = ItemView;

    open spec fn view(&self) -> ItemView {
        ItemView { id: self.id, name: self.name@, category: self.category }
    }
}

impl Clone for Item {
    fn clone(&self) -> (copy: Self)
        ensures
            copy == *self,
    {
        Item { id: self.id, name: self.name.clone(), category: self.category }
    }
}

impl Item {
    /// The unsaved entity that carries this item's name and category,
    /// stamped with the time that `t` gives. The id stays behind.
    pub fn to_entity<T: IntoTimerHelper>(&self, t: Arc<T>) -> (entity: Items)
        ensures
            entity@.is_fresh(self@.name, self@.category.name()),
            tells(&*t, entity@.created_at),
    {
        Items::new(self.name.clone(), self.category.to_string(), t)
    }
}

/// A request to create an item.
#[derive(Debug, PartialEq)]
pub struct StaffAdding {
    pub name: String,
    pub category: Category,
}

/// A [`StaffAdding`] as a value of mathematics.
#[verifier::ext_equal]
pub struct StaffAddingView {
    pub name: Seq<char>,
    pub category: Category,
}

impl View for StaffAdding {
    type V = StaffAddingView;

    open spec fn view(&self) -> StaffAddingView {
        StaffAddingView { name: self.name@, category: self.category }
    }
}

impl Clone for StaffAdding {
    fn clone(&self) -> (copy: Self)
        ensures
            copy == *self,
    {
        StaffAdding { name: self.name.clone(), category: self.category }
    }
}

impl StaffAdding {
    /// The unsaved entity that this request asks for, stamped with the time
    /// that `t` gives.
    pub fn to_entity<T: IntoTimerHelper>(&self, t: Arc<T>) -> (entity: Items)
        ensures
            entity@.is_fresh(self@.name, self@.category.name()),
            tells(&*t, entity@.created_at),
    {
        Items::new(self.name.clone(), self.category.to_string(), t)
    }
}

} // verus!
