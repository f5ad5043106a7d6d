//! The item as the store holds it.

use crate::models::error::{APIError, APIErrorView};
use crate::models::item::{Category, Item, ItemView};
use crate::time_helper::{tells, IntoTimerHelper, Timestamp};
use crate::views::result_view;
use std::sync::Arc;
use vstd::prelude::*;

verus! {

/// A row of the store. It has no id until the store has made one; its
/// category is kept as a word, which only a known word lets out again.
#[derive(Debug, PartialEq)]
pub struct Items {
    pub id: Option<i32>,
    pub name: String,
    pub category: String,
    pub created_at: Timestamp,
    pub updated_at: Timestamp,
}

/// An [`Items`] as a value of mathematics.
#[verifier::ext_equal]
pub struct ItemsView {
    pub id: Option<i32>,
    pub name: Seq<char>,
    pub category: Seq<char>,
    pub created_at: Timestamp,
    pub updated_at: Timestamp,
}

impl View for Items {
    type V = ItemsView;

    open spec fn view(&self) -> ItemsView {
        ItemsView {
            id: self.id,
            name: self.name@,
            category: self.category@,
            created_at: self.created_at,
            updated_at: self.updated_at,
        }
    }
}

impl ItemsView {
    /// The entity that has never been stored: no id, and both stamps at the
    /// one instant `at`.
    pub open spec fn fresh(name: Seq<char>, category: Seq<char>, at: Timestamp) -> ItemsView {
        ItemsView { id: None, name, category, created_at: at, updated_at: at }
    }

    /// Whether this is the fresh entity of that name and category, stamped
    /// at whatever instant it says it was made.
    pub open spec fn is_fresh(self, name: Seq<char>, category: Seq<char>) -> bool {
        self == ItemsView::fresh(name, category, self.created_at)
    }

    /// What callers get to see of a stored entity: the item, or the word
    /// that is no category.
    pub open spec fn to_model(self) -> Result<ItemView, APIErrorView>
        recommends
            self.id is Some,
    {
        match Category::decode(self.category) {
            Some(category) => Ok(ItemView { id: self.id->0, name: self.name, category }),
            None => Err(APIErrorView::InvalidCategory(self.category)),
        }
    }
}

/// A word that names no category lets no item out: it decodes to nothing,
/// and the entity that carries it is shown only as `InvalidCategory` with
/// that word.
pub proof fn lemma_unknown_category_is_refused(row: ItemsView)
    requires
        forall|category: Category| row.category != #[trigger] category.name(),
    ensures
        Category::decode(row.category) is None,
        row.to_model() == Err::<ItemView, APIErrorView>(
            APIErrorView::InvalidCategory(row.category),
        ),
{
}

impl Clone for Items {
    fn clone(&self) -> (copy: Self)
        ensures
            copy == *self,
    {
        Items {
            id: self.id,
            name: self.name.clone(),
            category: self.category.clone(),
            created_at: self.created_at,
            updated_at: self.updated_at,
        }
    }
}

impl Items {
    /// The fresh entity of that name and category, stamped at `at`.
    pub fn stamped(name: String, category: String, at: Timestamp) -> (entity: Items)
        ensures
            entity@ == ItemsView::fresh(name@, category@, at),
    {
        Items { id: None, name, category, created_at: at, updated_at: at }
    }

    /// The fresh entity of that name and category, stamped at the time that
    /// `t` gives. `t` is asked once, so both stamps agree.
    pub fn new<T: IntoTimerHelper>(name: String, category: String, t: Arc<T>) -> (entity: Items)
        ensures
            entity@.is_fresh(name@, category@),
            tells(&*t, entity@.created_at),
    {
        let at = t.now();
        Items::stamped(name, category, at)
    }

    /// The item that callers see. A stored category that is no known word
    /// comes back as the error that names it.
    pub fn to_model(&self) -> (model: Result<Item, APIError>)
        requires
            self@.id is Some,
        ensures
            result_view(model) == self@.to_model(),
    {
        let category = match self.get_category() {
            Some(category) => category,
            None => {
                return Err(APIError::InvalidCategory(self.category.clone()));
            },
        };
        Ok(Item { id: self.id.unwrap(), name: self.name.clone(), category })
    }

    /// The category that the stored word stands for.
    pub fn get_category(&self) -> (category: Option<Category>)
        ensures
            category == Category::decode(self@.category),
    {
        if self.category == String::from_str("Staff") {
            Some(Category::Staff)
        } else if self.category == String::from_str("Sword") {
            Some(Category::Sword)
        } else {
            None
        }
    }
}

} // verus!
