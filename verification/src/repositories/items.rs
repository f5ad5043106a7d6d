//! What the service asks of a store, and how a store says that it failed.

use crate::entities::items::Items;
use vstd::prelude::*;

verus! {

/// Why the store could not answer.
#[derive(Debug, PartialEq)]
pub enum StoreError {
    /// The store worked, and holds no row that answers the question.
    RowNotFound,
    /// The store itself failed; the text says how, in the store's own words.
    Failure(String),
}

/// A [`StoreError`] as a value of mathematics.
#[verifier::ext_equal]
pub enum StoreErrorView {
    RowNotFound,
    Failure(Seq<char>),
}

impl View for StoreError {
    type V = StoreErrorView;

    open spec fn view(&self) -> StoreErrorView {
        match self {
            StoreError::RowNotFound => StoreErrorView::RowNotFound,
            StoreError::Failure(text) => StoreErrorView::Failure(text@),
        }
    }
}

impl StoreErrorView {
    /// The failure in words: the name of its kind, or the store's own text.
    pub open spec fn describe(self) -> Seq<char> {
        match self {
            StoreErrorView::RowNotFound => "RowNotFound"@,
            StoreErrorView::Failure(text) => text,
        }
    }
}

impl StoreError {
    /// The failure in words, for a message.
    pub fn describe(&self) -> (text: String)
        ensures
            text@ == self@.describe(),
    {
        match self {
            StoreError::RowNotFound => String::from_str("RowNotFound"),
            StoreError::Failure(text) => text.clone(),
        }
    }
}

impl Clone for StoreError {
    fn clone(&self) -> (copy: Self)
        ensures
            copy == *self,
    {
        match self {
            StoreError::RowNotFound => StoreError::RowNotFound,
            StoreError::Failure(text) => StoreError::Failure(text.clone()),
        }
    }
}

/// A store of items. The service asks three things of it, and any of them
/// may fail with a [`StoreError`].
///
/// Nothing is asked of a store beyond its signatures: it need not keep names
/// apart, and what it answers is taken as it comes.
pub trait ItemsRepository {
    /// The item stored under `name`.
    fn find_by_name(&self, name: String) -> Result<Items, StoreError>;

    /// Stores `item`, which has no id yet, and gives the id that the store
    /// made for it.
    fn insert(&self, item: Items) -> Result<i32, StoreError>
        requires
            item@.id is None,
    ;

    /// The item stored under `id`.
    fn find_by_id(&self, id: i32) -> Result<Items, StoreError>;
}

/// Whether `found` is an answer that `store` may give to a search for
/// `name`.
pub open spec fn finds_by_name<R: ItemsRepository>(
    store: &R,
    name: String,
    found: Result<Items, StoreError>,
) -> bool {
    call_ensures(R::find_by_name, (store, name), found)
}

/// Whether `inserted` is an answer that `store` may give when it is asked
/// to take `item`.
pub open spec fn inserts<R: ItemsRepository>(
    store: &R,
    item: Items,
    inserted: Result<i32, StoreError>,
) -> bool {
    call_ensures(R::insert, (store, item), inserted)
}

/// Whether `found` is an answer that `store` may give to a search for
/// `id`.
pub open spec fn finds_by_id<R: ItemsRepository>(
    store: &R,
    id: i32,
    found: Result<Items, StoreError>,
) -> bool {
    call_ensures(R::find_by_id, (store, id), found)
}

} // verus!
