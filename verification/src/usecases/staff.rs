//! The creation of an item against a store.

use crate::entities::items::{Items, ItemsView};
use crate::models::error::{APIError, APIErrorView};
use crate::models::item::{Category, Item, ItemView, StaffAdding};
use crate::repositories::items::{
    finds_by_id, finds_by_name, inserts, ItemsRepository, StoreError, StoreErrorView,
};
use crate::repositories::staff::generated_id_of;
use crate::time_helper::{tells, IntoTimerHelper};
use crate::usecases::adding::{adding_outcome, Adding, Reply, Request, RequestView};
use crate::views::result_view;
use std::sync::Arc;
use vstd::prelude::*;

verus! {

/// Whether this is an account of one creation of the item `staff` against
/// `store`, with `timer` for the time: what the store answered to the search
/// by name; and, where that left the name free, the entity that was made, at
/// a time that `timer` gave, what the store answered when asked to take it,
/// and, where that gave an id, what it answered to the search for that id.
pub open spec fn answered<R: ItemsRepository, T: IntoTimerHelper>(
    store: &R,
    timer: &T,
    staff: StaffAdding,
    by_name: Result<Items, StoreError>,
    entity: Items,
    inserted: Result<i32, StoreError>,
    by_id: Result<Items, StoreError>,
) -> bool {
    &&& finds_by_name(store, staff.name, by_name)
    &&& by_name is Err ==> {
        &&& entity@ == ItemsView::fresh(staff@.name, staff@.category.name(), entity.created_at)
        &&& tells(timer, entity.created_at)
        &&& inserts(store, entity, inserted)
        &&& inserted matches Ok(id) ==> finds_by_id(store, id, by_id)
    }
}

/// Whether `outcome` is a way in which the creation of the item `staff` may
/// end against `store`, with `timer` for the time: the outcome that
/// [`adding_outcome`] gives for answers that the store may give, each to the
/// request that the workflow makes of it.
pub open spec fn adds<R: ItemsRepository, T: IntoTimerHelper>(
    store: &R,
    timer: &T,
    staff: StaffAdding,
    outcome: Result<ItemView, APIErrorView>,
) -> bool {
    exists|
        by_name: Result<Items, StoreError>,
        entity: Items,
        inserted: Result<i32, StoreError>,
        by_id: Result<Items, StoreError>,
    |
        #[trigger] answered(store, timer, staff, by_name, entity, inserted, by_id) && outcome
            == adding_outcome(
            staff@,
            result_view(by_name),
            result_view(inserted),
            result_view(by_id),
        )
}

/// Against a store that holds the name, the creation fails: where every
/// answer that the store may give to the search for the name of `staff` is a
/// found item, the only way in which the creation may end is
/// `ItemAlreadyExists` with that name.
pub proof fn lemma_adding_refuses_a_taken_name<R: ItemsRepository, T: IntoTimerHelper>(
    store: &R,
    timer: &T,
    staff: StaffAdding,
    outcome: Result<ItemView, APIErrorView>,
)
    requires
        adds(store, timer, staff, outcome),
        forall|found: Result<Items, StoreError>| #[trigger]
            finds_by_name(store, staff.name, found) ==> found is Ok,
    ensures
        outcome == Err::<ItemView, APIErrorView>(APIErrorView::ItemAlreadyExists(staff@.name)),
{
}

/// Against a store that takes the item and shows it, the creation gives
/// what the store shows: where the store does not find the name, answers
/// every insert with `id` and every search for `id` with a row like `shown`,
/// which has an id and a category that decodes, the only way in which the
/// creation may end is the item of that row.
pub proof fn lemma_adding_shows_the_stored_item<R: ItemsRepository, T: IntoTimerHelper>(
    store: &R,
    timer: &T,
    staff: StaffAdding,
    id: i32,
    shown: ItemsView,
    category: Category,
    outcome: Result<ItemView, APIErrorView>,
)
    requires
        adds(store, timer, staff, outcome),
        forall|found: Result<Items, StoreError>| #[trigger]
            finds_by_name(store, staff.name, found) ==> found is Err,
        forall|entity: Items, inserted: Result<i32, StoreError>| #[trigger]
            inserts(store, entity, inserted) ==> inserted == Ok::<i32, StoreError>(id),
        forall|found: Result<Items, StoreError>| #[trigger]
            finds_by_id(store, id, found) ==> result_view(found) == Ok::<ItemsView, StoreErrorView>(
                shown,
            ),
        shown.id is Some,
        Category::decode(shown.category) == Some(category),
    ensures
        outcome == Ok::<ItemView, APIErrorView>(
            ItemView { id: shown.id->0, name: shown.name, category },
        ),
{
}

/// Against a store that takes the item and then cannot show it, the
/// creation reports the loss: where the store does not find the name,
/// answers every insert with `id` and fails every search for `id`, the only
/// way in which the creation may end is `ItemNotFound` with that id.
pub proof fn lemma_adding_reports_a_lost_row<R: ItemsRepository, T: IntoTimerHelper>(
    store: &R,
    timer: &T,
    staff: StaffAdding,
    id: i32,
    outcome: Result<ItemView, APIErrorView>,
)
    requires
        adds(store, timer, staff, outcome),
        forall|found: Result<Items, StoreError>| #[trigger]
            finds_by_name(store, staff.name, found) ==> found is Err,
        forall|entity: Items, inserted: Result<i32, StoreError>| #[trigger]
            inserts(store, entity, inserted) ==> inserted == Ok::<i32, StoreError>(id),
        forall|found: Result<Items, StoreError>| #[trigger]
            finds_by_id(store, id, found) ==> found is Err,
    ensures
        outcome == Err::<ItemView, APIErrorView>(APIErrorView::ItemNotFound(id)),
{
}

/// Against a store whose inserts come back without an id, the creation
/// fails as on any failure of the store: where the store does not find the
/// name and answers every insert as a row without an id is read, the only
/// way in which the creation may end is `AddingItemError`, whatever the
/// store would answer to a search by id.
pub proof fn lemma_adding_fails_on_an_insert_without_id<R: ItemsRepository, T: IntoTimerHelper>(
    store: &R,
    timer: &T,
    staff: StaffAdding,
    row: ItemsView,
    outcome: Result<ItemView, APIErrorView>,
)
    requires
        adds(store, timer, staff, outcome),
        forall|found: Result<Items, StoreError>| #[trigger]
            finds_by_name(store, staff.name, found) ==> found is Err,
        forall|entity: Items, inserted: Result<i32, StoreError>| #[trigger]
            inserts(store, entity, inserted) ==> result_view(inserted) == generated_id_of(row),
        row.id is None,
    ensures
        outcome == Err::<ItemView, APIErrorView>(
            APIErrorView::AddingItemError(StoreErrorView::RowNotFound),
        ),
{
}

/// Whether the search for the name of `staff` was answered with `by_name`,
/// which left the name free, and `entity` is the entity that was then made,
/// at a time that `timer` gave.
spec fn name_was_free<R: ItemsRepository, T: IntoTimerHelper>(
    store: &R,
    timer: &T,
    staff: StaffAdding,
    by_name: Result<Items, StoreError>,
    entity: Items,
) -> bool {
    &&& finds_by_name(store, staff.name, by_name)
    &&& by_name is Err
    &&& entity@ == ItemsView::fresh(staff@.name, staff@.category.name(), entity.created_at)
    &&& tells(timer, entity.created_at)
}

/// Whether `state` is where the creation of the item `staff` stands after
/// the given answers, as far as they have been asked for.
spec fn reached<R: ItemsRepository, T: IntoTimerHelper>(
    store: &R,
    timer: &T,
    staff: StaffAdding,
    state: Adding,
    by_name: Result<Items, StoreError>,
    entity: Items,
    inserted: Result<i32, StoreError>,
    by_id: Result<Items, StoreError>,
) -> bool {
    match state {
        Adding::CheckingName { staff: asked } => asked == staff,
        Adding::Inserting { entity: made } => {
            &&& made == entity
            &&& name_was_free(store, timer, staff, by_name, entity)
        },
        Adding::Confirming { id } => {
            &&& name_was_free(store, timer, staff, by_name, entity)
            &&& inserts(store, entity, inserted)
            &&& inserted == Ok::<i32, StoreError>(id)
        },
        Adding::Finished { outcome } => adds(store, timer, staff, result_view(outcome)),
    }
}

/// The creation of items against one store, with one source of time.
pub struct StaffUsecase<R: ItemsRepository, T: IntoTimerHelper> {
    items_repository: Arc<R>,
    timer_helper: Arc<T>,
}

impl<R: ItemsRepository, T: IntoTimerHelper> StaffUsecase<R, T> {
    /// The store that this use case works against.
    pub closed spec fn repository(&self) -> Arc<R> {
        self.items_repository
    }

    /// The source of time that this use case stamps new items with.
    pub closed spec fn timer(&self) -> Arc<T> {
        self.timer_helper
    }

    /// A use case over that store and that source of time, behind a shared
    /// pointer.
    pub fn creation(items_repository: Arc<R>, timer_helper: Arc<T>) -> (usecase: Arc<Self>)
        ensures
            usecase.repository() == items_repository,
            usecase.timer() == timer_helper,
    {
        Arc::new(Self { items_repository, timer_helper })
    }

    /// Puts `request` to the store and hands back its answer.
    fn ask(&self, request: Request) -> (reply: Reply)
        requires
            request@ matches RequestView::Insert(entity) ==> entity.id is None,
        ensures
            match request {
                Request::FindByName(name) => reply matches Reply::Found(found) && finds_by_name(
                    &*self.items_repository,
                    name,
                    found,
                ),
                Request::Insert(entity) => reply matches Reply::Inserted(inserted) && inserts(
                    &*self.items_repository,
                    entity,
                    inserted,
                ),
                Request::FindById(id) => reply matches Reply::Found(found) && finds_by_id(
                    &*self.items_repository,
                    id,
                    found,
                ),
            },
    {
        match request {
            Request::FindByName(name) => Reply::Found(self.items_repository.find_by_name(name)),
            Request::Insert(entity) => Reply::Inserted(self.items_repository.insert(entity)),
            Request::FindById(id) => Reply::Found(self.items_repository.find_by_id(id)),
        }
    }

    /// Creates the item that `staff` asks for: runs [`Adding`] against the
    /// store until the work is over, and gives the outcome.
    ///
    /// What the store answers is up to the store. The outcome is the one
    /// that belongs to what it did answer, to the requests that the workflow
    /// makes and to no others.
    pub fn adding(&self, staff: StaffAdding) -> (outcome: Result<Item, APIError>)
        ensures
            adds(&*self.repository(), &*self.timer(), staff, result_view(outcome)),
    {
        let ghost store = &*self.items_repository;
        let ghost timer = &*self.timer_helper;
        let ghost mut by_name: Result<Items, StoreError> = arbitrary();
        let ghost mut entity: Items = arbitrary();
        let ghost mut inserted: Result<i32, StoreError> = arbitrary();
        let ghost mut by_id: Result<Items, StoreError> = arbitrary();
        let mut state = Adding::start(staff);
        let mut pending = state.request();
        while pending.is_some()
            invariant
                store == &*self.items_repository,
                timer == &*self.timer_helper,
                pending == state.asks(),
                state@.wf(),
                reached(store, timer, staff, state, by_name, entity, inserted, by_id),
            decreases state@.pending(),
        {
            let ghost before = state;
            let reply = self.ask(pending.unwrap());
            let ghost given = reply;
            proof {
                match (before, given) {
                    (Adding::CheckingName { .. }, Reply::Found(found)) => {
                        by_name = found;
                    },
                    (Adding::Inserting { .. }, Reply::Inserted(made)) => {
                        inserted = made;
                    },
                    (Adding::Confirming { .. }, Reply::Found(found)) => {
                        by_id = found;
                    },
                    _ => {},
                }
            }
            state = state.step(reply, &self.timer_helper);
            pending = state.request();
            let ghost after = state;
            proof {
                if let Adding::Inserting { entity: made } = after {
                    entity = made;
                }
                if after is Finished {
                    assert(answered(store, timer, staff, by_name, entity, inserted, by_id));
                }
            }
        }
        state.outcome().unwrap()
    }
}

} // verus!
