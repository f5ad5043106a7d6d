//! The creation of an item, step by step.
//!
//! An item is created in three exchanges with the store: is the name taken,
//! store the new item, show what was stored. The order never changes, and the
//! first exchange that goes wrong ends the work. [`Adding`] holds that order
//! as a state machine that makes no call itself: it says what to ask next and
//! takes the answer. Whoever runs it, blocking or not, only carries the
//! requests out.
//!
//! The search for the name and the insert are two exchanges. Nothing here
//! makes them one: two requests for the same name that run side by side may
//! both find the name free and both insert. Only a store that refuses a
//! second row of the same name closes that gap.

use crate::entities::items::{Items, ItemsView};
use crate::models::error::{APIError, APIErrorView, INTERNAL_SERVER_ERROR};
use crate::models::item::{Category, Item, ItemView, StaffAdding, StaffAddingView};
use crate::repositories::items::{StoreError, StoreErrorView};
use crate::repositories::staff::generated_id_of;
use crate::time_helper::{tells, IntoTimerHelper, Timestamp};
use crate::views::{option_view, result_view};
use std::sync::Arc;
use vstd::prelude::*;

verus! {

/// What the workflow asks of the store.
#[derive(Debug, PartialEq)]
pub enum Request {
    FindByName(String),
    Insert(Items),
    FindById(i32),
}

/// A [`Request`] as a value of mathematics.
#[verifier::ext_equal]
pub enum RequestView {
    FindByName(Seq<char>),
    Insert(ItemsView),
    FindById(i32),
}

impl View for Request {
    type V = RequestView;

    open spec fn view(&self) -> RequestView {
        match self {
            Request::FindByName(name) => RequestView::FindByName(name@),
            Request::Insert(entity) => RequestView::Insert(entity@),
            Request::FindById(id) => RequestView::FindById(*id),
        }
    }
}

/// What the store answered: to a search, the row or why there is none; to
/// an insert, the new id or why there is none.
#[derive(Debug, PartialEq)]
pub enum Reply {
    Found(Result<Items, StoreError>),
    Inserted(Result<i32, StoreError>),
}

/// A [`Reply`] as a value of mathematics.
#[verifier::ext_equal]
pub enum ReplyView {
    Found(Result<ItemsView, StoreErrorView>),
    Inserted(Result<i32, StoreErrorView>),
}

impl View for Reply {
    type V = ReplyView;

    open spec fn view(&self) -> ReplyView {
        match self {
            Reply::Found(found) => ReplyView::Found(result_view(*found)),
            Reply::Inserted(inserted) => ReplyView::Inserted(result_view(*inserted)),
        }
    }
}

/// How far the creation of one item has come.
#[derive(Debug, PartialEq)]
pub enum Adding {
    /// The store is being asked whether the name is taken.
    CheckingName { staff: StaffAdding },
    /// The name is free, and the store is being asked to take the entity.
    Inserting { entity: Items },
    /// The store has made an id, and is being asked to show the row.
    Confirming { id: i32 },
    /// The work is over, in this way.
    Finished { outcome: Result<Item, APIError> },
}

/// An [`Adding`] as a value of mathematics.
#[verifier::ext_equal]
pub enum AddingView {
    CheckingName { staff: StaffAddingView },
    Inserting { entity: ItemsView },
    Confirming { id: i32 },
    Finished { outcome: Result<ItemView, APIErrorView> },
}

impl View for Adding {
    type V = AddingView;

    open spec fn view(&self) -> AddingView {
        match self {
            Adding::CheckingName { staff } => AddingView::CheckingName { staff: staff@ },
            Adding::Inserting { entity } => AddingView::Inserting { entity: entity@ },
            Adding::Confirming { id } => AddingView::Confirming { id: *id },
            Adding::Finished { outcome } => AddingView::Finished { outcome: result_view(*outcome) },
        }
    }
}

/// What the last search decides. A store that cannot show the row under
/// the new id has lost it; so has one that shows a row without an id. A row
/// whose category is no known word is reported by that word.
pub open spec fn confirmed(id: i32, found: Result<ItemsView, StoreErrorView>) -> Result<
    ItemView,
    APIErrorView,
> {
    match found {
        Err(_) => Err(APIErrorView::ItemNotFound(id)),
        Ok(row) => if row.id is None && Category::decode(row.category) is Some {
            Err(APIErrorView::ItemNotFound(id))
        } else {
            row.to_model()
        },
    }
}

impl AddingView {
    /// Where the work begins.
    pub open spec fn start(staff: StaffAddingView) -> AddingView {
        AddingView::CheckingName { staff }
    }

    /// What is to be asked of the store now; nothing once the work is over.
    pub open spec fn request(self) -> Option<RequestView> {
        match self {
            AddingView::CheckingName { staff } => Some(RequestView::FindByName(staff.name)),
            AddingView::Inserting { entity } => Some(RequestView::Insert(entity)),
            AddingView::Confirming { id } => Some(RequestView::FindById(id)),
            AddingView::Finished { .. } => None,
        }
    }

    /// Where the work stands once the store has answered with `reply`, if a
    /// new entity is stamped at `at`.
    ///
    /// A name that the store finds is taken, whatever row it shows. A name
    /// that it does not find is free, and so is one on which the search
    /// itself failed: the insert is tried all the same. An answer of the
    /// wrong kind, or any answer once the work is over, changes nothing.
    pub open spec fn step(self, reply: ReplyView, at: Timestamp) -> AddingView {
        match (self, reply) {
            (AddingView::CheckingName { staff }, ReplyView::Found(found)) => match found {
                Ok(_) => AddingView::Finished {
                    outcome: Err(APIErrorView::ItemAlreadyExists(staff.name)),
                },
                Err(_) => AddingView::Inserting {
                    entity: ItemsView::fresh(staff.name, staff.category.name(), at),
                },
            },
            (AddingView::Inserting { .. }, ReplyView::Inserted(inserted)) => match inserted {
                Ok(id) => AddingView::Confirming { id },
                Err(cause) => AddingView::Finished {
                    outcome: Err(APIErrorView::AddingItemError(cause)),
                },
            },
            (AddingView::Confirming { id }, ReplyView::Found(found)) => AddingView::Finished {
                outcome: confirmed(id, found),
            },
            _ => self,
        }
    }

    /// Whether this step makes the new entity, and so asks for the time.
    pub open spec fn stamps(self, reply: ReplyView) -> bool {
        self is CheckingName && reply matches ReplyView::Found(Err(_))
    }

    /// Whether the state is one that the machine may be in: the entity that
    /// it asks the store to take has no id. The start is such a state, and
    /// every step leads from one to another.
    pub open spec fn wf(self) -> bool {
        self matches AddingView::Inserting { entity } ==> entity.id is None
    }

    /// How many exchanges with the store are still to come, at most.
    pub open spec fn pending(self) -> nat {
        match self {
            AddingView::CheckingName { .. } => 3,
            AddingView::Inserting { .. } => 2,
            AddingView::Confirming { .. } => 1,
            AddingView::Finished { .. } => 0,
        }
    }
}

impl Adding {
    /// What is to be asked of the store now, with the very values that go
    /// to it.
    pub open spec fn asks(self) -> Option<Request> {
        match self {
            Adding::CheckingName { staff } => Some(Request::FindByName(staff.name)),
            Adding::Inserting { entity } => Some(Request::Insert(entity)),
            Adding::Confirming { id } => Some(Request::FindById(id)),
            Adding::Finished { .. } => None,
        }
    }

    /// Begins the creation of the item that `staff` asks for.
    pub fn start(staff: StaffAdding) -> (state: Adding)
        ensures
            state == (Adding::CheckingName { staff }),
            state@ == AddingView::start(staff@),
            state@.wf(),
    {
        Adding::CheckingName { staff }
    }

    /// What is to be asked of the store now; nothing once the work is over.
    pub fn request(&self) -> (request: Option<Request>)
        ensures
            request == self.asks(),
            option_view(request) == self@.request(),
    {
        match self {
            Adding::CheckingName { staff } => Some(Request::FindByName(staff.name.clone())),
            Adding::Inserting { entity } => Some(Request::Insert(entity.clone())),
            Adding::Confirming { id } => Some(Request::FindById(*id)),
            Adding::Finished { .. } => None,
        }
    }

    /// Takes the store's answer and moves on. Where a new entity is made,
    /// `timer` is asked for the time, once, and the entity is stamped with
    /// what it gives.
    pub fn step<T: IntoTimerHelper>(self, reply: Reply, timer: &Arc<T>) -> (next: Adding)
        ensures
            exists|at: Timestamp|
                next@ == #[trigger] self@.step(reply@, at) && (self@.stamps(reply@) ==> tells(
                    &**timer,
                    at,
                )),
            self@.wf() ==> next@.wf(),
    {
        let ghost unasked = Timestamp::epoch();
        match (self, reply) {
            (Adding::CheckingName { staff }, Reply::Found(found)) => match found {
                Ok(_) => {
                    let next = Adding::Finished {
                        outcome: Err(APIError::ItemAlreadyExists(staff.name.clone())),
                    };
                    assert(next@ == self@.step(reply@, unasked) && !self@.stamps(reply@));
                    next
                },
                Err(_) => {
                    let entity = staff.to_entity(share(timer));
                    let next = Adding::Inserting { entity };
                    assert(next@ == self@.step(reply@, entity.created_at) && tells(
                        &**timer,
                        entity.created_at,
                    ));
                    next
                },
            },
            (Adding::Inserting { entity }, Reply::Inserted(inserted)) => {
                let next = match inserted {
                    Ok(id) => Adding::Confirming { id },
                    Err(cause) => Adding::Finished { outcome: Err(APIError::AddingItemError(cause)) },
                };
                assert(next@ == self@.step(reply@, unasked) && !self@.stamps(reply@));
                next
            },
            (Adding::Confirming { id }, Reply::Found(found)) => {
                let outcome = match found {
                    Err(_) => Err(APIError::ItemNotFound(id)),
                    Ok(row) => if row.id.is_none() && row.get_category().is_some() {
                        Err(APIError::ItemNotFound(id))
                    } else if row.id.is_none() {
                        Err(APIError::InvalidCategory(row.category.clone()))
                    } else {
                        row.to_model()
                    },
                };
                let next = Adding::Finished { outcome };
                assert(next@ == self@.step(reply@, unasked) && !self@.stamps(reply@));
                next
            },
            (state, _) => {
                assert(state@ == self@.step(reply@, unasked) && !self@.stamps(reply@));
                state
            },
        }
    }

    /// How the work ended, once it is over; nothing before that.
    pub fn outcome(self) -> (outcome: Option<Result<Item, APIError>>)
        ensures
            match outcome {
                Some(ended) => self@ == (AddingView::Finished { outcome: result_view(ended) }),
                None => !(self@ is Finished),
            },
    {
        match self {
            Adding::Finished { outcome } => Some(outcome),
            _ => None,
        }
    }
}

/// A second pointer to what `shared` points to, by `Arc::clone`.
///
/// Trusted: the clone points to the same value as the pointer it was made
/// from.
#[verifier::external_body]
fn share<T>(shared: &Arc<T>) -> (other: Arc<T>)
    ensures
        other == *shared,
{
    Arc::clone(shared)
}

/// How the creation of an item ends, if the store answers the search by
/// name with `by_name`, the insert with `inserted` and the search by id with
/// `by_id`. An answer that is never asked for does not count.
pub open spec fn adding_outcome(
    staff: StaffAddingView,
    by_name: Result<ItemsView, StoreErrorView>,
    inserted: Result<i32, StoreErrorView>,
    by_id: Result<ItemsView, StoreErrorView>,
) -> Result<ItemView, APIErrorView> {
    if by_name is Ok {
        Err(APIErrorView::ItemAlreadyExists(staff.name))
    } else {
        match inserted {
            Err(cause) => Err(APIErrorView::AddingItemError(cause)),
            Ok(id) => confirmed(id, by_id),
        }
    }
}

/// What the creation of an item asks of such a store, in order, if the new
/// entity is stamped at `at`.
pub open spec fn adding_requests(
    staff: StaffAddingView,
    at: Timestamp,
    by_name: Result<ItemsView, StoreErrorView>,
    inserted: Result<i32, StoreErrorView>,
) -> Seq<RequestView> {
    let find_by_name = RequestView::FindByName(staff.name);
    let insert = RequestView::Insert(ItemsView::fresh(staff.name, staff.category.name(), at));
    if by_name is Ok {
        seq![find_by_name]
    } else {
        match inserted {
            Err(_) => seq![find_by_name, insert],
            Ok(id) => seq![find_by_name, insert, RequestView::FindById(id)],
        }
    }
}

/// The answer that such a store gives to `request`.
pub open spec fn answer(
    request: RequestView,
    by_name: Result<ItemsView, StoreErrorView>,
    inserted: Result<i32, StoreErrorView>,
    by_id: Result<ItemsView, StoreErrorView>,
) -> ReplyView {
    match request {
        RequestView::FindByName(_) => ReplyView::Found(by_name),
        RequestView::Insert(_) => ReplyView::Inserted(inserted),
        RequestView::FindById(_) => ReplyView::Found(by_id),
    }
}

/// The machine run from `state` to its end against such a store: what it
/// asked on the way, and how it ended.
pub open spec fn run(
    state: AddingView,
    at: Timestamp,
    by_name: Result<ItemsView, StoreErrorView>,
    inserted: Result<i32, StoreErrorView>,
    by_id: Result<ItemsView, StoreErrorView>,
) -> (Seq<RequestView>, AddingView)
    decreases state.pending(),
{
    match state.request() {
        None => (Seq::empty(), state),
        Some(request) => {
            let next = state.step(answer(request, by_name, inserted, by_id), at);
            let (asked, end) = run(next, at, by_name, inserted, by_id);
            (seq![request] + asked, end)
        },
    }
}

/// The machine does what the workflow says: run from the start against a
/// store, it asks what [`adding_requests`] lists, in that order and no more,
/// and ends as [`adding_outcome`] says.
pub proof fn lemma_run_is_the_workflow(
    staff: StaffAddingView,
    at: Timestamp,
    by_name: Result<ItemsView, StoreErrorView>,
    inserted: Result<i32, StoreErrorView>,
    by_id: Result<ItemsView, StoreErrorView>,
)
    ensures
        run(AddingView::start(staff), at, by_name, inserted, by_id) == (
            adding_requests(staff, at, by_name, inserted),
            AddingView::Finished { outcome: adding_outcome(staff, by_name, inserted, by_id) },
        ),
{
    reveal_with_fuel(run, 4);
}

/// A name that the store already holds is refused, and the store is never
/// asked to insert it: if the search by name finds an item, the work ends in
/// `ItemAlreadyExists` with that name, and no request on the way is an
/// insert.
pub proof fn lemma_taken_name_is_refused(
    staff: StaffAddingView,
    at: Timestamp,
    by_name: Result<ItemsView, StoreErrorView>,
    inserted: Result<i32, StoreErrorView>,
    by_id: Result<ItemsView, StoreErrorView>,
)
    requires
        by_name is Ok,
    ensures
        adding_outcome(staff, by_name, inserted, by_id) == Err::<ItemView, APIErrorView>(
            APIErrorView::ItemAlreadyExists(staff.name),
        ),
        ({
            let (asked, end) = run(AddingView::start(staff), at, by_name, inserted, by_id);
            &&& end == AddingView::Finished {
                outcome: Err(APIErrorView::ItemAlreadyExists(staff.name)),
            }
            &&& forall|i: int| 0 <= i < asked.len() ==> !(#[trigger] asked[i] is Insert)
        }),
{
    lemma_run_is_the_workflow(staff, at, by_name, inserted, by_id);
}

/// A failure before the insert leaves the store untouched: if the search by
/// name finds an item, that search is all that the store is ever asked.
/// Neither an insert nor a search by id follows.
pub proof fn lemma_taken_name_ends_the_work(
    staff: StaffAddingView,
    at: Timestamp,
    by_name: Result<ItemsView, StoreErrorView>,
    inserted: Result<i32, StoreErrorView>,
    by_id: Result<ItemsView, StoreErrorView>,
)
    requires
        by_name is Ok,
    ensures
        run(AddingView::start(staff), at, by_name, inserted, by_id).0 == seq![
            RequestView::FindByName(staff.name),
        ],
{
    lemma_run_is_the_workflow(staff, at, by_name, inserted, by_id);
}

/// The way through: if the name is free, the insert gives `id` and the
/// search by id shows a stored row of a known category, then the store was
/// asked three things (the name, the fresh entity, the id) and the work ends
/// in the item that the row shows.
pub proof fn lemma_stored_item_is_shown(
    staff: StaffAddingView,
    at: Timestamp,
    by_name: Result<ItemsView, StoreErrorView>,
    id: i32,
    row: ItemsView,
    category: Category,
)
    requires
        by_name is Err,
        row.id is Some,
        Category::decode(row.category) == Some(category),
    ensures
        run(AddingView::start(staff), at, by_name, Ok(id), Ok(row)) == (
            seq![
                RequestView::FindByName(staff.name),
                RequestView::Insert(ItemsView::fresh(staff.name, staff.category.name(), at)),
                RequestView::FindById(id),
            ],
            AddingView::Finished {
                outcome: Ok(ItemView { id: row.id->0, name: row.name, category }),
            },
        ),
{
    lemma_run_is_the_workflow(staff, at, by_name, Ok(id), Ok(row));
}

/// A row that the store took and cannot show is reported, not passed over:
/// if the name is free and the insert gives `id`, but the search by id
/// fails, for want of the row or otherwise, the work ends in `ItemNotFound`
/// with that id.
pub proof fn lemma_lost_row_is_reported(
    staff: StaffAddingView,
    at: Timestamp,
    by_name: Result<ItemsView, StoreErrorView>,
    id: i32,
    by_id: Result<ItemsView, StoreErrorView>,
)
    requires
        by_name is Err,
        by_id is Err,
    ensures
        adding_outcome(staff, by_name, Ok(id), by_id) == Err::<ItemView, APIErrorView>(
            APIErrorView::ItemNotFound(id),
        ),
        run(AddingView::start(staff), at, by_name, Ok(id), by_id).1 == (AddingView::Finished {
            outcome: Err(APIErrorView::ItemNotFound(id)),
        }),
{
    lemma_run_is_the_workflow(staff, at, by_name, Ok(id), by_id);
}

/// An insert that hands back a row without an id is a failure of the store
/// and ends the work as one: with the name free and the insert answered as
/// [`generated_id_of`] reads such a row, the work ends in `AddingItemError`,
/// which is sent as a server error, and no search by id is made. No id is
/// made up on the way.
pub proof fn lemma_insert_without_id_fails(
    staff: StaffAddingView,
    at: Timestamp,
    by_name: Result<ItemsView, StoreErrorView>,
    row: ItemsView,
    by_id: Result<ItemsView, StoreErrorView>,
)
    requires
        by_name is Err,
        row.id is None,
    ensures
        run(AddingView::start(staff), at, by_name, generated_id_of(row), by_id) == (
            seq![
                RequestView::FindByName(staff.name),
                RequestView::Insert(ItemsView::fresh(staff.name, staff.category.name(), at)),
            ],
            AddingView::Finished {
                outcome: Err(APIErrorView::AddingItemError(StoreErrorView::RowNotFound)),
            },
        ),
        adding_outcome(staff, by_name, generated_id_of(row), by_id) matches Err(error)
            && error.status_code() == INTERNAL_SERVER_ERROR,
{
    lemma_run_is_the_workflow(staff, at, by_name, generated_id_of(row), by_id);
}

} // verus!
