//! The answer to a request to create an item.

use crate::models::error::{
    APIError, APIErrorView, ErrorResponse, ErrorResponseView, IntoErrorResponse,
};
use crate::models::item::{Item, ItemView, StaffAdding};
use crate::repositories::items::ItemsRepository;
use crate::time_helper::IntoTimerHelper;
use crate::usecases::staff::{adds, StaffUsecase};
use crate::views::result_view;
use std::sync::Arc;
use vstd::prelude::*;

verus! {

/// The status of a request that made something new.
pub const CREATED: u16 = 201;

/// What the caller of the service gets back: the item that now exists, or
/// what is told of the failure.
#[derive(Debug, PartialEq)]
pub enum StaffAddingResponse {
    Created(Item),
    Failed(ErrorResponse),
}

/// A [`StaffAddingResponse`] as a value of mathematics.
#[verifier::ext_equal]
pub enum StaffAddingResponseView {
    Created(ItemView),
    Failed(ErrorResponseView),
}

impl View for StaffAddingResponse {
    type V = StaffAddingResponseView;

    open spec fn view(&self) -> StaffAddingResponseView {
        match self {
            StaffAddingResponse::Created(item) => StaffAddingResponseView::Created(item@),
            StaffAddingResponse::Failed(failure) => StaffAddingResponseView::Failed(failure@),
        }
    }
}

impl StaffAddingResponseView {
    /// The answer to a creation that ended in `outcome`.
    pub open spec fn of(outcome: Result<ItemView, APIErrorView>) -> StaffAddingResponseView {
        match outcome {
            Ok(item) => StaffAddingResponseView::Created(item),
            Err(error) => StaffAddingResponseView::Failed(error.response()),
        }
    }

    /// The HTTP status under which the answer is sent.
    pub open spec fn status_code(self) -> u16 {
        match self {
            StaffAddingResponseView::Created(_) => CREATED,
            StaffAddingResponseView::Failed(failure) => failure.status_code,
        }
    }
}

impl StaffAddingResponse {
    /// The answer to a creation that ended in `outcome`.
    pub fn of(outcome: Result<Item, APIError>) -> (response: StaffAddingResponse)
        ensures
            response@ == StaffAddingResponseView::of(result_view(outcome)),
    {
        match outcome {
            Ok(item) => StaffAddingResponse::Created(item),
            Err(error) => StaffAddingResponse::Failed(error.error()),
        }
    }

    /// The HTTP status under which the answer is sent.
    pub fn status_code(&self) -> (status: u16)
        ensures
            status == self@.status_code(),
    {
        match self {
            StaffAddingResponse::Created(_) => CREATED,
            StaffAddingResponse::Failed(failure) => failure.status_code,
        }
    }
}

/// Handles a request to create the item `body`: has `staff_usecase` create
/// it, and answers with what came of it.
///
/// The response is the one that belongs to an outcome in which the creation
/// may end against the use case's store.
pub fn staff_adding<R: ItemsRepository, T: IntoTimerHelper>(
    body: StaffAdding,
    staff_usecase: Arc<StaffUsecase<R, T>>,
) -> (response: StaffAddingResponse)
    ensures
        exists|outcome: Result<ItemView, APIErrorView>|
            #[trigger] adds(&*staff_usecase.repository(), &*staff_usecase.timer(), body, outcome)
                && response@ == StaffAddingResponseView::of(outcome),
{
    let outcome = staff_usecase.adding(body);
    StaffAddingResponse::of(outcome)
}

} // verus!
