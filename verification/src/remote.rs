//! The requests the library asks its caller to perform against the remote
//! service, and the answers the caller hands back. Every request concerns
//! one repository; which one is said where the request is handed out.

use vstd::prelude::*;
use crate::milestone::{milestone_views, ClientError, ErrorView, MilestoneProperties, MilestoneResource, MilestoneState, MilestoneView, PropertiesView};

verus! {

/// One request to the milestone resource of a repository.
#[derive(Debug, PartialEq, Eq)]
pub enum Request {
    /// List the milestones in `state`. `page` is `None` for the first page,
    /// and otherwise what the previous page named as its successor.
    ListPage { state: MilestoneState, page: Option<u64> },
    /// Create a milestone with these properties.
    Create { properties: MilestoneProperties },
    /// Set the state of the milestone with this identifier.
    SetState { identifier: u64, state: MilestoneState },
    /// Delete the milestone with this identifier.
    Delete { identifier: u64 },
}

/// The mathematical value of a `Request`.
pub enum RequestView {
    ListPage { state: MilestoneState, page: Option<u64> },
    Create { properties: PropertiesView },
    SetState { identifier: u64, state: MilestoneState },
    Delete { identifier: u64 },
}

impl View for Request {
    type V = RequestView;

    open spec fn view(&self) -> RequestView {
        match self {
            Request::ListPage { state, page } => RequestView::ListPage {
                state: *state,
                page: *page,
            },
            Request::Create { properties } => RequestView::Create { properties: properties@ },
            Request::SetState { identifier, state } => RequestView::SetState {
                identifier: *identifier,
                state: *state,
            },
            Request::Delete { identifier } => RequestView::Delete { identifier: *identifier },
        }
    }
}

/// One page of a listing, in the order the service returned it.
#[derive(Debug, PartialEq, Eq)]
pub struct Page {
    pub items: Vec<MilestoneResource>,
    /// The page that follows, as the service names it; `None` on the last.
    pub next_page: Option<u64>,
}

/// The mathematical value of a `Page`.
pub struct PageView {
    pub items: Seq<MilestoneView>,
    pub next_page: Option<u64>,
}

impl View for Page {
    type V = PageView;

    open spec fn view(&self) -> PageView {
        PageView { items: milestone_views(self.items@), next_page: self.next_page }
    }
}

/// The service's answer to one request.
#[derive(Debug, PartialEq, Eq)]
pub enum Response {
    /// Answers `ListPage`.
    Page(Page),
    /// Answers `Create` with the milestone as the service stored it.
    Created(MilestoneResource),
    /// Answers `SetState` with the milestone after the change.
    Updated(MilestoneResource),
    /// Answers `Delete`.
    Deleted,
    /// The request failed, whichever it was.
    Failed(ClientError),
}

/// The mathematical value of a `Response`.
pub enum ResponseView {
    Page(PageView),
    Created(MilestoneView),
    Updated(MilestoneView),
    Deleted,
    Failed(ErrorView),
}

impl View for Response {
    type V = ResponseView;

    open spec fn view(&self) -> ResponseView {
        match self {
            Response::Page(page) => ResponseView::Page(page@),
            Response::Created(milestone) => ResponseView::Created(milestone@),
            Response::Updated(milestone) => ResponseView::Updated(milestone@),
            Response::Deleted => ResponseView::Deleted,
            Response::Failed(error) => ResponseView::Failed(error@),
        }
    }
}

} // verus!
