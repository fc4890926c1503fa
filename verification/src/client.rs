//! The four operations on the milestones of one repository: create, find by
//! title, close, and delete by title.
//!
//! An operation is a small state machine. It hands out one request at a
//! time, takes the service's answer, and either hands out the next request
//! or ends with its result. Closing and deleting address a milestone by its
//! title: the title is resolved first, and the write that follows names the
//! identifier of the milestone that was found. Where no milestone carries
//! the title, the operation ends with `NotFound` and asks for no write.

use vstd::prelude::*;
use crate::milestone::{
    ClientError, ErrorView, MilestoneProperties, MilestoneResource, MilestoneState, MilestoneView,
    PropertiesView,
};
use crate::remote::{Request, RequestView, Response, ResponseView};
use crate::resolution::{
    resolution_on_page, resolution_start, Resolution, ResolutionStep, ResolutionStepView,
    ResolutionView,
};

verus! {

/// What a title is being resolved for.
#[derive(Clone, Copy, Debug, PartialEq, Eq, Structural)]
pub enum Purpose {
    /// To return the milestone.
    Find,
    /// To close the milestone.
    Close,
    /// To delete the milestone.
    Delete,
}

/// An operation in progress, named by the answer it waits for.
#[derive(Debug, PartialEq, Eq)]
pub enum Operation {
    /// Waits for the answer to `Create`.
    Creating,
    /// Waits for a page of a listing.
    Resolving { resolution: Resolution, purpose: Purpose },
    /// Waits for the answer to `SetState`.
    Closing,
    /// Waits for the answer to `Delete`.
    Deleting,
}

/// The mathematical value of an `Operation`.
pub enum OperationView {
    Creating,
    Resolving { resolution: ResolutionView, purpose: Purpose },
    Closing,
    Deleting,
}

impl View for Operation {
    type V = OperationView;

    open spec fn view(&self) -> OperationView {
        match self {
            Operation::Creating => OperationView::Creating,
            Operation::Resolving { resolution, purpose } => OperationView::Resolving {
                resolution: resolution@,
                purpose: *purpose,
            },
            Operation::Closing => OperationView::Closing,
            Operation::Deleting => OperationView::Deleting,
        }
    }
}

/// How an operation ended: with the milestone it created, found or closed,
/// with nothing to return after a deletion, or with an error.
pub type Outcome = Result<Option<MilestoneResource>, ClientError>;

/// The mathematical value of an `Outcome`.
pub type OutcomeView = Result<Option<MilestoneView>, ErrorView>;

/// The mathematical value of an outcome.
pub open spec fn outcome_view(outcome: Outcome) -> OutcomeView {
    match outcome {
        Ok(Some(milestone)) => Ok(Some(milestone@)),
        Ok(None) => Ok(None),
        Err(error) => Err(error@),
    }
}

/// What an operation does next.
#[derive(Debug, PartialEq, Eq)]
pub enum Progress {
    /// It goes on: the caller is to perform `request` and hand the answer to
    /// `operation`.
    Continue { operation: Operation, request: Request },
    /// It has ended.
    Finished(Outcome),
}

/// The mathematical value of a `Progress`.
pub enum ProgressView {
    Continue { operation: OperationView, request: RequestView },
    Finished(OutcomeView),
}

impl View for Progress {
    type V = ProgressView;

    open spec fn view(&self) -> ProgressView {
        match self {
            Progress::Continue { operation, request } => ProgressView::Continue {
                operation: operation@,
                request: request@,
            },
            Progress::Finished(outcome) => ProgressView::Finished(outcome_view(*outcome)),
        }
    }
}

/// The error of an operation that was handed an answer to another kind of
/// request than the one it had asked for.
pub open spec fn unexpected_answer() -> ErrorView {
    ErrorView::TransportError("the answer does not fit the request"@)
}

/// The error of a write that cannot be asked for because the service listed
/// the milestone without an identifier.
pub open spec fn missing_identifier() -> ErrorView {
    ErrorView::TransportError("the milestone was listed without an identifier"@)
}

/// What follows when a milestone has been found for `purpose`: finding ends
/// with it; closing and deleting ask for the write on its identifier.
pub open spec fn progress_on_found(milestone: MilestoneView, purpose: Purpose) -> ProgressView {
    match purpose {
        Purpose::Find => ProgressView::Finished(Ok(Some(milestone))),
        Purpose::Close => match milestone.identifier {
            Some(identifier) => ProgressView::Continue {
                operation: OperationView::Closing,
                request: RequestView::SetState { identifier, state: MilestoneState::Closed },
            },
            None => ProgressView::Finished(Err(missing_identifier())),
        },
        Purpose::Delete => match milestone.identifier {
            Some(identifier) => ProgressView::Continue {
                operation: OperationView::Deleting,
                request: RequestView::Delete { identifier },
            },
            None => ProgressView::Finished(Err(missing_identifier())),
        },
    }
}

/// What follows a step of the resolution that an operation rests on.
pub open spec fn progress_on_resolution(step: ResolutionStepView, purpose: Purpose)
    -> ProgressView {
    match step {
        ResolutionStepView::Fetch { resolution, request } => ProgressView::Continue {
            operation: OperationView::Resolving { resolution, purpose },
            request,
        },
        ResolutionStepView::Found(milestone) => progress_on_found(milestone, purpose),
        ResolutionStepView::NotFound => ProgressView::Finished(Err(ErrorView::NotFound)),
    }
}

/// How creating a milestone begins: with the request to create it.
pub open spec fn create_start(properties: PropertiesView) -> (OperationView, RequestView) {
    (OperationView::Creating, RequestView::Create { properties })
}

/// How an operation that addresses a milestone by `title` begins: with the
/// first request of the resolution.
pub open spec fn resolving_start(title: Seq<char>, purpose: Purpose) -> (
    OperationView,
    RequestView,
) {
    (
        OperationView::Resolving { resolution: resolution_start(title).0, purpose },
        resolution_start(title).1,
    )
}

/// How an operation goes on when it is handed an answer.
///
/// A failure ends it with that failure, whatever it was waiting for. The
/// answer it was waiting for moves it on. Any other answer ends it with
/// `unexpected_answer`.
pub open spec fn operation_advance(operation: OperationView, response: ResponseView)
    -> ProgressView {
    match (operation, response) {
        (_, ResponseView::Failed(error)) => ProgressView::Finished(Err(error)),
        (OperationView::Creating, ResponseView::Created(milestone)) => ProgressView::Finished(
            Ok(Some(milestone)),
        ),
        (OperationView::Resolving { resolution, purpose }, ResponseView::Page(page)) => {
            progress_on_resolution(resolution_on_page(resolution, page), purpose)
        },
        (OperationView::Closing, ResponseView::Updated(milestone)) => ProgressView::Finished(
            Ok(Some(milestone)),
        ),
        (OperationView::Deleting, ResponseView::Deleted) => ProgressView::Finished(Ok(None)),
        _ => ProgressView::Finished(Err(unexpected_answer())),
    }
}

fn found(milestone: MilestoneResource, purpose: Purpose) -> (r: Progress)
    ensures
        r@ == progress_on_found(milestone@, purpose),
{
    match purpose {
        Purpose::Find => Progress::Finished(Ok(Some(milestone))),
        Purpose::Close => match milestone.identifier {
            Some(identifier) => Progress::Continue {
                operation: Operation::Closing,
                request: Request::SetState { identifier, state: MilestoneState::Closed },
            },
            None => Progress::Finished(
                Err(
                    ClientError::TransportError(
                        "the milestone was listed without an identifier".to_owned(),
                    ),
                ),
            ),
        },
        Purpose::Delete => match milestone.identifier {
            Some(identifier) => Progress::Continue {
                operation: Operation::Deleting,
                request: Request::Delete { identifier },
            },
            None => Progress::Finished(
                Err(
                    ClientError::TransportError(
                        "the milestone was listed without an identifier".to_owned(),
                    ),
                ),
            ),
        },
    }
}

fn resolved(step: ResolutionStep, purpose: Purpose) -> (r: Progress)
    ensures
        r@ == progress_on_resolution(step@, purpose),
{
    match step {
        ResolutionStep::Fetch { resolution, request } => Progress::Continue {
            operation: Operation::Resolving { resolution, purpose },
            request,
        },
        ResolutionStep::Found(milestone) => found(milestone, purpose),
        ResolutionStep::NotFound => Progress::Finished(Err(ClientError::NotFound)),
    }
}

impl Operation {
    fn resolving(title: String, purpose: Purpose) -> (r: (Operation, Request))
        ensures
            (r.0@, r.1@) == resolving_start(title@, purpose),
    {
        let (resolution, request) = Resolution::start(title);
        (Operation::Resolving { resolution, purpose }, request)
    }

    /// Creates a milestone with `properties`. Nothing is looked up first: a
    /// title that is already in use is created once more.
    pub fn create(properties: MilestoneProperties) -> (r: (Operation, Request))
        ensures
            (r.0@, r.1@) == create_start(properties@),
    {
        (Operation::Creating, Request::Create { properties })
    }

    /// Finds the milestone that carries `title`.
    pub fn find_by_title(title: String) -> (r: (Operation, Request))
        ensures
            (r.0@, r.1@) == resolving_start(title@, Purpose::Find),
    {
        Operation::resolving(title, Purpose::Find)
    }

    /// Closes the milestone that carries `title`.
    pub fn close(title: String) -> (r: (Operation, Request))
        ensures
            (r.0@, r.1@) == resolving_start(title@, Purpose::Close),
    {
        Operation::resolving(title, Purpose::Close)
    }

    /// Deletes the milestone that carries `title`.
    pub fn delete_by_title(title: String) -> (r: (Operation, Request))
        ensures
            (r.0@, r.1@) == resolving_start(title@, Purpose::Delete),
    {
        Operation::resolving(title, Purpose::Delete)
    }

    /// Takes the answer to the request that was handed out last and says
    /// what comes next.
    pub fn advance(self, response: Response) -> (r: Progress)
        ensures
            r@ == operation_advance(self@, response@),
    {
        match (self, response) {
            (_, Response::Failed(error)) => Progress::Finished(Err(error)),
            (Operation::Creating, Response::Created(milestone)) => Progress::Finished(
                Ok(Some(milestone)),
            ),
            (Operation::Resolving { resolution, purpose }, Response::Page(page)) => resolved(
                resolution.on_page(page),
                purpose,
            ),
            (Operation::Closing, Response::Updated(milestone)) => Progress::Finished(
                Ok(Some(milestone)),
            ),
            (Operation::Deleting, Response::Deleted) => Progress::Finished(Ok(None)),
            _ => Progress::Finished(
                Err(ClientError::TransportError("the answer does not fit the request".to_owned())),
            ),
        }
    }
}

} // verus!
