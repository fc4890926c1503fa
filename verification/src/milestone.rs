//! Milestones as the remote service holds them, and the errors an operation
//! on them can end in.

use vstd::prelude::*;
use vstd::string::*;

verus! {

/// Whether a milestone still collects work or has been closed.
#[derive(Clone, Copy, Debug, PartialEq, Eq, Structural)]
pub enum MilestoneState {
    Open,
    Closed,
}

/// The mathematical value of an optional text.
pub open spec fn text_view(text: Option<String>) -> Option<Seq<char>> {
    match text {
        Some(s) => Some(s@),
        None => None,
    }
}

/// What a caller chooses when asking for a new milestone.
#[derive(Debug, PartialEq, Eq)]
pub struct MilestoneProperties {
    pub title: String,
    /// Left out, the service opens the milestone.
    pub state: Option<MilestoneState>,
    pub description: Option<String>,
    /// The due date in the text form the service accepts.
    pub due_on: Option<String>,
}

/// The mathematical value of `MilestoneProperties`.
pub struct PropertiesView {
    pub title: Seq<char>,
    pub state: Option<MilestoneState>,
    pub description: Option<Seq<char>>,
    pub due_on: Option<Seq<char>>,
}

impl View for MilestoneProperties {
    type V = PropertiesView;

    open spec fn view(&self) -> PropertiesView {
        PropertiesView {
            title: self.title@,
            state: self.state,
            description: text_view(self.description),
            due_on: text_view(self.due_on),
        }
    }
}

impl MilestoneProperties {
    /// Properties that hold a title and leave everything else to the service.
    pub fn titled(title: String) -> (r: MilestoneProperties)
        ensures
            r@ == (PropertiesView { title: title@, state: None, description: None, due_on: None }),
    {
        MilestoneProperties { title, state: None, description: None, due_on: None }
    }
}

/// A milestone of one repository. Titles are chosen by users and the service
/// does not keep them unique: several milestones may carry the same title.
#[derive(Debug, PartialEq, Eq)]
pub struct MilestoneResource {
    /// Assigned by the service; absent until the milestone exists there.
    pub identifier: Option<u64>,
    pub title: String,
    pub state: MilestoneState,
    pub description: Option<String>,
    pub due_on: Option<String>,
}

/// The mathematical value of a `MilestoneResource`.
pub struct MilestoneView {
    pub identifier: Option<u64>,
    pub title: Seq<char>,
    pub state: MilestoneState,
    pub description: Option<Seq<char>>,
    pub due_on: Option<Seq<char>>,
}

impl View for MilestoneResource {
    type V = MilestoneView;

    open spec fn view(&self) -> MilestoneView {
        MilestoneView {
            identifier: self.identifier,
            title: self.title@,
            state: self.state,
            description: text_view(self.description),
            due_on: text_view(self.due_on),
        }
    }
}

/// The values of a sequence of milestones, one by one.
pub open spec fn milestone_views(items: Seq<MilestoneResource>) -> Seq<MilestoneView> {
    Seq::new(items.len(), |i: int| items[i]@)
}

fn clone_text(text: &Option<String>) -> (r: Option<String>)
    ensures
        text_view(r) == text_view(*text),
{
    match text {
        Some(s) => Some(s.clone()),
        None => None,
    }
}

impl Clone for MilestoneProperties {
    fn clone(&self) -> (r: Self)
        ensures
            r@ == self@,
    {
        MilestoneProperties {
            title: self.title.clone(),
            state: self.state,
            description: clone_text(&self.description),
            due_on: clone_text(&self.due_on),
        }
    }
}

impl Clone for MilestoneResource {
    fn clone(&self) -> (r: Self)
        ensures
            r@ == self@,
    {
        MilestoneResource {
            identifier: self.identifier,
            title: self.title.clone(),
            state: self.state,
            description: clone_text(&self.description),
            due_on: clone_text(&self.due_on),
        }
    }
}

/// Why an operation on one repository did not succeed.
#[derive(Debug, PartialEq, Eq)]
pub enum ClientError {
    /// No milestone carries the title, or the service knows no such resource.
    NotFound,
    /// The service refused the request as invalid; the text is its reason.
    RemoteRejected(String),
    /// The request did not get through, or the answer was unusable.
    TransportError(String),
    /// The credential was not accepted.
    Unauthorized,
    /// The credential does not allow the request.
    Forbidden,
    /// The service asks the caller to slow down.
    RateLimited,
}

/// The mathematical value of a `ClientError`.
pub enum ErrorView {
    NotFound,
    RemoteRejected(Seq<char>),
    TransportError(Seq<char>),
    Unauthorized,
    Forbidden,
    RateLimited,
}

impl View for ClientError {
    type V = ErrorView;

    open spec fn view(&self) -> ErrorView {
        match self {
            ClientError::NotFound => ErrorView::NotFound,
            ClientError::RemoteRejected(reason) => ErrorView::RemoteRejected(reason@),
            ClientError::TransportError(reason) => ErrorView::TransportError(reason@),
            ClientError::Unauthorized => ErrorView::Unauthorized,
            ClientError::Forbidden => ErrorView::Forbidden,
            ClientError::RateLimited => ErrorView::RateLimited,
        }
    }
}

/// The text that describes an error to the operator.
pub open spec fn error_text(error: ErrorView) -> Seq<char> {
    match error {
        ErrorView::NotFound => "not found"@,
        ErrorView::RemoteRejected(reason) => "rejected by the service: "@ + reason,
        ErrorView::TransportError(reason) => "transport failed: "@ + reason,
        ErrorView::Unauthorized => "the credential was not accepted"@,
        ErrorView::Forbidden => "the credential does not allow this"@,
        ErrorView::RateLimited => "the service asks to slow down"@,
    }
}

impl ClientError {
    /// Describes the error to the operator; where the service or the
    /// transport gave a reason, the text ends with it.
    pub fn describe(&self) -> (r: String)
        ensures
            r@ == error_text(self@),
    {
        match self {
            ClientError::NotFound => "not found".to_owned(),
            ClientError::RemoteRejected(reason) => {
                let mut text = "rejected by the service: ".to_owned();
                text.append(reason.as_str());
                text
            },
            ClientError::TransportError(reason) => {
                let mut text = "transport failed: ".to_owned();
                text.append(reason.as_str());
                text
            },
            ClientError::Unauthorized => "the credential was not accepted".to_owned(),
            ClientError::Forbidden => "the credential does not allow this".to_owned(),
            ClientError::RateLimited => "the service asks to slow down".to_owned(),
        }
    }
}

impl Clone for ClientError {
    fn clone(&self) -> (r: Self)
        ensures
            r@ == self@,
    {
        match self {
            ClientError::NotFound => ClientError::NotFound,
            ClientError::RemoteRejected(reason) => ClientError::RemoteRejected(reason.clone()),
            ClientError::TransportError(reason) => ClientError::TransportError(reason.clone()),
            ClientError::Unauthorized => ClientError::Unauthorized,
            ClientError::Forbidden => ClientError::Forbidden,
            ClientError::RateLimited => ClientError::RateLimited,
        }
    }
}

} // verus!
