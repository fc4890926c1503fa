//! The lines that tell the operator what a batch is doing and what failed.
//! The outcome of every repository is worth a look: a batch ends the same
//! way whether every operation succeeded or none.

use vstd::prelude::*;
use vstd::string::*;
use crate::batch::{BatchOutcome, BatchOutcomeView};
use crate::command::{kind_name, Command, CommandView};
use crate::milestone::error_text;
use crate::remote::{Request, RequestView};
use crate::target::{join, RepositoryTarget, TargetView};

verus! {

/// `lead`, the title, and the repository.
pub open spec fn line_text(lead: Seq<char>, title: Seq<char>, target: TargetView) -> Seq<char> {
    lead + title + " in repository "@ + join(target.organization, target.name)
}

/// The line that announces `request` before it is performed. Writes are
/// announced; reading a listing is not.
pub open spec fn announcement_text(command: CommandView, target: TargetView, request: RequestView)
    -> Option<Seq<char>> {
    match request {
        RequestView::ListPage { .. } => None,
        RequestView::Create { .. } => Some(
            line_text("Creating milestone "@, command.title(), target),
        ),
        RequestView::SetState { .. } => Some(
            line_text("Closing milestone "@, command.title(), target),
        ),
        RequestView::Delete { .. } => Some(
            line_text("Deleting milestone "@, command.title(), target),
        ),
    }
}

/// The line that reports a failed outcome: what was tried, where, and why.
/// A success has no such line.
pub open spec fn failure_text(command: CommandView, outcome: BatchOutcomeView) -> Option<
    Seq<char>,
> {
    match outcome.result {
        Ok(_) => None,
        Err(error) => Some(
            line_text(
                "Failed to "@ + kind_name(command.kind()) + " milestone "@,
                command.title(),
                outcome.target,
            ) + ": "@ + error_text(error),
        ),
    }
}

fn line(lead: String, title: &String, target: &RepositoryTarget) -> (r: String)
    ensures
        r@ == line_text(lead@, title@, target@),
{
    let mut text = lead;
    text.append(title.as_str());
    text.append(" in repository ");
    text.append(target.full_name().as_str());
    text
}

/// The line to show before `request` is performed against `target`.
pub fn announcement(command: &Command, target: &RepositoryTarget, request: &Request) -> (r: Option<
    String,
>)
    ensures
        match r {
            Some(text) => announcement_text(command@, target@, request@) == Some(text@),
            None => announcement_text(command@, target@, request@) is None,
        },
{
    match request {
        Request::ListPage { .. } => None,
        Request::Create { .. } => Some(
            line("Creating milestone ".to_owned(), command.title(), target),
        ),
        Request::SetState { .. } => Some(
            line("Closing milestone ".to_owned(), command.title(), target),
        ),
        Request::Delete { .. } => Some(
            line("Deleting milestone ".to_owned(), command.title(), target),
        ),
    }
}

/// The line to show for `outcome` if it is a failure.
pub fn failure_line(command: &Command, outcome: &BatchOutcome) -> (r: Option<String>)
    ensures
        match r {
            Some(text) => failure_text(command@, outcome@) == Some(text@),
            None => failure_text(command@, outcome@) is None,
        },
{
    match &outcome.result {
        Ok(_) => None,
        Err(error) => {
            let mut lead = "Failed to ".to_owned();
            lead.append(command.kind().name());
            lead.append(" milestone ");
            let mut text = line(lead, command.title(), &outcome.target);
            text.append(": ");
            text.append(error.describe().as_str());
            Some(text)
        },
    }
}

} // verus!
