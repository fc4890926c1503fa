//! The command of one batch: what is to be done with the milestone of a
//! given title in every repository.

use vstd::prelude::*;
use vstd::string::*;
use crate::client::{create_start, resolving_start, Operation, OperationView, Purpose};
use crate::milestone::{MilestoneProperties, MilestoneState, PropertiesView};
use crate::remote::{Request, RequestView};

verus! {

/// The three things a batch can do.
#[derive(Clone, Copy, Debug, PartialEq, Eq, Structural)]
pub enum CommandKind {
    Create,
    Close,
    Delete,
}

/// The name of a kind, as it is written on the command line.
pub open spec fn kind_name(kind: CommandKind) -> Seq<char> {
    match kind {
        CommandKind::Create => "create"@,
        CommandKind::Close => "close"@,
        CommandKind::Delete => "delete"@,
    }
}

/// The kind that `name` names, if it names one.
pub open spec fn kind_named(name: Seq<char>) -> Option<CommandKind> {
    if name == "create"@ {
        Some(CommandKind::Create)
    } else if name == "close"@ {
        Some(CommandKind::Close)
    } else if name == "delete"@ {
        Some(CommandKind::Delete)
    } else {
        None
    }
}

/// Every kind is named by its own name.
pub proof fn law_kind_is_named(kind: CommandKind)
    ensures
        kind_named(kind_name(kind)) == Some(kind),
{
    reveal_strlit("create");
    reveal_strlit("close");
    reveal_strlit("delete");
    assert("create"@.len() == 6 && "close"@.len() == 5 && "delete"@.len() == 6);
    assert("create"@[0] == 'c' && "delete"@[0] == 'd');
}

impl CommandKind {
    /// The name of the kind, as it is written on the command line.
    pub fn name(self) -> (r: &'static str)
        ensures
            r@ == kind_name(self),
    {
        match self {
            CommandKind::Create => "create",
            CommandKind::Close => "close",
            CommandKind::Delete => "delete",
        }
    }

    /// The kind that `name` names. `None` where it names none, as when no
    /// command was given at all.
    pub fn from_name(name: &str) -> (r: Option<CommandKind>)
        ensures
            r == kind_named(name@),
    {
        let name = name.to_owned();
        if name == "create".to_owned() {
            Some(CommandKind::Create)
        } else if name == "close".to_owned() {
            Some(CommandKind::Close)
        } else if name == "delete".to_owned() {
            Some(CommandKind::Delete)
        } else {
            None
        }
    }
}

/// What to do, and the title of the milestone to do it with. The title is
/// taken as it is given; an empty one is not refused here.
#[derive(Debug, PartialEq, Eq)]
pub enum Command {
    Create { title: String },
    Close { title: String },
    Delete { title: String },
}

/// The mathematical value of a `Command`.
pub enum CommandView {
    Create { title: Seq<char> },
    Close { title: Seq<char> },
    Delete { title: Seq<char> },
}

impl View for Command {
    type V = CommandView;

    open spec fn view(&self) -> CommandView {
        match self {
            Command::Create { title } => CommandView::Create { title: title@ },
            Command::Close { title } => CommandView::Close { title: title@ },
            Command::Delete { title } => CommandView::Delete { title: title@ },
        }
    }
}

impl CommandView {
    /// The title of the milestone the command is about.
    pub open spec fn title(self) -> Seq<char> {
        match self {
            CommandView::Create { title } => title,
            CommandView::Close { title } => title,
            CommandView::Delete { title } => title,
        }
    }

    /// The kind of the command.
    pub open spec fn kind(self) -> CommandKind {
        match self {
            CommandView::Create { .. } => CommandKind::Create,
            CommandView::Close { .. } => CommandKind::Close,
            CommandView::Delete { .. } => CommandKind::Delete,
        }
    }
}

/// The command of `kind` on `title`.
pub open spec fn command_of(kind: CommandKind, title: Seq<char>) -> CommandView {
    match kind {
        CommandKind::Create => CommandView::Create { title },
        CommandKind::Close => CommandView::Close { title },
        CommandKind::Delete => CommandView::Delete { title },
    }
}

/// The properties a `Create` command asks for: the title, explicitly open,
/// and nothing else.
pub open spec fn created_properties(title: Seq<char>) -> PropertiesView {
    PropertiesView { title, state: Some(MilestoneState::Open), description: None, due_on: None }
}

/// The operation that applies `command` to one repository, and its first
/// request.
pub open spec fn command_start(command: CommandView) -> (OperationView, RequestView) {
    match command {
        CommandView::Create { title } => create_start(created_properties(title)),
        CommandView::Close { title } => resolving_start(title, Purpose::Close),
        CommandView::Delete { title } => resolving_start(title, Purpose::Delete),
    }
}

impl Clone for Command {
    fn clone(&self) -> (r: Self)
        ensures
            r@ == self@,
    {
        match self {
            Command::Create { title } => Command::Create { title: title.clone() },
            Command::Close { title } => Command::Close { title: title.clone() },
            Command::Delete { title } => Command::Delete { title: title.clone() },
        }
    }
}

impl Command {
    /// Builds the command from its kind and the title.
    pub fn new(kind: CommandKind, title: String) -> (r: Command)
        ensures
            r@ == command_of(kind, title@),
    {
        match kind {
            CommandKind::Create => Command::Create { title },
            CommandKind::Close => Command::Close { title },
            CommandKind::Delete => Command::Delete { title },
        }
    }

    /// The kind of the command.
    pub fn kind(&self) -> (r: CommandKind)
        ensures
            r == self@.kind(),
    {
        match self {
            Command::Create { .. } => CommandKind::Create,
            Command::Close { .. } => CommandKind::Close,
            Command::Delete { .. } => CommandKind::Delete,
        }
    }

    /// The title of the milestone the command is about.
    pub fn title(&self) -> (r: &String)
        ensures
            r@ == self@.title(),
    {
        match self {
            Command::Create { title } => title,
            Command::Close { title } => title,
            Command::Delete { title } => title,
        }
    }

    /// Begins to apply the command to one repository.
    pub fn begin(&self) -> (r: (Operation, Request))
        ensures
            (r.0@, r.1@) == command_start(self@),
    {
        match self {
            Command::Create { title } => Operation::create(
                MilestoneProperties {
                    title: title.clone(),
                    state: Some(MilestoneState::Open),
                    description: None,
                    due_on: None,
                },
            ),
            Command::Close { title } => Operation::close(title.clone()),
            Command::Delete { title } => Operation::delete_by_title(title.clone()),
        }
    }
}

} // verus!
