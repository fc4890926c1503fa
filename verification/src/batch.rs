//! Applying one command to every repository of a list.
//!
//! The executor takes the repositories strictly in the order of the list and
//! one at a time. Whatever an operation ends in is recorded for its
//! repository, and the executor goes on to the next: a failure, `NotFound`
//! included, never stops the batch. The report holds one outcome for each
//! repository, in the order of the list.

use vstd::prelude::*;
use crate::client::{operation_advance, Operation, OperationView, OutcomeView, Progress, ProgressView};
use crate::command::{command_start, Command, CommandView};
use crate::milestone::{ClientError, ErrorView, MilestoneResource};
use crate::remote::{Request, RequestView, Response, ResponseView};
use crate::target::{RepositoryTarget, TargetView};

verus! {

/// What became of the command in one repository.
#[derive(Debug, PartialEq, Eq)]
pub struct BatchOutcome {
    pub target: RepositoryTarget,
    pub result: Result<(), ClientError>,
}

/// The mathematical value of a `BatchOutcome`.
pub struct BatchOutcomeView {
    pub target: TargetView,
    pub result: Result<(), ErrorView>,
}

/// The mathematical value of a recorded result.
pub open spec fn result_view(result: Result<(), ClientError>) -> Result<(), ErrorView> {
    match result {
        Ok(()) => Ok(()),
        Err(error) => Err(error@),
    }
}

impl View for BatchOutcome {
    type V = BatchOutcomeView;

    open spec fn view(&self) -> BatchOutcomeView {
        BatchOutcomeView { target: self.target@, result: result_view(self.result) }
    }
}

/// The values of a sequence of outcomes, one by one.
pub open spec fn outcome_views(outcomes: Seq<BatchOutcome>) -> Seq<BatchOutcomeView> {
    Seq::new(outcomes.len(), |i: int| outcomes[i]@)
}

/// The values of a sequence of targets, one by one.
pub open spec fn target_views(targets: Seq<RepositoryTarget>) -> Seq<TargetView> {
    Seq::new(targets.len(), |i: int| targets[i]@)
}

/// What is recorded for an operation that ended in `outcome`: that it
/// succeeded, or the error it failed with.
pub open spec fn recorded(outcome: OutcomeView) -> Result<(), ErrorView> {
    match outcome {
        Ok(_) => Ok(()),
        Err(error) => Err(error),
    }
}

/// `outcomes` holds one outcome for each of the first targets, in order.
pub open spec fn follows(outcomes: Seq<BatchOutcomeView>, targets: Seq<TargetView>) -> bool {
    &&& outcomes.len() <= targets.len()
    &&& forall|i: int| 0 <= i < outcomes.len() ==> (#[trigger] outcomes[i]).target == targets[i]
}

/// `report` holds exactly one outcome for each target, in order.
pub open spec fn covers(report: Seq<BatchOutcomeView>, targets: Seq<TargetView>) -> bool {
    &&& report.len() == targets.len()
    &&& follows(report, targets)
}

/// The outcomes of a finished batch.
#[derive(Debug, PartialEq, Eq)]
pub struct BatchReport {
    outcomes: Vec<BatchOutcome>,
}

impl View for BatchReport {
    type V = Seq<BatchOutcomeView>;

    closed spec fn view(&self) -> Seq<BatchOutcomeView> {
        outcome_views(self.outcomes@)
    }
}

impl BatchReport {
    /// The outcomes, one for each repository, in the order of the list.
    pub fn outcomes(&self) -> (r: &Vec<BatchOutcome>)
        ensures
            outcome_views(r@) == self@,
    {
        &self.outcomes
    }

    /// The number of outcomes.
    pub fn len(&self) -> (r: usize)
        ensures
            r == self@.len(),
    {
        self.outcomes.len()
    }

    /// Gives the outcomes away.
    pub fn into_outcomes(self) -> (r: Vec<BatchOutcome>)
        ensures
            outcome_views(r@) == self@,
    {
        self.outcomes
    }
}

/// A batch in progress: the list, the command, the outcomes recorded so far,
/// and the operation on the repository whose turn it is.
#[derive(Debug, PartialEq, Eq)]
pub struct BatchExecutor {
    targets: Vec<RepositoryTarget>,
    command: Command,
    operation: Operation,
    outcomes: Vec<BatchOutcome>,
}

/// The mathematical value of a `BatchExecutor`.
pub struct BatchExecutorView {
    pub targets: Seq<TargetView>,
    pub command: CommandView,
    pub operation: OperationView,
    pub outcomes: Seq<BatchOutcomeView>,
}

impl BatchExecutorView {
    /// The repository whose turn it is.
    pub open spec fn current(self) -> TargetView {
        self.targets[self.outcomes.len() as int]
    }

    /// Some repository is still to be done, and the outcomes recorded so far
    /// are those of the repositories before it.
    pub open spec fn well_formed(self) -> bool {
        &&& self.outcomes.len() < self.targets.len()
        &&& follows(self.outcomes, self.targets)
    }
}

impl View for BatchExecutor {
    type V = BatchExecutorView;

    closed spec fn view(&self) -> BatchExecutorView {
        BatchExecutorView {
            targets: target_views(self.targets@),
            command: self.command@,
            operation: self.operation@,
            outcomes: outcome_views(self.outcomes@),
        }
    }
}

/// What a batch does next.
#[derive(Debug, PartialEq, Eq)]
pub enum BatchStep {
    /// It goes on: the caller is to perform `request` against the repository
    /// `target` and hand the answer to `executor`.
    Perform { executor: BatchExecutor, target: RepositoryTarget, request: Request },
    /// It has ended with this report.
    Finished(BatchReport),
}

/// The mathematical value of a `BatchStep`.
pub enum BatchStepView {
    Perform { executor: BatchExecutorView, target: TargetView, request: RequestView },
    Finished(Seq<BatchOutcomeView>),
}

impl View for BatchStep {
    type V = BatchStepView;

    open spec fn view(&self) -> BatchStepView {
        match self {
            BatchStep::Perform { executor, target, request } => BatchStepView::Perform {
                executor: executor@,
                target: target@,
                request: request@,
            },
            BatchStep::Finished(report) => BatchStepView::Finished(report@),
        }
    }
}

/// What a batch does once `outcomes` are recorded: it begins the command on
/// the next repository of the list, or ends where there is none.
pub open spec fn batch_enter(
    targets: Seq<TargetView>,
    command: CommandView,
    outcomes: Seq<BatchOutcomeView>,
) -> BatchStepView {
    if outcomes.len() < targets.len() {
        BatchStepView::Perform {
            executor: BatchExecutorView {
                targets,
                command,
                operation: command_start(command).0,
                outcomes,
            },
            target: targets[outcomes.len() as int],
            request: command_start(command).1,
        }
    } else {
        BatchStepView::Finished(outcomes)
    }
}

/// How a batch begins.
pub open spec fn batch_start(targets: Seq<TargetView>, command: CommandView) -> BatchStepView {
    batch_enter(targets, command, Seq::empty())
}

/// How a batch goes on when it is handed the answer to its last request.
///
/// While the operation on the current repository goes on, so does the batch
/// with that repository. When the operation ends, its outcome is recorded
/// for the repository, success or failure alike, and the batch enters the
/// next one.
pub open spec fn batch_advance(executor: BatchExecutorView, response: ResponseView)
    -> BatchStepView {
    match operation_advance(executor.operation, response) {
        ProgressView::Continue { operation, request } => BatchStepView::Perform {
            executor: BatchExecutorView {
                targets: executor.targets,
                command: executor.command,
                operation,
                outcomes: executor.outcomes,
            },
            target: executor.current(),
            request,
        },
        ProgressView::Finished(outcome) => batch_enter(
            executor.targets,
            executor.command,
            executor.outcomes.push(
                BatchOutcomeView { target: executor.current(), result: recorded(outcome) },
            ),
        ),
    }
}

/// The step belongs to a batch of `command` over `targets` that is in
/// order: while it goes on, the outcomes recorded so far are those of the
/// repositories before the current one, to which the request goes; when it
/// has ended, the report holds exactly one outcome for each repository, in
/// the order of the list.
pub open spec fn step_in_order(step: BatchStepView, targets: Seq<TargetView>, command: CommandView)
    -> bool {
    match step {
        BatchStepView::Perform { executor, target, request } => {
            &&& executor.well_formed()
            &&& executor.targets == targets
            &&& executor.command == command
            &&& target == executor.current()
        },
        BatchStepView::Finished(report) => covers(report, targets),
    }
}

/// A batch begins in order.
pub proof fn law_start_in_order(targets: Seq<TargetView>, command: CommandView)
    ensures
        step_in_order(batch_start(targets, command), targets, command),
{
}

/// A batch that is in order stays in order, whatever answer it is handed.
pub proof fn law_advance_in_order(executor: BatchExecutorView, response: ResponseView)
    requires
        executor.well_formed(),
    ensures
        step_in_order(batch_advance(executor, response), executor.targets, executor.command),
{
}

/// A failure is isolated: while repositories are left, the end of an
/// operation never ends the batch. Whatever the operation on the current
/// repository ended in, `NotFound` and every other error included, the
/// outcome is recorded for that repository and the command begins afresh on
/// the next one.
pub proof fn law_failure_does_not_halt(
    executor: BatchExecutorView,
    response: ResponseView,
    outcome: OutcomeView,
)
    requires
        executor.well_formed(),
        operation_advance(executor.operation, response) == ProgressView::Finished(outcome),
        executor.outcomes.len() + 1 < executor.targets.len(),
    ensures
        batch_advance(executor, response) == (BatchStepView::Perform {
            executor: BatchExecutorView {
                targets: executor.targets,
                command: executor.command,
                operation: command_start(executor.command).0,
                outcomes: executor.outcomes.push(
                    BatchOutcomeView { target: executor.current(), result: recorded(outcome) },
                ),
            },
            target: executor.targets[executor.outcomes.len() as int + 1],
            request: command_start(executor.command).1,
        }),
{
}

/// Where one repository stands in a batch.
pub enum TargetStatus {
    /// Its turn has not come.
    Pending,
    /// The operation on it is in progress.
    Attempted,
    /// The operation on it has ended well.
    Succeeded,
    /// The operation on it has ended with this error.
    Failed(ErrorView),
}

/// The status that a recorded outcome stands for.
pub open spec fn settled(outcome: BatchOutcomeView) -> TargetStatus {
    match outcome.result {
        Ok(_) => TargetStatus::Succeeded,
        Err(error) => TargetStatus::Failed(error),
    }
}

/// Where the repository at `at` of the list stands once the batch has come
/// to `step`.
pub open spec fn status_at(step: BatchStepView, at: int) -> TargetStatus {
    match step {
        BatchStepView::Perform { executor, .. } => if at < executor.outcomes.len() {
            settled(executor.outcomes[at])
        } else if at == executor.outcomes.len() {
            TargetStatus::Attempted
        } else {
            TargetStatus::Pending
        },
        BatchStepView::Finished(report) => settled(report[at]),
    }
}

/// Every repository goes from pending to attempted to succeeded or failed,
/// and never back: what has been recorded for a repository stays as it is,
/// no repository is attempted a second time, and a pending repository is
/// attempted only when the one before it has ended.
pub proof fn law_status_moves_forward(
    executor: BatchExecutorView,
    target: TargetView,
    request: RequestView,
    response: ResponseView,
    at: int,
)
    requires
        executor.well_formed(),
        0 <= at < executor.targets.len(),
    ensures
        ({
            let before = status_at(BatchStepView::Perform { executor, target, request }, at);
            let after = status_at(batch_advance(executor, response), at);
            match before {
                TargetStatus::Pending => after is Pending || (after is Attempted && at
                    == executor.outcomes.len() + 1),
                TargetStatus::Attempted => after is Attempted || after == settled(
                    BatchOutcomeView {
                        target: executor.current(),
                        result: recorded(
                            operation_advance(executor.operation, response)->Finished_0,
                        ),
                    },
                ),
                _ => after == before,
            }
        }),
{
}

fn record(outcome: Result<Option<MilestoneResource>, ClientError>) -> (r: Result<(), ClientError>)
    ensures
        result_view(r) == recorded(crate::client::outcome_view(outcome)),
{
    match outcome {
        Ok(_) => Ok(()),
        Err(error) => Err(error),
    }
}

impl BatchExecutor {
    #[verifier::type_invariant]
    spec fn consistent(&self) -> bool {
        self@.well_formed()
    }

    fn enter(targets: Vec<RepositoryTarget>, command: Command, outcomes: Vec<BatchOutcome>) -> (r:
        BatchStep)
        requires
            follows(outcome_views(outcomes@), target_views(targets@)),
        ensures
            r@ == batch_enter(target_views(targets@), command@, outcome_views(outcomes@)),
    {
        if outcomes.len() < targets.len() {
            let (operation, request) = command.begin();
            let target = targets[outcomes.len()].clone();
            BatchStep::Perform {
                executor: BatchExecutor { targets, command, operation, outcomes },
                target,
                request,
            }
        } else {
            BatchStep::Finished(BatchReport { outcomes })
        }
    }

    /// Begins the batch of `command` over `targets`.
    pub fn start(targets: Vec<RepositoryTarget>, command: Command) -> (r: BatchStep)
        ensures
            r@ == batch_start(target_views(targets@), command@),
            step_in_order(r@, target_views(targets@), command@),
    {
        let outcomes: Vec<BatchOutcome> = Vec::new();
        proof {
            assert(outcome_views(outcomes@) =~= Seq::empty());
        }
        BatchExecutor::enter(targets, command, outcomes)
    }

    /// Takes the answer to the request that was handed out last and says
    /// what comes next.
    pub fn advance(self, response: Response) -> (r: BatchStep)
        ensures
            r@ == batch_advance(self@, response@),
            step_in_order(r@, self@.targets, self@.command),
    {
        proof {
            use_type_invariant(&self);
            law_advance_in_order(self@, response@);
        }
        let BatchExecutor { targets, command, operation, outcomes } = self;
        let mut outcomes = outcomes;
        match operation.advance(response) {
            Progress::Continue { operation, request } => {
                let target = targets[outcomes.len()].clone();
                BatchStep::Perform {
                    executor: BatchExecutor { targets, command, operation, outcomes },
                    target,
                    request,
                }
            },
            Progress::Finished(outcome) => {
                let ghost before = outcome_views(outcomes@);
                let target = targets[outcomes.len()].clone();
                outcomes.push(BatchOutcome { target, result: record(outcome) });
                proof {
                    assert(outcome_views(outcomes@) =~= before.push(
                        BatchOutcomeView {
                            target: self@.current(),
                            result: recorded(crate::client::outcome_view(outcome)),
                        },
                    ));
                }
                BatchExecutor::enter(targets, command, outcomes)
            },
        }
    }
}

} // verus!
