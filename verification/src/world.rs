//! A model of the service as a whole, one repository beside the other, and
//! what a batch amounts to when the service answers as the model says.

use vstd::prelude::*;
use crate::batch::{
    batch_advance, batch_enter, batch_start, follows, recorded, BatchExecutorView,
    BatchOutcomeView, BatchStepView,
};
use crate::client::{operation_advance, OperationView, ProgressView, Purpose};
use crate::command::{command_start, created_properties, CommandView};
use crate::laws::{lemma_operations_keep_well_formed, theorem_create, theorem_titled};
use crate::milestone::ErrorView;
use crate::model::{run, RepositoryModel};
use crate::remote::{RequestView, ResponseView};
use crate::target::TargetView;

verus! {

/// The repositories that the service hosts.
pub struct World {
    pub repositories: Map<TargetView, RepositoryModel>,
}

impl World {
    /// Every hosted repository is well formed.
    pub open spec fn well_formed(self) -> bool {
        forall|target: TargetView| #[trigger]
            self.repositories.contains_key(target) ==> self.repositories[target].well_formed()
    }

    /// The same service with `repository` in the place of `target`.
    pub open spec fn with(self, target: TargetView, repository: RepositoryModel) -> World {
        World { repositories: self.repositories.insert(target, repository) }
    }

    /// The service's answer to a request that concerns `target`, and the
    /// service after it. A repository that is not hosted is not found.
    pub open spec fn serve(self, target: TargetView, request: RequestView) -> (
        World,
        ResponseView,
    ) {
        if self.repositories.contains_key(target) {
            (
                self.with(target, self.repositories[target].serve(request).0),
                self.repositories[target].serve(request).1,
            )
        } else {
            (self, ResponseView::Failed(ErrorView::NotFound))
        }
    }

    /// What `command` amounts to in the repository `target`: the service
    /// after it, and what is recorded for the repository.
    pub open spec fn apply(self, target: TargetView, command: CommandView) -> (
        World,
        Result<(), ErrorView>,
    ) {
        if self.repositories.contains_key(target) {
            let repository = self.repositories[target];
            let (after, outcome) = match command {
                CommandView::Create { title } => repository.create(created_properties(title)),
                CommandView::Close { title } => repository.apply(Purpose::Close, title),
                CommandView::Delete { title } => repository.apply(Purpose::Delete, title),
            };
            (self.with(target, after), recorded(outcome))
        } else {
            (self, Err(ErrorView::NotFound))
        }
    }

    /// A number of requests within which every operation on `target` ends.
    pub open spec fn patience(self, target: TargetView) -> nat {
        if self.repositories.contains_key(target) {
            self.repositories[target].patience()
        } else {
            1
        }
    }
}

/// Runs a batch against the service: each request is answered by the
/// service and the answer handed to the batch, until the batch ends or
/// `fuel` requests have been answered. The result is the service after the
/// last answer, and the report if the batch ended.
pub open spec fn run_batch(world: World, step: BatchStepView, fuel: nat) -> (
    World,
    Option<Seq<BatchOutcomeView>>,
)
    decreases fuel,
{
    match step {
        BatchStepView::Finished(report) => (world, Some(report)),
        BatchStepView::Perform { executor, target, request } => if fuel == 0 {
            (world, None)
        } else {
            run_batch(
                world.serve(target, request).0,
                batch_advance(executor, world.serve(target, request).1),
                (fuel - 1) as nat,
            )
        },
    }
}

/// What a batch amounts to from the repository at `from` on: the command is
/// applied to one repository after the other, each finding the service as
/// the one before left it, and one outcome is recorded for each.
pub open spec fn batch_outcomes(
    world: World,
    targets: Seq<TargetView>,
    command: CommandView,
    from: int,
) -> (World, Seq<BatchOutcomeView>)
    decreases targets.len() - from,
{
    if 0 <= from < targets.len() {
        let (after, result) = world.apply(targets[from], command);
        let (last, rest) = batch_outcomes(after, targets, command, from + 1);
        (last, seq![BatchOutcomeView { target: targets[from], result }] + rest)
    } else {
        (world, Seq::empty())
    }
}

/// A number of requests within which the batch ends, from the repository at
/// `from` on.
pub open spec fn batch_patience(
    world: World,
    targets: Seq<TargetView>,
    command: CommandView,
    from: int,
) -> nat
    decreases targets.len() - from,
{
    if 0 <= from < targets.len() {
        world.patience(targets[from]) + batch_patience(
            world.apply(targets[from], command).0,
            targets,
            command,
            from + 1,
        )
    } else {
        0
    }
}

/// The number of requests that `run` has answered.
pub open spec fn steps(
    repository: RepositoryModel,
    operation: OperationView,
    request: RequestView,
    fuel: nat,
) -> nat
    decreases fuel,
{
    if fuel == 0 {
        0
    } else {
        match operation_advance(operation, repository.serve(request).1) {
            ProgressView::Continue { operation: next, request: next_request } => 1 + steps(
                repository.serve(request).0,
                next,
                next_request,
                (fuel - 1) as nat,
            ),
            ProgressView::Finished(_) => 1,
        }
    }
}

/// The service stays well formed under every command.
pub proof fn lemma_apply_keeps_well_formed(world: World, target: TargetView, command: CommandView)
    requires
        world.well_formed(),
    ensures
        world.apply(target, command).0.well_formed(),
{
    if world.repositories.contains_key(target) {
        let repository = world.repositories[target];
        match command {
            CommandView::Create { title } => {
                lemma_operations_keep_well_formed(
                    repository,
                    Purpose::Find,
                    title,
                    created_properties(title),
                );
            },
            CommandView::Close { title } => {
                lemma_operations_keep_well_formed(
                    repository,
                    Purpose::Close,
                    title,
                    created_properties(title),
                );
            },
            CommandView::Delete { title } => {
                lemma_operations_keep_well_formed(
                    repository,
                    Purpose::Delete,
                    title,
                    created_properties(title),
                );
            },
        }
    }
}

/// Within a batch, the operation on the current repository runs as it
/// would alone: when it ends, the repository is as the operation left it,
/// the outcome is recorded, and the batch enters the next repository.
proof fn lemma_operation_in_batch(
    world: World,
    executor: BatchExecutorView,
    request: RequestView,
    enough: nat,
    fuel: nat,
)
    requires
        executor.well_formed(),
        world.repositories.contains_key(executor.current()),
        run(world.repositories[executor.current()], executor.operation, request, enough).1 is Some,
        fuel >= enough,
    ensures
        ({
            let repository = world.repositories[executor.current()];
            let used = steps(repository, executor.operation, request, enough);
            let (after, outcome) = run(repository, executor.operation, request, enough);
            &&& 1 <= used <= enough
            &&& run_batch(
                world,
                BatchStepView::Perform { executor, target: executor.current(), request },
                fuel,
            ) == run_batch(
                world.with(executor.current(), after),
                batch_enter(
                    executor.targets,
                    executor.command,
                    executor.outcomes.push(
                        BatchOutcomeView {
                            target: executor.current(),
                            result: recorded(outcome->0),
                        },
                    ),
                ),
                (fuel - used) as nat,
            )
        }),
    decreases enough,
{
    let target = executor.current();
    let repository = world.repositories[target];
    let (next_repository, response) = repository.serve(request);
    let next_world = world.with(target, next_repository);
    assert(world.serve(target, request) == (next_world, response));
    match operation_advance(executor.operation, response) {
        ProgressView::Finished(outcome) => {},
        ProgressView::Continue { operation, request: next_request } => {
            let next_executor = BatchExecutorView {
                targets: executor.targets,
                command: executor.command,
                operation,
                outcomes: executor.outcomes,
            };
            lemma_operation_in_batch(
                next_world,
                next_executor,
                next_request,
                (enough - 1) as nat,
                (fuel - 1) as nat,
            );
            let after = run(repository, executor.operation, request, enough).0;
            assert(next_world.with(target, after).repositories =~= world.with(
                target,
                after,
            ).repositories);
        },
    }
}

/// An operation on a repository that is not hosted ends at once with
/// `NotFound`, and the batch enters the next repository.
proof fn lemma_missing_repository(
    world: World,
    executor: BatchExecutorView,
    request: RequestView,
    fuel: nat,
)
    requires
        executor.well_formed(),
        !world.repositories.contains_key(executor.current()),
        fuel >= 1,
    ensures
        run_batch(
            world,
            BatchStepView::Perform { executor, target: executor.current(), request },
            fuel,
        ) == run_batch(
            world,
            batch_enter(
                executor.targets,
                executor.command,
                executor.outcomes.push(
                    BatchOutcomeView {
                        target: executor.current(),
                        result: Err(ErrorView::NotFound),
                    },
                ),
            ),
            (fuel - 1) as nat,
        ),
{
}

/// Alone, the operation that a command begins amounts to what the model
/// calls `apply`.
proof fn lemma_command_alone(repository: RepositoryModel, command: CommandView)
    requires
        repository.well_formed(),
    ensures
        ({
            let (after, outcome) = match command {
                CommandView::Create { title } => repository.create(created_properties(title)),
                CommandView::Close { title } => repository.apply(Purpose::Close, title),
                CommandView::Delete { title } => repository.apply(Purpose::Delete, title),
            };
            run(
                repository,
                command_start(command).0,
                command_start(command).1,
                repository.patience(),
            ) == (after, Some(outcome))
        }),
{
    match command {
        CommandView::Create { title } => {
            theorem_create(repository, created_properties(title), repository.patience());
        },
        CommandView::Close { title } => {
            theorem_titled(repository, Purpose::Close, title, repository.patience());
        },
        CommandView::Delete { title } => {
            theorem_titled(repository, Purpose::Delete, title, repository.patience());
        },
    }
}

/// A batch that has recorded the outcomes of the first repositories ends
/// with these and those of the repositories that are left.
proof fn lemma_batch_from(
    world: World,
    targets: Seq<TargetView>,
    command: CommandView,
    outcomes: Seq<BatchOutcomeView>,
    fuel: nat,
)
    requires
        world.well_formed(),
        follows(outcomes, targets),
        fuel >= batch_patience(world, targets, command, outcomes.len() as int),
    ensures
        run_batch(world, batch_enter(targets, command, outcomes), fuel) == (
            batch_outcomes(world, targets, command, outcomes.len() as int).0,
            Some(outcomes + batch_outcomes(world, targets, command, outcomes.len() as int).1),
        ),
    decreases targets.len() - outcomes.len(),
{
    let from = outcomes.len() as int;
    if from < targets.len() {
        let target = targets[from];
        let executor = BatchExecutorView {
            targets,
            command,
            operation: command_start(command).0,
            outcomes,
        };
        let request = command_start(command).1;
        let (after, result) = world.apply(target, command);
        let recorded_outcomes = outcomes.push(BatchOutcomeView { target, result });
        lemma_apply_keeps_well_formed(world, target, command);
        if world.repositories.contains_key(target) {
            let repository = world.repositories[target];
            lemma_command_alone(repository, command);
            lemma_operation_in_batch(world, executor, request, repository.patience(), fuel);
            let used = steps(
                repository,
                command_start(command).0,
                request,
                repository.patience(),
            );
            lemma_batch_from(after, targets, command, recorded_outcomes, (fuel - used) as nat);
        } else {
            lemma_missing_repository(world, executor, request, fuel);
            lemma_batch_from(after, targets, command, recorded_outcomes, (fuel - 1) as nat);
        }
        assert(recorded_outcomes + batch_outcomes(after, targets, command, from + 1).1 =~= outcomes
            + batch_outcomes(world, targets, command, from).1);
    } else {
        assert(outcomes + Seq::<BatchOutcomeView>::empty() =~= outcomes);
    }
}

/// A batch ends within its patience and amounts to this: the command is
/// applied to every repository of the list, in the order of the list, each
/// application finding the service as the one before left it; and the
/// report holds, for each repository in that order, whether the command
/// succeeded there or the error it failed with. No outcome depends on what
/// became of the command in another repository.
pub proof fn theorem_batch(world: World, targets: Seq<TargetView>, command: CommandView, fuel: nat)
    requires
        world.well_formed(),
        fuel >= batch_patience(world, targets, command, 0),
    ensures
        run_batch(world, batch_start(targets, command), fuel) == (
            batch_outcomes(world, targets, command, 0).0,
            Some(batch_outcomes(world, targets, command, 0).1),
        ),
{
    lemma_batch_from(world, targets, command, Seq::empty(), fuel);
    assert(Seq::<BatchOutcomeView>::empty() + batch_outcomes(world, targets, command, 0).1
        =~= batch_outcomes(world, targets, command, 0).1);
}

} // verus!
