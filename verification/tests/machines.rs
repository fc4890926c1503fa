use mrmm::batch::{BatchExecutor, BatchOutcome, BatchStep};
use mrmm::client::{Operation, Progress, Purpose};
use mrmm::command::{Command, CommandKind};
use mrmm::milestone::{ClientError, MilestoneProperties, MilestoneResource, MilestoneState};
use mrmm::remote::{Page, Request, Response};
use mrmm::report::{announcement, failure_line};
use mrmm::resolution::{find_in_page, Resolution, ResolutionStep};
use mrmm::target::RepositoryTarget;

fn milestone(identifier: u64, title: &str, state: MilestoneState) -> MilestoneResource {
    MilestoneResource {
        identifier: Some(identifier),
        title: title.to_string(),
        state,
        description: None,
        due_on: None,
    }
}

fn list(state: MilestoneState, page: Option<u64>) -> Request {
    Request::ListPage { state, page }
}

fn resume(step: ResolutionStep, page: Page) -> ResolutionStep {
    match step {
        ResolutionStep::Fetch { resolution, .. } => resolution.on_page(page),
        other => panic!("the resolution had ended: {:?}", other),
    }
}

#[test]
fn find_in_page_gives_the_first_place() {
    let items = vec![
        milestone(1, "3.8.0", MilestoneState::Open),
        milestone(2, "3.9.0", MilestoneState::Open),
        milestone(3, "3.9.0", MilestoneState::Open),
    ];
    assert_eq!(find_in_page(&items, &"3.9.0".to_string()), Some(1));
    assert_eq!(find_in_page(&items, &"3.8.0".to_string()), Some(0));
    assert_eq!(find_in_page(&items, &"4.0.0".to_string()), None);
    assert_eq!(find_in_page(&Vec::new(), &"3.9.0".to_string()), None);
}

#[test]
fn titles_match_exactly_and_by_case() {
    let items = vec![
        milestone(1, "Release", MilestoneState::Open),
        milestone(2, "release ", MilestoneState::Open),
        milestone(3, "release", MilestoneState::Open),
    ];
    assert_eq!(find_in_page(&items, &"release".to_string()), Some(2));
    assert_eq!(find_in_page(&items, &"RELEASE".to_string()), None);
    assert_eq!(find_in_page(&items, &"".to_string()), None);
}

#[test]
fn resolution_begins_with_the_first_open_page() {
    let (resolution, request) = Resolution::start("v1".to_string());
    assert_eq!(request, list(MilestoneState::Open, None));
    assert_eq!(resolution.title(), "v1");
    assert_eq!(resolution.phase(), MilestoneState::Open);
}

#[test]
fn resolution_follows_the_pages_of_both_listings() {
    let (resolution, _) = Resolution::start("v1".to_string());
    let step = resolution.on_page(Page {
        items: vec![milestone(1, "v0", MilestoneState::Open)],
        next_page: Some(2),
    });
    match &step {
        ResolutionStep::Fetch { resolution, request } => {
            assert_eq!(*request, list(MilestoneState::Open, Some(2)));
            assert_eq!(resolution.phase(), MilestoneState::Open);
        },
        other => panic!("unexpected step {:?}", other),
    }
    let step = resume(step, Page { items: vec![], next_page: Some(17) });
    match &step {
        ResolutionStep::Fetch { request, .. } => {
            assert_eq!(*request, list(MilestoneState::Open, Some(17)));
        },
        other => panic!("unexpected step {:?}", other),
    }
    let step = resume(step, Page { items: vec![], next_page: None });
    match &step {
        ResolutionStep::Fetch { resolution, request } => {
            assert_eq!(*request, list(MilestoneState::Closed, None));
            assert_eq!(resolution.phase(), MilestoneState::Closed);
            assert_eq!(resolution.title(), "v1");
        },
        other => panic!("unexpected step {:?}", other),
    }
    let step = resume(
        step,
        Page { items: vec![milestone(4, "v2", MilestoneState::Closed)], next_page: Some(5) },
    );
    match &step {
        ResolutionStep::Fetch { request, .. } => {
            assert_eq!(*request, list(MilestoneState::Closed, Some(5)));
        },
        other => panic!("unexpected step {:?}", other),
    }
    let step = resume(step, Page { items: vec![], next_page: None });
    assert_eq!(step, ResolutionStep::NotFound);
}

#[test]
fn resolution_ends_with_the_first_match_of_a_page() {
    let (resolution, _) = Resolution::start("v1".to_string());
    let step = resolution.on_page(Page {
        items: vec![
            milestone(1, "v0", MilestoneState::Open),
            milestone(2, "v1", MilestoneState::Open),
            milestone(3, "v1", MilestoneState::Open),
        ],
        next_page: Some(2),
    });
    assert_eq!(step, ResolutionStep::Found(milestone(2, "v1", MilestoneState::Open)));
}

#[test]
fn create_asks_for_the_creation_and_returns_what_was_stored() {
    let properties = MilestoneProperties::titled("v1".to_string());
    assert_eq!(properties.state, None);
    assert_eq!(properties.description, None);
    assert_eq!(properties.due_on, None);
    let (operation, request) = Operation::create(properties.clone());
    assert_eq!(request, Request::Create { properties });
    let stored = milestone(9, "v1", MilestoneState::Open);
    assert_eq!(
        operation.advance(Response::Created(stored.clone())),
        Progress::Finished(Ok(Some(stored)))
    );
}

#[test]
fn close_names_the_identifier_that_was_found() {
    let (operation, request) = Operation::close("v1".to_string());
    assert_eq!(request, list(MilestoneState::Open, None));
    let progress = operation.advance(Response::Page(Page {
        items: vec![milestone(41, "v0", MilestoneState::Open), milestone(42, "v1", MilestoneState::Open)],
        next_page: Some(2),
    }));
    let operation = match progress {
        Progress::Continue { operation, request } => {
            assert_eq!(
                request,
                Request::SetState { identifier: 42, state: MilestoneState::Closed }
            );
            assert_eq!(operation, Operation::Closing);
            operation
        },
        other => panic!("unexpected progress {:?}", other),
    };
    let closed = milestone(42, "v1", MilestoneState::Closed);
    assert_eq!(
        operation.advance(Response::Updated(closed.clone())),
        Progress::Finished(Ok(Some(closed)))
    );
}

#[test]
fn delete_names_the_identifier_that_was_found() {
    let (operation, _) = Operation::delete_by_title("v1".to_string());
    let progress = operation.advance(Response::Page(Page { items: vec![], next_page: None }));
    let operation = match progress {
        Progress::Continue { operation, request } => {
            assert_eq!(request, list(MilestoneState::Closed, None));
            operation
        },
        other => panic!("unexpected progress {:?}", other),
    };
    let progress = operation.advance(Response::Page(Page {
        items: vec![milestone(7, "v1", MilestoneState::Closed)],
        next_page: None,
    }));
    let operation = match progress {
        Progress::Continue { operation, request } => {
            assert_eq!(request, Request::Delete { identifier: 7 });
            assert_eq!(operation, Operation::Deleting);
            operation
        },
        other => panic!("unexpected progress {:?}", other),
    };
    assert_eq!(operation.advance(Response::Deleted), Progress::Finished(Ok(None)));
}

#[test]
fn find_returns_the_milestone_without_a_write() {
    let (operation, _) = Operation::find_by_title("v1".to_string());
    match &operation {
        Operation::Resolving { purpose, .. } => assert_eq!(*purpose, Purpose::Find),
        other => panic!("unexpected operation {:?}", other),
    }
    let found = milestone(3, "v1", MilestoneState::Open);
    assert_eq!(
        operation.advance(Response::Page(Page { items: vec![found.clone()], next_page: None })),
        Progress::Finished(Ok(Some(found)))
    );
}

#[test]
fn missing_title_ends_in_not_found_before_any_write() {
    for start in [Operation::close("v1".to_string()), Operation::delete_by_title("v1".to_string())] {
        let (operation, _) = start;
        let progress = operation.advance(Response::Page(Page { items: vec![], next_page: None }));
        let operation = match progress {
            Progress::Continue { operation, request } => {
                assert_eq!(request, list(MilestoneState::Closed, None));
                operation
            },
            other => panic!("unexpected progress {:?}", other),
        };
        assert_eq!(
            operation.advance(Response::Page(Page { items: vec![], next_page: None })),
            Progress::Finished(Err(ClientError::NotFound))
        );
    }
}

#[test]
fn every_failure_ends_the_operation_with_itself() {
    let failures = [
        ClientError::NotFound,
        ClientError::RemoteRejected("due_on is not a date".to_string()),
        ClientError::TransportError("connection reset".to_string()),
        ClientError::Unauthorized,
        ClientError::Forbidden,
        ClientError::RateLimited,
    ];
    for failure in failures {
        let (operation, _) = Operation::create(MilestoneProperties::titled("v1".to_string()));
        assert_eq!(
            operation.advance(Response::Failed(failure.clone())),
            Progress::Finished(Err(failure.clone()))
        );
        let (operation, _) = Operation::close("v1".to_string());
        assert_eq!(
            operation.advance(Response::Failed(failure.clone())),
            Progress::Finished(Err(failure.clone()))
        );
        assert_eq!(
            Operation::Closing.advance(Response::Failed(failure.clone())),
            Progress::Finished(Err(failure.clone()))
        );
        assert_eq!(
            Operation::Deleting.advance(Response::Failed(failure.clone())),
            Progress::Finished(Err(failure))
        );
    }
}

#[test]
fn an_answer_to_another_request_is_a_transport_error() {
    let unexpected =
        Progress::Finished(Err(ClientError::TransportError("the answer does not fit the request".to_string())));
    let (operation, _) = Operation::create(MilestoneProperties::titled("v1".to_string()));
    assert_eq!(operation.advance(Response::Deleted), unexpected);
    let (operation, _) = Operation::close("v1".to_string());
    assert_eq!(
        operation.advance(Response::Created(milestone(1, "v1", MilestoneState::Open))),
        unexpected
    );
    assert_eq!(
        Operation::Closing.advance(Response::Page(Page { items: vec![], next_page: None })),
        unexpected
    );
    assert_eq!(
        Operation::Deleting.advance(Response::Updated(milestone(1, "v1", MilestoneState::Closed))),
        unexpected
    );
}

#[test]
fn a_listed_milestone_without_identifier_cannot_be_written() {
    let unnamed = MilestoneResource {
        identifier: None,
        title: "v1".to_string(),
        state: MilestoneState::Open,
        description: None,
        due_on: None,
    };
    let expected = Progress::Finished(Err(ClientError::TransportError(
        "the milestone was listed without an identifier".to_string(),
    )));
    let (operation, _) = Operation::close("v1".to_string());
    assert_eq!(
        operation.advance(Response::Page(Page { items: vec![unnamed.clone()], next_page: None })),
        expected
    );
    let (operation, _) = Operation::delete_by_title("v1".to_string());
    assert_eq!(
        operation.advance(Response::Page(Page { items: vec![unnamed.clone()], next_page: None })),
        expected
    );
    let (operation, _) = Operation::find_by_title("v1".to_string());
    assert_eq!(
        operation.advance(Response::Page(Page { items: vec![unnamed.clone()], next_page: None })),
        Progress::Finished(Ok(Some(unnamed)))
    );
}

#[test]
fn errors_describe_themselves() {
    assert_eq!(ClientError::NotFound.describe(), "not found");
    assert_eq!(
        ClientError::RemoteRejected("due_on is not a date".to_string()).describe(),
        "rejected by the service: due_on is not a date"
    );
    assert_eq!(
        ClientError::TransportError("connection reset".to_string()).describe(),
        "transport failed: connection reset"
    );
    assert_eq!(ClientError::Unauthorized.describe(), "the credential was not accepted");
    assert_eq!(ClientError::Forbidden.describe(), "the credential does not allow this");
    assert_eq!(ClientError::RateLimited.describe(), "the service asks to slow down");
}

#[test]
fn commands_are_built_from_kind_and_title() {
    let create = Command::new(CommandKind::Create, "3.9.0".to_string());
    assert_eq!(create, Command::Create { title: "3.9.0".to_string() });
    assert_eq!(create.kind(), CommandKind::Create);
    assert_eq!(create.title(), "3.9.0");
    let close = Command::new(CommandKind::Close, "3.9.0".to_string());
    assert_eq!(close, Command::Close { title: "3.9.0".to_string() });
    assert_eq!(close.kind(), CommandKind::Close);
    let delete = Command::new(CommandKind::Delete, "".to_string());
    assert_eq!(delete, Command::Delete { title: "".to_string() });
    assert_eq!(delete.kind(), CommandKind::Delete);
    assert_eq!(delete.title(), "");
}

#[test]
fn commands_begin_their_operation() {
    let (operation, request) = Command::Create { title: "3.9.0".to_string() }.begin();
    assert_eq!(operation, Operation::Creating);
    assert_eq!(
        request,
        Request::Create {
            properties: MilestoneProperties {
                title: "3.9.0".to_string(),
                state: Some(MilestoneState::Open),
                description: None,
                due_on: None,
            },
        }
    );
    let (operation, request) = Command::Close { title: "3.9.0".to_string() }.begin();
    assert_eq!(request, list(MilestoneState::Open, None));
    assert_eq!(operation, Operation::close("3.9.0".to_string()).0);
    let (operation, request) = Command::Delete { title: "3.9.0".to_string() }.begin();
    assert_eq!(request, list(MilestoneState::Open, None));
    assert_eq!(operation, Operation::delete_by_title("3.9.0".to_string()).0);
}

#[test]
fn a_batch_over_no_repository_ends_at_once() {
    let step = BatchExecutor::start(Vec::new(), Command::Close { title: "3.9.0".to_string() });
    match step {
        BatchStep::Finished(report) => {
            assert_eq!(report.len(), 0);
            assert!(report.outcomes().is_empty());
        },
        other => panic!("unexpected step {:?}", other),
    }
}

#[test]
fn a_batch_goes_on_after_a_failure() {
    let targets = vec![
        RepositoryTarget::parse("org1/repoA").unwrap(),
        RepositoryTarget::parse("org2/repoB").unwrap(),
    ];
    let step = BatchExecutor::start(targets, Command::Create { title: "3.9.0".to_string() });
    let executor = match step {
        BatchStep::Perform { executor, target, request } => {
            assert_eq!(target.full_name(), "org1/repoA");
            assert!(matches!(request, Request::Create { .. }));
            executor
        },
        other => panic!("unexpected step {:?}", other),
    };
    let step = executor.advance(Response::Failed(ClientError::Unauthorized));
    let executor = match step {
        BatchStep::Perform { executor, target, request } => {
            assert_eq!(target.full_name(), "org2/repoB");
            assert!(matches!(request, Request::Create { .. }));
            executor
        },
        other => panic!("unexpected step {:?}", other),
    };
    let step = executor.advance(Response::Created(milestone(1, "3.9.0", MilestoneState::Open)));
    match step {
        BatchStep::Finished(report) => {
            let outcomes = report.into_outcomes();
            assert_eq!(outcomes.len(), 2);
            assert_eq!(outcomes[0].target.full_name(), "org1/repoA");
            assert_eq!(outcomes[0].result, Err(ClientError::Unauthorized));
            assert_eq!(outcomes[1].target.full_name(), "org2/repoB");
            assert_eq!(outcomes[1].result, Ok(()));
        },
        other => panic!("unexpected step {:?}", other),
    }
}

#[test]
fn kinds_have_the_names_of_the_subcommands() {
    assert_eq!(CommandKind::Create.name(), "create");
    assert_eq!(CommandKind::Close.name(), "close");
    assert_eq!(CommandKind::Delete.name(), "delete");
    for kind in [CommandKind::Create, CommandKind::Close, CommandKind::Delete] {
        assert_eq!(CommandKind::from_name(kind.name()), Some(kind));
    }
    assert_eq!(CommandKind::from_name(""), None);
    assert_eq!(CommandKind::from_name("Create"), None);
    assert_eq!(CommandKind::from_name("remove"), None);
    assert_eq!(CommandKind::from_name("close "), None);
}

#[test]
fn writes_are_announced_and_listings_are_not() {
    let target = RepositoryTarget::parse("rabbitmq/rabbitmq-server").unwrap();
    let command = Command::Close { title: "3.9.0".to_string() };
    assert_eq!(announcement(&command, &target, &list(MilestoneState::Open, None)), None);
    assert_eq!(
        announcement(
            &command,
            &target,
            &Request::SetState { identifier: 4, state: MilestoneState::Closed }
        ),
        Some("Closing milestone 3.9.0 in repository rabbitmq/rabbitmq-server".to_string())
    );
    assert_eq!(
        announcement(&command, &target, &Request::Delete { identifier: 4 }),
        Some("Deleting milestone 3.9.0 in repository rabbitmq/rabbitmq-server".to_string())
    );
    assert_eq!(
        announcement(
            &command,
            &target,
            &Request::Create { properties: MilestoneProperties::titled("3.9.0".to_string()) }
        ),
        Some("Creating milestone 3.9.0 in repository rabbitmq/rabbitmq-server".to_string())
    );
}

#[test]
fn failures_are_reported_with_target_and_reason() {
    let target = RepositoryTarget::parse("org2/repoB").unwrap();
    let failed = BatchOutcome { target: target.clone(), result: Err(ClientError::NotFound) };
    assert_eq!(
        failure_line(&Command::Close { title: "3.9.0".to_string() }, &failed),
        Some("Failed to close milestone 3.9.0 in repository org2/repoB: not found".to_string())
    );
    assert_eq!(
        failure_line(&Command::Delete { title: "3.9.0".to_string() }, &failed),
        Some("Failed to delete milestone 3.9.0 in repository org2/repoB: not found".to_string())
    );
    let refused = BatchOutcome {
        target: target.clone(),
        result: Err(ClientError::RemoteRejected("title is taken".to_string())),
    };
    assert_eq!(
        failure_line(&Command::Create { title: "3.9.0".to_string() }, &refused),
        Some(
            "Failed to create milestone 3.9.0 in repository org2/repoB: rejected by the service: title is taken"
                .to_string()
        )
    );
    let done = BatchOutcome { target, result: Ok(()) };
    assert_eq!(failure_line(&Command::Create { title: "3.9.0".to_string() }, &done), None);
}
