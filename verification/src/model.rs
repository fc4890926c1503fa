//! A model of the milestones of one repository as the remote service keeps
//! them, and of the answers the service gives.
//!
//! The model is mathematics only; nothing of it runs. It says what the
//! operations of this library amount to when every request they hand out is
//! answered by such a service.

use vstd::prelude::*;
use crate::client::{
    create_start, operation_advance, progress_on_found, resolving_start, OperationView,
    OutcomeView, ProgressView, Purpose,
};
use crate::milestone::{ErrorView, MilestoneState, MilestoneView, PropertiesView};
use crate::remote::{PageView, RequestView, ResponseView};
use crate::resolution::{
    first_match, lemma_first_match, lemma_first_match_concat, none_titled, resolve,
    ResolutionView,
};

verus! {

/// The milestones of one repository.
pub struct RepositoryModel {
    /// The milestones in the order in which the service lists them.
    pub milestones: Seq<MilestoneView>,
    /// The identifier that the next created milestone gets.
    pub next_identifier: nat,
    /// The number of milestones on a full page of a listing.
    pub page_size: nat,
}

/// The milestones that are in `state`.
pub open spec fn in_state(state: MilestoneState) -> spec_fn(MilestoneView) -> bool {
    |m: MilestoneView| m.state == state
}

/// The place in a listing at which the page named `page` begins.
pub open spec fn page_offset(page: Option<u64>) -> nat {
    match page {
        Some(offset) => offset as nat,
        None => 0,
    }
}

/// The error of a creation for which the service has no identifier left.
pub open spec fn identifiers_exhausted() -> ErrorView {
    ErrorView::RemoteRejected("no identifier is left"@)
}

impl RepositoryModel {
    /// Every milestone has an identifier of its own, below the next one to
    /// be given out, and pages hold at least one milestone.
    pub open spec fn well_formed(self) -> bool {
        &&& self.page_size > 0
        &&& self.next_identifier <= u64::MAX
        &&& self.milestones.len() <= self.next_identifier
        &&& forall|i: int|
            0 <= i < self.milestones.len() ==> (#[trigger] self.milestones[i]).identifier is Some
                && self.milestones[i].identifier->0 < self.next_identifier
        &&& forall|i: int, j: int|
            0 <= i < j < self.milestones.len() ==> (#[trigger] self.milestones[i]).identifier != (
            #[trigger] self.milestones[j]).identifier
    }

    /// The listing of the milestones in `state`.
    pub open spec fn listing(self, state: MilestoneState) -> Seq<MilestoneView> {
        self.milestones.filter(in_state(state))
    }

    /// The page of the listing of `state` that `page` names. A page that is
    /// not the last names its successor by the place at which that begins.
    pub open spec fn page(self, state: MilestoneState, page: Option<u64>) -> PageView {
        let listing = self.listing(state);
        let from = if page_offset(page) <= listing.len() {
            page_offset(page) as int
        } else {
            listing.len() as int
        };
        let to = if from + self.page_size <= listing.len() {
            from + self.page_size
        } else {
            listing.len() as int
        };
        PageView {
            items: listing.subrange(from, to),
            next_page: if to < listing.len() {
                Some(to as u64)
            } else {
                None
            },
        }
    }

    /// Some milestone has this identifier.
    pub open spec fn holds(self, identifier: u64) -> bool {
        exists|i: int| self.is_at(identifier, i)
    }

    /// The milestone at `at` has this identifier.
    pub open spec fn is_at(self, identifier: u64, at: int) -> bool {
        0 <= at < self.milestones.len() && self.milestones[at].identifier == Some(identifier)
    }

    /// The place of the milestone with this identifier.
    pub open spec fn place_of(self, identifier: u64) -> int {
        choose|i: int| self.is_at(identifier, i)
    }

    /// The milestone that the service stores for `properties`: it gets the
    /// next identifier, and it is open unless the properties say otherwise.
    pub open spec fn stored(self, properties: PropertiesView) -> MilestoneView {
        MilestoneView {
            identifier: Some(self.next_identifier as u64),
            title: properties.title,
            state: match properties.state {
                Some(state) => state,
                None => MilestoneState::Open,
            },
            description: properties.description,
            due_on: properties.due_on,
        }
    }

    /// The same repository with other milestones.
    pub open spec fn with_milestones(self, milestones: Seq<MilestoneView>) -> RepositoryModel {
        RepositoryModel {
            milestones,
            next_identifier: self.next_identifier,
            page_size: self.page_size,
        }
    }

    /// The service's answer to `request`, and the repository after it.
    pub open spec fn serve(self, request: RequestView) -> (RepositoryModel, ResponseView) {
        match request {
            RequestView::ListPage { state, page } => (
                self,
                ResponseView::Page(self.page(state, page)),
            ),
            RequestView::Create { properties } => if self.next_identifier < u64::MAX {
                (
                    RepositoryModel {
                        milestones: self.milestones.push(self.stored(properties)),
                        next_identifier: self.next_identifier + 1,
                        page_size: self.page_size,
                    },
                    ResponseView::Created(self.stored(properties)),
                )
            } else {
                (self, ResponseView::Failed(identifiers_exhausted()))
            },
            RequestView::SetState { identifier, state } => if self.holds(identifier) {
                let at = self.place_of(identifier);
                let changed = MilestoneView {
                    identifier: self.milestones[at].identifier,
                    title: self.milestones[at].title,
                    state,
                    description: self.milestones[at].description,
                    due_on: self.milestones[at].due_on,
                };
                (
                    self.with_milestones(self.milestones.update(at, changed)),
                    ResponseView::Updated(changed),
                )
            } else {
                (self, ResponseView::Failed(ErrorView::NotFound))
            },
            RequestView::Delete { identifier } => if self.holds(identifier) {
                (
                    self.with_milestones(self.milestones.remove(self.place_of(identifier))),
                    ResponseView::Deleted,
                )
            } else {
                (self, ResponseView::Failed(ErrorView::NotFound))
            },
        }
    }

    /// A number of requests within which every operation on this repository
    /// ends.
    pub open spec fn patience(self) -> nat {
        self.listing(MilestoneState::Open).len() + self.listing(MilestoneState::Closed).len() + 3
    }
}

/// Runs an operation against the repository: the request is answered by the
/// service, the answer is handed to the operation, and so on until the
/// operation ends or `fuel` requests have been answered. The result is the
/// repository after the last answer, and the outcome if the operation ended.
pub open spec fn run(
    repository: RepositoryModel,
    operation: OperationView,
    request: RequestView,
    fuel: nat,
) -> (RepositoryModel, Option<OutcomeView>)
    decreases fuel,
{
    if fuel == 0 {
        (repository, None)
    } else {
        let (after, response) = repository.serve(request);
        match operation_advance(operation, response) {
            ProgressView::Continue { operation: next, request: next_request } => run(
                after,
                next,
                next_request,
                (fuel - 1) as nat,
            ),
            ProgressView::Finished(outcome) => (after, Some(outcome)),
        }
    }
}

/// Runs the creation of a milestone with `properties` against the
/// repository.
pub open spec fn run_create(repository: RepositoryModel, properties: PropertiesView, fuel: nat) -> (
    RepositoryModel,
    Option<OutcomeView>,
) {
    run(repository, create_start(properties).0, create_start(properties).1, fuel)
}

/// Runs an operation that addresses a milestone by `title` against the
/// repository.
pub open spec fn run_titled(
    repository: RepositoryModel,
    purpose: Purpose,
    title: Seq<char>,
    fuel: nat,
) -> (RepositoryModel, Option<OutcomeView>) {
    run(repository, resolving_start(title, purpose).0, resolving_start(title, purpose).1, fuel)
}

/// A well-formed repository stays well formed under every request.
pub proof fn lemma_serve_keeps_well_formed(repository: RepositoryModel, request: RequestView)
    requires
        repository.well_formed(),
    ensures
        repository.serve(request).0.well_formed(),
{
}

impl RepositoryModel {
    /// The milestone that resolving `title` yields in this repository.
    pub open spec fn find(self, title: Seq<char>) -> Option<MilestoneView> {
        resolve(self.listing(MilestoneState::Open), self.listing(MilestoneState::Closed), title)
    }

    /// The milestone at `at`, in `state`.
    pub open spec fn changed(self, at: int, state: MilestoneState) -> MilestoneView {
        MilestoneView {
            identifier: self.milestones[at].identifier,
            title: self.milestones[at].title,
            state,
            description: self.milestones[at].description,
            due_on: self.milestones[at].due_on,
        }
    }

    /// What creating a milestone amounts to: the service stores it behind
    /// the others, unless it has no identifier left.
    pub open spec fn create(self, properties: PropertiesView) -> (RepositoryModel, OutcomeView) {
        if self.next_identifier < u64::MAX {
            (
                RepositoryModel {
                    milestones: self.milestones.push(self.stored(properties)),
                    next_identifier: self.next_identifier + 1,
                    page_size: self.page_size,
                },
                Ok(Some(self.stored(properties))),
            )
        } else {
            (self, Err(identifiers_exhausted()))
        }
    }

    /// What an operation that addresses a milestone by `title` amounts to.
    /// Where no milestone carries the title, nothing changes and the outcome
    /// is `NotFound`. Otherwise the milestone that resolving yields is
    /// returned, closed, or deleted, and no other milestone changes.
    pub open spec fn apply(self, purpose: Purpose, title: Seq<char>) -> (
        RepositoryModel,
        OutcomeView,
    ) {
        match self.find(title) {
            None => (self, Err(ErrorView::NotFound)),
            Some(found) => {
                let at = self.place_of(found.identifier->0);
                match purpose {
                    Purpose::Find => (self, Ok(Some(found))),
                    Purpose::Close => (
                        self.with_milestones(
                            self.milestones.update(at, self.changed(at, MilestoneState::Closed)),
                        ),
                        Ok(Some(self.changed(at, MilestoneState::Closed))),
                    ),
                    Purpose::Delete => (self.with_milestones(self.milestones.remove(at)), Ok(None)),
                }
            },
        }
    }
}

/// What follows once the resolution has ended with `found`: without a
/// milestone the operation ends with `NotFound` and no request is made;
/// with one, the write that the purpose calls for is made, if any.
pub open spec fn conclude(repository: RepositoryModel, found: Option<MilestoneView>, purpose: Purpose)
    -> (RepositoryModel, Option<OutcomeView>) {
    match found {
        None => (repository, Some(Err(ErrorView::NotFound))),
        Some(milestone) => match progress_on_found(milestone, purpose) {
            ProgressView::Finished(outcome) => (repository, Some(outcome)),
            ProgressView::Continue { operation, request } => run(repository, operation, request, 1),
        },
    }
}

/// A listing is no longer than the list it is taken from.
pub proof fn lemma_listing_fits(repository: RepositoryModel, state: MilestoneState)
    requires
        repository.well_formed(),
    ensures
        repository.listing(state).len() <= repository.milestones.len(),
        repository.listing(state).len() <= u64::MAX,
{
    repository.milestones.lemma_filter_len(in_state(state));
}

/// A milestone of a listing is a milestone of the repository, in the state
/// that was listed.
pub proof fn lemma_listed(repository: RepositoryModel, state: MilestoneState, i: int)
    requires
        0 <= i < repository.listing(state).len(),
    ensures
        repository.listing(state)[i].state == state,
        exists|at: int|
            0 <= at < repository.milestones.len() && repository.milestones[at]
                == repository.listing(state)[i],
{
    let listing = repository.listing(state);
    repository.milestones.lemma_filter_pred(in_state(state), i);
    assert(listing.contains(listing[i]));
    repository.milestones.lemma_filter_contains_rev(in_state(state), listing[i]);
    let at = choose|at: int|
        0 <= at < repository.milestones.len() && repository.milestones[at] == listing[i];
    assert(repository.milestones[at] == listing[i]);
}

/// A milestone of the repository is listed under its state.
pub proof fn lemma_is_listed(repository: RepositoryModel, at: int)
    requires
        0 <= at < repository.milestones.len(),
    ensures
        exists|i: int|
            0 <= i < repository.listing(repository.milestones[at].state).len()
                && repository.listing(repository.milestones[at].state)[i]
                == repository.milestones[at],
{
    let state = repository.milestones[at].state;
    repository.milestones.lemma_filter_contains(in_state(state), at);
    let listing = repository.listing(state);
    assert(listing.contains(repository.milestones[at]));
    let i = choose|i: int| 0 <= i < listing.len() && listing[i] == repository.milestones[at];
    assert(listing[i] == repository.milestones[at]);
}

/// A write on a milestone takes one request, whatever the answer.
proof fn lemma_write_ends(
    repository: RepositoryModel,
    operation: OperationView,
    request: RequestView,
    fuel: nat,
)
    requires
        operation is Closing || operation is Deleting || operation is Creating,
        fuel >= 1,
    ensures
        run(repository, operation, request, fuel) == run(repository, operation, request, 1),
{
    let response = repository.serve(request).1;
    assert(operation_advance(operation, response) is Finished);
}

/// Once found, a milestone is dealt with within one request.
proof fn lemma_conclude_found(
    repository: RepositoryModel,
    milestone: MilestoneView,
    purpose: Purpose,
    fuel: nat,
)
    requires
        fuel >= 1,
    ensures
        (match progress_on_found(milestone, purpose) {
            ProgressView::Finished(outcome) => (repository, Some(outcome)),
            ProgressView::Continue { operation, request } => run(
                repository,
                operation,
                request,
                fuel,
            ),
        }) == conclude(repository, Some(milestone), purpose),
{
    match progress_on_found(milestone, purpose) {
        ProgressView::Finished(outcome) => {},
        ProgressView::Continue { operation, request } => {
            lemma_write_ends(repository, operation, request, fuel);
        },
    }
}

/// Reading a listing page by page from any page on, before which no
/// milestone carries the title, ends as the listing as a whole says: with
/// its first match, and without one with what the listing after it yields.
pub proof fn lemma_scan(
    repository: RepositoryModel,
    title: Seq<char>,
    purpose: Purpose,
    phase: MilestoneState,
    page: Option<u64>,
    fuel: nat,
)
    requires
        repository.well_formed(),
        page_offset(page) <= repository.listing(phase).len(),
        none_titled(repository.listing(phase).take(page_offset(page) as int), title),
        phase == MilestoneState::Open ==> fuel >= repository.listing(phase).len() - page_offset(
            page,
        ) + repository.listing(MilestoneState::Closed).len() + 3,
        phase == MilestoneState::Closed ==> fuel >= repository.listing(phase).len() - page_offset(
            page,
        ) + 2,
    ensures
        run(
            repository,
            OperationView::Resolving { resolution: ResolutionView { title, phase }, purpose },
            RequestView::ListPage { state: phase, page },
            fuel,
        ) == conclude(
            repository,
            match first_match(repository.listing(phase), title) {
                Some(m) => Some(m),
                None => match phase {
                    MilestoneState::Open => first_match(
                        repository.listing(MilestoneState::Closed),
                        title,
                    ),
                    MilestoneState::Closed => None,
                },
            },
            purpose,
        ),
    decreases
            (match phase {
                MilestoneState::Open => 1nat,
                MilestoneState::Closed => 0nat,
            }),
            repository.listing(phase).len() - page_offset(page),
{
    let listing = repository.listing(phase);
    let from = page_offset(page) as int;
    let served = repository.page(phase, page);
    let to = from + served.items.len();
    lemma_listing_fits(repository, phase);
    assert(listing =~= listing.take(from) + (served.items + listing.skip(to)));
    assert(listing.take(to) =~= listing.take(from) + served.items);
    lemma_first_match(listing.take(from), title);
    lemma_first_match(served.items, title);
    lemma_first_match_concat(listing.take(from), served.items + listing.skip(to), title);
    lemma_first_match_concat(served.items, listing.skip(to), title);
    match first_match(served.items, title) {
        Some(m) => {
            assert(first_match(listing, title) == Some(m));
            lemma_conclude_found(repository, m, purpose, (fuel - 1) as nat);
        },
        None => {
            assert(none_titled(listing.take(to), title));
            if to < listing.len() {
                assert(served.next_page == Some(to as u64));
                lemma_scan(repository, title, purpose, phase, Some(to as u64), (fuel - 1) as nat);
            } else {
                assert(listing.take(to) =~= listing);
                lemma_first_match(listing, title);
                match phase {
                    MilestoneState::Open => {
                        assert(repository.listing(MilestoneState::Closed).take(0) =~= Seq::<
                            MilestoneView,
                        >::empty());
                        lemma_scan(
                            repository,
                            title,
                            purpose,
                            MilestoneState::Closed,
                            None,
                            (fuel - 1) as nat,
                        );
                    },
                    MilestoneState::Closed => {},
                }
            }
        },
    }
}

} // verus!
