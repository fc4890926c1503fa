//! What holds of the operations when the service answers as the model says.

use vstd::prelude::*;
use crate::client::Purpose;
use crate::milestone::{ErrorView, MilestoneState, MilestoneView, PropertiesView};
use crate::model::{
    lemma_is_listed, lemma_listed, lemma_scan, lemma_serve_keeps_well_formed, run_create,
    run_titled, RepositoryModel,
};
use crate::remote::RequestView;
use crate::resolution::{
    first_match, is_first_titled, lemma_first_match, lemma_first_titled_is_match, none_titled,
};

verus! {

/// The milestone that resolving yields is one of the repository's: it
/// carries the title, and its identifier leads back to it.
pub proof fn lemma_found_is_stored(repository: RepositoryModel, title: Seq<char>)
    requires
        repository.well_formed(),
        repository.find(title) is Some,
    ensures
        ({
            let found = repository.find(title)->0;
            &&& found.title == title
            &&& found.identifier is Some
            &&& repository.holds(found.identifier->0)
            &&& repository.is_at(found.identifier->0, repository.place_of(found.identifier->0))
            &&& repository.milestones[repository.place_of(found.identifier->0)] == found
            &&& first_match(repository.listing(MilestoneState::Open), title) is Some
                ==> found.state == MilestoneState::Open
            &&& first_match(repository.listing(MilestoneState::Open), title) is None
                ==> found.state == MilestoneState::Closed
        }),
{
    let found = repository.find(title)->0;
    let state = if first_match(repository.listing(MilestoneState::Open), title) is Some {
        MilestoneState::Open
    } else {
        MilestoneState::Closed
    };
    let listing = repository.listing(state);
    lemma_first_match(listing, title);
    let i = choose|i: int| is_first_titled(listing, title, i) && listing[i] == found;
    lemma_listed(repository, state, i);
    let at = choose|at: int|
        0 <= at < repository.milestones.len() && repository.milestones[at] == listing[i];
    assert(repository.milestones[at].identifier is Some);
    let identifier = found.identifier->0;
    assert(repository.is_at(identifier, at));
    let place = repository.place_of(identifier);
    assert(repository.is_at(identifier, place));
    if place < at {
        assert(repository.milestones[place].identifier != repository.milestones[at].identifier);
    } else if at < place {
        assert(repository.milestones[at].identifier != repository.milestones[place].identifier);
    }
}

/// Creating a milestone takes one request and amounts to what the model
/// calls `create`.
pub proof fn theorem_create(repository: RepositoryModel, properties: PropertiesView, fuel: nat)
    requires
        fuel >= 1,
    ensures
        run_create(repository, properties, fuel) == (
            repository.create(properties).0,
            Some(repository.create(properties).1),
        ),
{
}

/// Finding, closing and deleting by title end within the repository's
/// patience and amount to what the model calls `apply`: the milestone is the
/// first match among the open milestones, else the first among the closed
/// ones, however the listings are cut into pages; and without a match no
/// write is asked for.
pub proof fn theorem_titled(
    repository: RepositoryModel,
    purpose: Purpose,
    title: Seq<char>,
    fuel: nat,
)
    requires
        repository.well_formed(),
        fuel >= repository.patience(),
    ensures
        run_titled(repository, purpose, title, fuel) == (
            repository.apply(purpose, title).0,
            Some(repository.apply(purpose, title).1),
        ),
{
    assert(repository.listing(MilestoneState::Open).take(0) =~= Seq::<MilestoneView>::empty());
    lemma_scan(repository, title, purpose, MilestoneState::Open, None, fuel);
    match repository.find(title) {
        None => {},
        Some(found) => {
            lemma_found_is_stored(repository, title);
            let identifier = found.identifier->0;
            let at = repository.place_of(identifier);
            match purpose {
                Purpose::Find => {},
                Purpose::Close => {
                    let request = RequestView::SetState {
                        identifier,
                        state: MilestoneState::Closed,
                    };
                    assert(repository.serve(request).0 == repository.apply(purpose, title).0);
                },
                Purpose::Delete => {
                    let request = RequestView::Delete { identifier };
                    assert(repository.serve(request).0 == repository.apply(purpose, title).0);
                },
            }
        },
    }
}

/// A well-formed repository stays well formed under every operation.
pub proof fn lemma_operations_keep_well_formed(
    repository: RepositoryModel,
    purpose: Purpose,
    title: Seq<char>,
    properties: PropertiesView,
)
    requires
        repository.well_formed(),
    ensures
        repository.create(properties).0.well_formed(),
        repository.apply(purpose, title).0.well_formed(),
{
    lemma_serve_keeps_well_formed(repository, RequestView::Create { properties });
    if repository.find(title) is Some {
        lemma_found_is_stored(repository, title);
        let identifier = repository.find(title)->0.identifier->0;
        lemma_serve_keeps_well_formed(
            repository,
            RequestView::SetState { identifier, state: MilestoneState::Closed },
        );
        lemma_serve_keeps_well_formed(repository, RequestView::Delete { identifier });
    }
}

/// No milestone of the repository carries `title`, so resolving it yields
/// nothing.
proof fn lemma_untitled_is_not_found(repository: RepositoryModel, title: Seq<char>)
    requires
        none_titled(repository.milestones, title),
    ensures
        repository.find(title) is None,
{
    assert forall|state: MilestoneState| none_titled(repository.listing(state), title) by {
        assert forall|i: int| 0 <= i < repository.listing(state).len() implies (
        #[trigger] repository.listing(state)[i]).title != title by {
            lemma_listed(repository, state, i);
        }
    }
    lemma_first_match(repository.listing(MilestoneState::Open), title);
    lemma_first_match(repository.listing(MilestoneState::Closed), title);
}

/// A milestone that carries `title` is listed under its state, so the
/// listing of that state holds a match.
proof fn lemma_titled_is_matched(repository: RepositoryModel, title: Seq<char>, at: int)
    requires
        0 <= at < repository.milestones.len(),
        repository.milestones[at].title == title,
    ensures
        first_match(repository.listing(repository.milestones[at].state), title) is Some,
{
    let listing = repository.listing(repository.milestones[at].state);
    lemma_is_listed(repository, at);
    let i = choose|i: int| 0 <= i < listing.len() && listing[i] == repository.milestones[at];
    assert(listing[i].title == title);
    lemma_first_match(listing, title);
}

/// Round trip: after a milestone has been created, its title resolves to a
/// milestone of that title; and where the properties name no state, or name
/// the open one, to an open milestone.
pub proof fn law_create_then_find(
    repository: RepositoryModel,
    properties: PropertiesView,
    fuel: nat,
    more_fuel: nat,
)
    requires
        repository.well_formed(),
        fuel >= 1,
        run_create(repository, properties, fuel).1 matches Some(Ok(_)),
        more_fuel >= run_create(repository, properties, fuel).0.patience(),
    ensures
        run_titled(
            run_create(repository, properties, fuel).0,
            Purpose::Find,
            properties.title,
            more_fuel,
        ).1 matches Some(Ok(Some(found))) && found.title == properties.title && (properties.state
            != Some(MilestoneState::Closed) ==> found.state == MilestoneState::Open),
{
    theorem_create(repository, properties, fuel);
    let after = repository.create(properties).0;
    lemma_operations_keep_well_formed(repository, Purpose::Find, properties.title, properties);
    theorem_titled(after, Purpose::Find, properties.title, more_fuel);
    let last = repository.milestones.len() as int;
    assert(after.milestones[last] == repository.stored(properties));
    lemma_titled_is_matched(after, properties.title, last);
    lemma_found_is_stored(after, properties.title);
}

/// At most one open milestone of the repository carries `title`.
pub open spec fn at_most_one_open(repository: RepositoryModel, title: Seq<char>) -> bool {
    forall|i: int, j: int|
        0 <= i < j < repository.milestones.len() ==> !({
            &&& (#[trigger] repository.milestones[i]).title == title
            &&& repository.milestones[i].state == MilestoneState::Open
            &&& (#[trigger] repository.milestones[j]).title == title
            &&& repository.milestones[j].state == MilestoneState::Open
        })
}

/// At most one milestone of the repository carries `title`.
pub open spec fn at_most_one(repository: RepositoryModel, title: Seq<char>) -> bool {
    forall|i: int, j: int|
        0 <= i < j < repository.milestones.len() ==> !({
            &&& (#[trigger] repository.milestones[i]).title == title
            &&& (#[trigger] repository.milestones[j]).title == title
        })
}

/// After a milestone has been closed by its title, the title resolves to a
/// closed milestone, provided that no second open milestone carries it.
/// (With a second one, closing the first leaves the second to be found.)
pub proof fn law_close_then_find(
    repository: RepositoryModel,
    title: Seq<char>,
    fuel: nat,
    more_fuel: nat,
)
    requires
        repository.well_formed(),
        at_most_one_open(repository, title),
        fuel >= repository.patience(),
        run_titled(repository, Purpose::Close, title, fuel).1 matches Some(Ok(_)),
        more_fuel >= run_titled(repository, Purpose::Close, title, fuel).0.patience(),
    ensures
        run_titled(
            run_titled(repository, Purpose::Close, title, fuel).0,
            Purpose::Find,
            title,
            more_fuel,
        ).1 matches Some(Ok(Some(found))) && found.title == title && found.state
            == MilestoneState::Closed,
{
    theorem_titled(repository, Purpose::Close, title, fuel);
    lemma_found_is_stored(repository, title);
    let found = repository.find(title)->0;
    let at = repository.place_of(found.identifier->0);
    let after = repository.apply(Purpose::Close, title).0;
    lemma_operations_keep_well_formed(
        repository,
        Purpose::Close,
        title,
        PropertiesView { title, state: None, description: None, due_on: None },
    );
    theorem_titled(after, Purpose::Find, title, more_fuel);
    let open = after.listing(MilestoneState::Open);
    assert forall|i: int| 0 <= i < open.len() implies (#[trigger] open[i]).title != title by {
        lemma_listed(after, MilestoneState::Open, i);
        let j = choose|j: int| 0 <= j < after.milestones.len() && after.milestones[j] == open[i];
        if open[i].title == title {
            assert(j != at);
            assert(repository.milestones[j] == open[i]);
            if found.state == MilestoneState::Open {
                if j < at {
                    assert(repository.milestones[j].title == title
                        && repository.milestones[at].title == title);
                } else {
                    assert(repository.milestones[at].title == title
                        && repository.milestones[j].title == title);
                }
            } else {
                lemma_titled_is_matched(repository, title, j);
            }
        }
    }
    lemma_first_match(open, title);
    assert(after.milestones[at].title == title);
    lemma_titled_is_matched(after, title, at);
    lemma_found_is_stored(after, title);
}

/// Closing is idempotent: where the title resolves to a milestone that is
/// closed already, closing it succeeds, returns that milestone, and leaves
/// the repository as it was.
pub proof fn law_close_again(repository: RepositoryModel, title: Seq<char>, fuel: nat)
    requires
        repository.well_formed(),
        fuel >= repository.patience(),
        repository.find(title) matches Some(found) && found.state == MilestoneState::Closed,
    ensures
        run_titled(repository, Purpose::Close, title, fuel) == (
            repository,
            Some(Ok::<Option<MilestoneView>, ErrorView>(repository.find(title))),
        ),
{
    theorem_titled(repository, Purpose::Close, title, fuel);
    lemma_found_is_stored(repository, title);
    let found = repository.find(title)->0;
    let at = repository.place_of(found.identifier->0);
    assert(repository.changed(at, MilestoneState::Closed) == found);
    assert(repository.milestones.update(at, found) =~= repository.milestones);
}

/// After a milestone has been deleted by its title, the title resolves to
/// nothing, provided that no second milestone carries it. (With a second
/// one, deleting the first leaves the second to be found.)
pub proof fn law_delete_then_find(
    repository: RepositoryModel,
    title: Seq<char>,
    fuel: nat,
    more_fuel: nat,
)
    requires
        repository.well_formed(),
        at_most_one(repository, title),
        fuel >= repository.patience(),
        run_titled(repository, Purpose::Delete, title, fuel).1 matches Some(Ok(_)),
        more_fuel >= run_titled(repository, Purpose::Delete, title, fuel).0.patience(),
    ensures
        run_titled(
            run_titled(repository, Purpose::Delete, title, fuel).0,
            Purpose::Find,
            title,
            more_fuel,
        ).1 == Some(Err::<Option<MilestoneView>, ErrorView>(ErrorView::NotFound)),
{
    theorem_titled(repository, Purpose::Delete, title, fuel);
    lemma_found_is_stored(repository, title);
    let found = repository.find(title)->0;
    let at = repository.place_of(found.identifier->0);
    let after = repository.apply(Purpose::Delete, title).0;
    lemma_operations_keep_well_formed(
        repository,
        Purpose::Delete,
        title,
        PropertiesView { title, state: None, description: None, due_on: None },
    );
    theorem_titled(after, Purpose::Find, title, more_fuel);
    assert forall|i: int| 0 <= i < after.milestones.len() implies (
    #[trigger] after.milestones[i]).title != title by {
        if i < at {
            assert(repository.milestones[i] == after.milestones[i]);
            assert(!(repository.milestones[i].title == title && repository.milestones[at].title
                == title));
        } else {
            assert(repository.milestones[i + 1] == after.milestones[i]);
            assert(!(repository.milestones[at].title == title && repository.milestones[i
                + 1].title == title));
        }
    }
    lemma_untitled_is_not_found(after, title);
}

/// Pagination: a milestone is found on whatever page of its listing it
/// stands. Where the first open milestone of the title stands at `at`, be
/// it beyond the first page or beyond many, finding by title returns it.
pub proof fn law_found_on_any_page(
    repository: RepositoryModel,
    title: Seq<char>,
    at: int,
    fuel: nat,
)
    requires
        repository.well_formed(),
        fuel >= repository.patience(),
        is_first_titled(repository.listing(MilestoneState::Open), title, at),
    ensures
        run_titled(repository, Purpose::Find, title, fuel) == (
            repository,
            Some(
                Ok::<Option<MilestoneView>, ErrorView>(
                    Some(repository.listing(MilestoneState::Open)[at]),
                ),
            ),
        ),
{
    theorem_titled(repository, Purpose::Find, title, fuel);
    lemma_first_titled_is_match(repository.listing(MilestoneState::Open), title, at);
}

/// Pagination, for closed milestones: where no open milestone carries the
/// title and the first closed one that does stands at `at`, on whatever
/// page, finding by title returns it.
pub proof fn law_found_on_any_closed_page(
    repository: RepositoryModel,
    title: Seq<char>,
    at: int,
    fuel: nat,
)
    requires
        repository.well_formed(),
        fuel >= repository.patience(),
        none_titled(repository.listing(MilestoneState::Open), title),
        is_first_titled(repository.listing(MilestoneState::Closed), title, at),
    ensures
        run_titled(repository, Purpose::Find, title, fuel) == (
            repository,
            Some(
                Ok::<Option<MilestoneView>, ErrorView>(
                    Some(repository.listing(MilestoneState::Closed)[at]),
                ),
            ),
        ),
{
    theorem_titled(repository, Purpose::Find, title, fuel);
    lemma_first_match(repository.listing(MilestoneState::Open), title);
    lemma_first_titled_is_match(repository.listing(MilestoneState::Closed), title, at);
}

/// The tie-break: of two open milestones with the same title, the one that
/// the listing of the open milestones shows first is found, and closed
/// milestones of that title do not matter.
pub proof fn law_first_open_wins(
    repository: RepositoryModel,
    title: Seq<char>,
    first: int,
    second: int,
    fuel: nat,
)
    requires
        repository.well_formed(),
        fuel >= repository.patience(),
        0 <= first < second < repository.listing(MilestoneState::Open).len(),
        repository.listing(MilestoneState::Open)[first].title == title,
        repository.listing(MilestoneState::Open)[second].title == title,
        none_titled(repository.listing(MilestoneState::Open).take(first), title),
    ensures
        run_titled(repository, Purpose::Find, title, fuel) == (
            repository,
            Some(
                Ok::<Option<MilestoneView>, ErrorView>(
                    Some(repository.listing(MilestoneState::Open)[first]),
                ),
            ),
        ),
{
    law_found_on_any_page(repository, title, first, fuel);
}

/// Finding is repeatable: it leaves the repository as it was, so that
/// finding the same title again yields the same result.
pub proof fn law_find_is_repeatable(
    repository: RepositoryModel,
    title: Seq<char>,
    fuel: nat,
    more_fuel: nat,
)
    requires
        repository.well_formed(),
        fuel >= repository.patience(),
        more_fuel >= repository.patience(),
    ensures
        run_titled(repository, Purpose::Find, title, fuel).0 == repository,
        run_titled(
            run_titled(repository, Purpose::Find, title, fuel).0,
            Purpose::Find,
            title,
            more_fuel,
        ) == run_titled(repository, Purpose::Find, title, fuel),
{
    theorem_titled(repository, Purpose::Find, title, fuel);
    theorem_titled(repository, Purpose::Find, title, more_fuel);
}

} // verus!
