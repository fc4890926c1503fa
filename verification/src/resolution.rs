//! Resolving a milestone title to a milestone.
//!
//! The service finds milestones by identifier and lists them by state, so a
//! title is resolved by reading listings: first the open milestones, page by
//! page in the order the service returns them, then the closed ones. The
//! first milestone whose title is exactly the one asked for wins. Titles
//! need not be unique, so this order is what decides between milestones of
//! the same title, and callers may rely on it.

use vstd::prelude::*;
use crate::milestone::{milestone_views, MilestoneResource, MilestoneState, MilestoneView};
use crate::remote::{Page, PageView, Request, RequestView};

verus! {

/// The first milestone of `items` that carries exactly `title`.
pub open spec fn first_match(items: Seq<MilestoneView>, title: Seq<char>) -> Option<MilestoneView>
    decreases items.len(),
{
    if items.len() == 0 {
        None
    } else if items[0].title == title {
        Some(items[0])
    } else {
        first_match(items.drop_first(), title)
    }
}

/// What resolving `title` yields when the open milestones are listed as
/// `open` and the closed ones as `closed`: the first match among the open
/// ones, and only if there is none, the first match among the closed ones.
pub open spec fn resolve(
    open: Seq<MilestoneView>,
    closed: Seq<MilestoneView>,
    title: Seq<char>,
) -> Option<MilestoneView> {
    match first_match(open, title) {
        Some(m) => Some(m),
        None => first_match(closed, title),
    }
}

/// No milestone of `items` carries `title`.
pub open spec fn none_titled(items: Seq<MilestoneView>, title: Seq<char>) -> bool {
    forall|i: int| 0 <= i < items.len() ==> (#[trigger] items[i]).title != title
}

/// `items[at]` carries `title` and no earlier milestone does.
pub open spec fn is_first_titled(items: Seq<MilestoneView>, title: Seq<char>, at: int) -> bool {
    &&& 0 <= at < items.len()
    &&& items[at].title == title
    &&& none_titled(items.take(at), title)
}

/// `first_match` is `None` exactly when no milestone carries the title, and
/// otherwise the milestone at the first place that does.
pub proof fn lemma_first_match(items: Seq<MilestoneView>, title: Seq<char>)
    ensures
        first_match(items, title) is None <==> none_titled(items, title),
        first_match(items, title) matches Some(m) ==> exists|at: int|
            is_first_titled(items, title, at) && items[at] == m,
    decreases items.len(),
{
    if items.len() == 0 {
    } else if items[0].title == title {
        assert(is_first_titled(items, title, 0));
    } else {
        let rest = items.drop_first();
        lemma_first_match(rest, title);
        if first_match(rest, title) is None {
            assert forall|i: int| 0 <= i < items.len() implies (#[trigger] items[i]).title
                != title by {
                if i > 0 {
                    assert(rest[i - 1] == items[i]);
                }
            }
        } else {
            let at = choose|at: int|
                is_first_titled(rest, title, at) && rest[at] == first_match(rest, title)->0;
            assert(rest[at] == items[at + 1]);
            assert forall|i: int| 0 <= i < at + 1 implies (#[trigger] items.take(at + 1)[i]).title
                != title by {
                if i > 0 {
                    assert(rest.take(at)[i - 1] == items[i]);
                }
            }
            assert(is_first_titled(items, title, at + 1));
            assert(!none_titled(items, title));
        }
    }
}

/// A milestone at the first place that carries the title is the match.
pub proof fn lemma_first_titled_is_match(items: Seq<MilestoneView>, title: Seq<char>, at: int)
    requires
        is_first_titled(items, title, at),
    ensures
        first_match(items, title) == Some(items[at]),
    decreases items.len(),
{
    if at == 0 {
    } else {
        assert(items.take(at)[0] == items[0]);
        let rest = items.drop_first();
        assert forall|i: int| 0 <= i < at - 1 implies (#[trigger] rest.take(at - 1)[i]).title
            != title by {
            assert(items.take(at)[i + 1] == rest[i]);
        }
        lemma_first_titled_is_match(rest, title, at - 1);
    }
}

/// Searching a listing that comes in two parts: the first part decides, and
/// the second is searched only if the first holds no match.
pub proof fn lemma_first_match_concat(
    a: Seq<MilestoneView>,
    b: Seq<MilestoneView>,
    title: Seq<char>,
)
    ensures
        first_match(a + b, title) == (match first_match(a, title) {
            Some(m) => Some(m),
            None => first_match(b, title),
        }),
    decreases a.len(),
{
    if a.len() == 0 {
        assert(a + b =~= b);
    } else {
        assert((a + b)[0] == a[0]);
        assert((a + b).drop_first() =~= a.drop_first() + b);
        lemma_first_match_concat(a.drop_first(), b, title);
    }
}

/// How far a resolution has come: the title it looks for and the listing it
/// is reading.
#[derive(Debug, PartialEq, Eq)]
pub struct Resolution {
    title: String,
    phase: MilestoneState,
}

/// The mathematical value of a `Resolution`.
pub struct ResolutionView {
    pub title: Seq<char>,
    pub phase: MilestoneState,
}

impl View for Resolution {
    type V = ResolutionView;

    closed spec fn view(&self) -> ResolutionView {
        ResolutionView { title: self.title@, phase: self.phase }
    }
}

/// What a resolution does next.
#[derive(Debug, PartialEq, Eq)]
pub enum ResolutionStep {
    /// It goes on: the caller is to perform `request`, which asks for a page
    /// of a listing, and hand that page to `resolution`.
    Fetch { resolution: Resolution, request: Request },
    /// It ends with the milestone that carries the title.
    Found(MilestoneResource),
    /// It ends: both listings were read to their last page without a match.
    NotFound,
}

/// The mathematical value of a `ResolutionStep`.
pub enum ResolutionStepView {
    Fetch { resolution: ResolutionView, request: RequestView },
    Found(MilestoneView),
    NotFound,
}

impl View for ResolutionStep {
    type V = ResolutionStepView;

    open spec fn view(&self) -> ResolutionStepView {
        match self {
            ResolutionStep::Fetch { resolution, request } => ResolutionStepView::Fetch {
                resolution: resolution@,
                request: request@,
            },
            ResolutionStep::Found(milestone) => ResolutionStepView::Found(milestone@),
            ResolutionStep::NotFound => ResolutionStepView::NotFound,
        }
    }
}

/// How a resolution of `title` begins: with the first page of the open
/// milestones.
pub open spec fn resolution_start(title: Seq<char>) -> (ResolutionView, RequestView) {
    (
        ResolutionView { title, phase: MilestoneState::Open },
        RequestView::ListPage { state: MilestoneState::Open, page: None },
    )
}

/// How a resolution goes on when it is handed the page it asked for.
///
/// A match on the page ends it. Without one it follows the listing to the
/// page the service names next; after the last page of the open milestones
/// it turns to the first page of the closed ones, and after the last page of
/// those it ends without a match.
pub open spec fn resolution_on_page(resolution: ResolutionView, page: PageView)
    -> ResolutionStepView {
    match first_match(page.items, resolution.title) {
        Some(m) => ResolutionStepView::Found(m),
        None => match page.next_page {
            Some(next) => ResolutionStepView::Fetch {
                resolution,
                request: RequestView::ListPage { state: resolution.phase, page: Some(next) },
            },
            None => match resolution.phase {
                MilestoneState::Open => ResolutionStepView::Fetch {
                    resolution: ResolutionView {
                        title: resolution.title,
                        phase: MilestoneState::Closed,
                    },
                    request: RequestView::ListPage { state: MilestoneState::Closed, page: None },
                },
                MilestoneState::Closed => ResolutionStepView::NotFound,
            },
        },
    }
}

/// The place of the first milestone of `items` that carries exactly `title`.
pub fn find_in_page(items: &Vec<MilestoneResource>, title: &String) -> (r: Option<usize>)
    ensures
        match r {
            Some(at) => is_first_titled(milestone_views(items@), title@, at as int),
            None => none_titled(milestone_views(items@), title@),
        },
{
    let ghost views = milestone_views(items@);
    let mut i: usize = 0;
    while i < items.len()
        invariant
            i <= items.len(),
            views == milestone_views(items@),
            none_titled(views.take(i as int), title@),
        decreases items.len() - i,
    {
        if items[i].title == *title {
            return Some(i);
        }
        proof {
            assert forall|j: int| 0 <= j < i + 1 implies (#[trigger] views.take(i + 1)[j]).title
                != title@ by {
                if j < i {
                    assert(views.take(i as int)[j] == views[j]);
                }
            }
        }
        i = i + 1;
    }
    proof {
        assert(views.take(i as int) =~= views);
    }
    None
}

impl Resolution {
    /// Begins to resolve `title`.
    pub fn start(title: String) -> (r: (Resolution, Request))
        ensures
            (r.0@, r.1@) == resolution_start(title@),
    {
        (
            Resolution { title, phase: MilestoneState::Open },
            Request::ListPage { state: MilestoneState::Open, page: None },
        )
    }

    /// The title that is being resolved.
    pub fn title(&self) -> (r: &String)
        ensures
            r@ == self@.title,
    {
        &self.title
    }

    /// The listing that is being read.
    pub fn phase(&self) -> (r: MilestoneState)
        ensures
            r == self@.phase,
    {
        self.phase
    }

    /// Takes the page that was asked for and says what comes next.
    pub fn on_page(self, page: Page) -> (r: ResolutionStep)
        ensures
            r@ == resolution_on_page(self@, page@),
    {
        let Page { items, next_page } = page;
        let mut items = items;
        proof {
            lemma_first_match(page@.items, self.title@);
        }
        match find_in_page(&items, &self.title) {
            Some(at) => {
                proof {
                    lemma_first_titled_is_match(page@.items, self.title@, at as int);
                }
                ResolutionStep::Found(items.swap_remove(at))
            },
            None => match next_page {
                Some(next) => {
                    let state = self.phase;
                    ResolutionStep::Fetch {
                        resolution: self,
                        request: Request::ListPage { state, page: Some(next) },
                    }
                },
                None => match self.phase {
                    MilestoneState::Open => ResolutionStep::Fetch {
                        resolution: Resolution { title: self.title, phase: MilestoneState::Closed },
                        request: Request::ListPage { state: MilestoneState::Closed, page: None },
                    },
                    MilestoneState::Closed => ResolutionStep::NotFound,
                },
            },
        }
    }
}

} // verus!
