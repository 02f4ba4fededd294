//! Following a cursor-paginated listing until no page is left.
//!
//! The pager decides; the caller performs. Each [`Step::Fetch`] names the
//! request to execute next; its outcome goes back into
//! [`Pager::on_page`], which answers with the next step. Pages are fetched
//! strictly one after the other, since a page's URL is known only from the
//! page before.

use crate::envelope::{Envelope, Page};
use crate::failure::{ApiError, Failure};
use crate::request::{Request, RequestView};
use vstd::prelude::*;

verus! {

/// A listing in progress, with one fetch outstanding: the records gathered
/// so far, and the authorisation that every further request repeats.
#[derive(Debug)]
pub struct Pager<T> {
    auth_header: String,
    items: Vec<T>,
}

/// The mathematical value of a [`Pager`].
pub struct PagerView<T> {
    pub auth_header: Seq<char>,
    pub items: Seq<T>,
}

impl<T> View for Pager<T> {
    type V = PagerView<T>;

    closed spec fn view(&self) -> PagerView<T> {
        PagerView { auth_header: self.auth_header@, items: self.items@ }
    }
}

/// What the caller does next.
#[derive(Debug)]
pub enum Step<T> {
    /// Execute the request and hand its outcome to the pager.
    Fetch(Pager<T>, Request),
    /// The operation is over: all records of all pages, or the first error.
    Done(Result<Vec<T>, ApiError>),
}

/// The mathematical value of a [`Step`].
pub enum StepView<T> {
    Fetch(PagerView<T>, RequestView),
    Done(Result<Seq<T>, Failure>),
}

impl<T> View for Step<T> {
    type V = StepView<T>;

    open spec fn view(&self) -> StepView<T> {
        match self {
            Step::Fetch(pager, request) => StepView::Fetch(pager@, request@),
            Step::Done(Ok(items)) => StepView::Done(Ok(items@)),
            Step::Done(Err(error)) => StepView::Done(Err(error@)),
        }
    }
}

/// The mathematical value of what one fetch came to: a decoded page, or the
/// failure of the exchange.
pub open spec fn page_outcome<T>(outcome: Result<Envelope<Vec<T>>, ApiError>) -> Result<
    Page<T>,
    Failure,
> {
    match outcome {
        Ok(envelope) => Ok(envelope.page()),
        Err(error) => Err(error@),
    }
}

/// The first step of a listing: fetch `request`, with nothing gathered yet.
pub open spec fn start<T>(request: RequestView) -> StepView<T> {
    StepView::Fetch(
        PagerView { auth_header: request.auth_header, items: Seq::empty() },
        request,
    )
}

/// The step that follows the outcome of the outstanding fetch.
///
/// A failure ends the operation with that failure, and what was gathered is
/// dropped. A page adds its records behind those gathered so far. If the
/// page names a next page, that URL is fetched with the same authorisation
/// and no query parameters, since the URL carries the cursor. Otherwise the
/// operation ends with all records.
pub open spec fn advance<T>(pager: PagerView<T>, outcome: Result<Page<T>, Failure>) -> StepView<T> {
    match outcome {
        Err(failure) => StepView::Done(Err(failure)),
        Ok(page) => match page.next {
            Some(url) => StepView::Fetch(
                PagerView { auth_header: pager.auth_header, items: pager.items + page.data },
                RequestView { url, auth_header: pager.auth_header, params: Seq::empty() },
            ),
            None => StepView::Done(Ok(pager.items + page.data)),
        },
    }
}

impl<T> Pager<T> {
    /// The pager of a listing whose first request is `request`, and its
    /// first step.
    pub fn begin(request: Request) -> (step: Step<T>)
        ensures
            step@ == start::<T>(request@),
    {
        let pager = Pager { auth_header: request.auth_header.clone(), items: Vec::new() };
        Step::Fetch(pager, request)
    }

    /// Takes the outcome of the outstanding fetch and says what to do next.
    pub fn on_page(self, outcome: Result<Envelope<Vec<T>>, ApiError>) -> (step: Step<T>)
        ensures
            step@ == advance(self@, page_outcome(outcome)),
    {
        match outcome {
            Err(error) => Step::Done(Err(error)),
            Ok(envelope) => {
                let next = envelope.next_link();
                let Pager { auth_header, mut items } = self;
                let mut data = envelope.data;
                items.append(&mut data);
                match next {
                    Some(url) => {
                        let request = Request {
                            url,
                            auth_header: auth_header.clone(),
                            params: Vec::new(),
                        };
                        assert(request@.params =~= Seq::empty());
                        Step::Fetch(Pager { auth_header, items }, request)
                    },
                    None => Step::Done(Ok(items)),
                }
            },
        }
    }
}

/// What a listing came to against a transport that answers the executed
/// requests with `outcomes`, in that order.
pub struct Run<T> {
    /// The requests that were executed and answered, in order.
    pub requests: Seq<RequestView>,
    /// How the operation ended, or `None` where the outcomes ran out while a
    /// fetch was outstanding.
    pub result: Option<Result<Seq<T>, Failure>>,
}

/// Runs a listing from `step` on: each outstanding fetch is answered by the
/// next outcome, until the operation is over or no outcome is left. Outcomes
/// behind the end of the operation are never asked for.
pub open spec fn run<T>(step: StepView<T>, outcomes: Seq<Result<Page<T>, Failure>>) -> Run<T>
    decreases outcomes.len(),
{
    match step {
        StepView::Done(result) => Run { requests: Seq::empty(), result: Some(result) },
        StepView::Fetch(pager, request) => if outcomes.len() == 0 {
            Run { requests: Seq::empty(), result: None }
        } else {
            let rest = run(advance(pager, outcomes[0]), outcomes.skip(1));
            Run { requests: seq![request] + rest.requests, result: rest.result }
        },
    }
}

/// The mathematical value of a list of outcomes.
pub open spec fn outcomes_view<T>(outcomes: Seq<Result<Envelope<Vec<T>>, ApiError>>) -> Seq<
    Result<Page<T>, Failure>,
> {
    Seq::new(outcomes.len(), |i: int| page_outcome(outcomes[i]))
}

/// The mathematical value of a list of requests.
pub open spec fn requests_view(requests: Seq<Request>) -> Seq<RequestView> {
    Seq::new(requests.len(), |i: int| requests[i]@)
}

/// What a listing came to against recorded outcomes.
#[derive(Debug)]
pub struct Replay<T> {
    /// The requests that were executed and answered, in order.
    pub requests: Vec<Request>,
    /// How the operation ended, or `None` where the outcomes ran out while a
    /// fetch was outstanding.
    pub result: Option<Result<Vec<T>, ApiError>>,
}

impl<T> View for Replay<T> {
    type V = Run<T>;

    open spec fn view(&self) -> Run<T> {
        Run {
            requests: requests_view(self.requests@),
            result: match self.result {
                Some(Ok(items)) => Some(Ok(items@)),
                Some(Err(error)) => Some(Err(error@)),
                None => None,
            },
        }
    }
}

impl<T> Step<T> {
    /// Runs the listing from this step on against recorded outcomes instead
    /// of a live transport: the first outcome answers the first request, and
    /// so on.
    pub fn replay(self, outcomes: Vec<Result<Envelope<Vec<T>>, ApiError>>) -> (replay: Replay<T>)
        ensures
            replay@ == run(self@, outcomes_view(outcomes@)),
    {
        let ghost all = outcomes_view(outcomes@);
        let ghost first = self@;
        let mut step = self;
        let mut requests: Vec<Request> = Vec::new();
        assert(all.skip(0) =~= all);
        for outcome in remaining: outcomes
            invariant
                first == self@,
                all == outcomes_view(outcomes@),
                all == outcomes_view(remaining.seq()),
                run(first, all).result == run(step@, all.skip(remaining.index() as int)).result,
                run(first, all).requests == requests_view(requests@) + run(
                    step@,
                    all.skip(remaining.index() as int),
                ).requests,
        {
            let ghost rest = all.skip(remaining.index() as int);
            match step {
                Step::Done(result) => {
                    return Replay { requests, result: Some(result) };
                },
                Step::Fetch(pager, request) => {
                    requests.push(request);
                    step = pager.on_page(outcome);
                    proof {
                        assert(rest.skip(1) =~= all.skip(remaining.index() + 1));
                    }
                },
            }
        }
        match step {
            Step::Done(result) => Replay { requests, result: Some(result) },
            Step::Fetch(_, _) => Replay { requests, result: None },
        }
    }
}

/// The records of `pages`, page after page, each page in its own order.
pub open spec fn all_data<T>(pages: Seq<Page<T>>) -> Seq<T>
    decreases pages.len(),
{
    if pages.len() == 0 {
        Seq::empty()
    } else {
        pages[0].data + all_data(pages.skip(1))
    }
}

/// The outcomes of fetches that all succeeded with `pages`.
pub open spec fn fetched<T>(pages: Seq<Page<T>>) -> Seq<Result<Page<T>, Failure>> {
    Seq::new(pages.len(), |i: int| Ok(pages[i]))
}

/// The request for the page behind `page`: its `next` URL, with the
/// authorisation of the listing and no query parameters.
pub open spec fn follow_up<T>(auth_header: Seq<char>, page: Page<T>) -> RequestView
    recommends
        page.next is Some,
{
    RequestView { url: page.next->Some_0, auth_header, params: Seq::empty() }
}

/// Every page names a next page.
pub open spec fn all_linked<T>(pages: Seq<Page<T>>) -> bool {
    forall|i: int| 0 <= i < pages.len() ==> (#[trigger] pages[i]).next is Some
}

/// A chain of pages as a server hands them out: every page names a next
/// page, except the last, which names none.
pub open spec fn chain<T>(pages: Seq<Page<T>>) -> bool {
    &&& pages.len() >= 1
    &&& all_linked(pages.drop_last())
    &&& pages.last().next is None
}

/// The first `count` requests of a listing that starts with `first` and
/// reads `pages`: `first`, then the follow-up of each page in turn.
pub open spec fn requests_to<T>(first: RequestView, pages: Seq<Page<T>>, count: nat) -> Seq<
    RequestView,
>
    recommends
        count <= pages.len() + 1,
{
    Seq::new(
        count,
        |i: int|
            if i == 0 {
                first
            } else {
                follow_up(first.auth_header, pages[i - 1])
            },
    )
}

/// `all_data` takes the pages front to back, so a page added behind adds
/// its records behind.
proof fn lemma_all_data_push<T>(pages: Seq<Page<T>>, last: Page<T>)
    ensures
        all_data(pages.push(last)) == all_data(pages) + last.data,
    decreases pages.len(),
{
    let whole = pages.push(last);
    if pages.len() == 0 {
        assert(all_data(whole.skip(1)) =~= Seq::<T>::empty());
    } else {
        lemma_all_data_push(pages.skip(1), last);
        assert(whole.skip(1) =~= pages.skip(1).push(last));
    }
}

/// An outcome that ends the operation: the run executes the outstanding
/// request and nothing behind it.
proof fn lemma_run_ends<T>(
    pager: PagerView<T>,
    request: RequestView,
    outcome: Result<Page<T>, Failure>,
    tail: Seq<Result<Page<T>, Failure>>,
)
    requires
        advance(pager, outcome) is Done,
    ensures
        run(StepView::Fetch(pager, request), seq![outcome] + tail) == (Run {
            requests: seq![request],
            result: Some(advance(pager, outcome)->Done_0),
        }),
{
    reveal_with_fuel(run, 2);
}

/// A listing in flight against linked pages and then `tail`: each page is
/// fetched and gathered, and the run goes on with `tail` from the last
/// page's link.
proof fn lemma_run_linked<T>(
    pager: PagerView<T>,
    request: RequestView,
    pages: Seq<Page<T>>,
    tail: Seq<Result<Page<T>, Failure>>,
)
    requires
        all_linked(pages),
        pages.len() >= 1,
        request.auth_header == pager.auth_header,
    ensures
        ({
            let whole = run(StepView::Fetch(pager, request), fetched(pages) + tail);
            let rest = run(
                StepView::Fetch(
                    PagerView {
                        auth_header: pager.auth_header,
                        items: pager.items + all_data(pages),
                    },
                    follow_up(pager.auth_header, pages.last()),
                ),
                tail,
            );
            &&& whole.result == rest.result
            &&& whole.requests == requests_to(request, pages, pages.len()) + rest.requests
        }),
    decreases pages.len(),
{
    let later = pages.skip(1);
    assert((fetched(pages) + tail).skip(1) =~= fetched(later) + tail);
    if pages.len() > 1 {
        let gathered = PagerView {
            auth_header: pager.auth_header,
            items: pager.items + pages[0].data,
        };
        lemma_run_linked(gathered, follow_up(pager.auth_header, pages[0]), later, tail);
        assert(gathered.items + all_data(later) =~= pager.items + all_data(pages));
    }
}

/// A listing gathers every page of a chain, in order. Against `n` pages of
/// which each but the last names a next page, it executes exactly `n`
/// requests, one after the other, and returns the records of all `n` pages
/// in the order in which the server gave them.
pub proof fn law_chain_is_gathered<T>(request: RequestView, pages: Seq<Page<T>>)
    requires
        chain(pages),
    ensures
        run(start::<T>(request), fetched(pages)) == (Run {
            requests: requests_to(request, pages, pages.len()),
            result: Some(Ok(all_data(pages))),
        }),
        run(start::<T>(request), fetched(pages)).requests.len() == pages.len(),
{
    let pager = PagerView { auth_header: request.auth_header, items: Seq::<T>::empty() };
    let last = pages.last();
    let linked = pages.drop_last();
    let tail = seq![Ok::<Page<T>, Failure>(last)];
    let whole = run(start::<T>(request), fetched(pages));
    assert(pages =~= linked.push(last));
    lemma_all_data_push(linked, last);
    let none = Seq::<Result<Page<T>, Failure>>::empty();
    if linked.len() == 0 {
        assert(fetched(pages) =~= tail);
        lemma_run_ends(pager, request, Ok(last), none);
        assert(whole.requests =~= requests_to(request, pages, pages.len()));
    } else {
        assert(fetched(pages) =~= fetched(linked) + tail);
        lemma_run_linked(pager, request, linked, tail);
        let gathered = PagerView {
            auth_header: pager.auth_header,
            items: pager.items + all_data(linked),
        };
        lemma_run_ends(gathered, follow_up(pager.auth_header, linked.last()), Ok(last), none);
        assert(whole.requests =~= requests_to(request, pages, pages.len()));
    }
}

/// A failure ends the listing with that failure alone. Wherever the first
/// failing fetch comes, after any number of pages that were fetched and
/// gathered, the operation returns the failure and none of the records, and
/// asks for nothing more.
pub proof fn law_failure_discards_pages<T>(
    request: RequestView,
    pages: Seq<Page<T>>,
    failure: Failure,
    tail: Seq<Result<Page<T>, Failure>>,
)
    requires
        all_linked(pages),
    ensures
        run(start::<T>(request), fetched(pages) + seq![Err(failure)] + tail) == (Run {
            requests: requests_to(request, pages, pages.len() + 1),
            result: Some(Err::<Seq<T>, Failure>(failure)),
        }),
{
    let pager = PagerView { auth_header: request.auth_header, items: Seq::<T>::empty() };
    let failed = seq![Err::<Page<T>, Failure>(failure)] + tail;
    let outcomes = fetched(pages) + seq![Err(failure)] + tail;
    let whole = run(start::<T>(request), outcomes);
    if pages.len() == 0 {
        lemma_run_ends(pager, request, Err(failure), tail);
        assert(whole.requests =~= requests_to(request, pages, 1));
    } else {
        assert(outcomes =~= fetched(pages) + failed);
        lemma_run_linked(pager, request, pages, failed);
        let gathered = PagerView {
            auth_header: pager.auth_header,
            items: pager.items + all_data(pages),
        };
        lemma_run_ends(gathered, follow_up(pager.auth_header, pages.last()), Err(failure), tail);
        assert(whole.requests =~= requests_to(request, pages, pages.len() + 1));
    }
}

/// A failure of the second fetch is all that the operation returns: the
/// records of the first page, though fetched, are not part of the result.
pub proof fn law_second_fetch_failure<T>(
    request: RequestView,
    first: Page<T>,
    failure: Failure,
    tail: Seq<Result<Page<T>, Failure>>,
)
    requires
        first.next is Some,
    ensures
        run(start::<T>(request), seq![Ok(first), Err(failure)] + tail) == (Run {
            requests: seq![request, follow_up(request.auth_header, first)],
            result: Some(Err::<Seq<T>, Failure>(failure)),
        }),
{
    let pages = seq![first];
    law_failure_discards_pages(request, pages, failure, tail);
    assert(fetched(pages) + seq![Err(failure)] + tail =~= seq![Ok(first), Err(failure)] + tail);
    assert(requests_to(request, pages, 2) =~= seq![
        request,
        follow_up(request.auth_header, first),
    ]);
}

/// A page that names no next page ends the listing, at whatever point it
/// comes: the operation returns what was gathered and the page's records
/// behind it.
pub proof fn law_last_page_ends<T>(pager: PagerView<T>, page: Page<T>)
    requires
        page.next is None,
    ensures
        advance(pager, Ok(page)) == StepView::Done(Ok(pager.items + page.data)),
{
}

/// A page without records that names a next page does not end the listing:
/// the next page is fetched, and what was gathered stays as it is.
pub proof fn law_empty_page_is_followed<T>(pager: PagerView<T>, page: Page<T>)
    requires
        page.data.len() == 0,
        page.next is Some,
    ensures
        advance(pager, Ok(page)) == StepView::Fetch(pager, follow_up(pager.auth_header, page)),
{
}

/// A response without any links is a whole listing: the operation is over
/// after one fetch, with that response's records, whatever the transport
/// would have answered to further requests.
pub proof fn law_unlinked_response_is_whole<T>(
    request: RequestView,
    envelope: Envelope<Vec<T>>,
    tail: Seq<Result<Page<T>, Failure>>,
)
    requires
        envelope.links is None,
    ensures
        run(start::<T>(request), seq![page_outcome(Ok(envelope))] + tail) == (Run {
            requests: seq![request],
            result: Some(Ok(envelope.data@)),
        }),
{
    let pager = PagerView { auth_header: request.auth_header, items: Seq::<T>::empty() };
    lemma_run_ends(pager, request, page_outcome(Ok(envelope)), tail);
}

/// A response whose links name no next page ends the listing after that
/// page: the link named `next` is missing, or it is there without a target.
pub proof fn law_absent_next_ends<T>(pager: PagerView<T>, envelope: Envelope<Vec<T>>)
    requires
        envelope.links matches Some(links) && (!links@.contains_key("next"@) || links@["next"@]
            is None),
    ensures
        advance(pager, page_outcome(Ok(envelope))) == StepView::Done(
            Ok(pager.items + envelope.data@),
        ),
{
}

} // verus!
