//! The walk over a paginated collection, page by page.
//!
//! The walk is a state machine. While it is `Fetching`, the caller sends one
//! request to the target it names and hands the response back; the walk
//! decodes the page, keeps it, and looks for the page that follows. It ends
//! in `Done` with the pages in the order in which they were fetched, or in
//! `Failed` with the first error.

use crate::error::{ClientError, ClientErrorView, ErrorKind};
use crate::http::{answer_view, lines_named, Response};
use crate::json::{body_json, json_array_value, pages_to_json, response_to_json};
use crate::link::{link_error_text, link_of_lines, next_target, HasNextLink, Link};
use crate::uri::{RequestTarget, RequestTargetView};
use vstd::prelude::*;

verus! {

/// Where a walk stands.
#[derive(Debug, PartialEq)]
pub enum Paging {
    /// The page at `target` is to be fetched next; `pages` were fetched so far.
    Fetching { target: RequestTarget, pages: Vec<serde_json::Value> },
    /// The last page named no page after it.
    Done { pages: Vec<serde_json::Value> },
    /// The walk failed; the pages fetched before are given up.
    Failed { error: ClientError },
}

/// A `Paging` as contracts see it.
pub enum PagingView {
    Fetching { target: RequestTargetView, pages: Seq<serde_json::Value> },
    Done { pages: Seq<serde_json::Value> },
    Failed { error: ClientErrorView },
}

impl View for Paging {
    type V = PagingView;

    open spec fn view(&self) -> PagingView {
        match self {
            Paging::Fetching { target, pages } => PagingView::Fetching {
                target: target@,
                pages: pages@,
            },
            Paging::Done { pages } => PagingView::Done { pages: pages@ },
            Paging::Failed { error } => PagingView::Failed { error: error@ },
        }
    }
}

/// The state in which a walk begins: nothing fetched, `target` to be
/// fetched.
pub open spec fn start_spec(target: RequestTargetView) -> PagingView {
    PagingView::Fetching { target, pages: Seq::empty() }
}

/// The state after a response, given what its body decoded to and what it
/// says of the page that follows. The body is judged first. `Done` and
/// `Failed` are final.
pub open spec fn advance_spec(
    state: PagingView,
    page: Result<serde_json::Value, ClientErrorView>,
    continuation: Result<Option<RequestTargetView>, ClientErrorView>,
) -> PagingView {
    match state {
        PagingView::Fetching { target, pages } => match page {
            Err(error) => PagingView::Failed { error },
            Ok(json) => match continuation {
                Err(error) => PagingView::Failed { error },
                Ok(Some(next)) => PagingView::Fetching { target: next, pages: pages.push(json) },
                Ok(None) => PagingView::Done { pages: pages.push(json) },
            },
        },
        _ => state,
    }
}

/// What a response says of the page that follows it: nothing where it has
/// no `Link` header, else what the header names as `next`. A header that
/// cannot be read is an error.
pub open spec fn continuation_spec(response: Response) -> Result<
    Option<RequestTargetView>,
    ClientErrorView,
> {
    let lines = lines_named(response.headers@, "Link"@);
    if lines.len() == 0 {
        Ok(None)
    } else {
        match link_of_lines(lines) {
            Some(link) => Ok(next_target(Some(link))),
            None => Err(
                ClientErrorView { kind: ErrorKind::Parse, message: link_error_text(lines) },
            ),
        }
    }
}

/// The state after the transport has answered, given what the response
/// says of the page that follows: an error of the transport ends the walk, a
/// response is decoded and kept.
pub open spec fn respond_spec(
    state: PagingView,
    answer: Result<Response, ClientErrorView>,
    continuation: Result<Option<RequestTargetView>, ClientErrorView>,
) -> PagingView {
    match answer {
        Ok(response) => advance_spec(state, body_json(response.body@), continuation),
        Err(error) => match state {
            PagingView::Fetching { .. } => PagingView::Failed { error },
            _ => state,
        },
    }
}

/// How the page that follows a response is found in it.
pub type Continuation = spec_fn(Response) -> Result<Option<RequestTargetView>, ClientErrorView>;

/// The state after the responses of `responses` have come in, in this order,
/// where `next` finds the page that follows a response.
pub open spec fn walk(state: PagingView, responses: Seq<Response>, next: Continuation) -> PagingView
    decreases responses.len(),
{
    if responses.len() == 0 {
        state
    } else {
        respond_spec(
            walk(state, responses.drop_last(), next),
            Ok(responses.last()),
            next(responses.last()),
        )
    }
}

/// The continuation of the framework: the `next` relation of the `Link`
/// header.
pub open spec fn by_link_header() -> Continuation {
    |response: Response| continuation_spec(response)
}

/// An exec continuation as contracts see it.
pub open spec fn continuation_view(r: Result<Option<RequestTarget>, ClientError>) -> Result<
    Option<RequestTargetView>,
    ClientErrorView,
> {
    match r {
        Ok(Some(target)) => Ok(Some(target@)),
        Ok(None) => Ok(None),
        Err(e) => Err(e@),
    }
}

/// An exec page as contracts see it.
pub open spec fn page_view(r: Result<serde_json::Value, ClientError>) -> Result<
    serde_json::Value,
    ClientErrorView,
> {
    match r {
        Ok(value) => Ok(value),
        Err(e) => Err(e@),
    }
}

/// The target of the page that follows `response`, if it names one.
pub fn next_page_uri(response: &Response) -> (r: Result<Option<RequestTarget>, ClientError>)
    ensures
        continuation_view(r) == continuation_spec(*response),
{
    let lines: Vec<Vec<u8>> = response.header_lines(Link::header_name());
    if lines.len() == 0 {
        return Ok(None);
    }
    match Link::parse_header(&lines) {
        Ok(link) => {
            let found: Option<&Link> = Some(&link);
            Ok(HasNextLink::next(&found))
        },
        Err(e) => Err(e),
    }
}

/// Begins a walk at `target`.
pub fn autopagination(target: RequestTarget) -> (state: Paging)
    ensures
        state@ == start_spec(target@),
{
    Paging::Fetching { target, pages: Vec::new() }
}

impl Paging {
    /// The target of the request that the caller is to send now; `None` once
    /// the walk has ended.
    pub fn target(&self) -> (target: Option<&RequestTarget>)
        ensures
            match target {
                Some(t) => self@ matches PagingView::Fetching { target, .. } && target == t@,
                None => !(self@ is Fetching),
            },
    {
        match self {
            Paging::Fetching { target, .. } => Some(target),
            _ => None,
        }
    }

    /// Takes the decoded page and what the response said of the next one.
    pub fn advance(
        self,
        page: Result<serde_json::Value, ClientError>,
        continuation: Result<Option<RequestTarget>, ClientError>,
    ) -> (state: Paging)
        ensures
            state@ == advance_spec(self@, page_view(page), continuation_view(continuation)),
    {
        match self {
            Paging::Fetching { target, mut pages } => match page {
                Err(error) => Paging::Failed { error },
                Ok(json) => match continuation {
                    Err(error) => Paging::Failed { error },
                    Ok(Some(next)) => {
                        pages.push(json);
                        Paging::Fetching { target: next, pages }
                    },
                    Ok(None) => {
                        pages.push(json);
                        Paging::Done { pages }
                    },
                },
            },
            Paging::Done { pages } => Paging::Done { pages },
            Paging::Failed { error } => Paging::Failed { error },
        }
    }

    /// Takes the answer of the transport to the request for `target`.
    pub fn on_response(self, answer: Result<Response, ClientError>) -> (state: Paging)
        ensures
            state@ == respond_spec(
                self@,
                answer_view(answer),
                match answer {
                    Ok(response) => continuation_spec(response),
                    Err(_) => Ok(None),
                },
            ),
    {
        match self {
            Paging::Fetching { target, pages } => match answer {
                Err(error) => Paging::Failed { error },
                Ok(response) => {
                    let state = Paging::Fetching { target, pages };
                    match response_to_json(response.body.as_slice()) {
                        Err(error) => state.advance(Err(error), Ok(None)),
                        Ok(json) => {
                            let continuation = next_page_uri(&response);
                            state.advance(Ok(json), continuation)
                        },
                    }
                },
            },
            Paging::Done { pages } => Paging::Done { pages },
            Paging::Failed { error } => Paging::Failed { error },
        }
    }

    /// The outcome of a walk that has ended: the pages as one JSON array, or
    /// the error. `None` while the walk is under way.
    pub fn into_result(self) -> (r: Option<Result<serde_json::Value, ClientError>>)
        ensures
            match self@ {
                PagingView::Fetching { .. } => r is None,
                PagingView::Done { pages } => r == Some(
                    Ok::<serde_json::Value, ClientError>(json_array_value(pages)),
                ),
                PagingView::Failed { error } => r matches Some(Err(e)) && e@ == error,
            },
    {
        match self {
            Paging::Fetching { .. } => None,
            Paging::Done { pages } => Some(Ok(pages_to_json(pages))),
            Paging::Failed { error } => Some(Err(error)),
        }
    }
}

/// A walk that has ended stays as it is, whatever comes in.
pub proof fn lemma_ended_walk_stays(
    state: PagingView,
    answer: Result<Response, ClientErrorView>,
    continuation: Result<Option<RequestTargetView>, ClientErrorView>,
)
    requires
        !(state is Fetching),
    ensures
        respond_spec(state, answer, continuation) == state,
{
}

/// A walk that fails keeps no page: the error is all that is left of it.
pub proof fn lemma_failure_gives_up_pages(
    state: PagingView,
    answer: Result<Response, ClientErrorView>,
    continuation: Result<Option<RequestTargetView>, ClientErrorView>,
)
    requires
        state is Fetching,
        answer is Err || body_json(answer->Ok_0.body@) is Err || continuation is Err,
    ensures
        respond_spec(state, answer, continuation) is Failed,
{
}

/// Whether `responses` are the pages of one collection: each body decodes,
/// each response but the last names a next page, and the last names none.
pub open spec fn chained(responses: Seq<Response>, next: Continuation) -> bool {
    &&& responses.len() >= 1
    &&& forall|i: int| 0 <= i < responses.len() ==> #[trigger] decodes(responses[i])
    &&& forall|i: int| 0 <= i < responses.len() - 1 ==> #[trigger] names_next(responses[i], next)
    &&& names_none(responses.last(), next)
}

/// Whether the body of `response` decodes to JSON.
pub open spec fn decodes(response: Response) -> bool {
    body_json(response.body@) is Ok
}

/// Whether `response` names a page that follows it.
pub open spec fn names_next(response: Response, next: Continuation) -> bool {
    next(response) matches Ok(Some(_))
}

/// Whether `response` is read without error and names no page after it.
pub open spec fn names_none(response: Response, next: Continuation) -> bool {
    next(response) matches Ok(None)
}

/// The decoded bodies of `responses`, in their order.
pub open spec fn payloads(responses: Seq<Response>) -> Seq<serde_json::Value> {
    Seq::new(responses.len(), |i: int| body_json(responses[i].body@)->Ok_0)
}

/// The target of the request that follows the first `k` responses of a walk
/// that began at `start`.
pub open spec fn target_after(
    start: RequestTargetView,
    responses: Seq<Response>,
    next: Continuation,
    k: int,
) -> RequestTargetView {
    if k <= 0 {
        start
    } else {
        next(responses[k - 1])->Ok_0->0
    }
}

/// While pages of a collection come in and the last has not come, the walk
/// is fetching: it holds the pages so far, in their order, and asks for the
/// page that the latest response named.
pub proof fn lemma_walk_under_way(
    start: RequestTargetView,
    responses: Seq<Response>,
    next: Continuation,
    k: int,
)
    requires
        chained(responses, next),
        0 <= k < responses.len(),
    ensures
        walk(start_spec(start), responses.take(k), next) == (PagingView::Fetching {
            target: target_after(start, responses, next, k),
            pages: payloads(responses).take(k),
        }),
    decreases k,
{
    if k == 0 {
        assert(responses.take(0) =~= Seq::<Response>::empty());
        assert(payloads(responses).take(0) =~= Seq::<serde_json::Value>::empty());
    } else {
        lemma_walk_under_way(start, responses, next, k - 1);
        assert(responses.take(k).drop_last() =~= responses.take(k - 1));
        assert(responses.take(k).last() == responses[k - 1]);
        assert(decodes(responses[k - 1]));
        assert(names_next(responses[k - 1], next));
        assert(payloads(responses).take(k - 1).push(payloads(responses)[k - 1]) =~= payloads(
            responses,
        ).take(k));
    }
}

/// A walk over the pages of a collection ends with exactly these pages,
/// decoded, in the order in which they were fetched.
pub proof fn lemma_walk_collects_pages(
    start: RequestTargetView,
    responses: Seq<Response>,
    next: Continuation,
)
    requires
        chained(responses, next),
    ensures
        walk(start_spec(start), responses, next) == (PagingView::Done {
            pages: payloads(responses),
        }),
        payloads(responses).len() == responses.len(),
{
    let n = responses.len() as int;
    lemma_walk_under_way(start, responses, next, n - 1);
    assert(responses.drop_last() =~= responses.take(n - 1));
    assert(decodes(responses[n - 1]));
    assert(payloads(responses).take(n - 1).push(payloads(responses)[n - 1]) =~= payloads(
        responses,
    ));
}

/// A walk over one page without a `Link` header ends with that one page.
pub proof fn lemma_single_page(start: RequestTargetView, response: Response)
    requires
        lines_named(response.headers@, "Link"@).len() == 0,
        body_json(response.body@) is Ok,
    ensures
        walk(start_spec(start), seq![response], by_link_header()) == (PagingView::Done {
            pages: seq![body_json(response.body@)->Ok_0],
        }),
{
    let responses = seq![response];
    assert(responses.drop_last() =~= Seq::<Response>::empty());
    assert(walk(start_spec(start), responses.drop_last(), by_link_header()) == start_spec(start));
    assert(Seq::<serde_json::Value>::empty().push(body_json(response.body@)->Ok_0) =~= seq![
        body_json(response.body@)->Ok_0,
    ]);
}

} // verus!
