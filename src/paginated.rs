//! The cursor that walks a paginated list endpoint, one page per request,
//! following the `next` link that each page reports.
//!
//! The requests themselves are made by the caller: [`Paginated::begin`] says
//! whether one is due (and [`Paginated::path`] and [`Paginated::query`] what
//! it is), and [`Paginated::complete`] takes its outcome.

use std::marker::PhantomData;

use serde_json::Error as JsonError;
use serde_json::Value;
use serde_qs::Error as QsError;
use url::ParseError as UrlError;
use vstd::prelude::*;

use crate::entities::Pagination;
use crate::error::Error;
use crate::response::SuccessResponse;

verus! {

/// A JSON value, carried through the cursor without being looked into.
#[verifier::external_type_specification]
#[verifier::external_body]
pub struct ExValue(Value);

pub open spec fn view_string_opt(o: Option<String>) -> Option<Seq<char>> {
    match o {
        Some(s) => Some(s@),
        None => None,
    }
}

/// The path and the query (if it has one) of the URL that the link `next`
/// points to, read relative to the request URL `path` under `base`; `None`
/// when one of them is not a URL.
pub uninterp spec fn link_target(base: Seq<char>, path: Seq<char>, next: Seq<char>) -> Option<
    (Seq<char>, Option<Seq<char>>),
>;

/// Relies on url's `Url::parse` for `base`, `Url::join` for `path` and then
/// for the link `next` (an absolute link replaces the whole URL, a relative
/// one is resolved against the request URL), read back through `Url::path`
/// and `Url::query`.
#[verifier::external_body]
fn resolve_link(base: &str, path: &str, next: &str) -> (r: Result<(String, Option<String>), UrlError>)
    ensures
        r is Ok <==> link_target(base@, path@, next@) is Some,
        r matches Ok((p, q)) ==> link_target(base@, path@, next@) == Some((p@, view_string_opt(q))),
{
    let url = url::Url::parse(base)?.join(path)?.join(next)?;
    Ok((url.path().to_string(), url.query().map(|q| q.to_string())))
}

/// The JSON object that the query string `q` reads as, or `None` when it
/// does not read as a map.
pub uninterp spec fn decoded_query(q: Seq<char>) -> Option<Value>;

/// Relies on serde_qs's `from_str`, reading a query string into a JSON
/// object.
#[verifier::external_body]
fn decode_query(q: &str) -> (r: Result<Value, QsError>)
    ensures
        r is Ok <==> decoded_query(q@) is Some,
        r matches Ok(v) ==> decoded_query(q@) == Some(v),
{
    serde_qs::from_str::<serde_json::Map<String, Value>>(q).map(Value::Object)
}

/// What a cursor holds: the base URL of the API, the path and the query of
/// its next request (no query once the last page has been received), and an
/// error kept from its construction until it is reported.
pub struct CursorView {
    pub base: Seq<char>,
    pub path: Seq<char>,
    pub query: Option<Value>,
    pub pending_error: Option<Error>,
}

impl CursorView {
    /// A request for the next page is due.
    pub open spec fn is_due(self) -> bool {
        self.pending_error is None && self.query is Some
    }

    /// The last page has been received, or the cursor never had a first one.
    pub open spec fn is_exhausted(self) -> bool {
        self.pending_error is None && self.query is None
    }
}

/// Where the pagination meta of a received page points.
pub enum Link {
    /// This was the last page.
    Last,
    /// The next page is at this path, with this query: the one that the
    /// query string of the `next` URL reads as (a URL without a query
    /// string reads as the empty one, that is as the empty object).
    Next(Seq<char>, Value),
    /// `has_more` is set, but `next` is not a URL.
    UnreadableUrl,
    /// `has_more` is set, but the query of `next` does not read as a map.
    UnreadableQuery,
}

/// Where the pagination meta `p` of a page received by the cursor `cur`
/// points.
pub open spec fn link_after(cur: CursorView, p: Option<Pagination>) -> Link {
    match p {
        None => Link::Last,
        Some(p) => if !p.has_more {
            Link::Last
        } else {
            match link_target(cur.base, cur.path, p.next@) {
                None => Link::UnreadableUrl,
                Some((path, q)) => {
                    let text = match q {
                        Some(q) => q,
                        None => Seq::empty(),
                    };
                    match decoded_query(text) {
                        Some(v) => Link::Next(path, v),
                        None => Link::UnreadableQuery,
                    }
                },
            }
        },
    }
}

/// `next` is where the cursor `cur` stands after it received a page whose
/// pagination meta is `p`: exhausted after the last page, at the linked path
/// and query after another, unchanged where the link cannot be read.
pub open spec fn page_step(cur: CursorView, p: Option<Pagination>, next: CursorView) -> bool {
    match link_after(cur, p) {
        Link::Last => next == CursorView {
            base: cur.base,
            path: cur.path,
            query: None,
            pending_error: cur.pending_error,
        },
        Link::Next(path, v) => next == CursorView {
            base: cur.base,
            path,
            query: Some(v),
            pending_error: None,
        },
        _ => next == cur,
    }
}

/// What `begin` reports from the cursor `v`, and where it leaves it: the
/// error kept from construction (once), else whether a request is due.
pub open spec fn begin_outcome(v: CursorView) -> (Result<bool, Error>, CursorView) {
    match v.pending_error {
        Some(e) => (
            Err(e),
            CursorView { base: v.base, path: v.path, query: v.query, pending_error: None },
        ),
        None => (Ok(v.query is Some), v),
    }
}

/// Whether `complete`, given `outcome` for the request due at `cur`, may
/// return `r` and leave the cursor at `next`. A failed request, or a link
/// that cannot be read, leaves the cursor where it was, so that the same
/// request is made again.
pub open spec fn completed_as<T>(
    cur: CursorView,
    outcome: Result<SuccessResponse<T>, Error>,
    r: Result<Option<SuccessResponse<T>>, Error>,
    next: CursorView,
) -> bool {
    match outcome {
        Err(e) => r == Err::<Option<SuccessResponse<T>>, Error>(e) && next == cur,
        Ok(page) => {
            &&& page_step(cur, page.meta.pagination, next)
            &&& match link_after(cur, page.meta.pagination) {
                Link::UnreadableUrl => r is Err && r->Err_0 is Url,
                Link::UnreadableQuery => r is Err && r->Err_0 is QueryString,
                _ => r == Ok::<Option<SuccessResponse<T>>, Error>(Some(page)),
            }
        },
    }
}

/// A cursor over the pages of a list endpoint whose pages hold `T`.
pub struct Paginated<T> {
    base_url: String,
    path: String,
    query: Option<Value>,
    error: Option<Error>,
    _type: PhantomData<T>,
}

impl<T> View for Paginated<T> {
    type V = CursorView;

    closed spec fn view(&self) -> CursorView {
        CursorView {
            base: self.base_url@,
            path: self.path@,
            query: self.query,
            pending_error: self.error,
        }
    }
}

impl<T> Paginated<T> {
    /// A cursor at `path` under the API's `base_url`, with `query`, the
    /// caller's filters serialised to JSON. Construction never fails: a query
    /// that could not be serialised is reported by the first `begin`.
    pub fn new(base_url: &str, path: &str, query: Result<Value, JsonError>) -> (r: Self)
        ensures
            r@.base == base_url@,
            r@.path == path@,
            match query {
                Ok(v) => r@.query == Some(v) && r@.pending_error is None,
                Err(e) => r@.query is None && r@.pending_error == Some(Error::JsonError(e)),
            },
    {
        let (query, error) = match query {
            Ok(v) => (Some(v), None),
            Err(e) => (None, Some(Error::JsonError(e))),
        };
        Paginated {
            base_url: base_url.to_string(),
            path: path.to_string(),
            query,
            error,
            _type: PhantomData,
        }
    }

    /// The path of the next request.
    pub fn path(&self) -> (r: &str)
        ensures
            r@ == self@.path,
    {
        self.path.as_str()
    }

    /// The query of the next request, unless the cursor is exhausted.
    pub fn query(&self) -> (r: Option<&Value>)
        ensures
            match r {
                Some(q) => self@.query == Some(*q),
                None => self@.query is None,
            },
    {
        match &self.query {
            Some(q) => Some(q),
            None => None,
        }
    }

    /// First half of an advance: reports the error kept from construction,
    /// if any, and otherwise whether a request for the next page is due
    /// (`Ok(false)`: the cursor is exhausted and no request is to be made).
    pub fn begin(&mut self) -> (r: Result<bool, Error>)
        ensures
            (r, final(self)@) == begin_outcome(old(self)@),
    {
        match self.error.take() {
            Some(e) => Err(e),
            None => Ok(self.query.is_some()),
        }
    }

    /// Second half of an advance: takes the outcome of the request that
    /// `begin` found due, moves the cursor on, and hands the page back.
    pub fn complete(&mut self, outcome: Result<SuccessResponse<T>, Error>) -> (r: Result<
        Option<SuccessResponse<T>>,
        Error,
    >)
        requires
            old(self)@.is_due(),
        ensures
            completed_as(old(self)@, outcome, r, final(self)@),
    {
        let page = match outcome {
            Err(e) => {
                return Err(e);
            },
            Ok(page) => page,
        };
        let link = match &page.meta.pagination {
            Some(p) => if p.has_more {
                Some(p.next.as_str())
            } else {
                None
            },
            None => None,
        };
        match link {
            None => {
                self.query = None;
                Ok(Some(page))
            },
            Some(next) => {
                let (path, query) = match resolve_link(self.base_url.as_str(), self.path.as_str(), next) {
                    Err(e) => {
                        return Err(Error::Url(e));
                    },
                    Ok(parts) => parts,
                };
                // A URL without a query string reads as the empty one.
                let text = match query {
                    Some(q) => q,
                    None => String::new(),
                };
                let value = match decode_query(text.as_str()) {
                    Err(e) => {
                        return Err(Error::QueryString(e));
                    },
                    Ok(v) => v,
                };
                self.path = path;
                self.query = Some(value);
                Ok(Some(page))
            },
        }
    }
}

/// The items of `pages`, page after page.
pub open spec fn all_items<U>(pages: Seq<Seq<U>>) -> Seq<U>
    decreases pages.len(),
{
    if pages.len() == 0 {
        Seq::empty()
    } else {
        all_items(pages.drop_last()) + pages.last()
    }
}

/// Appends the items of one more page to those gathered so far.
pub fn gather_page<U>(items: &mut Vec<U>, page: Vec<U>)
    ensures
        final(items)@ == old(items)@ + page@,
{
    let mut page = page;
    items.append(&mut page);
}

proof fn lemma_due_before_last(views: Seq<CursorView>, pages: Seq<Option<Pagination>>, i: int)
    requires
        views.len() == pages.len() + 1,
        views[0].is_due(),
        forall|j: int| 0 <= j < pages.len() - 1 ==> link_after(views[j], #[trigger] pages[j]) is Next,
        forall|j: int| 0 <= j < pages.len() ==> page_step(#[trigger] views[j], pages[j], views[j + 1]),
        0 <= i < pages.len(),
    ensures
        views[i].is_due(),
    decreases i,
{
    if i > 0 {
        lemma_due_before_last(views, pages, i - 1);
        assert(page_step(views[i - 1], pages[i - 1], views[i]));
        assert(link_after(views[i - 1], pages[i - 1]) is Next);
    }
}

/// Draining a cursor. Let a due cursor receive `k` pages, the first `k - 1`
/// linking on to a next page and the last one not, and let `views` be where
/// it stands before and after each. Then each of the `k` pages was requested
/// by a due cursor, the cursor ends exhausted, and from there `begin` reports
/// that no request is due and leaves the cursor as it is, however often it is
/// called.
pub proof fn lemma_drain(views: Seq<CursorView>, pages: Seq<Option<Pagination>>)
    requires
        pages.len() >= 1,
        views.len() == pages.len() + 1,
        views[0].is_due(),
        forall|i: int| 0 <= i < pages.len() - 1 ==> link_after(views[i], #[trigger] pages[i]) is Next,
        link_after(views[pages.len() - 1], pages.last()) is Last,
        forall|i: int| 0 <= i < pages.len() ==> page_step(#[trigger] views[i], pages[i], views[i + 1]),
    ensures
        forall|i: int| 0 <= i < pages.len() ==> (#[trigger] views[i]).is_due(),
        forall|i: int|
            0 <= i < pages.len() ==> begin_outcome(#[trigger] views[i]) == (
                Ok::<bool, Error>(true),
                views[i],
            ),
        views.last().is_exhausted(),
        begin_outcome(views.last()) == (Ok::<bool, Error>(false), views.last()),
{
    assert forall|i: int| 0 <= i < pages.len() implies (#[trigger] views[i]).is_due() by {
        lemma_due_before_last(views, pages, i);
    }
    assert forall|i: int| 0 <= i < pages.len() implies begin_outcome(#[trigger] views[i]) == (
        Ok::<bool, Error>(true),
        views[i],
    ) by {
        assert(views[i].is_due());
    }
    let k = pages.len() - 1;
    assert(views[k].is_due());
    assert(page_step(views[k], pages[k], views[k + 1]));
}

/// Retrying a failed request. A request that failed leaves a due cursor
/// where it was, so the next `begin` finds the very same request due: same
/// path, same query.
pub proof fn lemma_retry_same_request<T>(
    cur: CursorView,
    e: Error,
    r: Result<Option<SuccessResponse<T>>, Error>,
    next: CursorView,
)
    requires
        cur.is_due(),
        completed_as(cur, Err(e), r, next),
    ensures
        r == Err::<Option<SuccessResponse<T>>, Error>(e),
        next.path == cur.path,
        next.query == cur.query,
        begin_outcome(next) == (Ok::<bool, Error>(true), cur),
{
}

/// Total number of items on `pages`.
pub open spec fn total_len<U>(pages: Seq<Seq<U>>) -> nat
    decreases pages.len(),
{
    if pages.len() == 0 {
        0
    } else {
        total_len(pages.drop_last()) + pages.last().len()
    }
}

proof fn lemma_prefix_len<U>(pages: Seq<Seq<U>>, i: int)
    requires
        0 <= i < pages.len(),
    ensures
        total_len(pages.take(i)) + pages[i].len() <= total_len(pages),
    decreases pages.len(),
{
    if i == pages.len() - 1 {
        assert(pages.take(i) =~= pages.drop_last());
    } else {
        lemma_prefix_len(pages.drop_last(), i);
        assert(pages.drop_last().take(i) =~= pages.take(i));
    }
}

/// Gathering every page: `all_items` of `k` pages of sizes `n_1 .. n_k`
/// holds `n_1 + .. + n_k` items, item `j` of page `i` standing after all the
/// items of the pages before it.
pub proof fn lemma_all_items<U>(pages: Seq<Seq<U>>)
    ensures
        all_items(pages).len() == total_len(pages),
        forall|i: int, j: int|
            0 <= i < pages.len() && 0 <= j < pages[i].len() ==> all_items(pages)[total_len(pages.take(i))
                + j] == #[trigger] pages[i][j],
    decreases pages.len(),
{
    if pages.len() > 0 {
        let init = pages.drop_last();
        lemma_all_items(init);
        assert forall|i: int, j: int| 0 <= i < pages.len() && 0 <= j < pages[i].len() implies all_items(
            pages,
        )[total_len(pages.take(i)) + j] == #[trigger] pages[i][j] by {
            if i == pages.len() - 1 {
                assert(pages.take(i) =~= init);
            } else {
                assert(init.take(i) =~= pages.take(i));
                assert(init[i] == pages[i]);
                lemma_prefix_len(init, i);
            }
        }
    }
}

} // verus!
