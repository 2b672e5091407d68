//! Paging through the review threads of a pull request with the GraphQL API:
//! what each request asks, and what each response means for the next step.
use vstd::prelude::*;

use crate::threads::GqlReviewThread;

verus! {

/// The query for review threads with only what the summary shows.
pub const REVIEW_THREADS_QUERY_SUMMARY: &'static str = "
query($owner: String!, $repo: String!, $pr: Int!, $cursor: String) {
  repository(owner: $owner, name: $repo) {
    pullRequest(number: $pr) {
      reviewThreads(first: 100, after: $cursor) {
        nodes {
          id
          isResolved
          isOutdated
          path
          line
          startLine
          comments(first: 100) {
            nodes {
              body
              createdAt
              author { login }
            }
            pageInfo {
              hasNextPage
              endCursor
            }
          }
        }
        pageInfo {
          hasNextPage
          endCursor
        }
      }
    }
  }
}
";

/// The query for review threads with all the details.
pub const REVIEW_THREADS_QUERY_FULL: &'static str = "
query($owner: String!, $repo: String!, $pr: Int!, $cursor: String) {
  repository(owner: $owner, name: $repo) {
    pullRequest(number: $pr) {
      reviewThreads(first: 100, after: $cursor) {
        nodes {
          id
          isResolved
          isOutdated
          path
          line
          startLine
          originalLine
          originalStartLine
          diffSide
          startDiffSide
          subjectType
          resolvedBy { login }
          comments(first: 100) {
            nodes {
              databaseId
              body
              createdAt
              updatedAt
              url
              state
              outdated
              diffHunk
              path
              line
              startLine
              originalLine
              originalStartLine
              author { login }
              replyTo { databaseId }
              pullRequestReview {
                state
                body
                author { login }
              }
            }
            pageInfo {
              hasNextPage
              endCursor
            }
          }
        }
        pageInfo {
          hasNextPage
          endCursor
        }
      }
    }
  }
}
";

/// An error that the GraphQL API reported.
#[derive(Debug)]
pub struct GqlError {
    pub message: String,
}

/// The pull request's review threads, one page of them.
#[derive(Debug)]
pub struct GqlPullRequest {
    pub review_threads: crate::threads::GqlConnection<GqlReviewThread>,
}

/// The repository part of a response.
#[derive(Debug)]
pub struct GqlRepository {
    pub pull_request: GqlPullRequest,
}

/// The data part of a response.
#[derive(Debug)]
pub struct GqlData {
    pub repository: GqlRepository,
}

/// A response of the GraphQL API to a review-threads query.
#[derive(Debug)]
pub struct GqlResponse {
    pub data: Option<GqlData>,
    pub errors: Option<Vec<GqlError>>,
}

/// One review-threads request: the query text and its variables.
#[derive(Debug)]
pub struct ThreadsRequest {
    pub query: &'static str,
    pub owner: String,
    pub repo: String,
    pub pr: i64,
    pub cursor: Option<String>,
}

/// What comes after a page of review threads.
#[derive(Debug)]
pub enum PageStep {
    /// Ask for the next page, after this cursor.
    Next(Option<String>),
    /// That was the last page.
    Done,
}

/// Why a response ends the paging with an error.
#[derive(Debug)]
pub enum FetchError {
    /// The API reported errors; their messages joined by `; `.
    GraphQl(String),
    /// The response has neither errors nor data.
    NoData,
}

/// `parts` joined with `sep` between each two.
pub open spec fn join_with(parts: Seq<Seq<char>>, sep: Seq<char>) -> Seq<char>
    decreases parts.len(),
{
    if parts.len() == 0 {
        Seq::empty()
    } else if parts.len() == 1 {
        parts[0]
    } else {
        join_with(parts.drop_last(), sep) + sep + parts.last()
    }
}

/// The messages of the errors, in order.
pub open spec fn error_messages(errors: Seq<GqlError>) -> Seq<Seq<char>> {
    errors.map_values(|e: GqlError| e.message@)
}

/// The review threads that a response holds; none when it holds no data.
pub open spec fn page_threads(r: GqlResponse) -> Seq<GqlReviewThread> {
    match r.data {
        Some(d) => d.repository.pull_request.review_threads.nodes@,
        None => Seq::empty(),
    }
}

/// A response that carries no errors and some data.
pub open spec fn is_accepted(r: GqlResponse) -> bool {
    r.errors is None && r.data is Some
}

/// The threads collected from a sequence of accepted pages, page by page.
pub open spec fn collected(start: Seq<GqlReviewThread>, pages: Seq<GqlResponse>) -> Seq<
    GqlReviewThread,
>
    decreases pages.len(),
{
    if pages.len() == 0 {
        start
    } else {
        collected(start, pages.drop_last()) + page_threads(pages.last())
    }
}

/// Whether an HTTP status code is in the success class (200 to 299).
pub fn is_success_status(code: u16) -> (b: bool)
    ensures
        b == (200 <= code && code <= 299),
{
    200 <= code && code <= 299
}

/// The query text for the summary or the full report.
pub fn review_threads_query(full: bool) -> (q: &'static str)
    ensures
        full ==> q@ == REVIEW_THREADS_QUERY_FULL@,
        !full ==> q@ == REVIEW_THREADS_QUERY_SUMMARY@,
{
    if full {
        REVIEW_THREADS_QUERY_FULL
    } else {
        REVIEW_THREADS_QUERY_SUMMARY
    }
}

/// The request for one page of review threads; the pull-request number is
/// sent as a GraphQL `Int`, converted as `pr as i64` converts it.
pub fn threads_request(
    full: bool,
    owner: &str,
    repo: &str,
    pr: u64,
    cursor: &Option<String>,
) -> (req: ThreadsRequest)
    ensures
        full ==> req.query@ == REVIEW_THREADS_QUERY_FULL@,
        !full ==> req.query@ == REVIEW_THREADS_QUERY_SUMMARY@,
        req.owner@ == owner@,
        req.repo@ == repo@,
        req.pr == pr as i64,
        req.cursor == *cursor,
{
    let cursor = match cursor {
        Some(c) => Some(c.clone()),
        None => None,
    };
    ThreadsRequest {
        query: review_threads_query(full),
        owner: owner.to_owned(),
        repo: repo.to_owned(),
        pr: pr as i64,
        cursor,
    }
}

/// The messages of the errors joined by `; `.
pub fn join_error_messages(errors: &Vec<GqlError>) -> (res: String)
    ensures
        res@ == join_with(error_messages(errors@), "; "@),
{
    let ghost msgs = error_messages(errors@);
    let mut res = String::new();
    let mut i: usize = 0;
    while i < errors.len()
        invariant
            msgs == error_messages(errors@),
            i <= errors@.len(),
            res@ == join_with(msgs.take(i as int), "; "@),
        decreases errors@.len() - i,
    {
        if i != 0 {
            res.append("; ");
        }
        res.append(errors[i].message.as_str());
        assert(msgs.take(i + 1).drop_last() =~= msgs.take(i as int));
        i = i + 1;
    }
    assert(msgs.take(errors@.len() as int) =~= msgs);
    res
}

/// Takes in one response: its errors end the paging, as does a response
/// without data; otherwise its threads are added after those collected so far,
/// and the paging goes on after its end cursor while it says there is a next page.
pub fn absorb_page(all_threads: &mut Vec<GqlReviewThread>, response: GqlResponse) -> (res: Result<
    PageStep,
    FetchError,
>)
    ensures
        is_accepted(response) ==> final(all_threads)@ == old(all_threads)@ + page_threads(
            response,
        ),
        !is_accepted(response) ==> final(all_threads)@ == old(all_threads)@ && res is Err,
        match response.errors {
            Some(errors) => final(all_threads)@ == old(all_threads)@ && match res {
                Err(FetchError::GraphQl(m)) => m@ == join_with(
                    error_messages(errors@),
                    "; "@,
                ),
                _ => false,
            },
            None => match response.data {
                None => final(all_threads)@ == old(all_threads)@ && res matches Err(
                    FetchError::NoData,
                ),
                Some(d) => {
                    let page = d.repository.pull_request.review_threads;
                    &&& final(all_threads)@ == old(all_threads)@ + page.nodes@
                    &&& page.page_info.has_next_page ==> res == Ok::<PageStep, FetchError>(
                        PageStep::Next(page.page_info.end_cursor),
                    )
                    &&& !page.page_info.has_next_page ==> res matches Ok(PageStep::Done)
                },
            },
        },
{
    if let Some(errors) = &response.errors {
        return Err(FetchError::GraphQl(join_error_messages(errors)));
    }
    match response.data {
        None => Err(FetchError::NoData),
        Some(data) => {
            let mut threads = data.repository.pull_request.review_threads;
            all_threads.append(&mut threads.nodes);
            if threads.page_info.has_next_page {
                Ok(PageStep::Next(threads.page_info.end_cursor))
            } else {
                Ok(PageStep::Done)
            }
        },
    }
}

/// Paging through accepted responses collects their threads in order: what
/// was collected before, then each page's threads in the order of the pages.
pub proof fn lemma_collected_pages(start: Seq<GqlReviewThread>, pages: Seq<GqlResponse>)
    ensures
        collected(start, pages) == start + pages.map_values(|r: GqlResponse| page_threads(r)).flatten(),
    decreases pages.len(),
{
    let f = |r: GqlResponse| page_threads(r);
    if pages.len() == 0 {
        assert(pages.map_values(f) =~= Seq::<Seq<GqlReviewThread>>::empty());
        assert(start + Seq::<GqlReviewThread>::empty() =~= start);
    } else {
        lemma_collected_pages(start, pages.drop_last());
        assert(pages.map_values(f) =~= pages.drop_last().map_values(f).push(f(pages.last())));
        pages.drop_last().map_values(f).lemma_flatten_push(f(pages.last()));
        assert(start + pages.map_values(f).flatten() =~= start + pages.drop_last().map_values(
            f,
        ).flatten() + page_threads(pages.last()));
    }
}

/// Joining puts the separator between each two parts and nowhere else: no
/// parts give the empty text, one part gives itself, and one more part adds
/// the separator and that part at the end.
pub proof fn lemma_join_with(parts: Seq<Seq<char>>, sep: Seq<char>, x: Seq<char>)
    ensures
        join_with(Seq::empty(), sep) == Seq::<char>::empty(),
        join_with(seq![x], sep) == x,
        parts.len() > 0 ==> join_with(parts.push(x), sep) == join_with(parts, sep) + sep + x,
{
    assert(parts.push(x).drop_last() =~= parts);
}

} // verus!
