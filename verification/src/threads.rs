//! Review threads as the GraphQL API returns them, and the two shapes in which
//! they are reported: a summary, and the full details.
use vstd::prelude::*;

verus! {

/// A GitHub account, by login.
#[derive(Debug)]
pub struct GqlAuthor {
    pub login: String,
}

/// The comment that a comment replies to.
#[derive(Debug)]
pub struct GqlReplyRef {
    pub database_id: Option<u64>,
}

/// The pull-request review that a comment belongs to.
#[derive(Debug)]
pub struct GqlReview {
    pub state: Option<String>,
    pub body: Option<String>,
    pub author: Option<GqlAuthor>,
}

/// One comment of a review thread. The summary query fills only `body`,
/// `created_at` and `author`.
#[derive(Debug)]
pub struct GqlComment {
    pub database_id: Option<u64>,
    pub body: String,
    pub created_at: String,
    pub updated_at: Option<String>,
    pub url: Option<String>,
    pub state: Option<String>,
    pub outdated: Option<bool>,
    pub diff_hunk: Option<String>,
    pub path: Option<String>,
    pub line: Option<u64>,
    pub start_line: Option<u64>,
    pub original_line: Option<u64>,
    pub original_start_line: Option<u64>,
    pub author: Option<GqlAuthor>,
    pub reply_to: Option<GqlReplyRef>,
    pub pull_request_review: Option<GqlReview>,
}

/// Where a paged list stands.
#[derive(Debug)]
pub struct GqlPageInfo {
    pub has_next_page: bool,
    pub end_cursor: Option<String>,
}

/// One page of a paged list.
#[derive(Debug)]
pub struct GqlConnection<T> {
    pub nodes: Vec<T>,
    pub page_info: GqlPageInfo,
}

/// A review thread of a pull request.
#[derive(Debug)]
pub struct GqlReviewThread {
    pub id: String,
    pub is_resolved: bool,
    pub is_outdated: bool,
    pub path: String,
    pub line: Option<u64>,
    pub start_line: Option<u64>,
    pub original_line: Option<u64>,
    pub original_start_line: Option<u64>,
    pub diff_side: Option<String>,
    pub start_diff_side: Option<String>,
    pub subject_type: Option<String>,
    pub resolved_by: Option<GqlAuthor>,
    pub comments: GqlConnection<GqlComment>,
}

/// A thread as the summary report shows it.
#[derive(Debug)]
pub struct SummaryThread {
    pub path: String,
    pub line: Option<u64>,
    pub start_line: Option<u64>,
    pub is_resolved: bool,
    pub is_outdated: bool,
    pub comments: Vec<SummaryComment>,
}

/// A comment as the summary report shows it.
#[derive(Debug)]
pub struct SummaryComment {
    pub author: String,
    pub created_at: String,
    pub body: String,
}

/// A thread as the full report shows it.
#[derive(Debug)]
pub struct FullThread {
    pub id: String,
    pub path: String,
    pub line: Option<u64>,
    pub start_line: Option<u64>,
    pub original_line: Option<u64>,
    pub original_start_line: Option<u64>,
    pub is_resolved: bool,
    pub is_outdated: bool,
    pub diff_side: Option<String>,
    pub start_diff_side: Option<String>,
    pub subject_type: Option<String>,
    pub resolved_by: Option<String>,
    pub comments: Vec<FullComment>,
}

/// A comment as the full report shows it.
#[derive(Debug)]
pub struct FullComment {
    pub database_id: Option<u64>,
    pub author: String,
    pub created_at: String,
    pub updated_at: Option<String>,
    pub url: Option<String>,
    pub state: Option<String>,
    pub outdated: Option<bool>,
    pub diff_hunk: Option<String>,
    pub path: Option<String>,
    pub line: Option<u64>,
    pub start_line: Option<u64>,
    pub original_line: Option<u64>,
    pub original_start_line: Option<u64>,
    pub reply_to_id: Option<u64>,
    pub review_state: Option<String>,
    pub review_body: Option<String>,
    pub review_author: Option<String>,
    pub body: String,
}

/// The author's login, or `ghost` for a deleted account.
pub open spec fn login_or_ghost(author: Option<GqlAuthor>) -> Seq<char> {
    match author {
        Some(a) => a.login@,
        None => "ghost"@,
    }
}

/// The author's login, if there is an author.
pub open spec fn login_of(author: Option<GqlAuthor>) -> Option<String> {
    match author {
        Some(a) => Some(a.login),
        None => None,
    }
}

/// `s` shows the comment `c` in summary form.
pub open spec fn summarizes_comment(s: SummaryComment, c: GqlComment) -> bool {
    &&& s.author@ == login_or_ghost(c.author)
    &&& s.created_at == c.created_at
    &&& s.body == c.body
}

/// `s` shows the thread `t` in summary form, its comments in their order.
pub open spec fn summarizes_thread(s: SummaryThread, t: GqlReviewThread) -> bool {
    &&& s.path == t.path
    &&& s.line == t.line
    &&& s.start_line == t.start_line
    &&& s.is_resolved == t.is_resolved
    &&& s.is_outdated == t.is_outdated
    &&& s.comments@.len() == t.comments.nodes@.len()
    &&& forall|i: int|
        0 <= i < s.comments@.len() ==> summarizes_comment(
            #[trigger] s.comments@[i],
            t.comments.nodes@[i],
        )
}

/// `f` shows the comment `c` with all its details.
pub open spec fn details_comment(f: FullComment, c: GqlComment) -> bool {
    &&& f.database_id == c.database_id
    &&& f.author@ == login_or_ghost(c.author)
    &&& f.created_at == c.created_at
    &&& f.updated_at == c.updated_at
    &&& f.url == c.url
    &&& f.state == c.state
    &&& f.outdated == c.outdated
    &&& f.diff_hunk == c.diff_hunk
    &&& f.path == c.path
    &&& f.line == c.line
    &&& f.start_line == c.start_line
    &&& f.original_line == c.original_line
    &&& f.original_start_line == c.original_start_line
    &&& f.reply_to_id == (match c.reply_to {
        Some(r) => r.database_id,
        None => None,
    })
    &&& f.review_state == (match c.pull_request_review {
        Some(r) => r.state,
        None => None,
    })
    &&& f.review_body == (match c.pull_request_review {
        Some(r) => r.body,
        None => None,
    })
    &&& f.review_author == (match c.pull_request_review {
        Some(r) => login_of(r.author),
        None => None,
    })
    &&& f.body == c.body
}

/// `f` shows the thread `t` with all its details, its comments in their order.
pub open spec fn details_thread(f: FullThread, t: GqlReviewThread) -> bool {
    &&& f.id == t.id
    &&& f.path == t.path
    &&& f.line == t.line
    &&& f.start_line == t.start_line
    &&& f.original_line == t.original_line
    &&& f.original_start_line == t.original_start_line
    &&& f.is_resolved == t.is_resolved
    &&& f.is_outdated == t.is_outdated
    &&& f.diff_side == t.diff_side
    &&& f.start_diff_side == t.start_diff_side
    &&& f.subject_type == t.subject_type
    &&& f.resolved_by == login_of(t.resolved_by)
    &&& f.comments@.len() == t.comments.nodes@.len()
    &&& forall|i: int|
        0 <= i < f.comments@.len() ==> details_comment(
            #[trigger] f.comments@[i],
            t.comments.nodes@[i],
        )
}

/// The threads that are not resolved, in their order.
pub open spec fn unresolved(threads: Seq<GqlReviewThread>) -> Seq<GqlReviewThread> {
    threads.filter(|t: GqlReviewThread| !t.is_resolved)
}

fn clone_text(o: &Option<String>) -> (res: Option<String>)
    ensures
        res == *o,
{
    match o {
        Some(s) => Some(s.clone()),
        None => None,
    }
}

fn login_text(author: &Option<GqlAuthor>) -> (res: Option<String>)
    ensures
        res == login_of(*author),
{
    match author {
        Some(a) => Some(a.login.clone()),
        None => None,
    }
}

fn login_or_ghost_text(author: &Option<GqlAuthor>) -> (res: String)
    ensures
        res@ == login_or_ghost(*author),
{
    match author {
        Some(a) => a.login.clone(),
        None => String::from_str("ghost"),
    }
}

/// The summary form of a thread.
pub fn to_summary(thread: &GqlReviewThread) -> (res: SummaryThread)
    ensures
        summarizes_thread(res, *thread),
        res.path == thread.path,
        res.line == thread.line,
        res.start_line == thread.start_line,
        res.is_resolved == thread.is_resolved,
        res.is_outdated == thread.is_outdated,
        res.comments@.len() == thread.comments.nodes@.len(),
        forall|i: int|
            0 <= i < res.comments@.len() ==> {
                let c = thread.comments.nodes@[i];
                &&& (#[trigger] res.comments@[i]).created_at == c.created_at
                &&& res.comments@[i].body == c.body
                &&& (c.author matches Some(a) ==> res.comments@[i].author@ == a.login@)
                &&& (c.author is None ==> res.comments@[i].author@ == "ghost"@)
            },
{
    let nodes = &thread.comments.nodes;
    let mut comments: Vec<SummaryComment> = Vec::new();
    let mut i: usize = 0;
    while i < nodes.len()
        invariant
            i <= nodes@.len(),
            comments@.len() == i,
            forall|k: int|
                0 <= k < i ==> summarizes_comment(#[trigger] comments@[k], nodes@[k]),
        decreases nodes@.len() - i,
    {
        let c = &nodes[i];
        comments.push(
            SummaryComment {
                author: login_or_ghost_text(&c.author),
                created_at: c.created_at.clone(),
                body: c.body.clone(),
            },
        );
        i = i + 1;
    }
    let res = SummaryThread {
        path: thread.path.clone(),
        line: thread.line,
        start_line: thread.start_line,
        is_resolved: thread.is_resolved,
        is_outdated: thread.is_outdated,
        comments,
    };
    proof {
        lemma_summary_fields(res, *thread);
    }
    res
}

fn to_full_comment(c: &GqlComment) -> (res: FullComment)
    ensures
        details_comment(res, *c),
{
    let reply_to_id = match &c.reply_to {
        Some(r) => r.database_id,
        None => None,
    };
    let (review_state, review_body, review_author) = match &c.pull_request_review {
        Some(r) => (clone_text(&r.state), clone_text(&r.body), login_text(&r.author)),
        None => (None, None, None),
    };
    FullComment {
        database_id: c.database_id,
        author: login_or_ghost_text(&c.author),
        created_at: c.created_at.clone(),
        updated_at: clone_text(&c.updated_at),
        url: clone_text(&c.url),
        state: clone_text(&c.state),
        outdated: c.outdated,
        diff_hunk: clone_text(&c.diff_hunk),
        path: clone_text(&c.path),
        line: c.line,
        start_line: c.start_line,
        original_line: c.original_line,
        original_start_line: c.original_start_line,
        reply_to_id,
        review_state,
        review_body,
        review_author,
        body: c.body.clone(),
    }
}

/// The full form of a thread.
pub fn to_full(thread: &GqlReviewThread) -> (res: FullThread)
    ensures
        details_thread(res, *thread),
        res.id == thread.id,
        res.path == thread.path,
        res.line == thread.line,
        res.start_line == thread.start_line,
        res.original_line == thread.original_line,
        res.original_start_line == thread.original_start_line,
        res.is_resolved == thread.is_resolved,
        res.is_outdated == thread.is_outdated,
        res.diff_side == thread.diff_side,
        res.start_diff_side == thread.start_diff_side,
        res.subject_type == thread.subject_type,
        thread.resolved_by matches Some(a) ==> res.resolved_by == Some(a.login),
        thread.resolved_by is None ==> res.resolved_by is None,
        res.comments@.len() == thread.comments.nodes@.len(),
        forall|i: int|
            0 <= i < res.comments@.len() ==> {
                let c = thread.comments.nodes@[i];
                let f = #[trigger] res.comments@[i];
                &&& f.database_id == c.database_id
                &&& (c.author matches Some(a) ==> f.author@ == a.login@)
                &&& (c.author is None ==> f.author@ == "ghost"@)
                &&& f.created_at == c.created_at
                &&& f.updated_at == c.updated_at
                &&& f.url == c.url
                &&& f.state == c.state
                &&& f.outdated == c.outdated
                &&& f.diff_hunk == c.diff_hunk
                &&& f.path == c.path
                &&& f.line == c.line
                &&& f.start_line == c.start_line
                &&& f.original_line == c.original_line
                &&& f.original_start_line == c.original_start_line
                &&& (c.reply_to matches Some(r) ==> f.reply_to_id == r.database_id)
                &&& (c.reply_to is None ==> f.reply_to_id is None)
                &&& (c.pull_request_review matches Some(r) ==> {
                    &&& f.review_state == r.state
                    &&& f.review_body == r.body
                    &&& (r.author matches Some(a) ==> f.review_author == Some(a.login))
                    &&& (r.author is None ==> f.review_author is None)
                })
                &&& (c.pull_request_review is None ==> {
                    &&& f.review_state is None
                    &&& f.review_body is None
                    &&& f.review_author is None
                })
                &&& f.body == c.body
            },
{
    let nodes = &thread.comments.nodes;
    let mut comments: Vec<FullComment> = Vec::new();
    let mut i: usize = 0;
    while i < nodes.len()
        invariant
            i <= nodes@.len(),
            comments@.len() == i,
            forall|k: int| 0 <= k < i ==> details_comment(#[trigger] comments@[k], nodes@[k]),
        decreases nodes@.len() - i,
    {
        comments.push(to_full_comment(&nodes[i]));
        i = i + 1;
    }
    let res = FullThread {
        id: thread.id.clone(),
        path: thread.path.clone(),
        line: thread.line,
        start_line: thread.start_line,
        original_line: thread.original_line,
        original_start_line: thread.original_start_line,
        is_resolved: thread.is_resolved,
        is_outdated: thread.is_outdated,
        diff_side: clone_text(&thread.diff_side),
        start_diff_side: clone_text(&thread.start_diff_side),
        subject_type: clone_text(&thread.subject_type),
        resolved_by: login_text(&thread.resolved_by),
        comments,
    };
    proof {
        lemma_details_fields(res, *thread);
    }
    res
}

/// The threads to report: all of them with `all`, else only the unresolved
/// ones; the order is kept.
pub fn select_threads(threads: Vec<GqlReviewThread>, all: bool) -> (res: Vec<GqlReviewThread>)
    ensures
        all ==> res@ == threads@,
        !all ==> res@ == unresolved(threads@),
        !all ==> forall|i: int|
            0 <= i < res@.len() ==> !(#[trigger] res@[i]).is_resolved && threads@.contains(res@[i]),
        !all ==> forall|i: int|
            0 <= i < threads@.len() && !(#[trigger] threads@[i]).is_resolved ==> res@.contains(
                threads@[i],
            ),
{
    if all {
        return threads;
    }
    let ghost orig = threads@;
    let mut kept: Vec<GqlReviewThread> = Vec::new();
    for t in it: threads.into_iter()
        invariant
            it.seq() == orig,
            kept@ == unresolved(orig.take(it.index() as int)),
    {
        proof {
            broadcast use Seq::lemma_filter_push;

            assert(orig.take(it.index() + 1) =~= orig.take(it.index() as int).push(t));
        }
        if !t.is_resolved {
            kept.push(t);
        }
    }
    assert(orig.take(orig.len() as int) =~= orig);
    proof {
        lemma_unresolved_exactly(orig);
    }
    kept
}

/// The summary form of each thread, in order.
pub fn summarize_threads(threads: &Vec<GqlReviewThread>) -> (res: Vec<SummaryThread>)
    ensures
        res@.len() == threads@.len(),
        forall|i: int| 0 <= i < res@.len() ==> summarizes_thread(#[trigger] res@[i], threads@[i]),
{
    let mut out: Vec<SummaryThread> = Vec::new();
    let mut i: usize = 0;
    while i < threads.len()
        invariant
            i <= threads@.len(),
            out@.len() == i,
            forall|k: int| 0 <= k < i ==> summarizes_thread(#[trigger] out@[k], threads@[k]),
        decreases threads@.len() - i,
    {
        out.push(to_summary(&threads[i]));
        i = i + 1;
    }
    out
}

/// The full form of each thread, in order.
pub fn detail_threads(threads: &Vec<GqlReviewThread>) -> (res: Vec<FullThread>)
    ensures
        res@.len() == threads@.len(),
        forall|i: int| 0 <= i < res@.len() ==> details_thread(#[trigger] res@[i], threads@[i]),
{
    let mut out: Vec<FullThread> = Vec::new();
    let mut i: usize = 0;
    while i < threads.len()
        invariant
            i <= threads@.len(),
            out@.len() == i,
            forall|k: int| 0 <= k < i ==> details_thread(#[trigger] out@[k], threads@[k]),
        decreases threads@.len() - i,
    {
        out.push(to_full(&threads[i]));
        i = i + 1;
    }
    out
}

/// The brief summary of a thread omits details but shows nothing that the
/// full form does not: the same location and state, and for each comment, in
/// the same order, the same author, time and text.
pub proof fn lemma_summary_within_full(s: SummaryThread, f: FullThread, t: GqlReviewThread)
    requires
        summarizes_thread(s, t),
        details_thread(f, t),
    ensures
        s.path == f.path,
        s.line == f.line,
        s.start_line == f.start_line,
        s.is_resolved == f.is_resolved,
        s.is_outdated == f.is_outdated,
        s.comments@.len() == f.comments@.len(),
        forall|i: int|
            0 <= i < s.comments@.len() ==> {
                &&& (#[trigger] s.comments@[i]).author@ == f.comments@[i].author@
                &&& s.comments@[i].created_at == f.comments@[i].created_at
                &&& s.comments@[i].body == f.comments@[i].body
            },
{
    assert forall|i: int| 0 <= i < s.comments@.len() implies {
        &&& (#[trigger] s.comments@[i]).author@ == f.comments@[i].author@
        &&& s.comments@[i].created_at == f.comments@[i].created_at
        &&& s.comments@[i].body == f.comments@[i].body
    } by {
        assert(summarizes_comment(s.comments@[i], t.comments.nodes@[i]));
        assert(details_comment(f.comments@[i], t.comments.nodes@[i]));
    }
}

/// Keeping the unresolved threads keeps exactly the threads that are not
/// resolved, whatever else holds of them: each kept thread is unresolved and
/// comes from the input, and each unresolved input thread is kept.
pub proof fn lemma_unresolved_exactly(threads: Seq<GqlReviewThread>)
    ensures
        forall|i: int|
            0 <= i < unresolved(threads).len() ==> !(#[trigger] unresolved(threads)[i]).is_resolved
                && threads.contains(unresolved(threads)[i]),
        forall|i: int|
            0 <= i < threads.len() && !(#[trigger] threads[i]).is_resolved ==> unresolved(
                threads,
            ).contains(threads[i]),
        unresolved(threads).len() <= threads.len(),
{
    broadcast use vstd::seq_lib::group_filter_ensures;

    let p = |t: GqlReviewThread| !t.is_resolved;
    assert forall|i: int| 0 <= i < unresolved(threads).len() implies !(
    #[trigger] unresolved(threads)[i]).is_resolved && threads.contains(unresolved(threads)[i]) by {
        assert(p(threads.filter(p)[i]));
        assert(threads.filter(p).contains(threads.filter(p)[i]));
        threads.lemma_filter_contains_rev(p, threads.filter(p)[i]);
    }
    assert forall|i: int| 0 <= i < threads.len() && !(#[trigger] threads[i]).is_resolved implies unresolved(
        threads,
    ).contains(threads[i]) by {
        threads.lemma_filter_contains(p, i);
    }
}

/// A summary thread shows the thread's own location and state, and each of
/// its comments in order with the comment's own time and text, and the
/// author's login (`ghost` when the author is gone).
pub proof fn lemma_summary_fields(s: SummaryThread, t: GqlReviewThread)
    requires
        summarizes_thread(s, t),
    ensures
        s.path == t.path,
        s.line == t.line,
        s.start_line == t.start_line,
        s.is_resolved == t.is_resolved,
        s.is_outdated == t.is_outdated,
        s.comments@.len() == t.comments.nodes@.len(),
        forall|i: int|
            0 <= i < s.comments@.len() ==> {
                let c = t.comments.nodes@[i];
                &&& (#[trigger] s.comments@[i]).created_at == c.created_at
                &&& s.comments@[i].body == c.body
                &&& (c.author matches Some(a) ==> s.comments@[i].author@ == a.login@)
                &&& (c.author is None ==> s.comments@[i].author@ == "ghost"@)
            },
{
    assert forall|i: int| 0 <= i < s.comments@.len() implies {
        let c = t.comments.nodes@[i];
        &&& (#[trigger] s.comments@[i]).created_at == c.created_at
        &&& s.comments@[i].body == c.body
        &&& (c.author matches Some(a) ==> s.comments@[i].author@ == a.login@)
        &&& (c.author is None ==> s.comments@[i].author@ == "ghost"@)
    } by {
        assert(summarizes_comment(s.comments@[i], t.comments.nodes@[i]));
    }
}

/// A full thread shows every field of the thread as it is, the resolver's
/// login, and each of its comments in order with every field of the comment
/// as it is: its own current and original lines, the replied-to comment's id,
/// and its review's state, text and author.
pub proof fn lemma_details_fields(f: FullThread, t: GqlReviewThread)
    requires
        details_thread(f, t),
    ensures
        f.id == t.id,
        f.path == t.path,
        f.line == t.line,
        f.start_line == t.start_line,
        f.original_line == t.original_line,
        f.original_start_line == t.original_start_line,
        f.is_resolved == t.is_resolved,
        f.is_outdated == t.is_outdated,
        f.diff_side == t.diff_side,
        f.start_diff_side == t.start_diff_side,
        f.subject_type == t.subject_type,
        t.resolved_by matches Some(a) ==> f.resolved_by == Some(a.login),
        t.resolved_by is None ==> f.resolved_by is None,
        f.comments@.len() == t.comments.nodes@.len(),
        forall|i: int|
            0 <= i < f.comments@.len() ==> {
                let c = t.comments.nodes@[i];
                let f = #[trigger] f.comments@[i];
                &&& f.database_id == c.database_id
                &&& (c.author matches Some(a) ==> f.author@ == a.login@)
                &&& (c.author is None ==> f.author@ == "ghost"@)
                &&& f.created_at == c.created_at
                &&& f.updated_at == c.updated_at
                &&& f.url == c.url
                &&& f.state == c.state
                &&& f.outdated == c.outdated
                &&& f.diff_hunk == c.diff_hunk
                &&& f.path == c.path
                &&& f.line == c.line
                &&& f.start_line == c.start_line
                &&& f.original_line == c.original_line
                &&& f.original_start_line == c.original_start_line
                &&& (c.reply_to matches Some(r) ==> f.reply_to_id == r.database_id)
                &&& (c.reply_to is None ==> f.reply_to_id is None)
                &&& (c.pull_request_review matches Some(r) ==> {
                    &&& f.review_state == r.state
                    &&& f.review_body == r.body
                    &&& (r.author matches Some(a) ==> f.review_author == Some(a.login))
                    &&& (r.author is None ==> f.review_author is None)
                })
                &&& (c.pull_request_review is None ==> {
                    &&& f.review_state is None
                    &&& f.review_body is None
                    &&& f.review_author is None
                })
                &&& f.body == c.body
            },
{
    assert forall|i: int| 0 <= i < f.comments@.len() implies {
        let c = t.comments.nodes@[i];
        let fc = #[trigger] f.comments@[i];
        details_comment(fc, c)
    } by {}
}

} // verus!
