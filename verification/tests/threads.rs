use ghelpr::graphql::{
    absorb_page, is_success_status, join_error_messages, review_threads_query, threads_request,
    FetchError, GqlData, GqlError, GqlPullRequest, GqlRepository, GqlResponse, PageStep,
    REVIEW_THREADS_QUERY_FULL, REVIEW_THREADS_QUERY_SUMMARY,
};
use ghelpr::threads::{
    detail_threads, select_threads, summarize_threads, to_full, to_summary, GqlAuthor, GqlComment,
    GqlConnection, GqlPageInfo, GqlReplyRef, GqlReview, GqlReviewThread,
};

fn comment(body: &str, author: Option<&str>) -> GqlComment {
    GqlComment {
        database_id: Some(11),
        body: body.to_string(),
        created_at: "2024-01-02T03:04:05Z".to_string(),
        updated_at: Some("2024-01-03T00:00:00Z".to_string()),
        url: Some("https://github.com/o/r/pull/1#c".to_string()),
        state: Some("SUBMITTED".to_string()),
        outdated: Some(false),
        diff_hunk: Some("@@ -1 +1 @@".to_string()),
        path: Some("src/lib.rs".to_string()),
        line: Some(3),
        start_line: None,
        original_line: Some(2),
        original_start_line: None,
        author: author.map(|a| GqlAuthor { login: a.to_string() }),
        reply_to: Some(GqlReplyRef { database_id: Some(9) }),
        pull_request_review: Some(GqlReview {
            state: Some("COMMENTED".to_string()),
            body: Some("review".to_string()),
            author: Some(GqlAuthor { login: "rev".to_string() }),
        }),
    }
}

fn thread(id: &str, resolved: bool, comments: Vec<GqlComment>) -> GqlReviewThread {
    GqlReviewThread {
        id: id.to_string(),
        is_resolved: resolved,
        is_outdated: true,
        path: "src/main.rs".to_string(),
        line: Some(10),
        start_line: Some(8),
        original_line: Some(9),
        original_start_line: None,
        diff_side: Some("RIGHT".to_string()),
        start_diff_side: None,
        subject_type: Some("LINE".to_string()),
        resolved_by: if resolved { Some(GqlAuthor { login: "fixer".to_string() }) } else { None },
        comments: GqlConnection {
            nodes: comments,
            page_info: GqlPageInfo { has_next_page: false, end_cursor: None },
        },
    }
}

fn response(
    threads: Vec<GqlReviewThread>,
    has_next_page: bool,
    end_cursor: Option<&str>,
) -> GqlResponse {
    GqlResponse {
        data: Some(GqlData {
            repository: GqlRepository {
                pull_request: GqlPullRequest {
                    review_threads: GqlConnection {
                        nodes: threads,
                        page_info: GqlPageInfo {
                            has_next_page,
                            end_cursor: end_cursor.map(|c| c.to_string()),
                        },
                    },
                },
            },
        }),
        errors: None,
    }
}

#[test]
fn summary_keeps_comments_in_order() {
    let t = thread("T1", false, vec![comment("first", Some("alice")), comment("second", None)]);
    let s = to_summary(&t);
    assert_eq!(s.path, "src/main.rs");
    assert_eq!(s.line, Some(10));
    assert_eq!(s.start_line, Some(8));
    assert!(!s.is_resolved);
    assert!(s.is_outdated);
    assert_eq!(s.comments.len(), 2);
    assert_eq!(s.comments[0].author, "alice");
    assert_eq!(s.comments[0].body, "first");
    assert_eq!(s.comments[1].author, "ghost");
    assert_eq!(s.comments[1].body, "second");
    assert_eq!(s.comments[1].created_at, "2024-01-02T03:04:05Z");
}

#[test]
fn full_keeps_every_detail() {
    let t = thread("T2", true, vec![comment("only", Some("bob"))]);
    let f = to_full(&t);
    assert_eq!(f.id, "T2");
    assert_eq!(f.resolved_by.as_deref(), Some("fixer"));
    assert_eq!(f.diff_side.as_deref(), Some("RIGHT"));
    assert_eq!(f.start_diff_side, None);
    assert_eq!(f.subject_type.as_deref(), Some("LINE"));
    assert_eq!(f.original_line, Some(9));
    let c = &f.comments[0];
    assert_eq!(c.database_id, Some(11));
    assert_eq!(c.author, "bob");
    assert_eq!(c.reply_to_id, Some(9));
    assert_eq!(c.review_state.as_deref(), Some("COMMENTED"));
    assert_eq!(c.review_body.as_deref(), Some("review"));
    assert_eq!(c.review_author.as_deref(), Some("rev"));
    assert_eq!(c.diff_hunk.as_deref(), Some("@@ -1 +1 @@"));
    assert_eq!(c.body, "only");
}

#[test]
fn full_without_review_or_reply() {
    let mut c = comment("x", None);
    c.reply_to = None;
    c.pull_request_review = None;
    let f = to_full(&thread("T3", false, vec![c]));
    assert_eq!(f.resolved_by, None);
    assert_eq!(f.comments[0].author, "ghost");
    assert_eq!(f.comments[0].reply_to_id, None);
    assert_eq!(f.comments[0].review_state, None);
    assert_eq!(f.comments[0].review_author, None);
}

#[test]
fn default_selection_drops_resolved_threads() {
    let threads = vec![thread("a", false, vec![]), thread("b", true, vec![]), thread("c", false, vec![])];
    let kept = select_threads(threads, false);
    let ids: Vec<&str> = kept.iter().map(|t| t.id.as_str()).collect();
    assert_eq!(ids, vec!["a", "c"]);
}

#[test]
fn all_selection_keeps_every_thread() {
    let threads = vec![thread("a", true, vec![]), thread("b", false, vec![])];
    let kept = select_threads(threads, true);
    let ids: Vec<&str> = kept.iter().map(|t| t.id.as_str()).collect();
    assert_eq!(ids, vec!["a", "b"]);
}

#[test]
fn shaping_many_threads_keeps_order() {
    let threads = vec![thread("a", false, vec![comment("1", None)]), thread("b", true, vec![])];
    let s = summarize_threads(&threads);
    assert_eq!(s.len(), 2);
    assert_eq!(s[0].comments.len(), 1);
    assert!(s[1].is_resolved);
    let f = detail_threads(&threads);
    assert_eq!(f[0].id, "a");
    assert_eq!(f[1].id, "b");
}

#[test]
fn query_choice() {
    assert_eq!(review_threads_query(true), REVIEW_THREADS_QUERY_FULL);
    assert_eq!(review_threads_query(false), REVIEW_THREADS_QUERY_SUMMARY);
    assert!(REVIEW_THREADS_QUERY_FULL.contains("diffHunk"));
    assert!(!REVIEW_THREADS_QUERY_SUMMARY.contains("diffHunk"));
}

#[test]
fn request_variables() {
    let r = threads_request(false, "octo", "cat", 42, &Some("CUR".to_string()));
    assert_eq!(r.query, REVIEW_THREADS_QUERY_SUMMARY);
    assert_eq!(r.owner, "octo");
    assert_eq!(r.repo, "cat");
    assert_eq!(r.pr, 42);
    assert_eq!(r.cursor.as_deref(), Some("CUR"));
    let r = threads_request(true, "o", "r", u64::MAX, &None);
    assert_eq!(r.pr, -1);
    assert_eq!(r.cursor, None);
}

#[test]
fn success_statuses() {
    assert!(is_success_status(200));
    assert!(is_success_status(204));
    assert!(is_success_status(299));
    assert!(!is_success_status(199));
    assert!(!is_success_status(300));
    assert!(!is_success_status(404));
}

#[test]
fn pages_are_collected_in_order() {
    let mut all = Vec::new();
    let step = absorb_page(&mut all, response(vec![thread("a", false, vec![])], true, Some("c1")));
    match step {
        Ok(PageStep::Next(Some(c))) => assert_eq!(c, "c1"),
        _ => panic!("expected a next page"),
    }
    let step = absorb_page(
        &mut all,
        response(vec![thread("b", true, vec![]), thread("c", false, vec![])], false, None),
    );
    assert!(matches!(step, Ok(PageStep::Done)));
    let ids: Vec<&str> = all.iter().map(|t| t.id.as_str()).collect();
    assert_eq!(ids, vec!["a", "b", "c"]);
}

#[test]
fn next_page_without_cursor_restarts() {
    let mut all = Vec::new();
    let step = absorb_page(&mut all, response(vec![], true, None));
    assert!(matches!(step, Ok(PageStep::Next(None))));
}

#[test]
fn graphql_errors_end_paging() {
    let mut all = vec![thread("kept", false, vec![])];
    let mut r = response(vec![thread("x", false, vec![])], false, None);
    r.errors = Some(vec![
        GqlError { message: "bad".to_string() },
        GqlError { message: "worse".to_string() },
    ]);
    match absorb_page(&mut all, r) {
        Err(FetchError::GraphQl(m)) => assert_eq!(m, "bad; worse"),
        _ => panic!("expected GraphQL errors"),
    }
    assert_eq!(all.len(), 1);
}

#[test]
fn empty_error_list_still_fails() {
    let mut all = Vec::new();
    let mut r = response(vec![], false, None);
    r.errors = Some(vec![]);
    match absorb_page(&mut all, r) {
        Err(FetchError::GraphQl(m)) => assert_eq!(m, ""),
        _ => panic!("expected GraphQL errors"),
    }
}

#[test]
fn missing_data_fails() {
    let mut all = Vec::new();
    let r = GqlResponse { data: None, errors: None };
    assert!(matches!(absorb_page(&mut all, r), Err(FetchError::NoData)));
    assert!(all.is_empty());
}

#[test]
fn joined_messages() {
    assert_eq!(join_error_messages(&vec![]), "");
    assert_eq!(join_error_messages(&vec![GqlError { message: "one".to_string() }]), "one");
}

#[test]
fn summary_is_within_full() {
    let t = thread("T9", false, vec![comment("a", Some("x")), comment("b", None)]);
    let s = to_summary(&t);
    let f = to_full(&t);
    assert_eq!(s.path, f.path);
    assert_eq!(s.line, f.line);
    assert_eq!(s.start_line, f.start_line);
    assert_eq!(s.is_resolved, f.is_resolved);
    assert_eq!(s.is_outdated, f.is_outdated);
    assert_eq!(s.comments.len(), f.comments.len());
    for (sc, fc) in s.comments.iter().zip(f.comments.iter()) {
        assert_eq!(sc.author, fc.author);
        assert_eq!(sc.created_at, fc.created_at);
        assert_eq!(sc.body, fc.body);
    }
}
