use ghelpr::auth::{session_cookie_from_env, token_from_env, token_from_gh_output};
use ghelpr::text::{decimal_text, ends_with, find_segment_end, starts_with, strip_prefix, strip_suffix, trim};

#[test]
fn gh_token_comes_first() {
    let t = token_from_env(Some("a".to_string()), Some("b".to_string()));
    assert_eq!(t.as_deref(), Some("a"));
}

#[test]
fn empty_gh_token_falls_back_to_github_token() {
    let t = token_from_env(Some(String::new()), Some("b".to_string()));
    assert_eq!(t.as_deref(), Some("b"));
    let t = token_from_env(None, Some("b".to_string()));
    assert_eq!(t.as_deref(), Some("b"));
}

#[test]
fn no_usable_env_token() {
    assert_eq!(token_from_env(None, None), None);
    assert_eq!(token_from_env(Some(String::new()), Some(String::new())), None);
}

#[test]
fn gh_output_is_trimmed() {
    assert_eq!(token_from_gh_output(true, "  gho_abc\n").as_deref(), Some("gho_abc"));
}

#[test]
fn gh_output_unusable() {
    assert_eq!(token_from_gh_output(false, "gho_abc"), None);
    assert_eq!(token_from_gh_output(true, " \n\t"), None);
}

#[test]
fn session_cookie_must_be_non_empty() {
    assert_eq!(session_cookie_from_env(Some("c".to_string())).as_deref(), Some("c"));
    assert_eq!(session_cookie_from_env(Some(String::new())), None);
    assert_eq!(session_cookie_from_env(None), None);
}

#[test]
fn trim_matches_std() {
    for s in ["", "  ", " a ", "\u{3000}x y\u{85}", "\t\r\nz", "no-space", "\u{a0}"] {
        assert_eq!(trim(s), s.trim());
    }
}

#[test]
fn prefixes_and_suffixes() {
    assert!(starts_with("github.com", "git"));
    assert!(!starts_with("git", "github"));
    assert!(ends_with("repo.git", ".git"));
    assert!(!ends_with("repo.gi", ".git"));
    assert_eq!(strip_prefix("abc", "ab"), Some("c"));
    assert_eq!(strip_prefix("abc", "b"), None);
    assert_eq!(strip_suffix("abc", "bc"), Some("a"));
    assert_eq!(strip_suffix("abc", "x"), None);
}

#[test]
fn segment_ends() {
    assert_eq!(find_segment_end("a/b", 0, '/'), 1);
    assert_eq!(find_segment_end("a/b", 2, '/'), 3);
    assert_eq!(find_segment_end("ab", 0, '/'), 2);
}

#[test]
fn decimal_matches_to_string() {
    for n in [0u64, 7, 10, 99, 100, 1234567890, u64::MAX] {
        assert_eq!(decimal_text(n), n.to_string());
    }
}
