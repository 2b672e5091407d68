//! Choosing the credentials: the API token and the github.com session cookie.
use vstd::prelude::*;

use crate::text::{trim, trim_spec};

verus! {

/// A value that is present and not empty.
pub open spec fn usable(v: Option<String>) -> bool {
    v matches Some(s) && s@.len() > 0
}

/// A value is usable exactly when it is present and not empty.
pub proof fn lemma_usable(v: Option<String>)
    ensures
        usable(v) <==> (v is Some && v->0@.len() != 0),
{
}

/// The token from the environment: `GH_TOKEN` when it is set and not empty,
/// else `GITHUB_TOKEN` when it is set and not empty, else none.
pub fn token_from_env(gh_token: Option<String>, github_token: Option<String>) -> (res: Option<
    String,
>)
    ensures
        usable(gh_token) ==> res == gh_token,
        !usable(gh_token) && usable(github_token) ==> res == github_token,
        !usable(gh_token) && !usable(github_token) ==> res is None,
        gh_token matches Some(t) && t@.len() > 0 ==> res == gh_token,
        (gh_token is None || gh_token->0@.len() == 0) && (github_token is Some
            && github_token->0@.len() > 0) ==> res == github_token,
        (gh_token is None || gh_token->0@.len() == 0) && (github_token is None
            || github_token->0@.len() == 0) ==> res is None,
{
    if let Some(token) = gh_token {
        if !token.as_str().is_empty() {
            return Some(token);
        }
    }
    if let Some(token) = github_token {
        if !token.as_str().is_empty() {
            return Some(token);
        }
    }
    None
}

/// The token printed by `gh auth token`: its trimmed output, when the command
/// succeeded and that output is not empty.
pub fn token_from_gh_output(success: bool, stdout: &str) -> (res: Option<String>)
    ensures
        match res {
            Some(t) => success && t@ == trim_spec(stdout@) && t@.len() > 0,
            None => !success || trim_spec(stdout@).len() == 0,
        },
{
    if !success {
        return None;
    }
    let token = trim(stdout);
    if !token.is_empty() {
        Some(token.to_owned())
    } else {
        None
    }
}

/// The session cookie from `GITHUB_SESSION_COOKIE`, when it is set and not empty.
pub fn session_cookie_from_env(cookie: Option<String>) -> (res: Option<String>)
    ensures
        usable(cookie) ==> res == cookie,
        !usable(cookie) ==> res is None,
        cookie matches Some(c) && c@.len() > 0 ==> res == cookie,
        cookie is None || cookie->0@.len() == 0 ==> res is None,
{
    match cookie {
        Some(c) => {
            if !c.as_str().is_empty() {
                Some(c)
            } else {
                None
            }
        },
        None => None,
    }
}

} // verus!
