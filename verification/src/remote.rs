//! Finding the repository owner and name: from the command line, or from the
//! URL of the `origin` git remote.
use vstd::prelude::*;

use crate::text::{
    find_segment_end, lemma_segment_end_at, lemma_segment_end_bounds, segment_end, strip_prefix,
    strip_prefix_spec, strip_suffix, strip_suffix_spec, trim, trim_spec,
};

verus! {

/// Why no owner and repository name could be had from a remote.
#[derive(Debug)]
pub enum RemoteError {
    /// The remote URL is none of the GitHub forms that are understood; holds the URL.
    UnsupportedUrl(String),
    /// The path of a GitHub URL is not `owner/repo`; holds that path.
    MissingOwnerOrRepo(String),
    /// `git remote get-url origin` did not succeed.
    NoOriginRemote,
}

/// Where the repository comes from, given the `--owner` and `--repo` options.
#[derive(Debug)]
pub enum RepositorySource {
    /// Both were given.
    Given(String, String),
    /// Neither was given: infer both from the git remote.
    FromRemote,
    /// Only one of them was given.
    Incomplete,
}

pub open spec fn ssh_prefix() -> Seq<char> {
    "git@github.com:"@
}

pub open spec fn https_prefix() -> Seq<char> {
    "https://github.com/"@
}

pub open spec fn http_prefix() -> Seq<char> {
    "http://github.com/"@
}

pub open spec fn git_suffix() -> Seq<char> {
    ".git"@
}

/// `s` with one trailing `.git` removed, if it has one.
pub open spec fn without_git_suffix(s: Seq<char>) -> Seq<char> {
    match strip_suffix_spec(s, git_suffix()) {
        Some(r) => r,
        None => s,
    }
}

/// The `owner/repo` part of a GitHub remote URL: what follows the first of the
/// SSH, HTTPS and HTTP prefixes that the URL has, without a trailing `.git`.
pub open spec fn remote_path(url: Seq<char>) -> Option<Seq<char>> {
    match strip_prefix_spec(url, ssh_prefix()) {
        Some(rest) => Some(without_git_suffix(rest)),
        None => match strip_prefix_spec(url, https_prefix()) {
            Some(rest) => Some(without_git_suffix(rest)),
            None => match strip_prefix_spec(url, http_prefix()) {
                Some(rest) => Some(without_git_suffix(rest)),
                None => None,
            },
        },
    }
}

/// The first two `/`-separated fields of `s` (as `s.splitn(3, '/')` gives
/// them), when there are two and neither is empty.
pub open spec fn split_owner_repo_spec(s: Seq<char>) -> Option<(Seq<char>, Seq<char>)> {
    let i = segment_end(s, 0, '/');
    if i >= s.len() {
        None
    } else {
        let j = segment_end(s, i + 1, '/');
        if i == 0 || j == i + 1 {
            None
        } else {
            Some((s.subrange(0, i), s.subrange(i + 1, j)))
        }
    }
}

/// What `parse_owner_repo` gives for a URL, over views.
pub open spec fn parse_owner_repo_spec(url: Seq<char>) -> Option<(Seq<char>, Seq<char>)> {
    match remote_path(url) {
        Some(p) => split_owner_repo_spec(p),
        None => None,
    }
}

/// The remote URL with the given prefix for `owner/repo`, with or without `.git`.
pub open spec fn remote_url(
    prefix: Seq<char>,
    owner: Seq<char>,
    repo: Seq<char>,
    with_git_suffix: bool,
) -> Seq<char> {
    prefix + owner + seq!['/'] + repo + (if with_git_suffix {
        git_suffix()
    } else {
        Seq::empty()
    })
}

/// Splits `owner/repo` (anything after a second `/` is ignored).
pub fn split_owner_repo(s: &str) -> (res: Result<(String, String), RemoteError>)
    ensures
        match res {
            Ok((owner, repo)) => split_owner_repo_spec(s@) == Some((owner@, repo@)),
            Err(RemoteError::MissingOwnerOrRepo(p)) => split_owner_repo_spec(s@) is None && p@
                == s@,
            Err(_) => false,
        },
        res matches Ok((owner, repo)) ==> {
            &&& owner@.len() > 0
            &&& repo@.len() > 0
            &&& !owner@.contains('/')
            &&& !repo@.contains('/')
            &&& (owner@ + seq!['/'] + repo@).is_prefix_of(s@)
            &&& (s@.len() == owner@.len() + 1 + repo@.len() || s@[owner@.len() + 1 + repo@.len() as int]
                == '/')
        },
        res is Err ==> forall|k: int|
            0 <= k < s@.len() && #[trigger] s@[k] == '/' && (forall|j: int|
                0 <= j < k ==> s@[j] != '/') ==> k == 0 || k + 1 == s@.len() || s@[k + 1] == '/',
{
    let n = s.unicode_len();
    let i = find_segment_end(s, 0, '/');
    proof {
        lemma_segment_end_bounds(s@, 0, '/');
    }
    if i >= n {
        return Err(RemoteError::MissingOwnerOrRepo(s.to_owned()));
    }
    proof {
        assert forall|k: int|
            0 <= k < s@.len() && #[trigger] s@[k] == '/' && (forall|j: int|
                0 <= j < k ==> s@[j] != '/') implies k == i by {
            if k < i {
            } else if k > i {
                assert(s@[i as int] != '/');
            }
        }
    }
    let j = find_segment_end(s, i + 1, '/');
    proof {
        lemma_segment_end_bounds(s@, i + 1, '/');
    }
    if i == 0 || j == i + 1 {
        return Err(RemoteError::MissingOwnerOrRepo(s.to_owned()));
    }
    let owner = s.substring_char(0, i).to_owned();
    let repo = s.substring_char(i + 1, j).to_owned();
    proof {
        assert((owner@ + seq!['/'] + repo@) =~= s@.subrange(0, j as int));
        if owner@.contains('/') {
            let k = choose|k: int| 0 <= k < owner@.len() && owner@[k] == '/';
            assert(s@[k] == '/');
        }
        if repo@.contains('/') {
            let k = choose|k: int| 0 <= k < repo@.len() && repo@[k] == '/';
            assert(s@[i + 1 + k] == '/');
        }
    }
    Ok((owner, repo))
}

/// `s` with one trailing `.git` removed, if it has one.
fn strip_git_suffix(s: &str) -> (res: &str)
    ensures
        res@ == without_git_suffix(s@),
{
    match strip_suffix(s, ".git") {
        Some(r) => r,
        None => s,
    }
}

/// Parses the owner and repository name from a GitHub remote URL:
/// `git@github.com:owner/repo(.git)`, `https://github.com/owner/repo(.git)`
/// or `http://github.com/owner/repo(.git)`.
pub fn parse_owner_repo(url: &str) -> (res: Result<(String, String), RemoteError>)
    ensures
        match res {
            Ok((owner, repo)) => parse_owner_repo_spec(url@) == Some((owner@, repo@)),
            Err(RemoteError::UnsupportedUrl(u)) => remote_path(url@) is None && u@ == url@,
            Err(RemoteError::MissingOwnerOrRepo(p)) => remote_path(url@) == Some(p@)
                && split_owner_repo_spec(p@) is None,
            Err(RemoteError::NoOriginRemote) => false,
        },
{
    if let Some(rest) = strip_prefix(url, "git@github.com:") {
        return split_owner_repo(strip_git_suffix(rest));
    }
    if let Some(rest) = strip_prefix(url, "https://github.com/") {
        return split_owner_repo(strip_git_suffix(rest));
    }
    if let Some(rest) = strip_prefix(url, "http://github.com/") {
        return split_owner_repo(strip_git_suffix(rest));
    }
    Err(RemoteError::UnsupportedUrl(url.to_owned()))
}

/// The owner and repository from the output of `git remote get-url origin`:
/// the trimmed output parsed as a remote URL when the command succeeded.
pub fn owner_repo_from_remote_output(success: bool, stdout: &str) -> (res: Result<
    (String, String),
    RemoteError,
>)
    ensures
        !success ==> res matches Err(RemoteError::NoOriginRemote),
        success ==> match res {
            Ok((owner, repo)) => parse_owner_repo_spec(trim_spec(stdout@)) == Some(
                (owner@, repo@),
            ),
            Err(RemoteError::UnsupportedUrl(u)) => remote_path(trim_spec(stdout@)) is None && u@
                == trim_spec(stdout@),
            Err(RemoteError::MissingOwnerOrRepo(p)) => remote_path(trim_spec(stdout@)) == Some(
                p@,
            ) && split_owner_repo_spec(p@) is None,
            Err(RemoteError::NoOriginRemote) => false,
        },
{
    if !success {
        return Err(RemoteError::NoOriginRemote);
    }
    parse_owner_repo(trim(stdout))
}

/// Both `--owner` and `--repo`, or neither (then inferred from git); one alone is refused.
pub fn resolve_repository(owner: Option<String>, repo: Option<String>) -> (res: RepositorySource)
    ensures
        match (owner, repo) {
            (Some(o), Some(r)) => res == RepositorySource::Given(o, r),
            (None, None) => res is FromRemote,
            _ => res is Incomplete,
        },
{
    match (owner, repo) {
        (Some(o), Some(r)) => RepositorySource::Given(o, r),
        (None, None) => RepositorySource::FromRemote,
        _ => RepositorySource::Incomplete,
    }
}

/// A URL in any of the three forms, built from an owner and a repository name
/// that are non-empty and hold no `/`, parses back to that owner and name (the
/// repository name may itself end in `.git` only when the `.git` suffix is added).
pub proof fn lemma_parse_remote_url(
    prefix: Seq<char>,
    owner: Seq<char>,
    repo: Seq<char>,
    with_git_suffix: bool,
)
    requires
        prefix == ssh_prefix() || prefix == https_prefix() || prefix == http_prefix(),
        owner.len() > 0,
        repo.len() > 0,
        !owner.contains('/'),
        !repo.contains('/'),
        !with_git_suffix ==> !git_suffix().is_suffix_of(repo),
    ensures
        parse_owner_repo_spec(remote_url(prefix, owner, repo, with_git_suffix)) == Some(
            (owner, repo),
        ),
{
    reveal_strlit("git@github.com:");
    reveal_strlit("https://github.com/");
    reveal_strlit("http://github.com/");
    reveal_strlit(".git");
    let url = remote_url(prefix, owner, repo, with_git_suffix);
    let path = owner + seq!['/'] + repo;
    let tail = path + (if with_git_suffix {
        git_suffix()
    } else {
        Seq::empty()
    });
    assert(url =~= prefix + tail);
    assert(prefix.is_prefix_of(url)) by {
        assert(url.subrange(0, prefix.len() as int) =~= prefix);
    }
    assert(strip_prefix_spec(url, prefix) == Some(tail)) by {
        assert(url.skip(prefix.len() as int) =~= tail);
    }
    if prefix != ssh_prefix() {
        assert(url[0] == 'h');
        assert(!ssh_prefix().is_prefix_of(url)) by {
            if ssh_prefix().is_prefix_of(url) {
                assert(url.subrange(0, ssh_prefix().len() as int)[0] == url[0]);
            }
        }
    }
    if prefix == http_prefix() {
        assert(url[4] == ':');
        assert(!https_prefix().is_prefix_of(url)) by {
            if https_prefix().is_prefix_of(url) {
                assert(url.subrange(0, https_prefix().len() as int)[4] == url[4]);
            }
        }
    }
    assert(remote_path(url) == Some(without_git_suffix(tail)));
    if with_git_suffix {
        assert(git_suffix().is_suffix_of(tail)) by {
            assert(tail.subrange(tail.len() - 4, tail.len() as int) =~= git_suffix());
        }
        assert(tail.take(tail.len() - 4) =~= path);
    } else {
        assert(tail =~= path);
        assert(!git_suffix().is_suffix_of(path)) by {
            if git_suffix().is_suffix_of(path) {
                let tail4 = path.subrange(path.len() - 4, path.len() as int);
                if repo.len() >= 4 {
                    assert(tail4 =~= repo.subrange(repo.len() - 4, repo.len() as int));
                } else {
                    let k = 3 - repo.len() as int;
                    assert(tail4[k] == path[owner.len() as int]);
                    assert(tail4[k] == '/');
                }
            }
        }
    }
    assert(without_git_suffix(tail) == path);
    let i = owner.len() as int;
    assert forall|k: int| 0 <= k < i implies path[k] != '/' by {
        assert(path[k] == owner[k]);
    }
    lemma_segment_end_at(path, 0, i, '/');
    let j = path.len() as int;
    assert forall|k: int| i + 1 <= k < j implies path[k] != '/' by {
        assert(path[k] == repo[k - i - 1]);
    }
    lemma_segment_end_at(path, i + 1, j, '/');
    assert(path.subrange(0, i) =~= owner);
    assert(path.subrange(i + 1, j) =~= repo);
}

} // verus!
