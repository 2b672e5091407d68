use ghelpr::remote::{
    owner_repo_from_remote_output, parse_owner_repo, resolve_repository, split_owner_repo,
    RemoteError, RepositorySource,
};

#[test]
fn test_parse_ssh_url() {
    let (owner, repo) = parse_owner_repo("git@github.com:lkurcak/ghelpr.git").unwrap();
    assert_eq!(owner, "lkurcak");
    assert_eq!(repo, "ghelpr");
}

#[test]
fn test_parse_ssh_url_no_suffix() {
    let (owner, repo) = parse_owner_repo("git@github.com:lkurcak/ghelpr").unwrap();
    assert_eq!(owner, "lkurcak");
    assert_eq!(repo, "ghelpr");
}

#[test]
fn test_parse_https_url() {
    let (owner, repo) = parse_owner_repo("https://github.com/lkurcak/ghelpr.git").unwrap();
    assert_eq!(owner, "lkurcak");
    assert_eq!(repo, "ghelpr");
}

#[test]
fn test_parse_https_url_no_suffix() {
    let (owner, repo) = parse_owner_repo("https://github.com/lkurcak/ghelpr").unwrap();
    assert_eq!(owner, "lkurcak");
    assert_eq!(repo, "ghelpr");
}

#[test]
fn parses_http_url() {
    let (owner, repo) = parse_owner_repo("http://github.com/octo/cat.git").unwrap();
    assert_eq!(owner, "octo");
    assert_eq!(repo, "cat");
}

#[test]
fn extra_path_segments_are_ignored() {
    let (owner, repo) = parse_owner_repo("https://github.com/octo/cat/pulls/7").unwrap();
    assert_eq!(owner, "octo");
    assert_eq!(repo, "cat");
}

#[test]
fn only_one_git_suffix_is_removed() {
    let (owner, repo) = parse_owner_repo("git@github.com:octo/cat.git.git").unwrap();
    assert_eq!(owner, "octo");
    assert_eq!(repo, "cat.git");
}

#[test]
fn non_ascii_names_are_kept() {
    let (owner, repo) = parse_owner_repo("https://github.com/żółw/répo").unwrap();
    assert_eq!(owner, "żółw");
    assert_eq!(repo, "répo");
}

#[test]
fn other_hosts_are_unsupported() {
    match parse_owner_repo("https://gitlab.com/octo/cat") {
        Err(RemoteError::UnsupportedUrl(u)) => assert_eq!(u, "https://gitlab.com/octo/cat"),
        _ => panic!("expected an unsupported URL"),
    }
}

#[test]
fn missing_repo_is_refused() {
    match parse_owner_repo("https://github.com/octo") {
        Err(RemoteError::MissingOwnerOrRepo(p)) => assert_eq!(p, "octo"),
        _ => panic!("expected a missing repository"),
    }
    match parse_owner_repo("https://github.com/octo/") {
        Err(RemoteError::MissingOwnerOrRepo(p)) => assert_eq!(p, "octo/"),
        _ => panic!("expected a missing repository"),
    }
    match parse_owner_repo("git@github.com:/cat.git") {
        Err(RemoteError::MissingOwnerOrRepo(p)) => assert_eq!(p, "/cat"),
        _ => panic!("expected a missing owner"),
    }
}

#[test]
fn split_takes_first_two_fields() {
    let (owner, repo) = split_owner_repo("a/b/c").unwrap();
    assert_eq!(owner, "a");
    assert_eq!(repo, "b");
    assert!(split_owner_repo("ab").is_err());
    assert!(split_owner_repo("a//b").is_err());
}

#[test]
fn remote_output_is_trimmed() {
    let (owner, repo) =
        owner_repo_from_remote_output(true, "  git@github.com:octo/cat.git\n").unwrap();
    assert_eq!(owner, "octo");
    assert_eq!(repo, "cat");
}

#[test]
fn failed_remote_command_is_reported() {
    assert!(matches!(
        owner_repo_from_remote_output(false, "git@github.com:octo/cat.git"),
        Err(RemoteError::NoOriginRemote)
    ));
}

#[test]
fn both_or_neither_of_owner_and_repo() {
    match resolve_repository(Some("o".to_string()), Some("r".to_string())) {
        RepositorySource::Given(o, r) => {
            assert_eq!(o, "o");
            assert_eq!(r, "r");
        }
        _ => panic!("expected the given repository"),
    }
    assert!(matches!(resolve_repository(None, None), RepositorySource::FromRemote));
    assert!(matches!(
        resolve_repository(Some("o".to_string()), None),
        RepositorySource::Incomplete
    ));
    assert!(matches!(
        resolve_repository(None, Some("r".to_string())),
        RepositorySource::Incomplete
    ));
}
