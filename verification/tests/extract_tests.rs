use git_grab::extract::{components_from, extract, UrlComponents};
use git_grab::grab::parse_url;

fn some(s: &str) -> Option<String> {
    Some(s.to_string())
}

#[test]
fn test_extract_known_host() {
    // An allow-listed host with two segments yields owner and repo, the
    // repo's trailing ".git" stripped.
    let url = parse_url("https://github.com/influxdata/influxdb2-sample-data.git").unwrap();
    let c = extract(&url);
    assert_eq!(
        c,
        UrlComponents {
            host: some("github.com"),
            path: some("influxdata/influxdb2-sample-data.git"),
            owner: some("influxdata"),
            repo: some("influxdb2-sample-data"),
        }
    );
}

#[test]
fn test_extract_each_known_host() {
    for host in ["github.com", "gitlab.com", "bitbucket.org", "git.sr.ht"] {
        let c = components_from(
            some(host),
            Some(vec!["owner".to_string(), "repo.git".to_string()]),
        );
        assert_eq!(c.owner, some("owner"));
        assert_eq!(c.repo, some("repo"));
    }
}

#[test]
fn test_extract_unknown_host() {
    // Any other host leaves owner and repo empty however many segments the
    // path has.
    let url = parse_url("https://codeberg.org/owner/repo.git").unwrap();
    let c = extract(&url);
    assert_eq!(
        c,
        UrlComponents {
            host: some("codeberg.org"),
            path: some("owner/repo.git"),
            owner: None,
            repo: None,
        }
    );
}

#[test]
fn test_extract_too_few_segments() {
    let c = components_from(some("github.com"), Some(vec!["only".to_string()]));
    assert_eq!(c.owner, None);
    assert_eq!(c.repo, None);
    assert_eq!(c.path, some("only"));
}

#[test]
fn test_extract_no_segments_at_all() {
    let c = components_from(some("example.com"), None);
    assert_eq!(
        c,
        UrlComponents {
            host: some("example.com"),
            path: None,
            owner: None,
            repo: None,
        }
    );
}

#[test]
fn test_extract_repo_without_git_suffix() {
    let c = components_from(
        some("gitlab.com"),
        Some(vec!["a".to_string(), "b".to_string(), "c".to_string()]),
    );
    assert_eq!(c.path, some("a/b/c"));
    assert_eq!(c.owner, some("a"));
    // No ".git" to strip; and the third segment plays no part.
    assert_eq!(c.repo, some("b"));
}

#[test]
fn test_extract_hostless_url() {
    let url = parse_url("unix:/run/foo.socket").unwrap();
    let c = extract(&url);
    assert_eq!(c.host, None);
    assert_eq!(c.owner, None);
    assert_eq!(c.repo, None);
}
