use git_grab::extract::{extract, UrlComponents};
use git_grab::grab::{parse_url, resolve_destination};
use git_grab::pattern::GrabPattern;
use git_grab::render::render;

fn some(s: &str) -> Option<String> {
    Some(s.to_string())
}

fn empty_components() -> UrlComponents {
    UrlComponents {
        host: None,
        path: None,
        owner: None,
        repo: None,
    }
}

fn full_components() -> UrlComponents {
    UrlComponents {
        host: some("github.com"),
        path: some("wezm/git-grab"),
        owner: some("wezm"),
        repo: some("git-grab"),
    }
}

#[test]
fn test_escaped_placeholder_renders_literally() {
    // The escape `{{owner}}` yields the literal text `{owner}` whatever the
    // components hold.
    let pattern = GrabPattern::try_parse("{{owner}}").unwrap();
    assert_eq!(render(&pattern, None, &empty_components()), "{owner}");
    assert_eq!(
        render(&pattern, Some("/home/u"), &full_components()),
        "{owner}"
    );
}

#[test]
fn test_absent_placeholder_suppresses_slashes() {
    // Both slash markers vanish with the absent value.
    let pattern = GrabPattern::try_parse("x{/owner/}y").unwrap();
    assert_eq!(render(&pattern, None, &empty_components()), "xy");
    assert_eq!(
        render(&pattern, None, &full_components()),
        "x/wezm/y"
    );
}

#[test]
fn test_empty_string_value_keeps_slashes() {
    // An empty string is present, so its markers are emitted.
    let mut c = empty_components();
    c.owner = some("");
    let pattern = GrabPattern::try_parse("x{/owner/}y").unwrap();
    assert_eq!(render(&pattern, None, &c), "x//y");
}

#[test]
fn test_round_trip_slash_example() {
    let pattern = GrabPattern::try_parse("/src/{host/}{owner/}{repo}").unwrap();
    let url = parse_url("https://github.com/influxdata/influxdb2-sample-data.git").unwrap();
    let components = extract(&url);
    assert_eq!(
        render(&pattern, None, &components),
        "/src/github.com/influxdata/influxdb2-sample-data"
    );
}

#[test]
fn test_tilde_expansion_with_home() {
    let pattern = GrabPattern::try_parse("~/src/{repo}").unwrap();
    let mut c = empty_components();
    c.repo = some("grab");
    assert_eq!(render(&pattern, Some("/home/u"), &c), "/home/u/src/grab");
}

#[test]
fn test_tilde_without_home_is_kept() {
    let pattern = GrabPattern::try_parse("~/src/{repo}").unwrap();
    let mut c = empty_components();
    c.repo = some("grab");
    assert_eq!(render(&pattern, None, &c), "~/src/grab");
}

#[test]
fn test_tilde_later_in_pattern_is_untouched() {
    // Only a leading `~` of the very first literal is expanded.
    let pattern = GrabPattern::try_parse("/test/~/{repo}").unwrap();
    let mut c = empty_components();
    c.repo = some("grab");
    assert_eq!(render(&pattern, Some("/home/u"), &c), "/test/~/grab");
}

#[test]
fn test_tilde_midway_in_first_literal_is_untouched() {
    let pattern = GrabPattern::try_parse("/x~y/{repo}").unwrap();
    let mut c = empty_components();
    c.repo = some("grab");
    assert_eq!(render(&pattern, Some("/home/u"), &c), "/x~y/grab");
}

#[test]
fn test_render_trims_final_git_extension() {
    let pattern = GrabPattern::try_parse("/src/{host/}{path}").unwrap();
    let url = parse_url("git://c9x.me/qbe.git").unwrap();
    let components = extract(&url);
    assert_eq!(render(&pattern, None, &components), "/src/c9x.me/qbe");
}

#[test]
fn test_render_keeps_inner_dots() {
    // Only a final `git` extension is trimmed; other extensions stay.
    let mut c = empty_components();
    c.repo = some("data.tar");
    let pattern = GrabPattern::try_parse("/src/{repo}").unwrap();
    assert_eq!(render(&pattern, None, &c), "/src/data.tar");
}

#[test]
fn test_render_hidden_git_name_is_kept() {
    // A file name that is exactly ".git" has no extension to trim.
    let mut c = empty_components();
    c.repo = some(".git");
    let pattern = GrabPattern::try_parse("/src/{repo}").unwrap();
    assert_eq!(render(&pattern, None, &c), "/src/.git");
}

#[test]
fn test_default_pattern_render() {
    let pattern = GrabPattern::default();
    let url = parse_url("github.com/wezm/git-grab").unwrap();
    let components = extract(&url);
    assert_eq!(
        render(&pattern, Some("/home/u"), &components),
        "/home/u/src/github.com/wezm/git-grab/"
    );
}

#[test]
fn test_resolve_destination_end_to_end() {
    let pattern = GrabPattern::try_parse("~/src/{host/}{owner/}{repo}").unwrap();
    let (canon, dest) = resolve_destination(
        &pattern,
        Some("/home/u"),
        "git@github.com:wezm/git-grab.git",
    )
    .unwrap();
    assert_eq!(canon, "ssh://git@github.com/wezm/git-grab.git");
    assert_eq!(dest, "/home/u/src/github.com/wezm/git-grab");
}
