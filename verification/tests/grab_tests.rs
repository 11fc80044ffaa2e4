use git_grab::grab::{
    clone_path, looks_like_ssh_url, normalise_ssh_url, parse_url, split_once, UrlError,
};

#[test]
fn test_looks_like_ssh_url() {
    // true
    assert!(looks_like_ssh_url("git@github.com:wezm/grab.git"));
    assert!(looks_like_ssh_url("git@github.com:2222:wezm/grab.git"));

    // false
    assert!(!looks_like_ssh_url("https://github.com/wezm/grab.git"));
}

#[test]
fn test_normalise_ssh_url() {
    assert_eq!(
        normalise_ssh_url("git@github.com:wezm/grab.git").unwrap(),
        "ssh://git@github.com/wezm/grab.git"
    );
    assert_eq!(
        normalise_ssh_url("git@github.com:2222:wezm/grab.git").unwrap(),
        "ssh://git@github.com:2222/wezm/grab.git"
    );

    assert!(normalise_ssh_url("github.com/wezm/grab.git").is_none());
}

#[test]
fn test_split_once() {
    assert_eq!(split_once("a:b", ':'), Some(("a", "b")));
    assert_eq!(split_once(":b", ':'), Some(("", "b")));
    assert_eq!(split_once("a:", ':'), Some(("a", "")));
    assert_eq!(split_once(":", ':'), Some(("", "")));
    assert_eq!(split_once("abc", ':'), None);
    assert_eq!(split_once("", ':'), None);
}

#[test]
fn test_clone_path() {
    let home = "/src";
    [
        (
            "https://github.com/influxdata/influxdb2-sample-data.git",
            "/src/github.com/influxdata/influxdb2-sample-data",
        ),
        (
            "https://github.com/influxdata/influxdb2-sample-data",
            "/src/github.com/influxdata/influxdb2-sample-data",
        ),
        ("github.com/zesterer/tao", "/src/github.com/zesterer/tao"),
        (
            "github.com/denoland/deno/",
            "/src/github.com/denoland/deno/",
        ),
        (
            "git@github.com:wezm/git-grab.git",
            "/src/github.com/wezm/git-grab",
        ),
        ("git.sr.ht/~wezm/lobsters", "/src/git.sr.ht/~wezm/lobsters"),
        (
            "git@git.sr.ht:~wezm/lobsters",
            "/src/git.sr.ht/~wezm/lobsters",
        ),
        (
            "bitbucket.org/egrange/dwscript",
            "/src/bitbucket.org/egrange/dwscript",
        ),
        ("git://c9x.me/qbe.git", "/src/c9x.me/qbe"),
    ]
    .iter()
    .for_each(|(url, expected)| {
        assert_eq!(
            clone_path(home, &parse_url(url).unwrap()).unwrap(),
            expected.to_string()
        )
    });
}

#[test]
fn test_normalize_ssh_shorthand_end_to_end() {
    let url = parse_url("git@github.com:wezm/git-grab.git").unwrap();
    assert_eq!(url.as_string(), "ssh://git@github.com/wezm/git-grab.git");

    let url = parse_url("git@github.com:2222:wezm/grab.git").unwrap();
    assert_eq!(url.as_string(), "ssh://git@github.com:2222/wezm/grab.git");

    // No `@` before the colon: not SSH shorthand, so the scheme-less path
    // applies instead.
    let url = parse_url("github.com/wezm/grab.git").unwrap();
    assert_eq!(url.as_string(), "https://github.com/wezm/grab.git");
}

#[test]
fn test_parse_url_keeps_absolute_urls() {
    let url = parse_url("https://github.com/wezm/git-grab.git").unwrap();
    assert_eq!(url.as_string(), "https://github.com/wezm/git-grab.git");
}

#[test]
fn test_parse_url_ambiguous_ssh_shorthand() {
    // Three colons fit neither SSH shape.
    match parse_url("git@github.com:1:2:3") {
        Err(UrlError::Unnormalisable(input)) => assert_eq!(input, "git@github.com:1:2:3"),
        Err(other) => panic!("wrong error: {:?}", other),
        Ok(_) => panic!("expected an error"),
    }
}

#[test]
fn test_parse_url_hopeless_input() {
    // No scheme, no SSH shorthand, not even a dot.
    match parse_url("nonsense") {
        Err(UrlError::Parse(input, message)) => {
            assert_eq!(input, "nonsense");
            assert_eq!(message, "relative URL without a base");
        }
        Err(other) => panic!("wrong error: {:?}", other),
        Ok(_) => panic!("expected an error"),
    }
}

#[test]
fn test_parse_url_parser_diagnostic() {
    // An outright invalid URL surfaces the parser's own words.
    match parse_url("https://exa mple.com/x") {
        Err(UrlError::Parse(input, message)) => {
            assert_eq!(input, "https://exa mple.com/x");
            assert!(!message.is_empty());
        }
        Err(other) => panic!("wrong error: {:?}", other),
        Ok(_) => panic!("expected an error"),
    }
}

#[test]
fn test_clone_path_missing_host() {
    let url = parse_url("mailto:someone@example.com").unwrap();
    assert_eq!(clone_path("/src", &url), Err(UrlError::MissingHost));
}

#[test]
fn test_clone_path_missing_path() {
    // A non-special scheme with a host but an empty path has no segments.
    let url = parse_url("foo://example.com").unwrap();
    assert_eq!(clone_path("/src", &url), Err(UrlError::MissingPath));
}
