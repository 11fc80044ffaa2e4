//! The URL normalizer and the destination-path builder. Loosely-formed input
//! is turned into a canonical absolute URL: SSH shorthand such as
//! `git@host:owner/repo.git` is rewritten to an `ssh://` URL, a scheme-less
//! host such as `github.com/owner/repo` gets `https://` prepended, and
//! anything else fails with the parser's own diagnostic attributed to the
//! input.

use vstd::prelude::*;
use vstd::string::StrSliceExecFns;
use vstd::string::StringExecFns;

use crate::chars::{
    contains_char, count_char, find_first, find_last, first_index_of, last_index_of,
    lemma_first_index_of, lemma_last_index_of, push_char,
};
use crate::extract::{components_spec, extract};
use crate::pattern::GrabPattern;
use crate::render::{opt_str_view, render, rendered_path, trim_git_path};
use crate::urls::{
    host_of, parse_absolute, parse_error_message, path_segments_of, url_host, url_no_scheme,
    url_parses, url_segments, url_serialization, ParseAttempt, ResolvedUrl,
};

verus! {

/// Why an input could not be turned into a canonical URL, or a URL could not
/// be turned into a destination path.
#[derive(PartialEq, Clone, Debug)]
pub enum UrlError {
    /// SSH-looking shorthand whose colons fit no known shape. Holds the
    /// input.
    Unnormalisable(String),
    /// The URL parser rejected the input. Holds the input and the parser's
    /// diagnostic.
    Parse(String, String),
    /// The URL has no host to build a path under.
    MissingHost,
    /// The URL has no path segments to build a path from.
    MissingPath,
}

/// Whether the input looks like SSH shorthand: there is a colon, and an `@`
/// somewhere before the first one.
pub open spec fn looks_like_ssh(s: Seq<char>) -> bool {
    match first_index_of(s, ':') {
        Some(i) => contains_char(s.subrange(0, i), '@'),
        None => false,
    }
}

/// The SSH rewrite: `ssh://` ahead of the input, with the last colon turned
/// into a `/`. With one colon that maps `user@host:ownerpath` to
/// `ssh://user@host/ownerpath`; with two, `user@host:port:ownerpath` to
/// `ssh://user@host:port/ownerpath`.
pub open spec fn ssh_rewrite(s: Seq<char>) -> Seq<char> {
    match last_index_of(s, ':') {
        Some(k) => "ssh://"@ + s.subrange(0, k) + seq!['/'] + s.subrange(k + 1, s.len() as int),
        None => s,
    }
}

/// The input with `https://` prepended.
pub open spec fn https_prefixed(s: Seq<char>) -> Seq<char> {
    "https://"@ + s
}

/// The canonical URL string the normalizer settles on, if any: the input
/// itself when it parses; on the scheme-less failure, the SSH rewrite when
/// the input looks like SSH shorthand with one or two colons, or the
/// `https://` form when the input at least holds a dot — each provided the
/// repaired string parses; nothing otherwise.
pub open spec fn normal_form(s: Seq<char>) -> Option<Seq<char>> {
    if url_parses(s) {
        Some(s)
    } else if url_no_scheme(s) {
        if looks_like_ssh(s) {
            if (count_char(s, ':') == 1 || count_char(s, ':') == 2) && url_parses(ssh_rewrite(s)) {
                Some(ssh_rewrite(s))
            } else {
                None
            }
        } else if contains_char(s, '.') {
            if url_parses(https_prefixed(s)) {
                Some(https_prefixed(s))
            } else {
                None
            }
        } else {
            None
        }
    } else {
        None
    }
}

/// SSH-looking shorthand that no colon count fits: the one failure reported
/// as `Unnormalisable` rather than through the parser.
pub open spec fn ambiguous_ssh_shorthand(s: Seq<char>) -> bool {
    !url_parses(s) && url_no_scheme(s) && looks_like_ssh(s) && count_char(s, ':') != 1
        && count_char(s, ':') != 2
}

/// Splits at the first occurrence of `pat`, the occurrence itself dropped.
pub fn split_once<'a>(s: &'a str, pat: char) -> (r: Option<(&'a str, &'a str)>)
    ensures
        match r {
            Some(parts) => first_index_of(s@, pat) matches Some(i) && parts.0@ == s@.subrange(
                0,
                i,
            ) && parts.1@ == s@.subrange(i + 1, s@.len() as int),
            None => first_index_of(s@, pat) is None,
        },
{
    proof {
        lemma_first_index_of(s@, pat);
    }
    match find_first(s, pat) {
        Some(i) => {
            let n = s.unicode_len();
            let before = s.substring_char(0, i);
            let after = s.substring_char(i + 1, n);
            Some((before, after))
        },
        None => None,
    }
}

/// Whether the input looks like SSH shorthand: an `@` before the first
/// colon.
pub fn looks_like_ssh_url(url: &str) -> (r: bool)
    ensures
        r == looks_like_ssh(url@),
{
    match split_once(url, ':') {
        Some(parts) => {
            let (before, _after) = parts;
            proof {
                lemma_first_index_of(before@, '@');
            }
            find_first(before, '@').is_some()
        },
        None => false,
    }
}

/// `count_char` positive means the character occurs.
proof fn lemma_count_char_positive(s: Seq<char>, c: char)
    requires
        count_char(s, c) > 0,
    ensures
        contains_char(s, c),
    decreases s.len(),
{
    if s.len() > 0 {
        if s.last() == c {
            assert(s[s.len() - 1] == c);
        } else {
            lemma_count_char_positive(s.drop_last(), c);
            let i = choose|i: int| 0 <= i < s.len() - 1 && s.drop_last()[i] == c;
            assert(s[i] == c);
        }
    }
}

/// Rewrites SSH shorthand to an `ssh://` URL: defined exactly for an input
/// with one or two colons, refused for any other colon count.
pub fn normalise_ssh_url(url: &str) -> (r: Option<String>)
    ensures
        match r {
            Some(t) => (count_char(url@, ':') == 1 || count_char(url@, ':') == 2) && t@
                == ssh_rewrite(url@),
            None => count_char(url@, ':') != 1 && count_char(url@, ':') != 2,
        },
{
    let colons = crate::chars::count_occurrences(url, ':');
    if colons == 1 || colons == 2 {
        proof {
            lemma_count_char_positive(url@, ':');
            lemma_last_index_of(url@, ':');
        }
        let n = url.unicode_len();
        match find_last(url, ':') {
            Some(k) => {
                let mut out = String::from_str("ssh://");
                out.append(url.substring_char(0, k));
                push_char(&mut out, '/');
                out.append(url.substring_char(k + 1, n));
                proof {
                    assert(out@ =~= ssh_rewrite(url@));
                }
                Some(out)
            },
            None => {
                proof {
                    assert(false);
                }
                None
            },
        }
    } else {
        None
    }
}

/// Normalizes raw input to a canonical absolute URL: a parseable input is
/// taken as it stands; on the scheme-less failure, SSH shorthand is
/// rewritten and a dotted bare host gets `https://`; everything else fails,
/// attributed to the input.
pub fn parse_url(url: &str) -> (r: Result<ResolvedUrl, UrlError>)
    ensures
        match r {
            Ok(u) => normal_form(url@) == Some(u.input()),
            Err(e) => normal_form(url@) is None && match e {
                UrlError::Unnormalisable(i) => i@ == url@ && ambiguous_ssh_shorthand(url@),
                UrlError::Parse(i, _) => i@ == url@ && !ambiguous_ssh_shorthand(url@),
                _ => false,
            },
        },
{
    match parse_absolute(url) {
        ParseAttempt::Parsed(u) => Ok(u),
        ParseAttempt::Failed(e) => Err(
            UrlError::Parse(url.to_owned(), parse_error_message(&e)),
        ),
        ParseAttempt::NoScheme(e) => {
            if looks_like_ssh_url(url) {
                match normalise_ssh_url(url) {
                    Some(rewritten) => match parse_absolute(rewritten.as_str()) {
                        ParseAttempt::Parsed(u) => Ok(u),
                        ParseAttempt::Failed(e2) => Err(
                            UrlError::Parse(url.to_owned(), parse_error_message(&e2)),
                        ),
                        ParseAttempt::NoScheme(e2) => Err(
                            UrlError::Parse(url.to_owned(), parse_error_message(&e2)),
                        ),
                    },
                    None => Err(UrlError::Unnormalisable(url.to_owned())),
                }
            } else {
                proof {
                    lemma_first_index_of(url@, '.');
                }
                match find_first(url, '.') {
                    Some(_) => {
                        let mut prefixed = String::from_str("https://");
                        prefixed.append(url);
                        proof {
                            assert(prefixed@ =~= https_prefixed(url@));
                        }
                        match parse_absolute(prefixed.as_str()) {
                            ParseAttempt::Parsed(u) => Ok(u),
                            ParseAttempt::Failed(e2) => Err(
                                UrlError::Parse(url.to_owned(), parse_error_message(&e2)),
                            ),
                            ParseAttempt::NoScheme(e2) => Err(
                                UrlError::Parse(url.to_owned(), parse_error_message(&e2)),
                            ),
                        }
                    },
                    None => Err(UrlError::Parse(url.to_owned(), parse_error_message(&e))),
                }
            }
        },
    }
}

/// Path segments appended to a base, each behind one `/`.
pub open spec fn slash_join(segs: Seq<Seq<char>>) -> Seq<char>
    decreases segs.len(),
{
    if segs.len() == 0 {
        Seq::empty()
    } else {
        slash_join(segs.drop_last()) + seq!['/'] + segs.last()
    }
}

/// The destination a URL is cloned to under `home`: the host, then every
/// path segment, each behind a `/`, with a final `git` extension trimmed.
pub open spec fn clone_destination(home: Seq<char>, host: Seq<char>, segs: Seq<Seq<char>>) -> Seq<
    char,
> {
    crate::render::trim_git_extension(home + seq!['/'] + host + slash_join(segs))
}

/// Builds the destination path for a canonical URL under the directory
/// `home`: `home/host/segments...`, with a final `git` extension trimmed.
/// Fails exactly when the URL carries no host, or no path segments.
pub fn clone_path(home: &str, url: &ResolvedUrl) -> (r: Result<String, UrlError>)
    ensures
        match r {
            Ok(p) => url_host(url.input()) matches Some(h) && url_segments(
                url.input(),
            ) matches Some(ss) && p@ == clone_destination(home@, h, ss),
            Err(e) => match e {
                UrlError::MissingHost => url_host(url.input()) is None,
                UrlError::MissingPath => url_host(url.input()) is Some && url_segments(
                    url.input(),
                ) is None,
                _ => false,
            },
        },
{
    let host = match host_of(url) {
        Some(h) => h,
        None => {
            return Err(UrlError::MissingHost);
        },
    };
    let segs = match path_segments_of(url) {
        Some(ss) => ss,
        None => {
            return Err(UrlError::MissingPath);
        },
    };
    let ghost seg_views = crate::extract::seq_views(segs@);
    let mut out = home.to_owned();
    push_char(&mut out, '/');
    out.append(host.as_str());
    proof {
        assert(slash_join(seg_views.subrange(0, 0)) =~= Seq::<char>::empty());
        assert(out@ =~= home@ + seq!['/'] + host@ + slash_join(seg_views.subrange(0, 0)));
    }
    let n = segs.len();
    let mut i: usize = 0;
    while i < n
        invariant
            i <= n,
            n == segs@.len(),
            seg_views == crate::extract::seq_views(segs@),
            out@ == home@ + seq!['/'] + host@ + slash_join(seg_views.subrange(0, i as int)),
        decreases n - i,
    {
        push_char(&mut out, '/');
        out.append(segs[i].as_str());
        proof {
            let prefix = seg_views.subrange(0, i + 1);
            assert(prefix.drop_last() =~= seg_views.subrange(0, i as int));
            assert(prefix.last() == segs@[i as int]@);
            assert(out@ =~= home@ + seq!['/'] + host@ + slash_join(prefix));
        }
        i += 1;
    }
    proof {
        assert(seg_views.subrange(0, n as int) =~= seg_views);
    }
    Ok(trim_git_path(out.as_str()))
}

/// Resolves one raw input end to end — normalize, extract, render — to the
/// canonical URL string and the destination path the repository is cloned
/// to. Fails exactly as the normalizer does; extraction and rendering are
/// total.
pub fn resolve_destination(pattern: &GrabPattern, home: Option<&str>, raw: &str) -> (r: Result<
    (String, String),
    UrlError,
>)
    ensures
        match r {
            Ok(pair) => normal_form(raw@) matches Some(canon) && pair.0@ == url_serialization(
                canon,
            ) && pair.1@ == rendered_path(
                pattern@,
                opt_str_view(home),
                components_spec(url_host(canon), url_segments(canon)),
            ),
            Err(e) => normal_form(raw@) is None && match e {
                UrlError::Unnormalisable(i) => i@ == raw@ && ambiguous_ssh_shorthand(raw@),
                UrlError::Parse(i, _) => i@ == raw@ && !ambiguous_ssh_shorthand(raw@),
                _ => false,
            },
        },
{
    let url = match parse_url(raw) {
        Ok(u) => u,
        Err(e) => {
            return Err(e);
        },
    };
    let components = extract(&url);
    let dest = render(pattern, home, &components);
    Ok((url.as_string(), dest))
}

} // verus!
