//! Derives the semantic components of a canonical URL: its host, its path
//! segments joined by `/`, and — on a fixed allow-list of hosts whose first
//! two segments are owner and repository — the owner and the repository name
//! with a trailing `.git` stripped.

use vstd::prelude::*;
use vstd::string::StrSliceExecFns;

use crate::chars::str_eq;
use crate::urls::{host_of, path_segments_of, url_host, url_segments, ResolvedUrl};

verus! {

/// The components derived from one URL. Absent data yields `None`; `path`
/// holds every segment joined by `/`, with no per-segment `.git` stripping;
/// `repo` has a trailing `.git` stripped.
#[derive(PartialEq, Clone, Debug)]
pub struct UrlComponents {
    pub host: Option<String>,
    pub path: Option<String>,
    pub owner: Option<String>,
    pub repo: Option<String>,
}

/// Mathematical model of `UrlComponents`.
#[verifier::ext_equal]
pub struct ComponentsToken {
    pub host: Option<Seq<char>>,
    pub path: Option<Seq<char>>,
    pub owner: Option<Seq<char>>,
    pub repo: Option<Seq<char>>,
}

/// The characters of an optional string.
pub open spec fn opt_view(o: Option<String>) -> Option<Seq<char>> {
    match o {
        Some(s) => Some(s@),
        None => None,
    }
}

/// The characters of each string in a sequence.
pub open spec fn seq_views(v: Seq<String>) -> Seq<Seq<char>> {
    v.map_values(|s: String| s@)
}

/// The characters of each string in an optional list.
pub open spec fn opt_seq_views(o: Option<Vec<String>>) -> Option<Seq<Seq<char>>> {
    match o {
        Some(v) => Some(seq_views(v@)),
        None => None,
    }
}

impl View for UrlComponents {
    type V = ComponentsToken;

    open spec fn view(&self) -> ComponentsToken {
        ComponentsToken {
            host: opt_view(self.host),
            path: opt_view(self.path),
            owner: opt_view(self.owner),
            repo: opt_view(self.repo),
        }
    }
}

/// The hosts whose first two path segments are taken as owner and
/// repository.
pub open spec fn known_host(h: Seq<char>) -> bool {
    h == "github.com"@ || h == "gitlab.com"@ || h == "bitbucket.org"@ || h == "git.sr.ht"@
}

/// Runtime test for `known_host`.
pub fn is_known_host(h: &str) -> (r: bool)
    ensures
        r == known_host(h@),
{
    str_eq(h, "github.com") || str_eq(h, "gitlab.com") || str_eq(h, "bitbucket.org") || str_eq(
        h,
        "git.sr.ht",
    )
}

/// The segments joined by `/`: empty when there is none, with no leading or
/// trailing separator added.
pub open spec fn join_segments(segs: Seq<Seq<char>>) -> Seq<char>
    decreases segs.len(),
{
    if segs.len() == 0 {
        Seq::empty()
    } else if segs.len() == 1 {
        segs[0]
    } else {
        join_segments(segs.drop_last()) + seq!['/'] + segs.last()
    }
}

/// `s` with a trailing `.git` removed, when it carries one.
pub open spec fn strip_git(s: Seq<char>) -> Seq<char> {
    if s.len() >= 4 && s.subrange(s.len() - 4, s.len() as int) == ".git"@ {
        s.subrange(0, s.len() - 4)
    } else {
        s
    }
}

/// Runtime `strip_git`.
pub fn strip_git_suffix(s: &str) -> (r: String)
    ensures
        r@ == strip_git(s@),
{
    let n = s.unicode_len();
    if n >= 4 && str_eq(s.substring_char(n - 4, n), ".git") {
        s.substring_char(0, n - 4).to_owned()
    } else {
        s.to_owned()
    }
}

/// What the extractor yields for a URL with the given host and path
/// segments: the host as-is, the segments joined by `/`, and owner and
/// repository only for a known host with at least two segments.
pub open spec fn components_spec(host: Option<Seq<char>>, segs: Option<Seq<Seq<char>>>) -> ComponentsToken {
    ComponentsToken {
        host: host,
        path: match segs {
            Some(ss) => Some(join_segments(ss)),
            None => None,
        },
        owner: match (host, segs) {
            (Some(h), Some(ss)) => if known_host(h) && ss.len() >= 2 {
                Some(ss[0])
            } else {
                None
            },
            _ => None,
        },
        repo: match (host, segs) {
            (Some(h), Some(ss)) => if known_host(h) && ss.len() >= 2 {
                Some(strip_git(ss[1]))
            } else {
                None
            },
            _ => None,
        },
    }
}

/// Joins path segments with `/`.
fn join_with_slash(segs: &Vec<String>) -> (r: String)
    ensures
        r@ == join_segments(seq_views(segs@)),
{
    let ghost views = seq_views(segs@);
    let mut out = String::new();
    let n = segs.len();
    if n == 0 {
        proof {
            assert(out@ =~= join_segments(views));
        }
        return out;
    }
    out.append(segs[0].as_str());
    let mut i: usize = 1;
    proof {
        assert(views.subrange(0, 1)[0] == segs@[0]@);
        assert(out@ =~= join_segments(views.subrange(0, 1)));
    }
    while i < n
        invariant
            1 <= i <= n,
            n == segs@.len(),
            views == seq_views(segs@),
            out@ == join_segments(views.subrange(0, i as int)),
        decreases n - i,
    {
        crate::chars::push_char(&mut out, '/');
        out.append(segs[i].as_str());
        proof {
            let prefix = views.subrange(0, i + 1);
            assert(prefix.drop_last() =~= views.subrange(0, i as int));
            assert(prefix.last() == segs@[i as int]@);
            assert(out@ =~= join_segments(prefix));
        }
        i += 1;
    }
    proof {
        assert(views.subrange(0, n as int) =~= views);
    }
    out
}

/// Builds the components from plain values: the host, if any, and the path
/// segments, if the URL has a path at all.
pub fn components_from(host: Option<String>, segments: Option<Vec<String>>) -> (c: UrlComponents)
    ensures
        c@ == components_spec(opt_view(host), opt_seq_views(segments)),
{
    let (path, owner, repo): (Option<String>, Option<String>, Option<String>) = match &segments {
        None => (None, None, None),
        Some(ss) => {
            let joined = join_with_slash(ss);
            let known = match &host {
                Some(h) => is_known_host(h.as_str()),
                None => false,
            };
            if known && ss.len() >= 2 {
                let owner = ss[0].clone();
                let repo = strip_git_suffix(ss[1].as_str());
                proof {
                    assert(seq_views(ss@)[0] == ss@[0]@);
                    assert(seq_views(ss@)[1] == ss@[1]@);
                }
                (Some(joined), Some(owner), Some(repo))
            } else {
                (Some(joined), None, None)
            }
        },
    };
    let c = UrlComponents { host, path, owner, repo };
    proof {
        assert(c@ =~= components_spec(opt_view(c.host), opt_seq_views(segments)));
    }
    c
}

/// Derives the components of a canonical URL. Total: a URL without a host or
/// without path segments yields `None` in those fields.
pub fn extract(url: &ResolvedUrl) -> (c: UrlComponents)
    ensures
        c@ == components_spec(url_host(url.input()), url_segments(url.input())),
{
    let host = host_of(url);
    let segments = path_segments_of(url);
    components_from(host, segments)
}

/// Known-host extraction: on an allow-listed host with at least two path
/// segments, `owner` is the first segment and `repo` the second with a
/// trailing `.git` stripped.
pub proof fn lemma_known_host_extraction(host: Seq<char>, segs: Seq<Seq<char>>)
    requires
        known_host(host),
        segs.len() >= 2,
    ensures
        components_spec(Some(host), Some(segs)).owner == Some(segs[0]),
        components_spec(Some(host), Some(segs)).repo == Some(strip_git(segs[1])),
{
}

/// Unknown-host fallback: for a host outside the allow-list, `owner` and
/// `repo` are absent however many segments the path has.
pub proof fn lemma_unknown_host_fallback(host: Seq<char>, segs: Option<Seq<Seq<char>>>)
    requires
        !known_host(host),
    ensures
        components_spec(Some(host), segs).owner is None,
        components_spec(Some(host), segs).repo is None,
{
}

} // verus!
