//! Walks a compiled pattern and substitutes the resolved URL components and
//! the home directory. A placeholder that resolves to nothing emits nothing,
//! its slash markers included; a leading `~` in the pattern's very first
//! literal is replaced by the home directory, when one is given; and a final
//! `git` extension of the whole path is trimmed off defensively.

use vstd::prelude::*;
use vstd::string::StrSliceExecFns;
use vstd::string::StringExecFns;

use crate::chars::{last_index_of, lemma_last_index_of, push_char, str_eq};
use crate::extract::{ComponentsToken, UrlComponents};
use crate::pattern::{
    parse_pattern, scan, GrabPattern, GrabPatternComponent, GrabPatternPlaceholder, PatternToken,
    ScanMode,
};

verus! {

/// The characters of an optional string slice.
pub open spec fn opt_str_view(h: Option<&str>) -> Option<Seq<char>> {
    match h {
        Some(s) => Some(s@),
        None => None,
    }
}

/// The value a placeholder stands for, when the URL (or the configuration)
/// supplied one.
pub open spec fn resolve_placeholder(
    p: GrabPatternPlaceholder,
    home: Option<Seq<char>>,
    c: ComponentsToken,
) -> Option<Seq<char>> {
    match p {
        GrabPatternPlaceholder::Home => home,
        GrabPatternPlaceholder::Host => c.host,
        GrabPatternPlaceholder::Path => c.path,
        GrabPatternPlaceholder::Owner => c.owner,
        GrabPatternPlaceholder::Repo => c.repo,
    }
}

/// What one component contributes to the rendered path: literal text
/// verbatim; a resolved placeholder between its slash markers; nothing at
/// all — markers included — for a placeholder whose value is absent.
pub open spec fn emit_token(t: PatternToken, home: Option<Seq<char>>, c: ComponentsToken) -> Seq<
    char,
> {
    match t {
        PatternToken::Literal(txt) => txt,
        PatternToken::Placeholder { placeholder, leading_slash, trailing_slash } => {
            match resolve_placeholder(placeholder, home, c) {
                None => Seq::empty(),
                Some(v) => {
                    let lead: Seq<char> = if leading_slash {
                        seq!['/']
                    } else {
                        Seq::empty()
                    };
                    let trail: Seq<char> = if trailing_slash {
                        seq!['/']
                    } else {
                        Seq::empty()
                    };
                    lead + v + trail
                },
            }
        },
    }
}

/// The components' contributions, concatenated in order.
pub open spec fn emit_all(toks: Seq<PatternToken>, home: Option<Seq<char>>, c: ComponentsToken) -> Seq<
    char,
>
    decreases toks.len(),
{
    if toks.len() == 0 {
        Seq::empty()
    } else {
        emit_all(toks.drop_last(), home, c) + emit_token(toks.last(), home, c)
    }
}

/// The pattern with a leading `~` of its very first literal replaced by the
/// home directory: only that one character is consumed, only when a home is
/// given, and no other component is touched.
pub open spec fn expand_tilde(toks: Seq<PatternToken>, home: Option<Seq<char>>) -> Seq<
    PatternToken,
> {
    match home {
        None => toks,
        Some(h) => if toks.len() > 0 {
            match toks[0] {
                PatternToken::Literal(t) => if t.len() > 0 && t[0] == '~' {
                    toks.update(0, PatternToken::Literal(h + t.drop_first()))
                } else {
                    toks
                },
                _ => toks,
            }
        } else {
            toks
        },
    }
}

/// `s` with trailing `/` runs removed, as the path's file name is found.
pub open spec fn strip_trailing_slashes(s: Seq<char>) -> Seq<char>
    decreases s.len(),
{
    if s.len() > 0 && s.last() == '/' {
        strip_trailing_slashes(s.drop_last())
    } else {
        s
    }
}

/// Where the final `git` extension of the path begins (the index of its dot
/// within the slash-stripped text), if the path carries one: the file name —
/// the part after the last `/`, trailing slashes ignored — must hold a dot
/// after its first character, with exactly `git` behind the last one.
pub open spec fn git_cut_point(s: Seq<char>) -> Option<int> {
    let t = strip_trailing_slashes(s);
    let name_start: int = match last_index_of(t, '/') {
        Some(i) => i + 1,
        None => 0,
    };
    let name = t.subrange(name_start, t.len() as int);
    match last_index_of(name, '.') {
        Some(d) => if d > 0 && name.subrange(d + 1, name.len() as int) == "git"@ {
            Some(name_start + d)
        } else {
            None
        },
        None => None,
    }
}

/// `s` with a final `git` extension trimmed off; without one, `s` unchanged,
/// trailing slashes and all.
pub open spec fn trim_git_extension(s: Seq<char>) -> Seq<char> {
    match git_cut_point(s) {
        Some(cut) => strip_trailing_slashes(s).subrange(0, cut),
        None => s,
    }
}

/// The rendered path: tilde expansion, then every component's contribution
/// in order, then the defensive extension trim.
pub open spec fn rendered_path(
    toks: Seq<PatternToken>,
    home: Option<Seq<char>>,
    c: ComponentsToken,
) -> Seq<char> {
    trim_git_extension(emit_all(expand_tilde(toks, home), home, c))
}

/// Trims a final `git` extension off a rendered path.
pub fn trim_git_path(s: &str) -> (r: String)
    ensures
        r@ == trim_git_extension(s@),
{
    let n = s.unicode_len();

    // Drop trailing slashes to find the file name.
    let mut j: usize = n;
    proof {
        assert(s@.subrange(0, n as int) =~= s@);
    }
    while j > 0 && s.get_char(j - 1) == '/'
        invariant
            j <= n,
            n == s@.len(),
            strip_trailing_slashes(s@) == strip_trailing_slashes(s@.subrange(0, j as int)),
        decreases j,
    {
        proof {
            let pre = s@.subrange(0, j as int);
            assert(pre.last() == s@[j - 1]);
            assert(pre.drop_last() =~= s@.subrange(0, j - 1));
        }
        j -= 1;
    }
    proof {
        assert(s@.subrange(0, n as int) =~= s@);
        let pre = s@.subrange(0, j as int);
        if j > 0 {
            assert(pre.last() == s@[j - 1]);
        }
        assert(strip_trailing_slashes(s@) == pre);
    }
    let t = s.substring_char(0, j);
    let ghost tv = strip_trailing_slashes(s@);

    proof {
        lemma_last_index_of(t@, '/');
    }
    let name_start: usize = match crate::chars::find_last(t, '/') {
        Some(i) => i + 1,
        None => 0,
    };
    proof {
        assert(name_start <= j);
    }
    let name = t.substring_char(name_start, j);
    proof {
        assert(name@ =~= tv.subrange(name_start as int, tv.len() as int));
    }
    let name_len = j - name_start;
    proof {
        lemma_last_index_of(name@, '.');
    }
    match crate::chars::find_last(name, '.') {
        Some(d) => {
            if d > 0 && str_eq(name.substring_char(d + 1, name_len), "git") {
                let cut = name_start + d;
                let out = t.substring_char(0, cut).to_owned();
                proof {
                    assert(out@ =~= tv.subrange(0, cut as int));
                }
                out
            } else {
                s.to_owned()
            }
        },
        None => s.to_owned(),
    }
}

/// Renders a compiled pattern against a home directory and the components of
/// one URL. Total: absent values simply emit nothing.
pub fn render(pattern: &GrabPattern, home: Option<&str>, components: &UrlComponents) -> (r: String)
    ensures
        r@ == rendered_path(pattern@, opt_str_view(home), components@),
{
    let ghost hview = opt_str_view(home);
    let ghost etoks = expand_tilde(pattern@, hview);
    let n = pattern.0.len();
    let mut out = String::new();
    let mut i: usize = 0;

    proof {
        assert(etoks.subrange(0, 0) =~= Seq::<PatternToken>::empty());
    }

    // Tilde expansion: only a leading `~` of the very first literal, and
    // only when a home directory is given.
    if n > 0 {
        if let Some(h) = home {
            match &pattern.0[0] {
                GrabPatternComponent::Literal(t) => {
                    let tlen = t.as_str().unicode_len();
                    if tlen > 0 && t.as_str().get_char(0) == '~' {
                        out.append(h);
                        out.append(t.as_str().substring_char(1, tlen));
                        proof {
                            assert(pattern@[0] == PatternToken::Literal(t@));
                            assert(etoks[0] == PatternToken::Literal(h@ + t@.drop_first()));
                            assert(t@.subrange(1, tlen as int) =~= t@.drop_first());
                            assert(out@ =~= emit_token(etoks[0], hview, components@));
                            let prefix = etoks.subrange(0, 1);
                            assert(prefix.drop_last() =~= Seq::<PatternToken>::empty());
                            assert(prefix.last() == etoks[0]);
                            assert(emit_all(Seq::<PatternToken>::empty(), hview, components@)
                                =~= Seq::<char>::empty());
                            assert(out@ =~= emit_all(prefix, hview, components@));
                        }
                        i = 1;
                    }
                },
                _ => {},
            }
        }
    }
    proof {
        if i == 0 {
            assert(etoks =~= pattern@);
        }
    }

    while i < n
        invariant
            i <= n,
            n == pattern.0@.len(),
            etoks == expand_tilde(pattern@, hview),
            etoks.len() == n,
            hview == opt_str_view(home),
            forall|k: int| i <= k < n ==> etoks[k] == pattern@[k],
            out@ == emit_all(etoks.subrange(0, i as int), hview, components@),
        decreases n - i,
    {
        let ghost old_out = out@;
        match &pattern.0[i] {
            GrabPatternComponent::Literal(t) => {
                out.append(t.as_str());
                proof {
                    assert(etoks[i as int] == PatternToken::Literal(t@));
                    assert(out@ =~= old_out + emit_token(etoks[i as int], hview, components@));
                }
            },
            GrabPatternComponent::Placeholder { placeholder, leading_slash, trailing_slash } => {
                let resolved: Option<&String> = match placeholder {
                    GrabPatternPlaceholder::Home => None,
                    GrabPatternPlaceholder::Host => components.host.as_ref(),
                    GrabPatternPlaceholder::Path => components.path.as_ref(),
                    GrabPatternPlaceholder::Owner => components.owner.as_ref(),
                    GrabPatternPlaceholder::Repo => components.repo.as_ref(),
                };
                match placeholder {
                    GrabPatternPlaceholder::Home => {
                        match home {
                            Some(h) => {
                                if *leading_slash {
                                    push_char(&mut out, '/');
                                }
                                out.append(h);
                                if *trailing_slash {
                                    push_char(&mut out, '/');
                                }
                            },
                            None => {},
                        }
                    },
                    _ => {
                        match resolved {
                            Some(v) => {
                                if *leading_slash {
                                    push_char(&mut out, '/');
                                }
                                out.append(v.as_str());
                                if *trailing_slash {
                                    push_char(&mut out, '/');
                                }
                            },
                            None => {},
                        }
                    },
                }
                proof {
                    assert(etoks[i as int] == pattern@[i as int]);
                    assert(out@ =~= old_out + emit_token(etoks[i as int], hview, components@));
                }
            },
        }
        proof {
            let prefix = etoks.subrange(0, i + 1);
            assert(prefix.drop_last() =~= etoks.subrange(0, i as int));
            assert(prefix.last() == etoks[i as int]);
            assert(out@ =~= emit_all(prefix, hview, components@));
        }
        i += 1;
    }
    proof {
        assert(etoks.subrange(0, n as int) =~= etoks);
    }
    trim_git_path(out.as_str())
}

/// Slash suppression: a placeholder that resolves to nothing emits nothing —
/// neither its value nor either slash marker.
pub proof fn lemma_slash_suppression(
    placeholder: GrabPatternPlaceholder,
    leading_slash: bool,
    trailing_slash: bool,
    home: Option<Seq<char>>,
    c: ComponentsToken,
)
    requires
        resolve_placeholder(placeholder, home, c) is None,
    ensures
        emit_token(
            PatternToken::Placeholder { placeholder, leading_slash, trailing_slash },
            home,
            c,
        ) == Seq::<char>::empty(),
{
}

/// Tilde expansion locality: expansion never touches a component after the
/// first; when the first component is not a literal starting with `~`, or no
/// home is given, the pattern renders exactly as written.
pub proof fn lemma_tilde_locality(
    toks: Seq<PatternToken>,
    home: Option<Seq<char>>,
    c: ComponentsToken,
)
    ensures
        forall|j: int| 1 <= j < toks.len() ==> expand_tilde(toks, home)[j] == toks[j],
        home is None ==> expand_tilde(toks, home) == toks,
        (toks.len() > 0 ==> !(toks[0] matches PatternToken::Literal(t) && t.len() > 0 && t[0]
            == '~')) ==> emit_all(expand_tilde(toks, home), home, c) == emit_all(toks, home, c),
{
}

/// Idempotence of escaping: the template `{{owner}}` compiles, and renders
/// as the literal text `{owner}`, whatever the components and the home
/// directory hold.
pub proof fn lemma_escaped_placeholder_is_literal(home: Option<Seq<char>>, c: ComponentsToken)
    ensures
        parse_pattern("{{owner}}"@) matches Ok(toks) && rendered_path(toks, home, c)
            == "{owner}"@,
{
    reveal_strlit("{{owner}}");
    reveal_strlit("{owner}");
    reveal_strlit("git");
    let s = "{{owner}}"@;
    let lit = "{owner}"@;
    let e = Seq::<char>::empty();
    let none = Seq::<PatternToken>::empty();
    assert(s.len() == 9);
    assert(lit.len() == 7);

    // Step the scanner through the nine characters.
    assert(s.subrange(1, 9) =~= s.drop_first());
    let s1 = s.subrange(1, 9);
    assert(s1.drop_first() =~= s.subrange(2, 9));
    let s2 = s.subrange(2, 9);
    assert(s2.drop_first() =~= s.subrange(3, 9));
    let s3 = s.subrange(3, 9);
    assert(s3.drop_first() =~= s.subrange(4, 9));
    let s4 = s.subrange(4, 9);
    assert(s4.drop_first() =~= s.subrange(5, 9));
    let s5 = s.subrange(5, 9);
    assert(s5.drop_first() =~= s.subrange(6, 9));
    let s6 = s.subrange(6, 9);
    assert(s6.drop_first() =~= s.subrange(7, 9));
    let s7 = s.subrange(7, 9);
    assert(s7.drop_first() =~= s.subrange(8, 9));
    let s8 = s.subrange(8, 9);
    assert(s8.drop_first() =~= s.subrange(9, 9));
    assert(s.subrange(9, 9) =~= e);

    let c1 = e.push('{');
    let c2 = c1.push('o');
    let c3 = c2.push('w');
    let c4 = c3.push('n');
    let c5 = c4.push('e');
    let c6 = c5.push('r');
    let c7 = c6.push('}');
    assert(c7 =~= lit);

    assert(scan(s, ScanMode::Literal, e, none) == scan(s1, ScanMode::Placeholder, e, none));
    assert(scan(s1, ScanMode::Placeholder, e, none) == scan(s2, ScanMode::Escape, c1, none));
    assert(scan(s2, ScanMode::Escape, c1, none) == scan(s3, ScanMode::Escape, c2, none));
    assert(scan(s3, ScanMode::Escape, c2, none) == scan(s4, ScanMode::Escape, c3, none));
    assert(scan(s4, ScanMode::Escape, c3, none) == scan(s5, ScanMode::Escape, c4, none));
    assert(scan(s5, ScanMode::Escape, c4, none) == scan(s6, ScanMode::Escape, c5, none));
    assert(scan(s6, ScanMode::Escape, c5, none) == scan(s7, ScanMode::Escape, c6, none));
    assert(s7[0] == '}' && s7.drop_first().len() > 0 && s7.drop_first()[0] == '}');
    assert(scan(s7, ScanMode::Escape, c6, none) == scan(
        s7.drop_first().drop_first(),
        ScanMode::Literal,
        c7,
        none,
    ));
    assert(s7.drop_first().drop_first() =~= e);
    assert(scan(e, ScanMode::Literal, c7, none) == Ok::<_, crate::pattern::ParseErrorToken>(
        none.push(PatternToken::Literal(c7)),
    ));
    let toks = none.push(PatternToken::Literal(lit));
    assert(none.push(PatternToken::Literal(c7)) =~= toks);
    assert(scan(s, ScanMode::Literal, e, none) == Ok::<_, crate::pattern::ParseErrorToken>(toks));

    // The single literal is not blank, so the pattern stands.
    assert(lit[0] == '{');
    assert(!crate::chars::is_whitespace_char(lit[0]));
    assert(!crate::chars::all_whitespace(lit));
    assert(!(toks[0] matches PatternToken::Literal(t) && crate::chars::all_whitespace(t)));
    assert(!crate::pattern::is_blank_tokens(toks));
    assert(parse_pattern(s) == Ok::<_, crate::pattern::ParseErrorToken>(toks));

    // It renders as the literal itself: no tilde, no trimmed extension.
    assert(lit[0] == '{');
    assert(expand_tilde(toks, home) == toks);
    assert(toks.drop_last() =~= none);
    assert(toks.last() == PatternToken::Literal(lit));
    assert(emit_all(none, home, c) =~= Seq::<char>::empty());
    assert(emit_token(PatternToken::Literal(lit), home, c) == lit);
    assert(emit_all(toks, home, c) =~= lit);

    assert(lit.last() == '}');
    assert(strip_trailing_slashes(lit) == lit);
    lemma_last_index_of(lit, '/');
    assert(forall|k: int| 0 <= k < lit.len() ==> lit[k] != '/');
    assert(last_index_of(lit, '/') is None);
    assert(lit.subrange(0, 7) =~= lit);
    lemma_last_index_of(lit, '.');
    assert(forall|k: int| 0 <= k < lit.len() ==> lit[k] != '.');
    assert(last_index_of(lit, '.') is None);
    assert(git_cut_point(lit) is None);
    assert(trim_git_extension(lit) == lit);
    assert(rendered_path(toks, home, c) == lit);
}

} // verus!
