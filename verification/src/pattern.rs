//! The template language: a pattern is compiled into a sequence of literal
//! runs and placeholders. `{` opens a placeholder; `{{` starts an escape that
//! copies text literally until a `}}` pair, which collapses to a single `}`;
//! a placeholder body may carry a leading and a trailing `/` marker around
//! one of the names `home`, `host`, `path`, `owner`, `repo`.

use vstd::prelude::*;
use vstd::string::StrSliceExecFns;

use crate::chars::{all_whitespace, str_is_blank};

verus! {

/// The closed set of placeholder names.
#[derive(PartialEq, Eq, Clone, Copy, Debug)]
pub enum GrabPatternPlaceholder {
    Home,
    Host,
    Path,
    Owner,
    Repo,
}

/// One compiled component: literal text, or a placeholder with its slash
/// markers.
#[derive(PartialEq, Clone, Debug)]
pub enum GrabPatternComponent {
    Placeholder { placeholder: GrabPatternPlaceholder, leading_slash: bool, trailing_slash: bool },
    Literal(String),
}

/// A compiled pattern: the components in source order.
#[derive(PartialEq, Clone, Debug)]
pub struct GrabPattern(pub Vec<GrabPatternComponent>);

/// Why a template was rejected.
#[derive(PartialEq, Clone, Debug)]
pub enum GrabPatternParseError {
    EmptyPlaceholder,
    UnknownPlaceholder(String),
    UnclosedPlaceholder(String),
    BlankPattern,
}

/// Mathematical model of one component.
#[verifier::ext_equal]
pub enum PatternToken {
    Placeholder { placeholder: GrabPatternPlaceholder, leading_slash: bool, trailing_slash: bool },
    Literal(Seq<char>),
}

/// Mathematical model of a rejection.
#[verifier::ext_equal]
pub enum ParseErrorToken {
    EmptyPlaceholder,
    UnknownPlaceholder(Seq<char>),
    UnclosedPlaceholder(Seq<char>),
    BlankPattern,
}

impl View for GrabPatternComponent {
    type V = PatternToken;

    open spec fn view(&self) -> PatternToken {
        match self {
            GrabPatternComponent::Placeholder { placeholder, leading_slash, trailing_slash } => {
                PatternToken::Placeholder {
                    placeholder: *placeholder,
                    leading_slash: *leading_slash,
                    trailing_slash: *trailing_slash,
                }
            },
            GrabPatternComponent::Literal(s) => PatternToken::Literal(s@),
        }
    }
}

/// The models of a sequence of components.
pub open spec fn tokens_of(v: Seq<GrabPatternComponent>) -> Seq<PatternToken> {
    v.map_values(|c: GrabPatternComponent| c@)
}

impl View for GrabPattern {
    type V = Seq<PatternToken>;

    open spec fn view(&self) -> Seq<PatternToken> {
        tokens_of(self.0@)
    }
}

impl View for GrabPatternParseError {
    type V = ParseErrorToken;

    open spec fn view(&self) -> ParseErrorToken {
        match self {
            GrabPatternParseError::EmptyPlaceholder => ParseErrorToken::EmptyPlaceholder,
            GrabPatternParseError::UnknownPlaceholder(s) => ParseErrorToken::UnknownPlaceholder(
                s@,
            ),
            GrabPatternParseError::UnclosedPlaceholder(s) => ParseErrorToken::UnclosedPlaceholder(
                s@,
            ),
            GrabPatternParseError::BlankPattern => ParseErrorToken::BlankPattern,
        }
    }
}

/// The placeholder a stripped body names, if any. Case-sensitive.
pub open spec fn placeholder_of(name: Seq<char>) -> Option<GrabPatternPlaceholder> {
    if name == "home"@ {
        Some(GrabPatternPlaceholder::Home)
    } else if name == "host"@ {
        Some(GrabPatternPlaceholder::Host)
    } else if name == "path"@ {
        Some(GrabPatternPlaceholder::Path)
    } else if name == "owner"@ {
        Some(GrabPatternPlaceholder::Owner)
    } else if name == "repo"@ {
        Some(GrabPatternPlaceholder::Repo)
    } else {
        None
    }
}

/// What a placeholder body between braces compiles to: slash markers are
/// stripped, the rest must name a placeholder; a body that is empty or only
/// slashes is rejected.
pub open spec fn finish_placeholder(body: Seq<char>) -> Result<PatternToken, ParseErrorToken> {
    if body.len() == 0 {
        Err(ParseErrorToken::EmptyPlaceholder)
    } else {
        let lead = body[0] == '/';
        let rest = if lead {
            body.drop_first()
        } else {
            body
        };
        if rest.len() == 0 {
            Err(ParseErrorToken::EmptyPlaceholder)
        } else {
            let trail = rest.last() == '/';
            let name = if trail {
                rest.drop_last()
            } else {
                rest
            };
            if name.len() == 0 {
                Err(ParseErrorToken::EmptyPlaceholder)
            } else {
                match placeholder_of(name) {
                    Some(p) => Ok(
                        PatternToken::Placeholder {
                            placeholder: p,
                            leading_slash: lead,
                            trailing_slash: trail,
                        },
                    ),
                    None => Err(ParseErrorToken::UnknownPlaceholder(name)),
                }
            }
        }
    }
}

/// The scanner's mode: ordinary text, inside a placeholder span, or inside
/// an escape opened by `{{`.
#[derive(PartialEq, Eq, Structural, Clone, Copy, Debug)]
pub enum ScanMode {
    Literal,
    Placeholder,
    Escape,
}

/// One left-to-right pass over the template. `cur` is the text accumulated in
/// the current mode, `acc` the components already finished.
pub open spec fn scan(s: Seq<char>, mode: ScanMode, cur: Seq<char>, acc: Seq<PatternToken>) -> Result<
    Seq<PatternToken>,
    ParseErrorToken,
>
    decreases s.len(),
{
    if s.len() == 0 {
        if mode is Placeholder {
            Err(ParseErrorToken::UnclosedPlaceholder(cur))
        } else if cur.len() > 0 {
            Ok(acc.push(PatternToken::Literal(cur)))
        } else {
            Ok(acc)
        }
    } else {
        let c = s[0];
        let rest = s.drop_first();
        match mode {
            ScanMode::Literal => {
                if c == '{' {
                    let acc2 = if cur.len() > 0 {
                        acc.push(PatternToken::Literal(cur))
                    } else {
                        acc
                    };
                    scan(rest, ScanMode::Placeholder, Seq::empty(), acc2)
                } else {
                    scan(rest, ScanMode::Literal, cur.push(c), acc)
                }
            },
            ScanMode::Placeholder => {
                if c == '{' {
                    scan(rest, ScanMode::Escape, cur.push('{'), acc)
                } else if c == '}' {
                    match finish_placeholder(cur) {
                        Ok(tok) => scan(rest, ScanMode::Literal, Seq::empty(), acc.push(tok)),
                        Err(e) => Err(e),
                    }
                } else {
                    scan(rest, ScanMode::Placeholder, cur.push(c), acc)
                }
            },
            ScanMode::Escape => {
                if c == '}' && rest.len() > 0 && rest[0] == '}' {
                    scan(rest.drop_first(), ScanMode::Literal, cur.push('}'), acc)
                } else {
                    scan(rest, ScanMode::Escape, cur.push(c), acc)
                }
            },
        }
    }
}

/// Whether every component is a literal of nothing but whitespace
/// (vacuously, whether there is no component at all).
pub open spec fn is_blank_tokens(toks: Seq<PatternToken>) -> bool {
    forall|i: int|
        0 <= i < toks.len() ==> (#[trigger] toks[i] matches PatternToken::Literal(t)
            && all_whitespace(t))
}

/// What compiling a template yields: the scan's components, unless the
/// template reduces to whitespace-only literals.
pub open spec fn parse_pattern(s: Seq<char>) -> Result<Seq<PatternToken>, ParseErrorToken> {
    match scan(s, ScanMode::Literal, Seq::empty(), Seq::empty()) {
        Ok(toks) => if is_blank_tokens(toks) {
            Err(ParseErrorToken::BlankPattern)
        } else {
            Ok(toks)
        },
        Err(e) => Err(e),
    }
}

/// Compiles one placeholder body (the text between `{` and `}`).
fn compile_placeholder(body: &str) -> (r: Result<GrabPatternComponent, GrabPatternParseError>)
    ensures
        match r {
            Ok(comp) => finish_placeholder(body@) == Ok::<PatternToken, ParseErrorToken>(comp@),
            Err(e) => finish_placeholder(body@) == Err::<PatternToken, ParseErrorToken>(e@),
        },
{
    let n = body.unicode_len();
    if n == 0 {
        return Err(GrabPatternParseError::EmptyPlaceholder);
    }
    let lead = body.get_char(0) == '/';
    let start: usize = if lead {
        1
    } else {
        0
    };
    if start == n {
        return Err(GrabPatternParseError::EmptyPlaceholder);
    }
    let trail = body.get_char(n - 1) == '/';
    let end: usize = if trail {
        n - 1
    } else {
        n
    };
    proof {
        if lead {
            assert(body@.drop_first().len() > 0);
            assert(body@.drop_first().last() == body@[n - 1]);
        }
    }
    if end <= start {
        return Err(GrabPatternParseError::EmptyPlaceholder);
    }
    let name = body.substring_char(start, end);
    proof {
        let rest = if lead {
            body@.drop_first()
        } else {
            body@
        };
        let spec_name = if trail {
            rest.drop_last()
        } else {
            rest
        };
        assert(name@ =~= spec_name);
    }
    let placeholder = if crate::chars::str_eq(name, "home") {
        GrabPatternPlaceholder::Home
    } else if crate::chars::str_eq(name, "host") {
        GrabPatternPlaceholder::Host
    } else if crate::chars::str_eq(name, "path") {
        GrabPatternPlaceholder::Path
    } else if crate::chars::str_eq(name, "owner") {
        GrabPatternPlaceholder::Owner
    } else if crate::chars::str_eq(name, "repo") {
        GrabPatternPlaceholder::Repo
    } else {
        return Err(GrabPatternParseError::UnknownPlaceholder(name.to_owned()));
    };
    Ok(
        GrabPatternComponent::Placeholder {
            placeholder,
            leading_slash: lead,
            trailing_slash: trail,
        },
    )
}

impl GrabPattern {
    /// Compiles a template into a pattern, or says why it is rejected:
    /// an empty or slash-only placeholder body, a name outside the closed
    /// set, a placeholder left unclosed at the end of the input, or a
    /// template that reduces to whitespace-only literal text.
    pub fn try_parse(input: &str) -> (r: Result<Self, GrabPatternParseError>)
        ensures
            match r {
                Ok(p) => parse_pattern(input@) == Ok::<Seq<PatternToken>, ParseErrorToken>(p@),
                Err(e) => parse_pattern(input@) == Err::<Seq<PatternToken>, ParseErrorToken>(e@),
            },
    {
        let n = input.unicode_len();
        let mut result: Vec<GrabPatternComponent> = Vec::new();
        let mut mode = ScanMode::Literal;
        let mut current = String::new();
        let mut i: usize = 0;

        proof {
            assert(input@.subrange(0, n as int) =~= input@);
            assert(tokens_of(result@) =~= Seq::<PatternToken>::empty());
        }
        while i < n
            invariant
                i <= n,
                n == input@.len(),
                scan(input@, ScanMode::Literal, Seq::empty(), Seq::empty()) == scan(
                    input@.subrange(i as int, n as int),
                    mode,
                    current@,
                    tokens_of(result@),
                ),
            decreases n - i,
        {
            let ghost pre = input@.subrange(i as int, n as int);
            proof {
                assert(pre.len() > 0);
                assert(pre[0] == input@[i as int]);
                assert(pre.drop_first() =~= input@.subrange(i + 1, n as int));
            }
            let c = input.get_char(i);
            match mode {
                ScanMode::Literal => {
                    if c == '{' {
                        if !current.as_str().is_empty() {
                            let lit = current;
                            let ghost lit_text = lit@;
                            let ghost old_toks = tokens_of(result@);
                            current = String::new();
                            result.push(GrabPatternComponent::Literal(lit));
                            proof {
                                assert(tokens_of(result@) =~= old_toks.push(
                                    PatternToken::Literal(lit_text),
                                ));
                            }
                        } else {
                            proof {
                                assert(current@ =~= Seq::<char>::empty());
                            }
                        }
                        mode = ScanMode::Placeholder;
                    } else {
                        crate::chars::push_char(&mut current, c);
                    }
                    i += 1;
                },
                ScanMode::Placeholder => {
                    if c == '{' {
                        crate::chars::push_char(&mut current, '{');
                        mode = ScanMode::Escape;
                        i += 1;
                    } else if c == '}' {
                        match compile_placeholder(current.as_str()) {
                            Ok(comp) => {
                                let ghost comp_token = comp@;
                                let ghost old_toks = tokens_of(result@);
                                result.push(comp);
                                proof {
                                    assert(tokens_of(result@) =~= old_toks.push(comp_token));
                                }
                                current = String::new();
                                mode = ScanMode::Literal;
                                i += 1;
                            },
                            Err(e) => {
                                return Err(e);
                            },
                        }
                    } else {
                        crate::chars::push_char(&mut current, c);
                        i += 1;
                    }
                },
                ScanMode::Escape => {
                    if c == '}' && i + 1 < n && input.get_char(i + 1) == '}' {
                        proof {
                            assert(pre.drop_first().len() > 0);
                            assert(pre.drop_first()[0] == input@[i + 1]);
                            assert(pre.drop_first().drop_first() =~= input@.subrange(
                                i + 2,
                                n as int,
                            ));
                        }
                        crate::chars::push_char(&mut current, '}');
                        mode = ScanMode::Literal;
                        i += 2;
                    } else {
                        crate::chars::push_char(&mut current, c);
                        i += 1;
                    }
                },
            }
        }
        proof {
            assert(input@.subrange(n as int, n as int) =~= Seq::<char>::empty());
        }
        if matches!(mode, ScanMode::Placeholder) {
            return Err(GrabPatternParseError::UnclosedPlaceholder(current));
        }
        if !current.as_str().is_empty() {
            let lit = current;
            let ghost lit_text = lit@;
            let ghost old_toks = tokens_of(result@);
            result.push(GrabPatternComponent::Literal(lit));
            proof {
                assert(tokens_of(result@) =~= old_toks.push(PatternToken::Literal(lit_text)));
            }
        }

        // The scan is done; reject a pattern of nothing but blank literals.
        let ghost toks = tokens_of(result@);
        let mut blank = true;
        let mut k: usize = 0;
        while k < result.len()
            invariant
                k <= result.len(),
                toks == tokens_of(result@),
                blank ==> forall|j: int|
                    0 <= j < k ==> (#[trigger] toks[j] matches PatternToken::Literal(t)
                        && all_whitespace(t)),
                !blank ==> !is_blank_tokens(toks),
            decreases result.len() - k,
        {
            if blank {
                match &result[k] {
                    GrabPatternComponent::Literal(s) => {
                        if !str_is_blank(s.as_str()) {
                            proof {
                                assert(!(toks[k as int] matches PatternToken::Literal(t)
                                    && all_whitespace(t)));
                            }
                            blank = false;
                        }
                    },
                    _ => {
                        proof {
                            assert(!(toks[k as int] matches PatternToken::Literal(t)));
                        }
                        blank = false;
                    },
                }
            }
            k += 1;
        }
        if blank {
            return Err(GrabPatternParseError::BlankPattern);
        }
        Ok(GrabPattern(result))
    }
}

/// The components of the default template, `~/src/{host/}{path/}`.
pub open spec fn default_tokens() -> Seq<PatternToken> {
    seq![
        PatternToken::Literal("~/src/"@),
        PatternToken::Placeholder {
            placeholder: GrabPatternPlaceholder::Host,
            leading_slash: false,
            trailing_slash: true,
        },
        PatternToken::Placeholder {
            placeholder: GrabPatternPlaceholder::Path,
            leading_slash: false,
            trailing_slash: true,
        },
    ]
}

impl Default for GrabPattern {
    /// The default pattern, `~/src/{host/}{path/}`: the grab home, then one
    /// directory per host, then the URL's path below it.
    fn default() -> (r: Self)
        ensures
            r@ == default_tokens(),
    {
        let mut v: Vec<GrabPatternComponent> = Vec::new();
        v.push(GrabPatternComponent::Literal("~/src/".to_owned()));
        v.push(
            GrabPatternComponent::Placeholder {
                placeholder: GrabPatternPlaceholder::Host,
                leading_slash: false,
                trailing_slash: true,
            },
        );
        v.push(
            GrabPatternComponent::Placeholder {
                placeholder: GrabPatternPlaceholder::Path,
                leading_slash: false,
                trailing_slash: true,
            },
        );
        proof {
            assert(tokens_of(v@) =~= default_tokens());
        }
        GrabPattern(v)
    }
}

} // verus!
