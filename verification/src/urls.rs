//! The boundary to the `url` crate. A `ResolvedUrl` holds a parsed
//! `url::Url` together with the (ghost) string it was parsed from; since
//! parsing is a pure function of that string, everything the parser derived
//! — whether parsing succeeds, the host, the path segments, the canonical
//! serialization — is named below as an uninterpreted function of it, and
//! each trusted wrapper states its result through those names.

use vstd::prelude::*;

use crate::extract::{opt_seq_views, opt_view};

verus! {

/// Whether `url::Url::parse` accepts `s` as an absolute URL.
pub uninterp spec fn url_parses(s: Seq<char>) -> bool;

/// Whether `url::Url::parse` rejects `s` for lacking a scheme (its
/// relative-URL-without-base error), the one failure the normalizer
/// repairs.
pub uninterp spec fn url_no_scheme(s: Seq<char>) -> bool;

/// The host `url::Url::host_str` reports for the URL parsed from `s`.
pub uninterp spec fn url_host(s: Seq<char>) -> Option<Seq<char>>;

/// The path segments `url::Url::path_segments` reports for the URL parsed
/// from `s`: `None` for a cannot-be-a-base URL, otherwise the `/`-separated
/// pieces of its path.
pub uninterp spec fn url_segments(s: Seq<char>) -> Option<Seq<Seq<char>>>;

/// The canonical serialization `url::Url::as_str` reports for the URL
/// parsed from `s`.
pub uninterp spec fn url_serialization(s: Seq<char>) -> Seq<char>;

#[verifier::external_type_specification]
#[verifier::external_body]
pub struct ExUrl(url::Url);

#[verifier::external_type_specification]
#[verifier::external_body]
pub struct ExParseError(url::ParseError);

/// A canonical absolute URL: the output of the normalizer and the sole
/// input to the extractor and to the eventual clone invocation. The ghost
/// field records the exact string the value was parsed from, so that the
/// wrappers below can state their results as functions of that string.
pub struct ResolvedUrl {
    url: url::Url,
    parsed_from: Ghost<Seq<char>>,
}

/// How one parse attempt ended: an absolute URL, the scheme-less failure
/// the normalizer repairs, or any other parse failure.
pub enum ParseAttempt {
    Parsed(ResolvedUrl),
    NoScheme(url::ParseError),
    Failed(url::ParseError),
}

/// `parse_raw`'s outcome, before the parsed value is paired with the string
/// it came from.
enum RawAttempt {
    Parsed(url::Url),
    NoScheme(url::ParseError),
    Failed(url::ParseError),
}

/// Relies on `url::Url::parse`: it accepts or rejects a string
/// deterministically, and returns `ParseError::RelativeUrlWithoutBase`
/// exactly when the input lacks a scheme to parse it against. On success the
/// returned value is the URL parsed from `s`; `parse_absolute` below pairs
/// it with `s`, the one place a `ResolvedUrl` is built.
#[verifier::external_body]
fn parse_raw(s: &str) -> (r: RawAttempt)
    ensures
        r is Parsed ==> url_parses(s@),
        r is NoScheme ==> !url_parses(s@) && url_no_scheme(s@),
        r is Failed ==> !url_parses(s@) && !url_no_scheme(s@),
{
    match url::Url::parse(s) {
        Ok(u) => RawAttempt::Parsed(u),
        Err(e) => match e {
            url::ParseError::RelativeUrlWithoutBase => RawAttempt::NoScheme(e),
            _ => RawAttempt::Failed(e),
        },
    }
}

/// Attempts an absolute parse of `s`, keeping with a success the string it
/// was parsed from.
pub(crate) fn parse_absolute(s: &str) -> (r: ParseAttempt)
    ensures
        r matches ParseAttempt::Parsed(u) ==> url_parses(s@) && u.input() == s@,
        r is NoScheme ==> !url_parses(s@) && url_no_scheme(s@),
        r is Failed ==> !url_parses(s@) && !url_no_scheme(s@),
        url_parses(s@) ==> r is Parsed,
{
    match parse_raw(s) {
        RawAttempt::Parsed(u) => ParseAttempt::Parsed(
            ResolvedUrl { url: u, parsed_from: Ghost(s@) },
        ),
        RawAttempt::NoScheme(e) => ParseAttempt::NoScheme(e),
        RawAttempt::Failed(e) => ParseAttempt::Failed(e),
    }
}

/// Relies on `url::Url::host_str`: the host of the parsed URL, if it has
/// one, already lower-cased and punycode- or percent-encoded by the parser.
#[verifier::external_body]
pub(crate) fn host_of(u: &ResolvedUrl) -> (r: Option<String>)
    ensures
        opt_view(r) == url_host(u.input()),
{
    u.url.host_str().map(|h| h.to_owned())
}

/// Relies on `url::Url::path_segments`: `None` for a cannot-be-a-base URL,
/// otherwise the `/`-separated pieces of the path after its leading slash.
#[verifier::external_body]
pub(crate) fn path_segments_of(u: &ResolvedUrl) -> (r: Option<Vec<String>>)
    ensures
        opt_seq_views(r) == url_segments(u.input()),
{
    u.url.path_segments().map(|segs| segs.map(|s| s.to_owned()).collect())
}

/// Relies on `url::Url::as_str`: the canonical serialization of the parsed
/// URL.
#[verifier::external_body]
fn serialization_of(u: &ResolvedUrl) -> (r: String)
    ensures
        r@ == url_serialization(u.input()),
{
    u.url.as_str().to_owned()
}

/// Relies on `url::ParseError`'s `Display` impl: a short description of the
/// failure, for error reports. Nothing is assumed of the text.
#[verifier::external_body]
pub(crate) fn parse_error_message(e: &url::ParseError) -> String {
    e.to_string()
}

impl ResolvedUrl {
    /// The exact string this URL was parsed from.
    pub closed spec fn input(&self) -> Seq<char> {
        self.parsed_from@
    }

    /// The canonical serialization, the form handed to the clone command.
    pub fn as_string(&self) -> (r: String)
        ensures
            r@ == url_serialization(self.input()),
    {
        serialization_of(self)
    }
}

} // verus!
