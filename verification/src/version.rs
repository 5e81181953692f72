//! Version resolution: from the token a user typed to the canonical
//! identifier of a release.

use crate::http::{Request, RequestView, USER_AGENT};
use crate::text::{begins_with, same_text};
use vstd::prelude::*;
use vstd::string::*;

verus! {

/// The shape of a numbered release: an optional `v`, then three
/// dot-separated runs of decimal digits.
pub const VERSION_PATTERN: &'static str = r"^v?[0-9]+\.[0-9]+\.[0-9]+$";

/// Where the release host describes its latest stable build.
pub const LATEST_RELEASE_URL: &'static str =
    "https://api.github.com/repos/neovim/neovim/releases/latest";

/// The media type asked of the release host.
pub const RELEASE_MEDIA_TYPE: &'static str = "application/vnd.github.v3+json";

/// Whether the regular expression `pattern` finds a match in `haystack`;
/// `None` when `pattern` does not compile.
pub uninterp spec fn regex_search(pattern: Seq<char>, haystack: Seq<char>) -> Option<bool>;

/// Compiles `pattern` with `regex::Regex::new` and searches `haystack` with
/// `Regex::is_match`. The outcome depends on the two texts alone, so the
/// contract only names it; `None` stands for a pattern that was rejected.
#[verifier::external_body]
fn search(pattern: &str, haystack: &str) -> (found: Option<bool>)
    ensures
        found == regex_search(pattern@, haystack@),
{
    match regex::Regex::new(pattern) {
        Ok(compiled) => Some(compiled.is_match(haystack)),
        Err(_) => None,
    }
}

/// The release metadata the host publishes for its latest stable build.
#[derive(Clone, Debug, PartialEq, Eq)]
pub struct StableVersion {
    pub tag_name: String,
}

impl View for StableVersion {
    type V = Seq<char>;

    /// A release is modelled by its tag.
    open spec fn view(&self) -> Seq<char> {
        self.tag_name@
    }
}

/// Why a token could not be resolved.
#[derive(Clone, Debug, PartialEq, Eq)]
pub enum ResolveError {
    /// The token is neither a channel name nor a numbered version.
    InvalidVersionFormat,
    /// The metadata request failed; the text is the transport's explanation.
    NetworkError(String),
    /// The metadata body did not have the expected shape; the text is the parser's explanation.
    ParseError(String),
}

/// The model of a [`ResolveError`].
pub enum ResolveErrorView {
    InvalidVersionFormat,
    NetworkError(Seq<char>),
    ParseError(Seq<char>),
}

impl View for ResolveError {
    type V = ResolveErrorView;

    open spec fn view(&self) -> ResolveErrorView {
        match self {
            ResolveError::InvalidVersionFormat => ResolveErrorView::InvalidVersionFormat,
            ResolveError::NetworkError(text) => ResolveErrorView::NetworkError(text@),
            ResolveError::ParseError(text) => ResolveErrorView::ParseError(text@),
        }
    }
}

impl ResolveErrorView {
    /// The explanation shown to the user.
    pub open spec fn message(self) -> Seq<char> {
        match self {
            ResolveErrorView::InvalidVersionFormat => "Please provide a proper version string"@,
            ResolveErrorView::NetworkError(text) => text,
            ResolveErrorView::ParseError(text) => text,
        }
    }
}

impl ResolveError {
    /// The explanation shown to the user; a failure reported from outside keeps its own words.
    pub fn message(&self) -> (text: String)
        ensures
            text@ == self@.message(),
    {
        match self {
            ResolveError::InvalidVersionFormat => String::from_str(
                "Please provide a proper version string",
            ),
            ResolveError::NetworkError(text) => text.clone(),
            ResolveError::ParseError(text) => text.clone(),
        }
    }
}

/// What a token asks for once its form has been checked.
#[derive(Clone, Debug, PartialEq, Eq)]
pub enum VersionRequest {
    /// The canonical identifier is known without asking anyone.
    Canonical(String),
    /// The identifier is the tag of the latest stable release, which has to be fetched.
    LatestStable,
}

/// The model of a [`VersionRequest`].
pub enum VersionRequestView {
    Canonical(Seq<char>),
    LatestStable,
}

impl View for VersionRequest {
    type V = VersionRequestView;

    open spec fn view(&self) -> VersionRequestView {
        match self {
            VersionRequest::Canonical(version) => VersionRequestView::Canonical(version@),
            VersionRequest::LatestStable => VersionRequestView::LatestStable,
        }
    }
}

/// How the request for the latest release's metadata ended.
#[derive(Clone, Debug, PartialEq, Eq)]
pub enum MetadataResponse {
    /// The request failed.
    Unreachable(String),
    /// A body arrived but could not be read as release metadata.
    Malformed(String),
    /// The metadata of the latest release.
    Release(StableVersion),
}

/// The model of a [`MetadataResponse`]; a release is modelled by its tag.
pub enum MetadataResponseView {
    Unreachable(Seq<char>),
    Malformed(Seq<char>),
    Release(Seq<char>),
}

impl View for MetadataResponse {
    type V = MetadataResponseView;

    open spec fn view(&self) -> MetadataResponseView {
        match self {
            MetadataResponse::Unreachable(text) => MetadataResponseView::Unreachable(text@),
            MetadataResponse::Malformed(text) => MetadataResponseView::Malformed(text@),
            MetadataResponse::Release(release) => MetadataResponseView::Release(release@),
        }
    }
}

/// The view of a resolved identifier or of the reason there is none.
pub open spec fn version_view(outcome: Result<String, ResolveError>) -> Result<
    Seq<char>,
    ResolveErrorView,
> {
    match outcome {
        Ok(version) => Ok(version@),
        Err(error) => Err(error@),
    }
}

/// The view of a checked token or of the reason it was refused.
pub open spec fn request_view(outcome: Result<VersionRequest, ResolveError>) -> Result<
    VersionRequestView,
    ResolveErrorView,
> {
    match outcome {
        Ok(request) => Ok(request@),
        Err(error) => Err(error@),
    }
}

/// `token` with a `v` in front unless it already starts with one.
pub open spec fn with_leading_v(token: Seq<char>) -> Seq<char> {
    if token.len() > 0 && token[0] == 'v' {
        token
    } else {
        seq!['v'] + token
    }
}

/// The canonical identifier of a numbered token, given what the search for
/// the version pattern in it found.
pub open spec fn numbered_version(token: Seq<char>, found: Option<bool>) -> Result<
    Seq<char>,
    ResolveErrorView,
> {
    if found == Some(true) {
        Ok(with_leading_v(token))
    } else {
        Err(ResolveErrorView::InvalidVersionFormat)
    }
}

/// What `token` asks for, given what the search for the version pattern in it found.
pub open spec fn requested_version(token: Seq<char>, found: Option<bool>) -> Result<
    VersionRequestView,
    ResolveErrorView,
> {
    if token == "nightly"@ {
        Ok(VersionRequestView::Canonical(token))
    } else if token == "stable"@ {
        Ok(VersionRequestView::LatestStable)
    } else {
        match numbered_version(token, found) {
            Ok(version) => Ok(VersionRequestView::Canonical(version)),
            Err(error) => Err(error),
        }
    }
}

/// The canonical identifier that a metadata response stands for.
pub open spec fn stable_version(response: MetadataResponseView) -> Result<
    Seq<char>,
    ResolveErrorView,
> {
    match response {
        MetadataResponseView::Unreachable(text) => Err(ResolveErrorView::NetworkError(text)),
        MetadataResponseView::Malformed(text) => Err(ResolveErrorView::ParseError(text)),
        MetadataResponseView::Release(tag) => Ok(tag),
    }
}

/// The request that fetches the latest release's metadata.
pub open spec fn latest_release_request_view() -> RequestView {
    RequestView {
        url: LATEST_RELEASE_URL@,
        user_agent: USER_AGENT@,
        accept: Some(RELEASE_MEDIA_TYPE@),
    }
}

/// Turns a numbered token into its canonical identifier. `found` is the
/// outcome of searching the token for [`VERSION_PATTERN`]: only `Some(true)`
/// lets the token through, and then a `v` is put in front unless one leads already.
pub fn canonical_from_match(token: &str, found: Option<bool>) -> (outcome: Result<
    String,
    ResolveError,
>)
    ensures
        version_view(outcome) == numbered_version(token@, found),
{
    match found {
        Some(true) => {
            if begins_with(token, 'v') {
                Ok(String::from_str(token))
            } else {
                let version = String::from_str("v").concat(token);
                proof {
                    reveal_strlit("v");
                    assert("v"@ =~= seq!['v']);
                }
                Ok(version)
            }
        },
        _ => Err(ResolveError::InvalidVersionFormat),
    }
}

/// Checks the form of a version token. `nightly` is canonical as it stands,
/// `stable` asks for the latest release's tag, and anything else has to match
/// [`VERSION_PATTERN`]. No request is made here.
pub fn parse_version(token: &str) -> (outcome: Result<VersionRequest, ResolveError>)
    ensures
        request_view(outcome) == requested_version(
            token@,
            regex_search(VERSION_PATTERN@, token@),
        ),
{
    if same_text(token, "nightly") {
        Ok(VersionRequest::Canonical(String::from_str(token)))
    } else if same_text(token, "stable") {
        Ok(VersionRequest::LatestStable)
    } else {
        match canonical_from_match(token, search(VERSION_PATTERN, token)) {
            Ok(version) => Ok(VersionRequest::Canonical(version)),
            Err(error) => Err(error),
        }
    }
}

/// Reads the canonical identifier off the response to the metadata request.
pub fn latest_stable(response: MetadataResponse) -> (outcome: Result<String, ResolveError>)
    ensures
        version_view(outcome) == stable_version(response@),
{
    match response {
        MetadataResponse::Unreachable(text) => Err(ResolveError::NetworkError(text)),
        MetadataResponse::Malformed(text) => Err(ResolveError::ParseError(text)),
        MetadataResponse::Release(release) => Ok(release.tag_name),
    }
}

/// Describes the single request that resolving `stable` needs.
pub fn latest_release_request() -> (request: Request)
    ensures
        request@ == latest_release_request_view(),
{
    Request {
        url: String::from_str(LATEST_RELEASE_URL),
        user_agent: String::from_str(USER_AGENT),
        accept: Some(String::from_str(RELEASE_MEDIA_TYPE)),
    }
}

/// A token in which the version pattern was found is never refused, and
/// unless it is one of the two channel names its canonical identifier
/// starts with `v`. `found` is what the search for the pattern gave.
pub proof fn matching_token_resolves(token: Seq<char>, found: Option<bool>)
    requires
        found == Some(true),
    ensures
        requested_version(token, found) is Ok,
        token != "nightly"@ && token != "stable"@ ==> ({
            &&& requested_version(token, found) matches Ok(VersionRequestView::Canonical(version))
            &&& version == with_leading_v(token)
            &&& version.len() > 0
            &&& version[0] == 'v'
        }),
{
}

/// A token in which the version pattern was not found, and which is not a
/// channel name, is refused as badly formed.
pub proof fn other_token_is_refused(token: Seq<char>, found: Option<bool>)
    requires
        found != Some(true),
        token != "nightly"@,
        token != "stable"@,
    ensures
        requested_version(token, found) == Err::<VersionRequestView, ResolveErrorView>(
            ResolveErrorView::InvalidVersionFormat,
        ),
{
}

/// Only the token `stable` needs the network: every other token is settled
/// on the spot, whatever the pattern search found in it, and `nightly` is
/// its own canonical identifier.
pub proof fn only_stable_asks_the_host(token: Seq<char>, found: Option<bool>)
    ensures
        requested_version(token, found) == Ok::<VersionRequestView, ResolveErrorView>(
            VersionRequestView::LatestStable,
        ) <==> token == "stable"@,
        token == "nightly"@ ==> requested_version(token, found) == Ok::<
            VersionRequestView,
            ResolveErrorView,
        >(VersionRequestView::Canonical(token)),
{
    reveal_strlit("nightly");
    reveal_strlit("stable");
    if token =~= "nightly"@ {
        assert(token.len() != "stable"@.len());
    }
}

/// Resolving `stable` depends on the content of the metadata response
/// alone: two responses with the same content give the same outcome, and a
/// release gives its tag.
pub proof fn stable_depends_on_metadata_alone(first: MetadataResponse, second: MetadataResponse)
    requires
        first@ == second@,
    ensures
        stable_version(first@) == stable_version(second@),
        first matches MetadataResponse::Release(release) ==> stable_version(second@) == Ok::<
            Seq<char>,
            ResolveErrorView,
        >(release.tag_name@),
{
}

} // verus!
