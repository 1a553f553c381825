//! URIs of sources and items, and their canonical form `<scheme>://<path>`.

use vstd::prelude::*;
use vstd::string::StringExecFns;

verus! {

/// The host of a URL.
#[derive(Debug)]
pub enum UrlHost {
    /// The URL has no host.
    Absent,
    /// A DNS name.
    Domain(String),
    /// A literal IPv4 address, as its four octets.
    Ipv4([u8; 4]),
    /// A literal IPv6 address, as its sixteen octets.
    Ipv6([u8; 16]),
}

/// What a `UrlHost` holds.
pub enum UrlHostView {
    Absent,
    Domain(Seq<char>),
    Ipv4(Seq<u8>),
    Ipv6(Seq<u8>),
}

impl View for UrlHost {
    type V = UrlHostView;

    open spec fn view(&self) -> UrlHostView {
        match self {
            UrlHost::Absent => UrlHostView::Absent,
            UrlHost::Domain(d) => UrlHostView::Domain(d@),
            UrlHost::Ipv4(a) => UrlHostView::Ipv4(a@),
            UrlHost::Ipv6(a) => UrlHostView::Ipv6(a@),
        }
    }
}

/// The parts of a parsed URL that the library reads.
#[derive(Debug)]
pub struct ParsedUrl {
    /// The scheme, in lower case and without the colon.
    pub scheme: String,
    pub host: UrlHost,
    pub path: String,
    /// The URL as text.
    pub text: String,
}

/// What a `ParsedUrl` holds.
pub struct ParsedUrlView {
    pub scheme: Seq<char>,
    pub host: UrlHostView,
    pub path: Seq<char>,
    pub text: Seq<char>,
}

impl View for ParsedUrl {
    type V = ParsedUrlView;

    open spec fn view(&self) -> ParsedUrlView {
        ParsedUrlView { scheme: self.scheme@, host: self.host@, path: self.path@, text: self.text@ }
    }
}

/// The view of an optional parsed URL.
pub open spec fn opt_url_view(u: Option<ParsedUrl>) -> Option<ParsedUrlView> {
    match u {
        Some(u) => Some(u@),
        None => None,
    }
}

/// Why a text is no absolute URL.
#[derive(Debug, Clone, Copy, PartialEq, Eq, Structural)]
pub enum UrlFailure {
    /// The text is a relative URL, which makes a URL only on a base.
    RelativeWithoutBase,
    /// The text is no URL.
    Invalid,
}

/// The view of a parsed URL, or of the reason why there is none.
pub open spec fn url_result_view(r: Result<ParsedUrl, UrlFailure>) -> Result<
    ParsedUrlView,
    UrlFailure,
> {
    match r {
        Ok(u) => Ok(u@),
        Err(e) => Err(e),
    }
}

/// What `url::Url::parse` makes of a text: the parts of the URL, or the
/// reason why the text is no absolute URL.
pub uninterp spec fn url_parsed(text: Seq<char>) -> Result<ParsedUrlView, UrlFailure>;

/// The parts of the URL that a text is, or nothing where the text is no
/// absolute URL.
pub open spec fn url_parts(text: Seq<char>) -> Option<ParsedUrlView> {
    match url_parsed(text) {
        Ok(u) => Some(u),
        Err(_) => None,
    }
}

/// Whether the text of a parsed URL reads back as the same URL: with the same
/// scheme, path and text.
pub open spec fn reads_back(u: ParsedUrlView) -> bool {
    url_parts(u.text) matches Some(v) && v.scheme == u.scheme && v.path == u.path && v.text
        == u.text
}

/// `url::Url::parse`, with the results of `Url::scheme`, `Url::host`,
/// `Url::path` and `Url::as_str` on the URL that it returns, and of its
/// errors the one that tells a relative URL. The result is named by
/// `url_parsed`. The text of a URL reads back as the same URL: the outside
/// crate checks this of every URL in its own `check_invariants`, for the
/// text, the scheme and the path (the host may turn from none to empty).
#[verifier::external_body]
pub(crate) fn parse_url(text: &str) -> (res: Result<ParsedUrl, UrlFailure>)
    ensures
        url_result_view(res) == url_parsed(text@),
        res matches Ok(u) ==> reads_back(u@),
{
    let url = url::Url::parse(text).map_err(|e| match e {
        url::ParseError::RelativeUrlWithoutBase => UrlFailure::RelativeWithoutBase,
        _ => UrlFailure::Invalid,
    })?;
    let host = match url.host() {
        None => UrlHost::Absent,
        Some(url::Host::Domain(d)) => UrlHost::Domain(d.to_string()),
        Some(url::Host::Ipv4(a)) => UrlHost::Ipv4(a.octets()),
        Some(url::Host::Ipv6(a)) => UrlHost::Ipv6(a.octets()),
    };
    let (scheme, path) = (url.scheme().to_string(), url.path().to_string());
    Ok(ParsedUrl { scheme, host, path, text: url.as_str().to_string() })
}

/// What `url::Url::join` makes of a reference on the URL that a base is: the
/// text of the URL, or nothing where the base is no absolute URL or the
/// reference makes no URL on it.
pub uninterp spec fn url_joined(base: Seq<char>, reference: Seq<char>) -> Option<Seq<char>>;

/// `url::Url::join` on the URL that `url::Url::parse` makes of the base,
/// with `Url::as_str` of the URL that it returns. The text is named by
/// `url_joined`.
#[verifier::external_body]
pub(crate) fn join_url(base: &str, reference: &str) -> (res: Option<String>)
    ensures
        crate::text::opt_text(res) == url_joined(base@, reference@),
{
    let base = url::Url::parse(base).ok()?;
    Some(base.join(reference).ok()?.as_str().to_string())
}

/// The text `<scheme>://<path>`.
pub open spec fn scheme_and_path(scheme: Seq<char>, path: Seq<char>) -> Seq<char> {
    scheme + "://"@ + path
}

/// Joins a scheme and a path to the text `<scheme>://<path>`.
pub fn join_scheme_and_path(scheme: &str, path: &str) -> (text: String)
    ensures
        text@ == scheme_and_path(scheme@, path@),
{
    let mut out = String::from_str(scheme);
    out.append("://");
    out.append(path);
    out
}

/// The canonical form of a URI: the URL that `<scheme>://<path>` parses to,
/// where the scheme and the path are those of the URI. Nothing where either
/// text is no URL.
pub open spec fn canonical_uri(uri: Seq<char>) -> Option<ParsedUrlView> {
    match url_parts(uri) {
        Some(u) => url_parts(scheme_and_path(u.scheme, u.path)),
        None => None,
    }
}

/// A URL is collapsed when its text is `<scheme>://<path>`: with an empty
/// authority, no query and no fragment.
pub open spec fn is_collapsed(u: ParsedUrlView) -> bool {
    u.text == scheme_and_path(u.scheme, u.path)
}

/// Whether two optional URLs are both absent or agree on text, scheme and path.
pub open spec fn same_uri(a: Option<ParsedUrlView>, b: Option<ParsedUrlView>) -> bool {
    match (a, b) {
        (Some(a), Some(b)) => a.text == b.text && a.scheme == b.scheme && a.path == b.path,
        (None, None) => true,
        _ => false,
    }
}

/// The canonical form of `uri`, or an error where `uri` or the joined scheme
/// and path do not parse.
///
/// Canonicalizing is idempotent on every URI whose canonical form is
/// collapsed: the canonical form of the canonical text is the same URI.
pub fn canonicalize_uri(uri: &str) -> (res: Result<ParsedUrl, ()>)
    ensures
        opt_url_view(res.ok()) == canonical_uri(uri@),
        res matches Ok(c) ==> reads_back(c@),
        res matches Ok(c) ==> (is_collapsed(c@) ==> same_uri(canonical_uri(c.text@), Some(c@))),
{
    let parsed = match parse_url(uri) {
        Ok(u) => u,
        Err(_) => {
            return Err(());
        },
    };
    let joined = join_scheme_and_path(parsed.scheme.as_str(), parsed.path.as_str());
    match parse_url(joined.as_str()) {
        Ok(c) => Ok(c),
        Err(_) => Err(()),
    }
}

/// Reads a URL: its parts, or nothing where the text is no absolute URL.
pub fn read_url(text: &str) -> (res: Option<ParsedUrl>)
    ensures
        opt_url_view(res) == url_parts(text@),
        res matches Some(u) ==> reads_back(u@),
{
    match parse_url(text) {
        Ok(u) => Some(u),
        Err(_) => None,
    }
}

/// Whether `uri` parses as an absolute URL.
pub fn is_valid_uri(uri: &str) -> (valid: bool)
    ensures
        valid == url_parts(uri@).is_some(),
{
    parse_url(uri).is_ok()
}

} // verus!
