//! The navigation policy: which top-level navigations (and `window.open`
//! requests) the shell's webview may follow, and the local-page URLs the
//! shell navigates to for the instance manager and for deep links.
//!
//! URLs are parsed by the `url` crate; the library keeps of a parsed URL
//! what the policy reads: its serialization, scheme, host, port and origin.
//!
//! The bundled local page is recognised by its scheme, host and port, which
//! the build target fixes (`http://localhost:1420` in development,
//! `http://tauri.localhost` on Windows and Android, `tauri://localhost`
//! elsewhere), so it is allowed on every target, `tauri://` included. Where
//! that location has a tuple origin (the `http` ones), any URL with the
//! same origin, such as the page's own `blob:` URLs, is local too.
//!
//! The active instance is matched by origin. The origin of a
//! `ftp`/`http`/`https`/`ws`/`wss` URL is the tuple (scheme, host, port); a
//! `blob` URL has the origin of the URL in its path; any other URL gets an
//! opaque origin, which `url` makes fresh on every call, so an opaque origin
//! never equals any origin.

use crate::encoding::{
    form_urlencode, lemma_form_urlencode_round_trip, spec_form_urldecode, spec_form_urlencode,
    str_equal,
};
use vstd::prelude::*;
use vstd::utf8::encode_utf8;

verus! {

/// `url::ParseError`, carried through as an opaque value.
#[verifier::external_type_specification]
#[verifier::external_body]
pub struct ExUrlParseError(url::ParseError);

/// The operating system the shell was built for.
#[derive(Clone, Copy, PartialEq, Eq, Structural, Debug)]
pub enum TargetOs {
    Macos,
    Windows,
    Linux,
    Android,
    Ios,
    Other,
}

/// What the build configuration decides for the shell: the target OS and
/// whether this is a development build (served by the Vite dev server).
#[derive(Clone, Copy, PartialEq, Eq, Structural, Debug)]
pub struct BuildTarget {
    pub os: TargetOs,
    pub dev: bool,
}

/// A URL origin as the policy sees it.
pub enum UrlOrigin {
    /// The origin of a URL whose scheme has no tuple origin.
    Opaque,
    /// Scheme, serialized host and port (the scheme's default port where
    /// the URL names none).
    Tuple { scheme: String, host: String, port: u16 },
}

pub enum OriginView {
    Opaque,
    Tuple(Seq<char>, Seq<char>, u16),
}

pub struct UrlView {
    pub text: Seq<char>,
    pub scheme: Seq<char>,
    pub host: Option<Seq<char>>,
    pub port: Option<u16>,
    pub origin: OriginView,
}

/// A URL parsed by the `url` crate: its serialization, its scheme, its host
/// (as text), its port (the scheme's default port where the URL names none
/// and the scheme has one) and its origin.
pub struct WebUrl {
    text: String,
    scheme: String,
    host: Option<String>,
    port: Option<u16>,
    origin: UrlOrigin,
}

impl View for UrlOrigin {
    type V = OriginView;

    open spec fn view(&self) -> OriginView {
        match self {
            UrlOrigin::Opaque => OriginView::Opaque,
            UrlOrigin::Tuple { scheme, host, port } => OriginView::Tuple(scheme@, host@, *port),
        }
    }
}

impl View for WebUrl {
    type V = UrlView;

    closed spec fn view(&self) -> UrlView {
        UrlView {
            text: self.text@,
            scheme: self.scheme@,
            host: match self.host {
                Some(h) => Some(h@),
                None => None,
            },
            port: self.port,
            origin: self.origin@,
        }
    }
}

/// The schemes whose URLs have a tuple origin of their own.
pub open spec fn tuple_origin_scheme(scheme: Seq<char>) -> bool {
    scheme == "http"@ || scheme == "https"@ || scheme == "ws"@ || scheme == "wss"@ || scheme == "ftp"@
}

/// How `url` makes the origin of a URL with such a scheme: the tuple of its
/// scheme, host and port (the default port where the URL names none).
pub open spec fn origin_consistent(url: UrlView) -> bool {
    tuple_origin_scheme(url.scheme) ==> (url.host matches Some(h) && url.port matches Some(p)
        && url.origin == OriginView::Tuple(url.scheme, h, p))
}

/// What `url::Url::parse` makes of `input`: the serialization and origin of
/// the parsed URL, or `None` where it reports a parse error.
pub uninterp spec fn spec_parse_url(input: Seq<char>) -> Option<UrlView>;

/// What `url::Url::join` makes of `input` against the URL serialized as
/// `base`, or `None` where it reports a parse error.
pub uninterp spec fn spec_join_url(base: Seq<char>, input: Seq<char>) -> Option<UrlView>;

/// Calls `url::Url::parse` and keeps the result's `as_str()`, `scheme()`,
/// `host_str()`, `port_or_known_default()` and `origin()`, a tuple
/// origin's host as its `Display` text. Claims that the
/// call yields the named result, and fails exactly where the name is `None`.
#[verifier::external_body]
fn url_parse(input: &str) -> (res: Result<WebUrl, url::ParseError>)
    ensures
        match res {
            Ok(url) => spec_parse_url(input@) == Some(url@),
            Err(_) => spec_parse_url(input@) is None,
        },
        res matches Ok(url) ==> origin_consistent(url@),
{
    let url = url::Url::parse(input)?;
    let origin = match url.origin() {
        url::Origin::Opaque(_) => UrlOrigin::Opaque,
        url::Origin::Tuple(scheme, host, port) => UrlOrigin::Tuple { scheme, host: host.to_string(), port },
    };
    let (scheme, host, port) = (url.scheme().to_string(), url.host_str().map(str::to_string), url.port_or_known_default());
    Ok(WebUrl { text: url.as_str().to_string(), scheme, host, port, origin })
}

/// Calls `url::Url::join` on `base` (reparsed from its serialization) and
/// keeps the result as `url_parse` does. Claims that the call yields the
/// named result, and fails exactly where the name is `None`, and what
/// `url_parse` claims of a tuple-origin scheme.
#[verifier::external_body]
fn url_join(base: &WebUrl, input: &str) -> (res: Result<WebUrl, url::ParseError>)
    ensures
        match res {
            Ok(url) => spec_join_url(base@.text, input@) == Some(url@),
            Err(_) => spec_join_url(base@.text, input@) is None,
        },
        res matches Ok(url) ==> origin_consistent(url@),
{
    let url = url::Url::parse(&base.text)?.join(input)?;
    let origin = match url.origin() {
        url::Origin::Opaque(_) => UrlOrigin::Opaque,
        url::Origin::Tuple(scheme, host, port) => UrlOrigin::Tuple { scheme, host: host.to_string(), port },
    };
    let (scheme, host, port) = (url.scheme().to_string(), url.host_str().map(str::to_string), url.port_or_known_default());
    Ok(WebUrl { text: url.as_str().to_string(), scheme, host, port, origin })
}

/// Calls `Display` on `url::ParseError`. Nothing is claimed of the text.
#[verifier::external_body]
pub(crate) fn parse_error_text(e: &url::ParseError) -> (res: String)
{
    e.to_string()
}

impl WebUrl {
    /// Parses a URL.
    pub fn parse(input: &str) -> (res: Result<WebUrl, url::ParseError>)
        ensures
            match res {
                Ok(url) => spec_parse_url(input@) == Some(url@),
                Err(_) => spec_parse_url(input@) is None,
            },
            res matches Ok(url) ==> origin_consistent(url@),
    {
        url_parse(input)
    }

    /// Resolves `input` against this URL.
    pub fn join(&self, input: &str) -> (res: Result<WebUrl, url::ParseError>)
        ensures
            match res {
                Ok(url) => spec_join_url(self@.text, input@) == Some(url@),
                Err(_) => spec_join_url(self@.text, input@) is None,
            },
            res matches Ok(url) ==> origin_consistent(url@),
    {
        url_join(self, input)
    }

    /// The URL's serialization.
    pub fn as_str(&self) -> (res: &str)
        ensures
            res@ == self@.text,
    {
        self.text.as_str()
    }

    /// Whether the URL has a tuple origin (as opposed to an opaque one).
    pub fn has_tuple_origin(&self) -> (res: bool)
        ensures
            res == (self@.origin is Tuple),
    {
        match &self.origin {
            UrlOrigin::Opaque => false,
            UrlOrigin::Tuple { .. } => true,
        }
    }
}

/// Whether two origins are the same origin: both tuples, equal in scheme,
/// host and port. An opaque origin is the same origin as nothing.
pub open spec fn same_origin(a: OriginView, b: OriginView) -> bool {
    match (a, b) {
        (OriginView::Tuple(s1, h1, p1), OriginView::Tuple(s2, h2, p2)) => s1 == s2 && h1 == h2 && p1
            == p2,
        _ => false,
    }
}

fn origins_match(a: &UrlOrigin, b: &UrlOrigin) -> (res: bool)
    ensures
        res == same_origin(a@, b@),
{
    match (a, b) {
        (
            UrlOrigin::Tuple { scheme: s1, host: h1, port: p1 },
            UrlOrigin::Tuple { scheme: s2, host: h2, port: p2 },
        ) => *p1 == *p2 && *s1 == *s2 && *h1 == *h2,
        _ => false,
    }
}

/// The origin the bundled onboarding page is served from.
pub open spec fn spec_app_origin(target: BuildTarget) -> Seq<char> {
    if target.dev {
        "http://localhost:1420"@
    } else if target.os == TargetOs::Windows || target.os == TargetOs::Android {
        "http://tauri.localhost"@
    } else {
        "tauri://localhost"@
    }
}

/// Origin of the bundled onboarding page: the Vite server in development,
/// otherwise the origin the platform serves app assets from.
pub fn app_origin(target: BuildTarget) -> (res: &'static str)
    ensures
        res@ == spec_app_origin(target),
{
    if target.dev {
        "http://localhost:1420"
    } else if target.os == TargetOs::Windows || target.os == TargetOs::Android {
        "http://tauri.localhost"
    } else {
        "tauri://localhost"
    }
}

/// The scheme the bundled page is served with.
pub open spec fn spec_app_scheme(target: BuildTarget) -> Seq<char> {
    if target.dev || target.os == TargetOs::Windows || target.os == TargetOs::Android {
        "http"@
    } else {
        "tauri"@
    }
}

/// The host the bundled page is served from.
pub open spec fn spec_app_host(target: BuildTarget) -> Seq<char> {
    if target.dev {
        "localhost"@
    } else if target.os == TargetOs::Windows || target.os == TargetOs::Android {
        "tauri.localhost"@
    } else {
        "localhost"@
    }
}

/// The port the bundled page is served on (`None` for `tauri://`, which
/// has no default port).
pub open spec fn spec_app_port(target: BuildTarget) -> Option<u16> {
    if target.dev {
        Some(1420u16)
    } else if target.os == TargetOs::Windows || target.os == TargetOs::Android {
        Some(80u16)
    } else {
        None
    }
}

/// Whether `url` is on the bundled local page: it has the scheme, host and
/// port that `app_origin(target)` names, or (for the `http` app origins)
/// the same origin, as a `blob:` URL of the page has.
pub open spec fn local_origin_matches(url: UrlView, target: BuildTarget) -> bool {
    ||| {
        &&& url.scheme == spec_app_scheme(target)
        &&& url.host == Some(spec_app_host(target))
        &&& url.port == spec_app_port(target)
    }
    ||| spec_app_tuple_origin(target) matches Some(local) && same_origin(local, url.origin)
}

/// The bundled page's origin where it is a tuple origin (the `http` app
/// origins; `tauri://` has none).
pub open spec fn spec_app_tuple_origin(target: BuildTarget) -> Option<OriginView> {
    match spec_app_port(target) {
        Some(port) => Some(OriginView::Tuple(spec_app_scheme(target), spec_app_host(target), port)),
        None => None,
    }
}

/// The navigation policy: the bundled local page is always allowed, a
/// navigation to the active instance's own origin is allowed, everything
/// else is denied.
pub open spec fn navigation_allowed(url: UrlView, active: Option<UrlView>, target: BuildTarget) -> bool {
    local_origin_matches(url, target) || match active {
        Some(a) => same_origin(a.origin, url.origin),
        None => false,
    }
}

pub open spec fn view_opt(url: Option<&WebUrl>) -> Option<UrlView> {
    match url {
        Some(u) => Some(u@),
        None => None,
    }
}

fn app_scheme(target: BuildTarget) -> (res: &'static str)
    ensures
        res@ == spec_app_scheme(target),
{
    if target.dev || target.os == TargetOs::Windows || target.os == TargetOs::Android {
        "http"
    } else {
        "tauri"
    }
}

fn app_host(target: BuildTarget) -> (res: &'static str)
    ensures
        res@ == spec_app_host(target),
{
    if target.dev {
        "localhost"
    } else if target.os == TargetOs::Windows || target.os == TargetOs::Android {
        "tauri.localhost"
    } else {
        "localhost"
    }
}

fn app_port(target: BuildTarget) -> (res: Option<u16>)
    ensures
        res == spec_app_port(target),
{
    if target.dev {
        Some(1420)
    } else if target.os == TargetOs::Windows || target.os == TargetOs::Android {
        Some(80)
    } else {
        None
    }
}

/// Whether `url` is on the bundled onboarding page: the scheme, host and
/// port the build target serves it from, or, for the `http` app origins,
/// the same origin.
pub fn is_local_origin(url: &WebUrl, target: BuildTarget) -> (res: bool)
    ensures
        res == local_origin_matches(url@, target),
{
    let host_matches = match &url.host {
        Some(h) => str_equal(h.as_str(), app_host(target)),
        None => false,
    };
    let port = app_port(target);
    let port_matches = match (url.port, port) {
        (Some(a), Some(b)) => a == b,
        (None, None) => true,
        _ => false,
    };
    if str_equal(url.scheme.as_str(), app_scheme(target)) && host_matches && port_matches {
        return true;
    }
    match (port, &url.origin) {
        (Some(p), UrlOrigin::Tuple { scheme, host, port: q }) => p == *q && str_equal(scheme.as_str(), app_scheme(target))
            && str_equal(host.as_str(), app_host(target)),
        _ => false,
    }
}

/// The navigation-policy decision for a top-level navigation or a
/// `window.open` request to `url`, given the active instance, if any.
pub fn is_allowed_navigation(url: &WebUrl, active_instance: Option<&WebUrl>, target: BuildTarget) -> (res: bool)
    ensures
        res == navigation_allowed(url@, view_opt(active_instance), target),
{
    if is_local_origin(url, target) {
        return true;
    }
    match active_instance {
        Some(active) => origins_match(&active.origin, &url.origin),
        None => false,
    }
}

/// What a navigation hook does with a navigation request.
#[derive(Clone, Copy, PartialEq, Eq, Structural, Debug)]
pub enum NavigationDecision {
    /// Let the webview follow it.
    Allow,
    /// Deny it in the webview and open the URL in the system browser.
    OpenExternally,
}

/// The decision the navigation hooks act on.
pub fn navigation_decision(url: &WebUrl, active_instance: Option<&WebUrl>, target: BuildTarget) -> (res: NavigationDecision)
    ensures
        (res == NavigationDecision::Allow) == navigation_allowed(url@, view_opt(active_instance), target),
{
    if is_allowed_navigation(url, active_instance, target) {
        NavigationDecision::Allow
    } else {
        NavigationDecision::OpenExternally
    }
}

/// The active instance, from the `activeUrl` value the store holds (if it
/// holds a string there): present exactly when that string parses.
pub fn active_instance_from_store(active_url: Option<&str>) -> (res: Option<WebUrl>)
    ensures
        match active_url {
            None => res is None,
            Some(s) => match spec_parse_url(s@) {
                None => res is None,
                Some(v) => res matches Some(u) && u@ == v,
            },
        },
{
    match active_url {
        Some(s) => match url_parse(s) {
            Ok(url) => Some(url),
            Err(_) => None,
        },
        None => None,
    }
}

// ---------------------------------------------------------------------------
// Local-page URLs
// ---------------------------------------------------------------------------

/// The `?deeplink=` value for an incoming `sovereign://` URL.
pub open spec fn spec_deep_link_param(url: UrlView) -> Seq<char> {
    spec_form_urlencode(encode_utf8(url.text))
}

/// The page reads the incoming link back unchanged: form-decoding the
/// `?deeplink=` value gives exactly the UTF-8 bytes of the URL's text, with
/// no character rewritten, dropped or added.
pub proof fn lemma_deep_link_param_decodes_to_the_link(url: UrlView)
    ensures
        spec_form_urldecode(spec_deep_link_param(url)) == encode_utf8(url.text),
{
    lemma_form_urlencode_round_trip(encode_utf8(url.text));
}

/// Percent-encodes a `sovereign://` URL for embedding as the bundled page's
/// `?deeplink=` query value.
pub fn encode_deep_link_param(url: &WebUrl) -> (res: String)
    ensures
        res@ == spec_deep_link_param(url@),
        spec_form_urldecode(res@) == encode_utf8(url@.text),
{
    proof {
        lemma_deep_link_param_decodes_to_the_link(url@);
    }
    let text: &str = url.text.as_str();
    form_urlencode(text.as_bytes())
}

/// The local page that handles an incoming deep link.
pub fn deep_link_target(target: BuildTarget, incoming: &WebUrl) -> (res: String)
    ensures
        res@ == spec_app_origin(target) + "/?deeplink="@ + spec_deep_link_param(incoming@),
{
    let mut out = String::from_str(app_origin(target));
    out.append("/?deeplink=");
    let param = encode_deep_link_param(incoming);
    out.append(param.as_str());
    out
}

/// The local page that shows the instance manager.
pub fn instance_manager_url(target: BuildTarget) -> (res: String)
    ensures
        res@ == spec_app_origin(target) + "/?manage=1"@,
{
    let mut out = String::from_str(app_origin(target));
    out.append("/?manage=1");
    out
}

/// The app-relative path of the window's first page: the bundled page, with
/// a cold-launch deep link attached as `?deeplink=` when there is one.
pub fn initial_page_path(initial_deep_link: Option<&WebUrl>) -> (res: String)
    ensures
        match initial_deep_link {
            Some(url) => res@ == "index.html?deeplink="@ + spec_deep_link_param(url@),
            None => res@ == "index.html"@,
        },
{
    match initial_deep_link {
        Some(url) => {
            let mut out = String::from_str("index.html?deeplink=");
            let param = encode_deep_link_param(url);
            out.append(param.as_str());
            out
        },
        None => String::from_str("index.html"),
    }
}

// ---------------------------------------------------------------------------
// Laws of the policy
// ---------------------------------------------------------------------------

/// The bundled local page is always allowed: on every build target, a URL
/// with the scheme, host and port of the local page is allowed whatever
/// the active instance is.
pub proof fn lemma_local_page_allowed_regardless_of_active_instance(
    url: UrlView,
    active: Option<UrlView>,
    target: BuildTarget,
)
    requires
        url.scheme == spec_app_scheme(target),
        url.host == Some(spec_app_host(target)),
        url.port == spec_app_port(target),
    ensures
        navigation_allowed(url, active, target),
{
}

/// The local page's scheme, host and port are the ones `app_origin` writes:
/// `{scheme}://{host}`, followed by `:{port}` where the port is not the
/// scheme's default (80 for `http`).
pub proof fn lemma_local_location_is_the_app_origin(target: BuildTarget)
    ensures
        spec_app_origin(target) == spec_app_scheme(target) + "://"@ + spec_app_host(target) + if target.dev {
            ":1420"@
        } else {
            Seq::<char>::empty()
        },
        target.dev ==> spec_app_port(target) == Some(1420u16),
        !target.dev && spec_app_scheme(target) == "http"@ ==> spec_app_port(target) == Some(80u16),
        spec_app_scheme(target) == "tauri"@ ==> spec_app_port(target) is None,
{
    reveal_strlit("http://localhost:1420");
    reveal_strlit("http://tauri.localhost");
    reveal_strlit("tauri://localhost");
    reveal_strlit("http");
    reveal_strlit("tauri");
    reveal_strlit("://");
    reveal_strlit("localhost");
    reveal_strlit("tauri.localhost");
    reveal_strlit(":1420");
    if target.dev {
        assert(spec_app_origin(target) =~= "http"@ + "://"@ + "localhost"@ + ":1420"@);
    } else if target.os == TargetOs::Windows || target.os == TargetOs::Android {
        assert(spec_app_origin(target) =~= "http"@ + "://"@ + "tauri.localhost"@ + Seq::<char>::empty());
    } else {
        assert(spec_app_origin(target) =~= "tauri"@ + "://"@ + "localhost"@ + Seq::<char>::empty());
        assert("tauri"@ != "http"@);
    }
}

/// Where the bundled page has a tuple origin (development, Windows and
/// Android), a parsed URL is on the local page exactly when it has that
/// origin.
pub proof fn lemma_http_local_page_is_origin_equality(url: UrlView, target: BuildTarget)
    requires
        origin_consistent(url),
        spec_app_tuple_origin(target) is Some,
    ensures
        local_origin_matches(url, target) == same_origin(spec_app_tuple_origin(target)->0, url.origin),
{
}

/// The decision reads only a URL's scheme, host, port and origin: two URLs
/// that agree on these (whatever their paths, queries and fragments) get
/// the same decision.
pub proof fn lemma_decision_ignores_path_query_fragment(
    url1: UrlView,
    url2: UrlView,
    active: Option<UrlView>,
    target: BuildTarget,
)
    requires
        url1.scheme == url2.scheme,
        url1.host == url2.host,
        url1.port == url2.port,
        url1.origin == url2.origin,
    ensures
        navigation_allowed(url1, active, target) == navigation_allowed(url2, active, target),
{
}

/// A URL on the active instance's own origin is allowed.
pub proof fn lemma_active_origin_allowed(url: UrlView, active: UrlView, target: BuildTarget)
    requires
        same_origin(active.origin, url.origin),
    ensures
        navigation_allowed(url, Some(active), target),
{
}

/// Knowing an active instance never takes away an allowed navigation.
pub proof fn lemma_active_instance_only_adds(url: UrlView, active: UrlView, target: BuildTarget)
    ensures
        navigation_allowed(url, None, target) ==> navigation_allowed(url, Some(active), target),
{
}

/// With no active instance, only the bundled local page is allowed.
pub proof fn lemma_no_active_instance_allows_only_local(url: UrlView, target: BuildTarget)
    ensures
        navigation_allowed(url, None, target) == local_origin_matches(url, target),
{
}

/// Anything on neither the local page's origin nor the active instance's
/// origin is denied.
pub proof fn lemma_foreign_origin_denied(url: UrlView, active: Option<UrlView>, target: BuildTarget)
    requires
        !local_origin_matches(url, target),
        match active {
            Some(a) => !same_origin(a.origin, url.origin),
            None => true,
        },
    ensures
        !navigation_allowed(url, active, target),
{
}

/// Origins that differ only in their port are different origins.
pub proof fn lemma_port_distinguishes_origins(scheme: Seq<char>, host: Seq<char>, port1: u16, port2: u16)
    requires
        port1 != port2,
    ensures
        !same_origin(OriginView::Tuple(scheme, host, port1), OriginView::Tuple(scheme, host, port2)),
{
}

/// A URL with an opaque origin that is not the local page is denied
/// whatever the active instance is: an opaque origin matches no origin.
pub proof fn lemma_opaque_origin_denied_off_the_local_page(url: UrlView, active: Option<UrlView>, target: BuildTarget)
    requires
        url.origin is Opaque,
        !local_origin_matches(url, target),
    ensures
        !navigation_allowed(url, active, target),
{
}

/// Same-origin is symmetric and transitive.
pub proof fn lemma_same_origin_symmetric_transitive(a: OriginView, b: OriginView, c: OriginView)
    ensures
        same_origin(a, b) ==> same_origin(b, a),
        same_origin(a, b) && same_origin(b, c) ==> same_origin(a, c),
{
}

} // verus!
