//! Where the server listens and whom it lets in: the listening address is
//! derived from the server URL, and the CORS policy is fixed.

use vstd::prelude::*;

verus! {

/// The host part of a URL.
pub enum UrlHost {
    /// A domain name, to be resolved before binding.
    Domain(String),
    /// An IPv4 address, by its four octets.
    Ipv4([u8; 4]),
    /// An IPv6 address, by its eight 16-bit segments.
    Ipv6([u16; 8]),
}

/// The host part of a URL as plain values.
pub enum UrlHostView {
    Domain(Seq<char>),
    Ipv4(Seq<u8>),
    Ipv6(Seq<u16>),
}

impl View for UrlHost {
    type V = UrlHostView;

    open spec fn view(&self) -> UrlHostView {
        match self {
            UrlHost::Domain(d) => UrlHostView::Domain(d@),
            UrlHost::Ipv4(o) => UrlHostView::Ipv4(o@),
            UrlHost::Ipv6(s) => UrlHostView::Ipv6(s@),
        }
    }
}

/// What the server reads of its URL: the host, and the port (the explicit
/// one, or the scheme's well-known default).
pub struct ParsedUrl {
    pub host: Option<UrlHost>,
    pub port: Option<u16>,
}

/// A parsed URL as plain values.
pub struct ParsedUrlView {
    pub host: Option<UrlHostView>,
    pub port: Option<u16>,
}

impl View for ParsedUrl {
    type V = ParsedUrlView;

    open spec fn view(&self) -> ParsedUrlView {
        ParsedUrlView {
            host: match self.host {
                Some(h) => Some(h@),
                None => None,
            },
            port: self.port,
        }
    }
}

/// The outcome of parsing a URL text, as plain values: the parsed URL, or the
/// text of the parse error.
pub open spec fn parse_outcome_view(r: Result<ParsedUrl, String>) -> Result<ParsedUrlView, Seq<char>> {
    match r {
        Ok(u) => Ok(u@),
        Err(e) => Err(e@),
    }
}

/// What `url::Url::parse` makes of `text`, read through `Url::host` and
/// `Url::port_or_known_default`, or the text of its parse error.
pub uninterp spec fn url_parse_result(text: Seq<char>) -> Result<ParsedUrlView, Seq<char>>;

/// Parses `text` with `url::Url::parse` and reads the result's host
/// (`Url::host`) and port (`Url::port_or_known_default`) into plain values; a
/// parse error is turned into its display text.
///
/// The contract names the outcome, a function of the text alone; what the
/// URL standard makes of a given text is not restated here.
#[verifier::external_body]
pub(crate) fn parse_url(text: &str) -> (parsed: Result<ParsedUrl, String>)
    ensures
        parse_outcome_view(parsed) == url_parse_result(text@),
{
    match url::Url::parse(text) {
        Err(e) => Err(e.to_string()),
        Ok(url) => Ok(ParsedUrl {
            host: match url.host() {
                None => None,
                Some(url::Host::Domain(d)) => Some(UrlHost::Domain(d.to_string())),
                Some(url::Host::Ipv4(a)) => Some(UrlHost::Ipv4(a.octets())),
                Some(url::Host::Ipv6(a)) => Some(UrlHost::Ipv6(a.segments())),
            },
            port: url.port_or_known_default(),
        }),
    }
}

/// Where the server is to listen.
pub enum SocketTarget {
    /// A domain name and port, resolved to addresses by the caller.
    Resolve { host: String, port: u16 },
    /// One IPv4 socket address.
    Ipv4 { octets: [u8; 4], port: u16 },
    /// One IPv6 socket address.
    Ipv6 { segments: [u16; 8], port: u16 },
}

/// A listening target as plain values.
pub enum SocketTargetView {
    Resolve { host: Seq<char>, port: u16 },
    Ipv4 { octets: Seq<u8>, port: u16 },
    Ipv6 { segments: Seq<u16>, port: u16 },
}

impl View for SocketTarget {
    type V = SocketTargetView;

    open spec fn view(&self) -> SocketTargetView {
        match self {
            SocketTarget::Resolve { host, port } => SocketTargetView::Resolve { host: host@, port: *port },
            SocketTarget::Ipv4 { octets, port } => SocketTargetView::Ipv4 { octets: octets@, port: *port },
            SocketTarget::Ipv6 { segments, port } => SocketTargetView::Ipv6 { segments: segments@, port: *port },
        }
    }
}

/// Why no listening target could be derived.
pub enum ServerError {
    /// The URL text did not parse; the parser's message.
    InvalidUrl(String),
    /// The URL has no host.
    NoHost,
    /// The URL has neither a port nor a scheme with a known default port.
    NoPort,
}

/// A server error as plain values.
pub enum ServerErrorView {
    InvalidUrl(Seq<char>),
    NoHost,
    NoPort,
}

impl View for ServerError {
    type V = ServerErrorView;

    open spec fn view(&self) -> ServerErrorView {
        match self {
            ServerError::InvalidUrl(m) => ServerErrorView::InvalidUrl(m@),
            ServerError::NoHost => ServerErrorView::NoHost,
            ServerError::NoPort => ServerErrorView::NoPort,
        }
    }
}

/// The text that reports a server error.
pub open spec fn server_error_message_spec(e: ServerErrorView) -> Seq<char> {
    match e {
        ServerErrorView::InvalidUrl(m) => m,
        ServerErrorView::NoHost => "No host name in the URL"@,
        ServerErrorView::NoPort => "No port in the URL"@,
    }
}

impl ServerError {
    /// The text that reports this error.
    pub fn message(&self) -> (text: String)
        ensures
            text@ == server_error_message_spec(self@),
    {
        match self {
            ServerError::InvalidUrl(m) => m.clone(),
            ServerError::NoHost => String::from_str("No host name in the URL"),
            ServerError::NoPort => String::from_str("No port in the URL"),
        }
    }
}

/// A listening target or an error, as plain values.
pub open spec fn target_outcome_view(r: Result<SocketTarget, ServerError>) -> Result<SocketTargetView, ServerErrorView> {
    match r {
        Ok(t) => Ok(t@),
        Err(e) => Err(e@),
    }
}

/// Where a server whose URL reads as `url` listens: the host is required
/// first, then the port; a domain is left to be resolved, an IP address
/// gives exactly one socket address.
pub open spec fn socket_target_spec(url: ParsedUrlView) -> Result<SocketTargetView, ServerErrorView> {
    match url.host {
        None => Err(ServerErrorView::NoHost),
        Some(host) => match url.port {
            None => Err(ServerErrorView::NoPort),
            Some(port) => Ok(
                match host {
                    UrlHostView::Domain(d) => SocketTargetView::Resolve { host: d, port },
                    UrlHostView::Ipv4(o) => SocketTargetView::Ipv4 { octets: o, port },
                    UrlHostView::Ipv6(s) => SocketTargetView::Ipv6 { segments: s, port },
                },
            ),
        },
    }
}

/// Where the server listens, for a URL whose text is `text`.
pub open spec fn server_target_spec(text: Seq<char>) -> Result<SocketTargetView, ServerErrorView> {
    match url_parse_result(text) {
        Err(m) => Err(ServerErrorView::InvalidUrl(m)),
        Ok(url) => socket_target_spec(url),
    }
}

/// Derives the listening target from a parsed URL.
pub fn url_to_socket_addrs(url: &ParsedUrl) -> (target: Result<SocketTarget, ServerError>)
    ensures
        target_outcome_view(target) == socket_target_spec(url@),
        url.host is None ==> target matches Err(ServerError::NoHost),
        url.host is Some && url.port is None ==> target matches Err(ServerError::NoPort),
        url.host matches Some(UrlHost::Ipv4(o)) ==> (url.port matches Some(p) ==> (target matches Ok(
            SocketTarget::Ipv4 { octets, port },
        ) && octets@ == o@ && port == p)),
        url.host matches Some(UrlHost::Ipv6(s)) ==> (url.port matches Some(p) ==> (target matches Ok(
            SocketTarget::Ipv6 { segments, port },
        ) && segments@ == s@ && port == p)),
        url.host matches Some(UrlHost::Domain(d)) ==> (url.port matches Some(p) ==> (target matches Ok(
            SocketTarget::Resolve { host, port },
        ) && host@ == d@ && port == p)),
{
    let host = match &url.host {
        None => return Err(ServerError::NoHost),
        Some(h) => h,
    };
    let port = match url.port {
        None => return Err(ServerError::NoPort),
        Some(p) => p,
    };
    match host {
        UrlHost::Domain(d) => Ok(SocketTarget::Resolve { host: d.clone(), port }),
        UrlHost::Ipv4(o) => Ok(SocketTarget::Ipv4 { octets: *o, port }),
        UrlHost::Ipv6(s) => Ok(SocketTarget::Ipv6 { segments: *s, port }),
    }
}

/// The URL the server is started on by default.
pub const DEFAULT_SERVER_URL: &'static str = "http://127.0.0.1:8000";

/// Parses the server URL `text` and derives the listening target from it.
pub fn server_target(text: &str) -> (target: Result<SocketTarget, ServerError>)
    ensures
        target_outcome_view(target) == server_target_spec(text@),
{
    match parse_url(text) {
        Err(m) => Err(ServerError::InvalidUrl(m)),
        Ok(url) => url_to_socket_addrs(&url),
    }
}

/// The cross-origin policy of the server, as plain values.
pub struct CorsPolicy {
    pub allowed_origins: Vec<String>,
    pub allowed_methods: Vec<String>,
    pub allowed_headers: Vec<String>,
    pub max_age_secs: usize,
}

/// The server's cross-origin policy: the development front end on port 3000,
/// reading only, with the authorization, accept and allow-origin headers, and
/// preflight answers cached for an hour.
pub fn get_default_cors() -> (policy: CorsPolicy)
    ensures
        policy.allowed_origins.deep_view() == seq!["http://localhost:3000"@, "http://127.0.0.1:3000"@],
        policy.allowed_methods.deep_view() == seq!["GET"@],
        policy.allowed_headers.deep_view() == seq![
            "authorization"@,
            "accept"@,
            "access-control-allow-origin"@,
        ],
        policy.max_age_secs == 3600,
{
    let allowed_origins = vec![
        String::from_str("http://localhost:3000"),
        String::from_str("http://127.0.0.1:3000"),
    ];
    let allowed_methods = vec![String::from_str("GET")];
    let allowed_headers = vec![
        String::from_str("authorization"),
        String::from_str("accept"),
        String::from_str("access-control-allow-origin"),
    ];
    let policy = CorsPolicy { allowed_origins, allowed_methods, allowed_headers, max_age_secs: 3600 };
    assert(policy.allowed_origins.deep_view() =~= seq!["http://localhost:3000"@, "http://127.0.0.1:3000"@]);
    assert(policy.allowed_methods.deep_view() =~= seq!["GET"@]);
    assert(policy.allowed_headers.deep_view() =~= seq![
        "authorization"@,
        "accept"@,
        "access-control-allow-origin"@,
    ]);
    policy
}

} // verus!

verus! {

/// The listening target keeps the URL's host and port as they are: an IPv4
/// host gives that address, octet for octet, an IPv6 host that address,
/// segment for segment, and a domain is left to resolve with that port; with
/// no host, or a host and no port, there is no target.
pub proof fn lemma_target_keeps_host_and_port(host: UrlHostView, port: u16)
    ensures
        socket_target_spec(ParsedUrlView { host: None, port: Some(port) }) == Err::<SocketTargetView, _>(
            ServerErrorView::NoHost,
        ),
        socket_target_spec(ParsedUrlView { host: None, port: None }) == Err::<SocketTargetView, _>(
            ServerErrorView::NoHost,
        ),
        socket_target_spec(ParsedUrlView { host: Some(host), port: None }) == Err::<SocketTargetView, _>(
            ServerErrorView::NoPort,
        ),
        socket_target_spec(ParsedUrlView { host: Some(host), port: Some(port) }) == Ok::<_, ServerErrorView>(
            match host {
                UrlHostView::Domain(d) => SocketTargetView::Resolve { host: d, port },
                UrlHostView::Ipv4(o) => SocketTargetView::Ipv4 { octets: o, port },
                UrlHostView::Ipv6(s) => SocketTargetView::Ipv6 { segments: s, port },
            },
        ),
{
}

} // verus!
