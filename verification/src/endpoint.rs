//! RTMP URIs and the endpoints they name.

use vstd::prelude::*;
use vstd::string::*;

use crate::text::as_opt_str;
use crate::text::before;
use crate::text::behind;
use crate::text::contains_char;
use crate::text::decimal;
use crate::text::given;
use crate::text::given_str;
use crate::text::has_prefix;
use crate::text::is_digit;
use crate::text::is_first;
use crate::text::join2;
use crate::text::join3;
use crate::text::law_port_reads_back;
use crate::text::lemma_find;
use crate::text::lemma_found;
use crate::text::opt_text;
use crate::text::outcome;
use crate::text::parse_port;
use crate::text::port_of;
use crate::text::skip_chars;
use crate::text::split_at_char;
use crate::text::take_chars;
use crate::text::to_decimal;
use crate::text::without_prefix;

verus! {

/// Port of an `rtmp://` URI that names none.
pub const RTMP_PORT: u16 = 1935;

/// Port of an `rtmps://` URI that names none.
pub const RTMPS_PORT: u16 = 443;

/// What an RTMP URI names.
#[derive(Debug, Clone, PartialEq, Eq)]
pub struct RtmpEndpoint {
    pub host: String,
    pub port: u16,
    pub app: Option<String>,
    pub stream_key: Option<String>,
    /// True for `rtmps://` (RTMP over TLS). Decided by the URI scheme only.
    pub tls: bool,
}

/// An endpoint, as plain mathematics.
#[verifier::ext_equal]
pub struct EndpointModel {
    pub host: Seq<char>,
    pub port: u16,
    pub app: Option<Seq<char>>,
    pub stream_key: Option<Seq<char>>,
    pub tls: bool,
}

impl View for RtmpEndpoint {
    type V = EndpointModel;

    open spec fn view(&self) -> EndpointModel {
        EndpointModel {
            host: self.host@,
            port: self.port,
            app: opt_text(self.app),
            stream_key: opt_text(self.stream_key),
            tls: self.tls,
        }
    }
}

/// The port that a scheme stands for.
pub open spec fn default_port(tls: bool) -> u16 {
    if tls {
        RTMPS_PORT
    } else {
        RTMP_PORT
    }
}

/// Host and port of an authority: `host`, `host:port`, `[host]` or
/// `[host]:port`. A host with a colon in it needs the brackets.
pub open spec fn authority_parts(authority: Seq<char>, port: u16) -> Result<
    (Seq<char>, u16),
    Seq<char>,
> {
    if authority.len() > 0 && authority[0] == '[' {
        let rest = authority.skip(1);
        let host = before(rest, ']');
        let tail = behind(rest, ']');
        if !rest.contains(']') {
            Err("RTMP URI has an unterminated IPv6 literal"@)
        } else if host.len() == 0 {
            Err("RTMP URI must contain a host"@)
        } else if tail.len() == 0 {
            Ok((host, port))
        } else if tail[0] != ':' {
            Err("RTMP URI has an invalid port"@)
        } else {
            with_port(host, tail.skip(1))
        }
    } else if behind(authority, ':').contains(':') {
        Err("RTMP URI IPv6 literals must use brackets, e.g. rtmp://[::]:1935/"@)
    } else if !authority.contains(':') {
        Ok((authority, port))
    } else if before(authority, ':').len() == 0 {
        Err("RTMP URI must contain a host"@)
    } else {
        with_port(before(authority, ':'), behind(authority, ':'))
    }
}

/// A host with the port that a text stands for.
pub open spec fn with_port(host: Seq<char>, port: Seq<char>) -> Result<
    (Seq<char>, u16),
    Seq<char>,
> {
    match port_of(port) {
        Some(number) => Ok((host, number)),
        None => Err("RTMP URI has an invalid port"@),
    }
}

/// The path of a URI that counts: one trailing slash is dropped.
pub open spec fn counted_path(path: Seq<char>) -> Seq<char> {
    if path.len() > 0 && path.last() == '/' {
        path.drop_last()
    } else {
        path
    }
}

/// The endpoint behind the scheme: authority up to the first slash, then the
/// application up to the next one, then the stream key. A query string, from
/// the first question mark on, does not count.
pub open spec fn scheme_specific_endpoint(rest: Seq<char>, tls: bool) -> Result<
    EndpointModel,
    Seq<char>,
> {
    let bare = before(rest, '?');
    let authority = before(bare, '/');
    let path = counted_path(behind(bare, '/'));
    if authority.len() == 0 {
        Err("RTMP URI must contain a host"@)
    } else {
        match authority_parts(authority, default_port(tls)) {
            Ok((host, port)) => Ok(
                EndpointModel {
                    host,
                    port,
                    app: given(Some(before(path, '/'))),
                    stream_key: given(Some(behind(path, '/'))),
                    tls,
                },
            ),
            Err(message) => Err(message),
        }
    }
}

/// The endpoint that a URI names, or why it names none.
pub open spec fn uri_endpoint(uri: Seq<char>) -> Result<EndpointModel, Seq<char>> {
    if has_prefix(uri, "rtmp://"@) {
        scheme_specific_endpoint(uri.skip("rtmp://"@.len() as int), false)
    } else if has_prefix(uri, "rtmps://"@) {
        scheme_specific_endpoint(uri.skip("rtmps://"@.len() as int), true)
    } else {
        Err("RTMP URI must start with rtmp:// or rtmps://"@)
    }
}

/// An owned copy of text, unless it is empty.
fn owned_if_given(text: &str) -> (owned: Option<String>)
    ensures
        opt_text(owned) == given(Some(text@)),
{
    if text.unicode_len() > 0 {
        Some(text.to_owned())
    } else {
        None
    }
}

/// What stands before and behind the first `wanted`; all of it before if
/// there is none.
fn split_or_all(text: &str, wanted: char) -> (parts: (&str, &str))
    ensures
        parts.0@ == before(text@, wanted),
        parts.1@ == behind(text@, wanted),
{
    match split_at_char(text, wanted) {
        Some(parts) => parts,
        None => {
            let nothing: &str = "";
            proof {
                reveal_strlit("");
            }
            assert(nothing@ =~= Seq::<char>::empty());
            (text, nothing)
        },
    }
}

/// A host with the port that a text stands for.
fn host_and_port(host: &str, port: &str) -> (parts: Result<(String, u16), String>)
    ensures
        match parts {
            Ok((name, number)) => with_port(host@, port@) == Ok::<(Seq<char>, u16), Seq<char>>(
                (name@, number),
            ),
            Err(message) => with_port(host@, port@) == Err::<(Seq<char>, u16), Seq<char>>(message@),
        },
{
    match parse_port(port) {
        Some(number) => Ok((host.to_owned(), number)),
        None => Err("RTMP URI has an invalid port".to_owned()),
    }
}

/// Splits an authority into host and port.
pub fn parse_authority(authority: &str, default_port: u16) -> (parts: Result<
    (String, u16),
    String,
>)
    ensures
        match parts {
            Ok((host, port)) => authority_parts(authority@, default_port) == Ok::<
                (Seq<char>, u16),
                Seq<char>,
            >((host@, port)),
            Err(message) => authority_parts(authority@, default_port) == Err::<
                (Seq<char>, u16),
                Seq<char>,
            >(message@),
        },
{
    if authority.unicode_len() > 0 && authority.get_char(0) == '[' {
        let inner: &str = skip_chars(authority, 1);
        let (host, tail): (&str, &str) = match split_at_char(inner, ']') {
            Some(parts) => parts,
            None => return Err("RTMP URI has an unterminated IPv6 literal".to_owned()),
        };
        if host.unicode_len() == 0 {
            return Err("RTMP URI must contain a host".to_owned());
        }
        if tail.unicode_len() == 0 {
            return Ok((host.to_owned(), default_port));
        }
        if tail.get_char(0) != ':' {
            return Err("RTMP URI has an invalid port".to_owned());
        }
        return host_and_port(host, skip_chars(tail, 1));
    }
    match split_at_char(authority, ':') {
        Some((host, port)) => {
            if contains_char(port, ':') {
                return Err(
                    "RTMP URI IPv6 literals must use brackets, e.g. rtmp://[::]:1935/".to_owned(),
                );
            }
            if host.unicode_len() == 0 {
                return Err("RTMP URI must contain a host".to_owned());
            }
            host_and_port(host, port)
        },
        None => Ok((authority.to_owned(), default_port)),
    }
}

/// Parses `rtmp(s)://host[:port][/app[/stream-key...]]`.
///
/// The scheme decides the transport: `rtmp` is plain TCP, `rtmps` is RTMP over
/// TLS. The host may be a DNS name, an IPv4 literal, or a bracketed IPv6
/// literal such as `[::]`. The port defaults to 1935 (443 for `rtmps`); 0 is
/// allowed so a listener can ask the OS for a free port. The app is the first
/// path segment; the stream key is everything after it and may itself contain
/// slashes. Missing app or key means "no constraint" for a listener; play and
/// publish callers reject that via [`require_app_key`]. Query strings are
/// ignored.
pub fn parse_rtmp_uri(uri: &str) -> (endpoint: Result<RtmpEndpoint, String>)
    ensures
        outcome(endpoint) == uri_endpoint(uri@),
{
    let (rest, tls): (&str, bool) = match without_prefix(uri, "rtmp://") {
        Some(rest) => (rest, false),
        None => match without_prefix(uri, "rtmps://") {
            Some(rest) => (rest, true),
            None => return Err("RTMP URI must start with rtmp:// or rtmps://".to_owned()),
        },
    };
    let fallback: u16 = if tls {
        RTMPS_PORT
    } else {
        RTMP_PORT
    };
    let (bare, _): (&str, &str) = split_or_all(rest, '?');
    let (authority, path): (&str, &str) = split_or_all(bare, '/');
    if authority.unicode_len() == 0 {
        return Err("RTMP URI must contain a host".to_owned());
    }
    let (host, port): (String, u16) = match parse_authority(authority, fallback) {
        Ok(parts) => parts,
        Err(message) => return Err(message),
    };
    let len: usize = path.unicode_len();
    let counted: &str = if len > 0 && path.get_char(len - 1) == '/' {
        take_chars(path, len - 1)
    } else {
        path
    };
    assert(counted@ =~= counted_path(path@));
    let (app, key): (&str, &str) = split_or_all(counted, '/');
    Ok(
        RtmpEndpoint {
            host,
            port,
            app: owned_if_given(app),
            stream_key: owned_if_given(key),
            tls,
        },
    )
}

/// A host as it stands in a URI: in brackets if it has a colon in it.
pub open spec fn bracketed(host: Seq<char>) -> Seq<char> {
    if host.contains(':') {
        seq!['['] + host + seq![']']
    } else {
        host
    }
}

/// The host as it stands in a URI.
pub fn bracketed_host(host: &str) -> (text: String)
    ensures
        text@ == bracketed(host@),
{
    if contains_char(host, ':') {
        let text: String = join3("[", host, "]");
        proof {
            reveal_strlit("[");
            reveal_strlit("]");
        }
        assert(text@ =~= bracketed(host@));
        text
    } else {
        host.to_owned()
    }
}

/// Scheme, host and port, up to the path.
pub open spec fn uri_front(host: Seq<char>, port: u16, tls: bool) -> Seq<char> {
    (if tls {
        "rtmps://"@
    } else {
        "rtmp://"@
    }) + bracketed(host) + seq![':'] + decimal(port as nat)
}

/// Scheme, host and port, up to the path.
fn front_of_uri(host: &str, port: u16, tls: bool) -> (text: String)
    ensures
        text@ == uri_front(host@, port, tls),
{
    let scheme: &str = if tls {
        "rtmps://"
    } else {
        "rtmp://"
    };
    let shown: String = bracketed_host(host);
    let mut text: String = join3(scheme, shown.as_str(), ":");
    text.append(to_decimal(port as u64).as_str());
    proof {
        reveal_strlit(":");
    }
    assert(":"@ =~= seq![':']);
    text
}

/// The tcUrl of a connect that names none: scheme, host, port and app.
pub open spec fn tc_url_of(host: Seq<char>, port: u16, app: Seq<char>, tls: bool) -> Seq<char> {
    uri_front(host, port, tls) + seq!['/'] + app
}

/// Default tcUrl for a connect: scheme + host + port + app, never the key.
pub fn default_tc_url(host: &str, port: u16, app: &str, tls: bool) -> (url: String)
    ensures
        url@ == tc_url_of(host@, port, app@, tls),
{
    let front: String = front_of_uri(host, port, tls);
    let url: String = join3(front.as_str(), "/", app);
    proof {
        reveal_strlit("/");
    }
    assert("/"@ =~= seq!['/']);
    url
}

/// What callers that need both are told about a URI without application or
/// stream key.
pub open spec fn incomplete_uri(what: Seq<char>) -> Seq<char> {
    what + " needs a full RTMP URI with application and stream key"@
}

/// Requires app and stream key for play and publish callers. Listen callers
/// accept `None` as "any".
pub fn require_app_key(endpoint: &RtmpEndpoint, what: &str) -> (parts: Result<
    (String, String),
    String,
>)
    ensures
        match parts {
            Ok((app, key)) => endpoint@.app == Some(app@) && endpoint@.stream_key == Some(key@),
            Err(message) => (endpoint@.app is None || endpoint@.stream_key is None) && message@
                == incomplete_uri(what@),
        },
{
    match (&endpoint.app, &endpoint.stream_key) {
        (Some(app), Some(key)) => Ok((app.clone(), key.clone())),
        _ => Err(join2(what, " needs a full RTMP URI with application and stream key")),
    }
}

/// What callers are told when no URI is set.
pub open spec fn missing_uri(what: Seq<char>) -> Seq<char> {
    what + " needs uri, e.g. rtmp://host:1935/app/key"@
}

/// Requires a URI that is set and not empty.
pub fn require_uri(uri: &Option<String>, what: &str) -> (required: Result<String, String>)
    ensures
        outcome(required) == match given(opt_text(*uri)) {
            Some(text) => Ok::<Seq<char>, Seq<char>>(text),
            None => Err(missing_uri(what@)),
        },
{
    match given_str(as_opt_str(uri)) {
        Some(text) => Ok(text.to_owned()),
        None => Err(join2(what, " needs uri, e.g. rtmp://host:1935/app/key")),
    }
}

/// Endpoint of the RTMP client paths (play and publish). Both need exactly
/// host, port, app, key and tcUrl, so they share one type and one resolver.
#[derive(Clone, Debug)]
pub struct ClientEndpoint {
    pub host: String,
    pub port: u16,
    pub app: String,
    pub stream_key: String,
    pub tc_url: String,
    pub tls: bool,
}

/// A client endpoint, as plain mathematics.
#[verifier::ext_equal]
pub struct ClientModel {
    pub host: Seq<char>,
    pub port: u16,
    pub app: Seq<char>,
    pub stream_key: Seq<char>,
    pub tc_url: Seq<char>,
    pub tls: bool,
}

impl View for ClientEndpoint {
    type V = ClientModel;

    open spec fn view(&self) -> ClientModel {
        ClientModel {
            host: self.host@,
            port: self.port,
            app: self.app@,
            stream_key: self.stream_key@,
            tc_url: self.tc_url@,
            tls: self.tls,
        }
    }
}

/// The endpoint a client connects to: the URI must be set, parse, and name
/// both application and stream key. A tcUrl that is set and not empty is taken
/// as it is.
pub open spec fn client_endpoint(
    uri: Option<Seq<char>>,
    tc_url: Option<Seq<char>>,
    what: Seq<char>,
) -> Result<ClientModel, Seq<char>> {
    match given(uri) {
        None => Err(missing_uri(what)),
        Some(text) => match uri_endpoint(text) {
            Err(message) => Err(message),
            Ok(parsed) => match (parsed.app, parsed.stream_key) {
                (Some(app), Some(stream_key)) => Ok(
                    ClientModel {
                        host: parsed.host,
                        port: parsed.port,
                        app,
                        stream_key,
                        tc_url: match given(tc_url) {
                            Some(url) => url,
                            None => tc_url_of(parsed.host, parsed.port, app, parsed.tls),
                        },
                        tls: parsed.tls,
                    },
                ),
                _ => Err(incomplete_uri(what)),
            },
        },
    }
}

/// Resolves the endpoint that a client connects to.
pub fn resolve_client_endpoint(
    uri: Option<String>,
    tc_url: Option<String>,
    what: &str,
) -> (endpoint: Result<ClientEndpoint, String>)
    ensures
        outcome(endpoint) == client_endpoint(opt_text(uri), opt_text(tc_url), what@),
{
    let uri: String = match require_uri(&uri, what) {
        Ok(uri) => uri,
        Err(message) => return Err(message),
    };
    let parsed: RtmpEndpoint = match parse_rtmp_uri(uri.as_str()) {
        Ok(parsed) => parsed,
        Err(message) => return Err(message),
    };
    let (app, stream_key): (String, String) = match require_app_key(&parsed, what) {
        Ok(parts) => parts,
        Err(message) => return Err(message),
    };
    let tc_url: String = match given_str(as_opt_str(&tc_url)) {
        Some(url) => url.to_owned(),
        None => default_tc_url(parsed.host.as_str(), parsed.port, app.as_str(), parsed.tls),
    };
    Ok(
        ClientEndpoint {
            host: parsed.host,
            port: parsed.port,
            app,
            stream_key,
            tc_url,
            tls: parsed.tls,
        },
    )
}

/// Where a listener binds and whom it lets in. A missing filter accepts any.
#[derive(Clone, Debug)]
pub struct ListenEndpoint {
    pub bind_host: String,
    pub port: u16,
    pub app_filter: Option<String>,
    pub key_filter: Option<String>,
    pub tls: bool,
}

impl View for ListenEndpoint {
    type V = EndpointModel;

    open spec fn view(&self) -> EndpointModel {
        EndpointModel {
            host: self.bind_host@,
            port: self.port,
            app: opt_text(self.app_filter),
            stream_key: opt_text(self.key_filter),
            tls: self.tls,
        }
    }
}

/// The endpoint that a listener binds: the URI must be set and parse.
pub open spec fn listen_endpoint(uri: Option<Seq<char>>, what: Seq<char>) -> Result<
    EndpointModel,
    Seq<char>,
> {
    match given(uri) {
        None => Err(missing_uri(what)),
        Some(text) => uri_endpoint(text),
    }
}

/// Resolves the endpoint that a listener binds, with the URI it came from.
pub fn resolve_listen_endpoint(uri: &Option<String>, what: &str) -> (resolved: Result<
    (ListenEndpoint, String),
    String,
>)
    ensures
        match resolved {
            Ok((endpoint, text)) => listen_endpoint(opt_text(*uri), what@) == Ok::<
                EndpointModel,
                Seq<char>,
            >(endpoint@) && opt_text(*uri) == Some(text@),
            Err(message) => listen_endpoint(opt_text(*uri), what@) == Err::<
                EndpointModel,
                Seq<char>,
            >(message@),
        },
{
    let text: String = match require_uri(uri, what) {
        Ok(text) => text,
        Err(message) => return Err(message),
    };
    match parse_rtmp_uri(text.as_str()) {
        Ok(parsed) => Ok(
            (
                ListenEndpoint {
                    bind_host: parsed.host,
                    port: parsed.port,
                    app_filter: parsed.app,
                    key_filter: parsed.stream_key,
                    tls: parsed.tls,
                },
                text,
            ),
        ),
        Err(message) => Err(message),
    }
}

/// The path that names an application and a stream key. Without an
/// application there is no path.
pub open spec fn filter_path(app: Option<Seq<char>>, key: Option<Seq<char>>) -> Seq<char> {
    match app {
        None => Seq::empty(),
        Some(app) => match key {
            None => seq!['/'] + app,
            Some(key) => seq!['/'] + app + seq!['/'] + key,
        },
    }
}

/// The URI under which a listener can be reached on `port`.
pub open spec fn bound_uri(endpoint: EndpointModel, port: u16) -> Seq<char> {
    uri_front(endpoint.host, port, endpoint.tls) + filter_path(endpoint.app, endpoint.stream_key)
}

/// The URI to publish once a listener is bound: none unless the URI asked for
/// a free port, which the system has then chosen.
pub fn published_uri(endpoint: &ListenEndpoint, local_port: u16) -> (uri: Option<String>)
    ensures
        opt_text(uri) == if endpoint.port == 0 {
            Some(bound_uri(endpoint@, local_port))
        } else {
            None
        },
{
    if endpoint.port != 0 {
        return None;
    }
    proof {
        reveal_strlit("/");
    }
    assert("/"@ =~= seq!['/']);
    let mut path: String = String::new();
    if let Some(app) = &endpoint.app_filter {
        path.append("/");
        path.append(app.as_str());
        if let Some(key) = &endpoint.key_filter {
            path.append("/");
            path.append(key.as_str());
        }
    }
    assert(path@ =~= filter_path(endpoint@.app, endpoint@.stream_key));
    let mut uri: String = front_of_uri(endpoint.bind_host.as_str(), local_port, endpoint.tls);
    uri.append(path.as_str());
    Some(uri)
}

/// What holds of every host that a URI can name.
pub open spec fn is_uri_host(host: Seq<char>) -> bool {
    &&& host.len() > 0
    &&& !host.contains('/')
    &&& !host.contains('?')
    &&& host.contains(':') ==> !host.contains(']')
}

/// Whether a host that a URI named can stand in one again. Only a bracketed
/// host that starts with another bracket and has no colon cannot.
pub open spec fn can_be_written(host: Seq<char>) -> bool {
    host.contains(':') || host[0] != '['
}

proof fn lemma_before_is_prefix(text: Seq<char>, wanted: char)
    ensures
        before(text, wanted).len() <= text.len(),
        before(text, wanted) == text.take(before(text, wanted).len() as int),
        !before(text, wanted).contains(wanted),
        forall|c: char| before(text, wanted).contains(c) ==> text.contains(c),
        forall|c: char| behind(text, wanted).contains(c) ==> text.contains(c),
        text.contains(wanted) ==> text == before(text, wanted) + seq![wanted] + behind(
            text,
            wanted,
        ),
{
    let front = before(text, wanted);
    let back = behind(text, wanted);
    if text.contains(wanted) {
        lemma_found(text, wanted);
        let at = choose|at: int| is_first(text, wanted, at);
        lemma_find(text, wanted, at);
        assert(text =~= front + seq![wanted] + back);
        assert forall|c: char| front.contains(c) implies text.contains(c) by {
            let i = choose|i: int| 0 <= i < front.len() && front[i] == c;
            assert(text[i] == c);
        }
        assert forall|c: char| back.contains(c) implies text.contains(c) by {
            let i = choose|i: int| 0 <= i < back.len() && back[i] == c;
            assert(text[at + 1 + i] == c);
        }
    } else {
        assert(text.take(text.len() as int) =~= text);
    }
}

proof fn lemma_split_at(front: Seq<char>, wanted: char, back: Seq<char>)
    requires
        !front.contains(wanted),
    ensures
        (front + seq![wanted] + back).contains(wanted),
        before(front + seq![wanted] + back, wanted) == front,
        behind(front + seq![wanted] + back, wanted) == back,
{
    let text = front + seq![wanted] + back;
    let at = front.len() as int;
    assert forall|i: int| 0 <= i < at implies text[i] != wanted by {
        assert(front.contains(front[i]));
    }
    assert(text[at] == wanted);
    lemma_find(text, wanted, at);
    assert(text.take(at) =~= front);
    assert(text.skip(at + 1) =~= back);
}

proof fn lemma_parsed_shape(uri: Seq<char>)
    requires
        uri_endpoint(uri) is Ok,
    ensures
        is_uri_host(uri_endpoint(uri)->Ok_0.host),
        uri_endpoint(uri)->Ok_0.app matches Some(app) ==> app.len() > 0 && !app.contains('/')
            && !app.contains('?'),
        uri_endpoint(uri)->Ok_0.stream_key matches Some(key) ==> key.len() > 0 && !key.contains(
            '?',
        ),
{
    let tls = !has_prefix(uri, "rtmp://"@);
    let rest = if tls {
        uri.skip("rtmps://"@.len() as int)
    } else {
        uri.skip("rtmp://"@.len() as int)
    };
    let endpoint = uri_endpoint(uri)->Ok_0;
    let bare = before(rest, '?');
    lemma_before_is_prefix(rest, '?');
    let authority = before(bare, '/');
    lemma_before_is_prefix(bare, '/');
    let inner = authority.skip(1);
    assert forall|c: char| inner.contains(c) implies authority.contains(c) by {
        let i = choose|i: int| 0 <= i < inner.len() && inner[i] == c;
        assert(authority[i + 1] == c);
    }
    lemma_before_is_prefix(inner, ']');
    lemma_before_is_prefix(authority, ':');
    let path = behind(bare, '/');
    let counted = counted_path(path);
    assert forall|c: char| counted.contains(c) implies path.contains(c) by {
        let i = choose|i: int| 0 <= i < counted.len() && counted[i] == c;
        assert(path[i] == c);
    }
    lemma_before_is_prefix(counted, '/');
}

proof fn lemma_no_digit_is(c: char, port: u16)
    requires
        !is_digit(c),
    ensures
        !decimal(port as nat).contains(c),
{
    law_port_reads_back(port);
    let digits = decimal(port as nat);
    if digits.contains(c) {
        let i = choose|i: int| 0 <= i < digits.len() && digits[i] == c;
        assert(is_digit(digits[i]));
    }
}

proof fn lemma_authority_reads_back(host: Seq<char>, port: u16, fallback: u16)
    requires
        is_uri_host(host),
        can_be_written(host),
    ensures
        authority_parts(bracketed(host) + seq![':'] + decimal(port as nat), fallback) == Ok::<
            (Seq<char>, u16),
            Seq<char>,
        >((host, port)),
        !(bracketed(host) + seq![':'] + decimal(port as nat)).contains('/'),
        !(bracketed(host) + seq![':'] + decimal(port as nat)).contains('?'),
{
    let digits = decimal(port as nat);
    let authority = bracketed(host) + seq![':'] + digits;
    law_port_reads_back(port);
    lemma_no_digit_is('/', port);
    lemma_no_digit_is('?', port);
    lemma_no_digit_is(':', port);
    assert forall|c: char| authority.contains(c) && (c == '/' || c == '?') implies host.contains(c)
        || digits.contains(c) by {
        let i = choose|i: int| 0 <= i < authority.len() && authority[i] == c;
        let shown = bracketed(host);
        if i < shown.len() {
            if host.contains(':') {
                assert(host.contains(host[i - 1]));
            } else {
                assert(host.contains(host[i]));
            }
        } else {
            assert(digits.contains(digits[i - shown.len() - 1]));
        }
    }
    if host.contains(':') {
        let inner = authority.skip(1);
        let tail = seq![':'] + digits;
        assert(inner =~= host + seq![']'] + tail);
        lemma_split_at(host, ']', tail);
        assert(tail.skip(1) =~= digits);
    } else {
        lemma_split_at(host, ':', digits);
    }
}

spec fn behind_slash(path: Seq<char>) -> Seq<char> {
    if path.len() == 0 {
        path
    } else {
        path.skip(1)
    }
}

proof fn lemma_front_reads_back(host: Seq<char>, port: u16, tls: bool, path: Seq<char>)
    requires
        is_uri_host(host),
        can_be_written(host),
        path.len() == 0 || path[0] == '/',
        !path.contains('?'),
    ensures
        uri_endpoint(uri_front(host, port, tls) + path) == Ok::<EndpointModel, Seq<char>>(
            EndpointModel {
                host,
                port,
                app: given(Some(before(counted_path(behind_slash(path)), '/'))),
                stream_key: given(Some(behind(counted_path(behind_slash(path)), '/'))),
                tls,
            },
        ),
{
    let authority = bracketed(host) + seq![':'] + decimal(port as nat);
    let rest = authority + path;
    let uri = uri_front(host, port, tls) + path;
    reveal_strlit("rtmp://");
    reveal_strlit("rtmps://");
    lemma_authority_reads_back(host, port, default_port(tls));
    if rest.contains('?') {
        let i = choose|i: int| 0 <= i < rest.len() && rest[i] == '?';
        if i < authority.len() {
            assert(authority.contains(authority[i]));
        } else {
            assert(path.contains(path[i - authority.len()]));
        }
    }
    if tls {
        assert(uri.skip("rtmps://"@.len() as int) =~= rest);
        assert(uri.take("rtmps://"@.len() as int) =~= "rtmps://"@);
        assert(uri.take("rtmp://"@.len() as int)[4] == 's');
        assert("rtmp://"@[4] == ':');
    } else {
        assert(uri.skip("rtmp://"@.len() as int) =~= rest);
        assert(uri.take("rtmp://"@.len() as int) =~= "rtmp://"@);
    }
    if path.len() == 0 {
        assert(rest =~= authority);
        assert(path =~= Seq::<char>::empty());
    } else {
        assert(rest =~= authority + seq!['/'] + path.skip(1));
        lemma_split_at(authority, '/', path.skip(1));
    }
}

proof fn lemma_path_reads_back(app: Seq<char>, key: Option<Seq<char>>)
    requires
        app.len() > 0,
        !app.contains('/'),
        !app.contains('?'),
        key matches Some(key) ==> key.len() > 0 && !key.contains('?') && key.last() != '/',
    ensures
        given(Some(before(counted_path(behind_slash(filter_path(Some(app), key))), '/'))) == Some(app),
        given(Some(behind(counted_path(behind_slash(filter_path(Some(app), key))), '/'))) == key,
        !filter_path(Some(app), key).contains('?'),
{
    let whole = filter_path(Some(app), key);
    let path = whole.skip(1);
    assert(app.contains(app.last()));
    if whole.contains('?') {
        let i = choose|i: int| 0 <= i < whole.len() && whole[i] == '?';
        if 0 < i <= app.len() {
            assert(app.contains(app[i - 1]));
        } else if let Some(key) = key {
            assert(key.contains(key[i - app.len() - 2]));
        }
    }
    match key {
        None => {
            assert(path =~= app);
        },
        Some(key) => {
            assert(path =~= app + seq!['/'] + key);
            lemma_split_at(app, '/', key);
        },
    }
}

/// A URI with port 0 is published with the port that was bound, and reads back
/// as the same endpoint on that port.
///
/// Left out are the URIs whose endpoint no URI of this form can name: a key
/// without an app, a key that ends in a slash, and a bracketed host that
/// starts with a bracket and has no colon.
pub proof fn law_published_uri_reads_back(uri: Seq<char>, port: u16)
    requires
        uri_endpoint(uri) is Ok,
        uri_endpoint(uri)->Ok_0.stream_key is Some ==> uri_endpoint(uri)->Ok_0.app is Some,
        uri_endpoint(uri)->Ok_0.stream_key matches Some(key) ==> key.last() != '/',
        can_be_written(uri_endpoint(uri)->Ok_0.host),
    ensures
        uri_endpoint(bound_uri(uri_endpoint(uri)->Ok_0, port)) == Ok::<EndpointModel, Seq<char>>(
            EndpointModel { port, ..uri_endpoint(uri)->Ok_0 },
        ),
{
    let endpoint = uri_endpoint(uri)->Ok_0;
    let path = filter_path(endpoint.app, endpoint.stream_key);
    lemma_parsed_shape(uri);
    match endpoint.app {
        Some(app) => {
            lemma_path_reads_back(app, endpoint.stream_key);
        },
        None => {
            assert(path =~= Seq::<char>::empty());
        },
    }
    lemma_front_reads_back(endpoint.host, port, endpoint.tls, path);
}

/// The default tcUrl names the server and the application of the endpoint and
/// no stream key, whatever the key is.
pub proof fn law_default_tc_url_names_no_key(uri: Seq<char>, what: Seq<char>)
    requires
        client_endpoint(Some(uri), None, what) is Ok,
        can_be_written(client_endpoint(Some(uri), None, what)->Ok_0.host),
    ensures
        uri_endpoint(client_endpoint(Some(uri), None, what)->Ok_0.tc_url) == Ok::<
            EndpointModel,
            Seq<char>,
        >(EndpointModel { stream_key: None, ..uri_endpoint(uri)->Ok_0 }),
{
    let client = client_endpoint(Some(uri), None, what)->Ok_0;
    let path = filter_path(Some(client.app), None);
    lemma_parsed_shape(uri);
    lemma_path_reads_back(client.app, None);
    lemma_front_reads_back(client.host, client.port, client.tls, path);
    assert(client.tc_url =~= uri_front(client.host, client.port, client.tls) + path);
}

/// Every URI that a client accepts, a listener accepts too, with the same
/// host, port, application, key and transport.
pub proof fn law_client_uris_can_be_listened_on(
    uri: Option<Seq<char>>,
    tc_url: Option<Seq<char>>,
    what: Seq<char>,
    listener: Seq<char>,
)
    requires
        client_endpoint(uri, tc_url, what) is Ok,
    ensures
        ({
            let client = client_endpoint(uri, tc_url, what)->Ok_0;
            listen_endpoint(uri, listener) == Ok::<EndpointModel, Seq<char>>(
                EndpointModel {
                    host: client.host,
                    port: client.port,
                    app: Some(client.app),
                    stream_key: Some(client.stream_key),
                    tls: client.tls,
                },
            )
        }),
{
}

/// A query string changes nothing, whatever it is added to: with it a text
/// names the same endpoint, or fails to for the same reason.
pub proof fn law_query_strings_are_ignored(uri: Seq<char>, query: Seq<char>)
    ensures
        uri_endpoint(uri + seq!['?'] + query) == uri_endpoint(uri),
{
    reveal_strlit("rtmp://");
    reveal_strlit("rtmps://");
    let longer = uri + seq!['?'] + query;
    lemma_prefix_without_query(uri, query, "rtmp://"@);
    lemma_prefix_without_query(uri, query, "rtmps://"@);
    if has_prefix(uri, "rtmp://"@) {
        let rest = uri.skip(7);
        assert(longer.skip(7) =~= rest + seq!['?'] + query);
        lemma_before_query(rest, query);
    } else if has_prefix(uri, "rtmps://"@) {
        let rest = uri.skip(8);
        assert(longer.skip(8) =~= rest + seq!['?'] + query);
        lemma_before_query(rest, query);
    }
}

proof fn lemma_prefix_without_query(uri: Seq<char>, query: Seq<char>, prefix: Seq<char>)
    requires
        !prefix.contains('?'),
    ensures
        has_prefix(uri + seq!['?'] + query, prefix) == has_prefix(uri, prefix),
{
    let longer = uri + seq!['?'] + query;
    let len = prefix.len() as int;
    if uri.len() >= len {
        assert(longer.take(len) =~= uri.take(len));
    } else if longer.len() >= len {
        assert(longer.take(len)[uri.len() as int] == '?');
        if longer.take(len) == prefix {
            assert(prefix[uri.len() as int] == '?');
        }
    }
}

proof fn lemma_before_query(rest: Seq<char>, query: Seq<char>)
    ensures
        before(rest + seq!['?'] + query, '?') == before(rest, '?'),
{
    if rest.contains('?') {
        lemma_before_is_prefix(rest, '?');
        let front = before(rest, '?');
        let back = behind(rest, '?') + seq!['?'] + query;
        assert(rest + seq!['?'] + query =~= front + seq!['?'] + back);
        lemma_split_at(front, '?', back);
    } else {
        lemma_split_at(rest, '?', query);
    }
}

proof fn lemma_uri_reads(tls: bool, authority: Seq<char>, path: Seq<char>)
    requires
        !authority.contains('/'),
        !authority.contains('?'),
        !path.contains('?'),
        path.len() == 0 || path[0] == '/',
    ensures
        uri_endpoint(
            (if tls {
                "rtmps://"@
            } else {
                "rtmp://"@
            }) + authority + path,
        ) == if authority.len() == 0 {
            Err::<EndpointModel, Seq<char>>("RTMP URI must contain a host"@)
        } else {
            match authority_parts(
                authority,
                if tls {
                    443
                } else {
                    1935
                },
            ) {
                Ok((host, port)) => Ok(
                    EndpointModel {
                        host,
                        port,
                        app: given(Some(before(counted_path(behind_slash(path)), '/'))),
                        stream_key: given(Some(behind(counted_path(behind_slash(path)), '/'))),
                        tls,
                    },
                ),
                Err(message) => Err(message),
            }
        },
{
    let rest = authority + path;
    let uri = (if tls {
        "rtmps://"@
    } else {
        "rtmp://"@
    }) + authority + path;
    reveal_strlit("rtmp://");
    reveal_strlit("rtmps://");
    if rest.contains('?') {
        let i = choose|i: int| 0 <= i < rest.len() && rest[i] == '?';
        if i < authority.len() {
            assert(authority.contains(authority[i]));
        } else {
            assert(path.contains(path[i - authority.len()]));
        }
    }
    if tls {
        assert(uri.skip("rtmps://"@.len() as int) =~= rest);
        assert(uri.take("rtmps://"@.len() as int) =~= "rtmps://"@);
        assert(uri.take("rtmp://"@.len() as int)[4] == 's');
        assert("rtmp://"@[4] == ':');
    } else {
        assert(uri.skip("rtmp://"@.len() as int) =~= rest);
        assert(uri.take("rtmp://"@.len() as int) =~= "rtmp://"@);
    }
    if path.len() == 0 {
        assert(rest =~= authority);
        assert(path =~= Seq::<char>::empty());
    } else {
        assert(rest =~= authority + seq!['/'] + path.skip(1));
        lemma_split_at(authority, '/', path.skip(1));
    }
}

proof fn lemma_port_text_is_plain(digits: Seq<char>, c: char)
    requires
        port_of(digits) is Some,
        c != '+',
        !is_digit(c),
    ensures
        !digits.contains(c),
{
    if digits.contains(c) {
        let i = choose|i: int| 0 <= i < digits.len() && digits[i] == c;
        if digits[0] == '+' {
            assert(is_digit(digits.skip(1)[i - 1]));
        } else {
            assert(is_digit(digits[i]));
        }
    }
}

proof fn lemma_joined_without(front: Seq<char>, wanted: char, back: Seq<char>, c: char)
    requires
        c != wanted,
        !front.contains(c),
        !back.contains(c),
    ensures
        !(front + seq![wanted] + back).contains(c),
{
    let text = front + seq![wanted] + back;
    if text.contains(c) {
        let i = choose|i: int| 0 <= i < text.len() && text[i] == c;
        if i < front.len() {
            assert(front.contains(front[i]));
        } else {
            assert(back.contains(back[i - front.len() - 1]));
        }
    }
}

/// The scheme of a URI.
spec fn scheme(tls: bool) -> Seq<char> {
    if tls {
        "rtmps://"@
    } else {
        "rtmp://"@
    }
}

proof fn lemma_authority_names(
    host: Seq<char>,
    brackets: bool,
    port: Option<(Seq<char>, u16)>,
    fallback: u16,
)
    requires
        host.len() > 0,
        !host.contains('/'),
        !host.contains('?'),
        brackets ==> !host.contains(']'),
        !brackets ==> host[0] != '[' && !host.contains(':'),
        port matches Some((digits, number)) ==> port_of(digits) == Some(number),
    ensures
        ({
            let authority = (if brackets {
                seq!['['] + host + seq![']']
            } else {
                host
            }) + (match port {
                Some((digits, number)) => seq![':'] + digits,
                None => Seq::empty(),
            });
            &&& authority.len() > 0
            &&& !authority.contains('/')
            &&& !authority.contains('?')
            &&& authority_parts(authority, fallback) == Ok::<(Seq<char>, u16), Seq<char>>(
                (
                    host,
                    match port {
                        Some((digits, number)) => number,
                        None => fallback,
                    },
                ),
            )
        }),
{
    let nothing = Seq::<char>::empty();
    let tail = match port {
        Some((digits, number)) => seq![':'] + digits,
        None => nothing,
    };
    assert(!tail.contains('/') && !tail.contains('?')) by {
        if let Some((digits, number)) = port {
            lemma_port_text_is_plain(digits, '/');
            lemma_port_text_is_plain(digits, '?');
            lemma_joined_without(nothing, ':', digits, '/');
            lemma_joined_without(nothing, ':', digits, '?');
            assert(nothing + seq![':'] + digits =~= tail);
        }
    }
    if brackets {
        let open = seq!['['] + host;
        let authority = open + seq![']'] + tail;
        lemma_joined_without(nothing, '[', host, '/');
        lemma_joined_without(nothing, '[', host, '?');
        assert(nothing + seq!['['] + host =~= open);
        lemma_joined_without(open, ']', tail, '/');
        lemma_joined_without(open, ']', tail, '?');
        assert(authority.skip(1) =~= host + seq![']'] + tail);
        lemma_split_at(host, ']', tail);
        if let Some((digits, number)) = port {
            assert(tail.skip(1) =~= digits);
        }
    } else {
        match port {
            Some((digits, number)) => {
                lemma_port_text_is_plain(digits, ':');
                lemma_port_text_is_plain(digits, '/');
                lemma_port_text_is_plain(digits, '?');
                lemma_split_at(host, ':', digits);
                lemma_joined_without(host, ':', digits, '/');
                lemma_joined_without(host, ':', digits, '?');
                assert(host + tail =~= host + seq![':'] + digits);
                assert((host + tail)[0] == host[0]);
            },
            None => {
                assert(host + tail =~= host);
            },
        }
    }
}

proof fn lemma_path_names(app: Option<Seq<char>>, key: Option<Seq<char>>, slash: bool)
    requires
        app matches Some(app) ==> app.len() > 0 && !app.contains('/') && !app.contains('?'),
        key matches Some(key) ==> key.len() > 0 && !key.contains('?') && (key.last() != '/'
            || slash),
    ensures
        ({
            let path = (match (app, key) {
                (Some(app), Some(key)) => seq!['/'] + app + seq!['/'] + key,
                (Some(app), None) => seq!['/'] + app,
                (None, Some(key)) => seq!['/', '/'] + key,
                (None, None) => Seq::empty(),
            }) + (if slash {
                seq!['/']
            } else {
                Seq::empty()
            });
            &&& path.len() == 0 || path[0] == '/'
            &&& !path.contains('?')
            &&& given(Some(before(counted_path(behind_slash(path)), '/'))) == app
            &&& given(Some(behind(counted_path(behind_slash(path)), '/'))) == key
        }),
{
    let nothing = Seq::<char>::empty();
    let end = if slash {
        seq!['/']
    } else {
        nothing
    };
    match key {
        None => match app {
            None => {
                assert(nothing + end =~= end);
                assert(behind_slash(end) =~= nothing);
                assert(counted_path(nothing) =~= nothing);
                assert(!nothing.contains('/'));
            },
            Some(app) => {
                let path = seq!['/'] + app + end;
                assert(path =~= nothing + seq!['/'] + (app + end));
                lemma_joined_without(app, '/', nothing, '?');
                assert(app + seq!['/'] + nothing =~= app + seq!['/']);
                assert(app + nothing =~= app);
                lemma_joined_without(nothing, '/', app + end, '?');
                assert(app.contains(app.last()));
                assert(path.skip(1) =~= app + end);
                assert(counted_path(app + end) =~= app);
            },
        },
        Some(key) => {
            let name = match app {
                Some(app) => app,
                None => nothing,
            };
            let whole = name + seq!['/'] + key;
            let path = (match app {
                Some(app) => seq!['/'] + app + seq!['/'] + key,
                None => seq!['/', '/'] + key,
            }) + end;
            lemma_joined_without(name, '/', key, '?');
            lemma_joined_without(whole, '/', nothing, '?');
            assert(whole + seq!['/'] + nothing =~= whole + seq!['/']);
            assert(whole + nothing =~= whole);
            lemma_joined_without(nothing, '/', whole + end, '?');
            assert(path =~= nothing + seq!['/'] + (whole + end));
            assert(path.skip(1) =~= whole + end);
            assert(whole.last() == key.last());
            assert(counted_path(whole + end) =~= whole);
            lemma_split_at(name, '/', key);
        },
    }
}

/// A URI names exactly what stands in it: the scheme says whether the
/// connection is secured, the host is taken character for character (without
/// the brackets, in which it may hold colons), the port is the number behind the
/// colon (1935 without one, 443 on `rtmps://`), the application is the first
/// segment of the path and the stream key all that follows, with its slashes.
/// What is missing is not named, and one slash at the end does not count.
pub proof fn law_uri_names_its_parts(
    tls: bool,
    host: Seq<char>,
    brackets: bool,
    port: Option<(Seq<char>, u16)>,
    app: Option<Seq<char>>,
    key: Option<Seq<char>>,
    slash: bool,
)
    requires
        host.len() > 0,
        !host.contains('/'),
        !host.contains('?'),
        brackets ==> !host.contains(']'),
        !brackets ==> host[0] != '[' && !host.contains(':'),
        port matches Some((digits, number)) ==> port_of(digits) == Some(number),
        app matches Some(app) ==> app.len() > 0 && !app.contains('/') && !app.contains('?'),
        key matches Some(key) ==> key.len() > 0 && !key.contains('?') && (key.last() != '/'
            || slash),
    ensures
        ({
            let authority = (if brackets {
                seq!['['] + host + seq![']']
            } else {
                host
            }) + (match port {
                Some((digits, number)) => seq![':'] + digits,
                None => Seq::empty(),
            });
            let path = (match (app, key) {
                (Some(app), Some(key)) => seq!['/'] + app + seq!['/'] + key,
                (Some(app), None) => seq!['/'] + app,
                (None, Some(key)) => seq!['/', '/'] + key,
                (None, None) => Seq::empty(),
            }) + (if slash {
                seq!['/']
            } else {
                Seq::empty()
            });
            let uri = (if tls {
                "rtmps://"@
            } else {
                "rtmp://"@
            }) + authority + path;
            &&& uri_endpoint(uri) is Ok
            &&& uri_endpoint(uri)->Ok_0.host == host
            &&& uri_endpoint(uri)->Ok_0.port == match port {
                Some((digits, number)) => number,
                None => if tls {
                    443
                } else {
                    1935
                },
            }
            &&& uri_endpoint(uri)->Ok_0.app == app
            &&& uri_endpoint(uri)->Ok_0.stream_key == key
            &&& uri_endpoint(uri)->Ok_0.tls == tls
        }),
{
    let authority = (if brackets {
        seq!['['] + host + seq![']']
    } else {
        host
    }) + (match port {
        Some((digits, number)) => seq![':'] + digits,
        None => Seq::empty(),
    });
    let path = (match (app, key) {
        (Some(app), Some(key)) => seq!['/'] + app + seq!['/'] + key,
        (Some(app), None) => seq!['/'] + app,
        (None, Some(key)) => seq!['/', '/'] + key,
        (None, None) => Seq::empty(),
    }) + (if slash {
        seq!['/']
    } else {
        Seq::empty()
    });
    lemma_authority_names(
        host,
        brackets,
        port,
        if tls {
            443
        } else {
            1935
        },
    );
    lemma_path_names(app, key, slash);
    lemma_uri_reads(tls, authority, path);
}

/// Any other scheme is refused.
pub proof fn law_other_schemes_are_refused(uri: Seq<char>)
    requires
        forall|rest: Seq<char>|
            uri != #[trigger] ("rtmp://"@ + rest) && uri != "rtmps://"@ + rest,
    ensures
        uri_endpoint(uri) == Err::<EndpointModel, Seq<char>>(
            "RTMP URI must start with rtmp:// or rtmps://"@,
        ),
{
    reveal_strlit("rtmp://");
    reveal_strlit("rtmps://");
    if has_prefix(uri, "rtmp://"@) {
        assert(uri =~= "rtmp://"@ + uri.skip(7));
    }
    if has_prefix(uri, "rtmps://"@) {
        assert(uri =~= "rtmps://"@ + uri.skip(8));
        assert(uri != "rtmp://"@ + uri.skip(8));
    }
}

/// A URI without a host is refused, with brackets and without.
pub proof fn law_missing_hosts_are_refused(tls: bool, port: Seq<char>, path: Seq<char>)
    requires
        !port.contains(':'),
        !port.contains('/'),
        !port.contains('?'),
        path.len() == 0 || path[0] == '/',
        !path.contains('?'),
    ensures
        ({
            let scheme = if tls {
                "rtmps://"@
            } else {
                "rtmp://"@
            };
            let refused = Err::<EndpointModel, Seq<char>>("RTMP URI must contain a host"@);
            &&& uri_endpoint(scheme + path) == refused
            &&& uri_endpoint(scheme + (seq![':'] + port) + path) == refused
            &&& uri_endpoint(scheme + (seq!['['] + seq![']'] + port) + path) == refused
        }),
{
    let nothing = Seq::<char>::empty();
    let refused = Err::<EndpointModel, Seq<char>>("RTMP URI must contain a host"@);
    assert(uri_endpoint(scheme(tls) + path) == refused) by {
        lemma_uri_reads(tls, nothing, path);
        assert(scheme(tls) + nothing + path =~= scheme(tls) + path);
    }
    assert(uri_endpoint(scheme(tls) + (seq![':'] + port) + path) == refused) by {
        let authority = seq![':'] + port;
        lemma_joined_without(nothing, ':', port, '/');
        lemma_joined_without(nothing, ':', port, '?');
        lemma_split_at(nothing, ':', port);
        assert(nothing + seq![':'] + port =~= authority);
        lemma_uri_reads(tls, authority, path);
    }
    assert(uri_endpoint(scheme(tls) + (seq!['['] + seq![']'] + port) + path) == refused) by {
        let authority = seq!['['] + seq![']'] + port;
        lemma_joined_without(seq!['['], ']', port, '/');
        lemma_joined_without(seq!['['], ']', port, '?');
        assert(authority.skip(1) =~= nothing + seq![']'] + port);
        lemma_split_at(nothing, ']', port);
        lemma_uri_reads(tls, authority, path);
    }
}

/// What stands behind the colon must be a port, and behind a closing bracket
/// nothing but a colon and a port may stand.
pub proof fn law_invalid_ports_are_refused(
    tls: bool,
    host: Seq<char>,
    brackets: bool,
    tail: Seq<char>,
    path: Seq<char>,
)
    requires
        host.len() > 0,
        !host.contains('/'),
        !host.contains('?'),
        brackets ==> !host.contains(']'),
        !brackets ==> host[0] != '[' && !host.contains(':'),
        tail.len() > 0,
        !tail.contains('/'),
        !tail.contains('?'),
        !brackets ==> tail[0] == ':' && !tail.skip(1).contains(':'),
        tail[0] == ':' ==> port_of(tail.skip(1)) is None,
        path.len() == 0 || path[0] == '/',
        !path.contains('?'),
    ensures
        uri_endpoint(
            (if tls {
                "rtmps://"@
            } else {
                "rtmp://"@
            }) + ((if brackets {
                seq!['['] + host + seq![']']
            } else {
                host
            }) + tail) + path,
        ) == Err::<EndpointModel, Seq<char>>("RTMP URI has an invalid port"@),
{
    let nothing = Seq::<char>::empty();
    if brackets {
        let open = seq!['['] + host;
        let authority = open + seq![']'] + tail;
        lemma_joined_without(nothing, '[', host, '/');
        lemma_joined_without(nothing, '[', host, '?');
        assert(nothing + seq!['['] + host =~= open);
        lemma_joined_without(open, ']', tail, '/');
        lemma_joined_without(open, ']', tail, '?');
        assert(authority.skip(1) =~= host + seq![']'] + tail);
        lemma_split_at(host, ']', tail);
        lemma_uri_reads(tls, authority, path);
    } else {
        let port = tail.skip(1);
        let authority = host + tail;
        assert(authority =~= host + seq![':'] + port);
        assert forall|c: char| port.contains(c) implies tail.contains(c) by {
            let i = choose|i: int| 0 <= i < port.len() && port[i] == c;
            assert(tail[i + 1] == c);
        }
        lemma_joined_without(host, ':', port, '/');
        lemma_joined_without(host, ':', port, '?');
        lemma_split_at(host, ':', port);
        assert(authority[0] == host[0]);
        lemma_uri_reads(tls, authority, path);
    }
}

/// A host with colons in it needs brackets, and brackets must be closed.
pub proof fn law_colons_need_closed_brackets(
    tls: bool,
    front: Seq<char>,
    middle: Seq<char>,
    back: Seq<char>,
    open: Seq<char>,
    path: Seq<char>,
)
    requires
        front.len() == 0 || front[0] != '[',
        !front.contains(':'),
        !front.contains('/'),
        !front.contains('?'),
        !middle.contains('/'),
        !middle.contains('?'),
        !back.contains('/'),
        !back.contains('?'),
        !open.contains(']'),
        !open.contains('/'),
        !open.contains('?'),
        path.len() == 0 || path[0] == '/',
        !path.contains('?'),
    ensures
        uri_endpoint(
            (if tls {
                "rtmps://"@
            } else {
                "rtmp://"@
            }) + (front + seq![':'] + (middle + seq![':'] + back)) + path,
        ) == Err::<EndpointModel, Seq<char>>(
            "RTMP URI IPv6 literals must use brackets, e.g. rtmp://[::]:1935/"@,
        ),
        uri_endpoint(
            (if tls {
                "rtmps://"@
            } else {
                "rtmp://"@
            }) + (seq!['['] + open) + path,
        ) == Err::<EndpointModel, Seq<char>>("RTMP URI has an unterminated IPv6 literal"@),
{
    let nothing = Seq::<char>::empty();
    assert(uri_endpoint(
        scheme(tls) + (front + seq![':'] + (middle + seq![':'] + back)) + path,
    ) == Err::<EndpointModel, Seq<char>>(
        "RTMP URI IPv6 literals must use brackets, e.g. rtmp://[::]:1935/"@,
    )) by {
        let rest = middle + seq![':'] + back;
        let authority = front + seq![':'] + rest;
        lemma_joined_without(middle, ':', back, '/');
        lemma_joined_without(middle, ':', back, '?');
        lemma_joined_without(front, ':', rest, '/');
        lemma_joined_without(front, ':', rest, '?');
        assert(rest[middle.len() as int] == ':');
        lemma_split_at(front, ':', rest);
        if front.len() > 0 {
            assert(authority[0] == front[0]);
        } else {
            assert(authority[0] == ':');
        }
        lemma_uri_reads(tls, authority, path);
    }
    assert(uri_endpoint(scheme(tls) + (seq!['['] + open) + path) == Err::<
        EndpointModel,
        Seq<char>,
    >("RTMP URI has an unterminated IPv6 literal"@)) by {
        let authority = seq!['['] + open;
        lemma_joined_without(nothing, '[', open, '/');
        lemma_joined_without(nothing, '[', open, '?');
        assert(nothing + seq!['['] + open =~= authority);
        assert(authority.skip(1) =~= open);
        lemma_uri_reads(tls, authority, path);
    }
}

/// A client connects where its URI says, for the application and the stream key
/// that stand in it, under the tcUrl that is set; if none is set, under the one
/// that its server and application make.
pub proof fn law_client_connects_as_it_was_told(
    uri: Seq<char>,
    tc_url: Option<Seq<char>>,
    what: Seq<char>,
    named: EndpointModel,
    app: Seq<char>,
    stream_key: Seq<char>,
)
    requires
        uri.len() > 0,
        uri_endpoint(uri) == Ok::<EndpointModel, Seq<char>>(named),
        named.app == Some(app),
        named.stream_key == Some(stream_key),
    ensures
        client_endpoint(Some(uri), tc_url, what) is Ok,
        ({
            let client = client_endpoint(Some(uri), tc_url, what)->Ok_0;
            let host = if named.host.contains(':') {
                seq!['['] + named.host + seq![']']
            } else {
                named.host
            };
            &&& client.host == named.host
            &&& client.port == named.port
            &&& client.app == app
            &&& client.stream_key == stream_key
            &&& client.tls == named.tls
            &&& tc_url is Some && tc_url->Some_0.len() > 0 ==> client.tc_url == tc_url->Some_0
            &&& tc_url is None || tc_url->Some_0.len() == 0 ==> client.tc_url == (
            if named.tls {
                "rtmps://"@
            } else {
                "rtmp://"@
            }) + host + seq![':'] + decimal(named.port as nat) + seq!['/'] + app
        }),
{
}

/// A client needs a URI, one that can be read, and in it both an application and
/// a stream key, whatever the tcUrl is.
pub proof fn law_client_needs_a_full_uri(
    uri: Option<Seq<char>>,
    tc_url: Option<Seq<char>>,
    what: Seq<char>,
)
    ensures
        uri is None || uri->Some_0.len() == 0 ==> client_endpoint(uri, tc_url, what) == Err::<
            ClientModel,
            Seq<char>,
        >(what + " needs uri, e.g. rtmp://host:1935/app/key"@),
        uri is Some && uri->Some_0.len() > 0 ==> match uri_endpoint(uri->Some_0) {
            Err(message) => client_endpoint(uri, tc_url, what) == Err::<ClientModel, Seq<char>>(
                message,
            ),
            Ok(named) => named.app is None || named.stream_key is None ==> client_endpoint(
                uri,
                tc_url,
                what,
            ) == Err::<ClientModel, Seq<char>>(
                what + " needs a full RTMP URI with application and stream key"@,
            ),
        },
{
}

/// A listener needs a URI that can be read and takes from it where to bind and
/// whom to let in; nothing in it is required but the host.
pub proof fn law_listener_binds_what_its_uri_names(uri: Option<Seq<char>>, what: Seq<char>)
    ensures
        uri is None || uri->Some_0.len() == 0 ==> listen_endpoint(uri, what) == Err::<
            EndpointModel,
            Seq<char>,
        >(what + " needs uri, e.g. rtmp://host:1935/app/key"@),
        uri is Some && uri->Some_0.len() > 0 ==> listen_endpoint(uri, what) == uri_endpoint(
            uri->Some_0,
        ),
{
}

/// The URI of a bound listener spells out its scheme, its host (in brackets if
/// it has a colon in it), the port that was bound, and the application and key
/// that it lets in.
pub proof fn law_bound_uri_spells_the_endpoint_out(
    host: Seq<char>,
    asked: u16,
    app: Seq<char>,
    key: Seq<char>,
    tls: bool,
    port: u16,
)
    ensures
        ({
            let shown = if host.contains(':') {
                seq!['['] + host + seq![']']
            } else {
                host
            };
            let front = (if tls {
                "rtmps://"@
            } else {
                "rtmp://"@
            }) + shown + seq![':'] + decimal(port as nat);
            let open = EndpointModel { host, port: asked, app: None, stream_key: None, tls };
            let named = EndpointModel { app: Some(app), ..open };
            let whole = EndpointModel { stream_key: Some(key), ..named };
            &&& bound_uri(open, port) == front
            &&& bound_uri(named, port) == front + seq!['/'] + app
            &&& bound_uri(whole, port) == front + seq!['/'] + app + seq!['/'] + key
        }),
{
    let front = uri_front(host, port, tls);
    assert(front + Seq::<char>::empty() =~= front);
    assert(front + (seq!['/'] + app) =~= front + seq!['/'] + app);
    assert(front + (seq!['/'] + app + seq!['/'] + key) =~= front + seq!['/'] + app + seq!['/']
        + key);
}

/// What an endpoint says is what it holds: each part is read from its own field.
pub proof fn law_endpoints_show_their_fields(
    parsed: RtmpEndpoint,
    client: ClientEndpoint,
    listener: ListenEndpoint,
)
    ensures
        parsed@.host == parsed.host@ && parsed@.port == parsed.port && parsed@.tls == parsed.tls,
        parsed@.app is Some <==> parsed.app is Some,
        parsed.app matches Some(app) ==> parsed@.app == Some(app@),
        parsed@.stream_key is Some <==> parsed.stream_key is Some,
        parsed.stream_key matches Some(key) ==> parsed@.stream_key == Some(key@),
        client@.host == client.host@ && client@.port == client.port && client@.tls == client.tls,
        client@.app == client.app@ && client@.stream_key == client.stream_key@ && client@.tc_url
            == client.tc_url@,
        listener@.host == listener.bind_host@ && listener@.port == listener.port && listener@.tls
            == listener.tls,
        listener@.app is Some <==> listener.app_filter is Some,
        listener.app_filter matches Some(app) ==> listener@.app == Some(app@),
        listener@.stream_key is Some <==> listener.key_filter is Some,
        listener.key_filter matches Some(key) ==> listener@.stream_key == Some(key@),
{
}

} // verus!
