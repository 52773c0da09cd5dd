//! Starting an element: the steps, their order, and what each failure means.

use vstd::prelude::*;
use vstd::string::*;

use crate::endpoint::client_endpoint;
use crate::endpoint::listen_endpoint;
use crate::endpoint::bound_uri;
use crate::endpoint::published_uri;
use crate::endpoint::resolve_client_endpoint;
use crate::endpoint::resolve_listen_endpoint;
use crate::endpoint::ClientEndpoint;
use crate::endpoint::ClientModel;
use crate::endpoint::EndpointModel;
use crate::endpoint::ListenEndpoint;
use crate::text::as_opt_str;
use crate::text::copy_opt;
use crate::text::join2;
use crate::text::join4;
use crate::text::join5;
use crate::text::opt_text;
use crate::tls::listen_files;
use crate::tls::resolve_tls_acceptor;
use crate::tls::TlsFilesModel;
use crate::tls::TlsListenFiles;

verus! {

/// Which element is meant.
#[derive(Debug, Clone, Copy, PartialEq, Eq, Structural)]
pub enum Element {
    Source,
    Sink,
}

/// The kind of an element error.
#[derive(Debug, Clone, Copy, PartialEq, Eq, Structural)]
pub enum ErrorKind {
    Settings,
    OpenRead,
    OpenWrite,
    Read,
    Write,
    Failed,
    Close,
    StateChange,
}

/// An error as the pipeline sees it.
#[derive(Debug)]
pub struct ElementError {
    pub kind: ErrorKind,
    pub message: String,
}

/// An element error, as plain mathematics.
#[verifier::ext_equal]
pub struct ErrorModel {
    pub kind: ErrorKind,
    pub message: Seq<char>,
}

impl View for ElementError {
    type V = ErrorModel;

    open spec fn view(&self) -> ErrorModel {
        ErrorModel { kind: self.kind, message: self.message@ }
    }
}

/// What an element calls its listen mode.
pub open spec fn listen_label(element: Element) -> Seq<char> {
    match element {
        Element::Source => "rtmpxsrc listen mode"@,
        Element::Sink => "rtmpxsink listen mode"@,
    }
}

/// What an element calls its client mode.
pub open spec fn client_label(element: Element) -> Seq<char> {
    match element {
        Element::Source => "rtmpxsrc play mode"@,
        Element::Sink => "rtmpxsink"@,
    }
}

/// The kind of an error while an element opens its connection.
pub open spec fn opening_kind(element: Element) -> ErrorKind {
    match element {
        Element::Source => ErrorKind::OpenRead,
        Element::Sink => ErrorKind::OpenWrite,
    }
}

impl Element {
    fn listen_name(self) -> (name: &'static str)
        ensures
            name@ == listen_label(self),
    {
        match self {
            Element::Source => "rtmpxsrc listen mode",
            Element::Sink => "rtmpxsink listen mode",
        }
    }

    fn client_name(self) -> (name: &'static str)
        ensures
            name@ == client_label(self),
    {
        match self {
            Element::Source => "rtmpxsrc play mode",
            Element::Sink => "rtmpxsink",
        }
    }

    fn opening(self) -> (kind: ErrorKind)
        ensures
            kind == opening_kind(self),
    {
        match self {
            Element::Source => ErrorKind::OpenRead,
            Element::Sink => ErrorKind::OpenWrite,
        }
    }
}

/// What the settings say about listening.
#[derive(Debug)]
pub struct ListenSettings {
    pub uri: Option<String>,
    pub tls_cert: Option<String>,
    pub tls_key: Option<String>,
    pub tls_ca_cert: Option<String>,
}

/// What has just happened while a listener is started.
#[derive(Debug)]
pub enum StartEvent {
    /// Nothing yet.
    Begin,
    /// TLS is set up.
    TlsReady,
    /// TLS could not be set up, and why.
    TlsFailed(String),
    /// The host is an IP literal.
    HostParsed,
    /// The host is no IP literal, and why.
    HostInvalid(String),
    /// The socket is bound.
    Bound,
    /// The socket could not be bound to this address, and why.
    BindFailed { address: String, reason: String },
    /// The socket does not block.
    Nonblocking,
    /// The socket could not be made so, and why.
    NonblockingFailed(String),
    /// The socket's port is known.
    Located { port: u16 },
    /// It is not, and why.
    LocateFailed(String),
    /// The worker runs.
    Spawned,
    /// The worker could not be started, and why.
    SpawnFailed(String),
    /// The element remembers the worker.
    Stored,
    /// The element has a worker already.
    AlreadyRunning,
    /// The worker is ready.
    Reported,
    /// The worker gave up, and why.
    ReportedFailure(String),
    /// The worker did not report in time, and why.
    NoReport(String),
}

/// What to do next while a listener is started.
#[derive(Debug)]
pub enum StartAction {
    /// Set up TLS from these files.
    SetUpTls(TlsListenFiles),
    /// Parse this host as an IP literal.
    ParseHost(String),
    /// Bind the host's address with this port.
    Bind { port: u16 },
    /// Make the socket nonblocking.
    SetNonblocking,
    /// Ask for the socket's address.
    Locate,
    /// Start the worker with these filters.
    Spawn { app_filter: Option<String>, key_filter: Option<String> },
    /// Remember the worker in the element.
    Store,
    /// Wait for the worker to report.
    AwaitReport,
    /// Started; publish this URI, if there is one.
    Done { uri: Option<String> },
    /// Fail; a worker that runs already is stopped and waited for.
    Fail { error: ElementError, stop_worker: bool },
}

/// What to do next, as plain mathematics.
#[verifier::ext_equal]
pub enum StartActionModel {
    SetUpTls(TlsFilesModel),
    ParseHost(Seq<char>),
    Bind { port: u16 },
    SetNonblocking,
    Locate,
    Spawn { app_filter: Option<Seq<char>>, key_filter: Option<Seq<char>> },
    Store,
    AwaitReport,
    Done { uri: Option<Seq<char>> },
    Fail { error: ErrorModel, stop_worker: bool },
}

impl View for StartAction {
    type V = StartActionModel;

    open spec fn view(&self) -> StartActionModel {
        match self {
            StartAction::SetUpTls(files) => StartActionModel::SetUpTls(files@),
            StartAction::ParseHost(host) => StartActionModel::ParseHost(host@),
            StartAction::Bind { port } => StartActionModel::Bind { port: *port },
            StartAction::SetNonblocking => StartActionModel::SetNonblocking,
            StartAction::Locate => StartActionModel::Locate,
            StartAction::Spawn { app_filter, key_filter } => StartActionModel::Spawn {
                app_filter: opt_text(*app_filter),
                key_filter: opt_text(*key_filter),
            },
            StartAction::Store => StartActionModel::Store,
            StartAction::AwaitReport => StartActionModel::AwaitReport,
            StartAction::Done { uri } => StartActionModel::Done { uri: opt_text(*uri) },
            StartAction::Fail { error, stop_worker } => StartActionModel::Fail {
                error: error@,
                stop_worker: *stop_worker,
            },
        }
    }
}

/// A listener that is being started.
#[derive(Debug)]
pub struct ListenStart {
    element: Element,
    settings: ListenSettings,
    endpoint: Option<ListenEndpoint>,
    local_port: u16,
}

/// A listener that is being started, as plain mathematics.
#[verifier::ext_equal]
pub struct ListenStartModel {
    pub element: Element,
    pub uri: Option<Seq<char>>,
    pub tls_cert: Option<Seq<char>>,
    pub tls_key: Option<Seq<char>>,
    pub tls_ca_cert: Option<Seq<char>>,
    /// Where to listen, once the URI was read.
    pub endpoint: Option<EndpointModel>,
    /// The port that was bound, once it is known.
    pub local_port: u16,
}

impl View for ListenStart {
    type V = ListenStartModel;

    closed spec fn view(&self) -> ListenStartModel {
        ListenStartModel {
            element: self.element,
            uri: opt_text(self.settings.uri),
            tls_cert: opt_text(self.settings.tls_cert),
            tls_key: opt_text(self.settings.tls_key),
            tls_ca_cert: opt_text(self.settings.tls_ca_cert),
            endpoint: match self.endpoint {
                Some(endpoint) => Some(endpoint@),
                None => None,
            },
            local_port: self.local_port,
        }
    }
}

/// A failure before there is a worker.
pub open spec fn fail(kind: ErrorKind, message: Seq<char>) -> StartActionModel {
    StartActionModel::Fail { error: ErrorModel { kind, message }, stop_worker: false }
}

/// A failure that also stops the worker.
pub open spec fn abandon(kind: ErrorKind, message: Seq<char>) -> StartActionModel {
    StartActionModel::Fail { error: ErrorModel { kind, message }, stop_worker: true }
}

impl ListenStartModel {
    /// The host to bind; empty before the URI was read.
    pub open spec fn host(self) -> Seq<char> {
        match self.endpoint {
            Some(endpoint) => endpoint.host,
            None => Seq::empty(),
        }
    }

    /// The first step: the URI must name an endpoint, and an `rtmps://`
    /// endpoint needs its files.
    pub open spec fn begin(self) -> (ListenStartModel, StartActionModel) {
        match listen_endpoint(self.uri, listen_label(self.element)) {
            Err(message) => (self, fail(ErrorKind::Settings, message)),
            Ok(endpoint) => {
                let next = ListenStartModel { endpoint: Some(endpoint), ..self };
                match listen_files(
                    endpoint.tls,
                    self.tls_cert,
                    self.tls_key,
                    self.tls_ca_cert,
                    listen_label(self.element),
                ) {
                    Err(message) => (next, fail(ErrorKind::Settings, message)),
                    Ok(Some(files)) => (next, StartActionModel::SetUpTls(files)),
                    Ok(None) => (next, StartActionModel::ParseHost(endpoint.host)),
                }
            },
        }
    }

    /// The last step.
    pub open spec fn done(self) -> StartActionModel {
        StartActionModel::Done {
            uri: match self.endpoint {
                Some(endpoint) => if endpoint.port == 0 {
                    Some(bound_uri(endpoint, self.local_port))
                } else {
                    None
                },
                None => None,
            },
        }
    }

    /// The next state and action after an event.
    pub open spec fn step(self, event: StartEvent) -> (ListenStartModel, StartActionModel) {
        let opening = opening_kind(self.element);
        match event {
            StartEvent::Begin => self.begin(),
            StartEvent::TlsReady => (self, StartActionModel::ParseHost(self.host())),
            StartEvent::TlsFailed(message) => (self, fail(ErrorKind::Settings, message@)),
            StartEvent::HostParsed => (
                self,
                StartActionModel::Bind {
                    port: match self.endpoint {
                        Some(endpoint) => endpoint.port,
                        None => 0,
                    },
                },
            ),
            StartEvent::HostInvalid(reason) => (
                self,
                fail(
                    ErrorKind::Settings,
                    "Invalid listen host '"@ + self.host() + "': "@ + reason@
                        + " (use an IP literal)"@,
                ),
            ),
            StartEvent::Bound => (self, StartActionModel::SetNonblocking),
            StartEvent::BindFailed { address, reason } => (
                self,
                fail(
                    opening,
                    "Failed to bind RTMP listener on "@ + address@ + ": "@ + reason@,
                ),
            ),
            StartEvent::Nonblocking => (self, StartActionModel::Locate),
            StartEvent::NonblockingFailed(reason) => (
                self,
                fail(
                    ErrorKind::Settings,
                    "Failed to configure RTMP listener as nonblocking: "@ + reason@,
                ),
            ),
            StartEvent::Located { port } => (
                ListenStartModel { local_port: port, ..self },
                StartActionModel::Spawn {
                    app_filter: match self.endpoint {
                        Some(endpoint) => endpoint.app,
                        None => None,
                    },
                    key_filter: match self.endpoint {
                        Some(endpoint) => endpoint.stream_key,
                        None => None,
                    },
                },
            ),
            StartEvent::LocateFailed(reason) => (
                self,
                fail(opening, "Failed to query RTMP listener address: "@ + reason@),
            ),
            StartEvent::Spawned => (
                self,
                match self.element {
                    Element::Source => StartActionModel::AwaitReport,
                    Element::Sink => StartActionModel::Store,
                },
            ),
            StartEvent::SpawnFailed(reason) => (
                self,
                fail(opening, "Failed to spawn RTMP listener worker: "@ + reason@),
            ),
            StartEvent::Stored => (
                self,
                match self.element {
                    Element::Source => self.done(),
                    Element::Sink => StartActionModel::AwaitReport,
                },
            ),
            StartEvent::AlreadyRunning => (
                self,
                abandon(ErrorKind::StateChange, "rtmpxsrc worker is already running"@),
            ),
            StartEvent::Reported => (
                self,
                match self.element {
                    Element::Source => StartActionModel::Store,
                    Element::Sink => self.done(),
                },
            ),
            StartEvent::ReportedFailure(message) => (self, abandon(opening, message@)),
            StartEvent::NoReport(reason) => (
                self,
                abandon(opening, "RTMP listener worker failed to start: "@ + reason@),
            ),
        }
    }
}

fn failing(kind: ErrorKind, message: String) -> (action: StartAction)
    ensures
        action@ == fail(kind, message@),
{
    StartAction::Fail { error: ElementError { kind, message }, stop_worker: false }
}

fn abandoning(kind: ErrorKind, message: String) -> (action: StartAction)
    ensures
        action@ == abandon(kind, message@),
{
    StartAction::Fail { error: ElementError { kind, message }, stop_worker: true }
}

impl ListenStart {
    /// A listener before its first step.
    pub fn new(element: Element, settings: ListenSettings) -> (start: ListenStart)
        ensures
            start@ == (ListenStartModel {
                element,
                uri: opt_text(settings.uri),
                tls_cert: opt_text(settings.tls_cert),
                tls_key: opt_text(settings.tls_key),
                tls_ca_cert: opt_text(settings.tls_ca_cert),
                endpoint: None,
                local_port: 0,
            }),
    {
        ListenStart { element, settings, endpoint: None, local_port: 0 }
    }

    fn resolve(&mut self) -> (action: StartAction)
        ensures
            (final(self)@, action@) == old(self)@.begin(),
    {
        let what: &str = self.element.listen_name();
        let endpoint: ListenEndpoint = match resolve_listen_endpoint(&self.settings.uri, what) {
            Ok((endpoint, _)) => endpoint,
            Err(message) => return failing(ErrorKind::Settings, message),
        };
        let files: Result<Option<TlsListenFiles>, String> = resolve_tls_acceptor(
            endpoint.tls,
            as_opt_str(&self.settings.tls_cert),
            as_opt_str(&self.settings.tls_key),
            as_opt_str(&self.settings.tls_ca_cert),
            what,
        );
        let host: String = endpoint.bind_host.clone();
        self.endpoint = Some(endpoint);
        match files {
            Ok(Some(files)) => StartAction::SetUpTls(files),
            Ok(None) => StartAction::ParseHost(host),
            Err(message) => failing(ErrorKind::Settings, message),
        }
    }

    fn host(&self) -> (host: String)
        ensures
            host@ == self@.host(),
    {
        match &self.endpoint {
            Some(endpoint) => endpoint.bind_host.clone(),
            None => String::new(),
        }
    }

    fn finish(&self) -> (action: StartAction)
        ensures
            action@ == self@.done(),
    {
        match &self.endpoint {
            Some(endpoint) => StartAction::Done { uri: published_uri(endpoint, self.local_port) },
            None => StartAction::Done { uri: None },
        }
    }

    /// Starts a listener: takes in what happened and says what to do next.
    pub fn start_listen(&mut self, event: StartEvent) -> (action: StartAction)
        ensures
            (final(self)@, action@) == old(self)@.step(event),
    {
        let opening: ErrorKind = self.element.opening();
        match event {
            StartEvent::Begin => self.resolve(),
            StartEvent::TlsReady => StartAction::ParseHost(self.host()),
            StartEvent::TlsFailed(message) => failing(ErrorKind::Settings, message),
            StartEvent::HostParsed => match &self.endpoint {
                Some(endpoint) => StartAction::Bind { port: endpoint.port },
                None => StartAction::Bind { port: 0 },
            },
            StartEvent::HostInvalid(reason) => {
                let host: String = self.host();
                failing(
                    ErrorKind::Settings,
                    join5(
                        "Invalid listen host '",
                        host.as_str(),
                        "': ",
                        reason.as_str(),
                        " (use an IP literal)",
                    ),
                )
            },
            StartEvent::Bound => StartAction::SetNonblocking,
            StartEvent::BindFailed { address, reason } => failing(
                opening,
                join4(
                    "Failed to bind RTMP listener on ",
                    address.as_str(),
                    ": ",
                    reason.as_str(),
                ),
            ),
            StartEvent::Nonblocking => StartAction::Locate,
            StartEvent::NonblockingFailed(reason) => failing(
                ErrorKind::Settings,
                join2("Failed to configure RTMP listener as nonblocking: ", reason.as_str()),
            ),
            StartEvent::Located { port } => {
                self.local_port = port;
                match &self.endpoint {
                    Some(endpoint) => StartAction::Spawn {
                        app_filter: copy_opt(&endpoint.app_filter),
                        key_filter: copy_opt(&endpoint.key_filter),
                    },
                    None => StartAction::Spawn { app_filter: None, key_filter: None },
                }
            },
            StartEvent::LocateFailed(reason) => failing(
                opening,
                join2("Failed to query RTMP listener address: ", reason.as_str()),
            ),
            StartEvent::Spawned => match self.element {
                Element::Source => StartAction::AwaitReport,
                Element::Sink => StartAction::Store,
            },
            StartEvent::SpawnFailed(reason) => failing(
                opening,
                join2("Failed to spawn RTMP listener worker: ", reason.as_str()),
            ),
            StartEvent::Stored => match self.element {
                Element::Source => self.finish(),
                Element::Sink => StartAction::AwaitReport,
            },
            StartEvent::AlreadyRunning => abandoning(
                ErrorKind::StateChange,
                "rtmpxsrc worker is already running".to_owned(),
            ),
            StartEvent::Reported => match self.element {
                Element::Source => StartAction::Store,
                Element::Sink => self.finish(),
            },
            StartEvent::ReportedFailure(message) => abandoning(opening, message),
            StartEvent::NoReport(reason) => abandoning(
                opening,
                join2("RTMP listener worker failed to start: ", reason.as_str()),
            ),
        }
    }
}

/// What has just happened while a client is started.
#[derive(Debug)]
pub enum ClientStartEvent {
    /// The worker runs.
    Spawned,
    /// The worker could not be started, and why.
    SpawnFailed(String),
    /// The element remembers the worker.
    Stored,
    /// The element has a worker already.
    AlreadyRunning,
    /// The worker is ready.
    Reported,
    /// The worker gave up, and why.
    ReportedFailure(String),
    /// The worker did not report in time, and why.
    NoReport(String),
}

/// The next action after an event while a client is started. The source waits
/// for its worker before it remembers it, the sink after.
pub open spec fn client_start_action(element: Element, event: ClientStartEvent) ->
    StartActionModel {
    let opening = opening_kind(element);
    match event {
        ClientStartEvent::Spawned => match element {
            Element::Source => StartActionModel::AwaitReport,
            Element::Sink => StartActionModel::Store,
        },
        ClientStartEvent::SpawnFailed(reason) => match element {
            Element::Source => fail(opening, "Failed to spawn RTMP play worker: "@ + reason@),
            Element::Sink => fail(
                ErrorKind::Failed,
                "failed to spawn RTMP publish worker: "@ + reason@,
            ),
        },
        ClientStartEvent::Stored => match element {
            Element::Source => StartActionModel::Done { uri: None },
            Element::Sink => StartActionModel::AwaitReport,
        },
        ClientStartEvent::AlreadyRunning => abandon(
            ErrorKind::StateChange,
            "rtmpxsrc worker is already running"@,
        ),
        ClientStartEvent::Reported => match element {
            Element::Source => StartActionModel::Store,
            Element::Sink => StartActionModel::Done { uri: None },
        },
        ClientStartEvent::ReportedFailure(message) => abandon(opening, message@),
        ClientStartEvent::NoReport(reason) => match element {
            Element::Source => abandon(opening, "RTMP play worker failed to start: "@ + reason@),
            Element::Sink => abandon(
                opening,
                "timed out waiting for RTMP publish to be accepted"@,
            ),
        },
    }
}

/// Starts a client whose endpoint is resolved: takes in what happened and says
/// what to do next.
pub fn start_client(element: Element, event: ClientStartEvent) -> (action: StartAction)
    ensures
        action@ == client_start_action(element, event),
{
    let opening: ErrorKind = element.opening();
    match event {
        ClientStartEvent::Spawned => match element {
            Element::Source => StartAction::AwaitReport,
            Element::Sink => StartAction::Store,
        },
        ClientStartEvent::SpawnFailed(reason) => match element {
            Element::Source => failing(
                opening,
                join2("Failed to spawn RTMP play worker: ", reason.as_str()),
            ),
            Element::Sink => failing(
                ErrorKind::Failed,
                join2("failed to spawn RTMP publish worker: ", reason.as_str()),
            ),
        },
        ClientStartEvent::Stored => match element {
            Element::Source => StartAction::Done { uri: None },
            Element::Sink => StartAction::AwaitReport,
        },
        ClientStartEvent::AlreadyRunning => abandoning(
            ErrorKind::StateChange,
            "rtmpxsrc worker is already running".to_owned(),
        ),
        ClientStartEvent::Reported => match element {
            Element::Source => StartAction::Store,
            Element::Sink => StartAction::Done { uri: None },
        },
        ClientStartEvent::ReportedFailure(message) => abandoning(opening, message),
        ClientStartEvent::NoReport(reason) => match element {
            Element::Source => abandoning(
                opening,
                join2("RTMP play worker failed to start: ", reason.as_str()),
            ),
            Element::Sink => abandoning(
                opening,
                "timed out waiting for RTMP publish to be accepted".to_owned(),
            ),
        },
    }
}

/// Resolves the endpoint of a client element from its settings.
pub fn resolve_endpoint(element: Element, uri: Option<String>, tc_url: Option<String>) -> (endpoint:
    Result<ClientEndpoint, ElementError>)
    ensures
        match endpoint {
            Ok(endpoint) => client_endpoint(opt_text(uri), opt_text(tc_url), client_label(element))
                == Ok::<ClientModel, Seq<char>>(endpoint@),
            Err(error) => error.kind == ErrorKind::Settings && client_endpoint(
                opt_text(uri),
                opt_text(tc_url),
                client_label(element),
            ) == Err::<ClientModel, Seq<char>>(error.message@),
        },
{
    match resolve_client_endpoint(uri, tc_url, element.client_name()) {
        Ok(endpoint) => Ok(endpoint),
        Err(message) => Err(ElementError { kind: ErrorKind::Settings, message }),
    }
}

/// Once there is a worker, a failed start stops it; before that there is none
/// to stop.
pub proof fn law_failed_start_leaves_no_worker(start: ListenStartModel, event: StartEvent)
    ensures
        start.step(event).1 matches StartActionModel::Fail { error, stop_worker } ==> (stop_worker
            <==> event is AlreadyRunning || event is ReportedFailure || event is NoReport),
{
}

/// An element counts as started only once its worker has reported that it is
/// ready and the element remembers it, in the element's own order.
pub proof fn law_started_means_ready_and_remembered(start: ListenStartModel, event: StartEvent)
    ensures
        ({
            let action = start.step(event).1;
            match start.element {
                Element::Source => {
                    &&& action is Store ==> event is Reported
                    &&& action is Done ==> event is Stored
                },
                Element::Sink => {
                    &&& action is AwaitReport ==> event is Stored
                    &&& action is Done ==> event is Reported
                },
            }
        }),
        start.step(event).1 is Spawn ==> event is Located,
{
}

/// A listener asked for port 0 publishes a URI with the port that was bound,
/// and one asked for any other port publishes none.
pub proof fn law_free_port_is_published(start: ListenStartModel, port: u16, endpoint: EndpointModel)
    requires
        start.endpoint == Some(endpoint),
    ensures
        start.step(StartEvent::Located { port }).0.done() == (StartActionModel::Done {
            uri: if endpoint.port == 0 {
                Some(bound_uri(endpoint, port))
            } else {
                None
            },
        }),
{
}

/// The first step reads the settings: a URI that names no endpoint fails the
/// start, and so do missing files on `rtmps://`; otherwise the endpoint is the
/// one that the URI names, and next TLS is set up from the files or, without
/// TLS, the host of the URI is parsed.
pub proof fn law_listeners_start_from_their_settings(start: ListenStartModel)
    ensures
        ({
            let (next, action) = start.step(StartEvent::Begin);
            let what = match start.element {
                Element::Source => "rtmpxsrc listen mode"@,
                Element::Sink => "rtmpxsink listen mode"@,
            };
            let fails = |message: Seq<char>|
                action == (StartActionModel::Fail {
                    error: ErrorModel { kind: ErrorKind::Settings, message },
                    stop_worker: false,
                });
            match listen_endpoint(start.uri, what) {
                Err(message) => next == start && fails(message),
                Ok(endpoint) => {
                    &&& next == (ListenStartModel { endpoint: Some(endpoint), ..start })
                    &&& match listen_files(
                        endpoint.tls,
                        start.tls_cert,
                        start.tls_key,
                        start.tls_ca_cert,
                        what,
                    ) {
                        Err(message) => fails(message),
                        Ok(Some(files)) => action == StartActionModel::SetUpTls(files),
                        Ok(None) => action == StartActionModel::ParseHost(endpoint.host),
                    }
                },
            }
        }),
{
}

/// A listener binds the host and port of its endpoint, starts its worker with the
/// application and stream key of its endpoint as filters, and remembers the port
/// that was bound. The source waits for its worker before it remembers it, the
/// sink after.
pub proof fn law_listeners_start_step_by_step(
    start: ListenStartModel,
    endpoint: EndpointModel,
    port: u16,
)
    requires
        start.endpoint == Some(endpoint),
    ensures
        start.step(StartEvent::TlsReady) == (start, StartActionModel::ParseHost(endpoint.host)),
        start.step(StartEvent::HostParsed) == (
            start,
            StartActionModel::Bind { port: endpoint.port },
        ),
        start.step(StartEvent::Bound) == (start, StartActionModel::SetNonblocking),
        start.step(StartEvent::Nonblocking) == (start, StartActionModel::Locate),
        start.step(StartEvent::Located { port }) == (
            ListenStartModel { local_port: port, ..start },
            StartActionModel::Spawn { app_filter: endpoint.app, key_filter: endpoint.stream_key },
        ),
        ({
            let done = StartActionModel::Done {
                uri: if endpoint.port == 0 {
                    Some(bound_uri(endpoint, start.local_port))
                } else {
                    None
                },
            };
            match start.element {
                Element::Source => {
                    &&& start.step(StartEvent::Spawned) == (start, StartActionModel::AwaitReport)
                    &&& start.step(StartEvent::Reported) == (start, StartActionModel::Store)
                    &&& start.step(StartEvent::Stored) == (start, done)
                },
                Element::Sink => {
                    &&& start.step(StartEvent::Spawned) == (start, StartActionModel::Store)
                    &&& start.step(StartEvent::Stored) == (start, StartActionModel::AwaitReport)
                    &&& start.step(StartEvent::Reported) == (start, done)
                },
            }
        }),
{
}

/// Whatever fails while a listener is started fails the start, each with its own
/// words and kind, and stops the worker exactly if there is one.
pub proof fn law_failed_listeners_tell_why(
    start: ListenStartModel,
    endpoint: EndpointModel,
    reason: String,
    address: String,
)
    requires
        start.endpoint == Some(endpoint),
    ensures
        ({
            let opening = match start.element {
                Element::Source => ErrorKind::OpenRead,
                Element::Sink => ErrorKind::OpenWrite,
            };
            let fails = |event: StartEvent, kind: ErrorKind, message: Seq<char>, stop_worker: bool|
                start.step(event) == (
                    start,
                    StartActionModel::Fail { error: ErrorModel { kind, message }, stop_worker },
                );
            &&& fails(StartEvent::TlsFailed(reason), ErrorKind::Settings, reason@, false)
            &&& fails(
                StartEvent::HostInvalid(reason),
                ErrorKind::Settings,
                "Invalid listen host '"@ + endpoint.host + "': "@ + reason@
                    + " (use an IP literal)"@,
                false,
            )
            &&& fails(
                StartEvent::BindFailed { address, reason },
                opening,
                "Failed to bind RTMP listener on "@ + address@ + ": "@ + reason@,
                false,
            )
            &&& fails(
                StartEvent::NonblockingFailed(reason),
                ErrorKind::Settings,
                "Failed to configure RTMP listener as nonblocking: "@ + reason@,
                false,
            )
            &&& fails(
                StartEvent::LocateFailed(reason),
                opening,
                "Failed to query RTMP listener address: "@ + reason@,
                false,
            )
            &&& fails(
                StartEvent::SpawnFailed(reason),
                opening,
                "Failed to spawn RTMP listener worker: "@ + reason@,
                false,
            )
            &&& fails(
                StartEvent::AlreadyRunning,
                ErrorKind::StateChange,
                "rtmpxsrc worker is already running"@,
                true,
            )
            &&& fails(StartEvent::ReportedFailure(reason), opening, reason@, true)
            &&& fails(
                StartEvent::NoReport(reason),
                opening,
                "RTMP listener worker failed to start: "@ + reason@,
                true,
            )
        }),
{
}

/// A client counts as started only once its worker is ready and remembered: the
/// source waits for its worker before it remembers it, the sink after.
pub proof fn law_clients_start_step_by_step()
    ensures
        client_start_action(Element::Source, ClientStartEvent::Spawned)
            == StartActionModel::AwaitReport,
        client_start_action(Element::Source, ClientStartEvent::Reported) == StartActionModel::Store,
        client_start_action(Element::Source, ClientStartEvent::Stored) == (StartActionModel::Done {
            uri: None,
        }),
        client_start_action(Element::Sink, ClientStartEvent::Spawned) == StartActionModel::Store,
        client_start_action(Element::Sink, ClientStartEvent::Stored)
            == StartActionModel::AwaitReport,
        client_start_action(Element::Sink, ClientStartEvent::Reported) == (StartActionModel::Done {
            uri: None,
        }),
{
}

/// Whatever fails while a client is started fails the start, each with its own
/// words and kind, and stops the worker exactly if there is one.
pub proof fn law_failed_clients_tell_why(element: Element, reason: String)
    ensures
        ({
            let source = element == Element::Source;
            let opening = if source {
                ErrorKind::OpenRead
            } else {
                ErrorKind::OpenWrite
            };
            let fails = |
                event: ClientStartEvent,
                kind: ErrorKind,
                message: Seq<char>,
                stop_worker: bool,
            |
                client_start_action(element, event) == (StartActionModel::Fail {
                    error: ErrorModel { kind, message },
                    stop_worker,
                });
            &&& source ==> fails(
                ClientStartEvent::SpawnFailed(reason),
                ErrorKind::OpenRead,
                "Failed to spawn RTMP play worker: "@ + reason@,
                false,
            )
            &&& !source ==> fails(
                ClientStartEvent::SpawnFailed(reason),
                ErrorKind::Failed,
                "failed to spawn RTMP publish worker: "@ + reason@,
                false,
            )
            &&& fails(
                ClientStartEvent::AlreadyRunning,
                ErrorKind::StateChange,
                "rtmpxsrc worker is already running"@,
                true,
            )
            &&& fails(ClientStartEvent::ReportedFailure(reason), opening, reason@, true)
            &&& source ==> fails(
                ClientStartEvent::NoReport(reason),
                opening,
                "RTMP play worker failed to start: "@ + reason@,
                true,
            )
            &&& !source ==> fails(
                ClientStartEvent::NoReport(reason),
                opening,
                "timed out waiting for RTMP publish to be accepted"@,
                true,
            )
        }),
{
}

/// A client element calls itself by what it does.
pub proof fn law_clients_have_names()
    ensures
        client_label(Element::Source) == "rtmpxsrc play mode"@,
        client_label(Element::Sink) == "rtmpxsink"@,
{
}

/// What is to be done while an element is started is told as it is.
pub proof fn law_start_actions_show_their_fields(
    files: TlsListenFiles,
    host: String,
    port: u16,
    app: Option<String>,
    key: Option<String>,
    error: ElementError,
    stop_worker: bool,
)
    ensures
        StartAction::SetUpTls(files)@ == StartActionModel::SetUpTls(files@),
        files@.cert == files.cert@ && files@.key == files.key@,
        files.ca is None ==> files@.ca is None,
        files.ca matches Some(ca) ==> files@.ca == Some(ca@),
        StartAction::ParseHost(host)@ == StartActionModel::ParseHost(host@),
        (StartAction::Bind { port })@ == (StartActionModel::Bind { port }),
        StartAction::SetNonblocking@ == StartActionModel::SetNonblocking,
        StartAction::Locate@ == StartActionModel::Locate,
        (StartAction::Spawn { app_filter: app, key_filter: key })@ == (StartActionModel::Spawn {
            app_filter: opt_text(app),
            key_filter: opt_text(key),
        }),
        StartAction::Store@ == StartActionModel::Store,
        StartAction::AwaitReport@ == StartActionModel::AwaitReport,
        (StartAction::Done { uri: app })@ == (StartActionModel::Done { uri: opt_text(app) }),
        (StartAction::Fail { error, stop_worker })@ == (StartActionModel::Fail {
            error: ErrorModel { kind: error.kind, message: error.message@ },
            stop_worker,
        }),
{
}

} // verus!
