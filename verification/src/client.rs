//! Opening a connection to a server, for play and publish alike.

use vstd::prelude::*;
use vstd::string::*;

use crate::endpoint::client_endpoint;
use crate::endpoint::uri_endpoint;
use crate::endpoint::ClientEndpoint;
use crate::endpoint::ClientModel;
use crate::link::connect_outcome_failure;
use crate::link::duration_text;
use crate::link::session_outcome;
use crate::link::tcp_connect;
use crate::link::ConnectOutcome;
use crate::script::ask;
use crate::script::Call;
use crate::script::CallModel;
use crate::script::OnWrite;
use crate::script::Op;
use crate::script::Script;
use crate::script::ScriptModel;
use crate::script::Conclusion;
use crate::script::ConclusionModel;
use crate::session::CHUNK_SIZE;
use crate::session::WINDOW_ACK_SIZE;
use crate::text::decimal;
use crate::text::join2;
use crate::text::join3;
use crate::worker::disconnected;
use crate::worker::failed;
use crate::worker::limit_of;
use crate::worker::nanos_duration;
use crate::worker::nanoseconds_timeout;
use crate::worker::FailureModel;
use crate::worker::SessionFailure;

verus! {

/// What a client session is made with.
#[derive(Debug)]
pub struct ClientSessionConfig {
    pub window_ack_size: u32,
    pub chunk_size: u32,
    pub tc_url: String,
}

/// The configuration of a fresh client session: the window and chunk sizes
/// that play and publish share, and the tcUrl of this connection.
pub fn new_client_session(tc_url: String) -> (config: ClientSessionConfig)
    ensures
        config.window_ack_size == 2_500_000,
        config.chunk_size == 4096,
        config.tc_url@ == tc_url@,
{
    ClientSessionConfig { window_ack_size: WINDOW_ACK_SIZE, chunk_size: CHUNK_SIZE, tc_url }
}

/// Why a connection could not be secured.
#[derive(Debug)]
pub enum TlsConnectFault {
    /// There is no TLS configuration, and why.
    Setup(String),
    /// The host is no name or address that a certificate can carry.
    ServerName,
    /// The TLS handshake failed, and why.
    Handshake(String),
}

/// What a connection that could not be secured comes to.
pub open spec fn tls_connect_failure(fault: TlsConnectFault, host: Seq<char>) -> FailureModel {
    match fault {
        TlsConnectFault::Setup(message) => failed("TLS setup failed: "@ + message@),
        TlsConnectFault::ServerName => failed(
            "TLS setup failed: invalid server name '"@ + host + "'"@,
        ),
        TlsConnectFault::Handshake(reason) => disconnected(
            "TLS handshake with RTMP server failed: "@ + reason@,
        ),
    }
}

/// What a connection that could not be secured comes to. A failed handshake
/// counts as a vanished server, a setup that cannot work does not.
pub fn wrap_tls_client(fault: TlsConnectFault, host: &str) -> (failure: SessionFailure)
    ensures
        failure@ == tls_connect_failure(fault, host@),
{
    match fault {
        TlsConnectFault::Setup(message) => SessionFailure::error(
            join2("TLS setup failed: ", message.as_str()),
        ),
        TlsConnectFault::ServerName => SessionFailure::error(
            join3("TLS setup failed: invalid server name '", host, "'"),
        ),
        TlsConnectFault::Handshake(reason) => SessionFailure::disconnect(
            join2("TLS handshake with RTMP server failed: ", reason.as_str()),
        ),
    }
}

/// What has just happened while a connection is opened.
#[derive(Debug)]
pub enum OpeningEvent {
    /// Nothing yet.
    Begin,
    /// The attempt to connect ended.
    ConnectOver(ConnectOutcome),
    /// The connection is secured.
    Secured,
    /// It could not be secured.
    SecureFailed(TlsConnectFault),
    /// The handshake ended.
    HandshakeOver(Result<Vec<u8>, SessionFailure>),
    /// There is a protocol session.
    SessionReady,
    /// There is no protocol session, and why.
    SessionRefused(String),
    /// A script is over.
    ScriptOver(Conclusion),
}

/// What to do next while a connection is opened.
#[derive(Debug)]
pub enum OpeningAction {
    /// Connect, within this time.
    Connect { host: String, port: u16, limit: Option<std::time::Duration> },
    /// Secure the connection to this host.
    Secure { host: String },
    /// Run the handshake.
    Handshake,
    /// Make a protocol session.
    CreateSession(ClientSessionConfig),
    /// Run this script.
    Run(Script),
    /// The connection is requested, and these bytes came already; or it is
    /// over.
    Return(Result<Vec<u8>, SessionFailure>),
}

/// What to do next, as plain mathematics.
#[verifier::ext_equal]
pub enum OpeningActionModel {
    Connect { host: Seq<char>, port: u16, limit: Option<std::time::Duration> },
    Secure { host: Seq<char> },
    Handshake,
    CreateSession { window_ack_size: u32, chunk_size: u32, tc_url: Seq<char> },
    Run(ScriptModel),
    Return(Result<Seq<u8>, FailureModel>),
}

impl View for OpeningAction {
    type V = OpeningActionModel;

    open spec fn view(&self) -> OpeningActionModel {
        match self {
            OpeningAction::Connect { host, port, limit } => OpeningActionModel::Connect {
                host: host@,
                port: *port,
                limit: *limit,
            },
            OpeningAction::Secure { host } => OpeningActionModel::Secure { host: host@ },
            OpeningAction::Handshake => OpeningActionModel::Handshake,
            OpeningAction::CreateSession(config) => OpeningActionModel::CreateSession {
                window_ack_size: config.window_ack_size,
                chunk_size: config.chunk_size,
                tc_url: config.tc_url@,
            },
            OpeningAction::Run(script) => OpeningActionModel::Run(script@),
            OpeningAction::Return(result) => OpeningActionModel::Return(session_outcome(*result)),
        }
    }
}

/// A connection that is being opened.
#[derive(Debug)]
pub struct ClientOpening {
    endpoint: ClientEndpoint,
    connect_timeout: u64,
    carry: Vec<u8>,
}

/// A connection that is being opened, as plain mathematics.
#[verifier::ext_equal]
pub struct ClientOpeningModel {
    pub endpoint: ClientModel,
    /// Nanoseconds for the connect; 0 for no limit.
    pub connect_timeout: u64,
    /// Bytes that came behind the handshake.
    pub carry: Seq<u8>,
}

impl View for ClientOpening {
    type V = ClientOpeningModel;

    closed spec fn view(&self) -> ClientOpeningModel {
        ClientOpeningModel {
            endpoint: self.endpoint@,
            connect_timeout: self.connect_timeout,
            carry: self.carry@,
        }
    }
}

/// The request for a connection to an application.
pub open spec fn connection_request(app: Seq<char>) -> ScriptModel {
    ScriptModel {
        ops: seq![
            ask(
                CallModel::RequestConnection { app },
                "failed to request RTMP connection"@,
                OnWrite::Fail,
            ),
        ],
        conclusion: ConclusionModel::Continue,
    }
}

impl ClientOpeningModel {
    /// The next state and action after an event.
    pub open spec fn step(self, event: OpeningEvent) -> (ClientOpeningModel, OpeningActionModel) {
        match event {
            OpeningEvent::Begin => (
                self,
                OpeningActionModel::Connect {
                    host: self.endpoint.host,
                    port: self.endpoint.port,
                    limit: limit_of(self.connect_timeout),
                },
            ),
            OpeningEvent::ConnectOver(outcome) => (
                self,
                match connect_outcome_failure(outcome) {
                    Some(failure) => OpeningActionModel::Return(Err(failure)),
                    None => if self.endpoint.tls {
                        OpeningActionModel::Secure { host: self.endpoint.host }
                    } else {
                        OpeningActionModel::Handshake
                    },
                },
            ),
            OpeningEvent::Secured => (self, OpeningActionModel::Handshake),
            OpeningEvent::SecureFailed(fault) => (
                self,
                OpeningActionModel::Return(Err(tls_connect_failure(fault, self.endpoint.host))),
            ),
            OpeningEvent::HandshakeOver(Ok(carry)) => (
                ClientOpeningModel { carry: carry@, ..self },
                OpeningActionModel::CreateSession {
                    window_ack_size: 2_500_000,
                    chunk_size: 4096,
                    tc_url: self.endpoint.tc_url,
                },
            ),
            OpeningEvent::HandshakeOver(Err(failure)) => (
                self,
                OpeningActionModel::Return(Err(failure@)),
            ),
            OpeningEvent::SessionReady => (
                self,
                OpeningActionModel::Run(connection_request(self.endpoint.app)),
            ),
            OpeningEvent::SessionRefused(reason) => (
                self,
                OpeningActionModel::Return(
                    Err(failed("failed to create RTMP session: "@ + reason@)),
                ),
            ),
            OpeningEvent::ScriptOver(Conclusion::Failed(failure)) => (
                self,
                OpeningActionModel::Return(Err(failure@)),
            ),
            OpeningEvent::ScriptOver(_) => (self, OpeningActionModel::Return(Ok(self.carry))),
        }
    }
}

impl ClientOpening {
    /// A connection before its first packet.
    pub fn new(endpoint: ClientEndpoint, connect_timeout: u64) -> (opening: ClientOpening)
        ensures
            opening@ == (ClientOpeningModel {
                endpoint: endpoint@,
                connect_timeout,
                carry: Seq::empty(),
            }),
    {
        let opening = ClientOpening { endpoint, connect_timeout, carry: Vec::new() };
        assert(opening@.carry =~= Seq::<u8>::empty());
        opening
    }

    /// Takes in what happened and says what to do next.
    pub fn step(&mut self, event: OpeningEvent) -> (action: OpeningAction)
        ensures
            (final(self)@, action@) == old(self)@.step(event),
    {
        match event {
            OpeningEvent::Begin => OpeningAction::Connect {
                host: self.endpoint.host.clone(),
                port: self.endpoint.port,
                limit: nanoseconds_timeout(self.connect_timeout),
            },
            OpeningEvent::ConnectOver(outcome) => match tcp_connect(outcome) {
                Ok(_) => {
                    if self.endpoint.tls {
                        OpeningAction::Secure { host: self.endpoint.host.clone() }
                    } else {
                        OpeningAction::Handshake
                    }
                },
                Err(failure) => OpeningAction::Return(Err(failure)),
            },
            OpeningEvent::Secured => OpeningAction::Handshake,
            OpeningEvent::SecureFailed(fault) => OpeningAction::Return(
                Err(wrap_tls_client(fault, self.endpoint.host.as_str())),
            ),
            OpeningEvent::HandshakeOver(Ok(carry)) => {
                self.carry = carry;
                OpeningAction::CreateSession(new_client_session(self.endpoint.tc_url.clone()))
            },
            OpeningEvent::HandshakeOver(Err(failure)) => OpeningAction::Return(Err(failure)),
            OpeningEvent::SessionReady => OpeningAction::Run(
                Script::one(
                    Op::ask(
                        Call::RequestConnection { app: self.endpoint.app.clone() },
                        "failed to request RTMP connection",
                        OnWrite::Fail,
                    ),
                ),
            ),
            OpeningEvent::SessionRefused(reason) => OpeningAction::Return(
                Err(
                    SessionFailure::error(
                        join2("failed to create RTMP session: ", reason.as_str()),
                    ),
                ),
            ),
            OpeningEvent::ScriptOver(Conclusion::Failed(failure)) => OpeningAction::Return(
                Err(failure),
            ),
            OpeningEvent::ScriptOver(_) => OpeningAction::Return(
                Ok(vstd::slice::slice_to_vec(self.carry.as_slice())),
            ),
        }
    }
}

/// A value of the capabilities that are advertised with a connection.
#[derive(Debug)]
pub enum Capability {
    /// A number.
    Number(u32),
    /// A list of texts.
    List(Vec<String>),
    /// Names with numbers.
    Numbers(Vec<(String, u32)>),
}

/// Enhanced RTMP capabilities, advertised when a connection is accepted and
/// when one is requested, so that modern peers keep negotiating HEVC, AV1 and
/// multitrack.
pub fn enhanced_rtmp_capabilities() -> (properties: Vec<(String, Capability)>)
    ensures
        properties@.len() == 4,
        properties@[0].0@ == "fourCcList"@,
        properties@[0].1 matches Capability::List(list) && list@.len() == 1 && list@[0]@ == "*"@,
        properties@[1].0@ == "videoFourCcInfoMap"@,
        properties@[1].1 matches Capability::Numbers(map) && map@.len() == 1 && map@[0].0@ == "*"@
            && map@[0].1 == 4,
        properties@[2].0@ == "audioFourCcInfoMap"@,
        properties@[2].1 matches Capability::Numbers(map) && map@.len() == 1 && map@[0].0@ == "*"@
            && map@[0].1 == 4,
        properties@[3].0@ == "capsEx"@,
        properties@[3].1 == Capability::Number(14),
{
    let mut codecs: Vec<String> = Vec::new();
    codecs.push("*".to_owned());
    let mut video: Vec<(String, u32)> = Vec::new();
    video.push(("*".to_owned(), 4));
    let mut audio: Vec<(String, u32)> = Vec::new();
    audio.push(("*".to_owned(), 4));
    let mut properties: Vec<(String, Capability)> = Vec::new();
    properties.push(("fourCcList".to_owned(), Capability::List(codecs)));
    properties.push(("videoFourCcInfoMap".to_owned(), Capability::Numbers(video)));
    properties.push(("audioFourCcInfoMap".to_owned(), Capability::Numbers(audio)));
    properties.push(("capsEx".to_owned(), Capability::Number(14)));
    properties
}

/// The session that is made after the handshake carries the tcUrl that was
/// resolved from the settings: the one that is set, exactly, and the default one,
/// made of server and application, only if none is.
pub proof fn law_session_carries_the_resolved_tc_url(
    opening: ClientOpeningModel,
    uri: Seq<char>,
    tc_url: Option<Seq<char>>,
    what: Seq<char>,
    behind: Vec<u8>,
)
    requires
        client_endpoint(Some(uri), tc_url, what) == Ok::<ClientModel, Seq<char>>(opening.endpoint),
    ensures
        ({
            let (next, action) = opening.step(OpeningEvent::HandshakeOver(Ok(behind)));
            let named = uri_endpoint(uri)->Ok_0;
            &&& next.endpoint == opening.endpoint
            &&& action matches OpeningActionModel::CreateSession {
                window_ack_size,
                chunk_size,
                tc_url: carried,
            } && window_ack_size == 2_500_000 && chunk_size == 4096 && if tc_url is Some
                && tc_url->Some_0.len() > 0 {
                carried == tc_url->Some_0
            } else {
                carried == (if named.tls {
                    "rtmps://"@
                } else {
                    "rtmp://"@
                }) + (if named.host.contains(':') {
                    seq!['['] + named.host + seq![']']
                } else {
                    named.host
                }) + seq![':'] + decimal(named.port as nat) + seq!['/'] + named.app->Some_0
            }
        }),
{
}

/// A connection is opened to the host and port of the endpoint, within the time
/// limit if there is one, is secured for that host exactly on `rtmps://` and
/// before anything is sent, and requests the endpoint's application; the bytes
/// that came behind the handshake are handed on at the end.
pub proof fn law_connection_is_opened_step_by_step(
    endpoint: ClientEndpoint,
    connect_timeout: u64,
    carry: Vec<u8>,
)
    ensures
        ({
            let start = ClientOpeningModel {
                endpoint: endpoint@,
                connect_timeout,
                carry: Seq::empty(),
            };
            let (begun, connect) = start.step(OpeningEvent::Begin);
            let (connected, next) = begun.step(
                OpeningEvent::ConnectOver(ConnectOutcome::Connected),
            );
            let (secured, shake) = connected.step(OpeningEvent::Secured);
            let (shaken, create) = secured.step(OpeningEvent::HandshakeOver(Ok(carry)));
            let (ready, request) = shaken.step(OpeningEvent::SessionReady);
            let (over, end) = ready.step(OpeningEvent::ScriptOver(Conclusion::Continue));
            &&& connect == (OpeningActionModel::Connect {
                host: endpoint.host@,
                port: endpoint.port,
                limit: if connect_timeout == 0 {
                    None
                } else {
                    Some(nanos_duration(connect_timeout))
                },
            })
            &&& next == if endpoint.tls {
                OpeningActionModel::Secure { host: endpoint.host@ }
            } else {
                OpeningActionModel::Handshake
            }
            &&& shake == OpeningActionModel::Handshake
            &&& create == (OpeningActionModel::CreateSession {
                window_ack_size: 2_500_000,
                chunk_size: 4096,
                tc_url: endpoint.tc_url@,
            })
            &&& request matches OpeningActionModel::Run(script) && script.ops.len() == 1
                && script.ops[0].call == (CallModel::RequestConnection { app: endpoint.app@ })
                && script.ops[0].policy.on_write == OnWrite::Fail && script.ops[0].policy.refused
                == Some("failed to request RTMP connection"@) && script.ops[0].policy.closed is None
                && script.conclusion == ConclusionModel::Continue
            &&& end == OpeningActionModel::Return(Ok(carry@))
        }),
{
}

/// Whatever fails while a connection is opened ends the attempt and says why. A
/// server that cannot be reached and a failed TLS handshake count as a vanished
/// server; what this side got wrong does not. Nothing that happens changes where
/// the connection goes.
pub proof fn law_failed_opening_tells_why(opening: ClientOpeningModel, event: OpeningEvent)
    ensures
        opening.step(event).0.endpoint == opening.endpoint,
        opening.step(event).0.connect_timeout == opening.connect_timeout,
        !(event matches OpeningEvent::HandshakeOver(Ok(_))) ==> opening.step(event).0.carry
            == opening.carry,
        ({
            let action = opening.step(event).1;
            let failed = |message: Seq<char>, vanished: bool|
                action == OpeningActionModel::Return(
                    Err(FailureModel { message, client_disconnect: vanished }),
                );
            match event {
                OpeningEvent::ConnectOver(ConnectOutcome::TimedOut { nanoseconds }) => failed(
                    "timed out after "@ + duration_text(nanoseconds)
                        + " connecting to RTMP server"@,
                    true,
                ),
                OpeningEvent::ConnectOver(ConnectOutcome::Refused(text)) => failed(
                    "failed to connect to RTMP server: "@ + text@,
                    true,
                ),
                OpeningEvent::ConnectOver(ConnectOutcome::NoDelayFailed(text)) => failed(
                    "Failed to configure TCP_NODELAY: "@ + text@,
                    false,
                ),
                OpeningEvent::SecureFailed(TlsConnectFault::Setup(text)) => failed(
                    "TLS setup failed: "@ + text@,
                    false,
                ),
                OpeningEvent::SecureFailed(TlsConnectFault::ServerName) => failed(
                    "TLS setup failed: invalid server name '"@ + opening.endpoint.host + "'"@,
                    false,
                ),
                OpeningEvent::SecureFailed(TlsConnectFault::Handshake(text)) => failed(
                    "TLS handshake with RTMP server failed: "@ + text@,
                    true,
                ),
                OpeningEvent::HandshakeOver(Err(failure)) => failed(
                    failure.message@,
                    failure.client_disconnect,
                ),
                OpeningEvent::SessionRefused(text) => failed(
                    "failed to create RTMP session: "@ + text@,
                    false,
                ),
                OpeningEvent::ScriptOver(Conclusion::Failed(failure)) => failed(
                    failure.message@,
                    failure.client_disconnect,
                ),
                _ => !(action matches OpeningActionModel::Return(Err(_))),
            }
        }),
{
}

/// An action asks for what it holds: what is to be done is read from its own
/// fields.
pub proof fn law_opening_actions_show_their_fields(
    host: String,
    port: u16,
    limit: Option<std::time::Duration>,
    config: ClientSessionConfig,
    bytes: Vec<u8>,
)
    ensures
        (OpeningAction::Connect { host, port, limit })@ == (OpeningActionModel::Connect {
            host: host@,
            port,
            limit,
        }),
        (OpeningAction::Secure { host })@ == (OpeningActionModel::Secure { host: host@ }),
        OpeningAction::CreateSession(config)@ == (OpeningActionModel::CreateSession {
            window_ack_size: config.window_ack_size,
            chunk_size: config.chunk_size,
            tc_url: config.tc_url@,
        }),
        OpeningAction::Return(Ok(bytes))@ == OpeningActionModel::Return(Ok(bytes@)),
{
}

} // verus!
