//! The source element: its settings, and what it makes of its worker's
//! messages.

use vstd::prelude::*;
use vstd::string::*;

use crate::property::PropertyValue;
use crate::property::ValueModel;
use crate::start::ElementError;
use crate::start::ErrorKind;
use crate::start::ErrorModel;
use crate::start::ListenSettings;
use crate::text::copy_opt;
use crate::text::eq_ignoring_ascii_case;
use crate::text::join3;
use crate::text::opt_text;
use crate::text::same_ignoring_ascii_case;
use crate::text::same_text;
use crate::text::law_case_matters_for_ascii_letters_only;
use crate::worker::OutputModel;
use crate::worker::WorkerOutput;

verus! {

/// A property of the source.
#[derive(Debug, Clone, Copy, PartialEq, Eq, Structural)]
pub enum SourceProperty {
    Mode,
    Uri,
    TcpNodelay,
    ConnectTimeout,
    AcceptTimeout,
    HandshakeTimeout,
    ReadTimeout,
    WriteTimeout,
    GracefulShutdownTimeout,
    KeepListening,
    Reconnect,
    TcUrl,
    TlsCert,
    TlsKey,
    TlsCaCert,
}

/// The name of a property.
pub open spec fn property_name(property: SourceProperty) -> Seq<char> {
    match property {
        SourceProperty::Mode => "mode"@,
        SourceProperty::Uri => "uri"@,
        SourceProperty::TcpNodelay => "tcp-nodelay"@,
        SourceProperty::ConnectTimeout => "connect-timeout"@,
        SourceProperty::AcceptTimeout => "accept-timeout"@,
        SourceProperty::HandshakeTimeout => "handshake-timeout"@,
        SourceProperty::ReadTimeout => "read-timeout"@,
        SourceProperty::WriteTimeout => "write-timeout"@,
        SourceProperty::GracefulShutdownTimeout => "graceful-shutdown-timeout"@,
        SourceProperty::KeepListening => "keep-listening"@,
        SourceProperty::Reconnect => "reconnect"@,
        SourceProperty::TcUrl => "tc-url"@,
        SourceProperty::TlsCert => "tls-cert"@,
        SourceProperty::TlsKey => "tls-key"@,
        SourceProperty::TlsCaCert => "tls-ca-cert"@,
    }
}

/// The property with a name, if there is one.
pub fn property_named(name: &str) -> (property: Option<SourceProperty>)
    ensures
        match property {
            Some(property) => property_name(property) == name@,
            None => forall|property: SourceProperty| #[trigger] property_name(property) != name@,
        },
{
    if same_text(name, "mode") {
        Some(SourceProperty::Mode)
    } else if same_text(name, "uri") {
        Some(SourceProperty::Uri)
    } else if same_text(name, "tcp-nodelay") {
        Some(SourceProperty::TcpNodelay)
    } else if same_text(name, "connect-timeout") {
        Some(SourceProperty::ConnectTimeout)
    } else if same_text(name, "accept-timeout") {
        Some(SourceProperty::AcceptTimeout)
    } else if same_text(name, "handshake-timeout") {
        Some(SourceProperty::HandshakeTimeout)
    } else if same_text(name, "read-timeout") {
        Some(SourceProperty::ReadTimeout)
    } else if same_text(name, "write-timeout") {
        Some(SourceProperty::WriteTimeout)
    } else if same_text(name, "graceful-shutdown-timeout") {
        Some(SourceProperty::GracefulShutdownTimeout)
    } else if same_text(name, "keep-listening") {
        Some(SourceProperty::KeepListening)
    } else if same_text(name, "reconnect") {
        Some(SourceProperty::Reconnect)
    } else if same_text(name, "tc-url") {
        Some(SourceProperty::TcUrl)
    } else if same_text(name, "tls-cert") {
        Some(SourceProperty::TlsCert)
    } else if same_text(name, "tls-key") {
        Some(SourceProperty::TlsKey)
    } else if same_text(name, "tls-ca-cert") {
        Some(SourceProperty::TlsCaCert)
    } else {
        None
    }
}

/// No two properties share a name.
pub proof fn law_property_names_are_distinct(first: SourceProperty, second: SourceProperty)
    requires
        property_name(first) == property_name(second),
    ensures
        first == second,
{
    reveal_strlit("mode");
    assert("mode"@.len() == 4);
    reveal_strlit("uri");
    assert("uri"@.len() == 3);
    reveal_strlit("tcp-nodelay");
    assert("tcp-nodelay"@.len() == 11);
    reveal_strlit("connect-timeout");
    assert("connect-timeout"@.len() == 15);
    reveal_strlit("accept-timeout");
    assert("accept-timeout"@.len() == 14);
    reveal_strlit("handshake-timeout");
    assert("handshake-timeout"@.len() == 17);
    reveal_strlit("read-timeout");
    assert("read-timeout"@.len() == 12);
    reveal_strlit("write-timeout");
    assert("write-timeout"@.len() == 13);
    reveal_strlit("graceful-shutdown-timeout");
    assert("graceful-shutdown-timeout"@.len() == 25);
    reveal_strlit("keep-listening");
    assert("keep-listening"@.len() == 14);
    reveal_strlit("reconnect");
    assert("reconnect"@.len() == 9);
    reveal_strlit("tc-url");
    assert("tc-url"@.len() == 6);
    reveal_strlit("tls-cert");
    assert("tls-cert"@.len() == 8);
    reveal_strlit("tls-key");
    assert("tls-key"@.len() == 7);
    reveal_strlit("tls-ca-cert");
    assert("tls-ca-cert"@.len() == 11);
    assert("tcp-nodelay"@[1] == 'c');
    assert("tls-ca-cert"@[1] == 'l');
    assert("accept-timeout"@[0] == 'a');
    assert("keep-listening"@[0] == 'k');
}

/// The settings of the source.
#[derive(Debug, Clone)]
pub struct Settings {
    /// What the element does.
    pub mode: String,
    /// The RTMP URI.
    pub uri: Option<String>,
    /// Whether Nagle's algorithm is off.
    pub tcp_nodelay: bool,
    /// Nanoseconds for a TCP connect; 0 for no limit.
    pub connect_timeout: u64,
    /// Nanoseconds to wait for a peer; 0 for no limit.
    pub accept_timeout: u64,
    /// Nanoseconds for each handshake read; 0 for no limit.
    pub handshake_timeout: u64,
    /// Nanoseconds without input; 0 for no limit.
    pub read_timeout: u64,
    /// Nanoseconds for each write; 0 for no limit.
    pub write_timeout: u64,
    /// Nanoseconds for the publisher to close; 0 closes at once.
    pub graceful_shutdown_timeout: u64,
    /// Whether to wait for the next publisher.
    pub keep_listening: bool,
    /// Whether to play again after the server disconnects.
    pub reconnect: bool,
    /// The tcUrl to connect with, if not the default.
    pub tc_url: Option<String>,
    /// The certificate chain to present.
    pub tls_cert: Option<String>,
    /// The private key of the certificate.
    pub tls_key: Option<String>,
    /// Whom to trust besides the platform.
    pub tls_ca_cert: Option<String>,
}

/// The settings of the source, as plain mathematics.
#[verifier::ext_equal]
pub struct SettingsModel {
    pub mode: Seq<char>,
    pub uri: Option<Seq<char>>,
    pub tcp_nodelay: bool,
    pub connect_timeout: u64,
    pub accept_timeout: u64,
    pub handshake_timeout: u64,
    pub read_timeout: u64,
    pub write_timeout: u64,
    pub graceful_shutdown_timeout: u64,
    pub keep_listening: bool,
    pub reconnect: bool,
    pub tc_url: Option<Seq<char>>,
    pub tls_cert: Option<Seq<char>>,
    pub tls_key: Option<Seq<char>>,
    pub tls_ca_cert: Option<Seq<char>>,
}

impl View for Settings {
    type V = SettingsModel;

    open spec fn view(&self) -> SettingsModel {
        SettingsModel {
            mode: self.mode@,
            uri: opt_text(self.uri),
            tcp_nodelay: self.tcp_nodelay,
            connect_timeout: self.connect_timeout,
            accept_timeout: self.accept_timeout,
            handshake_timeout: self.handshake_timeout,
            read_timeout: self.read_timeout,
            write_timeout: self.write_timeout,
            graceful_shutdown_timeout: self.graceful_shutdown_timeout,
            keep_listening: self.keep_listening,
            reconnect: self.reconnect,
            tc_url: opt_text(self.tc_url),
            tls_cert: opt_text(self.tls_cert),
            tls_key: opt_text(self.tls_key),
            tls_ca_cert: opt_text(self.tls_ca_cert),
        }
    }
}

impl SettingsModel {
    /// The settings of an element that nobody has configured.
    pub open spec fn defaults() -> SettingsModel {
        SettingsModel {
            mode: "play"@,
            uri: None,
            tcp_nodelay: true,
            connect_timeout: 10_000_000_000,
            accept_timeout: 0,
            handshake_timeout: 10_000_000_000,
            read_timeout: 0,
            write_timeout: 10_000_000_000,
            graceful_shutdown_timeout: 0,
            keep_listening: false,
            reconnect: false,
            tc_url: None,
            tls_cert: None,
            tls_key: None,
            tls_ca_cert: None,
        }
    }

    /// The value of a property.
    pub open spec fn get(self, property: SourceProperty) -> ValueModel {
        match property {
            SourceProperty::Mode => ValueModel::Text(Some(self.mode)),
            SourceProperty::Uri => ValueModel::Text(self.uri),
            SourceProperty::TcpNodelay => ValueModel::Flag(self.tcp_nodelay),
            SourceProperty::ConnectTimeout => ValueModel::Number(self.connect_timeout),
            SourceProperty::AcceptTimeout => ValueModel::Number(self.accept_timeout),
            SourceProperty::HandshakeTimeout => ValueModel::Number(self.handshake_timeout),
            SourceProperty::ReadTimeout => ValueModel::Number(self.read_timeout),
            SourceProperty::WriteTimeout => ValueModel::Number(self.write_timeout),
            SourceProperty::GracefulShutdownTimeout => ValueModel::Number(self.graceful_shutdown_timeout),
            SourceProperty::KeepListening => ValueModel::Flag(self.keep_listening),
            SourceProperty::Reconnect => ValueModel::Flag(self.reconnect),
            SourceProperty::TcUrl => ValueModel::Text(self.tc_url),
            SourceProperty::TlsCert => ValueModel::Text(self.tls_cert),
            SourceProperty::TlsKey => ValueModel::Text(self.tls_key),
            SourceProperty::TlsCaCert => ValueModel::Text(self.tls_ca_cert),
        }
    }

    /// The settings with a property set; `None` if the value is of the wrong
    /// kind. A mode that is not given is the default one.
    pub open spec fn with(self, property: SourceProperty, value: ValueModel) -> Option<SettingsModel> {
        match (property, value) {
            (SourceProperty::Mode, ValueModel::Text(Some(mode))) => Some(
                SettingsModel { mode, ..self },
            ),
            (SourceProperty::Mode, ValueModel::Text(None)) => Some(
                SettingsModel { mode: "play"@, ..self },
            ),
            (SourceProperty::Uri, ValueModel::Text(uri)) => Some(
                SettingsModel { uri, ..self },
            ),
            (SourceProperty::TcpNodelay, ValueModel::Flag(tcp_nodelay)) => Some(
                SettingsModel { tcp_nodelay, ..self },
            ),
            (SourceProperty::ConnectTimeout, ValueModel::Number(connect_timeout)) => Some(
                SettingsModel { connect_timeout, ..self },
            ),
            (SourceProperty::AcceptTimeout, ValueModel::Number(accept_timeout)) => Some(
                SettingsModel { accept_timeout, ..self },
            ),
            (SourceProperty::HandshakeTimeout, ValueModel::Number(handshake_timeout)) => Some(
                SettingsModel { handshake_timeout, ..self },
            ),
            (SourceProperty::ReadTimeout, ValueModel::Number(read_timeout)) => Some(
                SettingsModel { read_timeout, ..self },
            ),
            (SourceProperty::WriteTimeout, ValueModel::Number(write_timeout)) => Some(
                SettingsModel { write_timeout, ..self },
            ),
            (SourceProperty::GracefulShutdownTimeout, ValueModel::Number(graceful_shutdown_timeout)) => Some(
                SettingsModel { graceful_shutdown_timeout, ..self },
            ),
            (SourceProperty::KeepListening, ValueModel::Flag(keep_listening)) => Some(
                SettingsModel { keep_listening, ..self },
            ),
            (SourceProperty::Reconnect, ValueModel::Flag(reconnect)) => Some(
                SettingsModel { reconnect, ..self },
            ),
            (SourceProperty::TcUrl, ValueModel::Text(tc_url)) => Some(
                SettingsModel { tc_url, ..self },
            ),
            (SourceProperty::TlsCert, ValueModel::Text(tls_cert)) => Some(
                SettingsModel { tls_cert, ..self },
            ),
            (SourceProperty::TlsKey, ValueModel::Text(tls_key)) => Some(
                SettingsModel { tls_key, ..self },
            ),
            (SourceProperty::TlsCaCert, ValueModel::Text(tls_ca_cert)) => Some(
                SettingsModel { tls_ca_cert, ..self },
            ),
            _ => None,
        }
    }
}

impl Default for Settings {
    fn default() -> (settings: Settings)
        ensures
            settings@ == SettingsModel::defaults(),
    {
        Settings {
            mode: "play".to_owned(),
            uri: None,
            tcp_nodelay: true,
            connect_timeout: 10_000_000_000,
            accept_timeout: 0,
            handshake_timeout: 10_000_000_000,
            read_timeout: 0,
            write_timeout: 10_000_000_000,
            graceful_shutdown_timeout: 0,
            keep_listening: false,
            reconnect: false,
            tc_url: None,
            tls_cert: None,
            tls_key: None,
            tls_ca_cert: None,
        }
    }
}

impl Settings {
    /// Sets a property. A value of the wrong kind changes nothing, and the
    /// result tells.
    pub fn set_property(&mut self, property: SourceProperty, value: PropertyValue) -> (set: bool)
        ensures
            match old(self)@.with(property, value@) {
                Some(settings) => set && final(self)@ == settings,
                None => !set && final(self)@ == old(self)@,
            },
    {
        match (property, value) {
            (SourceProperty::Mode, PropertyValue::Text(Some(mode))) => {
                self.mode = mode;
            },
            (SourceProperty::Mode, PropertyValue::Text(None)) => {
                self.mode = "play".to_owned();
            },
            (SourceProperty::Uri, PropertyValue::Text(uri)) => {
                self.uri = uri;
            },
            (SourceProperty::TcpNodelay, PropertyValue::Flag(tcp_nodelay)) => {
                self.tcp_nodelay = tcp_nodelay;
            },
            (SourceProperty::ConnectTimeout, PropertyValue::Number(connect_timeout)) => {
                self.connect_timeout = connect_timeout;
            },
            (SourceProperty::AcceptTimeout, PropertyValue::Number(accept_timeout)) => {
                self.accept_timeout = accept_timeout;
            },
            (SourceProperty::HandshakeTimeout, PropertyValue::Number(handshake_timeout)) => {
                self.handshake_timeout = handshake_timeout;
            },
            (SourceProperty::ReadTimeout, PropertyValue::Number(read_timeout)) => {
                self.read_timeout = read_timeout;
            },
            (SourceProperty::WriteTimeout, PropertyValue::Number(write_timeout)) => {
                self.write_timeout = write_timeout;
            },
            (SourceProperty::GracefulShutdownTimeout, PropertyValue::Number(graceful_shutdown_timeout)) => {
                self.graceful_shutdown_timeout = graceful_shutdown_timeout;
            },
            (SourceProperty::KeepListening, PropertyValue::Flag(keep_listening)) => {
                self.keep_listening = keep_listening;
            },
            (SourceProperty::Reconnect, PropertyValue::Flag(reconnect)) => {
                self.reconnect = reconnect;
            },
            (SourceProperty::TcUrl, PropertyValue::Text(tc_url)) => {
                self.tc_url = tc_url;
            },
            (SourceProperty::TlsCert, PropertyValue::Text(tls_cert)) => {
                self.tls_cert = tls_cert;
            },
            (SourceProperty::TlsKey, PropertyValue::Text(tls_key)) => {
                self.tls_key = tls_key;
            },
            (SourceProperty::TlsCaCert, PropertyValue::Text(tls_ca_cert)) => {
                self.tls_ca_cert = tls_ca_cert;
            },
            _ => return false,
        }
        true
    }

    /// The value of a property.
    pub fn property(&self, property: SourceProperty) -> (value: PropertyValue)
        ensures
            value@ == self@.get(property),
    {
        match property {
            SourceProperty::Mode => PropertyValue::Text(Some(self.mode.clone())),
            SourceProperty::Uri => PropertyValue::Text(copy_opt(&self.uri)),
            SourceProperty::TcpNodelay => PropertyValue::Flag(self.tcp_nodelay),
            SourceProperty::ConnectTimeout => PropertyValue::Number(self.connect_timeout),
            SourceProperty::AcceptTimeout => PropertyValue::Number(self.accept_timeout),
            SourceProperty::HandshakeTimeout => PropertyValue::Number(self.handshake_timeout),
            SourceProperty::ReadTimeout => PropertyValue::Number(self.read_timeout),
            SourceProperty::WriteTimeout => PropertyValue::Number(self.write_timeout),
            SourceProperty::GracefulShutdownTimeout => PropertyValue::Number(self.graceful_shutdown_timeout),
            SourceProperty::KeepListening => PropertyValue::Flag(self.keep_listening),
            SourceProperty::Reconnect => PropertyValue::Flag(self.reconnect),
            SourceProperty::TcUrl => PropertyValue::Text(copy_opt(&self.tc_url)),
            SourceProperty::TlsCert => PropertyValue::Text(copy_opt(&self.tls_cert)),
            SourceProperty::TlsKey => PropertyValue::Text(copy_opt(&self.tls_key)),
            SourceProperty::TlsCaCert => PropertyValue::Text(copy_opt(&self.tls_ca_cert)),
        }
    }
}

/// A property that was set reads back as it was set (a mode that is not given as the
/// default one),
/// and every other property keeps its value.
pub proof fn law_property_reads_back(
    settings: SettingsModel,
    property: SourceProperty,
    other: SourceProperty,
    value: ValueModel,
)
    requires
        settings.with(property, value) is Some,
    ensures
        settings.with(property, value)->Some_0.get(property) == if property == SourceProperty::Mode
            && value == ValueModel::Text(None) {
            ValueModel::Text(Some("play"@))
        } else {
            value
        },
        other != property ==> settings.with(property, value)->Some_0.get(other) == settings.get(
            other,
        ),
{
}

/// What a source does.
#[derive(Debug, Clone, Copy, PartialEq, Eq, Structural)]
pub enum SourceMode {
    /// It plays from a server.
    Play,
    /// It waits for a publisher.
    Listen,
}

/// The mode that a text names, in upper or lower case.
pub open spec fn source_mode(mode: Seq<char>) -> Result<SourceMode, ErrorModel> {
    if same_ignoring_ascii_case(mode, "play"@) {
        Ok(SourceMode::Play)
    } else if same_ignoring_ascii_case(mode, "listen"@) {
        Ok(SourceMode::Listen)
    } else {
        Err(
            ErrorModel {
                kind: ErrorKind::Settings,
                message: "Invalid rtmpxsrc mode '"@ + mode + "': expected listen or play"@,
            },
        )
    }
}

impl Settings {
    /// What the source does when it is started.
    pub fn start(&self) -> (mode: Result<SourceMode, ElementError>)
        ensures
            match mode {
                Ok(mode) => source_mode(self@.mode) == Ok::<SourceMode, ErrorModel>(mode),
                Err(error) => source_mode(self@.mode) == Err::<SourceMode, ErrorModel>(error@),
            },
    {
        if eq_ignoring_ascii_case(self.mode.as_str(), "play") {
            return Ok(SourceMode::Play);
        }
        if !eq_ignoring_ascii_case(self.mode.as_str(), "listen") {
            return Err(
                ElementError {
                    kind: ErrorKind::Settings,
                    message: join3(
                        "Invalid rtmpxsrc mode '",
                        self.mode.as_str(),
                        "': expected listen or play",
                    ),
                },
            );
        }
        Ok(SourceMode::Listen)
    }

    /// What the settings say about listening.
    pub fn listen_settings(&self) -> (settings: ListenSettings)
        ensures
            opt_text(settings.uri) == self@.uri,
            opt_text(settings.tls_cert) == self@.tls_cert,
            opt_text(settings.tls_key) == self@.tls_key,
            opt_text(settings.tls_ca_cert) == self@.tls_ca_cert,
    {
        ListenSettings {
            uri: copy_opt(&self.uri),
            tls_cert: copy_opt(&self.tls_cert),
            tls_key: copy_opt(&self.tls_key),
            tls_ca_cert: copy_opt(&self.tls_ca_cert),
        }
    }
}

/// A lifecycle event that travels downstream with the stream.
#[derive(Debug)]
pub struct LifecycleEvent {
    pub name: String,
    pub connection_id: u64,
    pub reason: Option<String>,
}

/// A lifecycle event, as plain mathematics.
#[verifier::ext_equal]
pub struct LifecycleModel {
    pub name: Seq<char>,
    pub connection_id: u64,
    pub reason: Option<Seq<char>>,
}

impl View for LifecycleEvent {
    type V = LifecycleModel;

    open spec fn view(&self) -> LifecycleModel {
        LifecycleModel {
            name: self.name@,
            connection_id: self.connection_id,
            reason: opt_text(self.reason),
        }
    }
}

/// A lifecycle event of a connection, with the reason if there is one.
pub fn publish_event(name: &str, connection_id: u64, reason: Option<&str>) -> (event: LifecycleEvent)
    ensures
        event@ == (LifecycleModel {
            name: name@,
            connection_id,
            reason: crate::text::opt_str(reason),
        }),
{
    LifecycleEvent {
        name: name.to_owned(),
        connection_id,
        reason: match reason {
            Some(reason) => Some(reason.to_owned()),
            None => None,
        },
    }
}

/// What a source sends downstream or to the bus, besides buffers.
#[derive(Debug)]
pub enum Emission {
    /// Stream-start, caps and segment of a new stream generation.
    NewStream,
    /// A lifecycle event downstream.
    Event(LifecycleEvent),
    /// A message on the bus: this connection is gone, and why.
    ConnectionRemoved { connection_id: u64, reason: String },
    /// A warning on the bus.
    Warning(String),
    /// An error on the bus.
    Error(String),
}

/// What a source sends, as plain mathematics.
#[verifier::ext_equal]
pub enum EmissionModel {
    NewStream,
    Event(LifecycleModel),
    ConnectionRemoved { connection_id: u64, reason: Seq<char> },
    Warning(Seq<char>),
    Error(Seq<char>),
}

impl View for Emission {
    type V = EmissionModel;

    open spec fn view(&self) -> EmissionModel {
        match self {
            Emission::NewStream => EmissionModel::NewStream,
            Emission::Event(event) => EmissionModel::Event(event@),
            Emission::ConnectionRemoved { connection_id, reason } =>
                EmissionModel::ConnectionRemoved {
                    connection_id: *connection_id,
                    reason: reason@,
                },
            Emission::Warning(text) => EmissionModel::Warning(text@),
            Emission::Error(text) => EmissionModel::Error(text@),
        }
    }
}

/// The emissions of a list, as models.
pub open spec fn emission_models(emissions: Seq<Emission>) -> Seq<EmissionModel> {
    emissions.map_values(|emission: Emission| emission@)
}

/// How a wait for data ends.
#[derive(Debug)]
pub enum Flow {
    /// With a buffer.
    Buffer(Vec<u8>),
    /// With the end of the stream.
    Eos,
    /// Because the pipeline flushes.
    Flushing,
    /// With an error.
    Error,
}

/// How a wait for data ends, as plain mathematics.
#[verifier::ext_equal]
pub enum FlowModel {
    Buffer(Seq<u8>),
    Eos,
    Flushing,
    Error,
}

impl View for Flow {
    type V = FlowModel;

    open spec fn view(&self) -> FlowModel {
        match self {
            Flow::Buffer(bytes) => FlowModel::Buffer(bytes@),
            Flow::Eos => FlowModel::Eos,
            Flow::Flushing => FlowModel::Flushing,
            Flow::Error => FlowModel::Error,
        }
    }
}

/// What has just happened while the source waits for data.
#[derive(Debug)]
pub enum CreateEvent {
    /// The pipeline flushes.
    Flushing,
    /// The worker sent something.
    Output(WorkerOutput),
    /// Nothing came for a while.
    Idle,
    /// The worker is gone; `flushing` tells whether the pipeline flushes.
    Closed { flushing: bool },
}

/// What the source does about it: what it sends, in order, and then, if the
/// wait is over, how it ends.
#[derive(Debug)]
pub struct CreateReply {
    pub emissions: Vec<Emission>,
    pub flow: Option<Flow>,
}

/// What the source does, as plain mathematics.
#[verifier::ext_equal]
pub struct ReplyModel {
    pub emissions: Seq<EmissionModel>,
    pub flow: Option<FlowModel>,
}

impl View for CreateReply {
    type V = ReplyModel;

    open spec fn view(&self) -> ReplyModel {
        ReplyModel {
            emissions: emission_models(self.emissions@),
            flow: match self.flow {
                Some(flow) => Some(flow@),
                None => None,
            },
        }
    }
}

/// What the source remembers between the worker's messages.
#[derive(Debug, Clone, Copy, PartialEq, Eq, Structural)]
pub struct StreamState {
    /// Whether the next buffer starts a new stream generation.
    pub new_stream_pending: bool,
    /// The publish whose start is announced with the next buffer.
    pub pending_publish_start: Option<u64>,
}

/// The announced start of a publish.
pub open spec fn start_event(connection_id: u64) -> EmissionModel {
    EmissionModel::Event(
        LifecycleModel { name: "rtmpx-publish-start"@, connection_id, reason: None },
    )
}

/// The announced end of a publish.
pub open spec fn end_event(connection_id: u64, reason: Seq<char>) -> EmissionModel {
    EmissionModel::Event(
        LifecycleModel { name: "rtmpx-publish-end"@, connection_id, reason: Some(reason) },
    )
}

/// Nothing to send, and the wait ends so.
pub open spec fn silently(flow: Option<FlowModel>) -> ReplyModel {
    ReplyModel { emissions: Seq::empty(), flow }
}

impl StreamState {
    /// What goes before a buffer: a new stream generation if one is due, then
    /// the start of the publish that it belongs to.
    pub open spec fn before_buffer(self) -> Seq<EmissionModel> {
        (if self.new_stream_pending {
            seq![EmissionModel::NewStream]
        } else {
            Seq::empty()
        }) + (match self.pending_publish_start {
            Some(connection_id) => seq![start_event(connection_id)],
            None => Seq::empty(),
        })
    }

    /// What a message of the worker leads to.
    pub open spec fn after_output(self, output: OutputModel) -> (StreamState, ReplyModel) {
        match output {
            OutputModel::PublishStarted { connection_id } => (
                StreamState { pending_publish_start: Some(connection_id), ..self },
                silently(None),
            ),
            OutputModel::Data(bytes) => (
                StreamState { new_stream_pending: false, pending_publish_start: None },
                ReplyModel {
                    emissions: self.before_buffer(),
                    flow: Some(FlowModel::Buffer(bytes)),
                },
            ),
            OutputModel::Warning(text) => (
                self,
                ReplyModel { emissions: seq![EmissionModel::Warning(text)], flow: None },
            ),
            OutputModel::Eos => (self, silently(Some(FlowModel::Eos))),
            OutputModel::PublishEnded { connection_id, reason } => (
                StreamState { new_stream_pending: true, ..self },
                ReplyModel {
                    emissions: seq![
                        end_event(connection_id, reason),
                        EmissionModel::ConnectionRemoved { connection_id, reason },
                    ],
                    flow: None,
                },
            ),
            OutputModel::Error(text) => (
                self,
                ReplyModel {
                    emissions: seq![EmissionModel::Error(text)],
                    flow: Some(FlowModel::Error),
                },
            ),
            OutputModel::Wake => (self, silently(None)),
        }
    }

    /// What an event leads to.
    pub open spec fn after(self, event: CreateEvent) -> (StreamState, ReplyModel) {
        match event {
            CreateEvent::Flushing => (self, silently(Some(FlowModel::Flushing))),
            CreateEvent::Output(output) => self.after_output(output@),
            CreateEvent::Idle => (self, silently(None)),
            CreateEvent::Closed { flushing } => (
                self,
                silently(
                    Some(
                        if flushing {
                            FlowModel::Flushing
                        } else {
                            FlowModel::Eos
                        },
                    ),
                ),
            ),
        }
    }

    /// The state of a source that has just been started.
    pub fn fresh() -> (state: StreamState)
        ensures
            state == (StreamState { new_stream_pending: false, pending_publish_start: None }),
    {
        StreamState { new_stream_pending: false, pending_publish_start: None }
    }

    /// Waits for data: takes in what happened and says what to send and
    /// whether the wait is over.
    ///
    /// Each publisher after the first starts a new stream generation. The
    /// start of a publish follows stream-start, caps and segment and precedes
    /// the first buffer of that generation. It waits for that buffer however
    /// often the wait for data ends before it comes.
    pub fn create(&mut self, event: CreateEvent) -> (reply: CreateReply)
        ensures
            (*final(self), reply@) == old(self).after(event),
    {
        let ghost wanted = self.after(event).1;
        let mut emissions: Vec<Emission> = Vec::new();
        let mut flow: Option<Flow> = None;
        match event {
            CreateEvent::Flushing => {
                flow = Some(Flow::Flushing);
            },
            CreateEvent::Output(output) => match output {
                WorkerOutput::PublishStarted { connection_id } => {
                    self.pending_publish_start = Some(connection_id);
                },
                WorkerOutput::Data(data) => {
                    if self.new_stream_pending {
                        self.new_stream_pending = false;
                        emissions.push(Emission::NewStream);
                    }
                    if let Some(connection_id) = self.pending_publish_start {
                        self.pending_publish_start = None;
                        emissions.push(
                            Emission::Event(
                                publish_event("rtmpx-publish-start", connection_id, None),
                            ),
                        );
                    }
                    flow = Some(Flow::Buffer(data));
                },
                WorkerOutput::Warning(text) => {
                    emissions.push(Emission::Warning(text));
                },
                WorkerOutput::Eos => {
                    flow = Some(Flow::Eos);
                },
                WorkerOutput::PublishEnded { connection_id, reason } => {
                    self.new_stream_pending = true;
                    emissions.push(
                        Emission::Event(
                            publish_event(
                                "rtmpx-publish-end",
                                connection_id,
                                Some(reason.as_str()),
                            ),
                        ),
                    );
                    emissions.push(Emission::ConnectionRemoved { connection_id, reason });
                },
                WorkerOutput::Error(text) => {
                    emissions.push(Emission::Error(text));
                    flow = Some(Flow::Error);
                },
                WorkerOutput::Wake => {},
            },
            CreateEvent::Idle => {},
            CreateEvent::Closed { flushing } => {
                flow = if flushing {
                    Some(Flow::Flushing)
                } else {
                    Some(Flow::Eos)
                };
            },
        }
        let reply = CreateReply { emissions, flow };
        assert(reply@.emissions =~= wanted.emissions);
        reply
    }
}

/// After the end of a publish, the next publish starts a new stream
/// generation: its start is announced behind the new stream's own events and
/// before its first buffer, and only once.
pub proof fn law_each_publisher_starts_a_new_stream(
    state: StreamState,
    ended: u64,
    reason: Seq<char>,
    started: u64,
    first: Seq<u8>,
    second: Seq<u8>,
)
    ensures
        ({
            let (after_end, end) = state.after_output(
                OutputModel::PublishEnded { connection_id: ended, reason },
            );
            let (after_start, start) = after_end.after_output(
                OutputModel::PublishStarted { connection_id: started },
            );
            let (after_first, buffer) = after_start.after_output(OutputModel::Data(first));
            let (after_second, later) = after_first.after_output(OutputModel::Data(second));
            &&& end.emissions == seq![
                end_event(ended, reason),
                EmissionModel::ConnectionRemoved { connection_id: ended, reason },
            ]
            &&& start == silently(None)
            &&& buffer.emissions == seq![EmissionModel::NewStream, start_event(started)]
            &&& buffer.flow == Some(FlowModel::Buffer(first))
            &&& later == silently(Some(FlowModel::Buffer(second)))
        }),
{
    let after_end = state.after_output(
        OutputModel::PublishEnded { connection_id: ended, reason },
    ).0;
    let after_start = after_end.after_output(
        OutputModel::PublishStarted { connection_id: started },
    ).0;
    assert(after_start.before_buffer() =~= seq![EmissionModel::NewStream, start_event(started)]);
    let after_first = after_start.after_output(OutputModel::Data(first)).0;
    assert(after_first.before_buffer() =~= Seq::<EmissionModel>::empty());
}

impl StreamState {
    /// The state after several events.
    pub open spec fn after_all(self, events: Seq<CreateEvent>) -> StreamState
        decreases events.len(),
    {
        if events.len() == 0 {
            self
        } else {
            self.after_all(events.drop_last()).after(events.last()).0
        }
    }
}

/// The start of a publish is announced before its first buffer whatever comes
/// between the two: flushes, ended waits, warnings. Only the start of another
/// publish takes its place.
pub proof fn law_start_is_announced_before_the_first_buffer(
    state: StreamState,
    started: u64,
    between: Seq<CreateEvent>,
    first: Seq<u8>,
)
    requires
        forall|i: int|
            0 <= i < between.len() ==> !(#[trigger] between[i] matches CreateEvent::Output(output)
                && (output is Data || output is PublishStarted)),
    ensures
        ({
            let begun = state.after_output(OutputModel::PublishStarted { connection_id: started }).0;
            let reached = begun.after_all(between);
            let (later, buffer) = reached.after_output(OutputModel::Data(first));
            &&& reached.pending_publish_start == Some(started)
            &&& buffer.flow == Some(FlowModel::Buffer(first))
            &&& buffer.emissions.len() > 0
            &&& buffer.emissions.last() == start_event(started)
            &&& later.pending_publish_start is None
        }),
    decreases between.len(),
{
    let begun = state.after_output(OutputModel::PublishStarted { connection_id: started }).0;
    if between.len() > 0 {
        let earlier = between.drop_last();
        assert forall|i: int| 0 <= i < earlier.len() implies !(
        #[trigger] earlier[i] matches CreateEvent::Output(output) && (output is Data
            || output is PublishStarted)) by {
            assert(earlier[i] == between[i]);
        }
        law_start_is_announced_before_the_first_buffer(state, started, earlier, first);
        let last = between[between.len() - 1];
        assert(begun.after_all(between) == begun.after_all(earlier).after(last).0);
    }
}

/// Every buffer that the worker sends leaves the source unchanged, as the end
/// of exactly one wait.
pub proof fn law_buffers_pass_through(state: StreamState, output: OutputModel)
    ensures
        ({
            let flow = state.after_output(output).1.flow;
            &&& output matches OutputModel::Data(bytes) ==> flow == Some(FlowModel::Buffer(bytes))
            &&& flow matches Some(FlowModel::Buffer(bytes)) ==> output == OutputModel::Data(bytes)
            &&& flow == Some(FlowModel::Eos) <==> output == OutputModel::Eos
            &&& flow == Some(FlowModel::Error) <==> output is Error
        }),
{
}

/// Every property is known by the name that pipelines set it by.
pub proof fn law_property_names()
    ensures
        property_name(SourceProperty::Mode) == "mode"@,
        property_name(SourceProperty::Uri) == "uri"@,
        property_name(SourceProperty::TcpNodelay) == "tcp-nodelay"@,
        property_name(SourceProperty::ConnectTimeout) == "connect-timeout"@,
        property_name(SourceProperty::AcceptTimeout) == "accept-timeout"@,
        property_name(SourceProperty::HandshakeTimeout) == "handshake-timeout"@,
        property_name(SourceProperty::ReadTimeout) == "read-timeout"@,
        property_name(SourceProperty::WriteTimeout) == "write-timeout"@,
        property_name(SourceProperty::GracefulShutdownTimeout) == "graceful-shutdown-timeout"@,
        property_name(SourceProperty::KeepListening) == "keep-listening"@,
        property_name(SourceProperty::Reconnect) == "reconnect"@,
        property_name(SourceProperty::TcUrl) == "tc-url"@,
        property_name(SourceProperty::TlsCert) == "tls-cert"@,
        property_name(SourceProperty::TlsKey) == "tls-key"@,
        property_name(SourceProperty::TlsCaCert) == "tls-ca-cert"@,
{
}

/// A property is the setting of the same name: setting it to a value of its kind
/// sets exactly that setting, and reading it gives that setting.
pub proof fn law_properties_are_their_settings(
    settings: SettingsModel,
    text: Option<Seq<char>>,
    flag: bool,
    number: u64,
)
    ensures
        settings.with(SourceProperty::Uri, ValueModel::Text(text)) == Some(
            SettingsModel { uri: text, ..settings },
        ),
        settings.with(SourceProperty::TcpNodelay, ValueModel::Flag(flag)) == Some(
            SettingsModel { tcp_nodelay: flag, ..settings },
        ),
        settings.with(SourceProperty::ConnectTimeout, ValueModel::Number(number)) == Some(
            SettingsModel { connect_timeout: number, ..settings },
        ),
        settings.with(SourceProperty::AcceptTimeout, ValueModel::Number(number)) == Some(
            SettingsModel { accept_timeout: number, ..settings },
        ),
        settings.with(SourceProperty::HandshakeTimeout, ValueModel::Number(number)) == Some(
            SettingsModel { handshake_timeout: number, ..settings },
        ),
        settings.with(SourceProperty::ReadTimeout, ValueModel::Number(number)) == Some(
            SettingsModel { read_timeout: number, ..settings },
        ),
        settings.with(SourceProperty::WriteTimeout, ValueModel::Number(number)) == Some(
            SettingsModel { write_timeout: number, ..settings },
        ),
        settings.with(SourceProperty::GracefulShutdownTimeout, ValueModel::Number(number)) == Some(
            SettingsModel { graceful_shutdown_timeout: number, ..settings },
        ),
        settings.with(SourceProperty::KeepListening, ValueModel::Flag(flag)) == Some(
            SettingsModel { keep_listening: flag, ..settings },
        ),
        settings.with(SourceProperty::Reconnect, ValueModel::Flag(flag)) == Some(
            SettingsModel { reconnect: flag, ..settings },
        ),
        settings.with(SourceProperty::TcUrl, ValueModel::Text(text)) == Some(
            SettingsModel { tc_url: text, ..settings },
        ),
        settings.with(SourceProperty::TlsCert, ValueModel::Text(text)) == Some(
            SettingsModel { tls_cert: text, ..settings },
        ),
        settings.with(SourceProperty::TlsKey, ValueModel::Text(text)) == Some(
            SettingsModel { tls_key: text, ..settings },
        ),
        settings.with(SourceProperty::TlsCaCert, ValueModel::Text(text)) == Some(
            SettingsModel { tls_ca_cert: text, ..settings },
        ),
        settings.with(SourceProperty::Mode, ValueModel::Text(text)) == Some(
            SettingsModel {
                mode: match text {
                    Some(mode) => mode,
                    None => "play"@,
                },
                ..settings
            },
        ),
        settings.get(SourceProperty::Mode) == ValueModel::Text(Some(settings.mode)),
        settings.get(SourceProperty::Uri) == ValueModel::Text(settings.uri),
        settings.get(SourceProperty::TcpNodelay) == ValueModel::Flag(settings.tcp_nodelay),
        settings.get(SourceProperty::ConnectTimeout) == ValueModel::Number(
            settings.connect_timeout,
        ),
        settings.get(SourceProperty::AcceptTimeout) == ValueModel::Number(settings.accept_timeout),
        settings.get(SourceProperty::HandshakeTimeout) == ValueModel::Number(
            settings.handshake_timeout,
        ),
        settings.get(SourceProperty::ReadTimeout) == ValueModel::Number(settings.read_timeout),
        settings.get(SourceProperty::WriteTimeout) == ValueModel::Number(settings.write_timeout),
        settings.get(SourceProperty::GracefulShutdownTimeout) == ValueModel::Number(
            settings.graceful_shutdown_timeout,
        ),
        settings.get(SourceProperty::KeepListening) == ValueModel::Flag(settings.keep_listening),
        settings.get(SourceProperty::Reconnect) == ValueModel::Flag(settings.reconnect),
        settings.get(SourceProperty::TcUrl) == ValueModel::Text(settings.tc_url),
        settings.get(SourceProperty::TlsCert) == ValueModel::Text(settings.tls_cert),
        settings.get(SourceProperty::TlsKey) == ValueModel::Text(settings.tls_key),
        settings.get(SourceProperty::TlsCaCert) == ValueModel::Text(settings.tls_ca_cert),
{
}

/// A value of another kind than the property's own is refused, and no other.
pub proof fn law_values_must_be_of_their_kind(
    settings: SettingsModel,
    property: SourceProperty,
    value: ValueModel,
)
    ensures
        settings.with(property, value) is Some <==> match settings.get(property) {
            ValueModel::Text(_) => value is Text,
            ValueModel::Flag(_) => value is Flag,
            ValueModel::Number(_) => value is Number,
        },
{
}

/// A source that nobody has configured plays, without Nagle's algorithm, gives
/// connects, handshake reads and writes ten seconds each, waits for everything
/// else without limit, and neither goes on listening nor plays again.
pub proof fn law_defaults()
    ensures
        SettingsModel::defaults() == (SettingsModel {
            mode: "play"@,
            uri: None,
            tcp_nodelay: true,
            connect_timeout: 10_000_000_000,
            accept_timeout: 0,
            handshake_timeout: 10_000_000_000,
            read_timeout: 0,
            write_timeout: 10_000_000_000,
            graceful_shutdown_timeout: 0,
            keep_listening: false,
            reconnect: false,
            tc_url: None,
            tls_cert: None,
            tls_key: None,
            tls_ca_cert: None,
        }),
{
}

/// What the settings say is what they hold: each is read from its own field.
pub proof fn law_settings_show_their_fields(settings: Settings, text: Option<String>)
    ensures
        settings@.mode == settings.mode@,
        settings@.tcp_nodelay == settings.tcp_nodelay,
        settings@.connect_timeout == settings.connect_timeout,
        settings@.accept_timeout == settings.accept_timeout,
        settings@.handshake_timeout == settings.handshake_timeout,
        settings@.read_timeout == settings.read_timeout,
        settings@.write_timeout == settings.write_timeout,
        settings@.graceful_shutdown_timeout == settings.graceful_shutdown_timeout,
        settings@.keep_listening == settings.keep_listening,
        settings@.reconnect == settings.reconnect,
        text is None ==> opt_text(text) is None,
        text matches Some(string) ==> opt_text(text) == Some(string@),
        settings@.uri == opt_text(settings.uri),
        settings@.tc_url == opt_text(settings.tc_url),
        settings@.tls_cert == opt_text(settings.tls_cert),
        settings@.tls_key == opt_text(settings.tls_key),
        settings@.tls_ca_cert == opt_text(settings.tls_ca_cert),
{
}

/// A source plays exactly if its mode spells `play` and listens exactly if it
/// spells `listen`, in whatever mix of upper and lower case; any other mode is an
/// error in the settings that quotes it.
pub proof fn law_modes_are_spelled_in_any_case(mode: Seq<char>)
    ensures
        ({
            let spells = |word: Seq<char>|
                mode.len() == word.len() && forall|i: int|
                    0 <= i < word.len() ==> (#[trigger] mode[i] == word[i] || mode[i] as int
                        == word[i] as int - 32);
            let play = spells(seq!['p', 'l', 'a', 'y']);
            let listen = spells(seq!['l', 'i', 's', 't', 'e', 'n']);
            &&& play ==> source_mode(mode) == Ok::<SourceMode, ErrorModel>(SourceMode::Play)
            &&& listen ==> source_mode(mode) == Ok::<SourceMode, ErrorModel>(SourceMode::Listen)
            &&& !play && !listen ==> source_mode(mode) == Err::<SourceMode, ErrorModel>(
                ErrorModel {
                    kind: ErrorKind::Settings,
                    message: "Invalid rtmpxsrc mode '"@ + mode + "': expected listen or play"@,
                },
            )
        }),
{
    reveal_strlit("play");
    reveal_strlit("listen");
    assert("play"@ =~= seq!['p', 'l', 'a', 'y']);
    assert("listen"@ =~= seq!['l', 'i', 's', 't', 'e', 'n']);
    lemma_spelling(mode, "play"@);
    lemma_spelling(mode, "listen"@);
}

/// A word of small letters is spelled, case aside, by itself with some of its
/// letters made capital.
pub(crate) proof fn lemma_spelling(text: Seq<char>, word: Seq<char>)
    requires
        forall|i: int| 0 <= i < word.len() ==> 'a' <= #[trigger] word[i] <= 'z',
    ensures
        same_ignoring_ascii_case(text, word) <==> text.len() == word.len() && forall|i: int|
            0 <= i < word.len() ==> (#[trigger] text[i] == word[i] || text[i] as int
                == word[i] as int - 32),
{
    law_case_matters_for_ascii_letters_only(text, word);
    if text.len() == word.len() {
        if same_ignoring_ascii_case(text, word) {
            assert forall|i: int| 0 <= i < word.len() implies (#[trigger] text[i] == word[i]
                || text[i] as int == word[i] as int - 32) by {
                assert('a' <= word[i] <= 'z');
            }
        }
        if forall|i: int|
            0 <= i < word.len() ==> (#[trigger] text[i] == word[i] || text[i] as int
                == word[i] as int - 32) {
            assert forall|i: int| 0 <= i < text.len() implies (#[trigger] text[i] == word[i] || (
            'A' <= text[i] <= 'Z' && word[i] as int == text[i] as int + 32) || ('A' <= word[i]
                <= 'Z' && text[i] as int == word[i] as int + 32)) by {
                assert('a' <= word[i] <= 'z');
            }
        }
    }
}

/// A buffer goes out with its own bytes behind a new stream generation, if one is
/// due, and the start of its publish, if that is still to be announced; then
/// neither is due any more.
pub proof fn law_buffers_follow_what_is_due(state: StreamState, bytes: Seq<u8>)
    ensures
        ({
            let (next, reply) = state.after_output(OutputModel::Data(bytes));
            let start = |id: u64|
                EmissionModel::Event(
                    LifecycleModel {
                        name: "rtmpx-publish-start"@,
                        connection_id: id,
                        reason: None,
                    },
                );
            &&& reply.flow == Some(FlowModel::Buffer(bytes))
            &&& !next.new_stream_pending
            &&& next.pending_publish_start is None
            &&& match (state.new_stream_pending, state.pending_publish_start) {
                (true, Some(id)) => reply.emissions == seq![EmissionModel::NewStream, start(id)],
                (true, None) => reply.emissions == seq![EmissionModel::NewStream],
                (false, Some(id)) => reply.emissions == seq![start(id)],
                (false, None) => reply.emissions.len() == 0,
            }
        }),
{
    let emissions = state.before_buffer();
    match (state.new_stream_pending, state.pending_publish_start) {
        (true, Some(id)) => {
            assert(emissions =~= seq![EmissionModel::NewStream, start_event(id)]);
        },
        (true, None) => {
            assert(emissions =~= seq![EmissionModel::NewStream]);
        },
        (false, Some(id)) => {
            assert(emissions =~= seq![start_event(id)]);
        },
        (false, None) => {
            assert(emissions =~= Seq::<EmissionModel>::empty());
        },
    }
}

/// The start of a publish is kept for its first buffer and says nothing yet; its
/// end is announced downstream and on the bus, with its id and reason, and makes
/// the next buffer start a new stream generation.
pub proof fn law_starts_wait_and_ends_are_announced(
    state: StreamState,
    id: u64,
    reason: Seq<char>,
)
    ensures
        ({
            let (next, reply) = state.after_output(
                OutputModel::PublishStarted { connection_id: id },
            );
            &&& next == (StreamState { pending_publish_start: Some(id), ..state })
            &&& reply.emissions.len() == 0
            &&& reply.flow is None
        }),
        ({
            let (next, reply) = state.after_output(
                OutputModel::PublishEnded { connection_id: id, reason },
            );
            &&& next == (StreamState { new_stream_pending: true, ..state })
            &&& reply.emissions == seq![
                EmissionModel::Event(
                    LifecycleModel {
                        name: "rtmpx-publish-end"@,
                        connection_id: id,
                        reason: Some(reason),
                    },
                ),
                EmissionModel::ConnectionRemoved { connection_id: id, reason },
            ]
            &&& reply.flow is None
        }),
{
}

/// A warning is passed on and the wait goes on; an error is passed on and ends
/// it; the end of the stream, a flush and a worker that is gone end it; and
/// nothing else does.
pub proof fn law_waits_end_for_a_reason(state: StreamState, text: Seq<char>, flushing: bool)
    ensures
        state.after_output(OutputModel::Warning(text)) == (
            state,
            ReplyModel { emissions: seq![EmissionModel::Warning(text)], flow: None },
        ),
        state.after_output(OutputModel::Error(text)) == (
            state,
            ReplyModel {
                emissions: seq![EmissionModel::Error(text)],
                flow: Some(FlowModel::Error),
            },
        ),
        ({
            let silent = |outcome: (StreamState, ReplyModel), flow: Option<FlowModel>|
                outcome.0 == state && outcome.1.emissions.len() == 0 && outcome.1.flow == flow;
            &&& silent(state.after_output(OutputModel::Eos), Some(FlowModel::Eos))
            &&& silent(state.after_output(OutputModel::Wake), None)
            &&& silent(state.after(CreateEvent::Idle), None)
            &&& silent(state.after(CreateEvent::Flushing), Some(FlowModel::Flushing))
            &&& silent(
                state.after(CreateEvent::Closed { flushing }),
                Some(
                    if flushing {
                        FlowModel::Flushing
                    } else {
                        FlowModel::Eos
                    },
                ),
            )
        }),
{
}

/// What the worker sends is what the source acts on, and what the source sends is
/// told as it is.
pub proof fn law_emissions_show_their_fields(
    state: StreamState,
    output: WorkerOutput,
    event: LifecycleEvent,
    id: u64,
    text: String,
    bytes: Vec<u8>,
    reply: CreateReply,
)
    ensures
        state.after(CreateEvent::Output(output)) == state.after_output(output@),
        event@.name == event.name@,
        event@.connection_id == event.connection_id,
        event.reason is None ==> event@.reason is None,
        event.reason matches Some(reason) ==> event@.reason == Some(reason@),
        Emission::NewStream@ == EmissionModel::NewStream,
        Emission::Event(event)@ == EmissionModel::Event(event@),
        (Emission::ConnectionRemoved { connection_id: id, reason: text })@ == (
        EmissionModel::ConnectionRemoved { connection_id: id, reason: text@ }),
        Emission::Warning(text)@ == EmissionModel::Warning(text@),
        Emission::Error(text)@ == EmissionModel::Error(text@),
        Flow::Buffer(bytes)@ == FlowModel::Buffer(bytes@),
        Flow::Eos@ == FlowModel::Eos,
        Flow::Flushing@ == FlowModel::Flushing,
        Flow::Error@ == FlowModel::Error,
        reply@.emissions.len() == reply.emissions@.len(),
        forall|i: int|
            0 <= i < reply.emissions@.len() ==> #[trigger] reply@.emissions[i]
                == reply.emissions@[i]@,
        reply.flow is None ==> reply@.flow is None,
        reply.flow matches Some(flow) ==> reply@.flow == Some(flow@),
{
}

} // verus!
