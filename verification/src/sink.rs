//! The sink element: its settings, and what it does with a buffer.

use vstd::prelude::*;
use vstd::string::*;

use crate::property::PropertyValue;
use crate::property::ValueModel;
use crate::start::ElementError;
use crate::start::ErrorKind;
use crate::start::ErrorModel;
use crate::start::ListenSettings;
use crate::text::copy_opt;
use crate::text::eq_ignoring_ascii_case;
use crate::text::join2;
use crate::text::join3;
use crate::text::opt_text;
use crate::text::same_ignoring_ascii_case;
use crate::text::same_text;

verus! {

/// A property of the sink.
#[derive(Debug, Clone, Copy, PartialEq, Eq, Structural)]
pub enum SinkProperty {
    Mode,
    Uri,
    TcUrl,
    TcpNodelay,
    ConnectTimeout,
    AcceptTimeout,
    WaitForConnection,
    HandshakeTimeout,
    ReadTimeout,
    WriteTimeout,
    TlsCert,
    TlsKey,
    TlsCaCert,
}

/// The name of a property.
pub open spec fn property_name(property: SinkProperty) -> Seq<char> {
    match property {
        SinkProperty::Mode => "mode"@,
        SinkProperty::Uri => "uri"@,
        SinkProperty::TcUrl => "tc-url"@,
        SinkProperty::TcpNodelay => "tcp-nodelay"@,
        SinkProperty::ConnectTimeout => "connect-timeout"@,
        SinkProperty::AcceptTimeout => "accept-timeout"@,
        SinkProperty::WaitForConnection => "wait-for-connection"@,
        SinkProperty::HandshakeTimeout => "handshake-timeout"@,
        SinkProperty::ReadTimeout => "read-timeout"@,
        SinkProperty::WriteTimeout => "write-timeout"@,
        SinkProperty::TlsCert => "tls-cert"@,
        SinkProperty::TlsKey => "tls-key"@,
        SinkProperty::TlsCaCert => "tls-ca-cert"@,
    }
}

/// The property with a name, if there is one.
pub fn property_named(name: &str) -> (property: Option<SinkProperty>)
    ensures
        match property {
            Some(property) => property_name(property) == name@,
            None => forall|property: SinkProperty| #[trigger] property_name(property) != name@,
        },
{
    if same_text(name, "mode") {
        Some(SinkProperty::Mode)
    } else if same_text(name, "uri") {
        Some(SinkProperty::Uri)
    } else if same_text(name, "tc-url") {
        Some(SinkProperty::TcUrl)
    } else if same_text(name, "tcp-nodelay") {
        Some(SinkProperty::TcpNodelay)
    } else if same_text(name, "connect-timeout") {
        Some(SinkProperty::ConnectTimeout)
    } else if same_text(name, "accept-timeout") {
        Some(SinkProperty::AcceptTimeout)
    } else if same_text(name, "wait-for-connection") {
        Some(SinkProperty::WaitForConnection)
    } else if same_text(name, "handshake-timeout") {
        Some(SinkProperty::HandshakeTimeout)
    } else if same_text(name, "read-timeout") {
        Some(SinkProperty::ReadTimeout)
    } else if same_text(name, "write-timeout") {
        Some(SinkProperty::WriteTimeout)
    } else if same_text(name, "tls-cert") {
        Some(SinkProperty::TlsCert)
    } else if same_text(name, "tls-key") {
        Some(SinkProperty::TlsKey)
    } else if same_text(name, "tls-ca-cert") {
        Some(SinkProperty::TlsCaCert)
    } else {
        None
    }
}

/// No two properties share a name.
pub proof fn law_property_names_are_distinct(first: SinkProperty, second: SinkProperty)
    requires
        property_name(first) == property_name(second),
    ensures
        first == second,
{
    reveal_strlit("mode");
    assert("mode"@.len() == 4);
    reveal_strlit("uri");
    assert("uri"@.len() == 3);
    reveal_strlit("tc-url");
    assert("tc-url"@.len() == 6);
    reveal_strlit("tcp-nodelay");
    assert("tcp-nodelay"@.len() == 11);
    reveal_strlit("connect-timeout");
    assert("connect-timeout"@.len() == 15);
    reveal_strlit("accept-timeout");
    assert("accept-timeout"@.len() == 14);
    reveal_strlit("wait-for-connection");
    assert("wait-for-connection"@.len() == 19);
    reveal_strlit("handshake-timeout");
    assert("handshake-timeout"@.len() == 17);
    reveal_strlit("read-timeout");
    assert("read-timeout"@.len() == 12);
    reveal_strlit("write-timeout");
    assert("write-timeout"@.len() == 13);
    reveal_strlit("tls-cert");
    assert("tls-cert"@.len() == 8);
    reveal_strlit("tls-key");
    assert("tls-key"@.len() == 7);
    reveal_strlit("tls-ca-cert");
    assert("tls-ca-cert"@.len() == 11);
    assert("tcp-nodelay"@[1] == 'c');
    assert("tls-ca-cert"@[1] == 'l');
}

/// The settings of the sink.
#[derive(Debug, Clone)]
pub struct Settings {
    /// What the element does.
    pub mode: String,
    /// The RTMP URI.
    pub uri: Option<String>,
    /// The tcUrl to connect with, if not the default.
    pub tc_url: Option<String>,
    /// Whether Nagle's algorithm is off.
    pub tcp_nodelay: bool,
    /// Nanoseconds for a TCP connect; 0 for no limit.
    pub connect_timeout: u64,
    /// Nanoseconds to wait for a peer; 0 for no limit.
    pub accept_timeout: u64,
    /// Whether data waits for a player instead of being dropped.
    pub wait_for_connection: bool,
    /// Nanoseconds for each handshake read; 0 for no limit.
    pub handshake_timeout: u64,
    /// Nanoseconds without input; 0 for no limit.
    pub read_timeout: u64,
    /// Nanoseconds for each write; 0 for no limit.
    pub write_timeout: u64,
    /// The certificate chain to present.
    pub tls_cert: Option<String>,
    /// The private key of the certificate.
    pub tls_key: Option<String>,
    /// Whom to trust besides the platform.
    pub tls_ca_cert: Option<String>,
}

/// The settings of the sink, as plain mathematics.
#[verifier::ext_equal]
pub struct SettingsModel {
    pub mode: Seq<char>,
    pub uri: Option<Seq<char>>,
    pub tc_url: Option<Seq<char>>,
    pub tcp_nodelay: bool,
    pub connect_timeout: u64,
    pub accept_timeout: u64,
    pub wait_for_connection: bool,
    pub handshake_timeout: u64,
    pub read_timeout: u64,
    pub write_timeout: u64,
    pub tls_cert: Option<Seq<char>>,
    pub tls_key: Option<Seq<char>>,
    pub tls_ca_cert: Option<Seq<char>>,
}

impl View for Settings {
    type V = SettingsModel;

    open spec fn view(&self) -> SettingsModel {
        SettingsModel {
            mode: self.mode@,
            uri: opt_text(self.uri),
            tc_url: opt_text(self.tc_url),
            tcp_nodelay: self.tcp_nodelay,
            connect_timeout: self.connect_timeout,
            accept_timeout: self.accept_timeout,
            wait_for_connection: self.wait_for_connection,
            handshake_timeout: self.handshake_timeout,
            read_timeout: self.read_timeout,
            write_timeout: self.write_timeout,
            tls_cert: opt_text(self.tls_cert),
            tls_key: opt_text(self.tls_key),
            tls_ca_cert: opt_text(self.tls_ca_cert),
        }
    }
}

impl SettingsModel {
    /// The settings of an element that nobody has configured.
    pub open spec fn defaults() -> SettingsModel {
        SettingsModel {
            mode: "publish"@,
            uri: None,
            tc_url: None,
            tcp_nodelay: true,
            connect_timeout: 10_000_000_000,
            accept_timeout: 0,
            wait_for_connection: true,
            handshake_timeout: 10_000_000_000,
            read_timeout: 0,
            write_timeout: 10_000_000_000,
            tls_cert: None,
            tls_key: None,
            tls_ca_cert: None,
        }
    }

    /// The value of a property.
    pub open spec fn get(self, property: SinkProperty) -> ValueModel {
        match property {
            SinkProperty::Mode => ValueModel::Text(Some(self.mode)),
            SinkProperty::Uri => ValueModel::Text(self.uri),
            SinkProperty::TcUrl => ValueModel::Text(self.tc_url),
            SinkProperty::TcpNodelay => ValueModel::Flag(self.tcp_nodelay),
            SinkProperty::ConnectTimeout => ValueModel::Number(self.connect_timeout),
            SinkProperty::AcceptTimeout => ValueModel::Number(self.accept_timeout),
            SinkProperty::WaitForConnection => ValueModel::Flag(self.wait_for_connection),
            SinkProperty::HandshakeTimeout => ValueModel::Number(self.handshake_timeout),
            SinkProperty::ReadTimeout => ValueModel::Number(self.read_timeout),
            SinkProperty::WriteTimeout => ValueModel::Number(self.write_timeout),
            SinkProperty::TlsCert => ValueModel::Text(self.tls_cert),
            SinkProperty::TlsKey => ValueModel::Text(self.tls_key),
            SinkProperty::TlsCaCert => ValueModel::Text(self.tls_ca_cert),
        }
    }

    /// The settings with a property set; `None` if the value is of the wrong
    /// kind.
    pub open spec fn with(self, property: SinkProperty, value: ValueModel) -> Option<SettingsModel> {
        match (property, value) {
            (SinkProperty::Mode, ValueModel::Text(Some(mode))) => Some(
                SettingsModel { mode, ..self },
            ),
            (SinkProperty::Uri, ValueModel::Text(uri)) => Some(
                SettingsModel { uri, ..self },
            ),
            (SinkProperty::TcUrl, ValueModel::Text(tc_url)) => Some(
                SettingsModel { tc_url, ..self },
            ),
            (SinkProperty::TcpNodelay, ValueModel::Flag(tcp_nodelay)) => Some(
                SettingsModel { tcp_nodelay, ..self },
            ),
            (SinkProperty::ConnectTimeout, ValueModel::Number(connect_timeout)) => Some(
                SettingsModel { connect_timeout, ..self },
            ),
            (SinkProperty::AcceptTimeout, ValueModel::Number(accept_timeout)) => Some(
                SettingsModel { accept_timeout, ..self },
            ),
            (SinkProperty::WaitForConnection, ValueModel::Flag(wait_for_connection)) => Some(
                SettingsModel { wait_for_connection, ..self },
            ),
            (SinkProperty::HandshakeTimeout, ValueModel::Number(handshake_timeout)) => Some(
                SettingsModel { handshake_timeout, ..self },
            ),
            (SinkProperty::ReadTimeout, ValueModel::Number(read_timeout)) => Some(
                SettingsModel { read_timeout, ..self },
            ),
            (SinkProperty::WriteTimeout, ValueModel::Number(write_timeout)) => Some(
                SettingsModel { write_timeout, ..self },
            ),
            (SinkProperty::TlsCert, ValueModel::Text(tls_cert)) => Some(
                SettingsModel { tls_cert, ..self },
            ),
            (SinkProperty::TlsKey, ValueModel::Text(tls_key)) => Some(
                SettingsModel { tls_key, ..self },
            ),
            (SinkProperty::TlsCaCert, ValueModel::Text(tls_ca_cert)) => Some(
                SettingsModel { tls_ca_cert, ..self },
            ),
            _ => None,
        }
    }
}

impl Default for Settings {
    fn default() -> (settings: Settings)
        ensures
            settings@ == SettingsModel::defaults(),
    {
        Settings {
            mode: "publish".to_owned(),
            uri: None,
            tc_url: None,
            tcp_nodelay: true,
            connect_timeout: 10_000_000_000,
            accept_timeout: 0,
            wait_for_connection: true,
            handshake_timeout: 10_000_000_000,
            read_timeout: 0,
            write_timeout: 10_000_000_000,
            tls_cert: None,
            tls_key: None,
            tls_ca_cert: None,
        }
    }
}

impl Settings {
    /// Sets a property. A value of the wrong kind changes nothing, and the
    /// result tells.
    pub fn set_property(&mut self, property: SinkProperty, value: PropertyValue) -> (set: bool)
        ensures
            match old(self)@.with(property, value@) {
                Some(settings) => set && final(self)@ == settings,
                None => !set && final(self)@ == old(self)@,
            },
    {
        match (property, value) {
            (SinkProperty::Mode, PropertyValue::Text(Some(mode))) => {
                self.mode = mode;
            },
            (SinkProperty::Uri, PropertyValue::Text(uri)) => {
                self.uri = uri;
            },
            (SinkProperty::TcUrl, PropertyValue::Text(tc_url)) => {
                self.tc_url = tc_url;
            },
            (SinkProperty::TcpNodelay, PropertyValue::Flag(tcp_nodelay)) => {
                self.tcp_nodelay = tcp_nodelay;
            },
            (SinkProperty::ConnectTimeout, PropertyValue::Number(connect_timeout)) => {
                self.connect_timeout = connect_timeout;
            },
            (SinkProperty::AcceptTimeout, PropertyValue::Number(accept_timeout)) => {
                self.accept_timeout = accept_timeout;
            },
            (SinkProperty::WaitForConnection, PropertyValue::Flag(wait_for_connection)) => {
                self.wait_for_connection = wait_for_connection;
            },
            (SinkProperty::HandshakeTimeout, PropertyValue::Number(handshake_timeout)) => {
                self.handshake_timeout = handshake_timeout;
            },
            (SinkProperty::ReadTimeout, PropertyValue::Number(read_timeout)) => {
                self.read_timeout = read_timeout;
            },
            (SinkProperty::WriteTimeout, PropertyValue::Number(write_timeout)) => {
                self.write_timeout = write_timeout;
            },
            (SinkProperty::TlsCert, PropertyValue::Text(tls_cert)) => {
                self.tls_cert = tls_cert;
            },
            (SinkProperty::TlsKey, PropertyValue::Text(tls_key)) => {
                self.tls_key = tls_key;
            },
            (SinkProperty::TlsCaCert, PropertyValue::Text(tls_ca_cert)) => {
                self.tls_ca_cert = tls_ca_cert;
            },
            _ => return false,
        }
        true
    }

    /// The value of a property.
    pub fn property(&self, property: SinkProperty) -> (value: PropertyValue)
        ensures
            value@ == self@.get(property),
    {
        match property {
            SinkProperty::Mode => PropertyValue::Text(Some(self.mode.clone())),
            SinkProperty::Uri => PropertyValue::Text(copy_opt(&self.uri)),
            SinkProperty::TcUrl => PropertyValue::Text(copy_opt(&self.tc_url)),
            SinkProperty::TcpNodelay => PropertyValue::Flag(self.tcp_nodelay),
            SinkProperty::ConnectTimeout => PropertyValue::Number(self.connect_timeout),
            SinkProperty::AcceptTimeout => PropertyValue::Number(self.accept_timeout),
            SinkProperty::WaitForConnection => PropertyValue::Flag(self.wait_for_connection),
            SinkProperty::HandshakeTimeout => PropertyValue::Number(self.handshake_timeout),
            SinkProperty::ReadTimeout => PropertyValue::Number(self.read_timeout),
            SinkProperty::WriteTimeout => PropertyValue::Number(self.write_timeout),
            SinkProperty::TlsCert => PropertyValue::Text(copy_opt(&self.tls_cert)),
            SinkProperty::TlsKey => PropertyValue::Text(copy_opt(&self.tls_key)),
            SinkProperty::TlsCaCert => PropertyValue::Text(copy_opt(&self.tls_ca_cert)),
        }
    }
}

/// A property that was set reads back as it was set,
/// and every other property keeps its value.
pub proof fn law_property_reads_back(
    settings: SettingsModel,
    property: SinkProperty,
    other: SinkProperty,
    value: ValueModel,
)
    requires
        settings.with(property, value) is Some,
    ensures
        settings.with(property, value)->Some_0.get(property) == value,
        other != property ==> settings.with(property, value)->Some_0.get(other) == settings.get(
            other,
        ),
{
}

/// What a sink does.
#[derive(Debug, Clone, Copy, PartialEq, Eq, Structural)]
pub enum SinkMode {
    /// It publishes to a server.
    Publish,
    /// It serves players.
    Listen,
}

/// The mode that a text names, in upper or lower case.
pub open spec fn sink_mode(mode: Seq<char>) -> Result<SinkMode, ErrorModel> {
    if same_ignoring_ascii_case(mode, "listen"@) {
        Ok(SinkMode::Listen)
    } else if same_ignoring_ascii_case(mode, "publish"@) {
        Ok(SinkMode::Publish)
    } else {
        Err(
            ErrorModel {
                kind: ErrorKind::Settings,
                message: "Invalid rtmpxsink mode '"@ + mode + "': expected publish or listen"@,
            },
        )
    }
}

impl Settings {
    /// What the sink does when it is started.
    pub fn start(&self) -> (mode: Result<SinkMode, ElementError>)
        ensures
            match mode {
                Ok(mode) => sink_mode(self@.mode) == Ok::<SinkMode, ErrorModel>(mode),
                Err(error) => sink_mode(self@.mode) == Err::<SinkMode, ErrorModel>(error@),
            },
    {
        if eq_ignoring_ascii_case(self.mode.as_str(), "listen") {
            return Ok(SinkMode::Listen);
        }
        if !eq_ignoring_ascii_case(self.mode.as_str(), "publish") {
            return Err(
                ElementError {
                    kind: ErrorKind::Settings,
                    message: join3(
                        "Invalid rtmpxsink mode '",
                        self.mode.as_str(),
                        "': expected publish or listen",
                    ),
                },
            );
        }
        Ok(SinkMode::Publish)
    }

    /// What the settings say about listening.
    pub fn listen_settings(&self) -> (settings: ListenSettings)
        ensures
            opt_text(settings.uri) == self@.uri,
            opt_text(settings.tls_cert) == self@.tls_cert,
            opt_text(settings.tls_key) == self@.tls_key,
            opt_text(settings.tls_ca_cert) == self@.tls_ca_cert,
    {
        ListenSettings {
            uri: copy_opt(&self.uri),
            tls_cert: copy_opt(&self.tls_cert),
            tls_key: copy_opt(&self.tls_key),
            tls_ca_cert: copy_opt(&self.tls_ca_cert),
        }
    }
}

/// What a listening sink knows of its players when a buffer comes.
#[derive(Debug, Clone, Copy, PartialEq, Eq, Structural)]
pub struct ListenLive {
    /// As it was set when the sink was started.
    pub wait_for_connection: bool,
    pub player_connected: bool,
}

/// What has just happened while a buffer is rendered.
#[derive(Debug)]
pub enum RenderEvent {
    /// A buffer came.
    Buffer {
        flushing: bool,
        /// Whether the sink has a worker.
        started: bool,
        /// The failure that the worker left behind.
        failure: Option<String>,
        /// The buffer's bytes; `None` if they cannot be read.
        data: Option<Vec<u8>>,
        /// What a listening sink knows of its players.
        live: Option<ListenLive>,
    },
    /// The worker has taken the bytes.
    Queued,
    /// The worker has no room yet for these bytes.
    Full { flushing: bool, failure: Option<String>, bytes: Vec<u8> },
    /// The worker is gone.
    Gone,
}

/// What to do with a buffer.
#[derive(Debug)]
pub enum RenderAction {
    /// Hand these bytes to the worker, and wait a while if it has no room.
    Queue(Vec<u8>),
    /// The buffer is done with.
    Accept,
    /// The pipeline flushes.
    Flush,
    /// The buffer fails with this error.
    Fail(ElementError),
}

/// What to do with a buffer, as plain mathematics.
#[verifier::ext_equal]
pub enum RenderModel {
    Queue(Seq<u8>),
    Accept,
    Flush,
    Fail(ErrorModel),
}

impl View for RenderAction {
    type V = RenderModel;

    open spec fn view(&self) -> RenderModel {
        match self {
            RenderAction::Queue(bytes) => RenderModel::Queue(bytes@),
            RenderAction::Accept => RenderModel::Accept,
            RenderAction::Flush => RenderModel::Flush,
            RenderAction::Fail(error) => RenderModel::Fail(error@),
        }
    }
}

/// A failed buffer.
pub open spec fn render_error(kind: ErrorKind, message: Seq<char>) -> RenderModel {
    RenderModel::Fail(ErrorModel { kind, message })
}

/// Handing bytes to the worker: not while the pipeline flushes, and not once
/// the worker has failed.
pub open spec fn queueing(flushing: bool, failure: Option<Seq<char>>, data: Seq<u8>) ->
    RenderModel {
    if flushing {
        RenderModel::Flush
    } else {
        match failure {
            Some(message) => render_error(ErrorKind::Write, "RTMP publish failed: "@ + message),
            None => RenderModel::Queue(data),
        }
    }
}

/// What to do with a buffer. A listening sink that does not wait for players
/// drops data while none is there; otherwise the worker's bounded queue holds
/// the pipeline back.
pub open spec fn rendering(event: RenderEvent) -> RenderModel {
    match event {
        RenderEvent::Buffer { flushing, started, failure, data, live } => if flushing {
            RenderModel::Flush
        } else if !started {
            render_error(ErrorKind::Failed, "rtmpxsink is not started"@)
        } else if failure is Some {
            queueing(false, opt_text(failure), Seq::empty())
        } else {
            match data {
                None => render_error(ErrorKind::Failed, "Failed to map FLV buffer"@),
                Some(data) => if data@.len() == 0 {
                    RenderModel::Accept
                } else if live matches Some(live) && !live.wait_for_connection
                    && !live.player_connected {
                    RenderModel::Accept
                } else {
                    RenderModel::Queue(data@)
                },
            }
        },
        RenderEvent::Queued => RenderModel::Accept,
        RenderEvent::Full { flushing, failure, bytes } => queueing(
            flushing,
            opt_text(failure),
            bytes@,
        ),
        RenderEvent::Gone => render_error(ErrorKind::Write, "RTMP publish worker is gone"@),
    }
}

fn refuse(kind: ErrorKind, message: String) -> (action: RenderAction)
    ensures
        action@ == render_error(kind, message@),
{
    RenderAction::Fail(ElementError { kind, message })
}

/// Renders a buffer: takes in what happened and says what to do next.
pub fn render(event: RenderEvent) -> (action: RenderAction)
    ensures
        action@ == rendering(event),
{
    match event {
        RenderEvent::Buffer { flushing, started, failure, data, live } => {
            if flushing {
                return RenderAction::Flush;
            }
            if !started {
                return refuse(ErrorKind::Failed, "rtmpxsink is not started".to_owned());
            }
            if let Some(message) = failure {
                return refuse(
                    ErrorKind::Write,
                    join2("RTMP publish failed: ", message.as_str()),
                );
            }
            let data: Vec<u8> = match data {
                Some(data) => data,
                None => {
                    return refuse(ErrorKind::Failed, "Failed to map FLV buffer".to_owned());
                },
            };
            if data.len() == 0 {
                return RenderAction::Accept;
            }
            if let Some(live) = live {
                if !live.wait_for_connection && !live.player_connected {
                    return RenderAction::Accept;
                }
            }
            RenderAction::Queue(data)
        },
        RenderEvent::Queued => RenderAction::Accept,
        RenderEvent::Full { flushing, failure, bytes } => {
            if flushing {
                return RenderAction::Flush;
            }
            match failure {
                Some(message) => refuse(
                    ErrorKind::Write,
                    join2("RTMP publish failed: ", message.as_str()),
                ),
                None => RenderAction::Queue(bytes),
            }
        },
        RenderEvent::Gone => refuse(ErrorKind::Write, "RTMP publish worker is gone".to_owned()),
    }
}

/// A sink that waits for its players never drops data: the bytes of a buffer
/// that is not empty reach the worker unchanged, however often it has no room,
/// until the pipeline flushes or the worker fails.
pub proof fn law_waiting_sink_drops_nothing(data: Vec<u8>, live: Option<ListenLive>)
    requires
        data@.len() > 0,
        live matches Some(live) ==> live.wait_for_connection || live.player_connected,
    ensures
        rendering(
            RenderEvent::Buffer {
                flushing: false,
                started: true,
                failure: None,
                data: Some(data),
                live,
            },
        ) == RenderModel::Queue(data@),
        rendering(RenderEvent::Full { flushing: false, failure: None, bytes: data })
            == RenderModel::Queue(data@),
{
}

/// A sink that does not wait drops data exactly while no player is there.
pub proof fn law_impatient_sink_drops_only_without_player(data: Vec<u8>, player_connected: bool)
    requires
        data@.len() > 0,
    ensures
        rendering(
            RenderEvent::Buffer {
                flushing: false,
                started: true,
                failure: None,
                data: Some(data),
                live: Some(ListenLive { wait_for_connection: false, player_connected }),
            },
        ) == if player_connected {
            RenderModel::Queue(data@)
        } else {
            RenderModel::Accept
        },
{
}

/// Once the worker has failed, every later buffer fails with its message.
pub proof fn law_failure_is_sticky(
    message: String,
    data: Vec<u8>,
    live: Option<ListenLive>,
)
    ensures
        ({
            let wanted = render_error(ErrorKind::Write, "RTMP publish failed: "@ + message@);
            &&& rendering(
                RenderEvent::Buffer {
                    flushing: false,
                    started: true,
                    failure: Some(message),
                    data: Some(data),
                    live,
                },
            ) == wanted
            &&& rendering(
                RenderEvent::Full { flushing: false, failure: Some(message), bytes: data },
            ) == wanted
        }),
{
}

/// Every property is known by the name that pipelines set it by.
pub proof fn law_property_names()
    ensures
        property_name(SinkProperty::Mode) == "mode"@,
        property_name(SinkProperty::Uri) == "uri"@,
        property_name(SinkProperty::TcUrl) == "tc-url"@,
        property_name(SinkProperty::TcpNodelay) == "tcp-nodelay"@,
        property_name(SinkProperty::ConnectTimeout) == "connect-timeout"@,
        property_name(SinkProperty::AcceptTimeout) == "accept-timeout"@,
        property_name(SinkProperty::WaitForConnection) == "wait-for-connection"@,
        property_name(SinkProperty::HandshakeTimeout) == "handshake-timeout"@,
        property_name(SinkProperty::ReadTimeout) == "read-timeout"@,
        property_name(SinkProperty::WriteTimeout) == "write-timeout"@,
        property_name(SinkProperty::TlsCert) == "tls-cert"@,
        property_name(SinkProperty::TlsKey) == "tls-key"@,
        property_name(SinkProperty::TlsCaCert) == "tls-ca-cert"@,
{
}

/// A property is the setting of the same name: setting it to a value of its kind
/// sets exactly that setting, and reading it gives that setting.
pub proof fn law_properties_are_their_settings(
    settings: SettingsModel,
    text: Option<Seq<char>>,
    flag: bool,
    number: u64,
)
    ensures
        settings.with(SinkProperty::Mode, ValueModel::Text(text)) == match text {
            Some(mode) => Some(SettingsModel { mode, ..settings }),
            None => None,
        },
        settings.with(SinkProperty::Uri, ValueModel::Text(text)) == Some(
            SettingsModel { uri: text, ..settings },
        ),
        settings.with(SinkProperty::TcUrl, ValueModel::Text(text)) == Some(
            SettingsModel { tc_url: text, ..settings },
        ),
        settings.with(SinkProperty::TcpNodelay, ValueModel::Flag(flag)) == Some(
            SettingsModel { tcp_nodelay: flag, ..settings },
        ),
        settings.with(SinkProperty::ConnectTimeout, ValueModel::Number(number)) == Some(
            SettingsModel { connect_timeout: number, ..settings },
        ),
        settings.with(SinkProperty::AcceptTimeout, ValueModel::Number(number)) == Some(
            SettingsModel { accept_timeout: number, ..settings },
        ),
        settings.with(SinkProperty::WaitForConnection, ValueModel::Flag(flag)) == Some(
            SettingsModel { wait_for_connection: flag, ..settings },
        ),
        settings.with(SinkProperty::HandshakeTimeout, ValueModel::Number(number)) == Some(
            SettingsModel { handshake_timeout: number, ..settings },
        ),
        settings.with(SinkProperty::ReadTimeout, ValueModel::Number(number)) == Some(
            SettingsModel { read_timeout: number, ..settings },
        ),
        settings.with(SinkProperty::WriteTimeout, ValueModel::Number(number)) == Some(
            SettingsModel { write_timeout: number, ..settings },
        ),
        settings.with(SinkProperty::TlsCert, ValueModel::Text(text)) == Some(
            SettingsModel { tls_cert: text, ..settings },
        ),
        settings.with(SinkProperty::TlsKey, ValueModel::Text(text)) == Some(
            SettingsModel { tls_key: text, ..settings },
        ),
        settings.with(SinkProperty::TlsCaCert, ValueModel::Text(text)) == Some(
            SettingsModel { tls_ca_cert: text, ..settings },
        ),
        settings.get(SinkProperty::Mode) == ValueModel::Text(Some(settings.mode)),
        settings.get(SinkProperty::Uri) == ValueModel::Text(settings.uri),
        settings.get(SinkProperty::TcUrl) == ValueModel::Text(settings.tc_url),
        settings.get(SinkProperty::TcpNodelay) == ValueModel::Flag(settings.tcp_nodelay),
        settings.get(SinkProperty::ConnectTimeout) == ValueModel::Number(settings.connect_timeout),
        settings.get(SinkProperty::AcceptTimeout) == ValueModel::Number(settings.accept_timeout),
        settings.get(SinkProperty::WaitForConnection) == ValueModel::Flag(
            settings.wait_for_connection,
        ),
        settings.get(SinkProperty::HandshakeTimeout) == ValueModel::Number(
            settings.handshake_timeout,
        ),
        settings.get(SinkProperty::ReadTimeout) == ValueModel::Number(settings.read_timeout),
        settings.get(SinkProperty::WriteTimeout) == ValueModel::Number(settings.write_timeout),
        settings.get(SinkProperty::TlsCert) == ValueModel::Text(settings.tls_cert),
        settings.get(SinkProperty::TlsKey) == ValueModel::Text(settings.tls_key),
        settings.get(SinkProperty::TlsCaCert) == ValueModel::Text(settings.tls_ca_cert),
{
}

/// A value of another kind than the property's own is refused, a mode that is not
/// given too, and nothing else is.
pub proof fn law_values_must_be_of_their_kind(
    settings: SettingsModel,
    property: SinkProperty,
    value: ValueModel,
)
    ensures
        settings.with(property, value) is Some <==> match settings.get(property) {
            ValueModel::Text(_) => value is Text && !(property == SinkProperty::Mode && value
                == ValueModel::Text(None)),
            ValueModel::Flag(_) => value is Flag,
            ValueModel::Number(_) => value is Number,
        },
{
}

/// A sink that nobody has configured publishes, without Nagle's algorithm, gives
/// connects, handshake reads and writes ten seconds each, waits for everything
/// else without limit, and holds data back for its players.
pub proof fn law_defaults()
    ensures
        SettingsModel::defaults() == (SettingsModel {
            mode: "publish"@,
            uri: None,
            tc_url: None,
            tcp_nodelay: true,
            connect_timeout: 10_000_000_000,
            accept_timeout: 0,
            wait_for_connection: true,
            handshake_timeout: 10_000_000_000,
            read_timeout: 0,
            write_timeout: 10_000_000_000,
            tls_cert: None,
            tls_key: None,
            tls_ca_cert: None,
        }),
{
}

/// What the settings say is what they hold: each is read from its own field.
pub proof fn law_settings_show_their_fields(settings: Settings)
    ensures
        settings@.mode == settings.mode@,
        settings@.tcp_nodelay == settings.tcp_nodelay,
        settings@.connect_timeout == settings.connect_timeout,
        settings@.accept_timeout == settings.accept_timeout,
        settings@.wait_for_connection == settings.wait_for_connection,
        settings@.handshake_timeout == settings.handshake_timeout,
        settings@.read_timeout == settings.read_timeout,
        settings@.write_timeout == settings.write_timeout,
        settings@.uri == opt_text(settings.uri),
        settings@.tc_url == opt_text(settings.tc_url),
        settings@.tls_cert == opt_text(settings.tls_cert),
        settings@.tls_key == opt_text(settings.tls_key),
        settings@.tls_ca_cert == opt_text(settings.tls_ca_cert),
{
}

/// A sink publishes exactly if its mode spells `publish` and listens exactly if
/// it spells `listen`, in whatever mix of upper and lower case; any other mode is
/// an error in the settings that quotes it.
pub proof fn law_modes_are_spelled_in_any_case(mode: Seq<char>)
    ensures
        ({
            let spells = |word: Seq<char>|
                mode.len() == word.len() && forall|i: int|
                    0 <= i < word.len() ==> (#[trigger] mode[i] == word[i] || mode[i] as int
                        == word[i] as int - 32);
            let publish = spells(seq!['p', 'u', 'b', 'l', 'i', 's', 'h']);
            let listen = spells(seq!['l', 'i', 's', 't', 'e', 'n']);
            &&& publish ==> sink_mode(mode) == Ok::<SinkMode, ErrorModel>(SinkMode::Publish)
            &&& listen ==> sink_mode(mode) == Ok::<SinkMode, ErrorModel>(SinkMode::Listen)
            &&& !publish && !listen ==> sink_mode(mode) == Err::<SinkMode, ErrorModel>(
                ErrorModel {
                    kind: ErrorKind::Settings,
                    message: "Invalid rtmpxsink mode '"@ + mode + "': expected publish or listen"@,
                },
            )
        }),
{
    reveal_strlit("publish");
    reveal_strlit("listen");
    assert("publish"@ =~= seq!['p', 'u', 'b', 'l', 'i', 's', 'h']);
    assert("listen"@ =~= seq!['l', 'i', 's', 't', 'e', 'n']);
    crate::source::lemma_spelling(mode, "publish"@);
    crate::source::lemma_spelling(mode, "listen"@);
}

/// What becomes of a buffer: while the pipeline flushes it is flushed, without a
/// worker it fails, after a failure of the worker it fails with that, and if it
/// cannot be read it fails too. An empty one is done with, and so is any while a
/// sink that does not wait has no player. All others go to the worker whole.
pub proof fn law_buffers_reach_the_worker_or_say_why(
    flushing: bool,
    started: bool,
    failure: Option<String>,
    data: Option<Vec<u8>>,
    live: Option<ListenLive>,
)
    ensures
        ({
            let action = rendering(
                RenderEvent::Buffer { flushing, started, failure, data, live },
            );
            let fails = |kind: ErrorKind, message: Seq<char>|
                action == RenderModel::Fail(ErrorModel { kind, message });
            let alone = live is Some && !live->Some_0.wait_for_connection
                && !live->Some_0.player_connected;
            &&& flushing ==> action == RenderModel::Flush
            &&& !flushing && !started ==> fails(ErrorKind::Failed, "rtmpxsink is not started"@)
            &&& !flushing && started && failure is Some ==> fails(
                ErrorKind::Write,
                "RTMP publish failed: "@ + failure->Some_0@,
            )
            &&& !flushing && started && failure is None && data is None ==> fails(
                ErrorKind::Failed,
                "Failed to map FLV buffer"@,
            )
            &&& !flushing && started && failure is None && data is Some ==> action == if data->Some_0@.len()
                == 0 || alone {
                RenderModel::Accept
            } else {
                RenderModel::Queue(data->Some_0@)
            }
        }),
{
}

/// A buffer that the worker has taken is done with; one that it has no room for
/// is offered again whole, unless the pipeline flushes or the worker has failed
/// by then; and a worker that is gone fails it.
pub proof fn law_full_queues_are_tried_again(
    flushing: bool,
    failure: Option<String>,
    bytes: Vec<u8>,
)
    ensures
        rendering(RenderEvent::Queued) == RenderModel::Accept,
        rendering(RenderEvent::Gone) == RenderModel::Fail(
            ErrorModel { kind: ErrorKind::Write, message: "RTMP publish worker is gone"@ },
        ),
        rendering(RenderEvent::Full { flushing, failure, bytes }) == if flushing {
            RenderModel::Flush
        } else {
            match failure {
                Some(message) => RenderModel::Fail(
                    ErrorModel {
                        kind: ErrorKind::Write,
                        message: "RTMP publish failed: "@ + message@,
                    },
                ),
                None => RenderModel::Queue(bytes@),
            }
        },
{
}

/// What to do with a buffer is told as it is.
pub proof fn law_render_actions_show_their_fields(bytes: Vec<u8>, error: ElementError)
    ensures
        RenderAction::Queue(bytes)@ == RenderModel::Queue(bytes@),
        RenderAction::Accept@ == RenderModel::Accept,
        RenderAction::Flush@ == RenderModel::Flush,
        RenderAction::Fail(error)@ == RenderModel::Fail(
            ErrorModel { kind: error.kind, message: error.message@ },
        ),
{
}

} // verus!
