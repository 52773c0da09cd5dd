//! The source in listen mode: one publisher at a time becomes an FLV stream.

use vstd::prelude::*;
use vstd::string::*;

use crate::link::accept_tls_server;
use crate::link::duration_text;
use crate::link::read_session_chunk;
use crate::link::session_read;
use crate::link::show_duration;
use crate::link::ReadModel;
use crate::link::ReadOutcome;
use crate::link::session_outcome;
use crate::link::tls_accept_text;
use crate::link::TlsAcceptFault;
use crate::script::anyway;
use crate::script::ask;
use crate::script::data_chunks;
use crate::script::is_output;
use crate::script::lemma_data_chunks_concat;
use crate::script::nothing;
use crate::script::send;
use crate::script::started_ids;
use crate::script::write_out;
use crate::script::Call;
use crate::script::CallModel;
use crate::script::OnWrite;
use crate::script::Op;
use crate::script::OpModel;
use crate::script::Script;
use crate::script::ScriptModel;
use crate::script::Conclusion;
use crate::script::ConclusionModel;
use crate::script::PolicyModel;
use crate::session::header_ops;
use crate::session::media_script;
use crate::session::FlvTagWriter;
use crate::session::ServerResultModel;
use crate::session::ServerSessionEvent;
use crate::session::ServerSessionResult;
use crate::flv::all_media;
use crate::flv::framed;
use crate::flv::framed_all;
use crate::flv::joined;
use crate::flv::law_flv_header_is_optional;
use crate::flv::law_flv_stream_demuxes_to_its_tags;
use crate::flv::lemma_joined_concat;
use crate::flv::DemuxModel;
use crate::flv::TagModel;
use crate::flv::FLV_HEADER;
use crate::flv::FLV_TAG_AUDIO;
use crate::flv::FLV_TAG_SCRIPT_DATA;
use crate::flv::FLV_TAG_VIDEO;
use crate::text::as_opt_str;
use crate::text::join2;
use crate::text::join3;
use crate::text::join4;
use crate::text::opt_text;
use crate::text::same_text;
use crate::worker::disconnected;
use crate::worker::failed;
use crate::worker::limit_of;
use crate::worker::nanoseconds_timeout;
use crate::worker::publish_end;
use crate::worker::FailureModel;
use crate::worker::OutputModel;
use crate::worker::PublishIds;
use crate::worker::SessionFailure;
use crate::worker::WorkerOutput;
use crate::worker::nanos_duration;

verus! {

/// Whether a filter lets a name through. No filter lets every name through.
pub open spec fn admits(filter: Option<Seq<char>>, name: Seq<char>) -> bool {
    match filter {
        Some(expected) => expected == name,
        None => true,
    }
}

/// Whether a filter lets a name through.
pub fn filter_admits(filter: &Option<String>, name: &str) -> (admitted: bool)
    ensures
        admitted == admits(opt_text(*filter), name@),
{
    match as_opt_str(filter) {
        Some(expected) => same_text(expected, name),
        None => true,
    }
}

/// The state of one publisher's session.
#[derive(Debug)]
pub struct PublishSession {
    writer: FlvTagWriter,
    application: Option<String>,
    stream_key: Option<String>,
    keep_listening: bool,
    ids: PublishIds,
}

/// The state of one publisher's session, as plain mathematics.
#[verifier::ext_equal]
pub struct PublishModel {
    /// Whether the FLV header is out.
    pub header_sent: bool,
    /// The only application that may publish; `None` for any.
    pub application: Option<Seq<char>>,
    /// The only stream key that may be published; `None` for any.
    pub stream_key: Option<Seq<char>>,
    /// Whether the listener goes on after this publisher.
    pub keep_listening: bool,
    pub ids: PublishIds,
}

impl View for PublishSession {
    type V = PublishModel;

    closed spec fn view(&self) -> PublishModel {
        PublishModel {
            header_sent: self.writer@,
            application: opt_text(self.application),
            stream_key: opt_text(self.stream_key),
            keep_listening: self.keep_listening,
            ids: self.ids,
        }
    }
}

/// A rejection of a publish request.
pub open spec fn deny_publish(request_id: u32) -> OpModel {
    ask(
        CallModel::Reject {
            request_id,
            code: "NetStream.Publish.Denied"@,
            description: "publish denied: application or stream key mismatch"@,
        },
        "failed to reject RTMP publish"@,
        OnWrite::Ignore,
    )
}

/// A rejection of a play request.
pub open spec fn deny_play(request_id: u32) -> OpModel {
    ask(
        CallModel::Reject {
            request_id,
            code: "NetStream.Play.Failed"@,
            description: "this endpoint only accepts publishers"@,
        },
        "failed to reject RTMP play"@,
        OnWrite::Fail,
    )
}

impl PublishModel {
    /// Whether the filters let a publisher in.
    pub open spec fn allows(self, app_name: Seq<char>, stream_name: Seq<char>) -> bool {
        admits(self.application, app_name) && admits(self.stream_key, stream_name)
    }

    /// A publish request that the filters let through starts a publish: its
    /// start is announced, the FLV header goes out, and the request is
    /// accepted. Any other request is denied and ends the session.
    pub open spec fn after_publish_request(
        self,
        request_id: u32,
        app_name: Seq<char>,
        stream_name: Seq<char>,
    ) -> (PublishModel, ScriptModel) {
        if self.allows(app_name, stream_name) {
            (
                PublishModel { header_sent: true, ids: self.ids.started(), ..self },
                ScriptModel {
                    ops: seq![send(OutputModel::PublishStarted { connection_id: self.ids.next })]
                        + header_ops(self.header_sent) + seq![
                        ask(
                            CallModel::AcceptPublish { request_id },
                            "failed to accept RTMP publish"@,
                            OnWrite::FailAsError,
                        ),
                    ],
                    conclusion: ConclusionModel::Continue,
                },
            )
        } else if self.keep_listening {
            (
                self,
                ScriptModel {
                    ops: seq![anyway(CallModel::MarkRejected), deny_publish(request_id)],
                    conclusion: ConclusionModel::Failed(failed("publisher rejected"@)),
                },
            )
        } else {
            (
                self,
                ScriptModel {
                    ops: seq![deny_publish(request_id)],
                    conclusion: ConclusionModel::Failed(
                        failed(
                            "RTMP publisher did not match the configured application and stream key"@,
                        ),
                    ),
                },
            )
        }
    }

    /// A play request is rejected and ends the session; the listener only
    /// accepts publishers.
    pub open spec fn after_play_request(self, request_id: u32) -> ScriptModel {
        if self.keep_listening {
            ScriptModel {
                ops: seq![deny_play(request_id), anyway(CallModel::MarkRejected)],
                conclusion: ConclusionModel::Failed(disconnected("RTMP play request rejected"@)),
            }
        } else {
            ScriptModel {
                ops: seq![deny_play(request_id)],
                conclusion: ConclusionModel::Failed(failed("RTMP play requests are not supported"@)),
            }
        }
    }

    /// What one session result leads to.
    pub open spec fn after_result(self, result: ServerResultModel) -> (PublishModel, ScriptModel) {
        match result {
            ServerResultModel::Outbound(packet) => (
                self,
                ScriptModel { ops: seq![write_out(packet)], conclusion: ConclusionModel::Continue },
            ),
            ServerResultModel::ConnectionRequested { request_id, app_name } => (
                self,
                ScriptModel {
                    ops: seq![
                        ask(
                            CallModel::AcceptConnection { request_id },
                            "failed to accept RTMP connection"@,
                            OnWrite::Fail,
                        ),
                    ],
                    conclusion: ConclusionModel::Continue,
                },
            ),
            ServerResultModel::PublishRequested { request_id, app_name, stream_key, stream_id } =>
                self.after_publish_request(request_id, app_name, stream_key),
            ServerResultModel::Media(tag) => (
                PublishModel { header_sent: true, ..self },
                media_script(self.header_sent, tag),
            ),
            ServerResultModel::PublishFinished { stream_key } => (
                self,
                ScriptModel { ops: Seq::empty(), conclusion: ConclusionModel::Finished },
            ),
            ServerResultModel::PlayRequested { request_id, app_name, stream_key, stream_id } => (
                self,
                self.after_play_request(request_id),
            ),
            ServerResultModel::PlayFinished { stream_key } => (self, nothing()),
            ServerResultModel::Ignored => (self, nothing()),
        }
    }
}

impl PublishSession {
    /// A session before its first result.
    pub fn new(
        application: Option<String>,
        stream_key: Option<String>,
        keep_listening: bool,
        ids: PublishIds,
    ) -> (session: PublishSession)
        ensures
            session@ == (PublishModel {
                header_sent: false,
                application: opt_text(application),
                stream_key: opt_text(stream_key),
                keep_listening,
                ids,
            }),
    {
        PublishSession {
            writer: FlvTagWriter::new(),
            application,
            stream_key,
            keep_listening,
            ids,
        }
    }

    /// The ids so far.
    pub fn ids(&self) -> (ids: PublishIds)
        ensures
            ids == self@.ids,
    {
        self.ids
    }

    /// Checks a publish request against the configured application and stream
    /// key.
    pub fn check_publish(&mut self, request_id: u32, app_name: &str, stream_name: &str) -> (script:
        Script)
        ensures
            (final(self)@, script@) == old(self)@.after_publish_request(
                request_id,
                app_name@,
                stream_name@,
            ),
    {
        let app_matches: bool = filter_admits(&self.application, app_name);
        let key_matches: bool = filter_admits(&self.stream_key, stream_name);
        let ghost wanted = self@.after_publish_request(request_id, app_name@, stream_name@);
        let mut script: Script = Script::ending(Conclusion::Continue);
        if app_matches && key_matches {
            let connection_id: u64 = self.ids.start();
            script.push(Op::send(WorkerOutput::PublishStarted { connection_id }));
            self.writer.ensure_header(&mut script);
            script.push(
                Op::ask(
                    Call::AcceptPublish { request_id },
                    "failed to accept RTMP publish",
                    OnWrite::FailAsError,
                ),
            );
            assert(script@ =~= wanted.1);
            return script;
        }
        if self.keep_listening {
            script.push(Op::anyway(Call::MarkRejected));
        }
        script.push(
            Op::ask(
                Call::Reject {
                    request_id,
                    code: "NetStream.Publish.Denied".to_owned(),
                    description: "publish denied: application or stream key mismatch".to_owned(),
                },
                "failed to reject RTMP publish",
                OnWrite::Ignore,
            ),
        );
        let message: &str = if self.keep_listening {
            "publisher rejected"
        } else {
            "RTMP publisher did not match the configured application and stream key"
        };
        script.conclusion = Conclusion::Failed(SessionFailure::error(message.to_owned()));
        assert(script@ =~= wanted.1);
        script
    }

    fn refuse_play(&self, request_id: u32) -> (script: Script)
        ensures
            script@ == self@.after_play_request(request_id),
    {
        let mut script: Script = Script::one(
            Op::ask(
                Call::Reject {
                    request_id,
                    code: "NetStream.Play.Failed".to_owned(),
                    description: "this endpoint only accepts publishers".to_owned(),
                },
                "failed to reject RTMP play",
                OnWrite::Fail,
            ),
        );
        if self.keep_listening {
            script.push(Op::anyway(Call::MarkRejected));
            script.conclusion = Conclusion::Failed(
                SessionFailure::disconnect("RTMP play request rejected".to_owned()),
            );
        } else {
            script.conclusion = Conclusion::Failed(
                SessionFailure::error("RTMP play requests are not supported".to_owned()),
            );
        }
        assert(script@ =~= self@.after_play_request(request_id));
        script
    }

    /// Reacts to one result of the protocol session: outbound packets are
    /// written, requests answered, media framed.
    pub fn process_session_result(&mut self, result: ServerSessionResult) -> (script: Script)
        ensures
            (final(self)@, script@) == old(self)@.after_result(result@),
    {
        let event: ServerSessionEvent = match result {
            ServerSessionResult::OutboundResponse(packet) => {
                return Script::one(Op::write(packet));
            },
            ServerSessionResult::RaisedEvent(event) => event,
            ServerSessionResult::UnhandleableMessageReceived => {
                return Script::ending(Conclusion::Continue);
            },
        };
        match event {
            ServerSessionEvent::ConnectionRequested { request_id, .. } => Script::one(
                Op::ask(
                    Call::AcceptConnection { request_id },
                    "failed to accept RTMP connection",
                    OnWrite::Fail,
                ),
            ),
            ServerSessionEvent::PublishStreamRequested {
                request_id,
                app_name,
                stream_key,
                ..
            } => self.check_publish(request_id, app_name.as_str(), stream_key.as_str()),
            ServerSessionEvent::AudioDataReceived { timestamp, data } => self.writer.push_media(
                FLV_TAG_AUDIO,
                timestamp,
                data.as_slice(),
            ),
            ServerSessionEvent::VideoDataReceived { timestamp, data } => self.writer.push_media(
                FLV_TAG_VIDEO,
                timestamp,
                data.as_slice(),
            ),
            ServerSessionEvent::StreamMetadataChanged {
                timestamp,
                payload,
            } => self.writer.push_media(FLV_TAG_SCRIPT_DATA, timestamp, payload.as_slice()),
            ServerSessionEvent::StreamDataReceived { timestamp, payload } => self.writer.push_media(
                FLV_TAG_SCRIPT_DATA,
                timestamp,
                payload.as_slice(),
            ),
            ServerSessionEvent::PublishStreamFinished { .. } => Script::ending(Conclusion::Finished),
            ServerSessionEvent::PlayStreamRequested { request_id, .. } => self.refuse_play(
                request_id,
            ),
            ServerSessionEvent::PlayStreamFinished { .. } => Script::ending(Conclusion::Continue),
            ServerSessionEvent::Other => Script::ending(Conclusion::Continue),
        }
    }
}

/// What has just happened on a publisher's connection.
#[derive(Debug)]
pub enum ServeEvent {
    /// The handshake ended.
    HandshakeOver(Result<Vec<u8>, SessionFailure>),
    /// There is a protocol session.
    SessionReady,
    /// There is no protocol session, and why.
    SessionRefused(String),
    /// The session took its input.
    Fed,
    /// The session refused its input, and why.
    FeedRefused(String),
    /// The session's next result.
    Result(ServerSessionResult),
    /// The session has no further result.
    NoMoreResults,
    /// A script is over.
    ScriptOver(Conclusion),
    /// A read ended. `cancelled` tells whether the worker was asked to stop,
    /// and `graceful` how many nanoseconds the publisher then gets to close.
    Read { outcome: ReadOutcome, cancelled: bool, graceful: u64 },
}

/// What has just happened, as plain mathematics.
#[verifier::ext_equal]
pub enum ServeEventModel {
    HandshakeOver(Result<Seq<u8>, FailureModel>),
    SessionReady,
    SessionRefused(Seq<char>),
    Fed,
    FeedRefused(Seq<char>),
    Result(ServerResultModel),
    NoMoreResults,
    ScriptOver(ConclusionModel),
    Read { outcome: ReadModel, cancelled: bool, graceful: u64 },
}

impl View for ServeEvent {
    type V = ServeEventModel;

    open spec fn view(&self) -> ServeEventModel {
        match self {
            ServeEvent::HandshakeOver(result) => ServeEventModel::HandshakeOver(
                session_outcome(*result),
            ),
            ServeEvent::SessionReady => ServeEventModel::SessionReady,
            ServeEvent::SessionRefused(reason) => ServeEventModel::SessionRefused(reason@),
            ServeEvent::Fed => ServeEventModel::Fed,
            ServeEvent::FeedRefused(reason) => ServeEventModel::FeedRefused(reason@),
            ServeEvent::Result(result) => ServeEventModel::Result(result@),
            ServeEvent::NoMoreResults => ServeEventModel::NoMoreResults,
            ServeEvent::ScriptOver(conclusion) => ServeEventModel::ScriptOver(conclusion@),
            ServeEvent::Read { outcome, cancelled, graceful } => ServeEventModel::Read {
                outcome: outcome@,
                cancelled: *cancelled,
                graceful: *graceful,
            },
        }
    }
}

/// What to do next on a connection.
#[derive(Debug)]
pub enum ServeAction {
    /// Make a protocol session.
    CreateSession,
    /// Feed these bytes to the session.
    Feed(Vec<u8>),
    /// Take the session's next result.
    NextResult,
    /// Run this script.
    Run(Script),
    /// Read from the socket.
    Read,
    /// The connection is over: `Ok(true)` after a clean end, `Ok(false)` when
    /// the socket closed without one.
    Return(Result<bool, SessionFailure>),
}

/// What to do next, as plain mathematics.
#[verifier::ext_equal]
pub enum ServeActionModel {
    CreateSession,
    Feed(Seq<u8>),
    NextResult,
    Run(ScriptModel),
    Read,
    Return(Result<bool, FailureModel>),
}

impl View for ServeAction {
    type V = ServeActionModel;

    open spec fn view(&self) -> ServeActionModel {
        match self {
            ServeAction::CreateSession => ServeActionModel::CreateSession,
            ServeAction::Feed(bytes) => ServeActionModel::Feed(bytes@),
            ServeAction::NextResult => ServeActionModel::NextResult,
            ServeAction::Run(script) => ServeActionModel::Run(script@),
            ServeAction::Read => ServeActionModel::Read,
            ServeAction::Return(result) => ServeActionModel::Return(
                match result {
                    Ok(clean) => Ok(*clean),
                    Err(failure) => Err(failure@),
                },
            ),
        }
    }
}

/// One publisher's connection.
#[derive(Debug)]
pub struct PublisherConnection {
    session: PublishSession,
    carry: Vec<u8>,
}

/// One publisher's connection, as plain mathematics.
#[verifier::ext_equal]
pub struct PublisherModel {
    pub session: PublishModel,
    /// Bytes that came behind the handshake and wait for the session.
    pub carry: Seq<u8>,
}

impl View for PublisherConnection {
    type V = PublisherModel;

    closed spec fn view(&self) -> PublisherModel {
        PublisherModel { session: self.session@, carry: self.carry@ }
    }
}

/// What a read on a publisher's connection leads to: more input, a connection
/// that closed, or a failure. When the worker stops gracefully, the publisher
/// first gets time to close.
pub open spec fn after_publisher_read(outcome: ReadModel, cancelled: bool, graceful: u64) ->
    ServeActionModel {
    match session_read(outcome) {
        Ok(bytes) => if bytes.len() == 0 {
            ServeActionModel::Return(Ok(false))
        } else {
            ServeActionModel::Feed(bytes)
        },
        Err(failure) => if cancelled && graceful > 0 {
            ServeActionModel::Run(
                ScriptModel {
                    ops: seq![
                        anyway(CallModel::ShutDown),
                        anyway(CallModel::AwaitClose { nanoseconds: graceful }),
                    ],
                    conclusion: ConclusionModel::Failed(failure),
                },
            )
        } else {
            ServeActionModel::Return(Err(failure))
        },
    }
}

/// What the end of a script leads to on a connection.
pub open spec fn after_script(conclusion: ConclusionModel) -> ServeActionModel {
    match conclusion {
        ConclusionModel::Finished => ServeActionModel::Return(Ok(true)),
        ConclusionModel::Failed(failure) => ServeActionModel::Return(Err(failure)),
        _ => ServeActionModel::NextResult,
    }
}

impl PublisherModel {
    /// The next state and action after an event.
    pub open spec fn step(self, event: ServeEventModel) -> (PublisherModel, ServeActionModel) {
        match event {
            ServeEventModel::HandshakeOver(Ok(carry)) => (
                PublisherModel { carry, ..self },
                ServeActionModel::CreateSession,
            ),
            ServeEventModel::HandshakeOver(Err(failure)) => (
                self,
                ServeActionModel::Return(Err(failure)),
            ),
            ServeEventModel::SessionReady => if self.carry.len() > 0 {
                (
                    PublisherModel { carry: Seq::empty(), ..self },
                    ServeActionModel::Feed(self.carry),
                )
            } else {
                (self, ServeActionModel::Read)
            },
            ServeEventModel::SessionRefused(reason) => (
                self,
                ServeActionModel::Return(Err(failed("failed to create RTMP session: "@ + reason))),
            ),
            ServeEventModel::Fed => (self, ServeActionModel::NextResult),
            ServeEventModel::FeedRefused(reason) => (
                self,
                ServeActionModel::Return(
                    Err(failed("publisher sent unreadable RTMP: "@ + reason)),
                ),
            ),
            ServeEventModel::Result(result) => {
                let (session, script) = self.session.after_result(result);
                (PublisherModel { session, ..self }, ServeActionModel::Run(script))
            },
            ServeEventModel::NoMoreResults => (self, ServeActionModel::Read),
            ServeEventModel::ScriptOver(conclusion) => (self, after_script(conclusion)),
            ServeEventModel::Read { outcome, cancelled, graceful } => (
                self,
                after_publisher_read(outcome, cancelled, graceful),
            ),
        }
    }
}

impl PublisherConnection {
    /// A connection before its handshake.
    pub fn new(session: PublishSession) -> (connection: PublisherConnection)
        ensures
            connection@ == (PublisherModel { session: session@, carry: Seq::empty() }),
    {
        let connection = PublisherConnection { session, carry: Vec::new() };
        assert(connection@.carry =~= Seq::<u8>::empty());
        connection
    }

    /// The ids so far.
    pub fn ids(&self) -> (ids: PublishIds)
        ensures
            ids == self@.session.ids,
    {
        self.session.ids()
    }

    /// Drives one accepted publisher: takes in what happened and says what to
    /// do next.
    ///
    /// Returns `Ok(true)` on clean unpublish, `Ok(false)` when the socket
    /// closes without unpublishing, and `Err` on protocol or socket failure. A
    /// publisher that the filters turn away is marked rejected on the way, so
    /// that the worker keeps listening instead of failing.
    pub fn serve_publisher(&mut self, event: ServeEvent) -> (action: ServeAction)
        ensures
            (final(self)@, action@) == old(self)@.step(event@),
    {
        match event {
            ServeEvent::HandshakeOver(Ok(carry)) => {
                self.carry = carry;
                ServeAction::CreateSession
            },
            ServeEvent::HandshakeOver(Err(failure)) => ServeAction::Return(Err(failure)),
            ServeEvent::SessionReady => {
                if self.carry.len() > 0 {
                    let carry: Vec<u8> = vstd::slice::slice_to_vec(self.carry.as_slice());
                    self.carry = Vec::new();
                    assert(self@.carry =~= Seq::<u8>::empty());
                    ServeAction::Feed(carry)
                } else {
                    ServeAction::Read
                }
            },
            ServeEvent::SessionRefused(reason) => ServeAction::Return(
                Err(
                    SessionFailure::error(
                        join2("failed to create RTMP session: ", reason.as_str()),
                    ),
                ),
            ),
            ServeEvent::Fed => ServeAction::NextResult,
            ServeEvent::FeedRefused(reason) => ServeAction::Return(
                Err(
                    SessionFailure::error(
                        join2("publisher sent unreadable RTMP: ", reason.as_str()),
                    ),
                ),
            ),
            ServeEvent::Result(result) => ServeAction::Run(
                self.session.process_session_result(result),
            ),
            ServeEvent::NoMoreResults => ServeAction::Read,
            ServeEvent::ScriptOver(conclusion) => match conclusion {
                Conclusion::Finished => ServeAction::Return(Ok(true)),
                Conclusion::Failed(failure) => ServeAction::Return(Err(failure)),
                _ => ServeAction::NextResult,
            },
            ServeEvent::Read { outcome, cancelled, graceful } => {
                match read_session_chunk(outcome) {
                    Ok(bytes) => {
                        if bytes.len() == 0 {
                            ServeAction::Return(Ok(false))
                        } else {
                            ServeAction::Feed(bytes)
                        }
                    },
                    Err(failure) => {
                        if cancelled && graceful > 0 {
                            let mut script: Script = Script::ending(Conclusion::Failed(failure));
                            script.push(Op::anyway(Call::ShutDown));
                            script.push(Op::anyway(Call::AwaitClose { nanoseconds: graceful }));
                            assert(script@.ops =~= seq![
                                anyway(CallModel::ShutDown),
                                anyway(CallModel::AwaitClose { nanoseconds: graceful }),
                            ]);
                            ServeAction::Run(script)
                        } else {
                            ServeAction::Return(Err(failure))
                        }
                    },
                }
            },
        }
    }
}

/// The announced end of a publish; nothing if none was live.
pub open spec fn end_ops(connection_id: u64, reason: Seq<char>) -> Seq<OpModel> {
    if connection_id != 0 {
        seq![send(OutputModel::PublishEnded { connection_id, reason })]
    } else {
        Seq::empty()
    }
}

/// The end of the stream, unless the worker goes on.
pub open spec fn eos_unless(goes_on: bool, ops: Seq<OpModel>) -> ScriptModel {
    if goes_on {
        ScriptModel { ops, conclusion: ConclusionModel::Continue }
    } else {
        ScriptModel {
            ops: ops.push(anyway(CallModel::Offer(OutputModel::Eos))),
            conclusion: ConclusionModel::Finished,
        }
    }
}

/// What the end of one connection leads to, with the texts for a connection
/// that closed and for one that failed. `goes_on` tells whether the worker
/// tries again after a peer that is gone.
pub open spec fn after_connection(
    goes_on: bool,
    connection_id: u64,
    result: Result<bool, FailureModel>,
    closed: Seq<char>,
    broken: Seq<char>,
) -> ScriptModel {
    match result {
        Ok(clean) => if clean {
            eos_unless(goes_on, end_ops(connection_id, "unpublished"@))
        } else {
            eos_unless(
                goes_on,
                end_ops(connection_id, "disconnect"@).push(send(OutputModel::Warning(closed))),
            )
        },
        Err(failure) => {
            let reason = if failure.client_disconnect {
                "disconnect"@
            } else {
                "error"@
            };
            if goes_on && failure.client_disconnect {
                ScriptModel {
                    ops: end_ops(connection_id, reason),
                    conclusion: ConclusionModel::Continue,
                }
            } else {
                ScriptModel {
                    ops: end_ops(connection_id, reason).push(
                        anyway(CallModel::Offer(OutputModel::Error(broken + failure.message))),
                    ),
                    conclusion: ConclusionModel::Finished,
                }
            }
        },
    }
}

/// What the end of one connection leads to.
pub fn wind_up(
    goes_on: bool,
    connection_id: u64,
    result: Result<bool, SessionFailure>,
    closed: &str,
    broken: &str,
) -> (script: Script)
    ensures
        script@ == after_connection(
            goes_on,
            connection_id,
            match result {
                Ok(clean) => Ok(clean),
                Err(failure) => Err(failure@),
            },
            closed@,
            broken@,
        ),
{
    let mut script: Script = Script::ending(Conclusion::Continue);
    let reason: &str = match &result {
        Ok(clean) => {
            if *clean {
                "unpublished"
            } else {
                "disconnect"
            }
        },
        Err(failure) => {
            if failure.client_disconnect {
                "disconnect"
            } else {
                "error"
            }
        },
    };
    if connection_id != 0 {
        script.push(Op::send(publish_end(connection_id, reason)));
    }
    assert(script@.ops =~= end_ops(connection_id, reason@));
    match result {
        Ok(clean) => {
            if !clean {
                script.push(Op::send(WorkerOutput::Warning(closed.to_owned())));
            }
            if !goes_on {
                script.push(Op::anyway(Call::Offer(WorkerOutput::Eos)));
                script.conclusion = Conclusion::Finished;
            }
        },
        Err(failure) => {
            if !(goes_on && failure.client_disconnect) {
                script.push(
                    Op::anyway(
                        Call::Offer(WorkerOutput::Error(join2(broken, failure.message.as_str()))),
                    ),
                );
                script.conclusion = Conclusion::Finished;
            }
        },
    }
    script
}

/// What has just happened to a listening worker.
#[derive(Debug)]
pub enum WorkerEvent {
    /// There is no runtime, and why.
    RuntimeFailed(String),
    /// The bound socket could not be taken over, and why.
    ListenerFailed(String),
    /// The socket is ready.
    Ready,
    /// The element heard that the worker is ready, or does not listen.
    Reported { heard: bool },
    /// The worker was asked to stop.
    Cancelled,
    /// A publisher connected.
    Accepted,
    /// No publisher connected in time.
    AcceptTimedOut,
    /// Accepting failed, and why.
    AcceptFailed(String),
    /// The connection is configured.
    Configured,
    /// It could not be configured, and why.
    ConfigureFailed(String),
    /// The TLS handshake is done.
    Secured,
    /// The TLS handshake failed.
    SecureFailed { peer: String, fault: TlsAcceptFault },
    /// A connection is over.
    Served { result: Result<bool, SessionFailure>, rejected: bool, ids: PublishIds },
    /// A script is over.
    ScriptOver(Conclusion),
}

/// What a listening worker does next.
#[derive(Debug)]
pub enum WorkerAction {
    /// Tell the element that the worker did not start, and why; then stop.
    ReportFailure(String),
    /// Tell the element that the worker is ready.
    ReportReady,
    /// Wait for a publisher, for this long at most.
    Accept { limit: Option<std::time::Duration> },
    /// Configure the connection.
    Configure,
    /// Run the TLS handshake, for this long at most.
    Secure { limit: Option<std::time::Duration> },
    /// Serve the publisher.
    Serve { ids: PublishIds },
    /// Run this script.
    Run(Script),
    /// Stop.
    Stop,
}

/// What a listening worker does next, as plain mathematics.
#[verifier::ext_equal]
pub enum WorkerActionModel {
    ReportFailure(Seq<char>),
    ReportReady,
    Accept { limit: Option<std::time::Duration> },
    Configure,
    Secure { limit: Option<std::time::Duration> },
    Serve { ids: PublishIds },
    Run(ScriptModel),
    Stop,
}

impl View for WorkerAction {
    type V = WorkerActionModel;

    open spec fn view(&self) -> WorkerActionModel {
        match self {
            WorkerAction::ReportFailure(text) => WorkerActionModel::ReportFailure(text@),
            WorkerAction::ReportReady => WorkerActionModel::ReportReady,
            WorkerAction::Accept { limit } => WorkerActionModel::Accept { limit: *limit },
            WorkerAction::Configure => WorkerActionModel::Configure,
            WorkerAction::Secure { limit } => WorkerActionModel::Secure { limit: *limit },
            WorkerAction::Serve { ids } => WorkerActionModel::Serve { ids: *ids },
            WorkerAction::Run(script) => WorkerActionModel::Run(script@),
            WorkerAction::Stop => WorkerActionModel::Stop,
        }
    }
}

/// A worker that listens for publishers.
#[derive(Debug, Clone, Copy, PartialEq, Eq, Structural)]
pub struct ListenWorker {
    pub keep_listening: bool,
    /// Whether connections are secured by TLS.
    pub tls: bool,
    /// Nanoseconds to wait for a publisher; 0 for no limit.
    pub accept_timeout: u64,
    /// Nanoseconds for a handshake read; 0 for no limit.
    pub handshake_timeout: u64,
    /// The ids of the next connection.
    pub ids: PublishIds,
}

/// A last message to the element.
pub open spec fn last_words(output: OutputModel, conclusion: ConclusionModel) -> ScriptModel {
    ScriptModel { ops: seq![anyway(CallModel::Offer(output))], conclusion }
}

/// What the end of one publisher leads to: nothing if it was rejected and the
/// listener goes on.
pub open spec fn after_publisher(
    keep_listening: bool,
    rejected: bool,
    connection_id: u64,
    result: Result<bool, FailureModel>,
) -> ScriptModel {
    if keep_listening && rejected {
        nothing()
    } else {
        after_connection(
            keep_listening,
            connection_id,
            result,
            "RTMP publisher disconnected without unpublishing"@,
            "RTMP session failed: "@,
        )
    }
}

impl ListenWorker {
    /// A worker before its first connection.
    pub fn new(keep_listening: bool, tls: bool, accept_timeout: u64, handshake_timeout: u64) -> (
    worker: ListenWorker)
        ensures
            worker == (ListenWorker {
                keep_listening,
                tls,
                accept_timeout,
                handshake_timeout,
                ids: PublishIds { next: 1, current: 0 },
            }),
    {
        ListenWorker {
            keep_listening,
            tls,
            accept_timeout,
            handshake_timeout,
            ids: PublishIds::first(),
        }
    }

    /// The next state and action after an event.
    pub open spec fn stepped(self, event: WorkerEvent) -> (ListenWorker, WorkerActionModel) {
        match event {
            WorkerEvent::RuntimeFailed(reason) => (
                self,
                WorkerActionModel::ReportFailure("Failed to create Tokio runtime: "@ + reason@),
            ),
            WorkerEvent::ListenerFailed(reason) => (
                self,
                WorkerActionModel::ReportFailure(
                    "Failed to initialize Tokio RTMP listener: "@ + reason@,
                ),
            ),
            WorkerEvent::Ready => (self, WorkerActionModel::ReportReady),
            WorkerEvent::Reported { heard } => (
                self,
                if heard {
                    WorkerActionModel::Accept { limit: limit_of(self.accept_timeout) }
                } else {
                    WorkerActionModel::Stop
                },
            ),
            WorkerEvent::Cancelled => (self, WorkerActionModel::Stop),
            WorkerEvent::Accepted => (self, WorkerActionModel::Configure),
            WorkerEvent::AcceptTimedOut => (
                self,
                WorkerActionModel::Run(
                    last_words(
                        OutputModel::Error(
                            "Failed to accept RTMP publisher: Timed out waiting "@ + duration_text(
                                self.accept_timeout,
                            ) + " for an RTMP publisher"@,
                        ),
                        ConclusionModel::Finished,
                    ),
                ),
            ),
            WorkerEvent::AcceptFailed(reason) => (
                self,
                WorkerActionModel::Run(
                    last_words(
                        OutputModel::Error("Failed to accept RTMP publisher: "@ + reason@),
                        ConclusionModel::Finished,
                    ),
                ),
            ),
            WorkerEvent::Configured => (
                self,
                if self.tls {
                    WorkerActionModel::Secure { limit: limit_of(self.handshake_timeout) }
                } else {
                    WorkerActionModel::Serve { ids: self.ids }
                },
            ),
            WorkerEvent::ConfigureFailed(reason) => (
                self,
                WorkerActionModel::Run(
                    last_words(
                        OutputModel::Error("Failed to configure TCP_NODELAY: "@ + reason@),
                        ConclusionModel::Finished,
                    ),
                ),
            ),
            WorkerEvent::Secured => (self, WorkerActionModel::Serve { ids: self.ids }),
            WorkerEvent::SecureFailed { peer, fault } => (
                self,
                WorkerActionModel::Run(
                    last_words(
                        OutputModel::Warning(
                            "RTMPS publisher "@ + peer@ + ": "@ + tls_accept_text(fault),
                        ),
                        ConclusionModel::Continue,
                    ),
                ),
            ),
            WorkerEvent::Served { result, rejected, ids } => (
                ListenWorker { ids: PublishIds { next: ids.next, current: 0 }, ..self },
                WorkerActionModel::Run(
                    after_publisher(
                        self.keep_listening,
                        rejected,
                        ids.current,
                        match result {
                            Ok(clean) => Ok(clean),
                            Err(failure) => Err(failure@),
                        },
                    ),
                ),
            ),
            WorkerEvent::ScriptOver(conclusion) => (
                self,
                match conclusion {
                    Conclusion::Continue => WorkerActionModel::Accept {
                        limit: limit_of(self.accept_timeout),
                    },
                    _ => WorkerActionModel::Stop,
                },
            ),
        }
    }

    /// Takes in what happened and says what to do next. Publishers are served
    /// one at a time.
    pub fn run_worker(&mut self, event: WorkerEvent) -> (action: WorkerAction)
        ensures
            (*final(self), action@) == old(self).stepped(event),
    {
        match event {
            WorkerEvent::RuntimeFailed(reason) => WorkerAction::ReportFailure(
                join2("Failed to create Tokio runtime: ", reason.as_str()),
            ),
            WorkerEvent::ListenerFailed(reason) => WorkerAction::ReportFailure(
                join2("Failed to initialize Tokio RTMP listener: ", reason.as_str()),
            ),
            WorkerEvent::Ready => WorkerAction::ReportReady,
            WorkerEvent::Reported { heard } => {
                if heard {
                    WorkerAction::Accept { limit: nanoseconds_timeout(self.accept_timeout) }
                } else {
                    WorkerAction::Stop
                }
            },
            WorkerEvent::Cancelled => WorkerAction::Stop,
            WorkerEvent::Accepted => WorkerAction::Configure,
            WorkerEvent::AcceptTimedOut => {
                let limit: String = show_duration(self.accept_timeout);
                let text: String = join3(
                    "Failed to accept RTMP publisher: Timed out waiting ",
                    limit.as_str(),
                    " for an RTMP publisher",
                );
                WorkerAction::Run(say_last(WorkerOutput::Error(text), Conclusion::Finished))
            },
            WorkerEvent::AcceptFailed(reason) => {
                let text: String = join2("Failed to accept RTMP publisher: ", reason.as_str());
                WorkerAction::Run(say_last(WorkerOutput::Error(text), Conclusion::Finished))
            },
            WorkerEvent::Configured => {
                if self.tls {
                    WorkerAction::Secure { limit: nanoseconds_timeout(self.handshake_timeout) }
                } else {
                    WorkerAction::Serve { ids: self.ids }
                }
            },
            WorkerEvent::ConfigureFailed(reason) => {
                let text: String = join2("Failed to configure TCP_NODELAY: ", reason.as_str());
                WorkerAction::Run(say_last(WorkerOutput::Error(text), Conclusion::Finished))
            },
            WorkerEvent::Secured => WorkerAction::Serve { ids: self.ids },
            WorkerEvent::SecureFailed { peer, fault } => {
                let reason: String = accept_tls_server(&fault);
                let text: String = join4("RTMPS publisher ", peer.as_str(), ": ", reason.as_str());
                WorkerAction::Run(say_last(WorkerOutput::Warning(text), Conclusion::Continue))
            },
            WorkerEvent::Served { result, rejected, ids } => {
                self.ids = ids.following();
                if self.keep_listening && rejected {
                    return WorkerAction::Run(Script::ending(Conclusion::Continue));
                }
                WorkerAction::Run(
                    wind_up(
                        self.keep_listening,
                        ids.current,
                        result,
                        "RTMP publisher disconnected without unpublishing",
                        "RTMP session failed: ",
                    ),
                )
            },
            WorkerEvent::ScriptOver(conclusion) => match conclusion {
                Conclusion::Continue => WorkerAction::Accept {
                    limit: nanoseconds_timeout(self.accept_timeout),
                },
                _ => WorkerAction::Stop,
            },
        }
    }
}

/// A last message to the element.
pub fn say_last(output: WorkerOutput, conclusion: Conclusion) -> (script: Script)
    ensures
        script@ == last_words(output@, conclusion@),
{
    let mut script: Script = Script::ending(conclusion);
    script.push(Op::anyway(Call::Offer(output)));
    assert(script@.ops =~= seq![anyway(CallModel::Offer(output@))]);
    script
}

/// The media among the results of a session, in order.
pub open spec fn media_of(results: Seq<ServerResultModel>) -> Seq<TagModel>
    decreases results.len(),
{
    if results.len() == 0 {
        Seq::empty()
    } else {
        let later = media_of(results.drop_first());
        match results[0] {
            ServerResultModel::Media(tag) => seq![tag] + later,
            _ => later,
        }
    }
}

impl PublishModel {
    /// Whether the session goes on after a result.
    pub open spec fn continues(self, result: ServerResultModel) -> bool {
        self.after_result(result).1.conclusion == ConclusionModel::Continue
    }

    /// The state and all calls after several results, each of which the
    /// session outlives.
    pub open spec fn after_results(self, results: Seq<ServerResultModel>) -> (
        PublishModel,
        Seq<OpModel>,
    )
        decreases results.len(),
    {
        if results.len() == 0 {
            (self, Seq::empty())
        } else {
            let (next, script) = self.after_result(results[0]);
            let (last, ops) = next.after_results(results.drop_first());
            (last, script.ops + ops)
        }
    }
}

proof fn lemma_results_keep_settings(session: PublishModel, results: Seq<ServerResultModel>)
    requires
        results.len() > 0,
        forall|i: int| 0 <= i < results.len() ==> session.continues(#[trigger] results[i]),
    ensures
        ({
            let next = session.after_result(results[0]).0;
            let later = results.drop_first();
            forall|i: int| 0 <= i < later.len() ==> next.continues(#[trigger] later[i])
        }),
{
    let next = session.after_result(results[0]).0;
    let later = results.drop_first();
    assert forall|i: int| 0 <= i < later.len() implies next.continues(#[trigger] later[i]) by {
        assert(session.continues(results[i + 1]));
    }
}

/// What a publisher sends leaves the source as one FLV stream: the header
/// once, before anything else, then every media and script message, framed, in
/// the order of arrival, and nothing else.
pub proof fn law_publisher_becomes_flv_stream(
    session: PublishModel,
    results: Seq<ServerResultModel>,
)
    requires
        forall|i: int| 0 <= i < results.len() ==> session.continues(#[trigger] results[i]),
    ensures
        ({
            let (last, ops) = session.after_results(results);
            joined(data_chunks(ops)) == (if last.header_sent && !session.header_sent {
                FLV_HEADER@
            } else {
                Seq::empty()
            }) + framed_all(media_of(results))
        }),
        session.header_sent ==> session.after_results(results).0.header_sent,
        media_of(results).len() > 0 ==> session.after_results(results).0.header_sent,
    decreases results.len(),
{
    reveal_with_fuel(joined, 3);
    reveal_with_fuel(data_chunks, 4);
    if results.len() == 0 {
        assert(joined(data_chunks(session.after_results(results).1)) =~= Seq::<u8>::empty()
            + framed_all(media_of(results)));
    } else {
        let (next, script) = session.after_result(results[0]);
        let later = results.drop_first();
        let (last, ops) = next.after_results(later);
        assert(session.continues(results[0]));
        lemma_results_keep_settings(session, results);
        law_publisher_becomes_flv_stream(next, later);
        lemma_data_chunks_concat(script.ops, ops);
        lemma_joined_concat(data_chunks(script.ops), data_chunks(ops));
        let now = joined(data_chunks(script.ops));
        let header = header_ops(session.header_sent);
        let header_bytes: Seq<u8> = if session.header_sent {
            Seq::empty()
        } else {
            FLV_HEADER@
        };
        assert(joined(data_chunks(header)) =~= header_bytes);
        match results[0] {
            ServerResultModel::Media(tag) => {
                let body = seq![send(OutputModel::Data(framed(tag)))];
                lemma_data_chunks_concat(header, body);
                lemma_joined_concat(data_chunks(header), data_chunks(body));
                assert(joined(data_chunks(body)) =~= framed(tag));
                assert(now =~= header_bytes + framed(tag));
                assert(media_of(results).drop_first() =~= media_of(later));
            },
            ServerResultModel::PublishRequested { request_id, app_name, stream_key, stream_id } => {
                let front = seq![
                    send(OutputModel::PublishStarted { connection_id: session.ids.next }),
                ];
                let back = seq![
                    ask(
                        CallModel::AcceptPublish { request_id },
                        "failed to accept RTMP publish"@,
                        OnWrite::FailAsError,
                    ),
                ];
                lemma_data_chunks_concat(front, header);
                lemma_data_chunks_concat(front + header, back);
                assert(data_chunks(front) =~= Seq::<Seq<u8>>::empty());
                assert(data_chunks(back) =~= Seq::<Seq<u8>>::empty());
                assert(data_chunks(script.ops) =~= data_chunks(header));
                assert(now =~= header_bytes);
            },
            _ => {
                assert(data_chunks(script.ops) =~= Seq::<Seq<u8>>::empty());
                assert(now =~= Seq::<u8>::empty());
            },
        }
        assert(joined(data_chunks(session.after_results(results).1)) =~= (if last.header_sent
            && !session.header_sent {
            FLV_HEADER@
        } else {
            Seq::empty()
        }) + framed_all(media_of(results)));
    }
}

/// A demuxer behind the source gets back the publisher's messages: the same
/// types, timestamps and payloads in the same order, with nothing left over.
pub proof fn law_publisher_messages_survive(
    session: PublishModel,
    results: Seq<ServerResultModel>,
)
    requires
        !session.header_sent,
        forall|i: int| 0 <= i < results.len() ==> session.continues(#[trigger] results[i]),
        all_media(media_of(results)),
    ensures
        ({
            let chunks = data_chunks(session.after_results(results).1);
            &&& DemuxModel::fresh().tags_all(chunks) == media_of(results)
            &&& DemuxModel::fresh().after_all(chunks).pending == Seq::<u8>::empty()
        }),
{
    let (last, ops) = session.after_results(results);
    let chunks = data_chunks(ops);
    law_publisher_becomes_flv_stream(session, results);
    if last.header_sent {
        law_flv_stream_demuxes_to_its_tags(media_of(results), chunks);
    } else {
        assert(joined(chunks) =~= framed_all(media_of(results)));
        law_flv_header_is_optional(media_of(results), chunks);
    }
}

/// Every publish gets an id of its own: the ids announced during a session
/// follow each other, from the first one that was free, and the next session
/// starts behind the last.
pub proof fn law_publish_ids_are_unique(session: PublishModel, results: Seq<ServerResultModel>)
    requires
        forall|i: int| 0 <= i < results.len() ==> session.continues(#[trigger] results[i]),
        session.ids.next + results.len() <= u64::MAX,
    ensures
        ({
            let (last, ops) = session.after_results(results);
            let ids = started_ids(ops);
            &&& last.ids.next == session.ids.next + ids.len()
            &&& ids.len() <= results.len()
            &&& forall|i: int| 0 <= i < ids.len() ==> #[trigger] ids[i] == session.ids.next + i
            &&& last.ids.current == if ids.len() > 0 {
                ids.last()
            } else {
                session.ids.current
            }
        }),
    decreases results.len(),
{
    reveal_with_fuel(started_ids, 4);
    if results.len() > 0 {
        let (next, script) = session.after_result(results[0]);
        let later = results.drop_first();
        let (last, ops) = next.after_results(later);
        assert(session.continues(results[0]));
        lemma_results_keep_settings(session, results);
        lemma_data_chunks_concat(script.ops, ops);
        let header = header_ops(session.header_sent);
        assert(started_ids(header) =~= Seq::<u64>::empty());
        match results[0] {
            ServerResultModel::PublishRequested { request_id, app_name, stream_key, stream_id } => {
                let front = seq![
                    send(OutputModel::PublishStarted { connection_id: session.ids.next }),
                ];
                let back = seq![
                    ask(
                        CallModel::AcceptPublish { request_id },
                        "failed to accept RTMP publish"@,
                        OnWrite::FailAsError,
                    ),
                ];
                lemma_data_chunks_concat(front, header);
                lemma_data_chunks_concat(front + header, back);
                assert(started_ids(front) =~= seq![session.ids.next]);
                assert(started_ids(back) =~= Seq::<u64>::empty());
                assert(started_ids(script.ops) =~= seq![session.ids.next]);
            },
            ServerResultModel::Media(tag) => {
                let body = seq![send(OutputModel::Data(framed(tag)))];
                lemma_data_chunks_concat(header, body);
                assert(started_ids(script.ops) =~= Seq::<u64>::empty());
            },
            _ => {
                assert(started_ids(script.ops) =~= Seq::<u64>::empty());
            },
        }
        law_publish_ids_are_unique(next, later);
        let tail = started_ids(ops);
        let ids = started_ids(session.after_results(results).1);
        assert(ids == started_ids(script.ops) + tail);
        assert forall|i: int| 0 <= i < ids.len() implies #[trigger] ids[i] == session.ids.next
            + i by {
            let shift = started_ids(script.ops).len() as int;
            if i >= shift {
                assert(ids[i] == tail[i - shift]);
            }
        }
    }
}

/// Ids stay unique across connections: a connection is served with the ids that
/// the one before it left, and nothing else that happens to the worker touches
/// them.
pub proof fn law_ids_continue_across_connections(worker: ListenWorker, event: WorkerEvent)
    ensures
        worker.stepped(event).0.ids == match event {
            WorkerEvent::Served { result, rejected, ids } => PublishIds {
                next: ids.next,
                current: 0,
            },
            _ => worker.ids,
        },
        worker.stepped(event).1 matches WorkerActionModel::Serve { ids } ==> ids == worker.ids,
{
}

/// The latest publish of a connection, if one was announced, is announced to
/// have ended, with its own id: ids start at 1, so the id of a live publish is
/// never the 0 that stands for none. A publish that another one of the same
/// connection follows ends with it and is not announced to.
pub proof fn law_latest_publish_is_announced_to_end(
    session: PublishModel,
    results: Seq<ServerResultModel>,
    keep_listening: bool,
    result: Result<bool, FailureModel>,
)
    requires
        session.ids.next >= 1,
        session.ids.current == 0,
        forall|i: int| 0 <= i < results.len() ==> session.continues(#[trigger] results[i]),
        session.ids.next + results.len() <= u64::MAX,
    ensures
        ({
            let (last, ops) = session.after_results(results);
            let ids = started_ids(ops);
            let script = after_publisher(keep_listening, false, last.ids.current, result);
            &&& ids.len() > 0 ==> script.ops.len() > 0 && (script.ops[0].call matches
                CallModel::Send(OutputModel::PublishEnded { connection_id, reason })
                && connection_id == ids.last())
            &&& ids.len() == 0 ==> last.ids.current == 0
        }),
{
    law_publish_ids_are_unique(session, results);
    let (last, ops) = session.after_results(results);
    law_publish_end_is_announced_first(keep_listening, last.ids.current, result);
}

/// A missing application or stream key means that any is accepted.
pub proof fn law_missing_filters_accept_any(
    session: PublishModel,
    app_name: Seq<char>,
    stream_name: Seq<char>,
)
    ensures
        session.application is None && session.stream_key is None ==> session.allows(
            app_name,
            stream_name,
        ),
        session.application == Some(app_name) && session.stream_key is None ==> session.allows(
            app_name,
            stream_name,
        ),
        session.application is None && session.stream_key == Some(stream_name) ==> session.allows(
            app_name,
            stream_name,
        ),
{
}

/// A publisher that is let in is announced before any of its data, and told so
/// last: the start comes first, then the FLV header if it is not out, then the
/// acceptance.
pub proof fn law_publish_is_announced_before_it_is_accepted(
    session: PublishModel,
    request_id: u32,
    app_name: Seq<char>,
    stream_name: Seq<char>,
)
    requires
        session.allows(app_name, stream_name),
    ensures
        ({
            let (next, script) = session.after_publish_request(request_id, app_name, stream_name);
            &&& script.ops.first() == send(
                OutputModel::PublishStarted { connection_id: session.ids.next },
            )
            &&& script.ops.last().call == (CallModel::AcceptPublish { request_id })
            &&& script.conclusion == ConclusionModel::Continue
            &&& next.header_sent
            &&& next.ids.current == session.ids.next
        }),
{
}

/// A session ends cleanly exactly when the publisher unpublishes.
pub proof fn law_only_unpublishing_is_a_clean_end(
    session: PublishModel,
    result: ServerResultModel,
)
    ensures
        session.after_result(result).1.conclusion == ConclusionModel::Finished <==> result is
            PublishFinished,
{
}

/// A publisher that the filters do not let through hands nothing to the
/// element and ends its session; the session's state stays as it was.
pub proof fn law_wrong_stream_key_is_turned_away(
    session: PublishModel,
    request_id: u32,
    app_name: Seq<char>,
    stream_key: Seq<char>,
    stream_id: u32,
)
    requires
        !session.allows(app_name, stream_key),
    ensures
        ({
            let (next, script) = session.after_result(
                ServerResultModel::PublishRequested { request_id, app_name, stream_key, stream_id },
            );
            &&& next == session
            &&& forall|i: int| 0 <= i < script.ops.len() ==> !is_output(#[trigger] script.ops[i])
            &&& script.conclusion is Failed
            &&& session.keep_listening ==> script.ops[0].call == CallModel::MarkRejected
        }),
{
}

/// With `keep-listening`, a publisher that was turned away leaves no trace in
/// the stream, and the worker goes on listening.
pub proof fn law_rejection_does_not_end_the_listener(
    worker: ListenWorker,
    result: Result<bool, SessionFailure>,
    ids: PublishIds,
)
    requires
        worker.keep_listening,
    ensures
        worker.stepped(WorkerEvent::Served { result, rejected: true, ids }).1
            == WorkerActionModel::Run(nothing()),
        worker.stepped(WorkerEvent::ScriptOver(Conclusion::Continue)).1 == (
        WorkerActionModel::Accept { limit: limit_of(worker.accept_timeout) }),
{
}

/// With `keep-listening`, neither a clean end nor a vanished publisher ends
/// the stream: the worker goes on, and neither EOS nor an error is announced.
pub proof fn law_listener_outlives_its_publishers(
    rejected: bool,
    connection_id: u64,
    result: Result<bool, FailureModel>,
)
    requires
        result matches Err(failure) ==> failure.client_disconnect,
    ensures
        ({
            let script = after_publisher(true, rejected, connection_id, result);
            &&& script.conclusion == ConclusionModel::Continue
            &&& forall|i: int|
                0 <= i < script.ops.len() ==> !((#[trigger] script.ops[i]).call is Offer)
        }),
{
}

/// When a worker stops after a publisher, the last thing it announces is the
/// end of the stream or an error; without `keep-listening` it always stops.
pub proof fn law_stopping_is_announced(
    keep_listening: bool,
    rejected: bool,
    connection_id: u64,
    result: Result<bool, FailureModel>,
)
    ensures
        ({
            let script = after_publisher(keep_listening, rejected, connection_id, result);
            &&& !keep_listening ==> script.conclusion == ConclusionModel::Finished
            &&& script.conclusion == ConclusionModel::Finished ==> script.ops.len() > 0 && (
            match script.ops.last().call {
                CallModel::Offer(OutputModel::Eos) => result is Ok,
                CallModel::Offer(OutputModel::Error(_)) => result is Err,
                _ => false,
            })
        }),
{
}

/// The end of a live publish is announced before anything else, once, with its
/// own id; when none was live, no end is announced.
pub proof fn law_publish_end_is_announced_first(
    keep_listening: bool,
    connection_id: u64,
    result: Result<bool, FailureModel>,
)
    ensures
        ({
            let script = after_publisher(keep_listening, false, connection_id, result);
            forall|i: int|
                0 <= i < script.ops.len() ==> (match (#[trigger] script.ops[i]).call {
                    CallModel::Send(OutputModel::PublishEnded { connection_id: id, reason }) => i
                        == 0 && id == connection_id && connection_id != 0,
                    CallModel::Offer(OutputModel::PublishEnded { connection_id: id, reason }) =>
                        false,
                    _ => i > 0 || connection_id == 0,
                })
        }),
        connection_id != 0 ==> after_publisher(
            keep_listening,
            false,
            connection_id,
            result,
        ).ops.len() > 0,
{
}

/// A filter that is set admits exactly one name, the configured one, character
/// for character; one that is not set admits every name.
pub proof fn law_filter_admits_only_its_name(expected: Seq<char>, name: Seq<char>)
    ensures
        admits(Some(expected), name) <==> name == expected,
        admits(None, name),
{
}

/// A publish request is accepted exactly if the application and the stream key
/// that it names each equal the configured one, wherever one is configured. Then
/// its start is announced under the next id, the FLV header goes out if it has
/// not, and the request is accepted, in this order and with nothing else.
pub proof fn law_publish_needs_the_configured_names(
    session: PublishModel,
    request_id: u32,
    app_name: Seq<char>,
    stream_key: Seq<char>,
    stream_id: u32,
)
    ensures
        ({
            let (next, script) = session.after_result(
                ServerResultModel::PublishRequested { request_id, app_name, stream_key, stream_id },
            );
            let welcome = (session.application matches Some(app) ==> app == app_name) && (
            session.stream_key matches Some(key) ==> key == stream_key);
            let accepted = |op: OpModel|
                op.call == (CallModel::AcceptPublish { request_id }) && op.policy.closed is None
                    && op.policy.refused == Some("failed to accept RTMP publish"@)
                    && op.policy.on_write == OnWrite::FailAsError;
            let sent = |op: OpModel, output: OutputModel|
                op.call == CallModel::Send(output) && op.policy.closed == Some(
                    "listener is shutting down"@,
                );
            let started = OutputModel::PublishStarted { connection_id: session.ids.next };
            &&& welcome <==> script.conclusion == ConclusionModel::Continue
            &&& welcome <==> next.header_sent && next.ids == session.ids.started() && exists|i: int|
                0 <= i < script.ops.len() && (#[trigger] script.ops[i]).call == (
                CallModel::AcceptPublish { request_id })
            &&& welcome && session.header_sent ==> script.ops.len() == 2 && sent(
                script.ops[0],
                started,
            ) && accepted(script.ops[1])
            &&& welcome && !session.header_sent ==> script.ops.len() == 3 && sent(
                script.ops[0],
                started,
            ) && sent(script.ops[1], OutputModel::Data(FLV_HEADER@)) && accepted(script.ops[2])
        }),
{
    let (next, script) = session.after_result(
        ServerResultModel::PublishRequested { request_id, app_name, stream_key, stream_id },
    );
    if session.allows(app_name, stream_key) {
        assert(script.ops[script.ops.len() - 1].call == (CallModel::AcceptPublish { request_id }));
    }
}

/// A publish request for any other application or stream key is denied and ends
/// the session: it gets the one reply `NetStream.Publish.Denied`, and nothing
/// reaches the element. With `keep-listening` the peer is first marked as turned
/// away; without it the session's failure says what did not match.
pub proof fn law_other_names_are_denied(
    session: PublishModel,
    request_id: u32,
    app_name: Seq<char>,
    stream_key: Seq<char>,
    stream_id: u32,
)
    requires
        (session.application is Some && session.application->Some_0 != app_name) || (
        session.stream_key is Some && session.stream_key->Some_0 != stream_key),
    ensures
        ({
            let (next, script) = session.after_result(
                ServerResultModel::PublishRequested { request_id, app_name, stream_key, stream_id },
            );
            let last = script.ops.last();
            &&& next == session
            &&& last.call == (CallModel::Reject {
                request_id,
                code: "NetStream.Publish.Denied"@,
                description: "publish denied: application or stream key mismatch"@,
            })
            &&& last.policy.refused == Some("failed to reject RTMP publish"@)
            &&& last.policy.on_write == OnWrite::Ignore
            &&& session.keep_listening ==> script.ops.len() == 2 && script.ops[0].call
                == CallModel::MarkRejected
            &&& !session.keep_listening ==> script.ops.len() == 1
            &&& script.conclusion == ConclusionModel::Failed(
                FailureModel {
                    message: if session.keep_listening {
                        "publisher rejected"@
                    } else {
                        "RTMP publisher did not match the configured application and stream key"@
                    },
                    client_disconnect: false,
                },
            )
        }),
{
}

/// Whoever asks to play is refused with `NetStream.Play.Failed` and has to go:
/// with `keep-listening` like a peer that left, after being marked as turned
/// away, without it as a failure.
pub proof fn law_players_are_refused(
    session: PublishModel,
    request_id: u32,
    app_name: Seq<char>,
    stream_key: Seq<char>,
    stream_id: u32,
)
    ensures
        ({
            let (next, script) = session.after_result(
                ServerResultModel::PlayRequested { request_id, app_name, stream_key, stream_id },
            );
            let first = script.ops.first();
            &&& next == session
            &&& first.call == (CallModel::Reject {
                request_id,
                code: "NetStream.Play.Failed"@,
                description: "this endpoint only accepts publishers"@,
            })
            &&& first.policy.refused == Some("failed to reject RTMP play"@)
            &&& first.policy.on_write == OnWrite::Fail
            &&& session.keep_listening ==> script.ops.len() == 2 && script.ops[1].call
                == CallModel::MarkRejected && script.conclusion == ConclusionModel::Failed(
                FailureModel { message: "RTMP play request rejected"@, client_disconnect: true },
            )
            &&& !session.keep_listening ==> script.ops.len() == 1 && script.conclusion
                == ConclusionModel::Failed(
                FailureModel {
                    message: "RTMP play requests are not supported"@,
                    client_disconnect: false,
                },
            )
        }),
{
}

/// Every connection is accepted, whatever application it names; every message
/// goes out as its own framed tag behind the header; and what needs no answer
/// gets none. None of it changes whom the session lets in.
pub proof fn law_session_answers_each_result(
    session: PublishModel,
    request_id: u32,
    name: Seq<char>,
    tag: TagModel,
)
    ensures
        ({
            let (next, script) = session.after_result(
                ServerResultModel::ConnectionRequested { request_id, app_name: name },
            );
            &&& next == session
            &&& script.ops.len() == 1
            &&& script.ops[0].call == (CallModel::AcceptConnection { request_id })
            &&& script.ops[0].policy.refused == Some("failed to accept RTMP connection"@)
            &&& script.ops[0].policy.on_write == OnWrite::Fail
            &&& script.conclusion == ConclusionModel::Continue
        }),
        ({
            let (next, script) = session.after_result(ServerResultModel::Media(tag));
            &&& next == (PublishModel { header_sent: true, ..session })
            &&& tag.payload.len() < 0x100_0000 ==> script.conclusion == ConclusionModel::Continue
                && script.ops.last().call == CallModel::Send(OutputModel::Data(framed(tag)))
                && script.ops.len() == if session.header_sent {
                1int
            } else {
                2int
            }
            &&& !session.header_sent ==> script.ops[0].call == CallModel::Send(
                OutputModel::Data(FLV_HEADER@),
            )
        }),
        ({
            let (next, script) = session.after_result(
                ServerResultModel::PublishFinished { stream_key: name },
            );
            next == session && script.ops.len() == 0 && script.conclusion
                == ConclusionModel::Finished
        }),
        ({
            let (next, script) = session.after_result(
                ServerResultModel::PlayFinished { stream_key: name },
            );
            next == session && script.ops.len() == 0 && script.conclusion
                == ConclusionModel::Continue
        }),
        ({
            let (next, script) = session.after_result(ServerResultModel::Ignored);
            next == session && script.ops.len() == 0 && script.conclusion
                == ConclusionModel::Continue
        }),
{
}

/// Whom a session lets in never changes while it lasts, whatever its peer sends.
pub proof fn law_results_keep_the_filters(session: PublishModel, result: ServerResultModel)
    ensures
        session.after_result(result).0.application == session.application,
        session.after_result(result).0.stream_key == session.stream_key,
        session.after_result(result).0.keep_listening == session.keep_listening,
        session.header_sent ==> session.after_result(result).0.header_sent,
{
}

/// A publisher's connection makes its session behind the handshake and feeds it
/// every byte that came, those behind the handshake first; it takes all results
/// of one input before it reads on, and ends with what a script or a read ends
/// it with.
pub proof fn law_publisher_is_served_step_by_step(
    connection: PublisherModel,
    bytes: Seq<u8>,
    failure: FailureModel,
    text: Seq<char>,
    cancelled: bool,
    graceful: u64,
)
    requires
        bytes.len() > 0,
    ensures
        ({
            let (next, action) = connection.step(ServeEventModel::HandshakeOver(Ok(bytes)));
            &&& action == ServeActionModel::CreateSession
            &&& next == (PublisherModel { carry: bytes, ..connection })
            &&& next.step(ServeEventModel::SessionReady).1 == ServeActionModel::Feed(bytes)
            &&& next.step(ServeEventModel::SessionReady).0.carry.len() == 0
            &&& next.step(ServeEventModel::SessionReady).0.session == connection.session
        }),
        connection.step(ServeEventModel::HandshakeOver(Ok(Seq::empty()))).0.step(
            ServeEventModel::SessionReady,
        ).1 == ServeActionModel::Read,
        connection.step(ServeEventModel::HandshakeOver(Err(failure))).1
            == ServeActionModel::Return(Err(failure)),
        connection.step(ServeEventModel::SessionRefused(text)).1 == ServeActionModel::Return(
            Err(
                FailureModel {
                    message: "failed to create RTMP session: "@ + text,
                    client_disconnect: false,
                },
            ),
        ),
        connection.step(ServeEventModel::FeedRefused(text)).1 == ServeActionModel::Return(
            Err(
                FailureModel {
                    message: "publisher sent unreadable RTMP: "@ + text,
                    client_disconnect: false,
                },
            ),
        ),
        connection.step(ServeEventModel::Fed) == (connection, ServeActionModel::NextResult),
        connection.step(ServeEventModel::NoMoreResults) == (connection, ServeActionModel::Read),
        connection.step(ServeEventModel::ScriptOver(ConclusionModel::Continue)) == (
            connection,
            ServeActionModel::NextResult,
        ),
        connection.step(ServeEventModel::ScriptOver(ConclusionModel::Finished)).1
            == ServeActionModel::Return(Ok(true)),
        connection.step(ServeEventModel::ScriptOver(ConclusionModel::Failed(failure))).1
            == ServeActionModel::Return(Err(failure)),
        connection.step(
            ServeEventModel::Read { outcome: ReadModel::Received(bytes), cancelled, graceful },
        ) == (connection, ServeActionModel::Feed(bytes)),
        connection.step(
            ServeEventModel::Read {
                outcome: ReadModel::Received(Seq::empty()),
                cancelled,
                graceful,
            },
        ).1 == ServeActionModel::Return(Ok(false)),
{
}

/// The session's answer to a result is what the connection runs, and the
/// session's state is what the connection keeps.
pub proof fn law_connection_runs_what_the_session_answers(
    connection: PublisherModel,
    result: ServerResultModel,
)
    ensures
        ({
            let (session, script) = connection.session.after_result(result);
            connection.step(ServeEventModel::Result(result)) == (
                PublisherModel { session, ..connection },
                ServeActionModel::Run(script),
            )
        }),
{
}

/// When a read fails, the connection ends with that failure; if the worker was
/// asked to stop and grants the publisher time, the sending side is closed and
/// that much time is waited before.
pub proof fn law_stopping_grants_the_publisher_time(
    connection: PublisherModel,
    outcome: ReadModel,
    cancelled: bool,
    graceful: u64,
)
    requires
        !(outcome is Received),
    ensures
        session_read(outcome) is Err,
        ({
            let failure = session_read(outcome)->Err_0;
            let action = connection.step(
                ServeEventModel::Read { outcome, cancelled, graceful },
            ).1;
            if cancelled && graceful > 0 {
                action matches ServeActionModel::Run(script) && script.ops.len() == 2
                    && script.ops[0].call == CallModel::ShutDown && script.ops[1].call == (
                CallModel::AwaitClose { nanoseconds: graceful }) && script.ops[0].policy
                    == script.ops[1].policy && script.ops[0].policy.closed is None
                    && script.ops[0].policy.refused is None && script.ops[0].policy.on_write
                    == OnWrite::Ignore && script.conclusion == ConclusionModel::Failed(failure)
            } else {
                action == ServeActionModel::Return(Err(failure))
            }
        }),
{
}

/// What the end of a connection leads to: the end of its publish is announced,
/// if it had one, with how it ended (`unpublished`, `disconnect` or `error`); a
/// connection that closed without unpublishing is warned of; and unless the
/// worker goes on, the stream ends, with an error if the connection failed. The
/// worker goes on after every end but a failure that is not the peer's leaving.
pub proof fn law_connections_end_as_they_went(
    goes_on: bool,
    connection_id: u64,
    failure: FailureModel,
    closed: Seq<char>,
    broken: Seq<char>,
)
    requires
        connection_id != 0,
    ensures
        ({
            let clean = after_connection(goes_on, connection_id, Ok(true), closed, broken);
            let cut = after_connection(goes_on, connection_id, Ok(false), closed, broken);
            let lost = after_connection(goes_on, connection_id, Err(failure), closed, broken);
            let ended = |op: OpModel, reason: Seq<char>|
                op.call == CallModel::Send(
                    OutputModel::PublishEnded { connection_id, reason },
                ) && op.policy.closed == Some("listener is shutting down"@);
            let over = |script: ScriptModel, count: int|
                if goes_on {
                    script.ops.len() == count && script.conclusion == ConclusionModel::Continue
                } else {
                    script.ops.len() == count + 1 && script.ops.last().call == CallModel::Offer(
                        OutputModel::Eos,
                    ) && script.conclusion == ConclusionModel::Finished
                };
            &&& ended(clean.ops[0], "unpublished"@)
            &&& over(clean, 1)
            &&& ended(cut.ops[0], "disconnect"@)
            &&& cut.ops[1].call == CallModel::Send(OutputModel::Warning(closed))
            &&& over(cut, 2)
            &&& ended(
                lost.ops[0],
                if failure.client_disconnect {
                    "disconnect"@
                } else {
                    "error"@
                },
            )
            &&& goes_on && failure.client_disconnect ==> lost.ops.len() == 1 && lost.conclusion
                == ConclusionModel::Continue
            &&& !(goes_on && failure.client_disconnect) ==> lost.ops.len() == 2
                && lost.ops[1].call == CallModel::Offer(
                OutputModel::Error(broken + failure.message),
            ) && lost.conclusion == ConclusionModel::Finished
        }),
{
}

/// A connection that never published is not announced to have ended; all else
/// is as if it had.
pub proof fn law_without_a_publish_no_end_is_announced(
    goes_on: bool,
    connection_id: u64,
    result: Result<bool, FailureModel>,
    closed: Seq<char>,
    broken: Seq<char>,
)
    requires
        connection_id != 0,
    ensures
        ({
            let with = after_connection(goes_on, connection_id, result, closed, broken);
            let without = after_connection(goes_on, 0, result, closed, broken);
            &&& without.ops == with.ops.drop_first()
            &&& without.conclusion == with.conclusion
        }),
{
    let with = after_connection(goes_on, connection_id, result, closed, broken);
    let without = after_connection(goes_on, 0, result, closed, broken);
    assert(without.ops =~= with.ops.drop_first());
}

/// A listening worker reports before it accepts, accepts within its time limit,
/// secures a connection exactly on `rtmps://` and before it serves it, and goes
/// back to accepting after whatever it survives.
pub proof fn law_listening_worker_goes_round(worker: ListenWorker)
    ensures
        ({
            let accept = WorkerActionModel::Accept {
                limit: if worker.accept_timeout == 0 {
                    None
                } else {
                    Some(nanos_duration(worker.accept_timeout))
                },
            };
            &&& worker.stepped(WorkerEvent::Ready).1 == WorkerActionModel::ReportReady
            &&& worker.stepped(WorkerEvent::Reported { heard: true }).1 == accept
            &&& worker.stepped(WorkerEvent::Reported { heard: false }).1 == WorkerActionModel::Stop
            &&& worker.stepped(WorkerEvent::Accepted).1 == WorkerActionModel::Configure
            &&& worker.stepped(WorkerEvent::Configured).1 == if worker.tls {
                WorkerActionModel::Secure {
                    limit: if worker.handshake_timeout == 0 {
                        None
                    } else {
                        Some(nanos_duration(worker.handshake_timeout))
                    },
                }
            } else {
                WorkerActionModel::Serve { ids: worker.ids }
            }
            &&& worker.stepped(WorkerEvent::Secured).1 == (WorkerActionModel::Serve {
                ids: worker.ids,
            })
            &&& worker.stepped(WorkerEvent::Cancelled).1 == WorkerActionModel::Stop
            &&& worker.stepped(WorkerEvent::ScriptOver(Conclusion::Continue)).1 == accept
            &&& worker.stepped(WorkerEvent::ScriptOver(Conclusion::Finished)).1
                == WorkerActionModel::Stop
        }),
{
}

/// What goes wrong for a listening worker itself is told to the element, with
/// its reason: before it is ready as a failed start, afterwards as an error that
/// ends the stream. A peer that fails its TLS handshake is only warned of.
pub proof fn law_listening_worker_tells_its_trouble(
    worker: ListenWorker,
    reason: String,
    peer: String,
    fault: TlsAcceptFault,
)
    ensures
        ({
            let says = |event: WorkerEvent, output: OutputModel, conclusion: ConclusionModel|
                worker.stepped(event) == (
                    worker,
                    WorkerActionModel::Run(
                        ScriptModel {
                            ops: seq![
                                OpModel {
                                    call: CallModel::Offer(output),
                                    policy: PolicyModel {
                                        closed: None,
                                        refused: None,
                                        on_write: OnWrite::Ignore,
                                    },
                                },
                            ],
                            conclusion,
                        },
                    ),
                );
            &&& worker.stepped(WorkerEvent::RuntimeFailed(reason)).1
                == WorkerActionModel::ReportFailure("Failed to create Tokio runtime: "@ + reason@)
            &&& worker.stepped(WorkerEvent::ListenerFailed(reason)).1
                == WorkerActionModel::ReportFailure(
                "Failed to initialize Tokio RTMP listener: "@ + reason@,
            )
            &&& says(
                WorkerEvent::AcceptTimedOut,
                OutputModel::Error(
                    "Failed to accept RTMP publisher: Timed out waiting "@ + duration_text(
                        worker.accept_timeout,
                    ) + " for an RTMP publisher"@,
                ),
                ConclusionModel::Finished,
            )
            &&& says(
                WorkerEvent::AcceptFailed(reason),
                OutputModel::Error("Failed to accept RTMP publisher: "@ + reason@),
                ConclusionModel::Finished,
            )
            &&& says(
                WorkerEvent::ConfigureFailed(reason),
                OutputModel::Error("Failed to configure TCP_NODELAY: "@ + reason@),
                ConclusionModel::Finished,
            )
            &&& says(
                WorkerEvent::SecureFailed { peer, fault },
                OutputModel::Warning(
                    "RTMPS publisher "@ + peer@ + ": "@ + tls_accept_text(fault),
                ),
                ConclusionModel::Continue,
            )
        }),
{
}

/// The end of a publisher is told with the worker's own words and under the id
/// of its last publish, unless it was turned away and the worker goes on; then
/// nothing is told.
pub proof fn law_served_publishers_are_wound_up(
    worker: ListenWorker,
    result: Result<bool, SessionFailure>,
    rejected: bool,
    ids: PublishIds,
)
    ensures
        ({
            let (next, action) = worker.stepped(WorkerEvent::Served { result, rejected, ids });
            &&& next == (ListenWorker {
                ids: PublishIds { next: ids.next, current: 0 },
                ..worker
            })
            &&& worker.keep_listening && rejected ==> (action matches WorkerActionModel::Run(script)
                && script.ops.len() == 0 && script.conclusion == ConclusionModel::Continue)
            &&& !(worker.keep_listening && rejected) ==> action == WorkerActionModel::Run(
                after_connection(
                    worker.keep_listening,
                    ids.current,
                    match result {
                        Ok(clean) => Ok(clean),
                        Err(failure) => Err(
                            FailureModel {
                                message: failure.message@,
                                client_disconnect: failure.client_disconnect,
                            },
                        ),
                    },
                    "RTMP publisher disconnected without unpublishing"@,
                    "RTMP session failed: "@,
                ),
            )
        }),
{
}

/// What happens to a publisher's connection and what is to be done are told as
/// they are.
pub proof fn law_serve_events_show_their_fields(
    bytes: Vec<u8>,
    text: String,
    failure: SessionFailure,
    result: ServerSessionResult,
    conclusion: Conclusion,
    outcome: ReadOutcome,
    cancelled: bool,
    graceful: u64,
    script: Script,
    clean: bool,
)
    ensures
        ServeEvent::HandshakeOver(Ok(bytes))@ == ServeEventModel::HandshakeOver(Ok(bytes@)),
        ServeEvent::HandshakeOver(Err(failure))@ == ServeEventModel::HandshakeOver(Err(failure@)),
        ServeEvent::SessionReady@ == ServeEventModel::SessionReady,
        ServeEvent::SessionRefused(text)@ == ServeEventModel::SessionRefused(text@),
        ServeEvent::Fed@ == ServeEventModel::Fed,
        ServeEvent::FeedRefused(text)@ == ServeEventModel::FeedRefused(text@),
        ServeEvent::Result(result)@ == ServeEventModel::Result(result@),
        ServeEvent::NoMoreResults@ == ServeEventModel::NoMoreResults,
        ServeEvent::ScriptOver(conclusion)@ == ServeEventModel::ScriptOver(conclusion@),
        (ServeEvent::Read { outcome, cancelled, graceful })@ == (ServeEventModel::Read {
            outcome: outcome@,
            cancelled,
            graceful,
        }),
        ServeAction::CreateSession@ == ServeActionModel::CreateSession,
        ServeAction::Feed(bytes)@ == ServeActionModel::Feed(bytes@),
        ServeAction::NextResult@ == ServeActionModel::NextResult,
        ServeAction::Run(script)@ == ServeActionModel::Run(script@),
        ServeAction::Read@ == ServeActionModel::Read,
        ServeAction::Return(Ok(clean))@ == ServeActionModel::Return(Ok(clean)),
        ServeAction::Return(Err(failure))@ == ServeActionModel::Return(Err(failure@)),
{
}

/// What a listening worker is to do is told as it is.
pub proof fn law_worker_actions_show_their_fields(
    text: String,
    limit: Option<std::time::Duration>,
    ids: PublishIds,
    script: Script,
)
    ensures
        WorkerAction::ReportFailure(text)@ == WorkerActionModel::ReportFailure(text@),
        WorkerAction::ReportReady@ == WorkerActionModel::ReportReady,
        (WorkerAction::Accept { limit })@ == (WorkerActionModel::Accept { limit }),
        WorkerAction::Configure@ == WorkerActionModel::Configure,
        (WorkerAction::Secure { limit })@ == (WorkerActionModel::Secure { limit }),
        (WorkerAction::Serve { ids })@ == (WorkerActionModel::Serve { ids }),
        WorkerAction::Run(script)@ == WorkerActionModel::Run(script@),
        WorkerAction::Stop@ == WorkerActionModel::Stop,
{
}

/// A worker whose script did not run through stops, for every other conclusion
/// than to continue.
pub proof fn law_listening_worker_stops_for_good(worker: ListenWorker, conclusion: Conclusion)
    requires
        !(conclusion is Continue),
    ensures
        worker.stepped(WorkerEvent::ScriptOver(conclusion)) == (worker, WorkerActionModel::Stop),
{
}

} // verus!
