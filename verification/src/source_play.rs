//! The source in play mode: a server's stream becomes an FLV stream.

use vstd::prelude::*;
use vstd::string::*;

use crate::flv::all_media;
use crate::flv::framed;
use crate::flv::framed_all;
use crate::flv::joined;
use crate::flv::law_flv_header_is_optional;
use crate::flv::law_flv_stream_demuxes_to_its_tags;
use crate::flv::lemma_joined_concat;
use crate::flv::DemuxModel;
use crate::flv::TagModel;
use crate::flv::FLV_HEADER;
use crate::flv::FLV_TAG_AUDIO;
use crate::flv::FLV_TAG_SCRIPT_DATA;
use crate::flv::FLV_TAG_VIDEO;
use crate::link::read_session_chunk;
use crate::link::session_read;
use crate::link::ReadModel;
use crate::link::ReadOutcome;
use crate::script::anyway;
use crate::script::ask;
use crate::script::data_chunks;
use crate::script::lemma_data_chunks_concat;
use crate::script::nothing;
use crate::script::send;
use crate::script::write_out;
use crate::script::Call;
use crate::script::CallModel;
use crate::script::OnWrite;
use crate::script::Op;
use crate::script::OpModel;
use crate::script::Script;
use crate::script::ScriptModel;
use crate::script::Conclusion;
use crate::script::ConclusionModel;
use crate::session::header_ops;
use crate::session::media_script;
use crate::session::ClientResultModel;
use crate::session::ClientSessionEvent;
use crate::session::ClientSessionResult;
use crate::session::FlvTagWriter;
use crate::source_listen::after_connection;
use crate::source_listen::after_script;
use crate::source_listen::wind_up;
use crate::source_listen::ServeAction;
use crate::source_listen::ServeActionModel;
use crate::text::join2;
use crate::text::same_text;
use crate::worker::failed;
use crate::worker::FailureModel;
use crate::worker::OutputModel;
use crate::worker::PublishIds;
use crate::worker::SessionFailure;
use crate::worker::WorkerOutput;

verus! {

/// The state of one playback session.
#[derive(Debug)]
pub struct PlaySession {
    writer: FlvTagWriter,
    stream_key: String,
    ids: PublishIds,
    play_requested: bool,
}

/// The state of one playback session, as plain mathematics.
#[verifier::ext_equal]
pub struct PlayModel {
    /// Whether the FLV header is out.
    pub header_sent: bool,
    /// The stream to play.
    pub stream_key: Seq<char>,
    pub ids: PublishIds,
    /// Whether playback is to be requested behind the current batch.
    pub play_requested: bool,
}

impl View for PlaySession {
    type V = PlayModel;

    closed spec fn view(&self) -> PlayModel {
        PlayModel {
            header_sent: self.writer@,
            stream_key: self.stream_key@,
            ids: self.ids,
            play_requested: self.play_requested,
        }
    }
}

/// Whether a status says that the server ended playback.
pub open spec fn ends_playback(code: Seq<char>) -> bool {
    ||| code == "NetStream.Play.Stop"@
    ||| code == "NetStream.Play.UnpublishNotify"@
    ||| code == "NetStream.Play.Complete"@
}

impl PlayModel {
    /// What one session result leads to.
    pub open spec fn after_result(self, result: ClientResultModel) -> (PlayModel, ScriptModel) {
        match result {
            ClientResultModel::Outbound(packet) => (
                self,
                ScriptModel { ops: seq![write_out(packet)], conclusion: ConclusionModel::Continue },
            ),
            ClientResultModel::ConnectionAccepted => (
                PlayModel { play_requested: true, ..self },
                nothing(),
            ),
            ClientResultModel::ConnectionRejected { description } => (
                self,
                ScriptModel {
                    ops: Seq::empty(),
                    conclusion: ConclusionModel::Failed(
                        failed("RTMP server rejected connection: "@ + description),
                    ),
                },
            ),
            ClientResultModel::PlaybackAccepted => (
                PlayModel { header_sent: true, ids: self.ids.started(), ..self },
                ScriptModel {
                    ops: seq![send(OutputModel::PublishStarted { connection_id: self.ids.next })]
                        + header_ops(self.header_sent),
                    conclusion: ConclusionModel::Continue,
                },
            ),
            ClientResultModel::PublishAccepted => (self, nothing()),
            ClientResultModel::Media(tag) => (
                PlayModel { header_sent: true, ..self },
                media_script(self.header_sent, tag),
            ),
            ClientResultModel::Status { code } => (
                self,
                ScriptModel {
                    ops: Seq::empty(),
                    conclusion: if ends_playback(code) {
                        ConclusionModel::Finished
                    } else {
                        ConclusionModel::Continue
                    },
                },
            ),
            ClientResultModel::Ignored => (self, nothing()),
        }
    }

    /// What the end of a batch of results leads to.
    ///
    /// When the connection was accepted, playback is requested now, behind the
    /// whole batch: the batch announces the chunk size, and a request sent
    /// before that would be out of order.
    pub open spec fn after_batch(self) -> (PlayModel, Option<ScriptModel>) {
        if self.play_requested {
            (
                PlayModel { play_requested: false, ..self },
                Some(
                    ScriptModel {
                        ops: seq![
                            ask(
                                CallModel::RequestPlayback { stream_key: self.stream_key },
                                "failed to request RTMP playback"@,
                                OnWrite::Fail,
                            ),
                        ],
                        conclusion: ConclusionModel::Continue,
                    },
                ),
            )
        } else {
            (self, None)
        }
    }
}

impl PlaySession {
    /// A session before its first result.
    pub fn new(stream_key: String, ids: PublishIds) -> (session: PlaySession)
        ensures
            session@ == (PlayModel {
                header_sent: false,
                stream_key: stream_key@,
                ids,
                play_requested: false,
            }),
    {
        PlaySession { writer: FlvTagWriter::new(), stream_key, ids, play_requested: false }
    }

    /// Reacts to one result of the protocol session: outbound packets are
    /// written, media framed.
    pub fn process_client_result(&mut self, result: ClientSessionResult) -> (script: Script)
        ensures
            (final(self)@, script@) == old(self)@.after_result(result@),
    {
        let event: ClientSessionEvent = match result {
            ClientSessionResult::OutboundResponse(packet) => {
                return Script::one(Op::write(packet));
            },
            ClientSessionResult::RaisedEvent(event) => event,
            ClientSessionResult::UnhandleableMessageReceived => {
                return Script::ending(Conclusion::Continue);
            },
        };
        match event {
            ClientSessionEvent::ConnectionRequestAccepted => {
                self.play_requested = true;
                Script::ending(Conclusion::Continue)
            },
            ClientSessionEvent::ConnectionRequestRejected { description } => Script::ending(
                Conclusion::Failed(
                    SessionFailure::error(
                        join2("RTMP server rejected connection: ", description.as_str()),
                    ),
                ),
            ),
            ClientSessionEvent::PlaybackRequestAccepted => {
                let ghost wanted = self@.after_result(result@);
                let connection_id: u64 = self.ids.start();
                let mut script: Script = Script::one(
                    Op::send(WorkerOutput::PublishStarted { connection_id }),
                );
                self.writer.ensure_header(&mut script);
                assert(script@ =~= wanted.1);
                script
            },
            ClientSessionEvent::PublishRequestAccepted => Script::ending(Conclusion::Continue),
            ClientSessionEvent::VideoDataReceived { timestamp, data } => self.writer.push_media(
                FLV_TAG_VIDEO,
                timestamp,
                data.as_slice(),
            ),
            ClientSessionEvent::AudioDataReceived { timestamp, data } => self.writer.push_media(
                FLV_TAG_AUDIO,
                timestamp,
                data.as_slice(),
            ),
            ClientSessionEvent::StreamMetadataReceived {
                timestamp,
                payload,
            } => self.writer.push_media(FLV_TAG_SCRIPT_DATA, timestamp, payload.as_slice()),
            ClientSessionEvent::StreamDataReceived { timestamp, payload } => self.writer.push_media(
                FLV_TAG_SCRIPT_DATA,
                timestamp,
                payload.as_slice(),
            ),
            ClientSessionEvent::StatusReceived { code } => {
                if same_text(code.as_str(), "NetStream.Play.Stop") || same_text(
                    code.as_str(),
                    "NetStream.Play.UnpublishNotify",
                ) || same_text(code.as_str(), "NetStream.Play.Complete") {
                    Script::ending(Conclusion::Finished)
                } else {
                    Script::ending(Conclusion::Continue)
                }
            },
            ClientSessionEvent::Other => Script::ending(Conclusion::Continue),
        }
    }

    /// What the end of a batch of results leads to.
    pub fn finish_batch(&mut self) -> (script: Option<Script>)
        ensures
            final(self)@ == old(self)@.after_batch().0,
            match script {
                Some(script) => old(self)@.after_batch().1 == Some(script@),
                None => old(self)@.after_batch().1 is None,
            },
    {
        if !self.play_requested {
            return None;
        }
        self.play_requested = false;
        Some(
            Script::one(
                Op::ask(
                    Call::RequestPlayback { stream_key: self.stream_key.clone() },
                    "failed to request RTMP playback",
                    OnWrite::Fail,
                ),
            ),
        )
    }
}

/// What has just happened on a connection to a server.
#[derive(Debug)]
pub enum PlayEvent {
    /// The connection is requested, and these bytes came already.
    Opened { carry: Vec<u8> },
    /// The session took its input.
    Fed,
    /// The session refused its input, and why.
    FeedRefused(String),
    /// The session's next result.
    Result(ClientSessionResult),
    /// The session has no further result.
    NoMoreResults,
    /// A script is over.
    ScriptOver(Conclusion),
    /// A read ended. `cancelled` tells whether the worker was asked to stop,
    /// and `graceful` whether gracefully.
    Read { outcome: ReadOutcome, cancelled: bool, graceful: bool },
}

/// What has just happened, as plain mathematics.
#[verifier::ext_equal]
pub enum PlayEventModel {
    Opened { carry: Seq<u8> },
    Fed,
    FeedRefused(Seq<char>),
    Result(ClientResultModel),
    NoMoreResults,
    ScriptOver(ConclusionModel),
    Read { outcome: ReadModel, cancelled: bool, graceful: bool },
}

impl View for PlayEvent {
    type V = PlayEventModel;

    open spec fn view(&self) -> PlayEventModel {
        match self {
            PlayEvent::Opened { carry } => PlayEventModel::Opened { carry: carry@ },
            PlayEvent::Fed => PlayEventModel::Fed,
            PlayEvent::FeedRefused(reason) => PlayEventModel::FeedRefused(reason@),
            PlayEvent::Result(result) => PlayEventModel::Result(result@),
            PlayEvent::NoMoreResults => PlayEventModel::NoMoreResults,
            PlayEvent::ScriptOver(conclusion) => PlayEventModel::ScriptOver(conclusion@),
            PlayEvent::Read { outcome, cancelled, graceful } => PlayEventModel::Read {
                outcome: outcome@,
                cancelled: *cancelled,
                graceful: *graceful,
            },
        }
    }
}

/// What a read on a connection to a server leads to.
pub open spec fn after_play_read(outcome: ReadModel, cancelled: bool, graceful: bool) ->
    ServeActionModel {
    match session_read(outcome) {
        Ok(bytes) => if bytes.len() == 0 {
            ServeActionModel::Return(Ok(false))
        } else {
            ServeActionModel::Feed(bytes)
        },
        Err(failure) => if cancelled && graceful {
            ServeActionModel::Run(
                ScriptModel {
                    ops: seq![anyway(CallModel::ShutDown)],
                    conclusion: ConclusionModel::Failed(failure),
                },
            )
        } else {
            ServeActionModel::Return(Err(failure))
        },
    }
}

impl PlayModel {
    /// The next state and action after an event.
    pub open spec fn step(self, event: PlayEventModel) -> (PlayModel, ServeActionModel) {
        match event {
            PlayEventModel::Opened { carry } => (
                self,
                if carry.len() > 0 {
                    ServeActionModel::Feed(carry)
                } else {
                    ServeActionModel::Read
                },
            ),
            PlayEventModel::Fed => (self, ServeActionModel::NextResult),
            PlayEventModel::FeedRefused(reason) => (
                self,
                ServeActionModel::Return(Err(failed("server sent unreadable RTMP: "@ + reason))),
            ),
            PlayEventModel::Result(result) => {
                let (session, script) = self.after_result(result);
                (session, ServeActionModel::Run(script))
            },
            PlayEventModel::NoMoreResults => {
                let (session, script) = self.after_batch();
                (
                    session,
                    match script {
                        Some(script) => ServeActionModel::Run(script),
                        None => ServeActionModel::Read,
                    },
                )
            },
            PlayEventModel::ScriptOver(conclusion) => (self, after_script(conclusion)),
            PlayEventModel::Read { outcome, cancelled, graceful } => (
                self,
                after_play_read(outcome, cancelled, graceful),
            ),
        }
    }
}

impl PlaySession {
    /// The ids so far.
    pub fn ids(&self) -> (ids: PublishIds)
        ensures
            ids == self@.ids,
    {
        self.ids
    }

    /// Plays one stream from a server to its end: takes in what happened and
    /// says what to do next.
    ///
    /// Returns `Ok(true)` when the server cleanly ended playback, `Ok(false)`
    /// when the socket closed without an ending, and `Err` on protocol or
    /// socket failure.
    pub fn connect_and_play(&mut self, event: PlayEvent) -> (action: ServeAction)
        ensures
            (final(self)@, action@) == old(self)@.step(event@),
    {
        match event {
            PlayEvent::Opened { carry } => {
                if carry.len() > 0 {
                    ServeAction::Feed(carry)
                } else {
                    ServeAction::Read
                }
            },
            PlayEvent::Fed => ServeAction::NextResult,
            PlayEvent::FeedRefused(reason) => ServeAction::Return(
                Err(
                    SessionFailure::error(join2("server sent unreadable RTMP: ", reason.as_str())),
                ),
            ),
            PlayEvent::Result(result) => ServeAction::Run(self.process_client_result(result)),
            PlayEvent::NoMoreResults => match self.finish_batch() {
                Some(script) => ServeAction::Run(script),
                None => ServeAction::Read,
            },
            PlayEvent::ScriptOver(conclusion) => match conclusion {
                Conclusion::Finished => ServeAction::Return(Ok(true)),
                Conclusion::Failed(failure) => ServeAction::Return(Err(failure)),
                _ => ServeAction::NextResult,
            },
            PlayEvent::Read { outcome, cancelled, graceful } => {
                match read_session_chunk(outcome) {
                    Ok(bytes) => {
                        if bytes.len() == 0 {
                            ServeAction::Return(Ok(false))
                        } else {
                            ServeAction::Feed(bytes)
                        }
                    },
                    Err(failure) => {
                        if cancelled && graceful {
                            let mut script: Script = Script::ending(Conclusion::Failed(failure));
                            script.push(Op::anyway(Call::ShutDown));
                            assert(script@.ops =~= seq![anyway(CallModel::ShutDown)]);
                            ServeAction::Run(script)
                        } else {
                            ServeAction::Return(Err(failure))
                        }
                    },
                }
            },
        }
    }
}

/// What has just happened to a playing worker.
#[derive(Debug)]
pub enum PlayWorkerEvent {
    /// There is no runtime, and why.
    RuntimeFailed(String),
    /// The worker can start.
    Ready,
    /// The element heard that the worker is ready, or does not listen.
    Reported { heard: bool },
    /// A connection is over.
    Played { result: Result<bool, SessionFailure>, ids: PublishIds },
    /// A script is over.
    ScriptOver(Conclusion),
    /// The pause before the next attempt is over, or was cut short because the
    /// worker was asked to stop.
    Waited { undisturbed: bool },
}

/// What a playing worker does next.
#[derive(Debug)]
pub enum PlayWorkerAction {
    /// Tell the element that the worker did not start, and why; then stop.
    ReportFailure(String),
    /// Tell the element that the worker is ready.
    ReportReady,
    /// Connect and play.
    Play { ids: PublishIds },
    /// Run this script.
    Run(Script),
    /// Pause before the next attempt.
    Wait,
    /// Stop.
    Stop,
}

/// What a playing worker does next, as plain mathematics.
#[verifier::ext_equal]
pub enum PlayWorkerActionModel {
    ReportFailure(Seq<char>),
    ReportReady,
    Play { ids: PublishIds },
    Run(ScriptModel),
    Wait,
    Stop,
}

impl View for PlayWorkerAction {
    type V = PlayWorkerActionModel;

    open spec fn view(&self) -> PlayWorkerActionModel {
        match self {
            PlayWorkerAction::ReportFailure(text) => PlayWorkerActionModel::ReportFailure(text@),
            PlayWorkerAction::ReportReady => PlayWorkerActionModel::ReportReady,
            PlayWorkerAction::Play { ids } => PlayWorkerActionModel::Play { ids: *ids },
            PlayWorkerAction::Run(script) => PlayWorkerActionModel::Run(script@),
            PlayWorkerAction::Wait => PlayWorkerActionModel::Wait,
            PlayWorkerAction::Stop => PlayWorkerActionModel::Stop,
        }
    }
}

/// A worker that plays from a server.
#[derive(Debug, Clone, Copy, PartialEq, Eq, Structural)]
pub struct PlayWorker {
    pub reconnect: bool,
    /// The ids of the next connection.
    pub ids: PublishIds,
}

/// What the end of one connection to a server leads to.
pub open spec fn after_playback(
    reconnect: bool,
    connection_id: u64,
    result: Result<bool, FailureModel>,
) -> ScriptModel {
    after_connection(
        reconnect,
        connection_id,
        result,
        "RTMP server closed the connection"@,
        "RTMP play session failed: "@,
    )
}

impl PlayWorker {
    /// A worker before its first connection.
    pub fn new(reconnect: bool) -> (worker: PlayWorker)
        ensures
            worker == (PlayWorker { reconnect, ids: PublishIds { next: 1, current: 0 } }),
    {
        PlayWorker { reconnect, ids: PublishIds::first() }
    }

    /// The next state and action after an event.
    pub open spec fn stepped(self, event: PlayWorkerEvent) -> (PlayWorker, PlayWorkerActionModel) {
        match event {
            PlayWorkerEvent::RuntimeFailed(reason) => (
                self,
                PlayWorkerActionModel::ReportFailure("Failed to create Tokio runtime: "@ + reason@),
            ),
            PlayWorkerEvent::Ready => (self, PlayWorkerActionModel::ReportReady),
            PlayWorkerEvent::Reported { heard } => (
                self,
                if heard {
                    PlayWorkerActionModel::Play { ids: self.ids }
                } else {
                    PlayWorkerActionModel::Stop
                },
            ),
            PlayWorkerEvent::Played { result, ids } => (
                PlayWorker { ids: PublishIds { next: ids.next, current: 0 }, ..self },
                PlayWorkerActionModel::Run(
                    after_playback(
                        self.reconnect,
                        ids.current,
                        match result {
                            Ok(clean) => Ok(clean),
                            Err(failure) => Err(failure@),
                        },
                    ),
                ),
            ),
            PlayWorkerEvent::ScriptOver(conclusion) => (
                self,
                match conclusion {
                    Conclusion::Continue => PlayWorkerActionModel::Wait,
                    _ => PlayWorkerActionModel::Stop,
                },
            ),
            PlayWorkerEvent::Waited { undisturbed } => (
                self,
                if undisturbed {
                    PlayWorkerActionModel::Play { ids: self.ids }
                } else {
                    PlayWorkerActionModel::Stop
                },
            ),
        }
    }

    /// Takes in what happened and says what to do next. The worker reports
    /// that it is ready before it connects: connect and playback show through
    /// its outputs.
    pub fn run_play_worker(&mut self, event: PlayWorkerEvent) -> (action: PlayWorkerAction)
        ensures
            (*final(self), action@) == old(self).stepped(event),
    {
        match event {
            PlayWorkerEvent::RuntimeFailed(reason) => PlayWorkerAction::ReportFailure(
                join2("Failed to create Tokio runtime: ", reason.as_str()),
            ),
            PlayWorkerEvent::Ready => PlayWorkerAction::ReportReady,
            PlayWorkerEvent::Reported { heard } => {
                if heard {
                    PlayWorkerAction::Play { ids: self.ids }
                } else {
                    PlayWorkerAction::Stop
                }
            },
            PlayWorkerEvent::Played { result, ids } => {
                self.ids = ids.following();
                PlayWorkerAction::Run(
                    wind_up(
                        self.reconnect,
                        ids.current,
                        result,
                        "RTMP server closed the connection",
                        "RTMP play session failed: ",
                    ),
                )
            },
            PlayWorkerEvent::ScriptOver(conclusion) => match conclusion {
                Conclusion::Continue => PlayWorkerAction::Wait,
                _ => PlayWorkerAction::Stop,
            },
            PlayWorkerEvent::Waited { undisturbed } => {
                if undisturbed {
                    PlayWorkerAction::Play { ids: self.ids }
                } else {
                    PlayWorkerAction::Stop
                }
            },
        }
    }
}

/// The media among the results of a session, in order.
pub open spec fn played_media(results: Seq<ClientResultModel>) -> Seq<TagModel>
    decreases results.len(),
{
    if results.len() == 0 {
        Seq::empty()
    } else {
        let later = played_media(results.drop_first());
        match results[0] {
            ClientResultModel::Media(tag) => seq![tag] + later,
            _ => later,
        }
    }
}

impl PlayModel {
    /// Whether the session goes on after a result.
    pub open spec fn continues(self, result: ClientResultModel) -> bool {
        self.after_result(result).1.conclusion == ConclusionModel::Continue
    }

    /// The state and all calls after several results, each of which the
    /// session outlives.
    pub open spec fn after_results(self, results: Seq<ClientResultModel>) -> (
        PlayModel,
        Seq<OpModel>,
    )
        decreases results.len(),
    {
        if results.len() == 0 {
            (self, Seq::empty())
        } else {
            let (next, script) = self.after_result(results[0]);
            let (last, ops) = next.after_results(results.drop_first());
            (last, script.ops + ops)
        }
    }
}

proof fn lemma_playing_goes_on(session: PlayModel, results: Seq<ClientResultModel>)
    requires
        results.len() > 0,
        forall|i: int| 0 <= i < results.len() ==> session.continues(#[trigger] results[i]),
    ensures
        ({
            let next = session.after_result(results[0]).0;
            let later = results.drop_first();
            forall|i: int| 0 <= i < later.len() ==> next.continues(#[trigger] later[i])
        }),
{
    let next = session.after_result(results[0]).0;
    let later = results.drop_first();
    assert forall|i: int| 0 <= i < later.len() implies next.continues(#[trigger] later[i]) by {
        assert(session.continues(results[i + 1]));
    }
}

/// What a server plays leaves the source as one FLV stream: the header once,
/// before anything else, then every media and script message, framed, in the
/// order of arrival, and nothing else.
pub proof fn law_playback_becomes_flv_stream(session: PlayModel, results: Seq<ClientResultModel>)
    requires
        forall|i: int| 0 <= i < results.len() ==> session.continues(#[trigger] results[i]),
    ensures
        ({
            let (last, ops) = session.after_results(results);
            joined(data_chunks(ops)) == (if last.header_sent && !session.header_sent {
                FLV_HEADER@
            } else {
                Seq::empty()
            }) + framed_all(played_media(results))
        }),
        session.header_sent ==> session.after_results(results).0.header_sent,
        played_media(results).len() > 0 ==> session.after_results(results).0.header_sent,
    decreases results.len(),
{
    reveal_with_fuel(joined, 3);
    reveal_with_fuel(data_chunks, 4);
    if results.len() == 0 {
        assert(joined(data_chunks(session.after_results(results).1)) =~= Seq::<u8>::empty()
            + framed_all(played_media(results)));
    } else {
        let (next, script) = session.after_result(results[0]);
        let later = results.drop_first();
        let (last, ops) = next.after_results(later);
        assert(session.continues(results[0]));
        lemma_playing_goes_on(session, results);
        law_playback_becomes_flv_stream(next, later);
        lemma_data_chunks_concat(script.ops, ops);
        lemma_joined_concat(data_chunks(script.ops), data_chunks(ops));
        let now = joined(data_chunks(script.ops));
        let header = header_ops(session.header_sent);
        let header_bytes: Seq<u8> = if session.header_sent {
            Seq::empty()
        } else {
            FLV_HEADER@
        };
        assert(joined(data_chunks(header)) =~= header_bytes);
        match results[0] {
            ClientResultModel::Media(tag) => {
                let body = seq![send(OutputModel::Data(framed(tag)))];
                lemma_data_chunks_concat(header, body);
                lemma_joined_concat(data_chunks(header), data_chunks(body));
                assert(joined(data_chunks(body)) =~= framed(tag));
                assert(now =~= header_bytes + framed(tag));
                assert(played_media(results).drop_first() =~= played_media(later));
            },
            ClientResultModel::PlaybackAccepted => {
                let front = seq![
                    send(OutputModel::PublishStarted { connection_id: session.ids.next }),
                ];
                lemma_data_chunks_concat(front, header);
                assert(data_chunks(front) =~= Seq::<Seq<u8>>::empty());
                assert(data_chunks(script.ops) =~= data_chunks(header));
                assert(now =~= header_bytes);
            },
            _ => {
                assert(data_chunks(script.ops) =~= Seq::<Seq<u8>>::empty());
                assert(now =~= Seq::<u8>::empty());
            },
        }
        assert(joined(data_chunks(session.after_results(results).1)) =~= (if last.header_sent
            && !session.header_sent {
            FLV_HEADER@
        } else {
            Seq::empty()
        }) + framed_all(played_media(results)));
    }
}

/// A demuxer behind the source gets back the server's messages: the same
/// types, timestamps and payloads in the same order, script data among them,
/// with nothing left over.
pub proof fn law_played_messages_survive(session: PlayModel, results: Seq<ClientResultModel>)
    requires
        !session.header_sent,
        forall|i: int| 0 <= i < results.len() ==> session.continues(#[trigger] results[i]),
        all_media(played_media(results)),
    ensures
        ({
            let chunks = data_chunks(session.after_results(results).1);
            &&& DemuxModel::fresh().tags_all(chunks) == played_media(results)
            &&& DemuxModel::fresh().after_all(chunks).pending == Seq::<u8>::empty()
        }),
{
    let (last, ops) = session.after_results(results);
    let chunks = data_chunks(ops);
    law_playback_becomes_flv_stream(session, results);
    if last.header_sent {
        law_flv_stream_demuxes_to_its_tags(played_media(results), chunks);
    } else {
        assert(joined(chunks) =~= framed_all(played_media(results)));
        law_flv_header_is_optional(played_media(results), chunks);
    }
}

/// Playback is requested behind the whole batch that accepted the connection,
/// and only then: no result leads to the request, and the end of the batch
/// does exactly if the connection was accepted in it.
pub proof fn law_play_request_follows_the_whole_batch(
    session: PlayModel,
    results: Seq<ClientResultModel>,
)
    requires
        !session.play_requested,
    ensures
        forall|i: int|
            0 <= i < session.after_results(results).1.len() ==> !((
            #[trigger] session.after_results(results).1[i]).call is RequestPlayback),
        session.after_results(results).0.stream_key == session.stream_key,
        session.after_results(results).0.play_requested <==> results.contains(
            ClientResultModel::ConnectionAccepted,
        ),
        match session.after_results(results).0.after_batch().1 {
            Some(script) => results.contains(ClientResultModel::ConnectionAccepted)
                && script.ops.len() == 1 && script.ops[0].call == (CallModel::RequestPlayback {
                stream_key: session.stream_key,
            }),
            None => !results.contains(ClientResultModel::ConnectionAccepted),
        },
        !session.after_results(results).0.after_batch().0.play_requested,
{
    lemma_requests_wait(session, results);
}

proof fn lemma_requests_wait(session: PlayModel, results: Seq<ClientResultModel>)
    ensures
        forall|i: int|
            0 <= i < session.after_results(results).1.len() ==> !((
            #[trigger] session.after_results(results).1[i]).call is RequestPlayback),
        session.after_results(results).0.stream_key == session.stream_key,
        session.after_results(results).0.play_requested <==> session.play_requested
            || results.contains(ClientResultModel::ConnectionAccepted),
    decreases results.len(),
{
    if results.len() > 0 {
        let (next, script) = session.after_result(results[0]);
        let later = results.drop_first();
        lemma_requests_wait(next, later);
        let accepted = ClientResultModel::ConnectionAccepted;
        if results[0] == accepted {
            assert(results.contains(accepted));
        }
        if later.contains(accepted) {
            let i = choose|i: int| 0 <= i < later.len() && later[i] == accepted;
            assert(results[i + 1] == accepted);
        }
        if results.contains(accepted) && results[0] != accepted {
            let i = choose|i: int| 0 <= i < results.len() && results[i] == accepted;
            assert(later[i - 1] == accepted);
        }
        let ops = session.after_results(results).1;
        let tail = next.after_results(later).1;
        assert forall|i: int| 0 <= i < ops.len() implies !((#[trigger] ops[i]).call is
            RequestPlayback) by {
            if i >= script.ops.len() {
                assert(ops[i] == tail[i - script.ops.len()]);
            } else {
                assert(ops[i] == script.ops[i]);
            }
        }
    }
}

/// With `reconnect`, neither a clean end nor a lost server ends the stream:
/// the worker pauses and plays again.
pub proof fn law_playback_resumes(
    worker: PlayWorker,
    result: Result<bool, SessionFailure>,
    ids: PublishIds,
)
    requires
        worker.reconnect,
        result matches Err(failure) ==> failure.client_disconnect,
    ensures
        worker.stepped(PlayWorkerEvent::Played { result, ids }).1 matches PlayWorkerActionModel::Run(
            script,
        ) && script.conclusion == ConclusionModel::Continue,
        worker.stepped(PlayWorkerEvent::ScriptOver(Conclusion::Continue)).1
            == PlayWorkerActionModel::Wait,
        worker.stepped(PlayWorkerEvent::Waited { undisturbed: true }).1 == (
        PlayWorkerActionModel::Play { ids: worker.ids }),
{
}

/// A server ends playback with one of three statuses, and with no other.
pub proof fn law_three_statuses_end_playback(session: PlayModel, code: Seq<char>)
    ensures
        ({
            let (next, script) = session.after_result(ClientResultModel::Status { code });
            &&& next == session
            &&& script.ops.len() == 0
            &&& script.conclusion == if code == "NetStream.Play.Stop"@ || code
                == "NetStream.Play.UnpublishNotify"@ || code == "NetStream.Play.Complete"@ {
                ConclusionModel::Finished
            } else {
                ConclusionModel::Continue
            }
        }),
{
}

/// When playback is accepted, its start is announced under the next id and the
/// FLV header goes out if it has not; every message then goes out as its own
/// framed tag; a rejected connection fails with the server's reason; and what
/// needs no answer gets none.
pub proof fn law_playback_answers_each_result(
    session: PlayModel,
    description: Seq<char>,
    tag: TagModel,
)
    ensures
        ({
            let (next, script) = session.after_result(ClientResultModel::PlaybackAccepted);
            let sent = |op: OpModel, output: OutputModel|
                op.call == CallModel::Send(output) && op.policy.closed == Some(
                    "listener is shutting down"@,
                );
            &&& next.header_sent
            &&& next.ids == session.ids.started()
            &&& next.stream_key == session.stream_key
            &&& next.play_requested == session.play_requested
            &&& sent(
                script.ops[0],
                OutputModel::PublishStarted { connection_id: session.ids.next },
            )
            &&& session.header_sent ==> script.ops.len() == 1
            &&& !session.header_sent ==> script.ops.len() == 2 && sent(
                script.ops[1],
                OutputModel::Data(FLV_HEADER@),
            )
            &&& script.conclusion == ConclusionModel::Continue
        }),
        ({
            let (next, script) = session.after_result(ClientResultModel::Media(tag));
            &&& next == (PlayModel { header_sent: true, ..session })
            &&& tag.payload.len() < 0x100_0000 ==> script.conclusion == ConclusionModel::Continue
                && script.ops.last().call == CallModel::Send(OutputModel::Data(framed(tag)))
                && script.ops.len() == if session.header_sent {
                1int
            } else {
                2int
            }
            &&& !session.header_sent ==> script.ops[0].call == CallModel::Send(
                OutputModel::Data(FLV_HEADER@),
            )
        }),
        ({
            let (next, script) = session.after_result(
                ClientResultModel::ConnectionRejected { description },
            );
            next == session && script.ops.len() == 0 && script.conclusion
                == ConclusionModel::Failed(
                FailureModel {
                    message: "RTMP server rejected connection: "@ + description,
                    client_disconnect: false,
                },
            )
        }),
        ({
            let (next, script) = session.after_result(ClientResultModel::ConnectionAccepted);
            next == (PlayModel { play_requested: true, ..session }) && script.ops.len() == 0
                && script.conclusion == ConclusionModel::Continue
        }),
        ({
            let (next, script) = session.after_result(ClientResultModel::PublishAccepted);
            next == session && script.ops.len() == 0 && script.conclusion
                == ConclusionModel::Continue
        }),
        ({
            let (next, script) = session.after_result(ClientResultModel::Ignored);
            next == session && script.ops.len() == 0 && script.conclusion
                == ConclusionModel::Continue
        }),
{
}

/// When the batch that accepted the connection ends, the source makes exactly
/// one call: it asks for its own stream key, character for character, and minds
/// a refusal. Without an acceptance it reads on.
pub proof fn law_playback_asks_for_its_stream_key(session: PlayModel)
    ensures
        ({
            let (next, action) = session.step(PlayEventModel::NoMoreResults);
            &&& next == (PlayModel { play_requested: false, ..session })
            &&& session.play_requested ==> (action matches ServeActionModel::Run(script)
                && script.ops.len() == 1 && script.ops[0].call == (CallModel::RequestPlayback {
                stream_key: session.stream_key,
            }) && script.ops[0].policy.closed is None && script.ops[0].policy.refused == Some(
                "failed to request RTMP playback"@,
            ) && script.ops[0].policy.on_write == OnWrite::Fail && script.conclusion
                == ConclusionModel::Continue)
            &&& !session.play_requested ==> action == ServeActionModel::Read
        }),
{
}

/// Nothing that happens changes which stream is asked for.
pub proof fn law_events_keep_the_played_stream(session: PlayModel, event: PlayEventModel)
    ensures
        session.step(event).0.stream_key == session.stream_key,
        session.header_sent ==> session.step(event).0.header_sent,
{
}

/// A connection to a server feeds its session every byte that came, those behind
/// the handshake first, takes all results of one input before it reads on, and
/// ends with what a script or a read ends it with.
pub proof fn law_playback_goes_step_by_step(
    session: PlayModel,
    bytes: Seq<u8>,
    failure: FailureModel,
    text: Seq<char>,
    result: ClientResultModel,
    cancelled: bool,
    graceful: bool,
)
    requires
        bytes.len() > 0,
    ensures
        session.step(PlayEventModel::Opened { carry: bytes }) == (
            session,
            ServeActionModel::Feed(bytes),
        ),
        session.step(PlayEventModel::Opened { carry: Seq::empty() }) == (
            session,
            ServeActionModel::Read,
        ),
        session.step(PlayEventModel::Fed) == (session, ServeActionModel::NextResult),
        session.step(PlayEventModel::FeedRefused(text)).1 == ServeActionModel::Return(
            Err(
                FailureModel {
                    message: "server sent unreadable RTMP: "@ + text,
                    client_disconnect: false,
                },
            ),
        ),
        session.step(PlayEventModel::Result(result)) == (
            session.after_result(result).0,
            ServeActionModel::Run(session.after_result(result).1),
        ),
        session.step(PlayEventModel::ScriptOver(ConclusionModel::Continue)) == (
            session,
            ServeActionModel::NextResult,
        ),
        session.step(PlayEventModel::ScriptOver(ConclusionModel::Finished)).1
            == ServeActionModel::Return(Ok(true)),
        session.step(PlayEventModel::ScriptOver(ConclusionModel::Failed(failure))).1
            == ServeActionModel::Return(Err(failure)),
        session.step(
            PlayEventModel::Read { outcome: ReadModel::Received(bytes), cancelled, graceful },
        ) == (session, ServeActionModel::Feed(bytes)),
        session.step(
            PlayEventModel::Read {
                outcome: ReadModel::Received(Seq::empty()),
                cancelled,
                graceful,
            },
        ).1 == ServeActionModel::Return(Ok(false)),
{
}

/// When a read fails, playback ends with that failure; if the worker was asked to
/// stop gracefully, the sending side is closed before.
pub proof fn law_graceful_stop_closes_the_connection(
    session: PlayModel,
    outcome: ReadModel,
    cancelled: bool,
    graceful: bool,
)
    requires
        !(outcome is Received),
    ensures
        session_read(outcome) is Err,
        ({
            let failure = session_read(outcome)->Err_0;
            let action = session.step(PlayEventModel::Read { outcome, cancelled, graceful }).1;
            if cancelled && graceful {
                action matches ServeActionModel::Run(script) && script.ops.len() == 1
                    && script.ops[0].call == CallModel::ShutDown && script.ops[0].policy.on_write
                    == OnWrite::Ignore && script.ops[0].policy.closed is None
                    && script.ops[0].policy.refused is None && script.conclusion
                    == ConclusionModel::Failed(failure)
            } else {
                action == ServeActionModel::Return(Err(failure))
            }
        }),
{
}

/// A playing worker reports before it connects, and after a connection either
/// winds up for good or, with `reconnect`, pauses and plays again under the ids
/// that are left, unless it is asked to stop.
pub proof fn law_playing_worker_goes_round(
    worker: PlayWorker,
    reason: String,
    result: Result<bool, SessionFailure>,
    ids: PublishIds,
)
    ensures
        worker.stepped(PlayWorkerEvent::RuntimeFailed(reason)).1
            == PlayWorkerActionModel::ReportFailure("Failed to create Tokio runtime: "@ + reason@),
        worker.stepped(PlayWorkerEvent::Ready).1 == PlayWorkerActionModel::ReportReady,
        worker.stepped(PlayWorkerEvent::Reported { heard: true }).1 == (
        PlayWorkerActionModel::Play { ids: worker.ids }),
        worker.stepped(PlayWorkerEvent::Reported { heard: false }).1 == PlayWorkerActionModel::Stop,
        worker.stepped(PlayWorkerEvent::ScriptOver(Conclusion::Continue)).1
            == PlayWorkerActionModel::Wait,
        worker.stepped(PlayWorkerEvent::ScriptOver(Conclusion::Finished)).1
            == PlayWorkerActionModel::Stop,
        worker.stepped(PlayWorkerEvent::Waited { undisturbed: true }).1 == (
        PlayWorkerActionModel::Play { ids: worker.ids }),
        worker.stepped(PlayWorkerEvent::Waited { undisturbed: false }).1
            == PlayWorkerActionModel::Stop,
        worker.stepped(PlayWorkerEvent::Played { result, ids }) == (
            PlayWorker { ids: PublishIds { next: ids.next, current: 0 }, ..worker },
            PlayWorkerActionModel::Run(
                after_connection(
                    worker.reconnect,
                    ids.current,
                    match result {
                        Ok(clean) => Ok(clean),
                        Err(failure) => Err(
                            FailureModel {
                                message: failure.message@,
                                client_disconnect: failure.client_disconnect,
                            },
                        ),
                    },
                    "RTMP server closed the connection"@,
                    "RTMP play session failed: "@,
                ),
            ),
        ),
{
}

/// Nothing but the end of a connection touches the worker: its ids and whether
/// it plays again stay as they were.
pub proof fn law_playing_worker_keeps_its_ids(worker: PlayWorker, event: PlayWorkerEvent)
    ensures
        worker.stepped(event).0.reconnect == worker.reconnect,
        !(event is Played) ==> worker.stepped(event).0 == worker,
{
}

/// What happens during playback is told as it is.
pub proof fn law_play_events_show_their_fields(
    bytes: Vec<u8>,
    text: String,
    result: ClientSessionResult,
    conclusion: Conclusion,
    outcome: ReadOutcome,
    cancelled: bool,
    graceful: bool,
    ids: PublishIds,
    script: Script,
)
    ensures
        (PlayEvent::Opened { carry: bytes })@ == (PlayEventModel::Opened { carry: bytes@ }),
        PlayEvent::Fed@ == PlayEventModel::Fed,
        PlayEvent::FeedRefused(text)@ == PlayEventModel::FeedRefused(text@),
        PlayEvent::Result(result)@ == PlayEventModel::Result(result@),
        PlayEvent::NoMoreResults@ == PlayEventModel::NoMoreResults,
        PlayEvent::ScriptOver(conclusion)@ == PlayEventModel::ScriptOver(conclusion@),
        (PlayEvent::Read { outcome, cancelled, graceful })@ == (PlayEventModel::Read {
            outcome: outcome@,
            cancelled,
            graceful,
        }),
        PlayWorkerAction::ReportFailure(text)@ == PlayWorkerActionModel::ReportFailure(text@),
        PlayWorkerAction::ReportReady@ == PlayWorkerActionModel::ReportReady,
        (PlayWorkerAction::Play { ids })@ == (PlayWorkerActionModel::Play { ids }),
        PlayWorkerAction::Run(script)@ == PlayWorkerActionModel::Run(script@),
        PlayWorkerAction::Wait@ == PlayWorkerActionModel::Wait,
        PlayWorkerAction::Stop@ == PlayWorkerActionModel::Stop,
{
}

/// A worker whose script did not run through stops, for every other conclusion
/// than to continue.
pub proof fn law_playing_worker_stops_for_good(worker: PlayWorker, conclusion: Conclusion)
    requires
        !(conclusion is Continue),
    ensures
        worker.stepped(PlayWorkerEvent::ScriptOver(conclusion)) == (
            worker,
            PlayWorkerActionModel::Stop,
        ),
{
}

} // verus!
