//! The sink in publish mode: an FLV stream becomes publish messages.

use vstd::prelude::*;
use vstd::string::*;

use crate::flv::tag_models;
use crate::flv::law_only_media_tags_come_out;
use crate::flv::DemuxModel;
use crate::flv::FlvDemux;
use crate::flv::FlvTag;
use crate::flv::TagModel;
use crate::flv::FLV_TAG_AUDIO;
use crate::flv::FLV_TAG_SCRIPT_DATA;
use crate::flv::FLV_TAG_VIDEO;
use crate::link::read_session_chunk;
use crate::link::session_read;
use crate::link::ReadModel;
use crate::link::ReadOutcome;
use crate::script::anyway;
use crate::script::ask;
use crate::script::nothing;
use crate::script::write_out;
use crate::script::Call;
use crate::script::CallModel;
use crate::script::OnWrite;
use crate::script::Op;
use crate::script::OpModel;
use crate::script::Policy;
use crate::script::PolicyModel;
use crate::script::Script;
use crate::script::ScriptModel;
use crate::script::Conclusion;
use crate::script::ConclusionModel;
use crate::session::ClientResultModel;
use crate::session::ClientSessionEvent;
use crate::session::ClientSessionResult;
use crate::text::join2;
use crate::worker::disconnected;
use crate::worker::failed;
use crate::worker::FailureModel;
use crate::worker::SessionFailure;

verus! {

/// What is said when a tag of a type cannot be turned into a message; `None`
/// for types that are not published.
pub open spec fn publish_refusal(tag_type: u8) -> Option<Seq<char>> {
    if tag_type == FLV_TAG_AUDIO {
        Some("failed to publish audio data"@)
    } else if tag_type == FLV_TAG_VIDEO {
        Some("failed to publish video data"@)
    } else if tag_type == FLV_TAG_SCRIPT_DATA {
        Some("failed to publish script data"@)
    } else {
        None
    }
}

/// The call that publishes a tag; none for types that are not published.
pub open spec fn publish_ops_of(tag: TagModel) -> Seq<OpModel> {
    match publish_refusal(tag.tag_type) {
        Some(refused) => seq![ask(CallModel::Publish(tag), refused, OnWrite::Ignore)],
        None => Seq::empty(),
    }
}

/// The calls that publish several tags.
pub open spec fn publish_ops(tags: Seq<TagModel>) -> Seq<OpModel>
    decreases tags.len(),
{
    if tags.len() == 0 {
        Seq::empty()
    } else {
        publish_ops(tags.drop_last()) + publish_ops_of(tags.last())
    }
}

/// Publishing several tags: each becomes a message, then all messages are
/// written at once. Without a message nothing is written.
pub open spec fn publish_script(tags: Seq<TagModel>) -> ScriptModel {
    let ops = publish_ops(tags);
    ScriptModel {
        ops: if ops.len() > 0 {
            ops.push(
                OpModel {
                    call: CallModel::WritePublished,
                    policy: PolicyModel { closed: None, refused: None, on_write: OnWrite::Fail },
                },
            )
        } else {
            ops
        },
        conclusion: ConclusionModel::Continue,
    }
}

/// Turns demuxed FLV tags into publish messages: audio, video and script data
/// each by their own call.
pub fn publish_flv_tags(tags: Vec<FlvTag>) -> (script: Script)
    ensures
        script@ == publish_script(tag_models(tags@)),
{
    let ghost models = tag_models(tags@);
    let mut script: Script = Script::ending(Conclusion::Continue);
    assert(publish_ops(models.take(0)) =~= Seq::<OpModel>::empty());
    for i in 0..tags.len()
        invariant
            models == tag_models(tags@),
            script@.conclusion == ConclusionModel::Continue,
            script@.ops == publish_ops(models.take(i as int)),
    {
        assert(models.take(i + 1).drop_last() =~= models.take(i as int));
        let tag: &FlvTag = &tags[i];
        let ghost sofar = script@.ops;
        let refused: Option<&str> = match tag.tag_type {
            FLV_TAG_AUDIO => Some("failed to publish audio data"),
            FLV_TAG_VIDEO => Some("failed to publish video data"),
            FLV_TAG_SCRIPT_DATA => Some("failed to publish script data"),
            _ => None,
        };
        if let Some(refused) = refused {
            script.push(Op::ask(Call::Publish(tag.clone()), refused, OnWrite::Ignore));
        }
        assert(script@.ops =~= sofar + publish_ops_of(tag@));
    }
    assert(models.take(models.len() as int) =~= models);
    assert(script.ops.len() == script@.ops.len());
    if script.ops.len() > 0 {
        script.push(
            Op {
                call: Call::WritePublished,
                policy: Policy { closed: None, refused: None, on_write: OnWrite::Fail },
            },
        );
    }
    script
}

/// How far a publishing connection has come.
#[derive(Debug, Clone, Copy, PartialEq, Eq, Structural)]
pub enum PublishStage {
    /// The connection is requested.
    Connecting,
    /// The connection is accepted, publishing is requested.
    Requesting,
    /// Publishing is accepted.
    Publishing,
}

/// A connection that publishes.
pub struct PublishingConnection {
    stage: PublishStage,
    accepted: bool,
    stream_key: String,
    demux: FlvDemux,
}

/// A connection that publishes, as plain mathematics.
#[verifier::ext_equal]
pub struct PublishingModel {
    pub stage: PublishStage,
    /// Whether what was requested was accepted during the current batch.
    pub accepted: bool,
    pub stream_key: Seq<char>,
    pub demux: DemuxModel,
}

impl View for PublishingConnection {
    type V = PublishingModel;

    closed spec fn view(&self) -> PublishingModel {
        PublishingModel {
            stage: self.stage,
            accepted: self.accepted,
            stream_key: self.stream_key@,
            demux: self.demux@,
        }
    }
}

/// What has just happened on a connection that publishes.
#[derive(Debug)]
pub enum PublishEvent {
    /// The connection is requested, and these bytes came already.
    Opened { carry: Vec<u8> },
    /// The session took its input.
    Fed,
    /// The session refused its input, and why.
    FeedRefused(String),
    /// The session's next result.
    Result(ClientSessionResult),
    /// The session has no further result.
    NoMoreResults,
    /// A script is over.
    ScriptOver(Conclusion),
    /// A read ended.
    Read(ReadOutcome),
    /// The element has more FLV bytes.
    Data(Vec<u8>),
    /// The element has no more FLV bytes.
    DataOver,
    /// The worker was asked to stop.
    Cancelled,
}

/// What has just happened, as plain mathematics.
#[verifier::ext_equal]
pub enum PublishEventModel {
    Opened { carry: Seq<u8> },
    Fed,
    FeedRefused(Seq<char>),
    Result(ClientResultModel),
    NoMoreResults,
    ScriptOver(ConclusionModel),
    Read(ReadModel),
    Data(Seq<u8>),
    DataOver,
    Cancelled,
}

impl View for PublishEvent {
    type V = PublishEventModel;

    open spec fn view(&self) -> PublishEventModel {
        match self {
            PublishEvent::Opened { carry } => PublishEventModel::Opened { carry: carry@ },
            PublishEvent::Fed => PublishEventModel::Fed,
            PublishEvent::FeedRefused(reason) => PublishEventModel::FeedRefused(reason@),
            PublishEvent::Result(result) => PublishEventModel::Result(result@),
            PublishEvent::NoMoreResults => PublishEventModel::NoMoreResults,
            PublishEvent::ScriptOver(conclusion) => PublishEventModel::ScriptOver(conclusion@),
            PublishEvent::Read(outcome) => PublishEventModel::Read(outcome@),
            PublishEvent::Data(bytes) => PublishEventModel::Data(bytes@),
            PublishEvent::DataOver => PublishEventModel::DataOver,
            PublishEvent::Cancelled => PublishEventModel::Cancelled,
        }
    }
}

/// What to do next on a connection that publishes.
#[derive(Debug)]
pub enum PublishAction {
    /// Feed these bytes to the session.
    Feed(Vec<u8>),
    /// Take the session's next result.
    NextResult,
    /// Run this script.
    Run(Script),
    /// Read from the socket.
    Read,
    /// Wait for FLV bytes, for input, or for the request to stop.
    Wait,
    /// The connection is over.
    Return(Result<(), SessionFailure>),
}

/// What to do next, as plain mathematics.
#[verifier::ext_equal]
pub enum PublishActionModel {
    Feed(Seq<u8>),
    NextResult,
    Run(ScriptModel),
    Read,
    Wait,
    Return(Option<FailureModel>),
}

impl View for PublishAction {
    type V = PublishActionModel;

    open spec fn view(&self) -> PublishActionModel {
        match self {
            PublishAction::Feed(bytes) => PublishActionModel::Feed(bytes@),
            PublishAction::NextResult => PublishActionModel::NextResult,
            PublishAction::Run(script) => PublishActionModel::Run(script@),
            PublishAction::Read => PublishActionModel::Read,
            PublishAction::Wait => PublishActionModel::Wait,
            PublishAction::Return(result) => PublishActionModel::Return(
                match result {
                    Ok(_) => None,
                    Err(failure) => Some(failure@),
                },
            ),
        }
    }
}

/// What is said when the server closes the connection.
pub open spec fn closed_while(stage: PublishStage) -> Seq<char> {
    match stage {
        PublishStage::Connecting => "RTMP server closed the connection while connecting"@,
        PublishStage::Requesting => "RTMP server closed the connection while requesting publish"@,
        PublishStage::Publishing => "RTMP server closed the connection"@,
    }
}

/// The request to publish a stream.
pub open spec fn publish_request(stream_key: Seq<char>) -> ScriptModel {
    ScriptModel {
        ops: seq![
            ask(
                CallModel::RequestPublish { stream_key },
                "failed to request RTMP publish"@,
                OnWrite::Fail,
            ),
        ],
        conclusion: ConclusionModel::Continue,
    }
}

/// The report that publishing has started.
pub open spec fn start_report() -> ScriptModel {
    ScriptModel {
        ops: seq![
            OpModel {
                call: CallModel::ReportStarted,
                policy: PolicyModel {
                    closed: Some("sink is shutting down"@),
                    refused: None,
                    on_write: OnWrite::Ignore,
                },
            },
        ],
        conclusion: ConclusionModel::Continue,
    }
}

/// The end of publishing.
pub open spec fn stop_script(conclusion: ConclusionModel) -> ScriptModel {
    ScriptModel {
        ops: seq![anyway(CallModel::StopPublishing), anyway(CallModel::ShutDown)],
        conclusion,
    }
}

impl PublishingModel {
    /// What one session result leads to. Whatever the stage, outbound packets
    /// are written; an acceptance is only noted, so that the rest of the batch
    /// is written before anything follows from it.
    pub open spec fn after_result(self, result: ClientResultModel) -> (
        PublishingModel,
        ScriptModel,
    ) {
        match (self.stage, result) {
            (_, ClientResultModel::Outbound(packet)) => (
                self,
                ScriptModel { ops: seq![write_out(packet)], conclusion: ConclusionModel::Continue },
            ),
            (PublishStage::Connecting, ClientResultModel::ConnectionAccepted) => (
                PublishingModel { accepted: true, ..self },
                nothing(),
            ),
            (PublishStage::Connecting, ClientResultModel::ConnectionRejected { description }) => (
                self,
                ScriptModel {
                    ops: Seq::empty(),
                    conclusion: ConclusionModel::Failed(
                        failed("RTMP server rejected connection: "@ + description),
                    ),
                },
            ),
            (PublishStage::Requesting, ClientResultModel::PublishAccepted) => (
                PublishingModel { accepted: true, ..self },
                nothing(),
            ),
            (PublishStage::Requesting, ClientResultModel::ConnectionRejected { description }) => (
                self,
                ScriptModel {
                    ops: Seq::empty(),
                    conclusion: ConclusionModel::Failed(
                        failed("RTMP server rejected publish: "@ + description),
                    ),
                },
            ),
            _ => (self, nothing()),
        }
    }

    /// What the end of a batch of results leads to.
    pub open spec fn after_batch(self) -> (PublishingModel, PublishActionModel) {
        match self.stage {
            PublishStage::Connecting => if self.accepted {
                (
                    PublishingModel { stage: PublishStage::Requesting, accepted: false, ..self },
                    PublishActionModel::Run(publish_request(self.stream_key)),
                )
            } else {
                (self, PublishActionModel::Read)
            },
            PublishStage::Requesting => if self.accepted {
                (
                    PublishingModel { stage: PublishStage::Publishing, accepted: false, ..self },
                    PublishActionModel::Run(start_report()),
                )
            } else {
                (self, PublishActionModel::Read)
            },
            PublishStage::Publishing => (self, PublishActionModel::Wait),
        }
    }

    /// The next state and action after an event.
    pub open spec fn step(self, event: PublishEventModel) -> (PublishingModel, PublishActionModel) {
        match event {
            PublishEventModel::Opened { carry } => (
                self,
                if carry.len() > 0 {
                    PublishActionModel::Feed(carry)
                } else {
                    PublishActionModel::Read
                },
            ),
            PublishEventModel::Fed => (self, PublishActionModel::NextResult),
            PublishEventModel::FeedRefused(reason) => (
                self,
                PublishActionModel::Return(Some(failed("server sent unreadable RTMP: "@ + reason))),
            ),
            PublishEventModel::Result(result) => {
                let (next, script) = self.after_result(result);
                (next, PublishActionModel::Run(script))
            },
            PublishEventModel::NoMoreResults => self.after_batch(),
            PublishEventModel::ScriptOver(conclusion) => (
                self,
                match conclusion {
                    ConclusionModel::Finished => PublishActionModel::Return(None),
                    ConclusionModel::Failed(failure) => PublishActionModel::Return(Some(failure)),
                    _ => PublishActionModel::NextResult,
                },
            ),
            PublishEventModel::Read(outcome) => (
                self,
                match session_read(outcome) {
                    Ok(bytes) => if bytes.len() == 0 {
                        PublishActionModel::Return(Some(disconnected(closed_while(self.stage))))
                    } else {
                        PublishActionModel::Feed(bytes)
                    },
                    Err(failure) => PublishActionModel::Return(Some(failure)),
                },
            ),
            PublishEventModel::Data(chunk) => (
                PublishingModel { demux: self.demux.after(chunk), ..self },
                PublishActionModel::Run(publish_script(self.demux.tags(chunk))),
            ),
            PublishEventModel::DataOver => (
                self,
                PublishActionModel::Run(stop_script(ConclusionModel::Finished)),
            ),
            PublishEventModel::Cancelled => (
                self,
                PublishActionModel::Run(
                    stop_script(ConclusionModel::Failed(failed("sink is shutting down"@))),
                ),
            ),
        }
    }
}

/// The end of publishing.
fn stopping(conclusion: Conclusion) -> (script: Script)
    ensures
        script@ == stop_script(conclusion@),
{
    let mut script: Script = Script::ending(conclusion);
    script.push(Op::anyway(Call::StopPublishing));
    script.push(Op::anyway(Call::ShutDown));
    assert(script@.ops =~= stop_script(conclusion@).ops);
    script
}

impl PublishingConnection {
    /// A connection that has been requested.
    pub fn new(stream_key: String) -> (connection: PublishingConnection)
        ensures
            connection@ == (PublishingModel {
                stage: PublishStage::Connecting,
                accepted: false,
                stream_key: stream_key@,
                demux: DemuxModel::fresh(),
            }),
    {
        PublishingConnection {
            stage: PublishStage::Connecting,
            accepted: false,
            stream_key,
            demux: FlvDemux::default(),
        }
    }

    /// Takes note of a result while the connection is requested or while
    /// publishing is.
    fn drain_result(&mut self, result: ClientSessionResult) -> (script: Script)
        ensures
            (final(self)@, script@) == old(self)@.after_result(result@),
    {
        let event: ClientSessionEvent = match result {
            ClientSessionResult::OutboundResponse(packet) => {
                return Script::one(Op::write(packet));
            },
            ClientSessionResult::RaisedEvent(event) => event,
            ClientSessionResult::UnhandleableMessageReceived => {
                return Script::ending(Conclusion::Continue);
            },
        };
        match (self.stage, event) {
            (PublishStage::Connecting, ClientSessionEvent::ConnectionRequestAccepted) => {
                self.accepted = true;
                Script::ending(Conclusion::Continue)
            },
            (
                PublishStage::Connecting,
                ClientSessionEvent::ConnectionRequestRejected { description },
            ) => Script::ending(
                Conclusion::Failed(
                    SessionFailure::error(
                        join2("RTMP server rejected connection: ", description.as_str()),
                    ),
                ),
            ),
            (PublishStage::Requesting, ClientSessionEvent::PublishRequestAccepted) => {
                self.accepted = true;
                Script::ending(Conclusion::Continue)
            },
            (
                PublishStage::Requesting,
                ClientSessionEvent::ConnectionRequestRejected { description },
            ) => Script::ending(
                Conclusion::Failed(
                    SessionFailure::error(
                        join2("RTMP server rejected publish: ", description.as_str()),
                    ),
                ),
            ),
            _ => Script::ending(Conclusion::Continue),
        }
    }

    fn finish_batch(&mut self) -> (action: PublishAction)
        ensures
            (final(self)@, action@) == old(self)@.after_batch(),
    {
        match self.stage {
            PublishStage::Connecting => {
                if !self.accepted {
                    return PublishAction::Read;
                }
                self.stage = PublishStage::Requesting;
                self.accepted = false;
                PublishAction::Run(
                    Script::one(
                        Op::ask(
                            Call::RequestPublish { stream_key: self.stream_key.clone() },
                            "failed to request RTMP publish",
                            OnWrite::Fail,
                        ),
                    ),
                )
            },
            PublishStage::Requesting => {
                if !self.accepted {
                    return PublishAction::Read;
                }
                self.stage = PublishStage::Publishing;
                self.accepted = false;
                PublishAction::Run(
                    Script::one(
                        Op {
                            call: Call::ReportStarted,
                            policy: Policy {
                                closed: Some("sink is shutting down".to_owned()),
                                refused: None,
                                on_write: OnWrite::Ignore,
                            },
                        },
                    ),
                )
            },
            PublishStage::Publishing => PublishAction::Wait,
        }
    }

    /// Publishes one FLV stream to its end: takes in what happened and says
    /// what to do next.
    pub fn publish_until_done(&mut self, event: PublishEvent) -> (action: PublishAction)
        ensures
            (final(self)@, action@) == old(self)@.step(event@),
    {
        match event {
            PublishEvent::Opened { carry } => {
                if carry.len() > 0 {
                    PublishAction::Feed(carry)
                } else {
                    PublishAction::Read
                }
            },
            PublishEvent::Fed => PublishAction::NextResult,
            PublishEvent::FeedRefused(reason) => PublishAction::Return(
                Err(
                    SessionFailure::error(join2("server sent unreadable RTMP: ", reason.as_str())),
                ),
            ),
            PublishEvent::Result(result) => PublishAction::Run(self.drain_result(result)),
            PublishEvent::NoMoreResults => self.finish_batch(),
            PublishEvent::ScriptOver(conclusion) => match conclusion {
                Conclusion::Finished => PublishAction::Return(Ok(())),
                Conclusion::Failed(failure) => PublishAction::Return(Err(failure)),
                _ => PublishAction::NextResult,
            },
            PublishEvent::Read(outcome) => match read_session_chunk(outcome) {
                Ok(bytes) => {
                    if bytes.len() == 0 {
                        let message: &str = match self.stage {
                            PublishStage::Connecting =>
                                "RTMP server closed the connection while connecting",
                            PublishStage::Requesting =>
                                "RTMP server closed the connection while requesting publish",
                            PublishStage::Publishing => "RTMP server closed the connection",
                        };
                        PublishAction::Return(Err(SessionFailure::disconnect(message.to_owned())))
                    } else {
                        PublishAction::Feed(bytes)
                    }
                },
                Err(failure) => PublishAction::Return(Err(failure)),
            },
            PublishEvent::Data(chunk) => {
                let tags: Vec<FlvTag> = self.demux.push(chunk.as_slice());
                PublishAction::Run(publish_flv_tags(tags))
            },
            PublishEvent::DataOver => PublishAction::Run(stopping(Conclusion::Finished)),
            PublishEvent::Cancelled => PublishAction::Run(
                stopping(
                    Conclusion::Failed(SessionFailure::error("sink is shutting down".to_owned())),
                ),
            ),
        }
    }
}

/// How a sink worker ended.
#[derive(Debug)]
pub enum SinkEnd {
    /// There is no runtime, and why.
    RuntimeFailed(String),
    /// The bound socket could not be taken over, and why.
    ListenerFailed(String),
    /// The work ended.
    Over(Result<(), SessionFailure>),
}

/// What a sink worker leaves behind: the failure that every later buffer is
/// answered with. Whoever still waits for the worker to start is told the same.
pub open spec fn sticky_failure(end: SinkEnd) -> Option<Seq<char>> {
    match end {
        SinkEnd::RuntimeFailed(reason) => Some("Failed to create Tokio runtime: "@ + reason@),
        SinkEnd::ListenerFailed(reason) => Some(
            "Failed to initialize Tokio RTMP listener: "@ + reason@,
        ),
        SinkEnd::Over(Ok(_)) => None,
        SinkEnd::Over(Err(failure)) => Some(failure.message@),
    }
}

/// What a sink worker leaves behind.
pub fn run_publish_worker(end: SinkEnd) -> (sticky: Option<String>)
    ensures
        crate::text::opt_text(sticky) == sticky_failure(end),
{
    match end {
        SinkEnd::RuntimeFailed(reason) => Some(
            join2("Failed to create Tokio runtime: ", reason.as_str()),
        ),
        SinkEnd::ListenerFailed(reason) => Some(
            join2("Failed to initialize Tokio RTMP listener: ", reason.as_str()),
        ),
        SinkEnd::Over(Ok(_)) => None,
        SinkEnd::Over(Err(failure)) => Some(failure.message),
    }
}

/// The tags that a list of calls publishes, in order.
pub open spec fn published(ops: Seq<OpModel>) -> Seq<TagModel>
    decreases ops.len(),
{
    if ops.len() == 0 {
        Seq::empty()
    } else {
        let front = published(ops.drop_last());
        match ops.last().call {
            CallModel::Publish(tag) => front.push(tag),
            _ => front,
        }
    }
}

proof fn lemma_publish_ops_publish(tags: Seq<TagModel>)
    requires
        forall|i: int| 0 <= i < tags.len() ==> publish_refusal((#[trigger] tags[i]).tag_type) is Some,
    ensures
        published(publish_ops(tags)) == tags,
    decreases tags.len(),
{
    if tags.len() == 0 {
        assert(published(publish_ops(tags)) =~= tags);
    } else {
        let front = tags.drop_last();
        assert forall|i: int| 0 <= i < front.len() implies publish_refusal(
            (#[trigger] front[i]).tag_type,
        ) is Some by {
            assert(front[i] == tags[i]);
        }
        lemma_publish_ops_publish(front);
        let ops = publish_ops(tags);
        assert(publish_refusal(tags[tags.len() - 1].tag_type) is Some);
        assert(ops.drop_last() =~= publish_ops(front));
        assert(published(ops) =~= tags);
    }
}

/// Every tag of the incoming stream is published, with its type, timestamp and
/// payload, in order, as soon as it is complete; nothing else is.
pub proof fn law_every_tag_is_published(connection: PublishingModel, chunk: Seq<u8>)
    ensures
        ({
            let (next, action) = connection.step(PublishEventModel::Data(chunk));
            &&& next.demux == connection.demux.after(chunk)
            &&& action matches PublishActionModel::Run(script) && published(script.ops)
                == connection.demux.tags(chunk) && script.conclusion == ConclusionModel::Continue
        }),
{
    let tags = connection.demux.tags(chunk);
    match connection.demux.tag_bytes(chunk) {
        Some(bytes) => {
            law_only_media_tags_come_out(bytes);
        },
        None => {},
    }
    lemma_publish_ops_publish(tags);
    let ops = publish_script(tags).ops;
    if publish_ops(tags).len() > 0 {
        assert(ops.drop_last() =~= publish_ops(tags));
    }
}

/// Nothing is acted on before the whole batch is drained: an acceptance leads
/// to no call by itself, every outbound packet is written whatever else the
/// batch holds, and the next request comes only with the end of the batch.
pub proof fn law_acceptance_waits_for_the_whole_batch(
    connection: PublishingModel,
    result: ClientResultModel,
)
    ensures
        ({
            let (next, script) = connection.after_result(result);
            &&& next.stage == connection.stage
            &&& match result {
                ClientResultModel::Outbound(packet) => script.ops == seq![write_out(packet)]
                    && script.conclusion == ConclusionModel::Continue,
                _ => script.ops.len() == 0,
            }
        }),
        connection.after_batch().0.stage != connection.stage ==> connection.accepted,
{
}

/// FLV data is waited for, and so published, only once the server accepted the
/// publish: the wait begins in no other stage, and a stage is left only when
/// what it requested was accepted.
pub proof fn law_nothing_is_published_before_acceptance(
    connection: PublishingModel,
    event: PublishEventModel,
)
    ensures
        ({
            let (next, action) = connection.step(event);
            &&& action == PublishActionModel::Wait ==> connection.stage
                == PublishStage::Publishing
            &&& next.stage == PublishStage::Publishing && connection.stage
                != PublishStage::Publishing ==> connection.stage == PublishStage::Requesting
                && connection.accepted
            &&& next.accepted && !connection.accepted ==> match connection.stage {
                PublishStage::Connecting => event == PublishEventModel::Result(
                    ClientResultModel::ConnectionAccepted,
                ),
                PublishStage::Requesting => event == PublishEventModel::Result(
                    ClientResultModel::PublishAccepted,
                ),
                PublishStage::Publishing => false,
            }
        }),
{
}

/// When the batch that accepted the connection ends, the sink makes exactly one
/// call: it asks to publish under the connection's own stream key, character for
/// character, and minds a refusal. Before the connection is accepted it reads on.
pub proof fn law_publish_asks_for_its_stream_key(connection: PublishingModel)
    requires
        connection.stage == PublishStage::Connecting,
    ensures
        ({
            let (next, action) = connection.step(PublishEventModel::NoMoreResults);
            &&& connection.accepted ==> (action matches PublishActionModel::Run(script)
                && script.ops.len() == 1 && script.ops[0].call == (CallModel::RequestPublish {
                stream_key: connection.stream_key,
            }) && script.ops[0].policy.closed is None && script.ops[0].policy.refused == Some(
                "failed to request RTMP publish"@,
            ) && script.ops[0].policy.on_write == OnWrite::Fail && script.conclusion
                == ConclusionModel::Continue)
            &&& connection.accepted ==> next.stage == PublishStage::Requesting && !next.accepted
            &&& !connection.accepted ==> action == PublishActionModel::Read && next == connection
        }),
{
}

/// When the batch that accepted the publish ends, whoever waits for the sink to
/// start is told, once; from then on the sink waits for data.
pub proof fn law_acceptance_is_reported_once(connection: PublishingModel)
    requires
        connection.stage != PublishStage::Connecting,
    ensures
        ({
            let (next, action) = connection.step(PublishEventModel::NoMoreResults);
            let requested = connection.stage == PublishStage::Requesting;
            &&& requested && connection.accepted ==> (action matches PublishActionModel::Run(script)
                && script.ops.len() == 1 && script.ops[0].call == CallModel::ReportStarted
                && script.ops[0].policy.closed == Some("sink is shutting down"@)
                && script.ops[0].policy.refused is None && script.ops[0].policy.on_write
                == OnWrite::Ignore && script.conclusion == ConclusionModel::Continue)
            &&& requested && connection.accepted ==> next.stage == PublishStage::Publishing
                && !next.accepted
            &&& requested && !connection.accepted ==> action == PublishActionModel::Read && next
                == connection
            &&& !requested ==> action == PublishActionModel::Wait && next == connection
        }),
{
}

/// No event changes the stream key that a connection publishes under, and none
/// but data moves its stream on.
pub proof fn law_events_keep_the_published_stream(
    connection: PublishingModel,
    event: PublishEventModel,
)
    ensures
        connection.step(event).0.stream_key == connection.stream_key,
        !(event is Data) ==> connection.step(event).0.demux == connection.demux,
        event matches PublishEventModel::Data(chunk) ==> connection.step(event).0 == (
        PublishingModel { demux: connection.demux.after(chunk), ..connection }),
{
}

/// A connection that opens, is accepted and whose batch ends asks to publish
/// under exactly the stream key that it was made with, whatever else the batch
/// holds and in however many reads it comes.
pub proof fn law_first_request_names_the_stream_key(
    stream_key: Seq<char>,
    results: Seq<ClientResultModel>,
)
    requires
        results.contains(ClientResultModel::ConnectionAccepted),
    ensures
        ({
            let start = PublishingModel {
                stage: PublishStage::Connecting,
                accepted: false,
                stream_key,
                demux: DemuxModel::fresh(),
            };
            start.taking(results).step(PublishEventModel::NoMoreResults).1 matches
                PublishActionModel::Run(script) && script.ops.len() == 1 && script.ops[0].call == (
            CallModel::RequestPublish { stream_key })
        }),
{
    let start = PublishingModel {
        stage: PublishStage::Connecting,
        accepted: false,
        stream_key,
        demux: DemuxModel::fresh(),
    };
    lemma_acceptance_is_noted(start, results);
}

impl PublishingModel {
    /// The state after several results of the session.
    pub open spec fn taking(self, results: Seq<ClientResultModel>) -> PublishingModel
        decreases results.len(),
    {
        if results.len() == 0 {
            self
        } else {
            self.taking(results.drop_last()).step(PublishEventModel::Result(results.last())).0
        }
    }
}

proof fn lemma_acceptance_is_noted(start: PublishingModel, results: Seq<ClientResultModel>)
    requires
        start.stage == PublishStage::Connecting,
    ensures
        start.taking(results).stage == PublishStage::Connecting,
        start.taking(results).stream_key == start.stream_key,
        results.contains(ClientResultModel::ConnectionAccepted) ==> start.taking(results).accepted,
    decreases results.len(),
{
    if results.len() > 0 {
        let front = results.drop_last();
        lemma_acceptance_is_noted(start, front);
        if results.contains(ClientResultModel::ConnectionAccepted) {
            let i = choose|i: int|
                0 <= i < results.len() && results[i] == ClientResultModel::ConnectionAccepted;
            if i < front.len() {
                assert(front[i] == ClientResultModel::ConnectionAccepted);
            }
        }
    }
}

/// What a server answers is noted where it is waited for: an accepted connection
/// while connecting, an accepted publish while requesting it. A rejection fails
/// with the server's reason, and any other result changes nothing.
pub proof fn law_answers_count_where_they_are_awaited(
    connection: PublishingModel,
    description: Seq<char>,
    tag: TagModel,
    code: Seq<char>,
)
    ensures
        ({
            let answered = |result: ClientResultModel, accepted: bool|
                {
                    let (next, script) = connection.after_result(result);
                    &&& next == (PublishingModel { accepted, ..connection })
                    &&& script.ops.len() == 0
                    &&& script.conclusion == ConclusionModel::Continue
                };
            &&& answered(
                ClientResultModel::ConnectionAccepted,
                connection.accepted || connection.stage == PublishStage::Connecting,
            )
            &&& answered(
                ClientResultModel::PublishAccepted,
                connection.accepted || connection.stage == PublishStage::Requesting,
            )
            &&& answered(ClientResultModel::PlaybackAccepted, connection.accepted)
            &&& answered(ClientResultModel::Media(tag), connection.accepted)
            &&& answered(ClientResultModel::Status { code }, connection.accepted)
            &&& answered(ClientResultModel::Ignored, connection.accepted)
        }),
        ({
            let (next, script) = connection.after_result(
                ClientResultModel::ConnectionRejected { description },
            );
            let fails = |message: Seq<char>|
                ConclusionModel::Failed(FailureModel { message, client_disconnect: false });
            &&& next == connection
            &&& script.ops.len() == 0
            &&& script.conclusion == match connection.stage {
                PublishStage::Connecting => fails(
                    "RTMP server rejected connection: "@ + description,
                ),
                PublishStage::Requesting => fails("RTMP server rejected publish: "@ + description),
                PublishStage::Publishing => ConclusionModel::Continue,
            }
        }),
{
}

/// Each tag that comes out of the stream is published by one call that minds a
/// refusal in the words of its type; behind the last of them all are written at
/// once, and nothing is written if there are none.
pub proof fn law_tags_are_published_and_then_written(
    connection: PublishingModel,
    chunk: Seq<u8>,
)
    ensures
        ({
            let action = connection.step(PublishEventModel::Data(chunk)).1;
            let tags = connection.demux.tags(chunk);
            action matches PublishActionModel::Run(script) && {
                &&& script.ops.len() == if tags.len() > 0 {
                    tags.len() + 1
                } else {
                    0
                }
                &&& forall|i: int|
                    0 <= i < tags.len() ==> (#[trigger] script.ops[i]).call == CallModel::Publish(
                        tags[i],
                    ) && script.ops[i].policy.closed is None && script.ops[i].policy.on_write
                        == OnWrite::Ignore && script.ops[i].policy.refused == Some(
                        if tags[i].tag_type == 8 {
                            "failed to publish audio data"@
                        } else if tags[i].tag_type == 9 {
                            "failed to publish video data"@
                        } else {
                            "failed to publish script data"@
                        },
                    )
                &&& tags.len() > 0 ==> script.ops.last().call == CallModel::WritePublished
                    && script.ops.last().policy.on_write == OnWrite::Fail
                &&& script.conclusion == ConclusionModel::Continue
            }
        }),
{
    let tags = connection.demux.tags(chunk);
    if let Some(bytes) = connection.demux.tag_bytes(chunk) {
        law_only_media_tags_come_out(bytes);
    }
    lemma_publish_ops_in_order(tags);
}

proof fn lemma_publish_ops_in_order(tags: Seq<TagModel>)
    requires
        crate::flv::all_media(tags),
    ensures
        publish_ops(tags).len() == tags.len(),
        forall|i: int|
            0 <= i < tags.len() ==> #[trigger] publish_ops(tags)[i] == ask(
                CallModel::Publish(tags[i]),
                if tags[i].tag_type == 8 {
                    "failed to publish audio data"@
                } else if tags[i].tag_type == 9 {
                    "failed to publish video data"@
                } else {
                    "failed to publish script data"@
                },
                OnWrite::Ignore,
            ),
    decreases tags.len(),
{
    if tags.len() > 0 {
        let front = tags.drop_last();
        assert forall|i: int| 0 <= i < front.len() implies crate::flv::is_media_type(
            (#[trigger] front[i]).tag_type,
        ) && front[i].payload.len() <= crate::flv::FLV_MAX_PAYLOAD by {
            assert(front[i] == tags[i]);
        }
        lemma_publish_ops_in_order(front);
        assert(crate::flv::is_media_type(tags[tags.len() - 1].tag_type));
        let ops = publish_ops(tags);
        assert(publish_ops_of(tags.last()).len() == 1);
        assert forall|i: int| 0 <= i < tags.len() implies #[trigger] ops[i] == ask(
            CallModel::Publish(tags[i]),
            if tags[i].tag_type == 8 {
                "failed to publish audio data"@
            } else if tags[i].tag_type == 9 {
                "failed to publish video data"@
            } else {
                "failed to publish script data"@
            },
            OnWrite::Ignore,
        ) by {
            if i < front.len() {
                assert(ops[i] == publish_ops(front)[i]);
                assert(front[i] == tags[i]);
            } else {
                assert(ops[i] == publish_ops_of(tags.last())[0]);
            }
        }
    }
}

/// The end of the data and the request to stop both stop publishing and then
/// close the sending side, whatever comes of it; the first is a proper end, the
/// second is not.
pub proof fn law_publishing_is_stopped_before_it_ends(connection: PublishingModel)
    ensures
        ({
            let stops = |event: PublishEventModel, conclusion: ConclusionModel|
                {
                    let (next, action) = connection.step(event);
                    &&& next == connection
                    &&& action matches PublishActionModel::Run(script) && script.ops.len() == 2
                        && script.ops[0].call == CallModel::StopPublishing && script.ops[1].call
                        == CallModel::ShutDown && script.ops[0].policy == script.ops[1].policy
                        && script.ops[0].policy.closed is None && script.ops[0].policy.refused is
                        None && script.ops[0].policy.on_write == OnWrite::Ignore
                        && script.conclusion == conclusion
                };
            &&& stops(PublishEventModel::DataOver, ConclusionModel::Finished)
            &&& stops(
                PublishEventModel::Cancelled,
                ConclusionModel::Failed(
                    FailureModel { message: "sink is shutting down"@, client_disconnect: false },
                ),
            )
        }),
{
}

/// A publishing connection feeds its session every byte that came, those behind
/// the handshake first, takes all results of one input, and ends with what a
/// script or a read ends it with; a server that closes counts as vanished, in the
/// words of how far the connection had come.
pub proof fn law_publishing_goes_step_by_step(
    connection: PublishingModel,
    bytes: Seq<u8>,
    failure: FailureModel,
    text: Seq<char>,
    result: ClientResultModel,
    outcome: ReadModel,
)
    requires
        bytes.len() > 0,
        !(outcome is Received),
    ensures
        connection.step(PublishEventModel::Opened { carry: bytes }) == (
            connection,
            PublishActionModel::Feed(bytes),
        ),
        connection.step(PublishEventModel::Opened { carry: Seq::empty() }) == (
            connection,
            PublishActionModel::Read,
        ),
        connection.step(PublishEventModel::Fed) == (connection, PublishActionModel::NextResult),
        connection.step(PublishEventModel::FeedRefused(text)).1 == PublishActionModel::Return(
            Some(
                FailureModel {
                    message: "server sent unreadable RTMP: "@ + text,
                    client_disconnect: false,
                },
            ),
        ),
        connection.step(PublishEventModel::Result(result)) == (
            connection.after_result(result).0,
            PublishActionModel::Run(connection.after_result(result).1),
        ),
        connection.step(PublishEventModel::ScriptOver(ConclusionModel::Continue)) == (
            connection,
            PublishActionModel::NextResult,
        ),
        connection.step(PublishEventModel::ScriptOver(ConclusionModel::Finished)).1
            == PublishActionModel::Return(None),
        connection.step(PublishEventModel::ScriptOver(ConclusionModel::Failed(failure))).1
            == PublishActionModel::Return(Some(failure)),
        connection.step(PublishEventModel::Read(ReadModel::Received(bytes))) == (
            connection,
            PublishActionModel::Feed(bytes),
        ),
        connection.step(PublishEventModel::Read(ReadModel::Received(Seq::empty()))).1
            == PublishActionModel::Return(
            Some(
                FailureModel {
                    message: match connection.stage {
                        PublishStage::Connecting =>
                            "RTMP server closed the connection while connecting"@,
                        PublishStage::Requesting =>
                            "RTMP server closed the connection while requesting publish"@,
                        PublishStage::Publishing => "RTMP server closed the connection"@,
                    },
                    client_disconnect: true,
                },
            ),
        ),
        session_read(outcome) is Err,
        connection.step(PublishEventModel::Read(outcome)).1 == PublishActionModel::Return(
            Some(session_read(outcome)->Err_0),
        ),
{
}

/// What a sink worker leaves behind is the message of its failure, with what
/// failed, and nothing after a proper end.
pub proof fn law_workers_leave_their_failure_behind(reason: String, failure: SessionFailure)
    ensures
        sticky_failure(SinkEnd::RuntimeFailed(reason)) == Some(
            "Failed to create Tokio runtime: "@ + reason@,
        ),
        sticky_failure(SinkEnd::ListenerFailed(reason)) == Some(
            "Failed to initialize Tokio RTMP listener: "@ + reason@,
        ),
        sticky_failure(SinkEnd::Over(Ok(()))) is None,
        sticky_failure(SinkEnd::Over(Err(failure))) == Some(failure.message@),
{
}

/// What happens to a publishing connection and what is to be done are told as
/// they are.
pub proof fn law_publish_events_show_their_fields(
    bytes: Vec<u8>,
    text: String,
    result: ClientSessionResult,
    conclusion: Conclusion,
    outcome: ReadOutcome,
    script: Script,
    failure: SessionFailure,
)
    ensures
        (PublishEvent::Opened { carry: bytes })@ == (PublishEventModel::Opened { carry: bytes@ }),
        PublishEvent::Fed@ == PublishEventModel::Fed,
        PublishEvent::FeedRefused(text)@ == PublishEventModel::FeedRefused(text@),
        PublishEvent::Result(result)@ == PublishEventModel::Result(result@),
        PublishEvent::NoMoreResults@ == PublishEventModel::NoMoreResults,
        PublishEvent::ScriptOver(conclusion)@ == PublishEventModel::ScriptOver(conclusion@),
        PublishEvent::Read(outcome)@ == PublishEventModel::Read(outcome@),
        PublishEvent::Data(bytes)@ == PublishEventModel::Data(bytes@),
        PublishEvent::DataOver@ == PublishEventModel::DataOver,
        PublishEvent::Cancelled@ == PublishEventModel::Cancelled,
        PublishAction::Feed(bytes)@ == PublishActionModel::Feed(bytes@),
        PublishAction::NextResult@ == PublishActionModel::NextResult,
        PublishAction::Run(script)@ == PublishActionModel::Run(script@),
        PublishAction::Read@ == PublishActionModel::Read,
        PublishAction::Wait@ == PublishActionModel::Wait,
        PublishAction::Return(Ok(()))@ == PublishActionModel::Return(None),
        PublishAction::Return(Err(failure))@ == PublishActionModel::Return(Some(failure@)),
{
}

/// Of a list of tags each audio, video and script tag becomes one message, in
/// order, and a tag of any other type none; messages, if there are any, are
/// written once, behind the last.
pub proof fn law_tags_of_other_types_are_not_published(tags: Seq<TagModel>, tag: TagModel)
    ensures
        publish_script(Seq::empty()).ops.len() == 0,
        publish_script(tags).conclusion == ConclusionModel::Continue,
        tag.tag_type != 8 && tag.tag_type != 9 && tag.tag_type != 18 ==> publish_script(
            tags.push(tag),
        ) == publish_script(tags),
        tag.tag_type == 8 || tag.tag_type == 9 || tag.tag_type == 18 ==> ({
            let ops = publish_script(tags).ops;
            let longer = publish_script(tags.push(tag)).ops;
            let count = if ops.len() > 0 {
                ops.len() - 1
            } else {
                0
            };
            &&& longer.len() == count + 2
            &&& longer.take(count) == ops.take(count)
            &&& longer[count].call == CallModel::Publish(tag)
            &&& longer.last().call == CallModel::WritePublished
        }),
{
    assert(tags.push(tag).drop_last() =~= tags);
    let ops = publish_ops(tags);
    let longer = publish_ops(tags.push(tag));
    assert(longer == ops + publish_ops_of(tag));
    if tag.tag_type == 8 || tag.tag_type == 9 || tag.tag_type == 18 {
        let before = publish_script(tags).ops;
        let after = publish_script(tags.push(tag)).ops;
        let count = ops.len() as int;
        assert(after.take(count) =~= before.take(count));
    } else {
        assert(longer =~= ops);
    }
}

} // verus!
