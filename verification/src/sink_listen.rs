//! The sink in listen mode: players are served one at a time.

use vstd::prelude::*;
use vstd::string::*;

use crate::flv::tag_models;
use crate::flv::law_only_media_tags_come_out;
use crate::flv::lemma_one_more_chunk;
use crate::flv::DemuxModel;
use crate::flv::FlvDemux;
use crate::flv::FlvTag;
use crate::flv::TagModel;
use crate::flv::FLV_TAG_AUDIO;
use crate::flv::FLV_TAG_SCRIPT_DATA;
use crate::flv::FLV_TAG_VIDEO;
use crate::headers::is_audio_header;
use crate::headers::is_video_header;
use crate::headers::law_cache_holds_the_latest_headers;
use crate::headers::law_replay_is_video_then_audio;
use crate::headers::lemma_observing_concat;
use crate::headers::CacheModel;
use crate::headers::HeaderCache;
use crate::headers::law_late_joiner_gets_the_latest_headers;
use crate::link::duration_text;
use crate::link::read_session_chunk;
use crate::link::session_outcome;
use crate::link::session_read;
use crate::link::show_duration;
use crate::link::ReadModel;
use crate::link::ReadOutcome;
use crate::script::anyway;
use crate::script::ask;
use crate::script::nothing;
use crate::script::write_out;
use crate::script::Call;
use crate::script::CallModel;
use crate::script::OnWrite;
use crate::script::Op;
use crate::script::OpModel;
use crate::script::Policy;
use crate::script::PolicyModel;
use crate::script::Script;
use crate::script::ScriptModel;
use crate::script::Conclusion;
use crate::script::ConclusionModel;
use crate::session::ServerResultModel;
use crate::session::ServerSessionEvent;
use crate::session::ServerSessionResult;
use crate::source_listen::admits;
use crate::source_listen::filter_admits;
use crate::text::join2;
use crate::text::join3;
use crate::text::opt_text;
use crate::worker::failed;
use crate::worker::limit_of;
use crate::worker::nanoseconds_timeout;
use crate::worker::FailureModel;
use crate::worker::SessionFailure;
use crate::worker::nanos_duration;

verus! {

/// How one player's connection ended. Player problems only ever end that
/// player; the listener keeps accepting afterwards.
#[derive(Debug, Clone, Copy, PartialEq, Eq, Structural)]
pub enum PlayerOutcome {
    /// The player is gone or was turned away.
    PlayerDone,
    /// The stream is over.
    Eos,
    /// The sink is being stopped.
    Shutdown,
}

/// How far a player's connection has come.
#[derive(Debug, Clone, Copy, PartialEq, Eq, Structural)]
pub enum PlayerStage {
    /// The player has not been let in yet.
    Waiting,
    /// The player is let in; what was queued before is taken in, not sent.
    Draining { stream_id: u32 },
    /// The player gets the cached sequence headers.
    Replaying { stream_id: u32 },
    /// The player gets live data.
    Streaming { stream_id: u32 },
    /// The connection is being closed.
    Ending { outcome: PlayerOutcome },
}

/// What is said when a tag cannot be framed for a player; `None` for tags that
/// are not sent. Script data is sent live and never cached.
pub open spec fn serve_refusal(tag_type: u8, cached: bool) -> Option<Seq<char>> {
    if tag_type == FLV_TAG_VIDEO {
        Some(
            if cached {
                "failed to frame video header"@
            } else {
                "failed to frame video data"@
            },
        )
    } else if tag_type == FLV_TAG_AUDIO {
        Some(
            if cached {
                "failed to frame audio header"@
            } else {
                "failed to frame audio data"@
            },
        )
    } else if tag_type == FLV_TAG_SCRIPT_DATA && !cached {
        Some("failed to frame script data"@)
    } else {
        None
    }
}

/// The call that sends a tag to a player; none for tags that are not sent.
pub open spec fn serve_ops_of(stream_id: u32, tag: TagModel, cached: bool) -> Seq<OpModel> {
    match serve_refusal(tag.tag_type, cached) {
        Some(refused) => seq![ask(CallModel::Serve { stream_id, tag }, refused, OnWrite::Fail)],
        None => Seq::empty(),
    }
}

/// The calls that send several tags to a player.
pub open spec fn serve_ops(stream_id: u32, tags: Seq<TagModel>, cached: bool) -> Seq<OpModel>
    decreases tags.len(),
{
    if tags.len() == 0 {
        Seq::empty()
    } else {
        serve_ops(stream_id, tags.drop_last(), cached) + serve_ops_of(
            stream_id,
            tags.last(),
            cached,
        )
    }
}

/// Sending several tags to a player.
pub open spec fn serve_script(stream_id: u32, tags: Seq<TagModel>, cached: bool) -> ScriptModel {
    ScriptModel { ops: serve_ops(stream_id, tags, cached), conclusion: ConclusionModel::Continue }
}

/// Sends several tags to a player.
pub fn serve_tags(stream_id: u32, tags: &Vec<FlvTag>, cached: bool) -> (script: Script)
    ensures
        script@ == serve_script(stream_id, tag_models(tags@), cached),
{
    let ghost models = tag_models(tags@);
    let mut script: Script = Script::ending(Conclusion::Continue);
    assert(serve_ops(stream_id, models.take(0), cached) =~= Seq::<OpModel>::empty());
    for i in 0..tags.len()
        invariant
            models == tag_models(tags@),
            script@.conclusion == ConclusionModel::Continue,
            script@.ops == serve_ops(stream_id, models.take(i as int), cached),
    {
        assert(models.take(i + 1).drop_last() =~= models.take(i as int));
        let tag: &FlvTag = &tags[i];
        let ghost sofar = script@.ops;
        let refused: Option<&str> = match (tag.tag_type, cached) {
            (FLV_TAG_VIDEO, true) => Some("failed to frame video header"),
            (FLV_TAG_VIDEO, false) => Some("failed to frame video data"),
            (FLV_TAG_AUDIO, true) => Some("failed to frame audio header"),
            (FLV_TAG_AUDIO, false) => Some("failed to frame audio data"),
            (FLV_TAG_SCRIPT_DATA, false) => Some("failed to frame script data"),
            _ => None,
        };
        if let Some(refused) = refused {
            script.push(Op::ask(Call::Serve { stream_id, tag: tag.clone() }, refused, OnWrite::Fail));
        }
        assert(script@.ops =~= sofar + serve_ops_of(stream_id, tag@, cached));
    }
    assert(models.take(models.len() as int) =~= models);
    script
}

/// Serves players: the stream that they share, and the connection of the
/// player that is there.
///
/// The demuxer cannot find its way back into a stream, so every byte flows
/// through it exactly once, in order, for the whole life of the listener.
pub struct PlayerServer {
    app_filter: Option<String>,
    key_filter: Option<String>,
    demux: FlvDemux,
    headers: HeaderCache,
    carry: Vec<u8>,
    stage: PlayerStage,
    player_over: bool,
}

/// Serving players, as plain mathematics.
#[verifier::ext_equal]
pub struct PlayerServerModel {
    /// The only application that is served; `None` for any.
    pub app_filter: Option<Seq<char>>,
    /// The only stream that is served; `None` for any.
    pub key_filter: Option<Seq<char>>,
    pub demux: DemuxModel,
    pub headers: CacheModel,
    /// Bytes that came behind the handshake and wait for the session.
    pub carry: Seq<u8>,
    pub stage: PlayerStage,
    /// Whether the player stopped playing during the current batch.
    pub player_over: bool,
}

impl View for PlayerServer {
    type V = PlayerServerModel;

    closed spec fn view(&self) -> PlayerServerModel {
        PlayerServerModel {
            app_filter: opt_text(self.app_filter),
            key_filter: opt_text(self.key_filter),
            demux: self.demux@,
            headers: self.headers@,
            carry: self.carry@,
            stage: self.stage,
            player_over: self.player_over,
        }
    }
}

/// What has just happened on a player's connection.
#[derive(Debug)]
pub enum PlayerEvent {
    /// The handshake ended; `cancelled` tells whether the sink is being
    /// stopped.
    HandshakeOver { result: Result<Vec<u8>, SessionFailure>, cancelled: bool },
    /// There is a protocol session.
    SessionReady,
    /// There is no protocol session.
    SessionRefused,
    /// The session took its input.
    Fed,
    /// The session refused its input.
    FeedRefused,
    /// The session's next result.
    Result(ServerSessionResult),
    /// The session has no further result.
    NoMoreResults,
    /// A script is over.
    ScriptOver(Conclusion),
    /// FLV bytes that were queued before the player was let in.
    Backlog(Vec<u8>),
    /// Nothing more is queued.
    BacklogEmpty,
    /// Nothing more is queued, and nothing will come.
    BacklogClosed,
    /// The element has more FLV bytes.
    Data(Vec<u8>),
    /// The element has no more FLV bytes.
    DataOver,
    /// The sink is being stopped.
    Cancelled,
    /// A read ended; `cancelled` tells whether the sink is being stopped.
    Read { outcome: ReadOutcome, cancelled: bool },
}

/// What has just happened, as plain mathematics.
#[verifier::ext_equal]
pub enum PlayerEventModel {
    HandshakeOver { result: Result<Seq<u8>, FailureModel>, cancelled: bool },
    SessionReady,
    SessionRefused,
    Fed,
    FeedRefused,
    Result(ServerResultModel),
    NoMoreResults,
    ScriptOver(ConclusionModel),
    Backlog(Seq<u8>),
    BacklogEmpty,
    BacklogClosed,
    Data(Seq<u8>),
    DataOver,
    Cancelled,
    Read { outcome: ReadModel, cancelled: bool },
}

impl View for PlayerEvent {
    type V = PlayerEventModel;

    open spec fn view(&self) -> PlayerEventModel {
        match self {
            PlayerEvent::HandshakeOver { result, cancelled } => PlayerEventModel::HandshakeOver {
                result: session_outcome(*result),
                cancelled: *cancelled,
            },
            PlayerEvent::SessionReady => PlayerEventModel::SessionReady,
            PlayerEvent::SessionRefused => PlayerEventModel::SessionRefused,
            PlayerEvent::Fed => PlayerEventModel::Fed,
            PlayerEvent::FeedRefused => PlayerEventModel::FeedRefused,
            PlayerEvent::Result(result) => PlayerEventModel::Result(result@),
            PlayerEvent::NoMoreResults => PlayerEventModel::NoMoreResults,
            PlayerEvent::ScriptOver(conclusion) => PlayerEventModel::ScriptOver(conclusion@),
            PlayerEvent::Backlog(bytes) => PlayerEventModel::Backlog(bytes@),
            PlayerEvent::BacklogEmpty => PlayerEventModel::BacklogEmpty,
            PlayerEvent::BacklogClosed => PlayerEventModel::BacklogClosed,
            PlayerEvent::Data(bytes) => PlayerEventModel::Data(bytes@),
            PlayerEvent::DataOver => PlayerEventModel::DataOver,
            PlayerEvent::Cancelled => PlayerEventModel::Cancelled,
            PlayerEvent::Read { outcome, cancelled } => PlayerEventModel::Read {
                outcome: outcome@,
                cancelled: *cancelled,
            },
        }
    }
}

/// What to do next on a player's connection.
#[derive(Debug)]
pub enum PlayerAction {
    /// Make a protocol session.
    CreateSession,
    /// Feed these bytes to the session.
    Feed(Vec<u8>),
    /// Take the session's next result.
    NextResult,
    /// Run this script.
    Run(Script),
    /// Read from the socket.
    Read,
    /// Take what is queued, without waiting. Results that the session still
    /// has, outbound packets among them, are dropped.
    DrainBacklog,
    /// Wait for FLV bytes, for input, or for the request to stop.
    Wait,
    /// The connection is over.
    Return(PlayerOutcome),
}

/// What to do next, as plain mathematics.
#[verifier::ext_equal]
pub enum PlayerActionModel {
    CreateSession,
    Feed(Seq<u8>),
    NextResult,
    Run(ScriptModel),
    Read,
    DrainBacklog,
    Wait,
    Return(PlayerOutcome),
}

impl View for PlayerAction {
    type V = PlayerActionModel;

    open spec fn view(&self) -> PlayerActionModel {
        match self {
            PlayerAction::CreateSession => PlayerActionModel::CreateSession,
            PlayerAction::Feed(bytes) => PlayerActionModel::Feed(bytes@),
            PlayerAction::NextResult => PlayerActionModel::NextResult,
            PlayerAction::Run(script) => PlayerActionModel::Run(script@),
            PlayerAction::Read => PlayerActionModel::Read,
            PlayerAction::DrainBacklog => PlayerActionModel::DrainBacklog,
            PlayerAction::Wait => PlayerActionModel::Wait,
            PlayerAction::Return(outcome) => PlayerActionModel::Return(*outcome),
        }
    }
}

/// A rejection, and the end of the player's visit.
pub open spec fn turn_away(
    request_id: u32,
    code: Seq<char>,
    description: Seq<char>,
    refused: Seq<char>,
) -> ScriptModel {
    ScriptModel {
        ops: seq![ask(CallModel::Reject { request_id, code, description }, refused, OnWrite::Fail)],
        conclusion: ConclusionModel::TurnedAway,
    }
}

/// One call, and the session goes on.
pub open spec fn single(op: OpModel) -> ScriptModel {
    ScriptModel { ops: seq![op], conclusion: ConclusionModel::Continue }
}

impl PlayerServerModel {
    /// Whether the filters let a player in.
    pub open spec fn allows(self, app_name: Seq<char>, stream_key: Seq<char>) -> bool {
        admits(self.app_filter, app_name) && admits(self.key_filter, stream_key)
    }

    /// What one session result leads to while the player waits to be let in:
    /// outbound packets are written, connections accepted, and the play
    /// request is accepted if it names the configured stream. Any other play
    /// request, and every publish request, is turned away.
    pub open spec fn before_play(self, result: ServerResultModel) -> ScriptModel {
        match result {
            ServerResultModel::Outbound(packet) => single(write_out(packet)),
            ServerResultModel::ConnectionRequested { request_id, app_name } => single(
                ask(
                    CallModel::AcceptConnection { request_id },
                    "Failed to accept RTMP connection"@,
                    OnWrite::Fail,
                ),
            ),
            ServerResultModel::PlayRequested { request_id, app_name, stream_key, stream_id } =>
                if self.allows(app_name, stream_key) {
                    ScriptModel {
                        ops: seq![
                            ask(
                                CallModel::AcceptPlay { request_id },
                                "Failed to accept RTMP play"@,
                                OnWrite::Fail,
                            ),
                        ],
                        conclusion: ConclusionModel::Playing { stream_id },
                    }
                } else {
                    turn_away(
                        request_id,
                        "NetStream.Play.Failed"@,
                        "this endpoint only serves its configured stream"@,
                        "Failed to reject RTMP play"@,
                    )
                },
            ServerResultModel::PublishRequested { request_id, app_name, stream_key, stream_id } =>
                turn_away(
                    request_id,
                    "NetStream.Publish.BadName"@,
                    "this endpoint only serves players"@,
                    "Failed to reject RTMP publish"@,
                ),
            _ => nothing(),
        }
    }

    /// What one session result leads to while the player is there: outbound
    /// packets are written, and the end of playing is noted.
    pub open spec fn during_play(self, result: ServerResultModel) -> (
        PlayerServerModel,
        ScriptModel,
    ) {
        match result {
            ServerResultModel::Outbound(packet) => (
                self,
                single(
                    OpModel {
                        call: CallModel::WriteMedia(packet),
                        policy: PolicyModel {
                            closed: None,
                            refused: None,
                            on_write: OnWrite::Fail,
                        },
                    },
                ),
            ),
            ServerResultModel::PlayFinished { stream_key } => (
                PlayerServerModel { player_over: true, ..self },
                nothing(),
            ),
            _ => (self, nothing()),
        }
    }

    /// The end of a player's connection: the next player starts afresh, the
    /// stream goes on.
    pub open spec fn returning(self, outcome: PlayerOutcome) -> (
        PlayerServerModel,
        PlayerActionModel,
    ) {
        (
            PlayerServerModel {
                carry: Seq::empty(),
                stage: PlayerStage::Waiting,
                player_over: false,
                ..self
            },
            PlayerActionModel::Return(outcome),
        )
    }

    /// What a problem with the player leads to.
    pub open spec fn player_problem(self, cancelled: bool) -> (
        PlayerServerModel,
        PlayerActionModel,
    ) {
        self.returning(
            if cancelled {
                PlayerOutcome::Shutdown
            } else {
                PlayerOutcome::PlayerDone
            },
        )
    }

    /// The beginning of the end.
    pub open spec fn closing(self, outcome: PlayerOutcome, ops: Seq<OpModel>) -> (
        PlayerServerModel,
        PlayerActionModel,
    ) {
        (
            PlayerServerModel { stage: PlayerStage::Ending { outcome }, ..self },
            PlayerActionModel::Run(ScriptModel { ops, conclusion: ConclusionModel::Continue }),
        )
    }

    /// The stream after some more bytes.
    pub open spec fn taking_in(self, chunk: Seq<u8>) -> PlayerServerModel {
        PlayerServerModel {
            demux: self.demux.after(chunk),
            headers: self.headers.observing_all(self.demux.tags(chunk)),
            ..self
        }
    }

    /// What the end of a script leads to.
    pub open spec fn after_script(self, conclusion: ConclusionModel) -> (
        PlayerServerModel,
        PlayerActionModel,
    ) {
        match (self.stage, conclusion) {
            (PlayerStage::Ending { outcome }, _) => self.returning(outcome),
            (_, ConclusionModel::Playing { stream_id }) => (
                PlayerServerModel { stage: PlayerStage::Draining { stream_id }, ..self },
                PlayerActionModel::DrainBacklog,
            ),
            (PlayerStage::Replaying { stream_id }, ConclusionModel::Continue) => (
                PlayerServerModel { stage: PlayerStage::Streaming { stream_id }, ..self },
                PlayerActionModel::Wait,
            ),
            (_, ConclusionModel::Continue) => (self, PlayerActionModel::NextResult),
            _ => self.returning(PlayerOutcome::PlayerDone),
        }
    }

    /// The next state and action after an event.
    pub open spec fn step(self, event: PlayerEventModel) -> (PlayerServerModel, PlayerActionModel) {
        match event {
            PlayerEventModel::HandshakeOver { result, cancelled } => match result {
                Ok(carry) => (
                    PlayerServerModel { carry, ..self },
                    PlayerActionModel::CreateSession,
                ),
                Err(failure) => self.player_problem(cancelled),
            },
            PlayerEventModel::SessionReady => if self.carry.len() > 0 {
                (
                    PlayerServerModel { carry: Seq::empty(), ..self },
                    PlayerActionModel::Feed(self.carry),
                )
            } else {
                (self, PlayerActionModel::Read)
            },
            PlayerEventModel::SessionRefused => self.returning(PlayerOutcome::PlayerDone),
            PlayerEventModel::Fed => (self, PlayerActionModel::NextResult),
            PlayerEventModel::FeedRefused => self.returning(PlayerOutcome::PlayerDone),
            PlayerEventModel::Result(result) => match self.stage {
                PlayerStage::Streaming { stream_id } => {
                    let (next, script) = self.during_play(result);
                    (next, PlayerActionModel::Run(script))
                },
                _ => (self, PlayerActionModel::Run(self.before_play(result))),
            },
            PlayerEventModel::NoMoreResults => match self.stage {
                PlayerStage::Streaming { stream_id } => if self.player_over {
                    self.closing(PlayerOutcome::PlayerDone, seq![anyway(CallModel::ShutDown)])
                } else {
                    (self, PlayerActionModel::Wait)
                },
                _ => (self, PlayerActionModel::Read),
            },
            PlayerEventModel::ScriptOver(conclusion) => self.after_script(conclusion),
            PlayerEventModel::Backlog(chunk) => (
                self.taking_in(chunk),
                PlayerActionModel::DrainBacklog,
            ),
            PlayerEventModel::BacklogEmpty => match self.stage {
                PlayerStage::Draining { stream_id } => (
                    PlayerServerModel { stage: PlayerStage::Replaying { stream_id }, ..self },
                    PlayerActionModel::Run(serve_script(stream_id, self.headers.ordered(), true)),
                ),
                _ => (self, PlayerActionModel::NextResult),
            },
            PlayerEventModel::BacklogClosed => self.returning(PlayerOutcome::Eos),
            PlayerEventModel::Data(chunk) => (
                self.taking_in(chunk),
                match self.stage {
                    PlayerStage::Streaming { stream_id } => PlayerActionModel::Run(
                        serve_script(stream_id, self.demux.tags(chunk), false),
                    ),
                    _ => PlayerActionModel::NextResult,
                },
            ),
            PlayerEventModel::DataOver => match self.stage {
                PlayerStage::Streaming { stream_id } => self.closing(
                    PlayerOutcome::Eos,
                    seq![
                        anyway(CallModel::FinishPlaying { stream_id }),
                        anyway(CallModel::ShutDown),
                    ],
                ),
                _ => self.returning(PlayerOutcome::Eos),
            },
            PlayerEventModel::Cancelled => self.closing(
                PlayerOutcome::Shutdown,
                seq![anyway(CallModel::ShutDown)],
            ),
            PlayerEventModel::Read { outcome, cancelled } => match session_read(outcome) {
                Ok(bytes) => if bytes.len() == 0 {
                    self.returning(PlayerOutcome::PlayerDone)
                } else {
                    (self, PlayerActionModel::Feed(bytes))
                },
                Err(failure) => self.player_problem(cancelled),
            },
        }
    }
}

impl PlayerServer {
    /// A server before its first player and its first byte.
    pub fn new(app_filter: Option<String>, key_filter: Option<String>) -> (server: PlayerServer)
        ensures
            server@ == (PlayerServerModel {
                app_filter: opt_text(app_filter),
                key_filter: opt_text(key_filter),
                demux: DemuxModel::fresh(),
                headers: CacheModel::empty(),
                carry: Seq::empty(),
                stage: PlayerStage::Waiting,
                player_over: false,
            }),
    {
        let server = PlayerServer {
            app_filter,
            key_filter,
            demux: FlvDemux::default(),
            headers: HeaderCache::default(),
            carry: Vec::new(),
            stage: PlayerStage::Waiting,
            player_over: false,
        };
        assert(server@.carry =~= Seq::<u8>::empty());
        server
    }

    /// Whether a player gets live data.
    pub fn player_connected(&self) -> (connected: bool)
        ensures
            connected == (self@.stage is Streaming),
    {
        match self.stage {
            PlayerStage::Streaming { .. } => true,
            _ => false,
        }
    }

    /// Reacts to one session result while the player waits to be let in. A
    /// wrong application or stream key is rejected and the connection dropped,
    /// so that the listener keeps serving the configured stream.
    pub fn pump_until_play(&self, result: ServerSessionResult) -> (script: Script)
        ensures
            script@ == self@.before_play(result@),
    {
        let event: ServerSessionEvent = match result {
            ServerSessionResult::OutboundResponse(packet) => {
                return Script::one(Op::write(packet));
            },
            ServerSessionResult::RaisedEvent(event) => event,
            ServerSessionResult::UnhandleableMessageReceived => {
                return Script::ending(Conclusion::Continue);
            },
        };
        match event {
            ServerSessionEvent::ConnectionRequested { request_id, .. } => Script::one(
                Op::ask(
                    Call::AcceptConnection { request_id },
                    "Failed to accept RTMP connection",
                    OnWrite::Fail,
                ),
            ),
            ServerSessionEvent::PlayStreamRequested {
                request_id,
                app_name,
                stream_key,
                stream_id,
            } => {
                if filter_admits(&self.app_filter, app_name.as_str()) && filter_admits(
                    &self.key_filter,
                    stream_key.as_str(),
                ) {
                    let mut script: Script = Script::one(
                        Op::ask(
                            Call::AcceptPlay { request_id },
                            "Failed to accept RTMP play",
                            OnWrite::Fail,
                        ),
                    );
                    script.conclusion = Conclusion::Playing { stream_id };
                    script
                } else {
                    reject(
                        request_id,
                        "NetStream.Play.Failed",
                        "this endpoint only serves its configured stream",
                        "Failed to reject RTMP play",
                    )
                }
            },
            ServerSessionEvent::PublishStreamRequested { request_id, .. } => reject(
                request_id,
                "NetStream.Publish.BadName",
                "this endpoint only serves players",
                "Failed to reject RTMP publish",
            ),
            _ => Script::ending(Conclusion::Continue),
        }
    }

    fn react_during_play(&mut self, result: ServerSessionResult) -> (script: Script)
        ensures
            (final(self)@, script@) == old(self)@.during_play(result@),
    {
        match result {
            ServerSessionResult::OutboundResponse(packet) => Script::one(
                Op {
                    call: Call::WriteMedia(packet),
                    policy: Policy { closed: None, refused: None, on_write: OnWrite::Fail },
                },
            ),
            ServerSessionResult::RaisedEvent(ServerSessionEvent::PlayStreamFinished { .. }) => {
                self.player_over = true;
                Script::ending(Conclusion::Continue)
            },
            _ => Script::ending(Conclusion::Continue),
        }
    }

    fn give_back(&mut self, outcome: PlayerOutcome) -> (action: PlayerAction)
        ensures
            (final(self)@, action@) == old(self)@.returning(outcome),
    {
        self.carry = Vec::new();
        self.stage = PlayerStage::Waiting;
        self.player_over = false;
        assert(self@.carry =~= Seq::<u8>::empty());
        PlayerAction::Return(outcome)
    }

    fn give_up(&mut self, cancelled: bool) -> (action: PlayerAction)
        ensures
            (final(self)@, action@) == old(self)@.player_problem(cancelled),
    {
        self.give_back(
            if cancelled {
                PlayerOutcome::Shutdown
            } else {
                PlayerOutcome::PlayerDone
            },
        )
    }

    fn take_in(&mut self, chunk: &[u8]) -> (tags: Vec<FlvTag>)
        ensures
            final(self)@ == old(self)@.taking_in(chunk@),
            tag_models(tags@) == old(self)@.demux.tags(chunk@),
    {
        let tags: Vec<FlvTag> = self.demux.push(chunk);
        self.headers.observe_all(&tags);
        tags
    }

    fn finish_script(&mut self, conclusion: Conclusion) -> (action: PlayerAction)
        ensures
            (final(self)@, action@) == old(self)@.after_script(conclusion@),
    {
        match (self.stage, conclusion) {
            (PlayerStage::Ending { outcome }, _) => self.give_back(outcome),
            (_, Conclusion::Playing { stream_id }) => {
                self.stage = PlayerStage::Draining { stream_id };
                PlayerAction::DrainBacklog
            },
            (PlayerStage::Replaying { stream_id }, Conclusion::Continue) => {
                self.stage = PlayerStage::Streaming { stream_id };
                PlayerAction::Wait
            },
            (_, Conclusion::Continue) => PlayerAction::NextResult,
            _ => self.give_back(PlayerOutcome::PlayerDone),
        }
    }

    /// Streams to a player that was let in, until it leaves, the stream ends
    /// or the sink stops.
    ///
    /// What was queued while nobody listened is first taken in without being
    /// sent, then the cached sequence headers are replayed, so that the player
    /// can decode from the live edge.
    fn stream_to_player(&mut self, event: PlayerEvent) -> (action: PlayerAction)
        requires
            event is Backlog || event is BacklogEmpty || event is BacklogClosed || event is Data
                || event is DataOver || event is Cancelled,
        ensures
            (final(self)@, action@) == old(self)@.step(event@),
    {
        match event {
            PlayerEvent::Backlog(chunk) => {
                let _tags: Vec<FlvTag> = self.take_in(chunk.as_slice());
                PlayerAction::DrainBacklog
            },
            PlayerEvent::BacklogEmpty => match self.stage {
                PlayerStage::Draining { stream_id } => {
                    self.stage = PlayerStage::Replaying { stream_id };
                    let cached: Vec<FlvTag> = self.headers.ordered();
                    PlayerAction::Run(serve_tags(stream_id, &cached, true))
                },
                _ => PlayerAction::NextResult,
            },
            PlayerEvent::BacklogClosed => self.give_back(PlayerOutcome::Eos),
            PlayerEvent::Data(chunk) => {
                let tags: Vec<FlvTag> = self.take_in(chunk.as_slice());
                match self.stage {
                    PlayerStage::Streaming { stream_id } => PlayerAction::Run(
                        serve_tags(stream_id, &tags, false),
                    ),
                    _ => PlayerAction::NextResult,
                }
            },
            PlayerEvent::DataOver => match self.stage {
                PlayerStage::Streaming { stream_id } => {
                    self.stage = PlayerStage::Ending { outcome: PlayerOutcome::Eos };
                    let mut script: Script = Script::one(
                        Op::anyway(Call::FinishPlaying { stream_id }),
                    );
                    script.push(Op::anyway(Call::ShutDown));
                    assert(script@.ops =~= seq![
                        anyway(CallModel::FinishPlaying { stream_id }),
                        anyway(CallModel::ShutDown),
                    ]);
                    PlayerAction::Run(script)
                },
                _ => self.give_back(PlayerOutcome::Eos),
            },
            _ => {
                self.stage = PlayerStage::Ending { outcome: PlayerOutcome::Shutdown };
                PlayerAction::Run(Script::one(Op::anyway(Call::ShutDown)))
            },
        }
    }

    /// Drives one player through handshake, connect and play, then streams to
    /// it: takes in what happened and says what to do next. Anything the
    /// player does wrong ends that player; the listener keeps accepting.
    pub fn serve_one_player(&mut self, event: PlayerEvent) -> (action: PlayerAction)
        ensures
            (final(self)@, action@) == old(self)@.step(event@),
    {
        match event {
            PlayerEvent::HandshakeOver { result, cancelled } => match result {
                Ok(carry) => {
                    self.carry = carry;
                    PlayerAction::CreateSession
                },
                Err(_) => self.give_up(cancelled),
            },
            PlayerEvent::SessionReady => {
                if self.carry.len() > 0 {
                    let carry: Vec<u8> = vstd::slice::slice_to_vec(self.carry.as_slice());
                    self.carry = Vec::new();
                    assert(self@.carry =~= Seq::<u8>::empty());
                    PlayerAction::Feed(carry)
                } else {
                    PlayerAction::Read
                }
            },
            PlayerEvent::SessionRefused => self.give_back(PlayerOutcome::PlayerDone),
            PlayerEvent::Fed => PlayerAction::NextResult,
            PlayerEvent::FeedRefused => self.give_back(PlayerOutcome::PlayerDone),
            PlayerEvent::Result(result) => match self.stage {
                PlayerStage::Streaming { .. } => PlayerAction::Run(self.react_during_play(result)),
                _ => PlayerAction::Run(self.pump_until_play(result)),
            },
            PlayerEvent::NoMoreResults => match self.stage {
                PlayerStage::Streaming { .. } => {
                    if self.player_over {
                        self.stage = PlayerStage::Ending { outcome: PlayerOutcome::PlayerDone };
                        PlayerAction::Run(Script::one(Op::anyway(Call::ShutDown)))
                    } else {
                        PlayerAction::Wait
                    }
                },
                _ => PlayerAction::Read,
            },
            PlayerEvent::ScriptOver(conclusion) => self.finish_script(conclusion),
            PlayerEvent::Read { outcome, cancelled } => match read_session_chunk(outcome) {
                Ok(bytes) => {
                    if bytes.len() == 0 {
                        self.give_back(PlayerOutcome::PlayerDone)
                    } else {
                        PlayerAction::Feed(bytes)
                    }
                },
                Err(_) => self.give_up(cancelled),
            },
            PlayerEvent::Backlog(_)
            | PlayerEvent::BacklogEmpty
            | PlayerEvent::BacklogClosed
            | PlayerEvent::Data(_)
            | PlayerEvent::DataOver
            | PlayerEvent::Cancelled => self.stream_to_player(event),
        }
    }
}

/// A rejection, and the end of the player's visit.
fn reject(request_id: u32, code: &str, description: &str, refused: &str) -> (script: Script)
    ensures
        script@ == turn_away(request_id, code@, description@, refused@),
{
    let mut script: Script = Script::one(
        Op::ask(
            Call::Reject {
                request_id,
                code: code.to_owned(),
                description: description.to_owned(),
            },
            refused,
            OnWrite::Fail,
        ),
    );
    script.conclusion = Conclusion::TurnedAway;
    script
}

/// What has just happened to a listening sink.
#[derive(Debug)]
pub enum ListenEvent {
    /// Nobody is served; `data_over` tells whether the element has no more
    /// FLV bytes.
    Idle { data_over: bool },
    /// The sink is being stopped.
    Cancelled,
    /// A player connected.
    Accepted,
    /// No player connected in time.
    AcceptTimedOut,
    /// Accepting failed, and why.
    AcceptFailed(String),
    /// The connection is configured.
    Configured,
    /// It could not be configured, and why.
    ConfigureFailed(String),
    /// The TLS handshake is done.
    Secured,
    /// The TLS handshake failed.
    SecureFailed,
    /// The player's connection is over.
    Served(PlayerOutcome),
}

/// What a listening sink does next.
#[derive(Debug)]
pub enum ListenAction {
    /// See whether the element still has FLV bytes.
    CheckData,
    /// Wait for a player, for this long at most.
    Accept { limit: Option<std::time::Duration> },
    /// Configure the connection.
    Configure,
    /// Run the TLS handshake, for this long at most.
    Secure { limit: Option<std::time::Duration> },
    /// Serve the player.
    Serve,
    /// Stop listening.
    Return(Result<(), SessionFailure>),
}

/// What a listening sink does next, as plain mathematics.
#[verifier::ext_equal]
pub enum ListenActionModel {
    CheckData,
    Accept { limit: Option<std::time::Duration> },
    Configure,
    Secure { limit: Option<std::time::Duration> },
    Serve,
    Return(Option<FailureModel>),
}

impl View for ListenAction {
    type V = ListenActionModel;

    open spec fn view(&self) -> ListenActionModel {
        match self {
            ListenAction::CheckData => ListenActionModel::CheckData,
            ListenAction::Accept { limit } => ListenActionModel::Accept { limit: *limit },
            ListenAction::Configure => ListenActionModel::Configure,
            ListenAction::Secure { limit } => ListenActionModel::Secure { limit: *limit },
            ListenAction::Serve => ListenActionModel::Serve,
            ListenAction::Return(result) => ListenActionModel::Return(
                match result {
                    Ok(_) => None,
                    Err(failure) => Some(failure@),
                },
            ),
        }
    }
}

/// A sink that listens for players.
#[derive(Debug, Clone, Copy, PartialEq, Eq, Structural)]
pub struct PlayerListener {
    /// Whether connections are secured by TLS.
    pub tls: bool,
    /// Nanoseconds to wait for a player; 0 for no limit.
    pub accept_timeout: u64,
    /// Nanoseconds for a handshake read; 0 for no limit.
    pub handshake_timeout: u64,
}

impl PlayerListener {
    /// The next action after an event.
    pub open spec fn after(self, event: ListenEvent) -> ListenActionModel {
        match event {
            ListenEvent::Idle { data_over } => if data_over {
                ListenActionModel::Return(None)
            } else {
                ListenActionModel::Accept { limit: limit_of(self.accept_timeout) }
            },
            ListenEvent::Cancelled => ListenActionModel::Return(None),
            ListenEvent::Accepted => ListenActionModel::Configure,
            ListenEvent::AcceptTimedOut => ListenActionModel::Return(
                Some(
                    failed(
                        "failed to accept RTMP player: timed out after "@ + duration_text(
                            self.accept_timeout,
                        ) + " waiting for an RTMP player"@,
                    ),
                ),
            ),
            ListenEvent::AcceptFailed(reason) => ListenActionModel::Return(
                Some(failed("failed to accept RTMP player: "@ + reason@)),
            ),
            ListenEvent::Configured => if self.tls {
                ListenActionModel::Secure { limit: limit_of(self.handshake_timeout) }
            } else {
                ListenActionModel::Serve
            },
            ListenEvent::ConfigureFailed(reason) => ListenActionModel::Return(
                Some(failed("failed to configure TCP_NODELAY: "@ + reason@)),
            ),
            ListenEvent::Secured => ListenActionModel::Serve,
            ListenEvent::SecureFailed => ListenActionModel::CheckData,
            ListenEvent::Served(outcome) => match outcome {
                PlayerOutcome::PlayerDone => ListenActionModel::CheckData,
                _ => ListenActionModel::Return(None),
            },
        }
    }

    /// Accepts players forever, serving one at a time: takes in what happened
    /// and says what to do next.
    ///
    /// Player failures, a failed TLS handshake among them, only end that
    /// player; the loop keeps listening. Returns `Ok` at the end of the stream
    /// and on shutdown, and `Err` only for problems of the listener itself.
    pub fn listen_until_done(&self, event: ListenEvent) -> (action: ListenAction)
        ensures
            action@ == self.after(event),
    {
        match event {
            ListenEvent::Idle { data_over } => {
                if data_over {
                    ListenAction::Return(Ok(()))
                } else {
                    ListenAction::Accept { limit: nanoseconds_timeout(self.accept_timeout) }
                }
            },
            ListenEvent::Cancelled => ListenAction::Return(Ok(())),
            ListenEvent::Accepted => ListenAction::Configure,
            ListenEvent::AcceptTimedOut => {
                let limit: String = show_duration(self.accept_timeout);
                ListenAction::Return(
                    Err(
                        SessionFailure::error(
                            join3(
                                "failed to accept RTMP player: timed out after ",
                                limit.as_str(),
                                " waiting for an RTMP player",
                            ),
                        ),
                    ),
                )
            },
            ListenEvent::AcceptFailed(reason) => ListenAction::Return(
                Err(SessionFailure::error(join2("failed to accept RTMP player: ", reason.as_str()))),
            ),
            ListenEvent::Configured => {
                if self.tls {
                    ListenAction::Secure { limit: nanoseconds_timeout(self.handshake_timeout) }
                } else {
                    ListenAction::Serve
                }
            },
            ListenEvent::ConfigureFailed(reason) => ListenAction::Return(
                Err(
                    SessionFailure::error(
                        join2("failed to configure TCP_NODELAY: ", reason.as_str()),
                    ),
                ),
            ),
            ListenEvent::Secured => ListenAction::Serve,
            ListenEvent::SecureFailed => ListenAction::CheckData,
            ListenEvent::Served(outcome) => match outcome {
                PlayerOutcome::PlayerDone => ListenAction::CheckData,
                _ => ListenAction::Return(Ok(())),
            },
        }
    }
}

impl PlayerServerModel {
    /// Whether the state is what the stream `chunks` makes of it: the demuxer
    /// has taken every chunk once, in order, and the cache has seen every tag.
    pub open spec fn has_taken_in(self, chunks: Seq<Seq<u8>>) -> bool {
        &&& self.demux == DemuxModel::fresh().after_all(chunks)
        &&& self.headers == CacheModel::empty().observing_all(
            DemuxModel::fresh().tags_all(chunks),
        )
    }
}

/// The FLV bytes that an event brings.
pub open spec fn brought(event: PlayerEventModel) -> Option<Seq<u8>> {
    match event {
        PlayerEventModel::Backlog(chunk) => Some(chunk),
        PlayerEventModel::Data(chunk) => Some(chunk),
        _ => None,
    }
}

/// Every byte flows through the demuxer exactly once, in order, for the whole
/// life of the listener, whoever is or is not there to play it, and the header
/// cache has seen every tag: players come and go without losing either.
pub proof fn law_stream_outlives_players(
    server: PlayerServerModel,
    chunks: Seq<Seq<u8>>,
    event: PlayerEventModel,
)
    requires
        server.has_taken_in(chunks),
    ensures
        server.step(event).0.has_taken_in(
            match brought(event) {
                Some(chunk) => chunks.push(chunk),
                None => chunks,
            },
        ),
{
    if let Some(chunk) = brought(event) {
        let fresh = DemuxModel::fresh();
        lemma_one_more_chunk(fresh, chunks, chunk);
        lemma_observing_concat(
            CacheModel::empty(),
            fresh.tags_all(chunks),
            fresh.after_all(chunks).tags(chunk),
        );
    }
}

/// The tags that a list of calls sends to a player, in order.
pub open spec fn served(ops: Seq<OpModel>) -> Seq<TagModel>
    decreases ops.len(),
{
    if ops.len() == 0 {
        Seq::empty()
    } else {
        let front = served(ops.drop_last());
        match ops.last().call {
            CallModel::Serve { stream_id, tag } => front.push(tag),
            _ => front,
        }
    }
}

proof fn lemma_serve_ops_serve(stream_id: u32, tags: Seq<TagModel>, cached: bool)
    requires
        forall|i: int|
            0 <= i < tags.len() ==> serve_refusal((#[trigger] tags[i]).tag_type, cached) is Some,
    ensures
        served(serve_ops(stream_id, tags, cached)) == tags,
        forall|i: int|
            0 <= i < serve_ops(stream_id, tags, cached).len() ==> ((#[trigger] serve_ops(
                stream_id,
                tags,
                cached,
            )[i]).call matches CallModel::Serve { stream_id: id, tag } && id == stream_id),
    decreases tags.len(),
{
    let ops = serve_ops(stream_id, tags, cached);
    if tags.len() == 0 {
        assert(served(ops) =~= tags);
    } else {
        let front = tags.drop_last();
        assert forall|i: int| 0 <= i < front.len() implies serve_refusal(
            (#[trigger] front[i]).tag_type,
            cached,
        ) is Some by {
            assert(front[i] == tags[i]);
        }
        lemma_serve_ops_serve(stream_id, front, cached);
        let before = serve_ops(stream_id, front, cached);
        assert(serve_refusal(tags[tags.len() - 1].tag_type, cached) is Some);
        assert(ops.drop_last() =~= before);
        assert(served(ops) =~= tags);
        assert forall|i: int| 0 <= i < ops.len() implies ((#[trigger] ops[i]).call matches
            CallModel::Serve { stream_id: id, tag } && id == stream_id) by {
            if i < before.len() {
                assert(ops[i] == before[i]);
            }
        }
    }
}

/// A player that is there gets every tag of the stream, audio, video and
/// script data alike, in order and as soon as it is complete.
pub proof fn law_live_tags_reach_the_player(
    server: PlayerServerModel,
    stream_id: u32,
    chunk: Seq<u8>,
)
    requires
        server.stage == (PlayerStage::Streaming { stream_id }),
    ensures
        server.step(PlayerEventModel::Data(chunk)).1 matches PlayerActionModel::Run(script)
            && served(script.ops) == server.demux.tags(chunk) && script.conclusion
            == ConclusionModel::Continue,
        server.step(PlayerEventModel::Data(chunk)).0.stage == server.stage,
{
    let tags = server.demux.tags(chunk);
    if let Some(bytes) = server.demux.tag_bytes(chunk) {
        law_only_media_tags_come_out(bytes);
    }
    lemma_serve_ops_serve(stream_id, tags, false);
}

/// What was queued while nobody was there is never sent: it only moves the
/// stream on. A player that joins then gets the latest sequence headers, video
/// before audio, and only after them anything live.
pub proof fn law_late_joiner_starts_with_the_headers(
    server: PlayerServerModel,
    chunks: Seq<Seq<u8>>,
    stream_id: u32,
    chunk: Seq<u8>,
)
    requires
        server.has_taken_in(chunks),
        server.stage == (PlayerStage::Draining { stream_id }),
    ensures
        server.step(PlayerEventModel::Backlog(chunk)).1 == PlayerActionModel::DrainBacklog,
        server.step(PlayerEventModel::Backlog(chunk)).0.stage == server.stage,
        server.step(PlayerEventModel::BacklogEmpty).1 matches PlayerActionModel::Run(script)
            && served(script.ops) == CacheModel::empty().observing_all(
            DemuxModel::fresh().tags_all(chunks),
        ).ordered() && script.conclusion == ConclusionModel::Continue,
        ({
            let replaying = server.step(PlayerEventModel::BacklogEmpty).0;
            &&& replaying.stage == (PlayerStage::Replaying { stream_id })
            &&& replaying.step(PlayerEventModel::ScriptOver(ConclusionModel::Continue)).0.stage == (
            PlayerStage::Streaming { stream_id })
        }),
{
    let tags = DemuxModel::fresh().tags_all(chunks);
    law_replay_is_video_then_audio(tags);
    law_cache_holds_the_latest_headers(tags);
    let replay = server.headers.ordered();
    assert forall|i: int| 0 <= i < replay.len() implies serve_refusal(
        (#[trigger] replay[i]).tag_type,
        true,
    ) is Some by {
        assert(is_video_header(replay[i]) || is_audio_header(replay[i]));
    }
    lemma_serve_ops_serve(stream_id, replay, true);
}

/// A player counts as connected only after it got the sequence headers, and no
/// longer once its connection returned or is being closed.
pub proof fn law_connected_means_streaming(server: PlayerServerModel, event: PlayerEventModel)
    ensures
        ({
            let (next, action) = server.step(event);
            &&& next.stage is Streaming && !(server.stage is Streaming) ==> server.stage is Replaying
                && event == PlayerEventModel::ScriptOver(ConclusionModel::Continue)
            &&& action is Return ==> next.stage == PlayerStage::Waiting
        }),
{
}

/// Only the configured stream is served: a player is let in exactly when its
/// play request passes the filters, and whoever is not let in gets no media
/// and goes.
pub proof fn law_only_the_configured_stream_is_served(
    server: PlayerServerModel,
    result: ServerResultModel,
)
    ensures
        ({
            let script = server.before_play(result);
            &&& script.conclusion is Playing <==> (result matches ServerResultModel::PlayRequested {
                request_id,
                app_name,
                stream_key,
                stream_id,
            } && server.allows(app_name, stream_key))
            &&& forall|i: int|
                0 <= i < script.ops.len() ==> !((#[trigger] script.ops[i]).call is Serve)
            &&& script.conclusion == ConclusionModel::TurnedAway ==> forall|stage: PlayerStage|
                !(stage is Ending) ==> #[trigger] (PlayerServerModel { stage, ..server }).step(
                    PlayerEventModel::ScriptOver(script.conclusion),
                ).1 == PlayerActionModel::Return(PlayerOutcome::PlayerDone)
        }),
        ({
            let requested = result is PlayRequested || result is PublishRequested;
            requested ==> server.before_play(result).conclusion is Playing || server.before_play(
                result,
            ).conclusion == ConclusionModel::TurnedAway
        }),
{
}

/// A missing application or stream key means that any player is let in.
pub proof fn law_missing_filters_serve_any(
    server: PlayerServerModel,
    request_id: u32,
    app_name: Seq<char>,
    stream_key: Seq<char>,
    stream_id: u32,
)
    requires
        server.app_filter is None,
        server.key_filter is None,
    ensures
        server.before_play(
            ServerResultModel::PlayRequested { request_id, app_name, stream_key, stream_id },
        ).conclusion == (ConclusionModel::Playing { stream_id }),
{
}

/// Media is only ever sent to a player that was let in.
pub proof fn law_no_media_before_play(server: PlayerServerModel, event: PlayerEventModel)
    requires
        server.stage is Waiting,
    ensures
        server.step(event).1 matches PlayerActionModel::Run(script) ==> served(script.ops)
            == Seq::<TagModel>::empty(),
        !(server.step(event).0.stage is Streaming),
        server.step(event).0.stage is Draining ==> (event matches PlayerEventModel::ScriptOver(
            conclusion,
        ) && conclusion is Playing),
{
    reveal_with_fuel(served, 3);
}

impl PlayerServerModel {
    /// The state after several events.
    pub open spec fn after_events(self, events: Seq<PlayerEventModel>) -> PlayerServerModel
        decreases events.len(),
    {
        if events.len() == 0 {
            self
        } else {
            self.after_events(events.drop_last()).step(events.last()).0
        }
    }
}

/// While no player is let in, the element's queue is left alone, which is what
/// holds the pipeline back: data is asked for only by a step that lets a player
/// in.
pub proof fn law_queue_waits_for_a_player(server: PlayerServerModel, event: PlayerEventModel)
    requires
        server.stage is Waiting || server.stage is Ending,
        brought(event) is None,
    ensures
        ({
            let (next, action) = server.step(event);
            action is DrainBacklog || action is Wait ==> next.stage is Draining && (
            event matches PlayerEventModel::ScriptOver(conclusion) && conclusion is Playing)
        }),
{
}

/// Over a whole visit, whatever happens in whatever order, a peer that no play
/// request let in never gets a tag.
pub proof fn law_no_visit_gets_media_without_play(
    server: PlayerServerModel,
    events: Seq<PlayerEventModel>,
    next: PlayerEventModel,
)
    requires
        server.stage is Waiting,
        forall|i: int|
            0 <= i < events.len() ==> !(#[trigger] events[i] matches PlayerEventModel::ScriptOver(
                conclusion,
            ) && conclusion is Playing),
    ensures
        ({
            let reached = server.after_events(events);
            &&& reached.stage is Waiting || reached.stage is Ending
            &&& reached.step(next).1 matches PlayerActionModel::Run(script) ==> served(script.ops)
                == Seq::<TagModel>::empty()
        }),
    decreases events.len(),
{
    reveal_with_fuel(served, 3);
    if events.len() > 0 {
        let earlier = events.drop_last();
        assert forall|i: int| 0 <= i < earlier.len() implies !(
        #[trigger] earlier[i] matches PlayerEventModel::ScriptOver(conclusion)
            && conclusion is Playing) by {
            assert(earlier[i] == events[i]);
        }
        let last = events[events.len() - 1];
        law_no_visit_gets_media_without_play(server, earlier, last);
    }
}

/// Nothing that a player does ends the listener: its connection ends with
/// anything but `PlayerDone` only when the stream is over or the sink stops.
pub proof fn law_players_only_end_themselves(
    server: PlayerServerModel,
    event: PlayerEventModel,
    listener: PlayerListener,
)
    ensures
        ({
            let (next, action) = server.step(event);
            &&& action == PlayerActionModel::Return(PlayerOutcome::Eos) ==> event is BacklogClosed
                || event is DataOver || server.stage == (PlayerStage::Ending {
                outcome: PlayerOutcome::Eos,
            })
            &&& action == PlayerActionModel::Return(PlayerOutcome::Shutdown) ==> (match event {
                PlayerEventModel::HandshakeOver { result, cancelled } => cancelled,
                PlayerEventModel::Read { outcome, cancelled } => cancelled,
                _ => server.stage == (PlayerStage::Ending { outcome: PlayerOutcome::Shutdown }),
            })
            &&& next.stage == (PlayerStage::Ending { outcome: PlayerOutcome::Eos }) && next.stage
                != server.stage ==> event is DataOver
            &&& next.stage == (PlayerStage::Ending { outcome: PlayerOutcome::Shutdown })
                && next.stage != server.stage ==> event is Cancelled
        }),
        listener.after(ListenEvent::Served(PlayerOutcome::PlayerDone))
            == ListenActionModel::CheckData,
        listener.after(ListenEvent::SecureFailed) == ListenActionModel::CheckData,
        listener.after(ListenEvent::Idle { data_over: false }) == (ListenActionModel::Accept {
            limit: limit_of(listener.accept_timeout),
        }),
{
}

/// A player is let in exactly if the application and the stream that it asks for
/// each equal the configured one, wherever one is configured: its request is
/// accepted, under its own id, and it plays the stream id that it asked with.
/// Whoever asks for anything else is refused with `NetStream.Play.Failed`, and a
/// publisher with `NetStream.Publish.BadName`; both have to go.
pub proof fn law_players_need_the_configured_names(
    server: PlayerServerModel,
    request_id: u32,
    app_name: Seq<char>,
    stream_key: Seq<char>,
    stream_id: u32,
)
    requires
        !(server.stage is Streaming),
    ensures
        ({
            let (next, action) = server.step(
                PlayerEventModel::Result(
                    ServerResultModel::PlayRequested {
                        request_id,
                        app_name,
                        stream_key,
                        stream_id,
                    },
                ),
            );
            let welcome = (server.app_filter matches Some(app) ==> app == app_name) && (
            server.key_filter matches Some(key) ==> key == stream_key);
            &&& next == server
            &&& action matches PlayerActionModel::Run(script) && script.ops.len() == 1
                && script.ops[0].policy.on_write == OnWrite::Fail && script.ops[0].policy.closed is
                None && if welcome {
                &&& script.ops[0].call == (CallModel::AcceptPlay { request_id })
                &&& script.ops[0].policy.refused == Some("Failed to accept RTMP play"@)
                &&& script.conclusion == (ConclusionModel::Playing { stream_id })
            } else {
                &&& script.ops[0].call == (CallModel::Reject {
                    request_id,
                    code: "NetStream.Play.Failed"@,
                    description: "this endpoint only serves its configured stream"@,
                })
                &&& script.ops[0].policy.refused == Some("Failed to reject RTMP play"@)
                &&& script.conclusion == ConclusionModel::TurnedAway
            }
        }),
        ({
            let (next, action) = server.step(
                PlayerEventModel::Result(
                    ServerResultModel::PublishRequested {
                        request_id,
                        app_name,
                        stream_key,
                        stream_id,
                    },
                ),
            );
            &&& next == server
            &&& action matches PlayerActionModel::Run(script) && script.ops.len() == 1
                && script.ops[0].call == (CallModel::Reject {
                request_id,
                code: "NetStream.Publish.BadName"@,
                description: "this endpoint only serves players"@,
            }) && script.ops[0].policy.refused == Some("Failed to reject RTMP publish"@)
                && script.ops[0].policy.on_write == OnWrite::Fail && script.conclusion
                == ConclusionModel::TurnedAway
        }),
{
}

/// Before a player is let in every connection is accepted, whatever application
/// it names, and what needs no answer gets none.
pub proof fn law_waiting_players_are_answered(
    server: PlayerServerModel,
    request_id: u32,
    name: Seq<char>,
    tag: TagModel,
)
    requires
        !(server.stage is Streaming),
    ensures
        ({
            let (next, action) = server.step(
                PlayerEventModel::Result(
                    ServerResultModel::ConnectionRequested { request_id, app_name: name },
                ),
            );
            &&& next == server
            &&& action matches PlayerActionModel::Run(script) && script.ops.len() == 1
                && script.ops[0].call == (CallModel::AcceptConnection { request_id })
                && script.ops[0].policy.refused == Some("Failed to accept RTMP connection"@)
                && script.ops[0].policy.on_write == OnWrite::Fail && script.conclusion
                == ConclusionModel::Continue
        }),
        ({
            let silent = |result: ServerResultModel|
                {
                    let (next, action) = server.step(PlayerEventModel::Result(result));
                    &&& next == server
                    &&& action matches PlayerActionModel::Run(script) && script.ops.len() == 0
                        && script.conclusion == ConclusionModel::Continue
                };
            &&& silent(ServerResultModel::PublishFinished { stream_key: name })
            &&& silent(ServerResultModel::PlayFinished { stream_key: name })
            &&& silent(ServerResultModel::Media(tag))
            &&& silent(ServerResultModel::Ignored)
        }),
{
}

/// While a player plays, only the end of its playing counts: when it comes, the
/// connection is closed behind the batch that brought it, as that of a player
/// that is done. Everything else that the player sends changes nothing.
pub proof fn law_players_may_stop_playing(
    server: PlayerServerModel,
    stream_id: u32,
    stream_key: Seq<char>,
    result: ServerResultModel,
)
    requires
        server.stage == (PlayerStage::Streaming { stream_id }),
        !(result is Outbound),
        !(result is PlayFinished),
    ensures
        ({
            let (next, action) = server.step(
                PlayerEventModel::Result(ServerResultModel::PlayFinished { stream_key }),
            );
            let (closing, end) = next.step(PlayerEventModel::NoMoreResults);
            &&& next == (PlayerServerModel { player_over: true, ..server })
            &&& action matches PlayerActionModel::Run(script) && script.ops.len() == 0
                && script.conclusion == ConclusionModel::Continue
            &&& end matches PlayerActionModel::Run(script) && script.ops.len() == 1
                && script.ops[0].call == CallModel::ShutDown && script.ops[0].policy.on_write
                == OnWrite::Ignore && script.conclusion == ConclusionModel::Continue
            &&& closing.step(PlayerEventModel::ScriptOver(ConclusionModel::Continue)).1
                == PlayerActionModel::Return(PlayerOutcome::PlayerDone)
        }),
        ({
            let (next, action) = server.step(PlayerEventModel::Result(result));
            &&& next == server
            &&& action matches PlayerActionModel::Run(script) && script.ops.len() == 0
                && script.conclusion == ConclusionModel::Continue
        }),
        !server.player_over ==> server.step(PlayerEventModel::NoMoreResults) == (
            server,
            PlayerActionModel::Wait,
        ),
{
}

/// A visit of a player, step by step: the session is made behind the handshake
/// and fed every byte that came, those behind the handshake first; all results of
/// one input are taken before more is read; the player that is let in first waits
/// until what was queued is taken in, then gets the cached headers, then live
/// data.
pub proof fn law_players_are_served_step_by_step(
    server: PlayerServerModel,
    bytes: Seq<u8>,
    stream_id: u32,
    cancelled: bool,
)
    requires
        bytes.len() > 0,
        server.stage == PlayerStage::Waiting,
    ensures
        ({
            let (next, action) = server.step(
                PlayerEventModel::HandshakeOver { result: Ok(bytes), cancelled },
            );
            &&& action == PlayerActionModel::CreateSession
            &&& next == (PlayerServerModel { carry: bytes, ..server })
            &&& next.step(PlayerEventModel::SessionReady).1 == PlayerActionModel::Feed(bytes)
            &&& next.step(PlayerEventModel::SessionReady).0 == (PlayerServerModel {
                carry: Seq::empty(),
                ..server
            })
        }),
        server.step(
            PlayerEventModel::HandshakeOver { result: Ok(Seq::empty()), cancelled },
        ).0.step(PlayerEventModel::SessionReady).1 == PlayerActionModel::Read,
        server.step(PlayerEventModel::Fed) == (server, PlayerActionModel::NextResult),
        server.step(PlayerEventModel::NoMoreResults) == (server, PlayerActionModel::Read),
        server.step(PlayerEventModel::Read { outcome: ReadModel::Received(bytes), cancelled }) == (
            server,
            PlayerActionModel::Feed(bytes),
        ),
        server.step(PlayerEventModel::ScriptOver(ConclusionModel::Continue)) == (
            server,
            PlayerActionModel::NextResult,
        ),
        ({
            let (draining, drain) = server.step(
                PlayerEventModel::ScriptOver(ConclusionModel::Playing { stream_id }),
            );
            let (replaying, replay) = draining.step(PlayerEventModel::BacklogEmpty);
            let (streaming, wait) = replaying.step(
                PlayerEventModel::ScriptOver(ConclusionModel::Continue),
            );
            &&& drain == PlayerActionModel::DrainBacklog
            &&& draining == (PlayerServerModel {
                stage: PlayerStage::Draining { stream_id },
                ..server
            })
            &&& replay is Run
            &&& replaying == (PlayerServerModel {
                stage: PlayerStage::Replaying { stream_id },
                ..server
            })
            &&& wait == PlayerActionModel::Wait
            &&& streaming == (PlayerServerModel {
                stage: PlayerStage::Streaming { stream_id },
                ..server
            })
        }),
{
}

/// A player that is let in gets the cached headers, video before audio, each by
/// one call under its own stream id that minds a refusal in the words of its
/// type, and nothing else.
pub proof fn law_cached_headers_are_sent(
    server: PlayerServerModel,
    stream_id: u32,
    video: TagModel,
    audio: TagModel,
)
    requires
        server.stage == (PlayerStage::Draining { stream_id }),
        video.tag_type == 9,
        audio.tag_type == 8,
    ensures
        ({
            let replays = |headers: CacheModel, calls: Seq<(TagModel, Seq<char>)>|
                {
                    let holding = PlayerServerModel { headers, ..server };
                    holding.step(PlayerEventModel::BacklogEmpty).1 matches PlayerActionModel::Run(
                        script,
                    ) && script.conclusion == ConclusionModel::Continue && script.ops.len()
                        == calls.len() && forall|i: int|
                        0 <= i < calls.len() ==> (#[trigger] script.ops[i]).call == (
                        CallModel::Serve { stream_id, tag: calls[i].0 })
                            && script.ops[i].policy.refused == Some(calls[i].1)
                            && script.ops[i].policy.on_write == OnWrite::Fail
                };
            &&& replays(
                CacheModel { video: Some(video), audio: Some(audio) },
                seq![
                    (video, "failed to frame video header"@),
                    (audio, "failed to frame audio header"@),
                ],
            )
            &&& replays(
                CacheModel { video: Some(video), audio: None },
                seq![(video, "failed to frame video header"@)],
            )
            &&& replays(
                CacheModel { video: None, audio: Some(audio) },
                seq![(audio, "failed to frame audio header"@)],
            )
            &&& replays(CacheModel { video: None, audio: None }, Seq::empty())
        }),
{
    reveal_with_fuel(serve_ops, 3);
    let both = seq![video, audio];
    assert(CacheModel { video: Some(video), audio: Some(audio) }.ordered() =~= both);
    assert(both.drop_last() =~= seq![video]);
    assert(CacheModel { video: Some(video), audio: None }.ordered() =~= seq![video]);
    assert(CacheModel { video: None, audio: Some(audio) }.ordered() =~= seq![audio]);
    assert(CacheModel { video: None, audio: None }.ordered() =~= Seq::<TagModel>::empty());
}

/// A player that joins late gets the latest video and audio headers that the
/// stream held, the very tags, whatever their FourCC and whatever else the stream
/// held.
pub proof fn law_late_joiner_is_sent_the_latest_headers(
    server: PlayerServerModel,
    chunks: Seq<Seq<u8>>,
    stream_id: u32,
    before: Seq<TagModel>,
    video: TagModel,
    between: Seq<TagModel>,
    audio: TagModel,
    behind: Seq<TagModel>,
)
    requires
        server.has_taken_in(chunks),
        server.stage == (PlayerStage::Draining { stream_id }),
        DemuxModel::fresh().tags_all(chunks) == before + seq![video] + between + seq![audio]
            + behind,
        video.tag_type == 9,
        (video.payload.len() >= 5 && video.payload[0] % 16 == 0) || (video.payload.len() >= 2
            && video.payload[0] % 16 == 7 && video.payload[1] == 0),
        audio.tag_type == 8,
        audio.payload.len() >= 2,
        (audio.payload[0] / 16 == 10 && audio.payload[1] == 0) || audio.payload[0] == 0x90,
        forall|i: int|
            0 <= i < between.len() ==> (#[trigger] between[i]).tag_type == 9 ==> {
                let payload = between[i].payload;
                payload.len() < 2 || (payload[0] % 16 == 7 && payload[1] != 0) || (payload[0] % 16
                    != 7 && payload[0] % 16 != 0)
            },
        forall|i: int|
            0 <= i < behind.len() ==> (#[trigger] behind[i]).tag_type == 9 ==> {
                let payload = behind[i].payload;
                payload.len() < 2 || (payload[0] % 16 == 7 && payload[1] != 0) || (payload[0] % 16
                    != 7 && payload[0] % 16 != 0)
            },
        forall|i: int|
            0 <= i < behind.len() ==> (#[trigger] behind[i]).tag_type == 8 ==> {
                let payload = behind[i].payload;
                payload.len() < 2 || (payload[0] / 16 == 10 && payload[1] != 0) || (payload[0] / 16
                    != 10 && payload[0] != 0x90)
            },
    ensures
        server.step(PlayerEventModel::BacklogEmpty).1 matches PlayerActionModel::Run(script)
            && script.ops.len() == 2 && script.ops[0].call == (CallModel::Serve {
            stream_id,
            tag: video,
        }) && script.ops[1].call == (CallModel::Serve { stream_id, tag: audio }),
{
    law_late_joiner_gets_the_latest_headers(before, video, between, audio, behind);
    assert(server.headers.ordered() == seq![video, audio]);
    law_cached_headers_are_sent(server, stream_id, video, audio);
    reveal_with_fuel(serve_ops, 3);
    assert(seq![video, audio].drop_last() =~= seq![video]);
}

/// A player that plays is sent each tag of the stream by one call, in order,
/// under its own stream id, and each minds a refusal in the words of its type;
/// the tags move the stream and the cache on for whoever comes next. Without a
/// player the stream moves on just the same, and nothing is sent.
pub proof fn law_live_tags_are_sent_one_by_one(
    server: PlayerServerModel,
    stream_id: u32,
    chunk: Seq<u8>,
)
    requires
        server.stage == (PlayerStage::Streaming { stream_id }),
    ensures
        ({
            let (next, action) = server.step(PlayerEventModel::Data(chunk));
            let tags = server.demux.tags(chunk);
            &&& next == (PlayerServerModel {
                demux: server.demux.after(chunk),
                headers: server.headers.observing_all(tags),
                ..server
            })
            &&& action matches PlayerActionModel::Run(script) && script.conclusion
                == ConclusionModel::Continue && script.ops.len() == tags.len() && forall|i: int|
                0 <= i < tags.len() ==> (#[trigger] script.ops[i]).call == (CallModel::Serve {
                    stream_id,
                    tag: tags[i],
                }) && script.ops[i].policy.on_write == OnWrite::Fail && script.ops[i].policy.refused
                    == Some(
                    if tags[i].tag_type == 9 {
                        "failed to frame video data"@
                    } else if tags[i].tag_type == 8 {
                        "failed to frame audio data"@
                    } else {
                        "failed to frame script data"@
                    },
                )
        }),
{
    let tags = server.demux.tags(chunk);
    if let Some(bytes) = server.demux.tag_bytes(chunk) {
        law_only_media_tags_come_out(bytes);
    }
    lemma_live_ops_in_order(stream_id, tags);
}

proof fn lemma_live_ops_in_order(stream_id: u32, tags: Seq<TagModel>)
    requires
        crate::flv::all_media(tags),
    ensures
        serve_ops(stream_id, tags, false).len() == tags.len(),
        forall|i: int|
            0 <= i < tags.len() ==> #[trigger] serve_ops(stream_id, tags, false)[i] == ask(
                CallModel::Serve { stream_id, tag: tags[i] },
                if tags[i].tag_type == 9 {
                    "failed to frame video data"@
                } else if tags[i].tag_type == 8 {
                    "failed to frame audio data"@
                } else {
                    "failed to frame script data"@
                },
                OnWrite::Fail,
            ),
    decreases tags.len(),
{
    if tags.len() > 0 {
        let front = tags.drop_last();
        assert forall|i: int| 0 <= i < front.len() implies crate::flv::is_media_type(
            (#[trigger] front[i]).tag_type,
        ) && front[i].payload.len() <= crate::flv::FLV_MAX_PAYLOAD by {
            assert(front[i] == tags[i]);
        }
        lemma_live_ops_in_order(stream_id, front);
        assert(crate::flv::is_media_type(tags[tags.len() - 1].tag_type));
        let ops = serve_ops(stream_id, tags, false);
        let last = serve_ops_of(stream_id, tags.last(), false);
        assert(last.len() == 1);
        assert forall|i: int| 0 <= i < tags.len() implies #[trigger] ops[i] == ask(
            CallModel::Serve { stream_id, tag: tags[i] },
            if tags[i].tag_type == 9 {
                "failed to frame video data"@
            } else if tags[i].tag_type == 8 {
                "failed to frame audio data"@
            } else {
                "failed to frame script data"@
            },
            OnWrite::Fail,
        ) by {
            if i < front.len() {
                assert(ops[i] == serve_ops(stream_id, front, false)[i]);
                assert(front[i] == tags[i]);
            } else {
                assert(ops[i] == last[0]);
            }
        }
    }
}

/// What was queued before a player was let in moves the stream and the cache on
/// and is not sent.
pub proof fn law_backlog_is_taken_in_and_not_sent(server: PlayerServerModel, chunk: Seq<u8>)
    ensures
        server.step(PlayerEventModel::Backlog(chunk)) == (
            PlayerServerModel {
                demux: server.demux.after(chunk),
                headers: server.headers.observing_all(server.demux.tags(chunk)),
                ..server
            },
            PlayerActionModel::DrainBacklog,
        ),
{
}

/// At the end of the stream a player that plays is told so, under its own stream
/// id, before its connection is closed; one that does not play just goes. When
/// the sink stops, the connection is closed. Each ends the visit with what it
/// was, and the next player starts afresh while the stream stays where it is.
pub proof fn law_visits_end_as_they_should(
    server: PlayerServerModel,
    outcome: PlayerOutcome,
    conclusion: ConclusionModel,
)
    ensures
        ({
            let (next, action) = server.step(PlayerEventModel::DataOver);
            match server.stage {
                PlayerStage::Streaming { stream_id } => {
                    &&& next == (PlayerServerModel {
                        stage: PlayerStage::Ending { outcome: PlayerOutcome::Eos },
                        ..server
                    })
                    &&& action matches PlayerActionModel::Run(script) && script.ops.len() == 2
                        && script.ops[0].call == (CallModel::FinishPlaying { stream_id })
                        && script.ops[1].call == CallModel::ShutDown
                        && script.ops[0].policy.on_write == OnWrite::Ignore
                        && script.ops[0].policy.refused is None && script.conclusion
                        == ConclusionModel::Continue
                },
                _ => action == PlayerActionModel::Return(PlayerOutcome::Eos) && next.stage
                    == PlayerStage::Waiting,
            }
        }),
        ({
            let (next, action) = server.step(PlayerEventModel::Cancelled);
            &&& next == (PlayerServerModel {
                stage: PlayerStage::Ending { outcome: PlayerOutcome::Shutdown },
                ..server
            })
            &&& action matches PlayerActionModel::Run(script) && script.ops.len() == 1
                && script.ops[0].call == CallModel::ShutDown && script.ops[0].policy.on_write
                == OnWrite::Ignore && script.conclusion == ConclusionModel::Continue
        }),
        ({
            let ending = PlayerServerModel { stage: PlayerStage::Ending { outcome }, ..server };
            let (next, action) = ending.step(PlayerEventModel::ScriptOver(conclusion));
            &&& action == PlayerActionModel::Return(outcome)
            &&& next == (PlayerServerModel {
                carry: Seq::empty(),
                stage: PlayerStage::Waiting,
                player_over: false,
                ..server
            })
        }),
        server.step(PlayerEventModel::BacklogClosed).1 == PlayerActionModel::Return(
            PlayerOutcome::Eos,
        ),
{
}

/// Trouble with a player only ends that player, unless the sink is being stopped:
/// a failed handshake, a session that cannot be made or fed, a failed call, a
/// closed connection and a failed read.
pub proof fn law_trouble_ends_the_visit(
    server: PlayerServerModel,
    failure: FailureModel,
    outcome: ReadModel,
    cancelled: bool,
)
    requires
        !(outcome is Received),
        !(server.stage is Ending),
    ensures
        ({
            let gone = PlayerServerModel {
                carry: Seq::empty(),
                stage: PlayerStage::Waiting,
                player_over: false,
                ..server
            };
            let done = PlayerActionModel::Return(PlayerOutcome::PlayerDone);
            let stopped = PlayerActionModel::Return(
                if cancelled {
                    PlayerOutcome::Shutdown
                } else {
                    PlayerOutcome::PlayerDone
                },
            );
            &&& server.step(
                PlayerEventModel::HandshakeOver { result: Err(failure), cancelled },
            ) == (gone, stopped)
            &&& server.step(PlayerEventModel::SessionRefused) == (gone, done)
            &&& server.step(PlayerEventModel::FeedRefused) == (gone, done)
            &&& server.step(PlayerEventModel::ScriptOver(ConclusionModel::Failed(failure))) == (
                gone,
                done,
            )
            &&& server.step(PlayerEventModel::ScriptOver(ConclusionModel::TurnedAway)) == (
                gone,
                done,
            )
            &&& server.step(
                PlayerEventModel::Read { outcome: ReadModel::Received(Seq::empty()), cancelled },
            ) == (gone, done)
            &&& server.step(PlayerEventModel::Read { outcome, cancelled }) == (gone, stopped)
        }),
{
}

/// Nothing that happens changes whom the sink serves.
pub proof fn law_events_keep_the_served_stream(server: PlayerServerModel, event: PlayerEventModel)
    ensures
        server.step(event).0.app_filter == server.app_filter,
        server.step(event).0.key_filter == server.key_filter,
{
}

/// A listening sink accepts within its time limit while there is data, secures a
/// connection exactly on `rtmps://` and before it serves it, and ends properly
/// with the data, with the stream and with the request to stop.
pub proof fn law_listening_sink_goes_round(listener: PlayerListener)
    ensures
        listener.after(ListenEvent::Idle { data_over: true }) == ListenActionModel::Return(None),
        listener.after(ListenEvent::Idle { data_over: false }) == (ListenActionModel::Accept {
            limit: if listener.accept_timeout == 0 {
                None
            } else {
                Some(nanos_duration(listener.accept_timeout))
            },
        }),
        listener.after(ListenEvent::Accepted) == ListenActionModel::Configure,
        listener.after(ListenEvent::Configured) == if listener.tls {
            ListenActionModel::Secure {
                limit: if listener.handshake_timeout == 0 {
                    None
                } else {
                    Some(nanos_duration(listener.handshake_timeout))
                },
            }
        } else {
            ListenActionModel::Serve
        },
        listener.after(ListenEvent::Secured) == ListenActionModel::Serve,
        listener.after(ListenEvent::Cancelled) == ListenActionModel::Return(None),
        listener.after(ListenEvent::Served(PlayerOutcome::Eos)) == ListenActionModel::Return(None),
        listener.after(ListenEvent::Served(PlayerOutcome::Shutdown)) == ListenActionModel::Return(
            None,
        ),
        listener.after(ListenEvent::Served(PlayerOutcome::PlayerDone))
            == ListenActionModel::CheckData,
{
}

/// What goes wrong for a listening sink itself ends it, with its reason.
pub proof fn law_listening_sink_tells_its_trouble(listener: PlayerListener, reason: String)
    ensures
        ({
            let fails = |message: Seq<char>|
                ListenActionModel::Return(
                    Some(FailureModel { message, client_disconnect: false }),
                );
            &&& listener.after(ListenEvent::AcceptTimedOut) == fails(
                "failed to accept RTMP player: timed out after "@ + duration_text(
                    listener.accept_timeout,
                ) + " waiting for an RTMP player"@,
            )
            &&& listener.after(ListenEvent::AcceptFailed(reason)) == fails(
                "failed to accept RTMP player: "@ + reason@,
            )
            &&& listener.after(ListenEvent::ConfigureFailed(reason)) == fails(
                "failed to configure TCP_NODELAY: "@ + reason@,
            )
        }),
{
}

/// What happens to a player's connection and what is to be done are told as they
/// are.
pub proof fn law_player_events_show_their_fields(
    bytes: Vec<u8>,
    failure: SessionFailure,
    result: ServerSessionResult,
    conclusion: Conclusion,
    outcome: ReadOutcome,
    cancelled: bool,
    script: Script,
    end: PlayerOutcome,
    limit: Option<std::time::Duration>,
)
    ensures
        (PlayerEvent::HandshakeOver { result: Ok(bytes), cancelled })@ == (
        PlayerEventModel::HandshakeOver { result: Ok(bytes@), cancelled }),
        (PlayerEvent::HandshakeOver { result: Err(failure), cancelled })@ == (
        PlayerEventModel::HandshakeOver { result: Err(failure@), cancelled }),
        PlayerEvent::SessionReady@ == PlayerEventModel::SessionReady,
        PlayerEvent::SessionRefused@ == PlayerEventModel::SessionRefused,
        PlayerEvent::Fed@ == PlayerEventModel::Fed,
        PlayerEvent::FeedRefused@ == PlayerEventModel::FeedRefused,
        PlayerEvent::Result(result)@ == PlayerEventModel::Result(result@),
        PlayerEvent::NoMoreResults@ == PlayerEventModel::NoMoreResults,
        PlayerEvent::ScriptOver(conclusion)@ == PlayerEventModel::ScriptOver(conclusion@),
        PlayerEvent::Backlog(bytes)@ == PlayerEventModel::Backlog(bytes@),
        PlayerEvent::BacklogEmpty@ == PlayerEventModel::BacklogEmpty,
        PlayerEvent::BacklogClosed@ == PlayerEventModel::BacklogClosed,
        PlayerEvent::Data(bytes)@ == PlayerEventModel::Data(bytes@),
        PlayerEvent::DataOver@ == PlayerEventModel::DataOver,
        PlayerEvent::Cancelled@ == PlayerEventModel::Cancelled,
        (PlayerEvent::Read { outcome, cancelled })@ == (PlayerEventModel::Read {
            outcome: outcome@,
            cancelled,
        }),
        PlayerAction::CreateSession@ == PlayerActionModel::CreateSession,
        PlayerAction::Feed(bytes)@ == PlayerActionModel::Feed(bytes@),
        PlayerAction::NextResult@ == PlayerActionModel::NextResult,
        PlayerAction::Run(script)@ == PlayerActionModel::Run(script@),
        PlayerAction::Read@ == PlayerActionModel::Read,
        PlayerAction::DrainBacklog@ == PlayerActionModel::DrainBacklog,
        PlayerAction::Wait@ == PlayerActionModel::Wait,
        PlayerAction::Return(end)@ == PlayerActionModel::Return(end),
        ListenAction::CheckData@ == ListenActionModel::CheckData,
        (ListenAction::Accept { limit })@ == (ListenActionModel::Accept { limit }),
        ListenAction::Configure@ == ListenActionModel::Configure,
        (ListenAction::Secure { limit })@ == (ListenActionModel::Secure { limit }),
        ListenAction::Serve@ == ListenActionModel::Serve,
        ListenAction::Return(Ok(()))@ == ListenActionModel::Return(None),
        ListenAction::Return(Err(failure))@ == ListenActionModel::Return(Some(failure@)),
{
}

/// Whatever stage a player's connection is in, what it reads is fed to the
/// session, all results of one input are taken, and it reads on or waits behind
/// them; data moves the stream on even where nobody can be sent it.
pub proof fn law_connections_go_on_in_every_stage(
    server: PlayerServerModel,
    bytes: Seq<u8>,
    cancelled: bool,
)
    requires
        bytes.len() > 0,
    ensures
        server.step(PlayerEventModel::HandshakeOver { result: Ok(bytes), cancelled }) == (
            PlayerServerModel { carry: bytes, ..server },
            PlayerActionModel::CreateSession,
        ),
        server.step(PlayerEventModel::SessionReady) == if server.carry.len() > 0 {
            (
                PlayerServerModel { carry: Seq::empty(), ..server },
                PlayerActionModel::Feed(server.carry),
            )
        } else {
            (server, PlayerActionModel::Read)
        },
        server.step(PlayerEventModel::Fed) == (server, PlayerActionModel::NextResult),
        server.step(PlayerEventModel::Read { outcome: ReadModel::Received(bytes), cancelled }) == (
            server,
            PlayerActionModel::Feed(bytes),
        ),
        !(server.stage is Streaming) ==> server.step(PlayerEventModel::NoMoreResults) == (
            server,
            PlayerActionModel::Read,
        ),
        !(server.stage is Ending) && !(server.stage is Replaying) ==> server.step(
            PlayerEventModel::ScriptOver(ConclusionModel::Continue),
        ) == (server, PlayerActionModel::NextResult),
        !(server.stage is Draining) ==> server.step(PlayerEventModel::BacklogEmpty) == (
            server,
            PlayerActionModel::NextResult,
        ),
        !(server.stage is Streaming) ==> server.step(PlayerEventModel::Data(bytes)) == (
            PlayerServerModel {
                demux: server.demux.after(bytes),
                headers: server.headers.observing_all(server.demux.tags(bytes)),
                ..server
            },
            PlayerActionModel::NextResult,
        ),
{
}

/// Of a list of tags each video and audio tag is sent, and each script tag too
/// unless the list comes from the cache; tags of any other type are not.
pub proof fn law_tags_of_other_types_are_not_sent(
    stream_id: u32,
    tags: Seq<TagModel>,
    tag: TagModel,
    cached: bool,
)
    ensures
        serve_script(stream_id, Seq::empty(), cached).ops.len() == 0,
        serve_script(stream_id, tags, cached).conclusion == ConclusionModel::Continue,
        ({
            let ops = serve_script(stream_id, tags, cached).ops;
            let longer = serve_script(stream_id, tags.push(tag), cached).ops;
            if tag.tag_type == 8 || tag.tag_type == 9 || (tag.tag_type == 18 && !cached) {
                longer.len() == ops.len() + 1 && longer.take(ops.len() as int) == ops
                    && longer.last().call == (CallModel::Serve { stream_id, tag })
            } else {
                longer == ops
            }
        }),
{
    let ops = serve_script(stream_id, tags, cached).ops;
    let longer = serve_script(stream_id, tags.push(tag), cached).ops;
    assert(tags.push(tag).drop_last() =~= tags);
    if tag.tag_type == 8 || tag.tag_type == 9 || (tag.tag_type == 18 && !cached) {
        assert(longer.take(ops.len() as int) =~= ops);
    } else {
        assert(longer =~= ops);
    }
}

} // verus!
