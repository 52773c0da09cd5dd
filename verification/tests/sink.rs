use std::time::Duration;

use gstrtmpx::flv::frame_flv_tag;
use gstrtmpx::flv::FlvTag;
use gstrtmpx::flv::FLV_HEADER;
use gstrtmpx::link::ReadOutcome;
use gstrtmpx::property::PropertyValue;
use gstrtmpx::script::Call;
use gstrtmpx::script::Outcome;
use gstrtmpx::script::Progress;
use gstrtmpx::script::Script;
use gstrtmpx::script::ScriptRun;
use gstrtmpx::script::Conclusion;
use gstrtmpx::session::ClientSessionEvent;
use gstrtmpx::session::ClientSessionResult;
use gstrtmpx::session::ServerSessionEvent;
use gstrtmpx::session::ServerSessionResult;
use gstrtmpx::sink::property_named;
use gstrtmpx::sink::render;
use gstrtmpx::sink::ListenLive;
use gstrtmpx::sink::RenderAction;
use gstrtmpx::sink::RenderEvent;
use gstrtmpx::sink::Settings;
use gstrtmpx::sink::SinkMode;
use gstrtmpx::sink::SinkProperty;
use gstrtmpx::sink_listen::ListenAction;
use gstrtmpx::sink_listen::ListenEvent;
use gstrtmpx::sink_listen::PlayerAction;
use gstrtmpx::sink_listen::PlayerEvent;
use gstrtmpx::sink_listen::PlayerListener;
use gstrtmpx::sink_listen::PlayerOutcome;
use gstrtmpx::sink_listen::PlayerServer;
use gstrtmpx::sink_publish::publish_flv_tags;
use gstrtmpx::sink_publish::run_publish_worker;
use gstrtmpx::sink_publish::PublishAction;
use gstrtmpx::sink_publish::PublishEvent;
use gstrtmpx::sink_publish::PublishingConnection;
use gstrtmpx::sink_publish::SinkEnd;
use gstrtmpx::start::ErrorKind;
use gstrtmpx::worker::SessionFailure;

fn frame_tag(tag_type: u8, timestamp: u32, payload: &[u8]) -> Vec<u8> {
    frame_flv_tag(tag_type, timestamp, payload).unwrap()
}

/// Makes every call of a script and says how it ends.
fn run(script: Script, calls: &mut Vec<Call>) -> Conclusion {
    let mut progress = ScriptRun::new(script).next(Outcome::Done);
    loop {
        progress = match progress {
            Progress::Perform { call, run } => {
                calls.push(call);
                run.next(Outcome::Done)
            }
            Progress::Over(conclusion) => return conclusion,
        };
    }
}

/// One player's connection to a listening sink, with the calls made for it.
struct Player {
    calls: Vec<Call>,
    queue: Vec<Vec<u8>>,
    closed: bool,
    ended: Option<PlayerOutcome>,
}

impl Player {
    fn new() -> Player {
        Player { calls: Vec::new(), queue: Vec::new(), closed: false, ended: None }
    }

    /// Hands an event to the server and follows up until it waits for the
    /// outside world again.
    fn event(&mut self, server: &mut PlayerServer, event: PlayerEvent) {
        let mut action = server.serve_one_player(event);
        loop {
            let event = match action {
                PlayerAction::CreateSession => PlayerEvent::SessionReady,
                PlayerAction::Feed(_) => PlayerEvent::Fed,
                PlayerAction::NextResult => PlayerEvent::NoMoreResults,
                PlayerAction::Run(script) => {
                    PlayerEvent::ScriptOver(run(script, &mut self.calls))
                }
                PlayerAction::DrainBacklog => {
                    if !self.queue.is_empty() {
                        PlayerEvent::Backlog(self.queue.remove(0))
                    } else if self.closed {
                        PlayerEvent::BacklogClosed
                    } else {
                        PlayerEvent::BacklogEmpty
                    }
                }
                PlayerAction::Read | PlayerAction::Wait => return,
                PlayerAction::Return(outcome) => {
                    self.ended = Some(outcome);
                    return;
                }
            };
            action = server.serve_one_player(event);
        }
    }

    fn raise(&mut self, server: &mut PlayerServer, event: ServerSessionEvent) {
        let result = ServerSessionResult::RaisedEvent(event);
        self.event(server, PlayerEvent::Result(result));
    }

    /// Connects and asks to play.
    fn play(&mut self, server: &mut PlayerServer, app: &str, key: &str) {
        let done = PlayerEvent::HandshakeOver { result: Ok(vec![]), cancelled: false };
        self.event(server, done);
        self.raise(
            server,
            ServerSessionEvent::ConnectionRequested { request_id: 1, app_name: app.to_string() },
        );
        self.raise(
            server,
            ServerSessionEvent::PlayStreamRequested {
                request_id: 2,
                app_name: app.to_string(),
                stream_key: key.to_string(),
                stream_id: 7,
            },
        );
    }

    fn data(&mut self, server: &mut PlayerServer, bytes: &[u8]) {
        self.event(server, PlayerEvent::Data(bytes.to_vec()));
    }

    fn accepted(&self) -> bool {
        self.calls.iter().any(|call| matches!(call, Call::AcceptPlay { request_id: 2 }))
    }

    fn served(&self, wanted: u8) -> Vec<(u32, Vec<u8>)> {
        self.calls
            .iter()
            .filter_map(|call| match call {
                Call::Serve { stream_id: 7, tag } if tag.tag_type == wanted => {
                    Some((tag.timestamp, tag.payload.clone()))
                }
                _ => None,
            })
            .collect()
    }
}

fn listening(app: &str, key: &str) -> PlayerServer {
    PlayerServer::new(Some(app.to_string()), Some(key.to_string()))
}

#[test]
fn sink_listen_serves_player_live_classic() {
    let mut sink = listening("live", "key1");
    let vseq = vec![0x17, 0x00, 0x11, 0x22];
    let aseq = vec![0xAF, 0x00, 0x11];
    let v1 = vec![0x17, 0x01, 0x33, 0x44];
    let a1 = vec![0xAF, 0x01, 0x44, 0x55];
    let v2 = vec![0x17, 0x01, 0x55, 0x66];
    let a2 = vec![0xAF, 0x01, 0x66, 0x77];
    let mut player = Player::new();
    player.play(&mut sink, "live", "key1");
    assert!(sink.player_connected());
    player.data(&mut sink, FLV_HEADER);
    player.data(&mut sink, &frame_tag(9, 0, &vseq));
    player.data(&mut sink, &frame_tag(8, 0, &aseq));
    // Two AMF0 strings: onCaption, hello.
    let mut script = vec![0x02, 0x00, 0x09];
    script.extend_from_slice("onCaption".as_bytes());
    script.extend_from_slice(&[0x02, 0x00, 0x05]);
    script.extend_from_slice("hello".as_bytes());
    player.data(&mut sink, &frame_tag(18, 25, &script));
    player.data(&mut sink, &frame_tag(9, 40, &v1));
    player.data(&mut sink, &frame_tag(8, 60, &a1));
    player.data(&mut sink, &frame_tag(9, 80, &v2));
    player.data(&mut sink, &frame_tag(8, 100, &a2));
    assert!(player.accepted(), "player must be accepted");
    let videos = player.served(9);
    let audios = player.served(8);
    assert_eq!(videos.len(), 3, "must receive 3 video tags");
    assert_eq!(audios.len(), 3, "must receive 3 audio tags");
    assert_eq!(videos[0], (0, vseq.clone()));
    assert_eq!(videos[1], (40, v1.clone()));
    assert_eq!(videos[2], (80, v2.clone()));
    assert_eq!(audios[0], (0, aseq.clone()));
    assert_eq!(audios[1], (60, a1.clone()));
    assert_eq!(audios[2], (100, a2.clone()));
    assert_eq!(player.served(18), vec![(25, script)]);
    player.event(&mut sink, PlayerEvent::DataOver);
    assert_eq!(player.ended, Some(PlayerOutcome::Eos));
    assert!(player.calls.iter().any(|call| matches!(call, Call::FinishPlaying { stream_id: 7 })));
    assert!(matches!(player.calls.last(), Some(Call::ShutDown)));
    assert!(!sink.player_connected());
}

#[test]
fn sink_listen_replays_headers_to_mid_stream_joiner() {
    let mut sink = listening("live", "mid");
    let vseq = vec![0x17, 0x00, 0xAA];
    let aseq = vec![0xAF, 0x00, 0xBB];
    let stale_v = vec![0x17, 0x01, 0xCC];
    let stale_a = vec![0xAF, 0x01, 0xDD];
    let live_v = vec![0x17, 0x01, 0xEE];
    let live_a = vec![0xAF, 0x01, 0xFF];
    let mut joiner = Player::new();
    joiner.queue = vec![
        FLV_HEADER.to_vec(),
        frame_tag(9, 0, &vseq),
        frame_tag(8, 0, &aseq),
        frame_tag(9, 40, &stale_v),
        frame_tag(8, 60, &stale_a),
    ];
    joiner.play(&mut sink, "live", "mid");
    joiner.data(&mut sink, &frame_tag(9, 8000, &live_v));
    joiner.data(&mut sink, &frame_tag(8, 8020, &live_a));
    assert!(joiner.accepted(), "joiner must be accepted");
    assert_eq!(joiner.served(9), vec![(0, vseq.clone()), (8000, live_v.clone())]);
    assert_eq!(joiner.served(8), vec![(0, aseq.clone()), (8020, live_a.clone())]);
    // The next joiner gets the same headers again.
    joiner.event(
        &mut sink,
        PlayerEvent::Read { outcome: ReadOutcome::Received(vec![]), cancelled: false },
    );
    assert_eq!(joiner.ended, Some(PlayerOutcome::PlayerDone));
    let mut next = Player::new();
    next.play(&mut sink, "live", "mid");
    assert_eq!(next.served(9), vec![(0, vseq)]);
    assert_eq!(next.served(8), vec![(0, aseq)]);
}

#[test]
fn sink_listen_enhanced_rtmp_passes_through() {
    let mut sink = listening("live", "enh");
    let vseq = vec![0x90, 0x68, 0x76, 0x63, 0x31, 0x00, 0x01];
    let vframe = vec![0x91, 0x68, 0x76, 0x63, 0x31, 0x02, 0x03];
    let aseq = vec![0x90, 0x4F, 0x70, 0x75, 0x73, 0x00];
    let aframe = vec![0x91, 0x4F, 0x70, 0x75, 0x73, 0x04];
    let mut player = Player::new();
    player.play(&mut sink, "live", "enh");
    player.data(&mut sink, FLV_HEADER);
    player.data(&mut sink, &frame_tag(9, 0, &vseq));
    player.data(&mut sink, &frame_tag(8, 0, &aseq));
    player.data(&mut sink, &frame_tag(9, 40, &vframe));
    player.data(&mut sink, &frame_tag(8, 40, &aframe));
    assert!(player.accepted(), "enhanced player must be accepted");
    assert_eq!(player.served(9), vec![(0, vseq.clone()), (40, vframe.clone())]);
    assert_eq!(player.served(8), vec![(0, aseq.clone()), (40, aframe.clone())]);
}

#[test]
fn sink_listen_rejects_wrong_stream_key_and_keeps_serving() {
    let mut sink = listening("live", "good");
    let mut denied = Player::new();
    denied.play(&mut sink, "live", "wrong");
    assert!(!denied.accepted(), "wrong key must never be accepted");
    assert!(
        denied.served(9).is_empty() && denied.served(8).is_empty(),
        "no media for rejected key"
    );
    assert!(
        denied.calls.iter().any(|call| matches!(
            call,
            Call::Reject { request_id: 2, code, description }
                if code == "NetStream.Play.Failed"
                    && description == "this endpoint only serves its configured stream"
        )),
        "server must reject or hang up"
    );
    assert_eq!(denied.ended, Some(PlayerOutcome::PlayerDone));
    let vseq = vec![0x17, 0x00, 0x11];
    let aseq = vec![0xAF, 0x00, 0x22];
    let mut player = Player::new();
    player.play(&mut sink, "live", "good");
    player.data(&mut sink, FLV_HEADER);
    player.data(&mut sink, &frame_tag(9, 0, &vseq));
    player.data(&mut sink, &frame_tag(8, 0, &aseq));
    assert!(player.accepted(), "correct key must still be served after rejection");
    assert_eq!(player.served(9), vec![(0, vseq.clone())]);
    assert_eq!(player.served(8), vec![(0, aseq.clone())]);
}

fn buffer(live: Option<ListenLive>, data: &[u8]) -> RenderEvent {
    RenderEvent::Buffer {
        flushing: false,
        started: true,
        failure: None,
        data: Some(data.to_vec()),
        live,
    }
}

#[test]
fn sink_listen_wait_for_connection_false_drops_without_player() {
    let mut sink = listening("live", "drop");
    let live = |sink: &PlayerServer| {
        Some(ListenLive {
            wait_for_connection: false,
            player_connected: sink.player_connected(),
        })
    };
    assert!(matches!(render(buffer(live(&sink), FLV_HEADER)), RenderAction::Accept));
    for i in 0..200u32 {
        let payload = vec![0x17, 0x01, (i & 0xFF) as u8];
        let action = render(buffer(live(&sink), &frame_tag(9, i * 40, &payload)));
        assert!(matches!(action, RenderAction::Accept), "drops must not block without a player");
    }
    let vseq = vec![0x17, 0x00, 0x99];
    let aseq = vec![0xAF, 0x00, 0x88];
    let live_v = vec![0x17, 0x01, 0x77];
    let live_a = vec![0xAF, 0x01, 0x66];
    let mut player = Player::new();
    player.play(&mut sink, "live", "drop");
    for tag in [
        frame_tag(9, 9000, &vseq),
        frame_tag(8, 9000, &aseq),
        frame_tag(9, 9040, &live_v),
        frame_tag(8, 9060, &live_a),
    ] {
        match render(buffer(live(&sink), &tag)) {
            RenderAction::Queue(bytes) => player.data(&mut sink, &bytes),
            action => panic!("{action:?}"),
        }
    }
    assert!(player.accepted(), "player must be accepted after drops");
    assert_eq!(player.served(9), vec![(9000, vseq), (9040, live_v)]);
    assert_eq!(player.served(8), vec![(9000, aseq), (9060, live_a)]);
}

#[test]
fn sink_listen_eos_without_player_shuts_down_cleanly() {
    let listener = PlayerListener { tls: false, accept_timeout: 0, handshake_timeout: 0 };
    assert!(matches!(
        listener.listen_until_done(ListenEvent::Idle { data_over: false }),
        ListenAction::Accept { limit: None }
    ));
    assert!(matches!(
        listener.listen_until_done(ListenEvent::Cancelled),
        ListenAction::Return(Ok(()))
    ));
    assert!(matches!(
        listener.listen_until_done(ListenEvent::Idle { data_over: true }),
        ListenAction::Return(Ok(()))
    ));
}

#[test]
fn listener_outlives_its_players() {
    let listener = PlayerListener { tls: true, accept_timeout: 3, handshake_timeout: 4 };
    let after = |event: ListenEvent| listener.listen_until_done(event);
    assert!(matches!(
        after(ListenEvent::Idle { data_over: false }),
        ListenAction::Accept { limit: Some(limit) } if limit == Duration::from_nanos(3)
    ));
    assert!(matches!(after(ListenEvent::Accepted), ListenAction::Configure));
    assert!(matches!(after(ListenEvent::Configured), ListenAction::Secure { limit: Some(limit) } if limit == Duration::from_nanos(4)));
    assert!(matches!(after(ListenEvent::SecureFailed), ListenAction::CheckData));
    assert!(matches!(after(ListenEvent::Secured), ListenAction::Serve));
    assert!(matches!(
        after(ListenEvent::Served(PlayerOutcome::PlayerDone)),
        ListenAction::CheckData
    ));
    assert!(matches!(
        after(ListenEvent::Served(PlayerOutcome::Eos)),
        ListenAction::Return(Ok(()))
    ));
    assert!(matches!(
        after(ListenEvent::Served(PlayerOutcome::Shutdown)),
        ListenAction::Return(Ok(()))
    ));
    let failed = |event: ListenEvent| match after(event) {
        ListenAction::Return(Err(failure)) => failure.message,
        action => panic!("{action:?}"),
    };
    assert_eq!(
        failed(ListenEvent::AcceptTimedOut),
        "failed to accept RTMP player: timed out after 3ns waiting for an RTMP player"
    );
    assert_eq!(
        failed(ListenEvent::AcceptFailed("no".to_string())),
        "failed to accept RTMP player: no"
    );
    assert_eq!(
        failed(ListenEvent::ConfigureFailed("no".to_string())),
        "failed to configure TCP_NODELAY: no"
    );
}

#[test]
fn publishers_are_turned_away_from_a_sink() {
    let mut sink = PlayerServer::new(None, None);
    let mut visitor = Player::new();
    visitor.event(
        &mut sink,
        PlayerEvent::HandshakeOver { result: Ok(vec![]), cancelled: false },
    );
    visitor.raise(
        &mut sink,
        ServerSessionEvent::PublishStreamRequested {
            request_id: 5,
            app_name: "live".to_string(),
            stream_key: "key".to_string(),
            stream_id: 1,
        },
    );
    assert!(matches!(
        &visitor.calls[0],
        Call::Reject { request_id: 5, code, .. } if code == "NetStream.Publish.BadName"
    ));
    assert_eq!(visitor.ended, Some(PlayerOutcome::PlayerDone));
}

#[test]
fn missing_filters_let_any_player_in() {
    let mut sink = PlayerServer::new(None, None);
    let mut player = Player::new();
    player.play(&mut sink, "anything", "at/all");
    assert!(player.accepted());
    let mut sink = PlayerServer::new(Some("live".to_string()), None);
    let mut player = Player::new();
    player.play(&mut sink, "live", "whatever");
    assert!(player.accepted());
    let mut player = Player::new();
    player.play(&mut sink, "other", "whatever");
    assert!(!player.accepted());
}

#[test]
fn player_gets_nothing_before_it_is_let_in() {
    let mut sink = listening("live", "key");
    let mut player = Player::new();
    player.event(
        &mut sink,
        PlayerEvent::HandshakeOver { result: Ok(vec![]), cancelled: false },
    );
    player.data(&mut sink, FLV_HEADER);
    player.data(&mut sink, &frame_tag(9, 0, &[0x17, 0x00, 0x11]));
    assert!(player.calls.is_empty());
    assert!(!sink.player_connected());
}

#[test]
fn player_problems_end_only_the_player() {
    let mut sink = listening("live", "key");
    let gone = || Err(SessionFailure::disconnect("gone".to_string()));
    let mut player = Player::new();
    player.event(&mut sink, PlayerEvent::HandshakeOver { result: gone(), cancelled: false });
    assert_eq!(player.ended, Some(PlayerOutcome::PlayerDone));
    let mut player = Player::new();
    player.event(&mut sink, PlayerEvent::HandshakeOver { result: gone(), cancelled: true });
    assert_eq!(player.ended, Some(PlayerOutcome::Shutdown));
    let mut player = Player::new();
    player.event(&mut sink, PlayerEvent::SessionRefused);
    assert_eq!(player.ended, Some(PlayerOutcome::PlayerDone));
    let mut player = Player::new();
    player.play(&mut sink, "live", "key");
    player.event(&mut sink, PlayerEvent::FeedRefused);
    assert_eq!(player.ended, Some(PlayerOutcome::PlayerDone));
    assert!(!sink.player_connected());
    let mut player = Player::new();
    player.play(&mut sink, "live", "key");
    player.event(
        &mut sink,
        PlayerEvent::Read { outcome: ReadOutcome::Cancelled, cancelled: true },
    );
    assert_eq!(player.ended, Some(PlayerOutcome::Shutdown));
    let mut player = Player::new();
    player.play(&mut sink, "live", "key");
    player.raise(&mut sink, ServerSessionEvent::PlayStreamFinished { stream_key: "key".into() });
    assert_eq!(player.ended, Some(PlayerOutcome::PlayerDone));
    assert!(matches!(player.calls.last(), Some(Call::ShutDown)));
    let mut player = Player::new();
    player.closed = true;
    player.play(&mut sink, "live", "key");
    assert_eq!(player.ended, Some(PlayerOutcome::Eos));
}

#[test]
fn stopping_sink_closes_the_player() {
    let mut sink = listening("live", "key");
    let mut player = Player::new();
    player.play(&mut sink, "live", "key");
    player.event(&mut sink, PlayerEvent::Cancelled);
    assert!(matches!(player.calls.last(), Some(Call::ShutDown)));
    assert_eq!(player.ended, Some(PlayerOutcome::Shutdown));
}

#[test]
fn lost_player_leaves_the_header_cache_current() {
    let mut sink = listening("live", "key");
    let mut player = Player::new();
    player.play(&mut sink, "live", "key");
    let old = vec![0x17, 0x00, 0x01];
    let new = vec![0x17, 0x00, 0x02];
    let mut chunk = FLV_HEADER.to_vec();
    chunk.extend_from_slice(&frame_tag(9, 0, &old));
    chunk.extend_from_slice(&frame_tag(9, 40, &new));
    let script = match sink.serve_one_player(PlayerEvent::Data(chunk)) {
        PlayerAction::Run(script) => script,
        action => panic!("{action:?}"),
    };
    // The player is lost with the first of the two tags.
    let conclusion = match ScriptRun::new(script).next(Outcome::Done) {
        Progress::Perform { run, .. } => {
            let lost = SessionFailure::disconnect("lost".to_string());
            match run.next(Outcome::WriteFailed(lost)) {
                Progress::Over(conclusion) => conclusion,
                progress => panic!("{progress:?}"),
            }
        }
        progress => panic!("{progress:?}"),
    };
    let action = sink.serve_one_player(PlayerEvent::ScriptOver(conclusion));
    assert!(matches!(action, PlayerAction::Return(PlayerOutcome::PlayerDone)));
    let mut next = Player::new();
    next.play(&mut sink, "live", "key");
    assert_eq!(next.served(9), vec![(40, new)]);
}

fn tag(tag_type: u8, timestamp: u32, payload: &[u8]) -> FlvTag {
    FlvTag { tag_type, timestamp, payload: payload.to_vec() }
}

#[test]
fn tags_are_published_by_type() {
    let script = publish_flv_tags(vec![
        tag(8, 1, &[1]),
        tag(15, 2, &[2]),
        tag(9, 3, &[3]),
        tag(18, 4, &[4]),
    ]);
    let refusals: Vec<Option<String>> =
        script.ops.iter().map(|op| op.policy.refused.clone()).collect();
    assert_eq!(
        refusals,
        vec![
            Some("failed to publish audio data".to_string()),
            Some("failed to publish video data".to_string()),
            Some("failed to publish script data".to_string()),
            None
        ]
    );
    assert!(matches!(&script.ops[1].call, Call::Publish(video) if video == &tag(9, 3, &[3])));
    assert!(matches!(script.ops[3].call, Call::WritePublished));
    assert!(publish_flv_tags(vec![]).ops.is_empty());
    assert!(publish_flv_tags(vec![tag(15, 0, &[])]).ops.is_empty());
}

#[test]
fn publisher_waits_for_each_acceptance() {
    let mut connection = PublishingConnection::new("key".to_string());
    let mut step = |event: PublishEvent| connection.publish_until_done(event);
    assert!(matches!(step(PublishEvent::Opened { carry: vec![] }), PublishAction::Read));
    assert!(matches!(step(PublishEvent::Opened { carry: vec![1] }), PublishAction::Feed(_)));
    assert!(matches!(step(PublishEvent::Fed), PublishAction::NextResult));
    let accepted =
        ClientSessionResult::RaisedEvent(ClientSessionEvent::ConnectionRequestAccepted);
    match step(PublishEvent::Result(accepted)) {
        PublishAction::Run(script) => assert!(script.ops.is_empty()),
        action => panic!("{action:?}"),
    }
    // The chunk size still goes out before the next request.
    match step(PublishEvent::Result(ClientSessionResult::OutboundResponse(vec![2]))) {
        PublishAction::Run(script) => assert!(matches!(script.ops[0].call, Call::Write(_))),
        action => panic!("{action:?}"),
    }
    match step(PublishEvent::NoMoreResults) {
        PublishAction::Run(script) => assert!(matches!(
            &script.ops[0].call,
            Call::RequestPublish { stream_key } if stream_key == "key"
        )),
        action => panic!("{action:?}"),
    }
    assert!(matches!(step(PublishEvent::NoMoreResults), PublishAction::Read));
    let accepted = ClientSessionResult::RaisedEvent(ClientSessionEvent::PublishRequestAccepted);
    assert!(matches!(step(PublishEvent::Result(accepted)), PublishAction::Run(_)));
    match step(PublishEvent::NoMoreResults) {
        PublishAction::Run(script) => {
            assert!(matches!(script.ops[0].call, Call::ReportStarted));
            assert_eq!(script.ops[0].policy.closed.as_deref(), Some("sink is shutting down"));
        }
        action => panic!("{action:?}"),
    }
    assert!(matches!(
        step(PublishEvent::ScriptOver(Conclusion::Continue)),
        PublishAction::NextResult
    ));
    assert!(matches!(step(PublishEvent::NoMoreResults), PublishAction::Wait));
    let mut chunk = FLV_HEADER.to_vec();
    chunk.extend_from_slice(&frame_tag(9, 40, &[1, 2, 3]));
    match step(PublishEvent::Data(chunk)) {
        PublishAction::Run(script) => {
            assert_eq!(script.ops.len(), 2);
            assert!(matches!(
                &script.ops[0].call,
                Call::Publish(video) if video == &tag(9, 40, &[1, 2, 3])
            ));
        }
        action => panic!("{action:?}"),
    }
    match step(PublishEvent::DataOver) {
        PublishAction::Run(script) => {
            assert!(matches!(script.ops[0].call, Call::StopPublishing));
            assert!(matches!(script.ops[1].call, Call::ShutDown));
            assert!(matches!(script.conclusion, Conclusion::Finished));
        }
        action => panic!("{action:?}"),
    }
    assert!(matches!(
        step(PublishEvent::ScriptOver(Conclusion::Finished)),
        PublishAction::Return(Ok(()))
    ));
}

#[test]
fn publisher_failures_name_the_stage() {
    let failure = |action: PublishAction| match action {
        PublishAction::Return(Err(failure)) => (failure.message, failure.client_disconnect),
        PublishAction::Run(Script { conclusion: Conclusion::Failed(failure), .. }) => {
            (failure.message, failure.client_disconnect)
        }
        action => panic!("{action:?}"),
    };
    let said = |text: &str, disconnect: bool| (text.to_string(), disconnect);
    let closed = || PublishEvent::Read(ReadOutcome::Received(vec![]));
    let rejected = || {
        PublishEvent::Result(ClientSessionResult::RaisedEvent(
            ClientSessionEvent::ConnectionRequestRejected { description: "no".to_string() },
        ))
    };
    let raised = |event| PublishEvent::Result(ClientSessionResult::RaisedEvent(event));
    let mut connection = PublishingConnection::new("key".to_string());
    assert_eq!(
        failure(connection.publish_until_done(closed())),
        said("RTMP server closed the connection while connecting", true)
    );
    assert_eq!(
        failure(connection.publish_until_done(rejected())),
        said("RTMP server rejected connection: no", false)
    );
    assert_eq!(
        failure(connection.publish_until_done(PublishEvent::FeedRefused("no".to_string()))),
        said("server sent unreadable RTMP: no", false)
    );
    connection.publish_until_done(raised(ClientSessionEvent::ConnectionRequestAccepted));
    connection.publish_until_done(PublishEvent::NoMoreResults);
    assert_eq!(
        failure(connection.publish_until_done(closed())),
        said("RTMP server closed the connection while requesting publish", true)
    );
    assert_eq!(
        failure(connection.publish_until_done(rejected())),
        said("RTMP server rejected publish: no", false)
    );
    connection.publish_until_done(raised(ClientSessionEvent::PublishRequestAccepted));
    connection.publish_until_done(PublishEvent::NoMoreResults);
    assert_eq!(
        failure(connection.publish_until_done(closed())),
        said("RTMP server closed the connection", true)
    );
    assert!(matches!(
        connection.publish_until_done(rejected()),
        PublishAction::Run(Script { conclusion: Conclusion::Continue, .. })
    ));
    assert_eq!(
        failure(connection.publish_until_done(PublishEvent::Cancelled)),
        said("sink is shutting down", false)
    );
}

#[test]
fn workers_leave_their_failure_behind() {
    assert_eq!(run_publish_worker(SinkEnd::Over(Ok(()))), None);
    assert_eq!(
        run_publish_worker(SinkEnd::Over(Err(SessionFailure::error("no".to_string())))),
        Some("no".to_string())
    );
    assert_eq!(
        run_publish_worker(SinkEnd::RuntimeFailed("no".to_string())),
        Some("Failed to create Tokio runtime: no".to_string())
    );
    assert_eq!(
        run_publish_worker(SinkEnd::ListenerFailed("no".to_string())),
        Some("Failed to initialize Tokio RTMP listener: no".to_string())
    );
}

#[test]
fn buffers_are_queued_or_refused() {
    let failed = |action: RenderAction| match action {
        RenderAction::Fail(error) => (error.kind, error.message),
        action => panic!("{action:?}"),
    };
    let event = |flushing: bool, started: bool, failure: Option<&str>, data: Option<Vec<u8>>| {
        RenderEvent::Buffer {
            flushing,
            started,
            failure: failure.map(|text| text.to_string()),
            data,
            live: None,
        }
    };
    assert!(matches!(
        render(event(true, false, Some("x"), None)),
        RenderAction::Flush
    ));
    assert_eq!(
        failed(render(event(false, false, Some("x"), None))),
        (ErrorKind::Failed, "rtmpxsink is not started".to_string())
    );
    assert_eq!(
        failed(render(event(false, true, Some("x"), None))),
        (ErrorKind::Write, "RTMP publish failed: x".to_string())
    );
    assert_eq!(
        failed(render(event(false, true, None, None))),
        (ErrorKind::Failed, "Failed to map FLV buffer".to_string())
    );
    assert!(matches!(render(event(false, true, None, Some(vec![]))), RenderAction::Accept));
    assert!(matches!(
        render(event(false, true, None, Some(vec![1]))),
        RenderAction::Queue(bytes) if bytes == vec![1]
    ));
    assert!(matches!(render(RenderEvent::Queued), RenderAction::Accept));
    assert_eq!(
        failed(render(RenderEvent::Gone)),
        (ErrorKind::Write, "RTMP publish worker is gone".to_string())
    );
    let full = |flushing: bool, failure: Option<&str>| RenderEvent::Full {
        flushing,
        failure: failure.map(|text| text.to_string()),
        bytes: vec![2],
    };
    assert!(matches!(render(full(true, None)), RenderAction::Flush));
    assert_eq!(
        failed(render(full(false, Some("late")))),
        (ErrorKind::Write, "RTMP publish failed: late".to_string())
    );
    assert!(matches!(
        render(full(false, None)),
        RenderAction::Queue(bytes) if bytes == vec![2]
    ));
}

#[test]
fn waiting_sink_holds_data_back_instead_of_dropping() {
    let waiting = Some(ListenLive { wait_for_connection: true, player_connected: false });
    assert!(matches!(render(buffer(waiting, &[1])), RenderAction::Queue(_)));
    let served = Some(ListenLive { wait_for_connection: false, player_connected: true });
    assert!(matches!(render(buffer(served, &[1])), RenderAction::Queue(_)));
}

#[test]
fn sink_settings_have_their_defaults() {
    let settings = Settings::default();
    assert_eq!(settings.mode, "publish");
    assert_eq!(settings.uri, None);
    assert_eq!(settings.tc_url, None);
    assert!(settings.tcp_nodelay);
    assert!(settings.wait_for_connection);
    assert_eq!(settings.accept_timeout, 0);
    assert_eq!(settings.connect_timeout, 10_000_000_000);
    assert_eq!(settings.handshake_timeout, 10_000_000_000);
    assert_eq!(settings.read_timeout, 0);
    assert_eq!(settings.write_timeout, 10_000_000_000);
    assert_eq!(settings.tls_cert, None);
    assert_eq!(settings.start().unwrap(), SinkMode::Publish);
}

#[test]
fn sink_properties_read_back() {
    let mut settings = Settings::default();
    assert_eq!(property_named("wait-for-connection"), Some(SinkProperty::WaitForConnection));
    assert_eq!(property_named("keep-listening"), None);
    assert!(settings.set_property(SinkProperty::WaitForConnection, PropertyValue::Flag(false)));
    assert!(matches!(
        settings.property(SinkProperty::WaitForConnection),
        PropertyValue::Flag(false)
    ));
    assert!(!settings.set_property(SinkProperty::Uri, PropertyValue::Flag(false)));
    assert!(!settings.set_property(SinkProperty::Mode, PropertyValue::Text(None)));
    assert!(settings.set_property(SinkProperty::Mode, PropertyValue::Text(Some("LISTEN".into()))));
    assert_eq!(settings.start().unwrap(), SinkMode::Listen);
    settings.mode = "serve".to_string();
    let error = settings.start().unwrap_err();
    assert_eq!(error.kind, ErrorKind::Settings);
    assert_eq!(error.message, "Invalid rtmpxsink mode 'serve': expected publish or listen");
}
