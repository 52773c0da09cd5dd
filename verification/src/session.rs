//! What a protocol session reports, and the FLV stream made of it.

use vstd::prelude::*;
use vstd::slice::slice_to_vec;
use vstd::string::*;

use crate::flv::frame_flv_tag;
use crate::flv::framed;
use crate::flv::TagModel;
use crate::flv::FLV_HEADER;
use crate::flv::FLV_MAX_PAYLOAD;
use crate::flv::FLV_TAG_AUDIO;
use crate::flv::FLV_TAG_SCRIPT_DATA;
use crate::flv::FLV_TAG_VIDEO;
use crate::link::packet_models;
use crate::link::PacketWriter;
use crate::link::Traffic;
use crate::link::WriteStage;
use crate::link::WriterModel;
use crate::script::anyway;
use crate::script::send;
use crate::script::Call;
use crate::script::CallModel;
use crate::script::Op;
use crate::script::OpModel;
use crate::script::Script;
use crate::script::ScriptModel;
use crate::script::Conclusion;
use crate::script::ConclusionModel;
use crate::worker::failed;
use crate::worker::FailureModel;
use crate::worker::OutputModel;
use crate::worker::SessionFailure;
use crate::worker::WorkerOutput;

verus! {

/// Window acknowledgement size that every session announces.
pub const WINDOW_ACK_SIZE: u32 = 2_500_000;

/// Chunk size that every session announces.
pub const CHUNK_SIZE: u32 = 4096;

/// What a server session tells about its client.
#[derive(Debug)]
pub enum ServerSessionEvent {
    ConnectionRequested { request_id: u32, app_name: String },
    PublishStreamRequested { request_id: u32, app_name: String, stream_key: String, stream_id: u32 },
    PublishStreamFinished { stream_key: String },
    PlayStreamRequested { request_id: u32, app_name: String, stream_key: String, stream_id: u32 },
    PlayStreamFinished { stream_key: String },
    AudioDataReceived { timestamp: u32, data: Vec<u8> },
    VideoDataReceived { timestamp: u32, data: Vec<u8> },
    StreamMetadataChanged { timestamp: u32, payload: Vec<u8> },
    StreamDataReceived { timestamp: u32, payload: Vec<u8> },
    /// Anything else.
    Other,
}

/// What a server session produces when it is fed input.
#[derive(Debug)]
pub enum ServerSessionResult {
    /// Bytes to write to the client.
    OutboundResponse(Vec<u8>),
    RaisedEvent(ServerSessionEvent),
    UnhandleableMessageReceived,
}

/// What a server session produces, as plain mathematics. Media and script data
/// come as the tag that they stand for.
#[verifier::ext_equal]
pub enum ServerResultModel {
    Outbound(Seq<u8>),
    ConnectionRequested { request_id: u32, app_name: Seq<char> },
    PublishRequested {
        request_id: u32,
        app_name: Seq<char>,
        stream_key: Seq<char>,
        stream_id: u32,
    },
    PublishFinished { stream_key: Seq<char> },
    PlayRequested { request_id: u32, app_name: Seq<char>, stream_key: Seq<char>, stream_id: u32 },
    PlayFinished { stream_key: Seq<char> },
    Media(TagModel),
    Ignored,
}

impl View for ServerSessionResult {
    type V = ServerResultModel;

    open spec fn view(&self) -> ServerResultModel {
        match self {
            ServerSessionResult::OutboundResponse(packet) => ServerResultModel::Outbound(packet@),
            ServerSessionResult::RaisedEvent(event) => event@,
            ServerSessionResult::UnhandleableMessageReceived => ServerResultModel::Ignored,
        }
    }
}

impl View for ServerSessionEvent {
    type V = ServerResultModel;

    open spec fn view(&self) -> ServerResultModel {
        match self {
            ServerSessionEvent::ConnectionRequested { request_id, app_name } =>
                ServerResultModel::ConnectionRequested {
                    request_id: *request_id,
                    app_name: app_name@,
                },
            ServerSessionEvent::PublishStreamRequested {
                request_id,
                app_name,
                stream_key,
                stream_id,
            } => ServerResultModel::PublishRequested {
                request_id: *request_id,
                app_name: app_name@,
                stream_key: stream_key@,
                stream_id: *stream_id,
            },
            ServerSessionEvent::PublishStreamFinished { stream_key } =>
                ServerResultModel::PublishFinished { stream_key: stream_key@ },
            ServerSessionEvent::PlayStreamRequested {
                request_id,
                app_name,
                stream_key,
                stream_id,
            } => ServerResultModel::PlayRequested {
                request_id: *request_id,
                app_name: app_name@,
                stream_key: stream_key@,
                stream_id: *stream_id,
            },
            ServerSessionEvent::PlayStreamFinished { stream_key } =>
                ServerResultModel::PlayFinished { stream_key: stream_key@ },
            ServerSessionEvent::AudioDataReceived { timestamp, data } => ServerResultModel::Media(
                TagModel { tag_type: FLV_TAG_AUDIO, timestamp: *timestamp, payload: data@ },
            ),
            ServerSessionEvent::VideoDataReceived { timestamp, data } => ServerResultModel::Media(
                TagModel { tag_type: FLV_TAG_VIDEO, timestamp: *timestamp, payload: data@ },
            ),
            ServerSessionEvent::StreamMetadataChanged { timestamp, payload } =>
                ServerResultModel::Media(
                    TagModel {
                        tag_type: FLV_TAG_SCRIPT_DATA,
                        timestamp: *timestamp,
                        payload: payload@,
                    },
                ),
            ServerSessionEvent::StreamDataReceived { timestamp, payload } =>
                ServerResultModel::Media(
                    TagModel {
                        tag_type: FLV_TAG_SCRIPT_DATA,
                        timestamp: *timestamp,
                        payload: payload@,
                    },
                ),
            ServerSessionEvent::Other => ServerResultModel::Ignored,
        }
    }
}

/// What a client session tells about its server.
#[derive(Debug)]
pub enum ClientSessionEvent {
    ConnectionRequestAccepted,
    ConnectionRequestRejected { description: String },
    PlaybackRequestAccepted,
    PublishRequestAccepted,
    AudioDataReceived { timestamp: u32, data: Vec<u8> },
    VideoDataReceived { timestamp: u32, data: Vec<u8> },
    StreamMetadataReceived { timestamp: u32, payload: Vec<u8> },
    StreamDataReceived { timestamp: u32, payload: Vec<u8> },
    /// A status that the session itself does not act on.
    StatusReceived { code: String },
    /// Anything else.
    Other,
}

/// What a client session produces when it is fed input.
#[derive(Debug)]
pub enum ClientSessionResult {
    /// Bytes to write to the server.
    OutboundResponse(Vec<u8>),
    RaisedEvent(ClientSessionEvent),
    UnhandleableMessageReceived,
}

/// What a client session produces, as plain mathematics.
#[verifier::ext_equal]
pub enum ClientResultModel {
    Outbound(Seq<u8>),
    ConnectionAccepted,
    ConnectionRejected { description: Seq<char> },
    PlaybackAccepted,
    PublishAccepted,
    Media(TagModel),
    Status { code: Seq<char> },
    Ignored,
}

impl View for ClientSessionResult {
    type V = ClientResultModel;

    open spec fn view(&self) -> ClientResultModel {
        match self {
            ClientSessionResult::OutboundResponse(packet) => ClientResultModel::Outbound(packet@),
            ClientSessionResult::RaisedEvent(event) => event@,
            ClientSessionResult::UnhandleableMessageReceived => ClientResultModel::Ignored,
        }
    }
}

impl View for ClientSessionEvent {
    type V = ClientResultModel;

    open spec fn view(&self) -> ClientResultModel {
        match self {
            ClientSessionEvent::ConnectionRequestAccepted => ClientResultModel::ConnectionAccepted,
            ClientSessionEvent::ConnectionRequestRejected { description } =>
                ClientResultModel::ConnectionRejected { description: description@ },
            ClientSessionEvent::PlaybackRequestAccepted => ClientResultModel::PlaybackAccepted,
            ClientSessionEvent::PublishRequestAccepted => ClientResultModel::PublishAccepted,
            ClientSessionEvent::AudioDataReceived { timestamp, data } => ClientResultModel::Media(
                TagModel { tag_type: FLV_TAG_AUDIO, timestamp: *timestamp, payload: data@ },
            ),
            ClientSessionEvent::VideoDataReceived { timestamp, data } => ClientResultModel::Media(
                TagModel { tag_type: FLV_TAG_VIDEO, timestamp: *timestamp, payload: data@ },
            ),
            ClientSessionEvent::StreamMetadataReceived { timestamp, payload } =>
                ClientResultModel::Media(
                    TagModel {
                        tag_type: FLV_TAG_SCRIPT_DATA,
                        timestamp: *timestamp,
                        payload: payload@,
                    },
                ),
            ClientSessionEvent::StreamDataReceived { timestamp, payload } =>
                ClientResultModel::Media(
                    TagModel {
                        tag_type: FLV_TAG_SCRIPT_DATA,
                        timestamp: *timestamp,
                        payload: payload@,
                    },
                ),
            ClientSessionEvent::StatusReceived { code } => ClientResultModel::Status {
                code: code@,
            },
            ClientSessionEvent::Other => ClientResultModel::Ignored,
        }
    }
}

/// The packets among the results of a client session, in order.
pub open spec fn client_packets(results: Seq<ClientResultModel>) -> Seq<Seq<u8>>
    decreases results.len(),
{
    if results.len() == 0 {
        Seq::empty()
    } else {
        let front = client_packets(results.drop_last());
        match results.last() {
            ClientResultModel::Outbound(packet) => front.push(packet),
            _ => front,
        }
    }
}

/// The packets among the results of a server session, in order.
pub open spec fn server_packets(results: Seq<ServerResultModel>) -> Seq<Seq<u8>>
    decreases results.len(),
{
    if results.len() == 0 {
        Seq::empty()
    } else {
        let front = server_packets(results.drop_last());
        match results.last() {
            ServerResultModel::Outbound(packet) => front.push(packet),
            _ => front,
        }
    }
}

/// A writer for the packets among the results of a client session; the other
/// results have nothing to write.
pub fn write_client_results(results: Vec<ClientSessionResult>) -> (writer: PacketWriter)
    ensures
        writer@ == (WriterModel {
            traffic: Traffic::Request,
            stage: WriteStage::Fresh,
            packets: client_packets(results@.map_values(|result: ClientSessionResult| result@)),
        }),
{
    let mut packets: Vec<Vec<u8>> = Vec::new();
    let ghost models = results@.map_values(|result: ClientSessionResult| result@);
    assert(packet_models(packets@) =~= client_packets(models.take(0)));
    for i in 0..results.len()
        invariant
            models == results@.map_values(|result: ClientSessionResult| result@),
            packet_models(packets@) == client_packets(models.take(i as int)),
    {
        assert(models.take(i + 1).drop_last() =~= models.take(i as int));
        let ghost sofar = packet_models(packets@);
        if let ClientSessionResult::OutboundResponse(packet) = &results[i] {
            packets.push(slice_to_vec(packet.as_slice()));
            assert(packet_models(packets@) =~= sofar.push(packet@));
        }
    }
    assert(models.take(models.len() as int) =~= models);
    PacketWriter::new(Traffic::Request, packets)
}

/// A writer for the packets among the results of a server session; the other
/// results have nothing to write.
pub fn write_session_results(results: Vec<ServerSessionResult>) -> (writer: PacketWriter)
    ensures
        writer@ == (WriterModel {
            traffic: Traffic::Response,
            stage: WriteStage::Fresh,
            packets: server_packets(results@.map_values(|result: ServerSessionResult| result@)),
        }),
{
    let mut packets: Vec<Vec<u8>> = Vec::new();
    let ghost models = results@.map_values(|result: ServerSessionResult| result@);
    assert(packet_models(packets@) =~= server_packets(models.take(0)));
    for i in 0..results.len()
        invariant
            models == results@.map_values(|result: ServerSessionResult| result@),
            packet_models(packets@) == server_packets(models.take(i as int)),
    {
        assert(models.take(i + 1).drop_last() =~= models.take(i as int));
        let ghost sofar = packet_models(packets@);
        if let ServerSessionResult::OutboundResponse(packet) = &results[i] {
            packets.push(slice_to_vec(packet.as_slice()));
            assert(packet_models(packets@) =~= sofar.push(packet@));
        }
    }
    assert(models.take(models.len() as int) =~= models);
    PacketWriter::new(Traffic::Response, packets)
}

/// A writer for one packet of media.
pub fn write_packet_bytes(packet: Vec<u8>) -> (writer: PacketWriter)
    ensures
        writer@ == (WriterModel {
            traffic: Traffic::Media,
            stage: WriteStage::Fresh,
            packets: seq![packet@],
        }),
{
    let mut packets: Vec<Vec<u8>> = Vec::new();
    packets.push(packet);
    assert(packet_models(packets@) =~= seq![packet@]);
    PacketWriter::new(Traffic::Media, packets)
}

/// FLV framing shared by the listen and play paths of the source.
///
/// Both paths emit the 13-byte FLV header once, then frame every media message
/// with the 11-byte tag header and the trailing previous-tag-size. The writer
/// knows whether the header is out.
#[derive(Debug)]
pub struct FlvTagWriter {
    header_sent: bool,
}

impl View for FlvTagWriter {
    type V = bool;

    /// Whether the header is out.
    closed spec fn view(&self) -> bool {
        self.header_sent
    }
}

/// The header, unless it is out already.
pub open spec fn header_ops(header_sent: bool) -> Seq<OpModel> {
    if header_sent {
        Seq::empty()
    } else {
        seq![send(OutputModel::Data(FLV_HEADER@))]
    }
}

/// What a message that no tag can hold is answered with.
pub open spec fn oversize() -> Seq<char> {
    "RTMP media message exceeds the FLV 24-bit tag-size limit"@
}

/// What one message leads to: the header if it is not out yet, then the framed
/// tag. A message that no tag can hold is reported and ends the worker.
pub open spec fn media_script(header_sent: bool, tag: TagModel) -> ScriptModel {
    if tag.payload.len() <= FLV_MAX_PAYLOAD {
        ScriptModel {
            ops: header_ops(header_sent) + seq![send(OutputModel::Data(framed(tag)))],
            conclusion: ConclusionModel::Continue,
        }
    } else {
        ScriptModel {
            ops: header_ops(header_sent) + seq![
                anyway(CallModel::Offer(OutputModel::Error(oversize()))),
                anyway(CallModel::Cancel),
            ],
            conclusion: ConclusionModel::Failed(failed(oversize())),
        }
    }
}

impl FlvTagWriter {
    /// A writer whose header is still to come.
    pub fn new() -> (writer: FlvTagWriter)
        ensures
            !writer@,
    {
        FlvTagWriter { header_sent: false }
    }

    /// Adds the header to a script, unless it is out already.
    pub fn ensure_header(&mut self, script: &mut Script)
        ensures
            final(self)@,
            final(script)@.conclusion == old(script)@.conclusion,
            final(script)@.ops == old(script)@.ops + header_ops(old(self)@),
    {
        let ghost before = script@.ops;
        if !self.header_sent {
            self.header_sent = true;
            script.push(Op::send(WorkerOutput::Data(slice_to_vec(FLV_HEADER.as_slice()))));
        }
        assert(script@.ops =~= before + header_ops(old(self)@));
    }

    /// What one message leads to.
    pub fn push_media(&mut self, tag_type: u8, timestamp: u32, payload: &[u8]) -> (script: Script)
        ensures
            final(self)@,
            script@ == media_script(
                old(self)@,
                TagModel { tag_type, timestamp, payload: payload@ },
            ),
    {
        let ghost tag = TagModel { tag_type, timestamp, payload: payload@ };
        let mut script: Script = Script::ending(Conclusion::Continue);
        self.ensure_header(&mut script);
        match frame_flv_tag(tag_type, timestamp, payload) {
            Ok(bytes) => {
                script.push(Op::send(WorkerOutput::Data(bytes)));
            },
            Err(error) => {
                script.push(Op::anyway(Call::Offer(WorkerOutput::Error(error.message()))));
                script.push(Op::anyway(Call::Cancel));
                script.conclusion = Conclusion::Failed(SessionFailure::error(error.message()));
            },
        }
        assert(script@ =~= media_script(old(self)@, tag));
        script
    }
}

/// A media message becomes an FLV tag of its own type, with its own timestamp
/// and payload: audio 8, video 9, metadata and other script data 18. That holds
/// of what a publisher sends and of what a server plays.
pub proof fn law_messages_become_tags_of_their_type(timestamp: u32, data: Vec<u8>)
    ensures
        ({
            let tag = |tag_type: u8| TagModel { tag_type, timestamp, payload: data@ };
            &&& (ServerSessionEvent::AudioDataReceived { timestamp, data })@
                == ServerResultModel::Media(tag(8))
            &&& (ServerSessionEvent::VideoDataReceived { timestamp, data })@
                == ServerResultModel::Media(tag(9))
            &&& (ServerSessionEvent::StreamMetadataChanged { timestamp, payload: data })@
                == ServerResultModel::Media(tag(18))
            &&& (ServerSessionEvent::StreamDataReceived { timestamp, payload: data })@
                == ServerResultModel::Media(tag(18))
            &&& (ClientSessionEvent::AudioDataReceived { timestamp, data })@
                == ClientResultModel::Media(tag(8))
            &&& (ClientSessionEvent::VideoDataReceived { timestamp, data })@
                == ClientResultModel::Media(tag(9))
            &&& (ClientSessionEvent::StreamMetadataReceived { timestamp, payload: data })@
                == ClientResultModel::Media(tag(18))
            &&& (ClientSessionEvent::StreamDataReceived { timestamp, payload: data })@
                == ClientResultModel::Media(tag(18))
        }),
{
}

/// What a session reports is told as it is: packets with their bytes, requests
/// with their id and the names they ask for.
pub proof fn law_results_show_their_fields(
    packet: Vec<u8>,
    id: u32,
    stream_id: u32,
    app: String,
    key: String,
    served: ServerSessionEvent,
    client: ClientSessionEvent,
)
    ensures
        ServerSessionResult::OutboundResponse(packet)@ == ServerResultModel::Outbound(packet@),
        ServerSessionResult::RaisedEvent(served)@ == served@,
        ServerSessionResult::UnhandleableMessageReceived@ == ServerResultModel::Ignored,
        (ServerSessionEvent::ConnectionRequested { request_id: id, app_name: app })@ == (
        ServerResultModel::ConnectionRequested { request_id: id, app_name: app@ }),
        (ServerSessionEvent::PublishStreamRequested {
            request_id: id,
            app_name: app,
            stream_key: key,
            stream_id,
        })@ == (ServerResultModel::PublishRequested {
            request_id: id,
            app_name: app@,
            stream_key: key@,
            stream_id,
        }),
        (ServerSessionEvent::PlayStreamRequested {
            request_id: id,
            app_name: app,
            stream_key: key,
            stream_id,
        })@ == (ServerResultModel::PlayRequested {
            request_id: id,
            app_name: app@,
            stream_key: key@,
            stream_id,
        }),
        (ServerSessionEvent::PublishStreamFinished { stream_key: key })@ == (
        ServerResultModel::PublishFinished { stream_key: key@ }),
        (ServerSessionEvent::PlayStreamFinished { stream_key: key })@ == (
        ServerResultModel::PlayFinished { stream_key: key@ }),
        ServerSessionEvent::Other@ == ServerResultModel::Ignored,
        ClientSessionResult::OutboundResponse(packet)@ == ClientResultModel::Outbound(packet@),
        ClientSessionResult::RaisedEvent(client)@ == client@,
        ClientSessionResult::UnhandleableMessageReceived@ == ClientResultModel::Ignored,
        ClientSessionEvent::ConnectionRequestAccepted@ == ClientResultModel::ConnectionAccepted,
        (ClientSessionEvent::ConnectionRequestRejected { description: key })@ == (
        ClientResultModel::ConnectionRejected { description: key@ }),
        ClientSessionEvent::PlaybackRequestAccepted@ == ClientResultModel::PlaybackAccepted,
        ClientSessionEvent::PublishRequestAccepted@ == ClientResultModel::PublishAccepted,
        (ClientSessionEvent::StatusReceived { code: key })@ == (ClientResultModel::Status {
            code: key@,
        }),
        ClientSessionEvent::Other@ == ClientResultModel::Ignored,
{
}

/// The packets among some results are all of them, in order, and nothing else:
/// a packet more is one more to write, behind the others, and any other result
/// is none.
pub proof fn law_every_packet_is_picked(
    served: Seq<ServerResultModel>,
    client: Seq<ClientResultModel>,
    packet: Seq<u8>,
    request: ServerResultModel,
    event: ClientResultModel,
)
    requires
        !(request is Outbound),
        !(event is Outbound),
    ensures
        server_packets(Seq::empty()).len() == 0,
        client_packets(Seq::empty()).len() == 0,
        server_packets(served.push(ServerResultModel::Outbound(packet))) == server_packets(
            served,
        ).push(packet),
        client_packets(client.push(ClientResultModel::Outbound(packet))) == client_packets(
            client,
        ).push(packet),
        server_packets(served.push(request)) == server_packets(served),
        client_packets(client.push(event)) == client_packets(client),
{
    assert(served.push(ServerResultModel::Outbound(packet)).drop_last() =~= served);
    assert(client.push(ClientResultModel::Outbound(packet)).drop_last() =~= client);
    assert(served.push(request).drop_last() =~= served);
    assert(client.push(event).drop_last() =~= client);
}

/// The FLV header goes out once, before the first message, and then every
/// message that a tag can hold goes out whole; the session goes on.
pub proof fn law_header_then_every_message(tag: TagModel)
    requires
        tag.payload.len() < 0x100_0000,
    ensures
        ({
            let first = media_script(false, tag);
            let later = media_script(true, tag);
            let output = |op: OpModel, bytes: Seq<u8>|
                op.call == CallModel::Send(OutputModel::Data(bytes)) && op.policy.closed == Some(
                    "listener is shutting down"@,
                );
            &&& first.ops.len() == 2
            &&& output(
                first.ops[0],
                seq![
                    'F' as u8,
                    'L' as u8,
                    'V' as u8,
                    1,
                    5,
                    0,
                    0,
                    0,
                    9,
                    0,
                    0,
                    0,
                    0,
                ],
            )
            &&& output(first.ops[1], framed(tag))
            &&& later.ops.len() == 1
            &&& output(later.ops[0], framed(tag))
            &&& first.conclusion == ConclusionModel::Continue
            &&& later.conclusion == ConclusionModel::Continue
        }),
{
    assert(FLV_HEADER@ =~= seq![
        'F' as u8,
        'L' as u8,
        'V' as u8,
        1,
        5,
        0,
        0,
        0,
        9,
        0,
        0,
        0,
        0,
    ]);
}

/// A message that no tag can hold never goes out in part: the element is told,
/// the worker is cancelled, and the session fails with the same words.
pub proof fn law_oversized_messages_end_the_worker(header_sent: bool, tag: TagModel)
    requires
        tag.payload.len() >= 0x100_0000,
    ensures
        ({
            let script = media_script(header_sent, tag);
            let text = "RTMP media message exceeds the FLV 24-bit tag-size limit"@;
            let count = script.ops.len() as int;
            &&& count == if header_sent {
                2int
            } else {
                3int
            }
            &&& script.ops[count - 2].call == CallModel::Offer(OutputModel::Error(text))
            &&& script.ops[count - 1].call == CallModel::Cancel
            &&& script.conclusion == ConclusionModel::Failed(
                FailureModel { message: text, client_disconnect: false },
            )
        }),
{
}

} // verus!
