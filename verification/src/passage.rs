//! From one end to the other: what a sink is given, a source gives back.

use vstd::prelude::*;

use crate::flv::all_media;
use crate::flv::framed_all;
use crate::flv::joined;
use crate::flv::law_flv_stream_demuxes_to_its_tags;
use crate::flv::lemma_all_tags_are_media;
use crate::flv::DemuxModel;
use crate::flv::TagModel;
use crate::flv::FLV_HEADER;
use crate::flv::FLV_MAX_PAYLOAD;
use crate::flv::law_any_flv_header_is_consumed;
use crate::script::data_chunks;
use crate::script::write_out;
use crate::script::CallModel;
use crate::script::ConclusionModel;
use crate::script::OnWrite;
use crate::session::ClientResultModel;
use crate::session::ServerResultModel;
use crate::sink_listen::law_live_tags_reach_the_player;
use crate::sink_listen::served;
use crate::sink_listen::single;
use crate::sink_listen::PlayerActionModel;
use crate::sink_listen::PlayerEventModel;
use crate::sink_listen::PlayerServerModel;
use crate::sink_listen::PlayerStage;
use crate::sink_publish::law_every_tag_is_published;
use crate::sink_publish::published;
use crate::sink_publish::PublishActionModel;
use crate::sink_publish::PublishEventModel;
use crate::sink_publish::PublishingModel;
use crate::source_listen::law_publisher_messages_survive;
use crate::source_listen::media_of;
use crate::source_listen::PublishModel;
use crate::source_play::law_played_messages_survive;
use crate::source_play::played_media;
use crate::source_play::PlayModel;

verus! {

/// An outbound packet that a session reports is written, in every mode and at
/// every stage: it leads to exactly one write, of exactly its bytes, and the
/// session goes on. One case is left out: what a player's session reports behind
/// the play request that lets the player in, in the same batch, is dropped and
/// so never comes to this.
pub proof fn law_reported_packets_are_written(
    listening: PublishModel,
    playing: PlayModel,
    publishing: PublishingModel,
    serving: PlayerServerModel,
    packet: Seq<u8>,
)
    ensures
        listening.after_result(ServerResultModel::Outbound(packet)) == (
            listening,
            single(write_out(packet)),
        ),
        playing.after_result(ClientResultModel::Outbound(packet)) == (
            playing,
            single(write_out(packet)),
        ),
        publishing.after_result(ClientResultModel::Outbound(packet)) == (
            publishing,
            single(write_out(packet)),
        ),
        ({
            let (next, action) = serving.step(
                PlayerEventModel::Result(ServerResultModel::Outbound(packet)),
            );
            &&& next == serving
            &&& action matches PlayerActionModel::Run(script) && script.ops.len() == 1
                && script.conclusion == ConclusionModel::Continue && script.ops[0].policy.on_write
                == OnWrite::Fail && match script.ops[0].call {
                CallModel::Write(bytes) => bytes == packet,
                CallModel::WriteMedia(bytes) => bytes == packet,
                _ => false,
            }
        }),
{
}

/// The tags that a publishing sink sends for some chunks of its stream.
pub open spec fn published_all(connection: PublishingModel, chunks: Seq<Seq<u8>>) -> Seq<TagModel>
    decreases chunks.len(),
{
    if chunks.len() == 0 {
        Seq::empty()
    } else {
        let (next, action) = connection.step(PublishEventModel::Data(chunks[0]));
        let now = match action {
            PublishActionModel::Run(script) => published(script.ops),
            _ => Seq::empty(),
        };
        now + published_all(next, chunks.drop_first())
    }
}

/// The tags that a listening sink sends to a player for some chunks of its
/// stream.
pub open spec fn served_all(server: PlayerServerModel, chunks: Seq<Seq<u8>>) -> Seq<TagModel>
    decreases chunks.len(),
{
    if chunks.len() == 0 {
        Seq::empty()
    } else {
        let (next, action) = server.step(PlayerEventModel::Data(chunks[0]));
        let now = match action {
            PlayerActionModel::Run(script) => served(script.ops),
            _ => Seq::empty(),
        };
        now + served_all(next, chunks.drop_first())
    }
}

/// Tags, as the session at the other end of a publish reports them.
pub open spec fn as_published(tags: Seq<TagModel>) -> Seq<ServerResultModel> {
    tags.map_values(|tag: TagModel| ServerResultModel::Media(tag))
}

/// Tags, as the session at the other end of a playback reports them.
pub open spec fn as_played(tags: Seq<TagModel>) -> Seq<ClientResultModel> {
    tags.map_values(|tag: TagModel| ClientResultModel::Media(tag))
}

proof fn lemma_published_all(connection: PublishingModel, chunks: Seq<Seq<u8>>)
    ensures
        published_all(connection, chunks) == connection.demux.tags_all(chunks),
    decreases chunks.len(),
{
    if chunks.len() > 0 {
        law_every_tag_is_published(connection, chunks[0]);
        let next = connection.step(PublishEventModel::Data(chunks[0])).0;
        lemma_published_all(next, chunks.drop_first());
    }
}

proof fn lemma_served_all(server: PlayerServerModel, stream_id: u32, chunks: Seq<Seq<u8>>)
    requires
        server.stage == (PlayerStage::Streaming { stream_id }),
    ensures
        served_all(server, chunks) == server.demux.tags_all(chunks),
    decreases chunks.len(),
{
    if chunks.len() > 0 {
        law_live_tags_reach_the_player(server, stream_id, chunks[0]);
        let next = server.step(PlayerEventModel::Data(chunks[0])).0;
        lemma_served_all(next, stream_id, chunks.drop_first());
    }
}

proof fn lemma_media_of_published(tags: Seq<TagModel>)
    ensures
        media_of(as_published(tags)) == tags,
    decreases tags.len(),
{
    if tags.len() == 0 {
        assert(media_of(as_published(tags)) =~= tags);
    } else {
        let later = tags.drop_first();
        lemma_media_of_published(later);
        assert(as_published(tags).drop_first() =~= as_published(later));
        assert(seq![tags[0]] + later =~= tags);
    }
}

proof fn lemma_media_of_played(tags: Seq<TagModel>)
    ensures
        played_media(as_played(tags)) == tags,
    decreases tags.len(),
{
    if tags.len() == 0 {
        assert(played_media(as_played(tags)) =~= tags);
    } else {
        let later = tags.drop_first();
        lemma_media_of_played(later);
        assert(as_played(tags).drop_first() =~= as_played(later));
        assert(seq![tags[0]] + later =~= tags);
    }
}

/// A stream survives the way from a publishing sink to a listening source.
///
/// Whatever the sink is given, cut up in whatever way, if the protocol carries
/// each message as it is, then the source puts out an FLV stream with the tags
/// that the sink found, in the same order, and nothing else.
pub proof fn law_published_stream_arrives(
    sink: PublishingModel,
    source: PublishModel,
    chunks: Seq<Seq<u8>>,
)
    requires
        !source.header_sent,
    ensures
        ({
            let ops = source.after_results(as_published(published_all(sink, chunks))).1;
            DemuxModel::fresh().tags_all(data_chunks(ops)) == sink.demux.tags_all(chunks)
        }),
{
    let tags = sink.demux.tags_all(chunks);
    lemma_published_all(sink, chunks);
    lemma_all_tags_are_media(sink.demux, chunks);
    lemma_media_of_published(tags);
    let results = as_published(tags);
    assert forall|i: int| 0 <= i < results.len() implies source.continues(
        #[trigger] results[i],
    ) by {
        assert(tags[i].payload.len() <= FLV_MAX_PAYLOAD);
    }
    law_publisher_messages_survive(source, results);
}

/// A stream survives the way from a listening sink to a playing source: the
/// tags that come while the player is there arrive, the same and in the same
/// order, and nothing else does.
pub proof fn law_served_stream_arrives(
    sink: PlayerServerModel,
    stream_id: u32,
    source: PlayModel,
    chunks: Seq<Seq<u8>>,
)
    requires
        sink.stage == (PlayerStage::Streaming { stream_id }),
        !source.header_sent,
    ensures
        ({
            let ops = source.after_results(as_played(served_all(sink, chunks))).1;
            DemuxModel::fresh().tags_all(data_chunks(ops)) == sink.demux.tags_all(chunks)
        }),
{
    let tags = sink.demux.tags_all(chunks);
    lemma_served_all(sink, stream_id, chunks);
    lemma_all_tags_are_media(sink.demux, chunks);
    lemma_media_of_played(tags);
    let results = as_played(tags);
    assert forall|i: int| 0 <= i < results.len() implies source.continues(
        #[trigger] results[i],
    ) by {
        assert(tags[i].payload.len() <= FLV_MAX_PAYLOAD);
    }
    law_played_messages_survive(source, results);
}

/// An FLV stream that a fresh sink publishes, header first, comes out of the
/// source with exactly its own tags.
pub proof fn law_flv_stream_arrives(
    sink: PublishingModel,
    source: PublishModel,
    tags: Seq<TagModel>,
    chunks: Seq<Seq<u8>>,
)
    requires
        sink.demux == DemuxModel::fresh(),
        !source.header_sent,
        all_media(tags),
        joined(chunks) == FLV_HEADER@ + framed_all(tags),
    ensures
        ({
            let ops = source.after_results(as_published(published_all(sink, chunks))).1;
            DemuxModel::fresh().tags_all(data_chunks(ops)) == tags
        }),
{
    law_published_stream_arrives(sink, source, chunks);
    law_flv_stream_demuxes_to_its_tags(tags, chunks);
}

/// Every FLV stream passes, whatever its header says: an audio-only or video-only
/// stream that a fresh sink publishes, or that a fresh listening sink serves to a
/// player that is there, comes out of the source with exactly its own tags.
pub proof fn law_any_flv_stream_arrives(
    publisher: PublishingModel,
    listening: PublishModel,
    server: PlayerServerModel,
    stream_id: u32,
    playing: PlayModel,
    header: Seq<u8>,
    tags: Seq<TagModel>,
    chunks: Seq<Seq<u8>>,
)
    requires
        publisher.demux == DemuxModel::fresh(),
        server.demux == DemuxModel::fresh(),
        server.stage == (PlayerStage::Streaming { stream_id }),
        !listening.header_sent,
        !playing.header_sent,
        header.len() == 13,
        header[0] == 'F' as u8,
        header[1] == 'L' as u8,
        header[2] == 'V' as u8,
        forall|i: int|
            0 <= i < tags.len() ==> ((#[trigger] tags[i]).tag_type == 8 || tags[i].tag_type == 9
                || tags[i].tag_type == 18) && tags[i].payload.len() < 0x100_0000,
        joined(chunks) == header + framed_all(tags),
    ensures
        ({
            let ops = listening.after_results(as_published(published_all(publisher, chunks))).1;
            DemuxModel::fresh().tags_all(data_chunks(ops)) == tags
        }),
        ({
            let ops = playing.after_results(as_played(served_all(server, chunks))).1;
            DemuxModel::fresh().tags_all(data_chunks(ops)) == tags
        }),
{
    law_any_flv_header_is_consumed(header, tags, chunks);
    law_published_stream_arrives(publisher, listening, chunks);
    law_served_stream_arrives(server, stream_id, playing, chunks);
}

} // verus!
