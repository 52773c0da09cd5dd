//! Sequence headers: what a player that joins late must see first.

use vstd::prelude::*;

use crate::flv::tag_models;
use crate::flv::FlvTag;
use crate::flv::TagModel;
use crate::flv::FLV_TAG_AUDIO;
use crate::flv::FLV_TAG_VIDEO;

verus! {

/// Whether a video payload is a sequence header. Classic AVC is codec id 7
/// with packet type 0. Enhanced RTMP carries packet type 0 (sequence start) in
/// the low nibble of the first byte, followed by a FourCC; classic codec ids
/// are never 0.
pub open spec fn video_header(payload: Seq<u8>) -> bool {
    payload.len() >= 2 && if payload[0] % 16 == 7 {
        payload[1] == 0
    } else {
        payload[0] % 16 == 0 && payload.len() >= 5
    }
}

/// Whether an audio payload is a sequence header. Classic AAC is sound format
/// 10 with packet type 0. Enhanced RTMP is sound format 9 with packet type 0
/// (sequence start) in the low nibble.
pub open spec fn audio_header(payload: Seq<u8>) -> bool {
    payload.len() >= 2 && if payload[0] / 16 == 10 {
        payload[1] == 0
    } else {
        payload[0] == 0x90
    }
}

/// Whether a video payload is a sequence header.
pub fn is_video_sequence_header(payload: &[u8]) -> (header: bool)
    ensures
        header == video_header(payload@),
{
    if payload.len() < 2 {
        return false;
    }
    let first: u8 = payload[0];
    assert(first & 0x0F == first % 16) by (bit_vector);
    match first & 0x0F {
        7 => payload[1] == 0,
        0 => payload.len() >= 5,
        _ => false,
    }
}

/// Whether an audio payload is a sequence header.
pub fn is_audio_sequence_header(payload: &[u8]) -> (header: bool)
    ensures
        header == audio_header(payload@),
{
    if payload.len() < 2 {
        return false;
    }
    let first: u8 = payload[0];
    assert(first >> 4 == first / 16) by (bit_vector);
    assert((first & 0xF0 == 0x90 && first & 0x0F == 0) == (first == 0x90)) by (bit_vector);
    if first >> 4 == 10 {
        return payload[1] == 0;
    }
    first & 0xF0 == 0x90 && first & 0x0F == 0
}

/// Last sequence headers seen on a listener, replayed to players that join
/// mid-stream so that they can decode from the live edge.
#[derive(Debug)]
pub struct HeaderCache {
    video: Option<FlvTag>,
    audio: Option<FlvTag>,
}

/// A header cache, as plain mathematics.
#[verifier::ext_equal]
pub struct CacheModel {
    pub video: Option<TagModel>,
    pub audio: Option<TagModel>,
}

/// An optional tag as an optional model.
pub open spec fn opt_tag(tag: Option<FlvTag>) -> Option<TagModel> {
    match tag {
        Some(tag) => Some(tag@),
        None => None,
    }
}

impl View for HeaderCache {
    type V = CacheModel;

    closed spec fn view(&self) -> CacheModel {
        CacheModel { video: opt_tag(self.video), audio: opt_tag(self.audio) }
    }
}

/// Whether a tag is a video sequence header.
pub open spec fn is_video_header(tag: TagModel) -> bool {
    tag.tag_type == FLV_TAG_VIDEO && video_header(tag.payload)
}

/// Whether a tag is an audio sequence header.
pub open spec fn is_audio_header(tag: TagModel) -> bool {
    tag.tag_type == FLV_TAG_AUDIO && audio_header(tag.payload)
}

impl CacheModel {
    /// The cache before any tag.
    pub open spec fn empty() -> CacheModel {
        CacheModel { video: None, audio: None }
    }

    /// The cache after one more tag: a sequence header takes the place of the
    /// one before it, any other tag changes nothing.
    pub open spec fn observing(self, tag: TagModel) -> CacheModel {
        if is_video_header(tag) {
            CacheModel { video: Some(tag), ..self }
        } else if is_audio_header(tag) {
            CacheModel { audio: Some(tag), ..self }
        } else {
            self
        }
    }

    /// The cache after several tags.
    pub open spec fn observing_all(self, tags: Seq<TagModel>) -> CacheModel
        decreases tags.len(),
    {
        if tags.len() == 0 {
            self
        } else {
            self.observing_all(tags.drop_last()).observing(tags.last())
        }
    }

    /// The cached headers in the order in which a player gets them: video,
    /// then audio.
    pub open spec fn ordered(self) -> Seq<TagModel> {
        (match self.video {
            Some(tag) => seq![tag],
            None => Seq::empty(),
        }) + (match self.audio {
            Some(tag) => seq![tag],
            None => Seq::empty(),
        })
    }
}

impl Default for HeaderCache {
    fn default() -> (cache: HeaderCache)
        ensures
            cache@ == CacheModel::empty(),
    {
        HeaderCache { video: None, audio: None }
    }
}

impl HeaderCache {
    /// Takes note of a tag. Only sequence headers are kept.
    pub fn observe(&mut self, tag: &FlvTag)
        ensures
            final(self)@ == old(self)@.observing(tag@),
    {
        if tag.tag_type == FLV_TAG_VIDEO {
            if is_video_sequence_header(tag.payload.as_slice()) {
                self.video = Some(tag.clone());
            }
        } else if tag.tag_type == FLV_TAG_AUDIO {
            if is_audio_sequence_header(tag.payload.as_slice()) {
                self.audio = Some(tag.clone());
            }
        }
    }

    /// Takes note of several tags.
    pub fn observe_all(&mut self, tags: &Vec<FlvTag>)
        ensures
            final(self)@ == old(self)@.observing_all(tag_models(tags@)),
    {
        let ghost models = tag_models(tags@);
        let ghost before = self@;
        for i in 0..tags.len()
            invariant
                models == tag_models(tags@),
                self@ == before.observing_all(models.take(i as int)),
        {
            assert(models.take(i + 1).drop_last() =~= models.take(i as int));
            self.observe(&tags[i]);
        }
        assert(models.take(models.len() as int) =~= models);
    }

    /// The cached headers in the order in which a player gets them.
    pub fn ordered(&self) -> (tags: Vec<FlvTag>)
        ensures
            tag_models(tags@) == self@.ordered(),
    {
        let mut tags: Vec<FlvTag> = Vec::new();
        if let Some(video) = &self.video {
            tags.push(video.clone());
        }
        if let Some(audio) = &self.audio {
            tags.push(audio.clone());
        }
        assert(tag_models(tags@) =~= self@.ordered());
        tags
    }
}

pub(crate) proof fn lemma_observing_concat(
    cache: CacheModel,
    first: Seq<TagModel>,
    second: Seq<TagModel>,
)
    ensures
        cache.observing_all(first + second) == cache.observing_all(first).observing_all(second),
    decreases second.len(),
{
    if second.len() == 0 {
        assert(first + second =~= first);
    } else {
        assert((first + second).drop_last() =~= first + second.drop_last());
        lemma_observing_concat(cache, first, second.drop_last());
    }
}

/// Whether `tag` is the last one among `tags` that `wanted` picks.
pub open spec fn is_latest(tags: Seq<TagModel>, wanted: spec_fn(TagModel) -> bool, tag: TagModel) ->
    bool {
    exists|i: int|
        0 <= i < tags.len() && tags[i] == tag && wanted(tag) && forall|j: int|
            i < j < tags.len() ==> !wanted(#[trigger] tags[j])
}

/// The cache holds the latest sequence header of each kind among all tags that
/// it saw, and none exactly if there was none. So coded frames and script data
/// never evict a header, and a newer header replaces the old one.
pub proof fn law_cache_holds_the_latest_headers(tags: Seq<TagModel>)
    ensures
        ({
            let cache = CacheModel::empty().observing_all(tags);
            &&& match cache.video {
                Some(tag) => is_latest(tags, |t: TagModel| is_video_header(t), tag),
                None => forall|i: int|
                    0 <= i < tags.len() ==> !is_video_header(#[trigger] tags[i]),
            }
            &&& match cache.audio {
                Some(tag) => is_latest(tags, |t: TagModel| is_audio_header(t), tag),
                None => forall|i: int|
                    0 <= i < tags.len() ==> !is_audio_header(#[trigger] tags[i]),
            }
        }),
    decreases tags.len(),
{
    if tags.len() > 0 {
        let front = tags.drop_last();
        law_cache_holds_the_latest_headers(front);
        let before = CacheModel::empty().observing_all(front);
        let after = CacheModel::empty().observing_all(tags);
        let last = tags.last();
        lemma_latest_of_longer(tags, |t: TagModel| is_video_header(t), before.video, after.video);
        lemma_latest_of_longer(tags, |t: TagModel| is_audio_header(t), before.audio, after.audio);
        assert forall|i: int|
            0 <= i < tags.len() && after.video is None implies !is_video_header(
            #[trigger] tags[i],
        ) by {
            if i < front.len() {
                assert(front[i] == tags[i]);
            }
        }
        assert forall|i: int|
            0 <= i < tags.len() && after.audio is None implies !is_audio_header(
            #[trigger] tags[i],
        ) by {
            if i < front.len() {
                assert(front[i] == tags[i]);
            }
        }
    }
}

proof fn lemma_latest_of_longer(
    tags: Seq<TagModel>,
    wanted: spec_fn(TagModel) -> bool,
    before: Option<TagModel>,
    after: Option<TagModel>,
)
    requires
        tags.len() > 0,
        before matches Some(tag) ==> is_latest(tags.drop_last(), wanted, tag),
        after == if wanted(tags.last()) {
            Some(tags.last())
        } else {
            before
        },
    ensures
        after matches Some(tag) ==> is_latest(tags, wanted, tag),
{
    let front = tags.drop_last();
    let last = tags.len() - 1;
    if wanted(tags.last()) {
        assert(tags[last] == tags.last());
    } else if let Some(tag) = before {
        let i = choose|i: int|
            0 <= i < front.len() && front[i] == tag && wanted(tag) && forall|j: int|
                i < j < front.len() ==> !wanted(#[trigger] front[j]);
        assert(tags[i] == tag);
        assert forall|j: int| i < j < tags.len() implies !wanted(#[trigger] tags[j]) by {
            if j < last {
                assert(front[j] == tags[j]);
            }
        }
    }
}

/// A player that joins gets the video header before the audio header, and no
/// tag that is not a sequence header.
pub proof fn law_replay_is_video_then_audio(tags: Seq<TagModel>)
    ensures
        ({
            let replay = CacheModel::empty().observing_all(tags).ordered();
            &&& replay.len() <= 2
            &&& forall|i: int|
                0 <= i < replay.len() ==> is_video_header(#[trigger] replay[i])
                    || is_audio_header(replay[i])
            &&& replay.len() == 2 ==> is_video_header(replay[0]) && is_audio_header(replay[1])
        }),
{
    law_cache_holds_the_latest_headers(tags);
}

/// With packet type 0 in its low nibble, a video payload that carries a FourCC
/// is a sequence header, for every FourCC (AVC, HEVC, AV1, VP9 and whatever
/// comes after them), every frame type and every body. Without the whole FourCC
/// it is none.
pub proof fn law_every_fourcc_has_sequence_headers(
    first: u8,
    fourcc: (u8, u8, u8, u8),
    body: Seq<u8>,
    short: Seq<u8>,
)
    requires
        first % 16 == 0,
        short.len() < 4,
    ensures
        video_header(seq![first, fourcc.0, fourcc.1, fourcc.2, fourcc.3] + body),
        !video_header(seq![first] + short),
{
}

/// With codec id 7 (classic AVC) in its low nibble, a video payload is a
/// sequence header exactly if its packet type, the second byte, is 0, whatever
/// the frame type and whatever follows; and with any other codec id it is none,
/// nor is a payload without a second byte.
pub proof fn law_classic_video_headers_are_avc(first: u8, second: u8, body: Seq<u8>)
    requires
        first % 16 != 0,
    ensures
        video_header(seq![first, second] + body) <==> first % 16 == 7 && second == 0,
        !video_header(seq![first]),
        !video_header(Seq::empty()),
{
    let payload = seq![first, second] + body;
    assert(payload[0] == first && payload[1] == second);
}

/// An audio payload is a sequence header exactly if it is classic AAC (sound
/// format 10 in the high nibble) with packet type 0 in the second byte, or
/// enhanced (sound format 9) with packet type 0 in the low nibble, whatever
/// follows; a payload without a second byte is none.
pub proof fn law_audio_headers_are_aac_or_enhanced(
    format: u8,
    low: u8,
    second: u8,
    body: Seq<u8>,
)
    requires
        format < 16,
        low < 16,
    ensures
        audio_header(seq![(format * 16 + low) as u8, second] + body) <==> (format == 10 && second
            == 0) || (format == 9 && low == 0),
        !audio_header(seq![(format * 16 + low) as u8]),
        !audio_header(Seq::empty()),
{
    let first = (format * 16 + low) as u8;
    let payload = seq![first, second] + body;
    assert(payload[0] == first && payload[1] == second);
    assert((format * 16 + low) / 16 == format && (format * 16 + low) % 16 == low);
}

/// Whether a video payload is one that frames are decoded by and not a frame
/// itself: the low nibble tells a FourCC sequence start or an AVC one.
spec fn starts_video(payload: Seq<u8>) -> bool {
    ||| payload.len() >= 5 && payload[0] % 16 == 0
    ||| payload.len() >= 2 && payload[0] % 16 == 7 && payload[1] == 0
}

/// Whether an audio payload is one that frames are decoded by and not a frame
/// itself.
spec fn starts_audio(payload: Seq<u8>) -> bool {
    ||| payload.len() >= 2 && 0xa0 <= payload[0] < 0xb0 && payload[1] == 0
    ||| payload.len() >= 2 && payload[0] == 0x90
}

proof fn lemma_later_tags_keep_headers(cache: CacheModel, later: Seq<TagModel>)
    ensures
        (forall|i: int|
            0 <= i < later.len() ==> !((#[trigger] later[i]).tag_type == 9 && starts_video(
                later[i].payload,
            ))) ==> cache.observing_all(later).video == cache.video,
        (forall|i: int|
            0 <= i < later.len() ==> !((#[trigger] later[i]).tag_type == 8 && starts_audio(
                later[i].payload,
            ))) ==> cache.observing_all(later).audio == cache.audio,
    decreases later.len(),
{
    if later.len() > 0 {
        let front = later.drop_last();
        lemma_later_tags_keep_headers(cache, front);
        let last = later[later.len() - 1];
        assert(last == later.last());
        assert forall|i: int| 0 <= i < front.len() implies front[i] == #[trigger] later[i] by {}
    }
}

/// A player that joins late gets the latest video sequence header of the
/// stream, the very tag, before the latest audio one, whatever else the stream
/// held before, between and behind them.
pub proof fn law_late_joiner_gets_the_latest_headers(
    before: Seq<TagModel>,
    video: TagModel,
    between: Seq<TagModel>,
    audio: TagModel,
    behind: Seq<TagModel>,
)
    requires
        video.tag_type == 9,
        (video.payload.len() >= 5 && video.payload[0] % 16 == 0) || (video.payload.len() >= 2
            && video.payload[0] % 16 == 7 && video.payload[1] == 0),
        audio.tag_type == 8,
        audio.payload.len() >= 2,
        (audio.payload[0] / 16 == 10 && audio.payload[1] == 0) || audio.payload[0] == 0x90,
        forall|i: int|
            0 <= i < between.len() ==> (#[trigger] between[i]).tag_type == 9 ==> {
                let payload = between[i].payload;
                payload.len() < 2 || (payload[0] % 16 == 7 && payload[1] != 0) || (payload[0] % 16
                    != 7 && payload[0] % 16 != 0)
            },
        forall|i: int|
            0 <= i < behind.len() ==> (#[trigger] behind[i]).tag_type == 9 ==> {
                let payload = behind[i].payload;
                payload.len() < 2 || (payload[0] % 16 == 7 && payload[1] != 0) || (payload[0] % 16
                    != 7 && payload[0] % 16 != 0)
            },
        forall|i: int|
            0 <= i < behind.len() ==> (#[trigger] behind[i]).tag_type == 8 ==> {
                let payload = behind[i].payload;
                payload.len() < 2 || (payload[0] / 16 == 10 && payload[1] != 0) || (payload[0] / 16
                    != 10 && payload[0] != 0x90)
            },
    ensures
        CacheModel::empty().observing_all(
            before + seq![video] + between + seq![audio] + behind,
        ).ordered() == seq![video, audio],
        CacheModel::empty().observing_all(before + seq![audio] + behind).ordered().last() == audio,
        CacheModel::empty().observing_all(before + seq![video] + between).ordered().first()
            == video,
{
    let empty = CacheModel::empty();
    reveal_with_fuel(CacheModel::observing_all, 2);
    assert(seq![video].drop_last() =~= Seq::<TagModel>::empty());
    assert(seq![audio].drop_last() =~= Seq::<TagModel>::empty());
    lemma_observing_concat(empty, before + seq![video] + between + seq![audio], behind);
    lemma_observing_concat(empty, before + seq![video] + between, seq![audio]);
    lemma_observing_concat(empty, before + seq![video], between);
    lemma_observing_concat(empty, before, seq![video]);
    lemma_observing_concat(empty, before + seq![audio], behind);
    lemma_observing_concat(empty, before, seq![audio]);
    let first = empty.observing_all(before);
    let second = first.observing(video);
    assert(first.observing_all(seq![video]) == second);
    lemma_later_tags_keep_headers(second, between);
    let third = second.observing_all(between);
    let fourth = third.observing(audio);
    assert(third.observing_all(seq![audio]) == fourth);
    lemma_later_tags_keep_headers(fourth, behind);
    let other = first.observing(audio);
    assert(first.observing_all(seq![audio]) == other);
    lemma_later_tags_keep_headers(other, behind);
    let last = fourth.observing_all(behind);
    assert(last.ordered() =~= seq![video, audio]);
}

/// Nothing but sequence headers is ever cached: a stream without any leaves a
/// late joiner nothing to be replayed.
pub proof fn law_frames_and_script_data_are_not_replayed(tags: Seq<TagModel>)
    requires
        forall|i: int|
            0 <= i < tags.len() ==> match (#[trigger] tags[i]).tag_type {
                9 => tags[i].payload.len() < 2 || (tags[i].payload[0] % 16 == 7
                    && tags[i].payload[1] != 0) || (tags[i].payload[0] % 16 != 7
                    && tags[i].payload[0] % 16 != 0),
                8 => tags[i].payload.len() < 2 || (tags[i].payload[0] / 16 == 10
                    && tags[i].payload[1] != 0) || (tags[i].payload[0] / 16 != 10
                    && tags[i].payload[0] != 0x90),
                _ => true,
            },
    ensures
        CacheModel::empty().observing_all(tags).ordered().len() == 0,
{
    lemma_later_tags_keep_headers(CacheModel::empty(), tags);
}

} // verus!
