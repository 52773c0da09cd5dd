//! FLV framing: tags on the way out, an incremental demuxer on the way in.

use vstd::prelude::*;
use vstd::slice::slice_subrange;
use vstd::slice::slice_to_vec;

verus! {

/// FLV tag type of an audio message.
pub const FLV_TAG_AUDIO: u8 = 8;

/// FLV tag type of a video message.
pub const FLV_TAG_VIDEO: u8 = 9;

/// FLV tag type of a script-data message.
pub const FLV_TAG_SCRIPT_DATA: u8 = 18;

/// FLV file header: signature `FLV`, version 1, flags audio + video, header
/// length 9, previous-tag-size 0.
pub const FLV_HEADER: &'static [u8; 13] = &[
    0x46, 0x4C, 0x56, 0x01, 0x05, 0x00, 0x00, 0x00, 0x09, 0x00, 0x00, 0x00, 0x00,
];

/// Largest payload that the 24-bit size field of a tag can announce.
pub const FLV_MAX_PAYLOAD: usize = 0x00ff_ffff;

/// Bytes before the payload of a tag.
pub const FLV_TAG_HEADER_LEN: usize = 11;

/// One parsed FLV tag: type (8 audio, 9 video, 18 script), timestamp, and
/// the raw payload without tag header or previous-tag-size.
#[derive(Debug, PartialEq, Eq)]
pub struct FlvTag {
    pub tag_type: u8,
    pub timestamp: u32,
    pub payload: Vec<u8>,
}

impl Clone for FlvTag {
    fn clone(&self) -> (copy: FlvTag)
        ensures
            copy@ == self@,
    {
        FlvTag {
            tag_type: self.tag_type,
            timestamp: self.timestamp,
            payload: slice_to_vec(self.payload.as_slice()),
        }
    }
}

/// What a tag says, as plain mathematics.
#[verifier::ext_equal]
pub struct TagModel {
    pub tag_type: u8,
    pub timestamp: u32,
    pub payload: Seq<u8>,
}

impl View for FlvTag {
    type V = TagModel;

    open spec fn view(&self) -> TagModel {
        TagModel { tag_type: self.tag_type, timestamp: self.timestamp, payload: self.payload@ }
    }
}

/// The tags of a list, in order, as models.
pub open spec fn tag_models(tags: Seq<FlvTag>) -> Seq<TagModel> {
    tags.map_values(|tag: FlvTag| tag@)
}

/// Why a message cannot become an FLV tag.
#[derive(Debug, Clone, Copy, PartialEq, Eq)]
pub enum FrameError {
    /// The payload does not fit the 24-bit size field.
    PayloadTooLarge,
}

impl FrameError {
    /// The kind of I/O error that it amounts to.
    pub fn kind(&self) -> (kind: std::io::ErrorKind)
        ensures
            kind is InvalidData,
    {
        std::io::ErrorKind::InvalidData
    }

    /// The text reported for the error.
    pub fn message(&self) -> (text: String)
        ensures
            text@ == "RTMP media message exceeds the FLV 24-bit tag-size limit"@,
    {
        "RTMP media message exceeds the FLV 24-bit tag-size limit".to_owned()
    }
}

/// The low 24 bits of a number, most significant byte first.
pub open spec fn u24_be(value: int) -> Seq<u8> {
    seq![(value / 0x1_0000 % 0x100) as u8, (value / 0x100 % 0x100) as u8, (value % 0x100) as u8]
}

/// A 32-bit number, most significant byte first.
pub open spec fn u32_be(value: int) -> Seq<u8> {
    seq![(value / 0x100_0000 % 0x100) as u8] + u24_be(value)
}

/// The three bytes at `at`, read most significant byte first.
pub open spec fn be24_at(bytes: Seq<u8>, at: int) -> int {
    bytes[at] * 0x1_0000 + bytes[at + 1] * 0x100 + bytes[at + 2]
}

/// Whether the demuxer hands tags of this type out.
pub open spec fn is_media_type(tag_type: u8) -> bool {
    tag_type == FLV_TAG_AUDIO || tag_type == FLV_TAG_VIDEO || tag_type == FLV_TAG_SCRIPT_DATA
}

/// The eleven bytes before the payload: type, payload size, the low 24 bits
/// of the timestamp, its high 8 bits, stream id 0.
pub open spec fn tag_header(tag: TagModel) -> Seq<u8> {
    seq![tag.tag_type] + u24_be(tag.payload.len() as int) + u24_be(tag.timestamp as int) + seq![
        (tag.timestamp as int / 0x100_0000) as u8,
    ] + u24_be(0)
}

/// A whole tag on the wire: header, payload, size of both.
pub open spec fn framed(tag: TagModel) -> Seq<u8> {
    tag_header(tag) + tag.payload + u32_be(11 + tag.payload.len() as int)
}

/// Many tags on the wire, one after the other.
pub open spec fn framed_all(tags: Seq<TagModel>) -> Seq<u8>
    decreases tags.len(),
{
    if tags.len() == 0 {
        Seq::empty()
    } else {
        framed(tags[0]) + framed_all(tags.drop_first())
    }
}

/// Appends the low 24 bits of `value`, most significant byte first.
pub fn push_u24_be(output: &mut Vec<u8>, value: u32)
    ensures
        final(output)@ == old(output)@ + u24_be(value as int),
{
    assert((value >> 16) & 0xff == value / 0x1_0000 % 0x100) by (bit_vector);
    assert((value >> 8) & 0xff == value / 0x100 % 0x100) by (bit_vector);
    assert(value & 0xff == value % 0x100) by (bit_vector);
    output.push(((value >> 16) & 0xff) as u8);
    output.push(((value >> 8) & 0xff) as u8);
    output.push((value & 0xff) as u8);
    assert(output@ =~= old(output)@ + u24_be(value as int));
}

/// Frames one message as an FLV tag with its trailing previous-tag-size.
pub fn frame_flv_tag(tag_type: u8, timestamp: u32, payload: &[u8]) -> (tag: Result<
    Vec<u8>,
    FrameError,
>)
    ensures
        tag is Ok <==> payload@.len() <= FLV_MAX_PAYLOAD,
        tag matches Ok(bytes) ==> bytes@ == framed(
            TagModel { tag_type, timestamp, payload: payload@ },
        ),
        tag matches Err(error) ==> error == FrameError::PayloadTooLarge,
{
    if payload.len() > FLV_MAX_PAYLOAD {
        return Err(FrameError::PayloadTooLarge);
    }
    let payload_len: u32 = payload.len() as u32;
    let ghost model = TagModel { tag_type, timestamp, payload: payload@ };

    let mut tag: Vec<u8> = Vec::with_capacity(FLV_TAG_HEADER_LEN + payload.len() + 4);
    tag.push(tag_type);
    push_u24_be(&mut tag, payload_len);
    assert((timestamp & 0x00ff_ffff) / 0x1_0000 % 0x100 == timestamp / 0x1_0000 % 0x100)
        by (bit_vector);
    assert((timestamp & 0x00ff_ffff) / 0x100 % 0x100 == timestamp / 0x100 % 0x100)
        by (bit_vector);
    assert((timestamp & 0x00ff_ffff) % 0x100 == timestamp % 0x100) by (bit_vector);
    assert(timestamp >> 24 == timestamp / 0x100_0000) by (bit_vector);
    push_u24_be(&mut tag, timestamp & 0x00ff_ffff);
    tag.push((timestamp >> 24) as u8);
    push_u24_be(&mut tag, 0);
    assert(tag@ =~= tag_header(model));
    tag.extend_from_slice(payload);
    assert(tag@ =~= tag_header(model) + payload@);
    let total: u32 = 11 + payload_len;
    assert(total >> 24 == total / 0x100_0000) by (bit_vector);
    tag.push((total >> 24) as u8);
    push_u24_be(&mut tag, total);
    assert(tag@ =~= framed(model));
    Ok(tag)
}

/// The size of the first tag, from its header to its previous-tag-size.
pub open spec fn tag_size(bytes: Seq<u8>) -> int {
    11 + be24_at(bytes, 1) + 4
}

/// Whether the bytes start with a whole tag.
pub open spec fn has_tag(bytes: Seq<u8>) -> bool {
    bytes.len() >= 11 && bytes.len() >= tag_size(bytes)
}

/// The tag that the bytes start with.
pub open spec fn first_tag(bytes: Seq<u8>) -> TagModel {
    TagModel {
        tag_type: bytes[0],
        timestamp: (be24_at(bytes, 4) + bytes[7] * 0x100_0000) as u32,
        payload: bytes.subrange(11, 11 + be24_at(bytes, 1)),
    }
}

/// A tag as the demuxer hands it out: types other than audio, video and
/// script data are left out.
pub open spec fn kept(tag: TagModel) -> Seq<TagModel> {
    if is_media_type(tag.tag_type) {
        seq![tag]
    } else {
        Seq::empty()
    }
}

/// The media tags among the whole tags that the bytes start with.
pub open spec fn tags_in(bytes: Seq<u8>) -> Seq<TagModel>
    decreases bytes.len(),
{
    if has_tag(bytes) {
        kept(first_tag(bytes)) + tags_in(bytes.skip(tag_size(bytes)))
    } else {
        Seq::empty()
    }
}

/// What follows the whole tags that the bytes start with.
pub open spec fn rest_of(bytes: Seq<u8>) -> Seq<u8>
    decreases bytes.len(),
{
    if has_tag(bytes) {
        rest_of(bytes.skip(tag_size(bytes)))
    } else {
        bytes
    }
}

/// The state of a demuxer.
#[verifier::ext_equal]
pub struct DemuxModel {
    /// Bytes received and not yet part of a whole tag.
    pub pending: Seq<u8>,
    /// Whether the start of the stream has been dealt with.
    pub header_skipped: bool,
}

impl DemuxModel {
    /// The state before any byte.
    pub open spec fn fresh() -> DemuxModel {
        DemuxModel { pending: Seq::empty(), header_skipped: false }
    }

    /// The bytes that hold tags, once enough have arrived to tell whether the
    /// stream starts with an FLV header.
    pub open spec fn tag_bytes(self, chunk: Seq<u8>) -> Option<Seq<u8>> {
        let bytes = self.pending + chunk;
        if self.header_skipped {
            Some(bytes)
        } else if bytes.len() < 13 {
            None
        } else if bytes[0] == 0x46 && bytes[1] == 0x4C && bytes[2] == 0x56 {
            Some(bytes.skip(13))
        } else {
            Some(bytes)
        }
    }

    /// The tags that become complete with `chunk`.
    pub open spec fn tags(self, chunk: Seq<u8>) -> Seq<TagModel> {
        match self.tag_bytes(chunk) {
            Some(bytes) => tags_in(bytes),
            None => Seq::empty(),
        }
    }

    /// The state once `chunk` has been taken in.
    pub open spec fn after(self, chunk: Seq<u8>) -> DemuxModel {
        match self.tag_bytes(chunk) {
            Some(bytes) => DemuxModel { pending: rest_of(bytes), header_skipped: true },
            None => DemuxModel { pending: self.pending + chunk, header_skipped: false },
        }
    }

    /// The tags that come out of several chunks.
    pub open spec fn tags_all(self, chunks: Seq<Seq<u8>>) -> Seq<TagModel>
        decreases chunks.len(),
    {
        if chunks.len() == 0 {
            Seq::empty()
        } else {
            self.tags(chunks[0]) + self.after(chunks[0]).tags_all(chunks.drop_first())
        }
    }

    /// The state once several chunks have been taken in.
    pub open spec fn after_all(self, chunks: Seq<Seq<u8>>) -> DemuxModel
        decreases chunks.len(),
    {
        if chunks.len() == 0 {
            self
        } else {
            self.after(chunks[0]).after_all(chunks.drop_first())
        }
    }
}

/// Incremental FLV demuxer for the sink: feed arbitrary `video/x-flv` byte
/// chunks (header + tags, split anywhere) and pull out complete tags.
/// Partial data stays buffered until the rest arrives. Unknown tag types are
/// skipped; audio, video and script tags are returned.
pub struct FlvDemux {
    pending: Vec<u8>,
    header_skipped: bool,
}

impl View for FlvDemux {
    type V = DemuxModel;

    closed spec fn view(&self) -> DemuxModel {
        DemuxModel { pending: self.pending@, header_skipped: self.header_skipped }
    }
}

impl Default for FlvDemux {
    fn default() -> (demux: FlvDemux)
        ensures
            demux@ == DemuxModel::fresh(),
    {
        let demux = FlvDemux { pending: Vec::new(), header_skipped: false };
        assert(demux@ =~= DemuxModel::fresh());
        demux
    }
}

/// The number in three bytes at `at`, most significant first.
fn read_u24(bytes: &[u8], at: usize) -> (value: u32)
    requires
        at + 3 <= bytes@.len(),
    ensures
        value == be24_at(bytes@, at as int),
        value <= FLV_MAX_PAYLOAD,
{
    let high: u32 = bytes[at] as u32;
    let middle: u32 = bytes[at + 1] as u32;
    let low: u32 = bytes[at + 2] as u32;
    assert((high << 16) | (middle << 8) | low == high * 0x1_0000 + middle * 0x100 + low
        && (high << 16) | (middle << 8) | low <= 0xff_ffff) by (bit_vector)
        requires
            high <= 0xff,
            middle <= 0xff,
            low <= 0xff,
    ;
    (high << 16) | (middle << 8) | low
}

impl FlvDemux {
    /// Takes in the next bytes of the stream and returns the tags that are
    /// complete now.
    ///
    /// A stream normally starts with the 13-byte FLV header, but that header
    /// may have been dropped while no player was attached. The 13 bytes are
    /// consumed only when they carry the FLV signature; otherwise tags start
    /// at once. Tag types never collide with the signature's first byte.
    pub fn push(&mut self, chunk: &[u8]) -> (tags: Vec<FlvTag>)
        ensures
            tag_models(tags@) == old(self)@.tags(chunk@),
            final(self)@ == old(self)@.after(chunk@),
    {
        let ghost before = self@;
        let ghost all = before.pending + chunk@;
        self.pending.extend_from_slice(chunk);
        assert(self.pending@ =~= all);
        let mut tags: Vec<FlvTag> = Vec::new();
        let mut start: usize = 0;
        assert(self.pending.len() == all.len());
        if !self.header_skipped {
            if self.pending.len() < 13 {
                assert(tag_models(tags@) =~= Seq::empty());
                return tags;
            }
            if self.pending[0] == 0x46 && self.pending[1] == 0x4C && self.pending[2] == 0x56 {
                start = 13;
            }
            self.header_skipped = true;
        }
        let ghost body = all.skip(start as int);
        assert(before.tag_bytes(chunk@) == Some(body)) by {
            if start == 0 {
                assert(all.skip(0) =~= all);
            }
        }
        assert(tag_models(tags@) + tags_in(body) =~= tags_in(body));
        while has_whole_tag(self.pending.as_slice(), start)
            invariant
                self.pending@ == all,
                all.len() <= usize::MAX,
                self.header_skipped,
                start <= all.len(),
                tag_models(tags@) + tags_in(all.skip(start as int)) == tags_in(body),
                rest_of(all.skip(start as int)) == rest_of(body),
            decreases all.len() - start,
        {
            let ghost here = all.skip(start as int);
            let tag_type: u8 = self.pending[start];
            let data_size: usize = read_u24(self.pending.as_slice(), start + 1) as usize;
            let timestamp_low: u32 = read_u24(self.pending.as_slice(), start + 4);
            let timestamp_high: u32 = self.pending[start + 7] as u32;
            assert(timestamp_low | (timestamp_high << 24) == timestamp_low + timestamp_high
                * 0x100_0000) by (bit_vector)
                requires
                    timestamp_low <= 0xff_ffff,
                    timestamp_high <= 0xff,
            ;
            let timestamp: u32 = timestamp_low | (timestamp_high << 24);
            let from: usize = start + FLV_TAG_HEADER_LEN;
            let payload: Vec<u8> = slice_to_vec(
                slice_subrange(self.pending.as_slice(), from, from + data_size),
            );
            let ghost sofar = tag_models(tags@);
            let tag = FlvTag { tag_type, timestamp, payload };
            assert(tag@ =~= first_tag(here)) by {
                assert(be24_at(here, 4) == timestamp_low);
                assert(here[7] == timestamp_high);
            }
            let total: usize = FLV_TAG_HEADER_LEN + data_size + 4;
            match tag_type {
                FLV_TAG_AUDIO | FLV_TAG_VIDEO | FLV_TAG_SCRIPT_DATA => {
                    tags.push(tag);
                    assert(tag_models(tags@) =~= sofar + kept(first_tag(here)));
                },
                _ => {
                    assert(tag_models(tags@) =~= sofar + kept(first_tag(here)));
                },
            }
            start = start + total;
            assert(here.skip(tag_size(here)) =~= all.skip(start as int));
            assert(sofar + kept(first_tag(here)) + tags_in(all.skip(start as int)) =~= sofar
                + tags_in(here));
        }
        self.pending = self.pending.split_off(start);
        assert(self.pending@ =~= all.skip(start as int));
        assert(tag_models(tags@) =~= tag_models(tags@) + tags_in(all.skip(start as int)));
        tags
    }

    /// Whether the start of the stream has been dealt with.
    pub fn is_header_skipped(&self) -> (skipped: bool)
        ensures
            skipped == self@.header_skipped,
    {
        self.header_skipped
    }

    /// How many bytes wait for the rest of their tag.
    pub fn buffered_len(&self) -> (len: usize)
        ensures
            len == self@.pending.len(),
    {
        self.pending.len()
    }
}

/// Whether a whole tag starts at `start`.
fn has_whole_tag(bytes: &[u8], start: usize) -> (whole: bool)
    requires
        start <= bytes@.len(),
    ensures
        whole == has_tag(bytes@.skip(start as int)),
        whole ==> be24_at(bytes@.skip(start as int), 1) == be24_at(bytes@, start + 1),
        whole ==> be24_at(bytes@.skip(start as int), 4) == be24_at(bytes@, start + 4),
{
    let ghost here = bytes@.skip(start as int);
    if bytes.len() - start < FLV_TAG_HEADER_LEN {
        return false;
    }
    let data_size: usize = read_u24(bytes, start + 1) as usize;
    assert(be24_at(here, 1) == be24_at(bytes@, start + 1));
    bytes.len() - start >= FLV_TAG_HEADER_LEN + data_size + 4
}

/// Chunks of a stream, put back together.
pub open spec fn joined(chunks: Seq<Seq<u8>>) -> Seq<u8>
    decreases chunks.len(),
{
    if chunks.len() == 0 {
        Seq::empty()
    } else {
        chunks[0] + joined(chunks.drop_first())
    }
}

pub(crate) proof fn lemma_joined_concat(first: Seq<Seq<u8>>, second: Seq<Seq<u8>>)
    ensures
        joined(first + second) == joined(first) + joined(second),
    decreases first.len(),
{
    if first.len() == 0 {
        assert(first + second =~= second);
        assert(joined(first) + joined(second) =~= joined(second));
    } else {
        assert((first + second).drop_first() =~= first.drop_first() + second);
        lemma_joined_concat(first.drop_first(), second);
        assert(joined(first + second) =~= joined(first) + joined(second));
    }
}

/// Whether every tag can be framed and is of a type that the demuxer keeps.
pub open spec fn all_media(tags: Seq<TagModel>) -> bool {
    forall|i: int|
        0 <= i < tags.len() ==> is_media_type((#[trigger] tags[i]).tag_type)
            && tags[i].payload.len() <= FLV_MAX_PAYLOAD
}

/// Demuxing reads a framed tag back: the bytes that `frame_flv_tag` writes
/// start with a whole tag, which is the one that was framed, whatever follows.
pub proof fn law_framed_tag_reads_back(tag: TagModel, rest: Seq<u8>)
    requires
        tag.payload.len() <= FLV_MAX_PAYLOAD,
    ensures
        has_tag(framed(tag) + rest),
        first_tag(framed(tag) + rest) == tag,
        (framed(tag) + rest).skip(tag_size(framed(tag) + rest)) == rest,
        tags_in(framed(tag) + rest) == kept(tag) + tags_in(rest),
        rest_of(framed(tag) + rest) == rest_of(rest),
{
    let bytes = framed(tag) + rest;
    let size = tag.payload.len() as int;
    let stamp = tag.timestamp as int;
    assert(size / 0x1_0000 % 0x100 * 0x1_0000 + size / 0x100 % 0x100 * 0x100 + size % 0x100
        == size) by (nonlinear_arith)
        requires
            0 <= size <= 0xff_ffff,
    ;
    assert(be24_at(bytes, 1) == size);
    assert(stamp / 0x1_0000 % 0x100 * 0x1_0000 + stamp / 0x100 % 0x100 * 0x100 + stamp % 0x100
        + stamp / 0x100_0000 * 0x100_0000 == stamp) by (nonlinear_arith)
        requires
            0 <= stamp <= 0xffff_ffff,
    ;
    assert(0 <= stamp / 0x100_0000 < 0x100);
    assert(be24_at(bytes, 4) + bytes[7] * 0x100_0000 == stamp);
    assert(framed(tag).len() == 11 + size + 4);
    assert(first_tag(bytes) =~= tag);
    assert(bytes.skip(tag_size(bytes)) =~= rest);
}

/// A tag of any other type is skipped: the demuxer returns what it would have
/// returned without it.
pub proof fn law_unknown_tag_types_are_skipped(tag: TagModel, rest: Seq<u8>)
    requires
        tag.payload.len() <= FLV_MAX_PAYLOAD,
        !is_media_type(tag.tag_type),
    ensures
        tags_in(framed(tag) + rest) == tags_in(rest),
        rest_of(framed(tag) + rest) == rest_of(rest),
{
    law_framed_tag_reads_back(tag, rest);
    assert(kept(tag) + tags_in(rest) =~= tags_in(rest));
}

/// Only audio, video and script tags come out of the demuxer, and each of them
/// can be framed again.
pub proof fn law_only_media_tags_come_out(bytes: Seq<u8>)
    ensures
        all_media(tags_in(bytes)),
    decreases bytes.len(),
{
    if has_tag(bytes) {
        let later = bytes.skip(tag_size(bytes));
        law_only_media_tags_come_out(later);
        let first = kept(first_tag(bytes));
        assert forall|i: int| 0 <= i < tags_in(bytes).len() implies is_media_type(
            (#[trigger] tags_in(bytes)[i]).tag_type,
        ) && tags_in(bytes)[i].payload.len() <= FLV_MAX_PAYLOAD by {
            if i >= first.len() {
                assert(tags_in(bytes)[i] == tags_in(later)[i - first.len()]);
            }
        }
    }
}

pub(crate) proof fn lemma_all_tags_are_media(state: DemuxModel, chunks: Seq<Seq<u8>>)
    ensures
        all_media(state.tags_all(chunks)),
    decreases chunks.len(),
{
    if chunks.len() > 0 {
        let now = state.tags(chunks[0]);
        let later = state.after(chunks[0]).tags_all(chunks.drop_first());
        if let Some(bytes) = state.tag_bytes(chunks[0]) {
            law_only_media_tags_come_out(bytes);
        }
        lemma_all_tags_are_media(state.after(chunks[0]), chunks.drop_first());
        let all = state.tags_all(chunks);
        assert forall|i: int| 0 <= i < all.len() implies is_media_type(
            (#[trigger] all[i]).tag_type,
        ) && all[i].payload.len() <= FLV_MAX_PAYLOAD by {
            if i < now.len() {
                assert(all[i] == now[i]);
            } else {
                assert(all[i] == later[i - now.len()]);
            }
        }
    }
}

proof fn lemma_framed_all_reads_back(tags: Seq<TagModel>)
    requires
        all_media(tags),
    ensures
        tags_in(framed_all(tags)) == tags,
        rest_of(framed_all(tags)) == Seq::<u8>::empty(),
    decreases tags.len(),
{
    if tags.len() == 0 {
        assert(tags_in(framed_all(tags)) =~= tags);
    } else {
        let others = tags.drop_first();
        assert forall|i: int| 0 <= i < others.len() implies is_media_type(
            (#[trigger] others[i]).tag_type,
        ) && others[i].payload.len() <= FLV_MAX_PAYLOAD by {
            assert(others[i] == tags[i + 1]);
        }
        lemma_framed_all_reads_back(others);
        law_framed_tag_reads_back(tags[0], framed_all(others));
        assert(seq![tags[0]] + others =~= tags);
    }
}

proof fn lemma_tags_of_split(bytes: Seq<u8>, more: Seq<u8>)
    ensures
        tags_in(bytes + more) == tags_in(bytes) + tags_in(rest_of(bytes) + more),
        rest_of(bytes + more) == rest_of(rest_of(bytes) + more),
    decreases bytes.len(),
{
    if has_tag(bytes) {
        let both = bytes + more;
        let size = tag_size(bytes);
        assert(tag_size(both) == size);
        assert(has_tag(both));
        assert(first_tag(both) =~= first_tag(bytes));
        assert(both.skip(size) =~= bytes.skip(size) + more);
        lemma_tags_of_split(bytes.skip(size), more);
        assert(tags_in(both) =~= tags_in(bytes) + tags_in(rest_of(bytes) + more));
    } else {
        assert(tags_in(bytes) + tags_in(rest_of(bytes) + more) =~= tags_in(bytes + more));
    }
}

/// Two chunks give what their concatenation gives: the same tags in the same
/// order and the same state afterwards.
pub proof fn law_chunks_may_be_split_anywhere(
    state: DemuxModel,
    first: Seq<u8>,
    second: Seq<u8>,
)
    ensures
        state.tags(first) + state.after(first).tags(second) == state.tags(first + second),
        state.after(first).after(second) == state.after(first + second),
{
    let bytes = state.pending + first;
    assert(state.pending + (first + second) =~= bytes + second);
    match state.tag_bytes(first) {
        None => {
            assert(state.tags(first) + state.after(first).tags(second) =~= state.after(first).tags(
                second,
            ));
        },
        Some(body) => {
            if body != bytes {
                assert((bytes + second).skip(13) =~= bytes.skip(13) + second);
            }
            assert(state.tag_bytes(first + second) == Some(body + second));
            lemma_tags_of_split(body, second);
        },
    }
}

/// However a stream is cut into chunks, the demuxer returns the same tags and
/// ends in the same state as if it had come in one piece.
pub proof fn law_any_chunking_gives_the_same_tags(
    state: DemuxModel,
    first: Seq<u8>,
    chunks: Seq<Seq<u8>>,
)
    ensures
        state.tags(first) + state.after(first).tags_all(chunks) == state.tags(
            first + joined(chunks),
        ),
        state.after(first).after_all(chunks) == state.after(first + joined(chunks)),
    decreases chunks.len(),
{
    let later = state.after(first);
    if chunks.len() == 0 {
        assert(first + joined(chunks) =~= first);
        assert(state.tags(first) + later.tags_all(chunks) =~= state.tags(first));
    } else {
        law_chunks_may_be_split_anywhere(state, first, chunks[0]);
        law_any_chunking_gives_the_same_tags(state, first + chunks[0], chunks.drop_first());
        assert(first + chunks[0] + joined(chunks.drop_first()) =~= first + joined(chunks));
        assert(state.tags(first) + later.tags_all(chunks) =~= state.tags(first) + later.tags(
            chunks[0],
        ) + later.after(chunks[0]).tags_all(chunks.drop_first()));
    }
}

pub(crate) proof fn lemma_one_more_chunk(
    state: DemuxModel,
    chunks: Seq<Seq<u8>>,
    chunk: Seq<u8>,
)
    ensures
        state.tags_all(chunks.push(chunk)) == state.tags_all(chunks) + state.after_all(chunks).tags(
            chunk,
        ),
        state.after_all(chunks.push(chunk)) == state.after_all(chunks).after(chunk),
    decreases chunks.len(),
{
    let longer = chunks.push(chunk);
    reveal_with_fuel(DemuxModel::tags_all, 2);
    reveal_with_fuel(DemuxModel::after_all, 2);
    if chunks.len() == 0 {
        assert(longer.drop_first() =~= chunks);
        assert(state.tags_all(longer) =~= state.tags(chunk));
        assert(state.tags_all(chunks) + state.tags(chunk) =~= state.tags(chunk));
    } else {
        let next = state.after(chunks[0]);
        assert(longer.drop_first() =~= chunks.drop_first().push(chunk));
        lemma_one_more_chunk(next, chunks.drop_first(), chunk);
        assert(state.tags_all(longer) =~= state.tags_all(chunks) + state.after_all(chunks).tags(
            chunk,
        ));
    }
}

/// A whole FLV stream, header first, reaches the other end of a fresh demuxer
/// tag for tag, however it is cut up, and leaves nothing buffered.
pub proof fn law_flv_stream_demuxes_to_its_tags(tags: Seq<TagModel>, chunks: Seq<Seq<u8>>)
    requires
        all_media(tags),
        joined(chunks) == FLV_HEADER@ + framed_all(tags),
    ensures
        DemuxModel::fresh().tags_all(chunks) == tags,
        DemuxModel::fresh().after_all(chunks) == (DemuxModel {
            pending: Seq::empty(),
            header_skipped: true,
        }),
{
    let fresh = DemuxModel::fresh();
    let stream = joined(chunks);
    law_any_chunking_gives_the_same_tags(fresh, Seq::empty(), chunks);
    assert(fresh.pending + Seq::<u8>::empty() =~= fresh.pending);
    assert(fresh.after(Seq::empty()) =~= fresh);
    assert(fresh.tags(Seq::empty()) + fresh.tags_all(chunks) =~= fresh.tags_all(chunks));
    assert(Seq::<u8>::empty() + stream =~= stream);
    assert(fresh.pending + stream =~= stream);
    assert(stream.skip(13) =~= framed_all(tags));
    lemma_framed_all_reads_back(tags);
}

/// The header is optional: a stream that starts with its first tag demuxes to
/// the same tags.
pub proof fn law_flv_header_is_optional(tags: Seq<TagModel>, chunks: Seq<Seq<u8>>)
    requires
        all_media(tags),
        joined(chunks) == framed_all(tags),
    ensures
        DemuxModel::fresh().tags_all(chunks) == tags,
        DemuxModel::fresh().after_all(chunks).pending == Seq::<u8>::empty(),
{
    let fresh = DemuxModel::fresh();
    let stream = joined(chunks);
    law_any_chunking_gives_the_same_tags(fresh, Seq::empty(), chunks);
    assert(fresh.pending + Seq::<u8>::empty() =~= fresh.pending);
    assert(fresh.after(Seq::empty()) =~= fresh);
    assert(fresh.tags(Seq::empty()) + fresh.tags_all(chunks) =~= fresh.tags_all(chunks));
    assert(Seq::<u8>::empty() + stream =~= stream);
    assert(fresh.pending + stream =~= stream);
    lemma_framed_all_reads_back(tags);
    if tags.len() == 0 {
        assert(fresh.tags(stream) =~= tags);
    } else {
        assert(is_media_type(tags[0].tag_type));
        assert(framed(tags[0])[0] == tags[0].tag_type);
    }
}

/// A framed tag is laid out as FLV has it: one byte for the type, three for the
/// size of the payload, three for the low part of the timestamp and one for its
/// high part, three zeros, the payload, and four bytes that count all before
/// them. The size field is what limits a payload.
pub proof fn law_tag_layout(tag: TagModel)
    requires
        tag.payload.len() < 0x100_0000,
    ensures
        FLV_MAX_PAYLOAD + 1 == 0x100_0000,
        ({
            let bytes = framed(tag);
            let size = tag.payload.len() as int;
            &&& bytes.len() == 15 + size
            &&& bytes[0] == tag.tag_type
            &&& bytes[1] * 0x1_0000 + bytes[2] * 0x100 + bytes[3] == size
            &&& bytes[7] * 0x100_0000 + bytes[4] * 0x1_0000 + bytes[5] * 0x100 + bytes[6]
                == tag.timestamp
            &&& bytes[8] == 0 && bytes[9] == 0 && bytes[10] == 0
            &&& bytes.subrange(11, 11 + size) == tag.payload
            &&& bytes[11 + size] * 0x100_0000 + bytes[12 + size] * 0x1_0000 + bytes[13 + size]
                * 0x100 + bytes[14 + size] == 11 + size
        }),
{
    let bytes = framed(tag);
    let size = tag.payload.len() as int;
    let whole = 11 + size;
    law_framed_tag_reads_back(tag, Seq::empty());
    assert(framed(tag) + Seq::<u8>::empty() =~= bytes);
    assert(be24_at(bytes, 1) == size);
    assert(whole / 0x1_0000 % 0x100 * 0x1_0000 + whole / 0x100 % 0x100 * 0x100 + whole % 0x100
        + whole / 0x100_0000 % 0x100 * 0x100_0000 == whole) by (nonlinear_arith)
        requires
            0 <= whole <= 0x100_000a,
    ;
    assert(bytes.subrange(11, 11 + size) =~= tag.payload);
    let stamp = tag.timestamp as int;
    assert(stamp / 0x1_0000 % 0x100 * 0x1_0000 + stamp / 0x100 % 0x100 * 0x100 + stamp % 0x100
        + stamp / 0x100_0000 * 0x100_0000 == stamp) by (nonlinear_arith)
        requires
            0 <= stamp <= 0xffff_ffff,
    ;
}

/// A demuxer that is past the start of the stream and has nothing buffered.
pub open spec fn under_way() -> DemuxModel {
    DemuxModel { pending: Seq::empty(), header_skipped: true }
}

/// Every whole tag is read, whatever its stream id and its last four bytes say:
/// audio (8), video (9) and script data (18) come out with the timestamp and
/// payload that their bytes carry, any other type does not, and nothing stays
/// behind.
pub proof fn law_any_whole_tag_is_read(
    kind: u8,
    size: (u8, u8, u8),
    stamp: (u8, u8, u8, u8),
    stream: (u8, u8, u8),
    payload: Seq<u8>,
    trailer: Seq<u8>,
)
    requires
        payload.len() == size.0 * 0x1_0000 + size.1 * 0x100 + size.2,
        trailer.len() == 4,
    ensures
        ({
            let bytes = seq![
                kind,
                size.0,
                size.1,
                size.2,
                stamp.1,
                stamp.2,
                stamp.3,
                stamp.0,
                stream.0,
                stream.1,
                stream.2,
            ] + payload + trailer;
            let tags = under_way().tags(bytes);
            &&& kind == 8 || kind == 9 || kind == 18 ==> tags.len() == 1 && tags[0].tag_type
                == kind && tags[0].payload == payload && tags[0].timestamp == stamp.0 * 0x100_0000
                + stamp.1 * 0x1_0000 + stamp.2 * 0x100 + stamp.3
            &&& kind != 8 && kind != 9 && kind != 18 ==> tags.len() == 0
            &&& under_way().after(bytes) == under_way()
        }),
{
    let front = seq![
        kind,
        size.0,
        size.1,
        size.2,
        stamp.1,
        stamp.2,
        stamp.3,
        stamp.0,
        stream.0,
        stream.1,
        stream.2,
    ];
    let bytes = front + payload + trailer;
    let state = under_way();
    assert(state.pending + bytes =~= bytes);
    assert(be24_at(bytes, 1) == payload.len());
    assert(has_tag(bytes));
    let rest = bytes.skip(tag_size(bytes));
    assert(rest =~= Seq::<u8>::empty());
    let tag = first_tag(bytes);
    assert(tag.payload =~= payload);
    assert(tags_in(rest) =~= Seq::<TagModel>::empty());
    assert(rest_of(rest) =~= Seq::<u8>::empty());
    assert(tags_in(bytes) =~= kept(tag));
    assert(tag.timestamp == stamp.0 * 0x100_0000 + stamp.1 * 0x1_0000 + stamp.2 * 0x100 + stamp.3);
}

/// A tag that has not come whole gives nothing yet, and every byte of it stays
/// buffered.
pub proof fn law_incomplete_tag_waits(bytes: Seq<u8>)
    requires
        bytes.len() < 11 || bytes.len() < 15 + bytes[1] * 0x1_0000 + bytes[2] * 0x100 + bytes[3],
    ensures
        under_way().tags(bytes).len() == 0,
        under_way().after(bytes).pending == bytes,
        under_way().after(bytes).header_skipped,
{
    assert(under_way().pending + bytes =~= bytes);
}

/// The first thirteen bytes are consumed exactly if they start with `FLV`,
/// whatever follows these three; before there are thirteen, nothing comes out.
pub proof fn law_only_the_signature_makes_a_header(bytes: Seq<u8>)
    ensures
        bytes.len() < 13 ==> DemuxModel::fresh().tags(bytes).len() == 0
            && DemuxModel::fresh().after(bytes).pending == bytes && !DemuxModel::fresh().after(
            bytes,
        ).header_skipped,
        bytes.len() >= 13 && (bytes[0] == 'F' as u8 && bytes[1] == 'L' as u8 && bytes[2]
            == 'V' as u8) ==> DemuxModel::fresh().tags(bytes) == under_way().tags(bytes.skip(13))
            && DemuxModel::fresh().after(bytes) == under_way().after(bytes.skip(13)),
        bytes.len() >= 13 && !(bytes[0] == 'F' as u8 && bytes[1] == 'L' as u8 && bytes[2]
            == 'V' as u8) ==> DemuxModel::fresh().tags(bytes) == under_way().tags(bytes)
            && DemuxModel::fresh().after(bytes) == under_way().after(bytes),
{
    assert(DemuxModel::fresh().pending + bytes =~= bytes);
    assert(under_way().pending + bytes =~= bytes);
    assert(under_way().pending + bytes.skip(13) =~= bytes.skip(13));
}

/// Every FLV header will do: a stream of media tags behind any thirteen bytes
/// that start with `FLV`, whatever version and flags they carry, demuxes to
/// exactly its tags, however it is cut up, and leaves nothing buffered.
pub proof fn law_any_flv_header_is_consumed(
    header: Seq<u8>,
    tags: Seq<TagModel>,
    chunks: Seq<Seq<u8>>,
)
    requires
        header.len() == 13,
        header[0] == 'F' as u8,
        header[1] == 'L' as u8,
        header[2] == 'V' as u8,
        forall|i: int|
            0 <= i < tags.len() ==> ((#[trigger] tags[i]).tag_type == 8 || tags[i].tag_type == 9
                || tags[i].tag_type == 18) && tags[i].payload.len() < 0x100_0000,
        joined(chunks) == header + framed_all(tags),
    ensures
        DemuxModel::fresh().tags_all(chunks) == tags,
        DemuxModel::fresh().after_all(chunks).pending.len() == 0,
        DemuxModel::fresh().after_all(chunks).header_skipped,
{
    let fresh = DemuxModel::fresh();
    let stream = joined(chunks);
    law_any_chunking_gives_the_same_tags(fresh, Seq::empty(), chunks);
    assert(fresh.pending + Seq::<u8>::empty() =~= fresh.pending);
    assert(fresh.after(Seq::empty()) =~= fresh);
    assert(fresh.tags(Seq::empty()) + fresh.tags_all(chunks) =~= fresh.tags_all(chunks));
    assert(Seq::<u8>::empty() + stream =~= stream);
    assert(fresh.pending + stream =~= stream);
    assert(stream.skip(13) =~= framed_all(tags));
    assert(all_media(tags));
    lemma_framed_all_reads_back(tags);
}

/// A tag says what it holds, and so does a list of tags, in order.
pub proof fn law_tags_show_their_fields(tag: FlvTag, tags: Seq<FlvTag>)
    ensures
        tag@.tag_type == tag.tag_type,
        tag@.timestamp == tag.timestamp,
        tag@.payload == tag.payload@,
        tag_models(tags).len() == tags.len(),
        forall|i: int| 0 <= i < tags.len() ==> #[trigger] tag_models(tags)[i] == tags[i]@,
{
}

} // verus!
