use gstrtmpx::flv::frame_flv_tag;
use gstrtmpx::flv::push_u24_be;
use gstrtmpx::flv::FlvDemux;
use gstrtmpx::flv::FlvTag;
use gstrtmpx::flv::FrameError;
use gstrtmpx::flv::FLV_HEADER;
use gstrtmpx::flv::FLV_TAG_AUDIO;
use gstrtmpx::flv::FLV_TAG_SCRIPT_DATA;
use gstrtmpx::flv::FLV_TAG_VIDEO;
use gstrtmpx::headers::is_audio_sequence_header;
use gstrtmpx::headers::is_video_sequence_header;
use gstrtmpx::headers::HeaderCache;

#[test]
fn script_data_tag_preserves_payload_verbatim() {
    let payload: &[u8] = &[0x02, 0x00, 0x09, 0x6f, 0x6e, 0x43];
    let tag = frame_flv_tag(FLV_TAG_SCRIPT_DATA, 42, payload).unwrap();
    assert_eq!(tag[0], 18);
    assert_eq!(&tag[11..11 + payload.len()], payload);
}

#[test]
fn flv_demux_buffers_partial_header_and_tag() {
    let mut demux = FlvDemux::default();
    assert!(demux.push(&FLV_HEADER[..5]).is_empty());
    assert!(!demux.is_header_skipped());
    assert!(demux.push(&FLV_HEADER[5..]).is_empty());
    assert!(demux.is_header_skipped());
    let payload = vec![0x17, 0x01, 0x02, 0x03];
    let tag = frame_flv_tag(FLV_TAG_VIDEO, 100, &payload).unwrap();
    // Split the tag mid-payload: nothing complete yet.
    let cut = 11 + 2;
    assert!(demux.push(&tag[..cut]).is_empty());
    let tags = demux.push(&tag[cut..]);
    assert_eq!(tags.len(), 1);
    assert_eq!(tags[0].tag_type, FLV_TAG_VIDEO);
    assert_eq!(tags[0].timestamp, 100);
    assert_eq!(tags[0].payload, payload);
}

#[test]
fn flv_demux_skips_unknown_tag_types() {
    let mut demux = FlvDemux::default();
    let _ = demux.push(FLV_HEADER);
    let audio = frame_flv_tag(FLV_TAG_AUDIO, 0, &[0x01]).unwrap();
    let mut unknown = frame_flv_tag(FLV_TAG_VIDEO, 0, &[0x02]).unwrap();
    unknown[0] = 0x0f;
    let mut combined = Vec::new();
    combined.extend_from_slice(&unknown);
    combined.extend_from_slice(&audio);
    let tags = demux.push(&combined);
    assert_eq!(tags.len(), 1);
    assert_eq!(tags[0].tag_type, FLV_TAG_AUDIO);
}

#[test]
fn flv_demux_parses_tags_without_header() {
    let mut demux = FlvDemux::default();
    let video = frame_flv_tag(FLV_TAG_VIDEO, 9000, &[0x17, 0x00, 0x99]).unwrap();
    let audio = frame_flv_tag(FLV_TAG_AUDIO, 9000, &[0xAF, 0x00, 0x88]).unwrap();
    let mut combined = Vec::new();
    combined.extend_from_slice(&video);
    combined.extend_from_slice(&audio);
    let tags = demux.push(&combined);
    assert!(demux.is_header_skipped());
    assert_eq!(tags.len(), 2);
    assert_eq!(tags[0].tag_type, FLV_TAG_VIDEO);
    assert_eq!(tags[0].timestamp, 9000);
    assert_eq!(tags[0].payload, vec![0x17, 0x00, 0x99]);
    assert_eq!(tags[1].tag_type, FLV_TAG_AUDIO);
}

#[test]
fn detects_classic_and_enhanced_sequence_headers() {
    // Classic AVC sequence header and coded frame.
    assert!(is_video_sequence_header(&[0x17, 0x00, 0x01]));
    assert!(!is_video_sequence_header(&[0x17, 0x01, 0x01]));
    // Enhanced video: packet type 0 is sequence start (needs the FourCC).
    assert!(is_video_sequence_header(&[0x90, b'h', b'v', b'c', b'1']));
    assert!(!is_video_sequence_header(&[0x91, b'h', b'v', b'c', b'1']));
    assert!(!is_video_sequence_header(&[0x94, b'h', b'v', b'c', b'1']));
    // Classic AAC sequence header and raw frame.
    assert!(is_audio_sequence_header(&[0xAF, 0x00, 0x12]));
    assert!(!is_audio_sequence_header(&[0xAF, 0x01, 0x21]));
    // Enhanced audio: 0x90 is sequence start, 0x91/0x94 are frames.
    assert!(is_audio_sequence_header(&[0x90, b'o', b'p', b'u', b's']));
    assert!(!is_audio_sequence_header(&[0x91, 0x02]));
    assert!(!is_audio_sequence_header(&[0x94, 0x02]));
    // Truncated payloads are never headers.
    assert!(!is_video_sequence_header(&[0x17]));
    assert!(!is_audio_sequence_header(&[0xAF]));
    assert!(!is_video_sequence_header(&[]));
}

#[test]
fn header_cache_keeps_latest_sequence_headers_only() {
    let mut cache = HeaderCache::default();
    cache.observe(&FlvTag {
        tag_type: FLV_TAG_VIDEO,
        timestamp: 0,
        payload: vec![0x17, 0x00],
    });
    // Coded frames must not evict the cached header.
    cache.observe(&FlvTag {
        tag_type: FLV_TAG_VIDEO,
        timestamp: 40,
        payload: vec![0x17, 0x01],
    });
    cache.observe(&FlvTag {
        tag_type: FLV_TAG_AUDIO,
        timestamp: 20,
        payload: vec![0xAF, 0x00],
    });
    // Script tags are never cached.
    cache.observe(&FlvTag {
        tag_type: FLV_TAG_SCRIPT_DATA,
        timestamp: 0,
        payload: vec![0x02, 0x00],
    });
    let ordered = cache.ordered();
    assert_eq!(ordered.len(), 2);
    assert_eq!(ordered[0].tag_type, FLV_TAG_VIDEO);
    assert_eq!(ordered[0].timestamp, 0);
    assert_eq!(ordered[1].tag_type, FLV_TAG_AUDIO);
    // A newer sequence header replaces the old one.
    cache.observe(&FlvTag {
        tag_type: FLV_TAG_VIDEO,
        timestamp: 8000,
        payload: vec![0x17, 0x00],
    });
    assert_eq!(cache.ordered()[0].timestamp, 8000);
}

#[test]
fn numbers_are_written_big_endian_in_24_bits() {
    let mut output = vec![0xEE];
    push_u24_be(&mut output, 0x0012_3456);
    push_u24_be(&mut output, 0xFF00_0001);
    assert_eq!(output, vec![0xEE, 0x12, 0x34, 0x56, 0x00, 0x00, 0x01]);
}

#[test]
fn tag_layout_is_exact() {
    let tag = frame_flv_tag(FLV_TAG_AUDIO, 0xAB12_3456, &[0x01, 0x02]).unwrap();
    assert_eq!(
        tag,
        vec![
            0x08, 0x00, 0x00, 0x02, 0x12, 0x34, 0x56, 0xAB, 0x00, 0x00, 0x00, 0x01, 0x02, 0x00,
            0x00, 0x00, 0x0D
        ]
    );
    assert_eq!(frame_flv_tag(FLV_TAG_VIDEO, 0, &[]).unwrap().len(), 15);
}

#[test]
fn payload_beyond_24_bits_is_refused() {
    let largest = vec![0u8; 0x00ff_ffff];
    assert_eq!(frame_flv_tag(FLV_TAG_VIDEO, 0, &largest).unwrap().len(), 0x00ff_ffff + 15);
    let beyond = vec![0u8; 0x0100_0000];
    let error = frame_flv_tag(FLV_TAG_VIDEO, 0, &beyond).unwrap_err();
    assert_eq!(error, FrameError::PayloadTooLarge);
    assert_eq!(error.kind(), std::io::ErrorKind::InvalidData);
    assert_eq!(
        error.message(),
        "RTMP media message exceeds the FLV 24-bit tag-size limit"
    );
}

fn stream(with_header: bool) -> (Vec<u8>, Vec<FlvTag>) {
    let mut bytes = Vec::new();
    let mut tags = Vec::new();
    if with_header {
        bytes.extend_from_slice(FLV_HEADER);
    }
    for i in 0..12u32 {
        let tag_type = [FLV_TAG_SCRIPT_DATA, FLV_TAG_VIDEO, FLV_TAG_AUDIO][(i % 3) as usize];
        let payload = vec![i as u8; i as usize * 3];
        let timestamp = i * 0x0123_4567;
        bytes.extend_from_slice(&frame_flv_tag(tag_type, timestamp, &payload).unwrap());
        tags.push(FlvTag { tag_type, timestamp, payload });
    }
    (bytes, tags)
}

#[test]
fn any_chunking_gives_the_same_tags() {
    for with_header in [true, false] {
        let (bytes, tags) = stream(with_header);
        for size in [1usize, 2, 7, 13, 14, 100, 1000] {
            let mut demux = FlvDemux::default();
            let mut out = Vec::new();
            for chunk in bytes.chunks(size) {
                out.extend(demux.push(chunk));
            }
            assert_eq!(out, tags);
            assert_eq!(demux.buffered_len(), 0);
            assert!(demux.is_header_skipped());
        }
    }
}

#[test]
fn what_is_incomplete_stays_buffered() {
    let (bytes, tags) = stream(true);
    let mut demux = FlvDemux::default();
    let out = demux.push(&bytes[..bytes.len() - 1]);
    assert_eq!(out.len(), tags.len() - 1);
    assert_eq!(demux.buffered_len(), 15 + 33 - 1);
    assert_eq!(demux.push(&bytes[bytes.len() - 1..]), tags[tags.len() - 1..]);
    assert_eq!(demux.push(&[]), vec![]);
}

#[test]
fn short_stream_waits_for_thirteen_bytes() {
    let mut demux = FlvDemux::default();
    assert!(demux.push(&[0x08, 0, 0, 0]).is_empty());
    assert_eq!(demux.buffered_len(), 4);
    assert!(!demux.is_header_skipped());
    assert!(demux.push(&[0u8; 8]).is_empty());
    assert!(!demux.is_header_skipped());
    assert!(demux.push(&[0u8]).is_empty());
    assert!(demux.is_header_skipped());
    assert_eq!(demux.push(&[0u8; 2]).len(), 1);
}

#[test]
fn enhanced_video_header_needs_its_fourcc() {
    assert!(!is_video_sequence_header(&[0x90, b'h', b'v', b'c']));
    assert!(is_audio_sequence_header(&[0x90, 0x00]));
    assert!(!is_audio_sequence_header(&[0x9F, 0x00]));
    assert!(!is_audio_sequence_header(&[0x2F, 0x00]));
}

#[test]
fn cache_replays_only_what_it_has() {
    let mut cache = HeaderCache::default();
    assert!(cache.ordered().is_empty());
    let audio = FlvTag { tag_type: FLV_TAG_AUDIO, timestamp: 7, payload: vec![0xAF, 0x00, 0x12] };
    let video = FlvTag { tag_type: FLV_TAG_VIDEO, timestamp: 9, payload: vec![0x17, 0x00, 0x34] };
    cache.observe_all(&vec![audio.clone()]);
    assert_eq!(cache.ordered(), vec![audio.clone()]);
    cache.observe_all(&vec![video.clone()]);
    assert_eq!(cache.ordered(), vec![video, audio]);
}
