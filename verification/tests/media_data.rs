//! What is read out of a medium: packets, frames, fonts, subtitles, probes.
use erika::color::{
    color_range, matrix_coefficients, ColorRange, MatrixCoefficients, MATRIX_BT2020_NCL,
    MATRIX_BT470BG, MATRIX_BT709, MATRIX_RGB, MATRIX_SMPTE170M, MATRIX_UNSPECIFIED, RANGE_JPEG,
    RANGE_MPEG, RANGE_UNSPECIFIED,
};
use erika::decoder::CodecId;
use erika::demuxer::{
    after_backward_seek, after_full_range_seek, check_uri, probe_path, ByteCursor,
    ContainerDescription, Demuxer, ReadStep, SeekOrigin, SeekStep, SourceErrors,
};
use erika::error::{av_error, check, FfmpegError, AVERROR_EOF};
use erika::events::{VideoDecoderEvent, VideoFrameImportFailure};
use erika::fonts::{
    is_font_attachment_candidate, subtitle_font_attachment, AttachmentStream,
    MAX_SUBTITLE_FONT_ATTACHMENTS, MAX_SUBTITLE_FONT_ATTACHMENT_BYTES,
    MAX_SUBTITLE_FONT_TOTAL_BYTES,
};
use erika::frame::{
    Frame, PixelFormat, PlanarFrame, PlanarFrameConversionError, PlanarPixelFormat, Plane,
};
use erika::media::{TrackInfo, TrackKind};
use erika::packet::{
    absolute_seek_target_micros, Packet, PacketFlags, PacketTimestamp, StreamSelection, TimeBase,
};
use erika::pcm::{
    keep_audio_frame_after_seek_floor, pop_matching_audio_frame, select_resampler_output_pts,
    trim_audio_frame_to_seek_floor, AudioFilterStep, AudioSeekFloorAction, PcmAudioFrame,
    PcmFormat,
};
use erika::probe::{subtitle_probe, CodecDescription, StreamContent, StreamDescription};
use erika::subtitle::{
    copy_ass_codec_private, import_subtitle, AssTrackResources, DecodedSubtitle, PaletteBitmap,
    SubtitleRect, SubtitleTextFormat, MAX_ASS_CODEC_PRIVATE_BYTES,
};
use erika::time::Duration;
use std::collections::VecDeque;
use std::sync::Arc;

#[test]
fn time_base_converts_packet_timestamps() {
    let timestamp = PacketTimestamp {
        raw: 24,
        time_base: TimeBase { num: 1, den: 24 },
    };
    let seconds = timestamp.raw as f64 * f64::from(timestamp.time_base.num)
        / f64::from(timestamp.time_base.den);
    assert_eq!(seconds, 1.0);
    let magnitude = Duration::from_nanos((seconds * 1e9) as u64);
    assert_eq!(
        timestamp.as_duration(magnitude),
        Some(Duration::from_secs(1))
    );
    assert_eq!(timestamp.as_nanos(), Some(1_000_000_000));
    let before = PacketTimestamp {
        raw: -24,
        ..timestamp
    };
    assert_eq!(before.as_duration(magnitude), None);
}

#[test]
fn resampler_pts_keeps_continuous_output_and_reanchors_real_discontinuities() {
    let expected = Duration::from_secs(1);
    assert_eq!(
        select_resampler_output_pts(None, Some(expected)),
        (Some(expected), false)
    );
    assert_eq!(
        select_resampler_output_pts(
            Some(expected),
            Some(expected.saturating_add(Duration::from_millis(8))),
        ),
        (Some(expected), false)
    );
    assert_eq!(
        select_resampler_output_pts(
            Some(expected),
            Some(expected.saturating_add(Duration::from_secs(2))),
        ),
        (Some(expected.saturating_add(Duration::from_secs(2))), true)
    );
    assert_eq!(
        select_resampler_output_pts(Some(expected), None),
        (Some(expected), false)
    );
}

#[test]
fn relative_seek_targets_include_the_container_timeline_origin() {
    assert_eq!(
        absolute_seek_target_micros(15_000_000, 600_000_000),
        615_000_000
    );
    assert_eq!(absolute_seek_target_micros(15_000_000, 0), 15_000_000);
}

#[test]
fn stream_selection_accepts_expected_streams() {
    let selection = StreamSelection::only(vec![0, 2]);
    assert!(selection.accepts(0));
    assert!(!selection.accepts(1));
    assert!(selection.accepts(2));
}

#[test]
fn every_stream_is_accepted_without_a_choice() {
    let selection = StreamSelection::all();
    assert!(selection.accepts(0));
    assert!(selection.accepts(-7));
    assert_eq!(selection.named_streams(), None);
    assert_eq!(
        StreamSelection::only(vec![2, 0, 2]).named_streams(),
        Some(vec![0, 2])
    );
}

#[test]
fn maps_ffmpeg_color_ranges() {
    assert_eq!(color_range(RANGE_MPEG), ColorRange::Limited);
    assert_eq!(color_range(RANGE_JPEG), ColorRange::Full);
    assert_eq!(color_range(RANGE_UNSPECIFIED), ColorRange::Unspecified);
}

#[test]
fn maps_ffmpeg_matrix_coefficients() {
    assert_eq!(matrix_coefficients(MATRIX_BT709), MatrixCoefficients::Bt709);
    assert_eq!(
        matrix_coefficients(MATRIX_SMPTE170M),
        MatrixCoefficients::Bt601
    );
    assert_eq!(
        matrix_coefficients(MATRIX_BT470BG),
        MatrixCoefficients::Bt601
    );
    assert_eq!(
        matrix_coefficients(MATRIX_BT2020_NCL),
        MatrixCoefficients::Bt2020NonConstantLuminance
    );
    assert_eq!(
        matrix_coefficients(MATRIX_RGB),
        MatrixCoefficients::Identity
    );
    assert_eq!(
        matrix_coefficients(MATRIX_UNSPECIFIED),
        MatrixCoefficients::Unspecified
    );
}

#[test]
fn subtitle_probe_marks_embedded_tracks_non_removable() {
    let mut track = TrackInfo::embedded(3, TrackKind::Subtitle);
    track.title = Some("Signs".to_string());
    track.language = Some("jpn".to_string());
    track.codec = Some("hdmv_pgs_subtitle".to_string());

    let config = subtitle_probe(&track);

    assert_eq!(config.id, 3);
    assert_eq!(config.language.as_deref(), Some("jpn"));
    assert_eq!(config.title.as_deref(), Some("Signs"));
    assert!(config.source.is_embedded());
    assert!(!config.can_remove());
}

fn shown(pts: i64, start: u32, end: u32, rects: Vec<SubtitleRect>) -> DecodedSubtitle {
    DecodedSubtitle {
        pts,
        pts_magnitude: Duration::from_micros(pts as u64),
        packet_start: None,
        start_display_time: start,
        end_display_time: end,
        rects,
    }
}

#[test]
fn imports_real_matroska_ass_chunk_without_rewriting() {
    let raw_ass = "1,0,Song - CN,sign,12,34,56,banner,{\\pos(100,200)\\clip(0,0,300,200)\\t(0,500,\\blur6)\\fad(100,200)}hi";
    let resources = Arc::new(AssTrackResources {
        track_id: 7,
        codec_private: b"[Script Info]\n[V4+ Styles]\nStyle: Song - CN,Arial,32\n[Events]\n"
            .to_vec(),
        fonts: Vec::new(),
    });
    let subtitle = shown(
        1_000_000,
        250,
        1250,
        vec![
            SubtitleRect::Text {
                text: Some("hello".to_string()),
                forced: true,
            },
            SubtitleRect::Ass {
                text: Some(raw_ass.to_string()),
                forced: false,
            },
        ],
    );

    let frame = import_subtitle(7, &subtitle, (0, 0), Some(resources.clone())).unwrap();

    assert_eq!(frame.track_id, 7);
    assert_eq!(frame.start, Some(Duration::from_millis(1250)));
    assert_eq!(frame.end, Some(Duration::from_millis(2250)));
    assert_eq!(frame.text.len(), 2);
    assert_eq!(frame.text[0].format, SubtitleTextFormat::PlainText);
    assert_eq!(frame.text[0].text, "hello");
    assert!(frame.text[0].forced);
    assert_eq!(frame.text[1].format, SubtitleTextFormat::Ass);
    assert_eq!(frame.text[1].text, raw_ass);
    assert!(Arc::ptr_eq(frame.ass_track.as_ref().unwrap(), &resources));
    assert!(frame.forced);
}

#[test]
fn imports_palette_bitmap_subtitle_as_rgba_plane() {
    let bitmap = PaletteBitmap {
        x: 11,
        y: 22,
        width: 2,
        height: 2,
        colors: 3,
        pixels: Plane {
            stride: 2,
            bytes: Some(vec![0, 1, 2, 1]),
        },
        palette: Some({
            let mut palette = vec![0x00000000u32, 0x804020ff, 0xff00ff80];
            palette.resize(256, 0);
            palette
        }),
    };
    let subtitle = shown(
        2_000_000,
        0,
        500,
        vec![SubtitleRect::Bitmap {
            bitmap,
            forced: false,
        }],
    );

    let frame = import_subtitle(9, &subtitle, (1920, 1080), None).unwrap();

    assert_eq!(frame.start, Some(Duration::from_secs(2)));
    assert_eq!(frame.end, Some(Duration::from_millis(2500)));
    assert_eq!(frame.bitmap.planes.len(), 1);
    let plane = &frame.bitmap.planes[0];
    assert_eq!(
        (plane.x, plane.y, plane.width, plane.height),
        (11, 22, 2, 2)
    );
    assert_eq!((plane.canvas_width, plane.canvas_height), (1920, 1080));
    assert_eq!(
        plane.rgba,
        vec![
            0, 0, 0, 0, 0x40, 0x20, 0xff, 0x80, 0x00, 0xff, 0x80, 0xff, 0x40, 0x20, 0xff, 0x80,
        ]
    );
}

#[test]
fn ass_codec_private_copy_enforces_byte_limit() {
    let header = b"[Script Info]\n".to_vec();
    let copied = copy_ass_codec_private(Some(&header), header.len() as i32)
        .expect("small header should be copied");
    assert_eq!(copied, header);

    assert!(
        copy_ass_codec_private(Some(&header), (MAX_ASS_CODEC_PRIVATE_BYTES + 1) as i32).is_none()
    );
}

/// A font file that holds nothing but its names: a family and a PostScript name.
fn named_font(family: &str, post_script: &str) -> Vec<u8> {
    let utf16 = |text: &str| -> Vec<u8> {
        text.encode_utf16()
            .flat_map(|unit| unit.to_be_bytes())
            .collect()
    };
    let names = [(1u16, utf16(family)), (6u16, utf16(post_script))];
    let mut table: Vec<u8> = Vec::new();
    table.extend(0u16.to_be_bytes());
    table.extend((names.len() as u16).to_be_bytes());
    table.extend((6 + 12 * names.len() as u16).to_be_bytes());
    let mut offset = 0u16;
    for (id, text) in &names {
        for value in [3u16, 1, 0x409, *id, text.len() as u16, offset] {
            table.extend(value.to_be_bytes());
        }
        offset += text.len() as u16;
    }
    for (_, text) in &names {
        table.extend(text);
    }
    let mut font: Vec<u8> = Vec::new();
    font.extend(0x0001_0000u32.to_be_bytes());
    for value in [1u16, 16, 0, 0] {
        font.extend(value.to_be_bytes());
    }
    font.extend(b"name");
    font.extend(0u32.to_be_bytes());
    font.extend(28u32.to_be_bytes());
    font.extend((table.len() as u32).to_be_bytes());
    font.extend(table);
    font
}

fn attachment(data: Vec<u8>) -> AttachmentStream {
    AttachmentStream {
        index: 4,
        filename: None,
        mime_type: None,
        codec: Some("ttf".to_string()),
        data_size: data.len() as i32,
        data: Some(data),
    }
}

#[test]
fn validates_true_type_attachment_and_extracts_family_names() {
    let data = named_font("Droid Sans Fallback", "DroidSansFallback");

    let font =
        subtitle_font_attachment(&attachment(data.clone()), 0, 0).expect("the font should validate");

    assert_eq!(font.byte_len(), data.len());
    assert_eq!(font.data, data);
    assert!(font
        .families
        .iter()
        .any(|family| family == "Droid Sans Fallback"));
    assert_eq!(
        font.families,
        vec![
            "Droid Sans Fallback".to_string(),
            "DroidSansFallback".to_string()
        ]
    );
}

#[test]
fn bytes_that_are_no_font_are_rejected() {
    assert!(subtitle_font_attachment(&attachment(vec![1, 2, 3, 4]), 0, 0).is_none());
}

/// The head of a collection: its mark, its version and the number of faces that it claims.
fn collection_head(faces: u32) -> Vec<u8> {
    let mut head = b"ttcf".to_vec();
    head.extend(0x0001_0000u32.to_be_bytes());
    head.extend(faces.to_be_bytes());
    head
}

#[test]
fn a_collection_that_claims_too_many_faces_is_rejected() {
    for claimed in [1, 0x3fff_fffc, 0x3fff_fffd, 0x4000_0000, u32::MAX] {
        let mut stream = attachment(collection_head(claimed));
        stream.filename = Some("a.ttc".to_string());
        assert!(subtitle_font_attachment(&stream, 0, 0).is_none());
    }
    assert!(subtitle_font_attachment(&attachment(collection_head(0)), 0, 0).is_none());
    let mut beyond = collection_head(1);
    beyond.extend(u32::MAX.to_be_bytes());
    assert!(subtitle_font_attachment(&attachment(beyond), 0, 0).is_none());
}

#[test]
fn the_faces_of_a_collection_are_found() {
    let mut face = named_font("Family", "PostScript");
    face[20..24].copy_from_slice(&44u32.to_be_bytes());
    let mut data = collection_head(1);
    data.extend(16u32.to_be_bytes());
    data.extend(face);
    let font = subtitle_font_attachment(&attachment(data), 0, 0).expect("a face is there");
    assert_eq!(
        font.families,
        vec!["Family".to_string(), "PostScript".to_string()]
    );
}

#[test]
fn rejects_font_before_copy_when_attachment_limits_are_exceeded() {
    let mut stream = attachment(vec![0]);
    stream.index = 9;

    assert!(subtitle_font_attachment(&stream, MAX_SUBTITLE_FONT_ATTACHMENTS, 0).is_none());

    stream.data_size = (MAX_SUBTITLE_FONT_ATTACHMENT_BYTES + 1) as i32;
    stream.data = None;
    assert!(subtitle_font_attachment(&stream, 0, 0).is_none());

    stream.data_size = 1;
    stream.data = Some(vec![0]);
    assert!(subtitle_font_attachment(&stream, 0, MAX_SUBTITLE_FONT_TOTAL_BYTES).is_none());
}

#[test]
fn fonts_are_told_by_name_type_or_codec() {
    let none: Option<String> = None;
    assert!(is_font_attachment_candidate("A.TTF", &none, &none));
    assert!(is_font_attachment_candidate(
        "a",
        &Some("application/x-truetype-font".to_string()),
        &none
    ));
    assert!(is_font_attachment_candidate(
        "a",
        &none,
        &Some("otf".to_string())
    ));
    assert!(!is_font_attachment_candidate("cover.jpg", &none, &none));
}

#[test]
fn rejects_malformed_bitmap_subtitle_rect() {
    let bitmap = PaletteBitmap {
        x: 0,
        y: 0,
        width: 4,
        height: 2,
        colors: 1,
        pixels: Plane {
            stride: 3,
            bytes: Some(vec![0; 8]),
        },
        palette: Some(vec![0xffffffffu32; 256]),
    };

    let error = bitmap.to_rgba_plane(0, 0).unwrap_err();

    assert!(matches!(error, FfmpegError::InvalidSubtitleBitmap { .. }));
}

#[test]
fn p010_downconversion_rounds_to_nv12_and_preserves_video_range_anchors() {
    let pack = |codes: &[u16]| {
        codes
            .iter()
            .flat_map(|code| (*code << 6).to_le_bytes())
            .collect::<Vec<_>>()
    };
    let frame = PlanarFrame {
        format: PlanarPixelFormat::P010,
        width: 4,
        height: 2,
        luma: pack(&[0, 1, 2, 3, 64, 512, 940, 1023]),
        chroma: pack(&[64, 960, 512, 1023]),
    };

    let converted = frame.downconvert_p010_to_nv12().unwrap();

    assert_eq!(converted.format, PlanarPixelFormat::Nv12);
    assert_eq!((converted.width, converted.height), (4, 2));
    assert_eq!(converted.luma, vec![0, 0, 1, 1, 16, 128, 235, 255]);
    assert_eq!(converted.chroma, vec![16, 240, 128, 255]);
}

#[test]
fn p010_downconversion_rejects_malformed_planes() {
    let error = PlanarFrame {
        format: PlanarPixelFormat::P010,
        width: 2,
        height: 2,
        luma: vec![0; 6],
        chroma: vec![0; 4],
    }
    .downconvert_p010_to_nv12()
    .unwrap_err();

    assert!(matches!(
        error,
        PlanarFrameConversionError::InvalidP010PlaneSize {
            plane: "luma",
            actual: 6,
            expected: 8,
            ..
        }
    ));
}

#[test]
fn only_p010_is_downconverted() {
    let error = PlanarFrame {
        format: PlanarPixelFormat::Nv12,
        width: 2,
        height: 2,
        luma: vec![0; 4],
        chroma: vec![0; 2],
    }
    .downconvert_p010_to_nv12()
    .unwrap_err();
    assert_eq!(
        error,
        PlanarFrameConversionError::ExpectedP010 {
            format: PlanarPixelFormat::Nv12
        }
    );
}

fn video_frame(format: PixelFormat, width: i32, height: i32, planes: [Plane; 4]) -> Frame {
    Frame {
        width,
        height,
        sample_rate: 0,
        channels: 0,
        samples: 0,
        sample_format: None,
        format,
        format_name: None,
        planes,
        handles: [0; 4],
        has_hw_frames_context: false,
        pts: i64::MIN,
        time_base: TimeBase { num: 1, den: 1 },
        pts_magnitude: Duration::zero(),
        color_primaries: 0,
        color_transfer: 0,
        color_range: 0,
        color_matrix: 0,
    }
}

fn plane(stride: i32, bytes: Vec<u8>) -> Plane {
    Plane {
        stride,
        bytes: Some(bytes),
    }
}

fn no_plane() -> Plane {
    Plane {
        stride: 0,
        bytes: None,
    }
}

#[test]
fn odd_sized_yuv420p_frame_preserves_ceil_chroma_extent() {
    let y = vec![16, 32, 48, 64, 80, 96, 112, 128, 144];
    let u = vec![100, 110, 120, 130];
    let v = vec![140, 150, 160, 170];
    let frame = video_frame(
        PixelFormat::Yuv420p,
        3,
        3,
        [plane(3, y.clone()), plane(2, u), plane(2, v), no_plane()],
    );

    let planar = frame.to_planar_frame(None).unwrap();

    assert_eq!((planar.width, planar.height), (3, 3));
    assert_eq!(planar.luma, y);
    assert_eq!(planar.chroma, vec![100, 140, 110, 150, 120, 160, 130, 170]);
}

#[test]
fn other_software_formats_are_scaled_to_nv12() {
    let frame = video_frame(
        PixelFormat::Other(28),
        3,
        2,
        [plane(12, vec![0; 24]), no_plane(), no_plane(), no_plane()],
    );
    let request = frame.scale_request().expect("a scaler is asked");
    assert_eq!((request.width, request.height), (3, 2));
    let scaled = PlanarFrame {
        format: PlanarPixelFormat::Nv12,
        width: 3,
        height: 2,
        luma: vec![1; 6],
        chroma: vec![2; 4],
    };
    assert_eq!(frame.to_planar_frame(Some(scaled.clone())), Some(scaled));
    assert_eq!(frame.to_planar_frame(None), None);
}

fn pcm_frame(pts: Duration, frames: usize) -> PcmAudioFrame {
    PcmAudioFrame {
        format: PcmFormat::f32_interleaved(10, 2),
        pts: Some(pts),
        frames,
        samples: (0..frames * 2)
            .map(|sample| (sample as f32).to_bits())
            .collect(),
    }
}

#[test]
fn audio_seek_floor_drops_pcm_ending_at_target() {
    let mut frame = pcm_frame(Duration::from_secs(9), 5);

    let action = trim_audio_frame_to_seek_floor(
        &mut frame,
        Duration::from_millis(9_500),
        Duration::zero(),
    );

    assert_eq!(action, AudioSeekFloorAction::Drop);
}

#[test]
fn audio_seek_floor_trims_overlapping_pcm_to_first_sample_at_or_after_target() {
    let mut frame = pcm_frame(Duration::from_secs(9), 10);
    let trimmed = Duration::from_millis(500);

    let action =
        trim_audio_frame_to_seek_floor(&mut frame, Duration::from_millis(9_450), trimmed);

    assert_eq!(action, AudioSeekFloorAction::Emit { trimmed_frames: 5 });
    assert_eq!(frame.pts, Some(Duration::from_millis(9_500)));
    assert_eq!(frame.frames, 5);
    assert_eq!(
        frame.samples,
        (10..20)
            .map(|sample| (sample as f32).to_bits())
            .collect::<Vec<_>>()
    );
}

#[test]
fn audio_seek_floor_survives_dropped_frames_and_clears_on_emit() {
    let target = Duration::from_secs(10);
    let mut seek_floor = Some(target);
    let mut preroll = pcm_frame(Duration::from_millis(9_500), 5);
    let mut on_target = pcm_frame(target, 5);

    assert!(!keep_audio_frame_after_seek_floor(
        &mut seek_floor,
        &mut preroll,
        Duration::zero()
    ));
    assert_eq!(seek_floor, Some(target));
    assert!(keep_audio_frame_after_seek_floor(
        &mut seek_floor,
        &mut on_target,
        Duration::zero()
    ));
    assert_eq!(seek_floor, None);
}

#[test]
fn bounded_audio_filter_preserves_remaining_queue_after_deadline() {
    let mut frames = VecDeque::from([
        pcm_frame(Duration::from_secs(9), 5),
        pcm_frame(Duration::from_millis(9_500), 5),
        pcm_frame(Duration::from_secs(10), 5),
    ]);
    let mut filtered_frames = 0;
    let mut inspected_frames = 0;
    let mut reject_all = Some(Duration::from_secs(60));

    let found = loop {
        let step = pop_matching_audio_frame(
            &mut frames,
            &mut reject_all,
            &mut filtered_frames,
            &mut inspected_frames,
            Duration::zero(),
            Duration::zero(),
            Duration::zero(),
        );
        match step {
            AudioFilterStep::Filtered => {}
            AudioFilterStep::Found(frame) => break Some(frame),
            AudioFilterStep::OutOfTime | AudioFilterStep::Exhausted => break None,
        }
    };

    assert!(found.is_none());
    assert_eq!(filtered_frames, 1);
    assert_eq!(inspected_frames, 1);
    assert_eq!(frames.len(), 2);
}

fn import_failure() -> VideoFrameImportFailure {
    VideoFrameImportFailure {
        decode_backend: erika::decoder::DecoderBackend::MediaCodec,
        mediacodec_surface: true,
        codec: Some("h264".to_string()),
        pixel_format: None,
        line_sizes: [1, -2, 3, 0],
        width: 1920,
        height: 1080,
        generation: 7,
        reason: "a \"quoted\" reason".to_string(),
    }
}

#[test]
fn structured_messages_are_json_objects() {
    let value: serde_json::Value =
        serde_json::from_str(&import_failure().structured_message()).unwrap();
    assert_eq!(value["event"].as_str(), Some("video_frame_import_failure"));
    assert_eq!(value["backend"].as_str(), Some("mediacodec"));
    assert_eq!(value["mediaCodecSurface"].as_bool(), Some(true));
    assert_eq!(value["codec"].as_str(), Some("h264"));
    assert!(value["pixelFormat"].is_null());
    assert_eq!(value["lineSizes"][1].as_i64(), Some(-2));
    assert_eq!(value["width"].as_u64(), Some(1920));
    assert_eq!(value["generation"].as_u64(), Some(7));
    assert_eq!(value["reason"].as_str(), Some("a \"quoted\" reason"));

    let event = VideoDecoderEvent {
        stage: "open".to_string(),
        requested_backend: erika::decoder::DecoderBackend::Software,
        previous_backend: None,
        active_backend: erika::decoder::DecoderBackend::Software,
        fallback_count: 2,
        codec: None,
        pixel_format: None,
        line_sizes: None,
        reason: None,
    };
    let value: serde_json::Value = serde_json::from_str(&event.structured_message()).unwrap();
    assert_eq!(value["event"].as_str(), Some("video_decoder_changed"));
    assert_eq!(value["fallbackCount"].as_u64(), Some(2));
    assert!(value["previousBackend"].is_null());
    assert!(value["lineSizes"].is_null());
}

#[test]
fn error_codes_are_read() {
    assert!(check(0, "read", "").is_ok());
    let error = check(-5, "read", "broken").unwrap_err();
    assert_eq!(
        error,
        FfmpegError::Api {
            operation: "read".to_string(),
            code: -5,
            message: "broken".to_string(),
        }
    );
    let again = check(av_error(libc::EAGAIN), "send", "again").unwrap_err();
    assert!(again.is_again());
    assert!(!again.is_invalid_argument());
    let invalid = check(av_error(libc::EINVAL), "send", "invalid").unwrap_err();
    assert!(invalid.is_invalid_argument());
    assert!(!invalid.is_again());
    assert!(FfmpegError::AndroidMediaCodecBackpressure("full".to_string())
        .is_android_mediacodec_backpressure());
    assert!(!error.is_android_mediacodec_backpressure());
}

#[test]
fn uris_hold_no_nul() {
    assert!(check_uri("https://host/a").is_ok());
    assert_eq!(check_uri("a\0b"), Err(FfmpegError::InteriorNul));
}

fn stream(index: i32, content: StreamContent, codec: &str) -> StreamDescription {
    StreamDescription {
        index,
        time_base_num: 1,
        time_base_den: 90_000,
        title: None,
        language: Some("eng".to_string()),
        codec: Some(CodecDescription {
            id: CodecId::Other(1),
            content,
            codec: Some(codec.to_string()),
            width: 640,
            height: 480,
            pixel_format: None,
            profile: None,
            profile_name: None,
            level: -99,
            color_primaries: 1,
            color_transfer: 1,
            sample_rate: 48_000,
            channels: 2,
            sample_format: None,
            attachment: AttachmentStream {
                index,
                filename: None,
                mime_type: None,
                codec: Some(codec.to_string()),
                data_size: 0,
                data: None,
            },
        }),
    }
}

fn container() -> ContainerDescription {
    ContainerDescription {
        duration_micros: 8_000_000,
        start_time: 600_000_000,
        slots: vec![
            Some(stream(0, StreamContent::Video, "h264")),
            Some(stream(1, StreamContent::Audio, "aac")),
            None,
            Some(stream(3, StreamContent::Subtitle, "ass")),
        ],
    }
}

#[test]
fn a_container_is_probed() {
    let probe = probe_path("movie.mkv", Ok(container())).unwrap();
    assert_eq!(probe.duration, Some(Duration::from_secs(8)));
    assert_eq!(probe.tracks.len(), 3);
    assert_eq!(probe.tracks[0].kind, TrackKind::Video);
    assert_eq!(probe.tracks[2].id, 3);
    assert_eq!(probe.video.len(), 1);
    assert_eq!(probe.video[0].params.width, 640);
    assert_eq!(probe.audio[0].sample_rate, 48_000);
    assert_eq!(probe.subtitles[0].id, 3);
    let error = probe_path("movie.mkv", Err(FfmpegError::Source("gone".to_string())));
    assert_eq!(error, Err(FfmpegError::Source("gone".to_string())));
}

fn packet(stream_index: i32, pts: i64) -> Packet {
    Packet {
        stream_index,
        flags: PacketFlags { bits: 1 },
        position: -1,
        pts,
        dts: i64::MIN,
        duration: 0,
        time_base: Some(TimeBase {
            num: 1,
            den: 90_000,
        }),
        data: vec![1, 2, 3],
    }
}

#[test]
fn packets_move_to_a_timeline_that_starts_at_zero() {
    let mut demuxer = Demuxer::open("movie.ts", container());
    let read = demuxer
        .read_packet(0, "", packet(0, 54_090_000), 54_000_000)
        .unwrap();
    match read {
        ReadStep::Packet(packet) => {
            assert_eq!(packet.pts, 90_000);
            assert_eq!(packet.dts, i64::MIN);
            assert!(packet.is_key());
            assert_eq!(packet.size(), 3);
        }
        _ => panic!("expected a packet"),
    }
    demuxer
        .set_stream_selection(StreamSelection::only(vec![1]))
        .unwrap();
    assert!(matches!(
        demuxer.read_packet(0, "", packet(0, 0), 0),
        Ok(ReadStep::Skip)
    ));
    assert!(matches!(
        demuxer.read_packet(AVERROR_EOF, "end", packet(0, 0), 0),
        Ok(ReadStep::EndOfStream)
    ));
    assert_eq!(
        demuxer.set_stream_selection(StreamSelection::only(vec![9])),
        Err(FfmpegError::UnknownStream(9))
    );
}

#[test]
fn seeks_go_back_first_and_then_anywhere() {
    let demuxer = Demuxer::open("movie.ts", container());
    let plan = demuxer.plan_seek(Duration::from_secs(15));
    assert_eq!(plan.relative_target, 15_000_000);
    assert_eq!(plan.absolute_target, 615_000_000);
    assert_eq!(plan.stream_index(), 0);
    assert_eq!(plan.target(1_234), 1_234);
    assert!(matches!(after_backward_seek(0), SeekStep::Flush));
    assert!(matches!(after_backward_seek(-1), SeekStep::SeekFullRange));
    assert!(after_full_range_seek(-1, "no", 0).is_ok());
    assert!(after_full_range_seek(-1, "no", -2).is_err());
}

#[test]
fn a_byte_source_is_read_and_sought() {
    let errors = SourceErrors::of_this_machine();
    assert_eq!(errors.io, -libc::EIO);
    assert_eq!(errors.invalid, -libc::EINVAL);
    assert_eq!(errors.not_seekable, -libc::ESPIPE);
    let mut cursor = ByteCursor::new();
    assert_eq!(cursor.read_packet(4096, Some(100), errors), 100);
    assert_eq!(cursor.offset, 100);
    assert_eq!(cursor.read_packet(4096, Some(0), errors), AVERROR_EOF);
    assert_eq!(cursor.read_packet(4096, None, errors), errors.io);
    assert_eq!(
        cursor.seek(-50, SeekOrigin::Current, Ok(Some(1_000)), errors),
        50
    );
    assert_eq!(
        cursor.seek(0, SeekOrigin::Size, Ok(Some(1_000)), errors),
        1_000
    );
    assert_eq!(
        cursor.seek(-10, SeekOrigin::End, Ok(Some(1_000)), errors),
        990
    );
    assert_eq!(cursor.offset, 990);
    let mut far = ByteCursor { offset: u64::MAX };
    assert_eq!(far.seek(5, SeekOrigin::Current, Ok(None), errors), 4);
    assert_eq!(far.offset, 4);
    assert_eq!(
        far.seek(-5, SeekOrigin::Current, Ok(None), errors),
        i64::from(errors.invalid)
    );
    assert_eq!(far.offset, 4);
}
