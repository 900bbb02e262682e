//! Tracks, subtitle files, the assembly of a session, and what the worker makes of them.
use crossbeam_channel::{bounded, Receiver, Sender};
use erika::channel::Outlet;
use erika::clock::ClockReading;
use erika::decoder::{CodecId, Decoder, DecoderBackend};
use erika::demux::{AsyncDemuxer, DemuxCommand, DemuxMessage};
use erika::demuxer::{
    ContainerDescription, Demuxer, OwnedCodecParameters, SubtitleDecoder, SubtitleOpenReplies,
};
use erika::engine::{TimedSubtitleFrame, VideoPlaybackEngine};
use erika::error::FfmpegError;
use erika::events::{PlayerEvent, VideoFrameImportFailure};
use erika::external::{
    external_subtitle_stream, external_subtitle_uri, find_track, ExternalRead,
    ExternalSubtitleSession,
};
use erika::fonts::AttachmentStream;
use erika::media::{
    MediaRequest, PlayerError, PlayerState, TrackInfo, TrackKind, TrackSelection,
};
use erika::opening::{
    select_start_streams, streams_to_read, track_parameters, OpenedParts, StartTracks,
};
use erika::packet::{Packet, PacketFlags, TimeBase};
use erika::playback::{PlaybackError, PlaybackRunState, PlaybackSessionConfig};
use erika::player::{Player, PlayerConfig, PlayerId};
use erika::probe::{CodecDescription, StreamContent, StreamDescription};
use erika::schedule::PlaybackTimingConfig;
use erika::session::PlaybackSession;
use erika::subtitle::{
    DecodedSubtitle, DecodedSubtitleFrame, SubtitleRect, SubtitleTrackConfig,
    SubtitleTrackSource,
};
use erika::time::{Duration, Instant};
use erika::tracks::{embedded_track_stream_index, subtitle_track_source, SubtitleChoice};
use erika::worker::{CommandStep, PlaybackWorker};

fn stream(index: i32, content: StreamContent, codec: &str) -> Option<StreamDescription> {
    Some(StreamDescription {
        index,
        time_base_num: 1,
        time_base_den: 1_000,
        title: None,
        language: Some("eng".to_string()),
        codec: Some(CodecDescription {
            id: CodecId::Other(index),
            content,
            codec: Some(codec.to_string()),
            width: 640,
            height: 480,
            pixel_format: None,
            profile: None,
            profile_name: None,
            level: -99,
            color_primaries: 1,
            color_transfer: 1,
            sample_rate: 48_000,
            channels: 2,
            sample_format: None,
            attachment: AttachmentStream {
                index,
                filename: None,
                mime_type: None,
                codec: Some(codec.to_string()),
                data_size: 0,
                data: None,
            },
        }),
    })
}

fn movie() -> Demuxer {
    Demuxer::open(
        "movie.mkv",
        ContainerDescription {
            duration_micros: 8_000_000,
            start_time: 0,
            slots: vec![
                stream(0, StreamContent::Video, "h264"),
                stream(1, StreamContent::Audio, "aac"),
                stream(2, StreamContent::Audio, "opus"),
                stream(3, StreamContent::Subtitle, "ass"),
            ],
        },
    )
}

fn subtitle_file() -> Demuxer {
    Demuxer::open(
        "/tmp/movie.srt",
        ContainerDescription {
            duration_micros: 8_000_000,
            start_time: 0,
            slots: vec![stream(0, StreamContent::Subtitle, "subrip")],
        },
    )
}

fn replies() -> SubtitleOpenReplies {
    SubtitleOpenReplies {
        found: true,
        allocated: true,
        copied_code: 0,
        copied_message: "bad".to_string(),
        opened_code: 0,
        opened_message: "bad".to_string(),
        codec_private: None,
        is_text: true,
    }
}

fn subtitle_decoder(demuxer: &Demuxer, stream_index: i32) -> SubtitleDecoder {
    let parameters = demuxer.codec_parameters(stream_index).unwrap();
    SubtitleDecoder::open_with_fonts(&parameters, replies(), Vec::new()).unwrap()
}

fn file_session(id: i64) -> ExternalSubtitleSession {
    let demuxer = subtitle_file();
    let decoder = subtitle_decoder(&demuxer, 0);
    ExternalSubtitleSession::open(
        SubtitleTrackConfig::external(id, "/tmp/movie.srt".to_string()),
        "/tmp/movie.srt",
        demuxer,
        decoder,
    )
    .unwrap()
}

fn audio_decoder(stream_index: i32) -> Decoder {
    Decoder {
        stream_index,
        time_base: TimeBase {
            num: 1,
            den: 1_000,
        },
        backend: DecoderBackend::Software,
        mediacodec_surface: false,
        avcodec_surface: false,
        eof_sent: false,
        end_of_stream: false,
    }
}

struct Bench {
    engine: VideoPlaybackEngine,
    _packets: Sender<DemuxMessage>,
    commands: Receiver<DemuxCommand>,
}

fn bench() -> Bench {
    let mut demuxer = movie();
    let tracks = StartTracks::of(&demuxer);
    select_start_streams(&mut demuxer, tracks).unwrap();
    let subtitle = subtitle_decoder(&demuxer, 3);
    let codec_parameters = track_parameters(&demuxer)
        .unwrap()
        .into_iter()
        .map(|parameters| OwnedCodecParameters::copy_from(parameters, true, 0, "").unwrap())
        .collect();
    let (handle, outlet, commands) = AsyncDemuxer::new();
    let packets = outlet.sender().clone();
    drop(outlet);
    let session = PlaybackSession::assemble(
        &MediaRequest::new("movie.mkv"),
        PlaybackSessionConfig::default(),
        demuxer.probe,
        tracks,
        OpenedParts {
            codec_parameters,
            video: None,
            audio: Some(audio_decoder(1)),
            subtitle: Some(subtitle),
        },
        handle,
    );
    Bench {
        engine: VideoPlaybackEngine::from_session_with_timing(
            session,
            PlaybackTimingConfig::default(),
        ),
        _packets: packets,
        commands,
    }
}

#[test]
fn a_medium_starts_with_its_first_tracks() {
    let bench = bench();
    let session = &bench.engine.session;
    assert_eq!(
        bench.engine.track_selection(),
        TrackSelection {
            video: Some(0),
            audio: Some(1),
            subtitle: Some(3)
        }
    );
    let marks: Vec<bool> = session.info.tracks.iter().map(|t| t.selected).collect();
    assert_eq!(marks, vec![true, true, false, true]);
    assert_eq!(session.info.video_params.unwrap().width, 640);
    assert_eq!(session.info.video_decode_backend, None);
    assert_eq!(session.info.duration, Some(Duration::from_secs(8)));
    assert_eq!(session.selected_video_codec().as_deref(), Some("h264"));
    assert_eq!(bench.engine.state(), PlaybackRunState::Paused);
    assert!(bench.commands.try_recv().is_err());
}

#[test]
fn unknown_streams_are_not_read() {
    let mut demuxer = movie();
    let tracks = StartTracks {
        video: Some(9),
        audio: Some(7),
        subtitle: None,
    };
    assert_eq!(
        select_start_streams(&mut demuxer, tracks),
        Err(PlaybackError::Ffmpeg(FfmpegError::UnknownStream(7)))
    );
    assert!(demuxer.selection.accepts(9));
    let mut streams = streams_to_read(Some(0), None, &demuxer.probe.subtitles).unwrap();
    streams.sort_unstable();
    assert_eq!(streams, vec![0, 3]);
    let far = vec![SubtitleTrackConfig::embedded(5, 1 << 40)];
    assert_eq!(
        streams_to_read(None, None, &far),
        Err(PlaybackError::TrackNotFound {
            kind: TrackKind::Subtitle,
            track_id: 5
        })
    );
}

#[test]
fn parameters_that_cannot_be_copied_are_reported() {
    let demuxer = movie();
    let parameters = || demuxer.codec_parameters(1).unwrap();
    assert_eq!(parameters().codec, CodecId::Other(1));
    assert_eq!(parameters().codec_name().as_deref(), Some("aac"));
    assert!(matches!(
        OwnedCodecParameters::copy_from(parameters(), false, 0, ""),
        Err(FfmpegError::NullPointer(_))
    ));
    assert!(matches!(
        OwnedCodecParameters::copy_from(parameters(), true, -1, "bad"),
        Err(FfmpegError::Api { code: -1, .. })
    ));
    assert_eq!(
        demuxer.codec_parameters(9),
        Err(FfmpegError::UnknownStream(9))
    );
}

#[test]
fn another_audio_track_is_read_in_a_new_generation() {
    let mut bench = bench();
    let session = &mut bench.engine.session;
    assert_eq!(
        session.audio_parameters(2).unwrap().codec_name().as_deref(),
        Some("opus")
    );
    assert_eq!(
        session.audio_parameters(0).unwrap_err(),
        PlaybackError::TrackNotFound {
            kind: TrackKind::Audio,
            track_id: 0
        }
    );
    session
        .select_audio_track(Some((2, audio_decoder(2))))
        .unwrap();
    assert_eq!(session.demuxer.generation, 2);
    match bench.commands.try_recv().unwrap() {
        DemuxCommand::SetSelection {
            generation: 2,
            selection,
        } => assert_eq!(selection.named_streams(), Some(vec![0, 2, 3])),
        _ => panic!("the streams are chosen anew"),
    }
    let marks: Vec<bool> = session.info.tracks.iter().map(|t| t.selected).collect();
    assert_eq!(marks, vec![true, false, true, true]);
    session.select_audio_track(None).unwrap();
    assert_eq!(session.info.audio_output, None);
}

#[test]
fn subtitle_tracks_are_planned_by_their_source() {
    let mut bench = bench();
    let session = &mut bench.engine.session;
    assert_eq!(
        session.plan_subtitle_track(Some(3)).unwrap(),
        SubtitleChoice::OpenDecoder {
            track_id: 3,
            stream_index: 3
        }
    );
    assert_eq!(
        session.plan_subtitle_track(None).unwrap(),
        SubtitleChoice::Ready(None)
    );
    assert_eq!(
        session.plan_subtitle_track(Some(8)).unwrap_err(),
        PlaybackError::TrackNotFound {
            kind: TrackKind::Subtitle,
            track_id: 8
        }
    );
    session.add_external_subtitle(file_session(1_000_000));
    assert_eq!(
        session.plan_subtitle_track(Some(1_000_000)).unwrap(),
        SubtitleChoice::Ready(Some(1_000_000))
    );
    assert_eq!(session.subtitle_source(), Some(None));
    let cleared = session
        .select_subtitle_track(Some(1_000_000), None, Duration::from_secs(1))
        .unwrap();
    assert_eq!(cleared.track_id, 3);
    assert_eq!(cleared.start, Some(Duration::from_secs(1)));
    assert_eq!(session.subtitle_source(), Some(Some(0)));
    session.select_subtitle_track(None, None, Duration::zero());
    assert_eq!(session.subtitle_source(), None);
}

#[test]
fn a_subtitle_only_change_keeps_the_demuxer() {
    let mut bench = bench();
    let generation = bench.engine.session.demuxer.generation;
    let track = bench
        .engine
        .session
        .add_external_subtitle(file_session(1_000_008));
    let clear = bench.engine.session.select_subtitle_track(
        Some(1_000_008),
        None,
        Duration::from_secs(2),
    );
    let told = bench
        .engine
        .finish_add_subtitle(clear, Duration::from_secs(2))
        .unwrap();
    assert_eq!(told.media_time, Duration::from_secs(2));
    assert_eq!(track.id, 1_000_008);
    assert_eq!(bench.engine.session.demuxer.generation, generation);
    assert!(bench.commands.try_recv().is_err());
}

#[test]
fn removing_a_file_undoes_its_addition() {
    let mut bench = bench();
    let session = &mut bench.engine.session;
    let tracks = session.info.tracks.clone();
    let subtitle_tracks = session.info.subtitle_tracks.clone();
    session.add_external_subtitle(file_session(1_000_000));
    assert_eq!(session.info.tracks.len(), 5);
    assert_eq!(session.info.tracks[4].title.as_deref(), Some("movie.srt"));
    assert_eq!(session.subtitles.find_external(1_000_000), Some(0));
    let cleared = session
        .remove_subtitle_track(1_000_000, Duration::zero())
        .unwrap();
    assert_eq!(cleared.unwrap().track_id, 1_000_000);
    assert_eq!(session.info.tracks, tracks);
    assert_eq!(session.info.subtitle_tracks, subtitle_tracks);
    assert_eq!(session.subtitles.find_external(1_000_000), None);
    assert_eq!(
        session.remove_subtitle_track(3, Duration::zero()),
        Err(PlaybackError::SubtitleTrackNotRemovable(3))
    );
    assert_eq!(
        session.remove_subtitle_track(77, Duration::zero()),
        Ok(None)
    );
}

#[test]
fn lists_of_tracks_are_searched() {
    let tracks = movie().probe.tracks;
    assert_eq!(find_track(&tracks, TrackKind::Audio), Some(1));
    assert_eq!(
        embedded_track_stream_index(&tracks, 2, TrackKind::Audio),
        Ok(2)
    );
    assert!(embedded_track_stream_index(&tracks, 2, TrackKind::Video).is_err());
    let files = vec![SubtitleTrackConfig::external(7, "a.srt".to_string())];
    assert_eq!(
        subtitle_track_source(&files, 7),
        Ok(SubtitleTrackSource::External {
            uri: "a.srt".to_string()
        })
    );
    assert!(subtitle_track_source(&files, 8).is_err());
    assert_eq!(external_subtitle_uri(&files[0]), Ok("a.srt".to_string()));
    assert!(external_subtitle_uri(&SubtitleTrackConfig::embedded(1, 1)).is_err());
    assert_eq!(external_subtitle_stream(&subtitle_file()), Ok(0));
    let silent = Demuxer::open(
        "a.mp3",
        ContainerDescription {
            duration_micros: 0,
            start_time: i64::MIN,
            slots: vec![stream(0, StreamContent::Audio, "mp3")],
        },
    );
    assert_eq!(
        external_subtitle_stream(&silent),
        Err(PlaybackError::NoSubtitleTrack)
    );
}

fn shown_at(track_id: i64, start: Option<Duration>) -> DecodedSubtitleFrame {
    DecodedSubtitleFrame::new(track_id, start, None)
}

#[test]
fn a_file_is_read_some_seconds_ahead() {
    let mut session = file_session(1_000_007);
    let now = Duration::from_secs(10);
    assert!(session.wants_more(now));
    session.take_read(ExternalRead::Nothing);
    session.take_read(ExternalRead::Frame(shown_at(0, Some(Duration::from_secs(15)))));
    assert!(session.wants_more(now));
    session.take_read(ExternalRead::Frame(shown_at(0, Some(Duration::from_secs(16)))));
    assert!(!session.wants_more(now));
    assert_eq!(session.peek_start(), Some(Duration::from_secs(15)));
    assert_eq!(session.track().id, 1_000_007);
    let frame = session.pop_front().unwrap();
    assert_eq!(frame.track_id, 1_000_007);
    session.take_read(ExternalRead::End);
    assert!(!session.wants_more(Duration::from_secs(60)));
    session.finish_seek();
    assert!(session.wants_more(now));
    assert_eq!(session.peek_start(), None);
}

#[test]
fn the_earliest_subtitle_comes_first() {
    let mut bench = bench();
    let session = &mut bench.engine.session;
    session.add_external_subtitle(file_session(1_000_000));
    let external = &mut session.subtitles.external[0];
    external.take_read(ExternalRead::Frame(shown_at(0, Some(Duration::from_secs(1)))));
    session
        .subtitles
        .frames
        .push_back(shown_at(3, Some(Duration::from_secs(2))));
    let now = Duration::from_secs(3);
    assert!(session
        .subtitles
        .pop_ready(Some(1_000_000), Duration::from_millis(500))
        .is_none());
    let first = session.subtitles.pop_ready(Some(1_000_000), now).unwrap();
    assert_eq!(first.track_id, 1_000_000);
    let second = session.subtitles.pop_ready(Some(1_000_000), now).unwrap();
    assert_eq!(second.track_id, 3);
    assert!(session.subtitles.pop_ready(Some(1_000_000), now).is_none());
}

#[test]
fn subtitle_decoders_read_packets() {
    let demuxer = subtitle_file();
    let mut decoder = subtitle_decoder(&demuxer, 0);
    let packet = |stream_index| Packet {
        stream_index,
        flags: PacketFlags { bits: 1 },
        position: -1,
        pts: 1_000,
        dts: 1_000,
        duration: 0,
        time_base: None,
        data: Vec::new(),
    };
    let subtitle = DecodedSubtitle {
        pts: 1_000_000,
        pts_magnitude: Duration::from_secs(1),
        packet_start: None,
        start_display_time: 0,
        end_display_time: 2_000,
        rects: vec![SubtitleRect::Text {
            text: Some("External subtitle".to_string()),
            forced: false,
        }],
    };
    let frame = decoder
        .decode_packet(&packet(0), 0, "", Some(&subtitle), (0, 0))
        .unwrap()
        .unwrap();
    assert_eq!(frame.start, Some(Duration::from_secs(1)));
    assert_eq!(frame.end, Some(Duration::from_secs(3)));
    assert_eq!(frame.text[0].text, "External subtitle");
    assert_eq!(
        decoder.decode_packet(&packet(0), 0, "", None, (0, 0)),
        Ok(None)
    );
    assert!(matches!(
        decoder.decode_packet(&packet(4), 0, "", None, (0, 0)),
        Err(FfmpegError::StreamMismatch { .. })
    ));
    assert!(matches!(
        decoder.decode_packet(&packet(0), -3, "bad", None, (0, 0)),
        Err(FfmpegError::Api { code: -3, .. })
    ));
}

#[test]
fn a_subtitle_decoder_that_does_not_open_is_explained() {
    let demuxer = movie();
    let open = |stream: i32, change: fn(&mut SubtitleOpenReplies)| {
        let mut replies = replies();
        change(&mut replies);
        let parameters = demuxer.codec_parameters(stream).unwrap();
        SubtitleDecoder::open_with_fonts(&parameters, replies, Vec::new()).is_err()
    };
    assert!(!open(3, |_| {}));
    assert!(open(1, |_| {}));
    assert!(open(3, |replies| replies.found = false));
    assert!(open(3, |replies| replies.allocated = false));
    assert!(open(3, |replies| replies.copied_code = -1));
    assert!(open(3, |replies| replies.opened_code = -1));
}

fn reading(now: Instant) -> ClockReading {
    ClockReading {
        now,
        advance: Duration::zero(),
    }
}

fn now() -> Instant {
    Instant {
        nanos: 5_000_000_000,
    }
}

fn player() -> Player {
    let mut player = Player::new(PlayerConfig::default(), PlayerId::of_counter(4));
    player.inner.status.state = PlayerState::Playing;
    player.inner.status.playback_generation = 1;
    player
}

#[test]
fn a_track_change_starts_a_new_timeline() {
    let bench = bench();
    let mut player = player();
    let mut worker = PlaybackWorker::new(1, now());
    worker.finish_track_change(&bench.engine, &mut player.inner, Ok(None));
    assert_eq!(worker.generation, 2);
    assert_eq!(player.playback_generation(), 2);
    assert!(matches!(
        player.inner.outbox[0],
        PlayerEvent::TracksChanged(_)
    ));
    player.inner.outbox.clear();
    let outcome = Err("no such track".to_string());
    worker.finish_track_change(&bench.engine, &mut player.inner, outcome);
    assert_eq!(worker.generation, 2);
    assert_eq!(
        player.inner.outbox,
        vec![PlayerEvent::Error(PlayerError::Playback(
            "no such track".to_string()
        ))]
    );
}

#[test]
fn the_outcome_of_a_new_file_is_answered() {
    let bench = bench();
    let mut player = player();
    let mut worker = PlaybackWorker::new(1, now());
    let (reply, answer) = bounded(1);
    let mut reply = Outlet::over(reply);
    let listener = player.subscribe();
    let track = SubtitleTrackConfig::external(9, "a.srt".to_string());
    let outcome = Ok((track.duplicate(), None));
    worker.finish_add_subtitle(&bench.engine, &mut player.inner, outcome, &mut reply);
    assert_eq!(answer.try_recv().unwrap(), Ok(track));
    assert_eq!(worker.generation, 2);
    assert!(player.inner.outbox.is_empty());
    assert!(matches!(
        listener.try_recv(),
        Ok(PlayerEvent::TracksChanged(_))
    ));
    assert!(matches!(
        listener.try_recv(),
        Ok(PlayerEvent::TrackSelectionChanged(_))
    ));
    let outcome = Err("no file".to_string());
    worker.finish_add_subtitle(&bench.engine, &mut player.inner, outcome, &mut reply);
    assert_eq!(answer.try_recv().unwrap(), Err("no file".to_string()));
    assert_eq!(
        listener.try_recv(),
        Ok(PlayerEvent::Error(PlayerError::Playback(
            "no file".to_string()
        )))
    );
    assert_eq!(worker.generation, 2);
}

#[test]
fn a_file_is_removed_by_the_worker() {
    let mut bench = bench();
    bench
        .engine
        .session
        .add_external_subtitle(file_session(1_000_000));
    let mut player = player();
    let subtitles = player.subscribe_subtitle_frames();
    let mut worker = PlaybackWorker::new(1, now());
    let at = reading(now());
    worker.remove_subtitle(&mut bench.engine, &mut player.inner, 1_000_000, at);
    assert_eq!(worker.generation, 2);
    assert_eq!(subtitles.try_recv().unwrap().frame.track_id, 1_000_000);
    assert_eq!(bench.engine.session.info.tracks.len(), 4);
    player.inner.outbox.clear();
    worker.remove_subtitle(&mut bench.engine, &mut player.inner, 3, at);
    assert_eq!(worker.generation, 2);
    assert!(matches!(
        player.inner.outbox[0],
        PlayerEvent::Error(PlayerError::Playback(_))
    ));
}

#[test]
fn subtitles_go_out_with_the_timeline_of_the_worker() {
    let mut bench = bench();
    let mut player = player();
    let subtitles = player.subscribe_subtitle_frames();
    let worker = PlaybackWorker::new(3, now());
    let frame = TimedSubtitleFrame {
        frame: shown_at(3, Some(Duration::from_secs(1))),
        pts: Some(Duration::from_secs(1)),
        media_time: Duration::from_secs(1),
        late_by: None,
    };
    let at = reading(now());
    worker.subtitle_ticked(&mut bench.engine, &mut player.inner, Ok(Some(frame)), at);
    assert_eq!(subtitles.try_recv().unwrap().generation, 3);
    worker.subtitle_ticked(&mut bench.engine, &mut player.inner, Ok(None), at);
    assert!(subtitles.try_recv().is_err());
    let outcome = Err("broken".to_string());
    worker.subtitle_ticked(&mut bench.engine, &mut player.inner, outcome, at);
    assert_eq!(player.state(), PlayerState::Error);
}

#[test]
fn a_decoder_that_could_not_be_replaced_ends_playback() {
    let mut bench = bench();
    let mut player = player();
    let worker = PlaybackWorker::new(1, now());
    let failure = VideoFrameImportFailure {
        decode_backend: DecoderBackend::MediaCodec,
        mediacodec_surface: true,
        codec: None,
        pixel_format: None,
        line_sizes: [0; 4],
        width: 1,
        height: 1,
        generation: 1,
        reason: "refused".to_string(),
    };
    let at = reading(now());
    worker.finish_import_failure(
        &mut bench.engine,
        &mut player.inner,
        &failure,
        Ok(()),
        at,
    );
    assert!(player.inner.outbox.is_empty());
    worker.finish_import_failure(
        &mut bench.engine,
        &mut player.inner,
        &failure,
        Err("no software".to_string()),
        at,
    );
    assert_eq!(player.state(), PlayerState::Error);
    assert!(matches!(
        &player.inner.outbox[0],
        PlayerEvent::Error(PlayerError::Renderer(text)) if text.contains("no software")
    ));
}

#[test]
fn suspension_is_answered() {
    let worker = PlaybackWorker::new(1, now());
    let (reply, answer) = bounded(2);
    let mut reply = Outlet::over(reply);
    worker.finish_suspend(Ok(()), &mut reply);
    worker.finish_suspend(Err("no decoder".to_string()), &mut reply);
    assert_eq!(answer.try_recv().unwrap(), Ok(()));
    assert_eq!(answer.try_recv().unwrap(), Err("no decoder".to_string()));
}

#[test]
fn a_command_is_executed_once() {
    let mut worker = PlaybackWorker::new(1, now());
    assert!(matches!(
        worker.take_play(5, 1, PlaybackRunState::Stopped),
        CommandStep::Play { sequence: 5, .. }
    ));
    assert!(matches!(
        worker.take_play(5, 1, PlaybackRunState::Stopped),
        CommandStep::Done
    ));
    assert!(matches!(
        worker.take_play(4, 1, PlaybackRunState::Stopped),
        CommandStep::Done
    ));
    assert_eq!(
        worker.poll_interval(&bench().engine),
        Duration::from_millis(50)
    );
}

#[test]
fn marks_follow_the_selection() {
    let mut tracks = movie().probe.tracks;
    erika::media::mark_selected_tracks(&mut tracks, None, Some(2), None);
    let marks: Vec<bool> = tracks.iter().map(|t: &TrackInfo| t.selected).collect();
    assert_eq!(marks, vec![false, false, true, false]);
}
