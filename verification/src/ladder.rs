//! The ladder of decoders that is climbed down when a medium is opened.
use crate::decoder::{Decoder, DecoderBackend, DecoderConfig};
use crate::events::VideoDecoderEvent;
use crate::playback::{
    should_fallback_video_decoder_open_error, video_decoder_open_stage,
    video_decoder_open_unavailable_error, PlaybackError,
};
use crate::text::joined;
use vstd::prelude::*;

verus! {

/// Which rung is tried, and what the rungs above it said.
#[derive(Debug, PartialEq, Eq)]
pub enum Rung {
    First,
    /// Android's decoder without a surface, behind one with a surface.
    ByteBuffer { surface_error: String },
    Software { first_error: String },
    /// Software, behind both of Android's decoders.
    SoftwareLast { surface_error: String, byte_buffer_error: String },
}

/// The opening of a video decoder that is under way.
#[derive(Debug, PartialEq, Eq)]
pub struct DecoderLadder {
    pub config: DecoderConfig,
    pub codec: Option<String>,
    pub rung: Rung,
}

/// A video decoder that was opened.
#[derive(Debug, PartialEq, Eq)]
pub struct OpenedVideo {
    pub decoder: Decoder,
    pub event: VideoDecoderEvent,
    pub fallbacks: u64,
}

/// How an opening goes on.
#[derive(Debug)]
pub enum LadderStep {
    Open(DecoderLadder),
    Opened(OpenedVideo),
    Failed(PlaybackError),
}

/// The characters of a codec's name.
pub open spec fn codec_text(codec: Option<String>) -> Option<Seq<char>> {
    match codec {
        Some(codec) => Some(codec@),
        None => None,
    }
}

/// The stage under which a software decoder behind one other is reported.
pub open spec fn software_stage(backend: DecoderBackend) -> Seq<char> {
    match backend {
        DecoderBackend::MediaCodec => "open_bytebuffer_to_software"@,
        DecoderBackend::AvCodec => "open_avcodec_to_software"@,
        _ => "open"@,
    }
}

/// Whether an opening is reported.
pub open spec fn reports_opening(
    opened: OpenedVideo,
    ladder: DecoderLadder,
    decoder: Decoder,
    stage: Seq<char>,
    fallbacks: u64,
    reason: Option<Seq<char>>,
) -> bool {
    &&& opened.decoder == decoder
    &&& opened.fallbacks == fallbacks
    &&& opened.event.stage@ == stage
    &&& opened.event.requested_backend == ladder.config.backend
    &&& opened.event.previous_backend == (if fallbacks == 0 {
        None
    } else {
        Some(ladder.config.backend)
    })
    &&& opened.event.active_backend == decoder.backend
    &&& opened.event.fallback_count == fallbacks
    &&& opened.event.codec == ladder.codec
    &&& opened.event.pixel_format is None
    &&& opened.event.line_sizes is None
    &&& codec_text(opened.event.reason) == reason
}

impl DecoderLadder {
    pub fn begin(config: DecoderConfig, codec: Option<String>) -> (r: Self)
        ensures
            r == (DecoderLadder { config, codec, rung: Rung::First }),
    {
        DecoderLadder { config, codec, rung: Rung::First }
    }

    pub open spec fn wanted(self) -> DecoderConfig {
        match self.rung {
            Rung::First => self.config,
            Rung::ByteBuffer { .. } => crate::decoder::plain_config(DecoderBackend::MediaCodec),
            Rung::Software { .. } => crate::decoder::plain_config(DecoderBackend::Software),
            Rung::SoftwareLast { .. } => crate::decoder::plain_config(DecoderBackend::Software),
        }
    }

    /// The decoder that is to be opened.
    pub fn next_config(&self) -> (r: DecoderConfig)
        ensures
            r == self.wanted(),
    {
        match &self.rung {
            Rung::First => self.config,
            Rung::ByteBuffer { .. } => DecoderConfig::mediacodec_byte_buffer(),
            Rung::Software { .. } => DecoderConfig::software(),
            Rung::SoftwareLast { .. } => DecoderConfig::software(),
        }
    }

    fn opened(self, decoder: Decoder, stage: &str, fallbacks: u64, reason: Option<String>) -> (r:
        LadderStep)
        ensures
            r is Opened,
            reports_opening(r->Opened_0, self, decoder, stage@, fallbacks, codec_text(reason)),
    {
        let backend = self.config.backend;
        LadderStep::Opened(
            OpenedVideo {
                decoder,
                event: VideoDecoderEvent {
                    stage: stage.to_owned(),
                    requested_backend: backend,
                    previous_backend: if fallbacks == 0 {
                        None
                    } else {
                        Some(backend)
                    },
                    active_backend: decoder.backend(),
                    fallback_count: fallbacks,
                    codec: self.codec,
                    pixel_format: None,
                    line_sizes: None,
                    reason,
                },
                fallbacks,
            },
        )
    }

    /// What is reported when a decoder opened.
    pub open spec fn success_stage(self) -> Seq<char> {
        match self.rung {
            Rung::First => crate::playback::open_stage(self.config),
            Rung::ByteBuffer { .. } => "open_surface_to_bytebuffer"@,
            Rung::Software { .. } => software_stage(self.config.backend),
            Rung::SoftwareLast { .. } => "open_bytebuffer_to_software"@,
        }
    }

    pub open spec fn success_fallbacks(self) -> u64 {
        match self.rung {
            Rung::First => 0,
            Rung::ByteBuffer { .. } => 1,
            Rung::Software { .. } => 1,
            Rung::SoftwareLast { .. } => 2,
        }
    }

    pub open spec fn success_reason(self) -> Option<Seq<char>> {
        match self.rung {
            Rung::First => None,
            Rung::ByteBuffer { surface_error } => Some(surface_error@),
            Rung::Software { first_error } => Some(first_error@),
            Rung::SoftwareLast { surface_error, byte_buffer_error } => Some(
                "surface mode failed: "@ + surface_error@ + "; MediaCodec byte-buffer mode failed: "@
                    + byte_buffer_error@,
            ),
        }
    }

    /// The rung below, where there is one. A first decoder is left only for reasons that software
    /// can mend.
    pub open spec fn below(self, error: String) -> Option<DecoderLadder> {
        match self.rung {
            Rung::First => if !crate::playback::open_failure_falls_back(
                self.config.backend,
                codec_text(self.codec),
            ) {
                None
            } else if self.config.backend == DecoderBackend::MediaCodec
                && self.config.mediacodec_surface {
                Some(DecoderLadder { rung: Rung::ByteBuffer { surface_error: error }, ..self })
            } else {
                Some(DecoderLadder { rung: Rung::Software { first_error: error }, ..self })
            },
            Rung::ByteBuffer { surface_error } => Some(
                DecoderLadder {
                    rung: Rung::SoftwareLast { surface_error, byte_buffer_error: error },
                    ..self
                },
            ),
            Rung::Software { .. } => None,
            Rung::SoftwareLast { .. } => None,
        }
    }

    pub open spec fn failure_stage(self) -> Seq<char> {
        match self.rung {
            Rung::First => crate::playback::open_stage(self.config),
            Rung::Software { .. } => if self.config.backend == DecoderBackend::MediaCodec {
                "open_bytebuffer_to_software_failed"@
            } else {
                "open_software_fallback_failed"@
            },
            _ => "open_software_failed"@,
        }
    }

    pub open spec fn failure_text(self, error: Seq<char>) -> Seq<char> {
        match self.rung {
            Rung::Software { first_error } => self.config.backend.name() + " decoder open failed: "@
                + first_error@ + "; software decoder open failed: "@ + error,
            Rung::SoftwareLast { surface_error, byte_buffer_error } =>
                "MediaCodec Surface open failed: "@ + surface_error@
                + "; MediaCodec byte-buffer open failed: "@ + byte_buffer_error@
                + "; software decoder open failed: "@ + error,
            _ => self.config.backend.name() + " decoder open failed: "@ + error,
        }
    }

    /// Goes on when the decoder of this rung was opened, or was not; an error is given by its
    /// text.
    pub fn answer(self, opened: Result<Decoder, String>) -> (r: LadderStep)
        ensures
            opened is Ok ==> r is Opened && reports_opening(
                r->Opened_0,
                self,
                opened->Ok_0,
                self.success_stage(),
                self.success_fallbacks(),
                self.success_reason(),
            ),
            opened is Err ==> match self.below(opened->Err_0) {
                Some(next) => r == LadderStep::Open(next),
                None => r is Failed && crate::playback::unavailable_at(
                    r->Failed_0,
                    self.failure_stage(),
                    self.failure_text(opened->Err_0@),
                ),
            },
    {
        match opened {
            Ok(decoder) => self.answer_opened(decoder),
            Err(error) => self.answer_failed(error),
        }
    }

    fn answer_opened(self, decoder: Decoder) -> (r: LadderStep)
        ensures
            r is Opened,
            reports_opening(
                r->Opened_0,
                self,
                decoder,
                self.success_stage(),
                self.success_fallbacks(),
                self.success_reason(),
            ),
    {
        match &self.rung {
            Rung::First => {
                let stage = video_decoder_open_stage(self.config);
                self.opened(decoder, stage, 0, None)
            },
            Rung::ByteBuffer { surface_error } => {
                let reason = surface_error.clone();
                self.opened(decoder, "open_surface_to_bytebuffer", 1, Some(reason))
            },
            Rung::Software { first_error } => {
                let reason = first_error.clone();
                let stage = match self.config.backend {
                    DecoderBackend::MediaCodec => "open_bytebuffer_to_software",
                    DecoderBackend::AvCodec => "open_avcodec_to_software",
                    _ => "open",
                };
                self.opened(decoder, stage, 1, Some(reason))
            },
            Rung::SoftwareLast { surface_error, byte_buffer_error } => {
                let mut reason = joined("surface mode failed: ", surface_error.as_str());
                reason.append("; MediaCodec byte-buffer mode failed: ");
                reason.append(byte_buffer_error.as_str());
                self.opened(decoder, "open_bytebuffer_to_software", 2, Some(reason))
            },
        }
    }

    fn answer_failed(self, error: String) -> (r: LadderStep)
        ensures
            match self.below(error) {
                Some(next) => r == LadderStep::Open(next),
                None => r is Failed && crate::playback::unavailable_at(
                    r->Failed_0,
                    self.failure_stage(),
                    self.failure_text(error@),
                ),
            },
    {
        let DecoderLadder { config, codec, rung } = self;
        match rung {
            Rung::First => {
                let name = match &codec {
                    Some(codec) => Some(codec.as_str()),
                    None => None,
                };
                assert(crate::playback::text_of(name) == codec_text(codec));
                if !should_fallback_video_decoder_open_error(config.backend, name) {
                    let mut reason = joined(config.backend.as_str(), " decoder open failed: ");
                    reason.append(error.as_str());
                    return LadderStep::Failed(
                        video_decoder_open_unavailable_error(
                            video_decoder_open_stage(config),
                            reason.as_str(),
                        ),
                    );
                }
                let rung = if config.backend == DecoderBackend::MediaCodec
                    && config.mediacodec_surface {
                    Rung::ByteBuffer { surface_error: error }
                } else {
                    Rung::Software { first_error: error }
                };
                LadderStep::Open(DecoderLadder { config, codec, rung })
            },
            Rung::ByteBuffer { surface_error } => LadderStep::Open(
                DecoderLadder {
                    config,
                    codec,
                    rung: Rung::SoftwareLast { surface_error, byte_buffer_error: error },
                },
            ),
            Rung::Software { first_error } => {
                let mut reason = joined(config.backend.as_str(), " decoder open failed: ");
                reason.append(first_error.as_str());
                reason.append("; software decoder open failed: ");
                reason.append(error.as_str());
                let stage = if config.backend == DecoderBackend::MediaCodec {
                    "open_bytebuffer_to_software_failed"
                } else {
                    "open_software_fallback_failed"
                };
                LadderStep::Failed(video_decoder_open_unavailable_error(stage, reason.as_str()))
            },
            Rung::SoftwareLast { surface_error, byte_buffer_error } => {
                let mut reason = joined(
                    "MediaCodec Surface open failed: ",
                    surface_error.as_str(),
                );
                reason.append("; MediaCodec byte-buffer open failed: ");
                reason.append(byte_buffer_error.as_str());
                reason.append("; software decoder open failed: ");
                reason.append(error.as_str());
                LadderStep::Failed(
                    video_decoder_open_unavailable_error("open_software_failed", reason.as_str()),
                )
            },
        }
    }
}

/// The ladder has at most three rungs, and each is simpler than the one above: whatever fails,
/// the opening ends after three tries.
pub proof fn law_the_ladder_ends(ladder: DecoderLadder, first: String, second: String, third: String)
    requires
        ladder.rung is First,
    ensures
        ladder.below(first) is Some ==> crate::video::rung(ladder.below(first)->0.wanted())
            < crate::video::rung(ladder.wanted()),
        ladder.below(first) is Some && ladder.below(first)->0.below(second) is Some
            ==> crate::video::rung(ladder.below(first)->0.below(second)->0.wanted())
            < crate::video::rung(ladder.below(first)->0.wanted()),
        ladder.below(first) is Some && ladder.below(first)->0.below(second) is Some
            ==> ladder.below(first)->0.below(second)->0.below(third) is None,
{
}

/// A decoder that would not open is followed by a simpler one where there is one: a surface by its
/// own buffers, these by software, the others by software at once. Each step counts, and no other
/// part of the request changes.
pub proof fn law_a_rung_follows_the_one_above(ladder: DecoderLadder, error: String)
    ensures
        ladder.rung is Software || ladder.rung is SoftwareLast ==> ladder.below(error) is None,
        ladder.rung is ByteBuffer ==> ladder.below(error) is Some && ladder.below(
            error,
        )->0.wanted().backend == DecoderBackend::Software && ladder.below(
            error,
        )->0.success_fallbacks() == 2,
        ladder.rung is First && ladder.config.backend == DecoderBackend::Software ==> ladder.below(
            error,
        ) is None,
        ladder.rung is First && ladder.config.backend == DecoderBackend::MediaCodec
            ==> ladder.below(error) is Some && ladder.below(error)->0.success_fallbacks() == 1 && (
        ladder.config.mediacodec_surface ==> ladder.below(error)->0.wanted().backend
            == DecoderBackend::MediaCodec && !ladder.below(error)->0.wanted().mediacodec_surface)
            && (!ladder.config.mediacodec_surface ==> ladder.below(error)->0.wanted().backend
            == DecoderBackend::Software),
        ladder.rung is First && (ladder.config.backend == DecoderBackend::D3d11va
            || ladder.config.backend == DecoderBackend::AvCodec) ==> ladder.below(error) is Some
            && ladder.below(error)->0.wanted().backend == DecoderBackend::Software,
        ladder.below(error) is Some ==> ladder.below(error)->0.config == ladder.config
            && ladder.below(error)->0.codec == ladder.codec,
        ladder.rung is First ==> ladder.wanted() == ladder.config && ladder.success_fallbacks() == 0
            && ladder.success_reason() is None,
{
}

/// An opening is reported with the decoder that opened, with how many others were tried before it,
/// and with the one that was asked for.
pub proof fn law_an_opening_is_reported_as_it_went(
    opened: OpenedVideo,
    ladder: DecoderLadder,
    decoder: Decoder,
    stage: Seq<char>,
    fallbacks: u64,
    reason: Option<Seq<char>>,
)
    requires
        reports_opening(opened, ladder, decoder, stage, fallbacks, reason),
    ensures
        opened.decoder == decoder,
        opened.fallbacks == fallbacks,
        opened.event.fallback_count == fallbacks,
        opened.event.active_backend == decoder.backend,
        opened.event.requested_backend == ladder.config.backend,
        opened.event.previous_backend is Some <==> fallbacks > 0,
        fallbacks > 0 ==> opened.event.previous_backend == Some(ladder.config.backend),
        opened.event.reason is Some <==> reason is Some,
        opened.event.codec == ladder.codec,
        opened.event.stage@ == stage,
{
}

} // verus!
