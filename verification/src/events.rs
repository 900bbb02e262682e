//! What the player tells those who listen.
use crate::decoder::DecoderBackend;
use crate::media::{PlayerError, PlayerState, TrackInfo, TrackSelection, VideoParams};
use crate::surface::PlatformSurface;
use crate::text::copied_text;
use crate::time::Duration;
use vstd::prelude::*;

verus! {

/// The value of one field of a structured message.
#[derive(Debug, PartialEq, Eq)]
pub enum FieldValue {
    Text(String),
    Count(u64),
    Number(i64),
    Truth(bool),
    Numbers(Vec<i32>),
    Absent,
}

/// What a field of a structured message says.
pub ghost enum FieldContent {
    Text(Seq<char>),
    Number(int),
    Truth(bool),
    Numbers(Seq<i32>),
    Absent,
}

impl FieldValue {
    pub open spec fn content(self) -> FieldContent {
        match self {
            FieldValue::Text(text) => FieldContent::Text(text@),
            FieldValue::Count(n) => FieldContent::Number(n as int),
            FieldValue::Number(n) => FieldContent::Number(n as int),
            FieldValue::Truth(b) => FieldContent::Truth(b),
            FieldValue::Numbers(list) => FieldContent::Numbers(list@),
            FieldValue::Absent => FieldContent::Absent,
        }
    }
}

/// The names and contents of a run of fields.
pub open spec fn contents(fields: Seq<(&'static str, FieldValue)>) -> Seq<(Seq<char>, FieldContent)> {
    fields.map_values(|field: (&'static str, FieldValue)| (field.0@, field.1.content()))
}

/// The text that `serde_json` writes for an object with these fields.
pub uninterp spec fn json_object(fields: Seq<(Seq<char>, FieldContent)>) -> Seq<char>;

/// Builds a `serde_json::Value` object out of the fields, by `serde_json::Map::insert`, and writes
/// it by the value's `to_string`. The text depends on the names and values of the fields alone;
/// how it is laid out, ordered and escaped is left to `serde_json`.
#[verifier::external_body]
fn json_object_text(fields: &Vec<(&'static str, FieldValue)>) -> (r: String)
    ensures
        r@ == json_object(contents(fields@)),
{
    let mut object = serde_json::Map::new();
    for (name, value) in fields {
        let value = match value {
            FieldValue::Text(text) => serde_json::Value::from(text.as_str()),
            FieldValue::Count(n) => serde_json::Value::from(*n),
            FieldValue::Number(n) => serde_json::Value::from(*n),
            FieldValue::Truth(b) => serde_json::Value::from(*b),
            FieldValue::Numbers(list) => serde_json::Value::from(list.clone()),
            FieldValue::Absent => serde_json::Value::Null,
        };
        object.insert(name.to_string(), value);
    }
    serde_json::Value::Object(object).to_string()
}

/// What an optional text says in a message.
pub open spec fn optional_text(text: Option<String>) -> FieldContent {
    match text {
        Some(text) => FieldContent::Text(text@),
        None => FieldContent::Absent,
    }
}

fn text_field(text: &str) -> (r: FieldValue)
    ensures
        r.content() == FieldContent::Text(text@),
{
    FieldValue::Text(text.to_owned())
}

fn optional_field(text: &Option<String>) -> (r: FieldValue)
    ensures
        r.content() == optional_text(*text),
{
    match text {
        Some(text) => FieldValue::Text(text.clone()),
        None => FieldValue::Absent,
    }
}

fn numbers_field(numbers: &[i32; 4]) -> (r: FieldValue)
    ensures
        r.content() == FieldContent::Numbers(numbers@),
{
    let mut list: Vec<i32> = Vec::new();
    list.push(numbers[0]);
    list.push(numbers[1]);
    list.push(numbers[2]);
    list.push(numbers[3]);
    assert(list@ =~= numbers@);
    FieldValue::Numbers(list)
}

/// A decoded picture that a renderer could not take.
#[derive(Clone, Debug, PartialEq, Eq)]
pub struct VideoFrameImportFailure {
    pub decode_backend: DecoderBackend,
    pub mediacodec_surface: bool,
    pub codec: Option<String>,
    pub pixel_format: Option<String>,
    pub line_sizes: [i32; 4],
    pub width: u32,
    pub height: u32,
    pub generation: u64,
    pub reason: String,
}

impl VideoFrameImportFailure {
    /// What the structured message says, field by field.
    pub open spec fn fields(self) -> Seq<(Seq<char>, FieldContent)> {
        seq![
            ("event"@, FieldContent::Text("video_frame_import_failure"@)),
            ("backend"@, FieldContent::Text(self.decode_backend.name())),
            ("mediaCodecSurface"@, FieldContent::Truth(self.mediacodec_surface)),
            ("codec"@, optional_text(self.codec)),
            ("pixelFormat"@, optional_text(self.pixel_format)),
            ("lineSizes"@, FieldContent::Numbers(self.line_sizes@)),
            ("width"@, FieldContent::Number(self.width as int)),
            ("height"@, FieldContent::Number(self.height as int)),
            ("generation"@, FieldContent::Number(self.generation as int)),
            ("reason"@, FieldContent::Text(self.reason@)),
        ]
    }

    fn message_fields(&self) -> (r: Vec<(&'static str, FieldValue)>)
        ensures
            contents(r@) == self.fields(),
    {
        let mut fields: Vec<(&'static str, FieldValue)> = Vec::new();
        fields.push(("event", text_field("video_frame_import_failure")));
        fields.push(("backend", text_field(self.decode_backend.as_str())));
        fields.push(("mediaCodecSurface", FieldValue::Truth(self.mediacodec_surface)));
        fields.push(("codec", optional_field(&self.codec)));
        fields.push(("pixelFormat", optional_field(&self.pixel_format)));
        fields.push(("lineSizes", numbers_field(&self.line_sizes)));
        fields.push(("width", FieldValue::Count(self.width as u64)));
        fields.push(("height", FieldValue::Count(self.height as u64)));
        fields.push(("generation", FieldValue::Count(self.generation)));
        fields.push(("reason", text_field(self.reason.as_str())));
        assert(contents(fields@) =~= self.fields());
        fields
    }

    pub fn structured_message(&self) -> (r: String)
        ensures
            r@ == json_object(self.fields()),
    {
        json_object_text(&self.message_fields())
    }
}

/// A change of the video decoder.
#[derive(Clone, Debug, PartialEq, Eq)]
pub struct VideoDecoderEvent {
    pub stage: String,
    pub requested_backend: DecoderBackend,
    pub previous_backend: Option<DecoderBackend>,
    pub active_backend: DecoderBackend,
    pub fallback_count: u64,
    pub codec: Option<String>,
    pub pixel_format: Option<String>,
    pub line_sizes: Option<[i32; 4]>,
    pub reason: Option<String>,
}

impl VideoDecoderEvent {
    /// What the structured message says, field by field.
    pub open spec fn fields(self) -> Seq<(Seq<char>, FieldContent)> {
        seq![
            ("event"@, FieldContent::Text("video_decoder_changed"@)),
            ("stage"@, FieldContent::Text(self.stage@)),
            ("requestedBackend"@, FieldContent::Text(self.requested_backend.name())),
            (
                "previousBackend"@,
                match self.previous_backend {
                    Some(backend) => FieldContent::Text(backend.name()),
                    None => FieldContent::Absent,
                },
            ),
            ("activeBackend"@, FieldContent::Text(self.active_backend.name())),
            ("fallbackCount"@, FieldContent::Number(self.fallback_count as int)),
            ("codec"@, optional_text(self.codec)),
            ("pixelFormat"@, optional_text(self.pixel_format)),
            (
                "lineSizes"@,
                match self.line_sizes {
                    Some(line_sizes) => FieldContent::Numbers(line_sizes@),
                    None => FieldContent::Absent,
                },
            ),
            ("reason"@, optional_text(self.reason)),
        ]
    }

    fn message_fields(&self) -> (r: Vec<(&'static str, FieldValue)>)
        ensures
            contents(r@) == self.fields(),
    {
        let mut fields: Vec<(&'static str, FieldValue)> = Vec::new();
        fields.push(("event", text_field("video_decoder_changed")));
        fields.push(("stage", text_field(self.stage.as_str())));
        fields.push(("requestedBackend", text_field(self.requested_backend.as_str())));
        fields.push(
            (
                "previousBackend",
                match self.previous_backend {
                    Some(backend) => text_field(backend.as_str()),
                    None => FieldValue::Absent,
                },
            ),
        );
        fields.push(("activeBackend", text_field(self.active_backend.as_str())));
        fields.push(("fallbackCount", FieldValue::Count(self.fallback_count)));
        fields.push(("codec", optional_field(&self.codec)));
        fields.push(("pixelFormat", optional_field(&self.pixel_format)));
        fields.push(
            (
                "lineSizes",
                match &self.line_sizes {
                    Some(line_sizes) => numbers_field(line_sizes),
                    None => FieldValue::Absent,
                },
            ),
        );
        fields.push(("reason", optional_field(&self.reason)));
        assert(contents(fields@) =~= self.fields());
        fields
    }

    pub fn structured_message(&self) -> (r: String)
        ensures
            r@ == json_object(self.fields()),
    {
        json_object_text(&self.message_fields())
    }

    pub fn duplicate(&self) -> (r: Self)
        ensures
            r == *self,
    {
        VideoDecoderEvent {
            stage: self.stage.clone(),
            requested_backend: self.requested_backend,
            previous_backend: self.previous_backend,
            active_backend: self.active_backend,
            fallback_count: self.fallback_count,
            codec: copied_text(&self.codec),
            pixel_format: copied_text(&self.pixel_format),
            line_sizes: self.line_sizes,
            reason: copied_text(&self.reason),
        }
    }
}

/// What the audio output counts of its own work.
#[derive(Clone, Debug, PartialEq, Eq)]
pub struct AudioOutputRuntimeStats {
    /// The name of the state that the output's recovery is in.
    pub recovery_state: String,
    pub last_error_code: i32,
    pub recovery_attempts: u64,
    pub recovery_count: u64,
    pub recovery_failures: u64,
    pub transition_sequence: u64,
}

/// A change of the audio output.
#[derive(Clone, Debug, PartialEq, Eq)]
pub struct AudioOutputEvent {
    pub stats: AudioOutputRuntimeStats,
}

impl AudioOutputEvent {
    /// What the structured message says, field by field.
    pub open spec fn fields(self) -> Seq<(Seq<char>, FieldContent)> {
        seq![
            ("event"@, FieldContent::Text("audio_output_changed"@)),
            ("recoveryState"@, FieldContent::Text(self.stats.recovery_state@)),
            ("lastErrorCode"@, FieldContent::Number(self.stats.last_error_code as int)),
            ("recoveryAttempts"@, FieldContent::Number(self.stats.recovery_attempts as int)),
            ("recoveryCount"@, FieldContent::Number(self.stats.recovery_count as int)),
            ("recoveryFailures"@, FieldContent::Number(self.stats.recovery_failures as int)),
            ("transitionSequence"@, FieldContent::Number(self.stats.transition_sequence as int)),
        ]
    }

    fn message_fields(&self) -> (r: Vec<(&'static str, FieldValue)>)
        ensures
            contents(r@) == self.fields(),
    {
        let mut fields: Vec<(&'static str, FieldValue)> = Vec::new();
        fields.push(("event", text_field("audio_output_changed")));
        fields.push(("recoveryState", text_field(self.stats.recovery_state.as_str())));
        fields.push(("lastErrorCode", FieldValue::Number(self.stats.last_error_code as i64)));
        fields.push(("recoveryAttempts", FieldValue::Count(self.stats.recovery_attempts)));
        fields.push(("recoveryCount", FieldValue::Count(self.stats.recovery_count)));
        fields.push(("recoveryFailures", FieldValue::Count(self.stats.recovery_failures)));
        fields.push(("transitionSequence", FieldValue::Count(self.stats.transition_sequence)));
        assert(contents(fields@) =~= self.fields());
        fields
    }

    pub fn structured_message(&self) -> (r: String)
        ensures
            r@ == json_object(self.fields()),
    {
        json_object_text(&self.message_fields())
    }

    pub fn duplicate(&self) -> (r: Self)
        ensures
            r == *self,
    {
        AudioOutputEvent {
            stats: AudioOutputRuntimeStats {
                recovery_state: self.stats.recovery_state.clone(),
                last_error_code: self.stats.last_error_code,
                recovery_attempts: self.stats.recovery_attempts,
                recovery_count: self.stats.recovery_count,
                recovery_failures: self.stats.recovery_failures,
                transition_sequence: self.stats.transition_sequence,
            },
        }
    }
}

/// What the player tells those who listen.
#[derive(Clone, Debug, PartialEq, Eq)]
pub enum PlayerEvent {
    StateChanged(PlayerState),
    DurationChanged(Option<Duration>),
    PositionChanged(Duration),
    TracksChanged(Vec<TrackInfo>),
    TrackSelectionChanged(TrackSelection),
    BufferingChanged(bool),
    VideoParamsChanged(VideoParams),
    VideoDecoderChanged(VideoDecoderEvent),
    AudioOutputChanged(AudioOutputEvent),
    SurfaceAttached(PlatformSurface),
    SurfaceDetached,
    Error(PlayerError),
}

} // verus!
