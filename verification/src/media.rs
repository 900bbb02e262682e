//! Media requests, tracks and the states of a player.
use crate::text::copied_text;
use crate::text::joined;
use vstd::prelude::*;

verus! {

#[derive(Clone, Copy, Debug, PartialEq, Eq, Structural)]
pub enum PlayerState {
    Idle,
    Opening,
    Ready,
    Playing,
    Paused,
    Stopped,
    Closed,
    Error,
}

impl PlayerState {
    /// The name of the state.
    pub open spec fn name(self) -> Seq<char> {
        match self {
            PlayerState::Idle => "Idle"@,
            PlayerState::Opening => "Opening"@,
            PlayerState::Ready => "Ready"@,
            PlayerState::Playing => "Playing"@,
            PlayerState::Paused => "Paused"@,
            PlayerState::Stopped => "Stopped"@,
            PlayerState::Closed => "Closed"@,
            PlayerState::Error => "Error"@,
        }
    }

    pub fn as_str(self) -> (r: &'static str)
        ensures
            r@ == self.name(),
    {
        match self {
            PlayerState::Idle => "Idle",
            PlayerState::Opening => "Opening",
            PlayerState::Ready => "Ready",
            PlayerState::Playing => "Playing",
            PlayerState::Paused => "Paused",
            PlayerState::Stopped => "Stopped",
            PlayerState::Closed => "Closed",
            PlayerState::Error => "Error",
        }
    }
}

#[derive(Clone, Debug, PartialEq, Eq)]
pub enum PlayerError {
    Closed,
    InvalidStateTransition { from: PlayerState, to: PlayerState },
    Renderer(String),
    RendererBackpressure(String),
    Source(String),
    Playback(String),
}

impl PlayerError {
    /// The text that describes the error.
    pub open spec fn text(self) -> Seq<char> {
        match self {
            PlayerError::Closed => "player is closed"@,
            PlayerError::InvalidStateTransition { from, to } => "invalid state transition from "@
                + from.name() + " to "@ + to.name(),
            PlayerError::Renderer(reason) => "renderer error: "@ + reason@,
            PlayerError::RendererBackpressure(reason) => "renderer backpressure: "@ + reason@,
            PlayerError::Source(reason) => "source error: "@ + reason@,
            PlayerError::Playback(reason) => "playback error: "@ + reason@,
        }
    }

    pub fn message(&self) -> (r: String)
        ensures
            r@ == self.text(),
    {
        match self {
            PlayerError::Closed => "player is closed".to_owned(),
            PlayerError::InvalidStateTransition { from, to } => {
                let mut out = joined("invalid state transition from ", from.as_str());
                out.append(" to ");
                out.append(to.as_str());
                out
            },
            PlayerError::Renderer(reason) => joined("renderer error: ", reason.as_str()),
            PlayerError::RendererBackpressure(reason) => joined(
                "renderer backpressure: ",
                reason.as_str(),
            ),
            PlayerError::Source(reason) => joined("source error: ", reason.as_str()),
            PlayerError::Playback(reason) => joined("playback error: ", reason.as_str()),
        }
    }
}

#[derive(Clone, Copy, Debug, PartialEq, Eq, Structural)]
pub enum RendererBackendPreference {
    PlatformNative,
    FlutterTexture,
    WgpuFallback,
    Auto,
}

impl Default for RendererBackendPreference {
    fn default() -> (r: Self)
        ensures
            r == RendererBackendPreference::Auto,
    {
        RendererBackendPreference::Auto
    }
}

#[derive(Clone, Copy, Debug, PartialEq, Eq, Structural)]
pub enum MediaSourceHint {
    Auto,
    LocalFile,
    Http,
}

/// A request to open a medium.
///
/// The headers may carry credentials, so a request has no debug text of its own: see
/// [`MediaRequest::redacted_headers`].
#[derive(Clone, PartialEq, Eq)]
pub struct MediaRequest {
    pub uri: String,
    pub source_hint: MediaSourceHint,
    pub http_headers: Vec<(String, String)>,
}

impl MediaRequest {
    pub fn new(uri: &str) -> (r: Self)
        ensures
            r.uri@ == uri@,
            r.source_hint == MediaSourceHint::Auto,
            r.http_headers@.len() == 0,
    {
        MediaRequest {
            uri: uri.to_owned(),
            source_hint: MediaSourceHint::Auto,
            http_headers: Vec::new(),
        }
    }

    pub fn with_http_headers(self, http_headers: Vec<(String, String)>) -> (r: Self)
        ensures
            r == (MediaRequest { http_headers, ..self }),
    {
        MediaRequest { uri: self.uri, source_hint: self.source_hint, http_headers }
    }

    /// The headers as they may be logged: every name, and no value.
    pub fn redacted_headers(&self) -> (r: Vec<(String, String)>)
        ensures
            r@.len() == self.http_headers@.len(),
            forall|i: int|
                0 <= i < r@.len() ==> (#[trigger] r@[i]).0 == self.http_headers@[i].0 && r@[i].1@
                    == "REDACTED"@,
    {
        let mut out: Vec<(String, String)> = Vec::new();
        let mut i: usize = 0;
        while i < self.http_headers.len()
            invariant
                i <= self.http_headers@.len(),
                out@.len() == i,
                forall|j: int|
                    0 <= j < i ==> (#[trigger] out@[j]).0 == self.http_headers@[j].0 && out@[j].1@
                        == "REDACTED"@,
            decreases self.http_headers@.len() - i,
        {
            out.push((self.http_headers[i].0.clone(), "REDACTED".to_owned()));
            i = i + 1;
        }
        out
    }
}

#[derive(Clone, Copy, Debug, PartialEq, Eq, Structural)]
pub enum TrackKind {
    Video,
    Audio,
    Subtitle,
}

#[derive(Clone, Copy, Debug, PartialEq, Eq, Structural)]
pub enum TrackSource {
    Embedded,
    External,
}

impl Default for TrackSource {
    fn default() -> (r: Self)
        ensures
            r == TrackSource::Embedded,
    {
        TrackSource::Embedded
    }
}

/// A frame rate in lowest terms.
#[derive(Clone, Copy, Debug, PartialEq, Eq, Structural)]
pub struct FrameRate {
    pub numerator: u32,
    pub denominator: u32,
}

/// Whether `d` divides both numbers.
pub open spec fn divides_both(d: int, a: int, b: int) -> bool {
    a % d == 0 && b % d == 0
}

/// Whether `g` is the greatest common divisor of two numbers: it divides both, and so it is
/// divided by every number that does.
pub open spec fn is_greatest_common_divisor(g: int, a: int, b: int) -> bool {
    &&& g > 0
    &&& divides_both(g, a, b)
    &&& forall|d: int| d > 0 && #[trigger] divides_both(d, a, b) ==> g % d == 0
}

proof fn lemma_remainder_keeps_divisors(a: int, b: int, d: int)
    requires
        b > 0,
        d > 0,
        a >= 0,
    ensures
        divides_both(d, a, b) <==> divides_both(d, b, a % b),
{
    if b % d == 0 {
        vstd::arithmetic::div_mod::lemma_fundamental_div_mod(a, b);
        vstd::arithmetic::div_mod::lemma_fundamental_div_mod(b, d);
        let k = b / d;
        let q = a / b;
        let r = a % b;
        assert(b == d * k);
        assert(a == d * (k * q) + r) by (nonlinear_arith)
            requires
                a == b * q + r,
                b == d * k,
        ;
        vstd::arithmetic::div_mod::lemma_mod_multiples_vanish(k * q, r, d);
    }
}

/// The greatest common divisor of two numbers that are not both zero, and zero otherwise.
pub fn greatest_common_divisor(left: u32, right: u32) -> (r: u32)
    ensures
        left > 0 || right > 0 ==> is_greatest_common_divisor(r as int, left as int, right as int),
        left == 0 && right == 0 ==> r == 0,
{
    let mut a: u32 = left;
    let mut b: u32 = right;
    while b != 0
        invariant
            forall|d: int|
                d > 0 ==> (#[trigger] divides_both(d, left as int, right as int) <==> divides_both(
                    d,
                    a as int,
                    b as int,
                )),
            a > 0 || b > 0 <==> left > 0 || right > 0,
        decreases b,
    {
        proof {
            assert forall|d: int| d > 0 implies (#[trigger] divides_both(
                d,
                left as int,
                right as int,
            ) <==> divides_both(d, b as int, (a as int) % (b as int))) by {
                lemma_remainder_keeps_divisors(a as int, b as int, d);
            }
        }
        let remainder: u32 = a % b;
        a = b;
        b = remainder;
    }
    proof {
        if left > 0 || right > 0 {
            assert(divides_both(a as int, a as int, 0));
            assert(divides_both(a as int, left as int, right as int));
            assert forall|d: int| d > 0 && #[trigger] divides_both(
                d,
                left as int,
                right as int,
            ) implies (a as int) % d == 0 by {
                assert(divides_both(d, a as int, b as int));
            }
        }
    }
    a
}

impl FrameRate {
    /// The ratio in lowest terms; a ratio with a zero in it is no frame rate.
    pub fn new(numerator: u32, denominator: u32) -> (r: Option<Self>)
        ensures
            r is Some <==> numerator != 0 && denominator != 0,
            r matches Some(rate) ==> {
                &&& rate.numerator > 0
                &&& rate.denominator > 0
                &&& rate.numerator * denominator == rate.denominator * numerator
                &&& forall|d: int|
                    d > 0 && #[trigger] divides_both(
                        d,
                        rate.numerator as int,
                        rate.denominator as int,
                    ) ==> d == 1
            },
    {
        if numerator == 0 || denominator == 0 {
            return None;
        }
        let divisor: u32 = greatest_common_divisor(numerator, denominator);
        let rate = FrameRate {
            numerator: numerator / divisor,
            denominator: denominator / divisor,
        };
        proof {
            let g = divisor as int;
            let n = numerator as int;
            let m = denominator as int;
            let p = rate.numerator as int;
            let q = rate.denominator as int;
            vstd::arithmetic::div_mod::lemma_fundamental_div_mod(n, g);
            vstd::arithmetic::div_mod::lemma_fundamental_div_mod(m, g);
            assert(n == g * p && m == g * q);
            assert(p * m == q * n) by (nonlinear_arith)
                requires
                    n == g * p,
                    m == g * q,
            ;
            assert(p > 0 && q > 0) by (nonlinear_arith)
                requires
                    n == g * p,
                    m == g * q,
                    n > 0,
                    m > 0,
                    g > 0,
            ;
            assert forall|d: int| d > 0 && #[trigger] divides_both(d, p, q) implies d == 1 by {
                vstd::arithmetic::div_mod::lemma_fundamental_div_mod(p, d);
                vstd::arithmetic::div_mod::lemma_fundamental_div_mod(q, d);
                let e = g * d;
                assert(e > 0) by (nonlinear_arith)
                    requires
                        e == g * d,
                        g > 0,
                        d > 0,
                ;
                assert(n == e * (p / d) + 0) by (nonlinear_arith)
                    requires
                        n == g * p,
                        p == d * (p / d),
                        e == g * d,
                ;
                assert(m == e * (q / d) + 0) by (nonlinear_arith)
                    requires
                        m == g * q,
                        q == d * (q / d),
                        e == g * d,
                ;
                vstd::arithmetic::div_mod::lemma_mod_multiples_vanish(p / d, 0, e);
                vstd::arithmetic::div_mod::lemma_mod_multiples_vanish(q / d, 0, e);
                assert(divides_both(e, n, m));
                vstd::arithmetic::div_mod::lemma_fundamental_div_mod(g, e);
                assert(d == 1) by (nonlinear_arith)
                    requires
                        g == e * (g / e),
                        e == g * d,
                        g > 0,
                        d > 0,
                ;
            }
        }
        Some(rate)
    }
}

/// What is known of a track.
#[derive(Clone, Debug, PartialEq, Eq)]
pub struct TrackInfo {
    pub id: i64,
    pub kind: TrackKind,
    pub title: Option<String>,
    pub language: Option<String>,
    pub codec: Option<String>,
    pub width: u32,
    pub height: u32,
    pub sample_rate: u32,
    pub channels: u32,
    pub pixel_format: Option<String>,
    pub sample_format: Option<String>,
    pub profile: Option<String>,
    pub level: Option<i32>,
    pub bit_rate: Option<u64>,
    pub frame_rate: Option<FrameRate>,
    pub selected: bool,
    pub source: TrackSource,
    pub can_remove: bool,
}

/// A track of which only its id, its kind and where it comes from are known.
pub open spec fn bare_track(id: i64, kind: TrackKind, source: TrackSource) -> TrackInfo {
    TrackInfo {
        id,
        kind,
        title: None,
        language: None,
        codec: None,
        width: 0,
        height: 0,
        sample_rate: 0,
        channels: 0,
        pixel_format: None,
        sample_format: None,
        profile: None,
        level: None,
        bit_rate: None,
        frame_rate: None,
        selected: false,
        source,
        can_remove: source == TrackSource::External,
    }
}

impl TrackInfo {
    pub fn embedded(id: i64, kind: TrackKind) -> (r: Self)
        ensures
            r == bare_track(id, kind, TrackSource::Embedded),
    {
        TrackInfo {
            id,
            kind,
            title: None,
            language: None,
            codec: None,
            width: 0,
            height: 0,
            sample_rate: 0,
            channels: 0,
            pixel_format: None,
            sample_format: None,
            profile: None,
            level: None,
            bit_rate: None,
            frame_rate: None,
            selected: false,
            source: TrackSource::Embedded,
            can_remove: false,
        }
    }

    pub fn external(id: i64, kind: TrackKind) -> (r: Self)
        ensures
            r == bare_track(id, kind, TrackSource::External),
    {
        let mut track = TrackInfo::embedded(id, kind);
        track.source = TrackSource::External;
        track.can_remove = true;
        track
    }

    /// A copy of the track.
    pub fn duplicate(&self) -> (r: Self)
        ensures
            r == *self,
    {
        TrackInfo {
            id: self.id,
            kind: self.kind,
            title: copied_text(&self.title),
            language: copied_text(&self.language),
            codec: copied_text(&self.codec),
            width: self.width,
            height: self.height,
            sample_rate: self.sample_rate,
            channels: self.channels,
            pixel_format: copied_text(&self.pixel_format),
            sample_format: copied_text(&self.sample_format),
            profile: copied_text(&self.profile),
            level: self.level,
            bit_rate: self.bit_rate,
            frame_rate: self.frame_rate,
            selected: self.selected,
            source: self.source,
            can_remove: self.can_remove,
        }
    }
}

/// A copy of a list of tracks.
pub fn duplicate_tracks(tracks: &Vec<TrackInfo>) -> (r: Vec<TrackInfo>)
    ensures
        r@ == tracks@,
{
    let mut out: Vec<TrackInfo> = Vec::new();
    let mut i: usize = 0;
    while i < tracks.len()
        invariant
            i <= tracks@.len(),
            out@ =~= tracks@.subrange(0, i as int),
        decreases tracks@.len() - i,
    {
        out.push(tracks[i].duplicate());
        i = i + 1;
    }
    assert(tracks@.subrange(0, tracks@.len() as int) =~= tracks@);
    out
}

#[derive(Clone, Copy, Debug, PartialEq, Eq, Structural)]
pub struct TrackSelection {
    pub video: Option<i64>,
    pub audio: Option<i64>,
    pub subtitle: Option<i64>,
}

/// The selection of no track.
pub open spec fn no_selection() -> TrackSelection {
    TrackSelection { video: None, audio: None, subtitle: None }
}

impl Default for TrackSelection {
    fn default() -> (r: Self)
        ensures
            r == no_selection(),
    {
        TrackSelection { video: None, audio: None, subtitle: None }
    }
}

impl TrackSelection {
    /// The track that is selected of a kind.
    pub open spec fn of_kind(self, kind: TrackKind) -> Option<i64> {
        match kind {
            TrackKind::Video => self.video,
            TrackKind::Audio => self.audio,
            TrackKind::Subtitle => self.subtitle,
        }
    }
}

/// A track with its mark set where the selection names it.
pub open spec fn marked(track: TrackInfo, selection: TrackSelection) -> TrackInfo {
    TrackInfo { selected: selection.of_kind(track.kind) == Some(track.id), ..track }
}

/// Marks exactly the selected tracks.
pub fn mark_selected_tracks(
    tracks: &mut Vec<TrackInfo>,
    selected_video: Option<i64>,
    selected_audio: Option<i64>,
    selected_subtitle: Option<i64>,
)
    ensures
        ({
            let selection = TrackSelection {
                video: selected_video,
                audio: selected_audio,
                subtitle: selected_subtitle,
            };
            final(tracks)@ == old(tracks)@.map_values(|track: TrackInfo| marked(track, selection))
        }),
{
    let ghost before = tracks@;
    let ghost selection = TrackSelection {
        video: selected_video,
        audio: selected_audio,
        subtitle: selected_subtitle,
    };
    let mut i: usize = 0;
    while i < tracks.len()
        invariant
            i <= tracks@.len(),
            tracks@.len() == before.len(),
            selection == (TrackSelection {
                video: selected_video,
                audio: selected_audio,
                subtitle: selected_subtitle,
            }),
            forall|j: int| 0 <= j < i ==> #[trigger] tracks@[j] == marked(before[j], selection),
            forall|j: int| i <= j < before.len() ==> #[trigger] tracks@[j] == before[j],
        decreases tracks@.len() - i,
    {
        let wanted = match tracks[i].kind {
            TrackKind::Video => selected_video,
            TrackKind::Audio => selected_audio,
            TrackKind::Subtitle => selected_subtitle,
        };
        let chosen = match wanted {
            Some(id) => id == tracks[i].id,
            None => false,
        };
        let mut track = tracks[i].duplicate();
        track.selected = chosen;
        tracks.set(i, track);
        i = i + 1;
    }
    assert(tracks@ =~= before.map_values(|track: TrackInfo| marked(track, selection)));
}

#[derive(Clone, Copy, Debug, PartialEq, Eq, Structural)]
pub enum ColorPrimaries {
    Unknown,
    Bt709,
    DisplayP3,
    Bt2020,
}

#[derive(Clone, Copy, Debug, PartialEq, Eq, Structural)]
pub enum TransferFunction {
    Unknown,
    Srgb,
    Bt1886,
    Pq,
    Hlg,
}

#[derive(Clone, Copy, Debug, PartialEq, Eq, Structural)]
pub struct VideoParams {
    pub width: u32,
    pub height: u32,
    pub primaries: ColorPrimaries,
    pub transfer: TransferFunction,
}

/// Whether a URI is served over HTTP.
pub open spec fn http_uri(uri: Seq<char>) -> bool {
    "http://"@.is_prefix_of(uri) || "https://"@.is_prefix_of(uri)
}

/// Whether a request is streamed: its hint says so, or leaves it to the URI.
pub open spec fn streamed(request: MediaRequest) -> bool {
    match request.source_hint {
        MediaSourceHint::Http => true,
        MediaSourceHint::Auto => http_uri(request.uri@),
        MediaSourceHint::LocalFile => false,
    }
}

pub fn is_http_uri(uri: &str) -> (r: bool)
    ensures
        r == http_uri(uri@),
{
    crate::text::starts_with(uri, "http://") || crate::text::starts_with(uri, "https://")
}

pub fn request_uses_http_source(request: &MediaRequest) -> (r: bool)
    ensures
        r == streamed(*request),
{
    match request.source_hint {
        MediaSourceHint::Http => true,
        MediaSourceHint::Auto => is_http_uri(request.uri.as_str()),
        MediaSourceHint::LocalFile => false,
    }
}

/// Marking is idempotent, and it depends on the selection alone: marks that were set before do
/// not show through.
pub proof fn law_marks_follow_the_last_selection(
    track: TrackInfo,
    first: TrackSelection,
    last: TrackSelection,
)
    ensures
        marked(marked(track, first), last) == marked(track, last),
        marked(marked(track, last), last) == marked(track, last),
{
}

/// A track is marked exactly when it is the selected one of its kind, and nothing else of it
/// changes.
pub proof fn law_a_mark_says_what_is_selected(track: TrackInfo, selection: TrackSelection)
    ensures
        track.kind == TrackKind::Video ==> (marked(track, selection).selected <==> selection.video
            == Some(track.id)),
        track.kind == TrackKind::Audio ==> (marked(track, selection).selected <==> selection.audio
            == Some(track.id)),
        track.kind == TrackKind::Subtitle ==> (marked(track, selection).selected
            <==> selection.subtitle == Some(track.id)),
        (TrackInfo { selected: track.selected, ..marked(track, selection) }) == track,
{
}

/// A hint decides whether a medium is streamed; without one its address does.
pub proof fn law_the_hint_decides(request: MediaRequest, rest: Seq<char>)
    ensures
        request.source_hint == MediaSourceHint::Http ==> streamed(request),
        request.source_hint == MediaSourceHint::LocalFile ==> !streamed(request),
        request.source_hint == MediaSourceHint::Auto && (request.uri@ == "http://"@ + rest
            || request.uri@ == "https://"@ + rest) ==> streamed(request),
        request.source_hint == MediaSourceHint::Auto && request.uri@.len() > 0 && request.uri@[0]
            != 'h' ==> !streamed(request),
{
    reveal_strlit("http://");
    reveal_strlit("https://");
    assert(("http://"@ + rest).subrange(0, 7) =~= "http://"@);
    assert(("https://"@ + rest).subrange(0, 8) =~= "https://"@);
    if "http://"@.is_prefix_of(request.uri@) {
        assert("http://"@[0] == 'h' && request.uri@.subrange(0, 7)[0] == request.uri@[0]);
    }
    if "https://"@.is_prefix_of(request.uri@) {
        assert("https://"@[0] == 'h' && request.uri@.subrange(0, 8)[0] == request.uri@[0]);
    }
}

/// Only a track that was added from outside can be removed.
pub proof fn law_only_external_tracks_can_be_removed(id: i64, kind: TrackKind, source: TrackSource)
    ensures
        bare_track(id, kind, source).can_remove <==> source == TrackSource::External,
        bare_track(id, kind, source).id == id,
        bare_track(id, kind, source).kind == kind,
        !bare_track(id, kind, source).selected,
{
}

/// The greatest common divisor is the largest number that divides both.
pub proof fn law_no_common_divisor_is_greater(g: int, a: int, b: int, d: int)
    requires
        is_greatest_common_divisor(g, a, b),
        d > 0,
        a % d == 0,
        b % d == 0,
    ensures
        a % g == 0,
        b % g == 0,
        d <= g,
{
    assert(divides_both(d, a, b));
    if d > g {
        assert(g % d == g) by (nonlinear_arith)
            requires
                0 < g < d,
        ;
    }
}

} // verus!
