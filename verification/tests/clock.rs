//! The media clock against a wall clock that the tests turn by hand.
use erika::clock::{
    AudioSyncConfig, ClockCorrectionDirection, ClockReading, PlaybackClock, PlaybackClockSource,
};
use erika::rate::{normalize_surface_scale, rate_is_near_unit, sanitize_playback_rate};
use erika::surface::SurfaceMetrics;
use erika::time::{Duration, Instant};

fn start() -> Instant {
    Instant {
        nanos: 1_000_000_000_000,
    }
}

fn after(instant: Instant, span: Duration) -> Instant {
    Instant {
        nanos: instant.nanos + span.nanos,
    }
}

/// What a clock has gained at a point in time.
fn reading(clock: &PlaybackClock, now: Instant) -> ClockReading {
    let elapsed = clock.elapsed_at(now).nanos as f64;
    ClockReading {
        now,
        advance: Duration::from_nanos((elapsed * f64::from_bits(clock.rate())).round() as u64),
    }
}

fn shows(clock: &PlaybackClock, now: Instant) -> Duration {
    clock.media_time_at(reading(clock, now))
}

#[test]
fn playback_clock_paused_seek_remains_frozen() {
    let t0 = start();
    let mut clock = PlaybackClock::paused_at(Duration::from_secs(10));

    clock.seek(Duration::from_secs(2), t0);

    assert!(!clock.is_running());
    assert_eq!(shows(&clock, t0), Duration::from_secs(2));
    assert_eq!(
        shows(&clock, after(t0, Duration::from_secs(60))),
        Duration::from_secs(2)
    );
}

#[test]
fn playback_clock_pause_freezes_accumulated_time() {
    let t0 = start();
    let mut clock = PlaybackClock::paused_at(Duration::from_secs(10));
    let pause_time = after(t0, Duration::from_millis(500));

    clock.play(t0);
    let at_pause = reading(&clock, pause_time);
    clock.pause(at_pause);

    assert!(!clock.is_running());
    assert_eq!(shows(&clock, pause_time), Duration::from_millis(10_500));
    assert_eq!(
        shows(&clock, after(pause_time, Duration::from_secs(60))),
        Duration::from_millis(10_500)
    );
}

#[test]
fn playback_clock_paused_seek_then_resume_starts_from_new_target() {
    let t0 = start();
    let mut clock = PlaybackClock::running_at(Duration::from_secs(10), t0);
    let pause_time = after(t0, Duration::from_millis(500));
    let seek_time = after(pause_time, Duration::from_secs(5));
    let resume_time = after(seek_time, Duration::from_secs(5));

    let at_pause = reading(&clock, pause_time);
    clock.pause(at_pause);
    clock.seek(Duration::from_secs(2), seek_time);

    assert!(!clock.is_running());
    assert_eq!(shows(&clock, resume_time), Duration::from_secs(2));

    clock.play(resume_time);

    assert_eq!(shows(&clock, resume_time), Duration::from_secs(2));
    assert_eq!(
        shows(&clock, after(resume_time, Duration::from_millis(250))),
        Duration::from_millis(2_250)
    );
}

#[test]
fn playback_clock_running_seek_reanchors_elapsed_time() {
    let t0 = start();
    let mut clock = PlaybackClock::running_at(Duration::from_secs(10), t0);
    let seek_time = after(t0, Duration::from_secs(3));

    clock.seek(Duration::from_secs(2), seek_time);

    assert!(clock.is_running());
    assert_eq!(shows(&clock, seek_time), Duration::from_secs(2));
    assert_eq!(
        shows(&clock, after(seek_time, Duration::from_millis(750))),
        Duration::from_millis(2_750)
    );
}

#[test]
fn playback_clock_rate_change_is_continuous_and_scales_elapsed_time() {
    let t0 = start();
    let mut clock = PlaybackClock::running_at(Duration::from_secs(10), t0);
    let rate_change_time = after(t0, Duration::from_millis(500));

    let at_change = reading(&clock, rate_change_time);
    clock.set_rate(2.0f64.to_bits(), at_change);

    assert_eq!(f64::from_bits(clock.rate()), 2.0);
    assert_eq!(
        shows(&clock, rate_change_time),
        Duration::from_millis(10_500)
    );
    assert_eq!(
        shows(&clock, after(rate_change_time, Duration::from_secs(1))),
        Duration::from_millis(12_500)
    );
}

#[test]
fn playback_clock_invalid_rate_falls_back_to_one() {
    let t0 = start();

    for invalid_rate in [0.0, -1.0, f64::NAN, f64::INFINITY] {
        let mut clock = PlaybackClock::running_at(Duration::from_secs(10), t0);
        let rate_change_time = after(t0, Duration::from_millis(500));

        let at_change = reading(&clock, rate_change_time);
        clock.set_rate(invalid_rate.to_bits(), at_change);

        assert_eq!(f64::from_bits(clock.rate()), 1.0);
        assert_eq!(
            shows(&clock, rate_change_time),
            Duration::from_millis(10_500)
        );
        assert_eq!(
            shows(&clock, after(rate_change_time, Duration::from_secs(1))),
            Duration::from_millis(11_500)
        );
    }
}

#[test]
fn playback_clock_disciplines_toward_audio_master() {
    let t0 = start();
    let mut clock = PlaybackClock::running_at(Duration::from_secs(10), t0);
    let config = AudioSyncConfig {
        deadband: Duration::from_millis(5),
        max_correction_per_frame: Duration::from_millis(20),
        snap_threshold: Duration::from_millis(250),
        ..AudioSyncConfig::default()
    };
    let now = after(t0, Duration::from_millis(50));

    let at_now = reading(&clock, now);
    let correction = clock.discipline_to(
        Duration::from_millis(10_100),
        at_now,
        PlaybackClockSource::Audio,
        config,
    );

    assert_eq!(correction.source, PlaybackClockSource::Audio);
    assert_eq!(correction.direction, ClockCorrectionDirection::Forward);
    assert_eq!(correction.drift, Duration::from_millis(50));
    assert_eq!(correction.applied, Duration::from_millis(20));
    assert!(!correction.snapped);
    assert_eq!(clock.source(), PlaybackClockSource::Audio);
    assert_eq!(shows(&clock, now), Duration::from_millis(10_070));
}

#[test]
fn playback_clock_snaps_on_large_audio_drift() {
    let t0 = start();
    let mut clock = PlaybackClock::running_at(Duration::from_secs(10), t0);

    let at_start = reading(&clock, t0);
    let correction = clock.discipline_to(
        Duration::from_secs(11),
        at_start,
        PlaybackClockSource::Audio,
        AudioSyncConfig::default(),
    );

    assert_eq!(correction.direction, ClockCorrectionDirection::Forward);
    assert_eq!(correction.drift, Duration::from_secs(1));
    assert!(correction.snapped);
    assert_eq!(shows(&clock, t0), Duration::from_secs(11));
}

#[test]
fn a_small_drift_is_reported_and_left_alone() {
    let t0 = start();
    let mut clock = PlaybackClock::running_at(Duration::from_secs(10), t0);
    let at_start = reading(&clock, t0);
    let correction = clock.discipline_to(
        Duration::from_millis(9_996),
        at_start,
        PlaybackClockSource::Audio,
        AudioSyncConfig::default(),
    );
    assert_eq!(correction.direction, ClockCorrectionDirection::Backward);
    assert_eq!(correction.drift, Duration::from_millis(4));
    assert_eq!(correction.applied, Duration::zero());
    assert_eq!(shows(&clock, t0), Duration::from_secs(10));
}

#[test]
fn rates_within_a_thousandth_count_as_one() {
    assert!(rate_is_near_unit(1.0f64.to_bits()));
    assert!(rate_is_near_unit(1.0005f64.to_bits()));
    assert!(rate_is_near_unit(0.9995f64.to_bits()));
    assert!(!rate_is_near_unit(1.002f64.to_bits()));
    assert!(!rate_is_near_unit(0.998f64.to_bits()));
    assert!(!rate_is_near_unit(f64::NAN.to_bits()) || f64::NAN.abs() > 0.001);
    for rate in [0.5f64, 1.0, 1.0009, 1.0011, 0.9989, 0.9991, 4.0] {
        assert_eq!(
            rate_is_near_unit(rate.to_bits()),
            (rate - 1.0).abs() <= 0.001,
            "rate {rate}"
        );
    }
}

#[test]
fn only_positive_finite_rates_are_kept() {
    assert_eq!(sanitize_playback_rate(1.5f64.to_bits()), 1.5f64.to_bits());
    for rate in [0.0f64, -0.0, -1.0, f64::NAN, f64::INFINITY, f64::NEG_INFINITY] {
        assert_eq!(
            sanitize_playback_rate(rate.to_bits()),
            1.0f64.to_bits(),
            "rate {rate}"
        );
        assert_eq!(normalize_surface_scale(rate.to_bits()), 1.0f64.to_bits());
    }
}

#[test]
fn surface_metrics_keep_exact_physical_extent() {
    let metrics = SurfaceMetrics::new(1081, 607, 2.625f64.to_bits());

    assert_eq!(metrics.physical_size(), (1081, 607));
    assert_eq!(f64::from_bits(metrics.content_scale), 2.625);
}

#[test]
fn surface_metrics_preserve_low_density_and_sanitize_invalid_scale() {
    let scale =
        |value: f64| f64::from_bits(SurfaceMetrics::new(320, 240, value.to_bits()).content_scale);
    assert_eq!(scale(0.75), 0.75);
    assert_eq!(scale(f64::NAN), 1.0);
    assert_eq!(scale(0.0), 1.0);
    assert_eq!(scale(-2.0), 1.0);
}

#[test]
fn surface_metrics_resize_never_derives_extent_from_scale() {
    let metrics = SurfaceMetrics::new(1080, 2400, 2.625f64.to_bits());

    assert_eq!(metrics.physical_size(), (1080, 2400));
    assert_eq!(
        metrics.resized(1440, 3120, 3.5f64.to_bits()).physical_size(),
        (1440, 3120)
    );
}
