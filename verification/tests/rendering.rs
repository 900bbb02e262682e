//! What a renderer does that brings only what it has to.
use erika::media::PlayerError;
use erika::renderer::RendererBackend;
use erika::shared::PlayerVideoFrame;
use erika::surface::{
    PlatformSurface, RenderFrameContext, RendererRuntimeStats, SurfaceMetrics,
};
use erika::time::Duration;

#[derive(Default)]
struct TransitionFrameProbe {
    clears: u32,
}

impl RendererBackend<(), ()> for TransitionFrameProbe {
    fn attach_surface(&mut self, _surface: PlatformSurface) -> Result<(), PlayerError> {
        Ok(())
    }

    fn detach_surface(&mut self) -> Result<(), PlayerError> {
        Ok(())
    }

    fn resize_surface(&mut self, _metrics: SurfaceMetrics) -> Result<(), PlayerError> {
        Ok(())
    }

    fn render_test_frame(&mut self, _time_seconds: u64) -> Result<(), PlayerError> {
        Ok(())
    }

    fn upload_player_frame(&mut self, _frame: &PlayerVideoFrame) -> Result<(), PlayerError> {
        Ok(())
    }

    fn clear_current_frame(&mut self) -> Result<(), PlayerError> {
        self.clears += 1;
        Ok(())
    }

    fn render_current_frame(
        &mut self,
        _context: RenderFrameContext<'_, (), ()>,
    ) -> Result<bool, PlayerError> {
        Ok(false)
    }
}

#[test]
fn native_track_transition_keeps_frame_while_decoder_transition_clears() {
    let mut renderer = TransitionFrameProbe::default();

    RendererBackend::preserve_current_frame_for_track_transition(&mut renderer).unwrap();
    assert_eq!(renderer.clears, 0);

    RendererBackend::preserve_current_frame_for_transition(&mut renderer).unwrap();
    assert_eq!(renderer.clears, 1);
}

#[test]
fn a_plain_renderer_captures_nothing_and_reports_nothing() {
    let mut renderer = TransitionFrameProbe::default();
    let context = RenderFrameContext::new(Duration::from_secs(1), 3);
    assert!(renderer
        .capture_current_frame(context, 16, 9)
        .unwrap()
        .is_none());
    assert_eq!(renderer.runtime_stats(), RendererRuntimeStats::default());
    assert!(!renderer.supports_mediacodec_surface_frames());
    renderer.set_output_headroom(1.5f32.to_bits(), true);
    assert_eq!(renderer.clears, 0);
}
