//! What draws the pictures of a player.
use crate::media::PlayerError;
use crate::shared::PlayerVideoFrame;
use crate::surface::{
    PlatformSurface, RenderFrameContext, RendererFrameCapture, RendererRuntimeStats, SurfaceMetrics,
};
use vstd::prelude::*;

verus! {

/// A renderer. `O` is what is drawn over a picture, and `D` are the comments that run across it.
pub trait RendererBackend<O, D>: Sized {
    fn attach_surface(&mut self, surface: PlatformSurface) -> (r: Result<(), PlayerError>);

    fn detach_surface(&mut self) -> (r: Result<(), PlayerError>);

    fn resize_surface(&mut self, metrics: SurfaceMetrics) -> (r: Result<(), PlayerError>);

    /// Draws a test picture; `time_seconds` holds the bits of the time.
    fn render_test_frame(&mut self, time_seconds: u64) -> (r: Result<(), PlayerError>);

    /// Takes a picture over as the one that is drawn.
    fn upload_player_frame(&mut self, frame: &PlayerVideoFrame) -> (r: Result<(), PlayerError>);

    /// Lets go of the picture that is drawn. A renderer that keeps none has nothing to do.
    fn clear_current_frame(&mut self) -> (r: Result<(), PlayerError>)
        default_ensures
            *final(self) == *old(self),
            r == Ok::<(), PlayerError>(()),
    {
        Ok(())
    }

    /// Lets go of what belongs to a decoder that is about to be replaced. A renderer that cannot
    /// keep a copy of its own lets go of the whole picture.
    fn preserve_current_frame_for_transition(&mut self) -> (r: Result<(), PlayerError>)
    {
        self.clear_current_frame()
    }

    /// Prepares for another audio or subtitle track, which leaves the picture as it is.
    fn preserve_current_frame_for_track_transition(&mut self) -> (r: Result<(), PlayerError>)
        default_ensures
            *final(self) == *old(self),
            r == Ok::<(), PlayerError>(()),
    {
        Ok(())
    }

    /// Draws the picture; whether there was one.
    fn render_current_frame(&mut self, context: RenderFrameContext<'_, O, D>) -> (r: Result<
        bool,
        PlayerError,
    >);

    /// Draws the picture into memory, where the renderer can.
    fn capture_current_frame(
        &mut self,
        _context: RenderFrameContext<'_, O, D>,
        _width: u32,
        _height: u32,
    ) -> (r: Result<Option<RendererFrameCapture>, PlayerError>)
        default_ensures
            *final(self) == *old(self),
            r == Ok::<Option<RendererFrameCapture>, PlayerError>(None),
    {
        Ok(None)
    }

    fn runtime_stats(&self) -> (r: RendererRuntimeStats)
        default_ensures
            r == crate::surface::idle_renderer(),
    {
        RendererRuntimeStats::default()
    }

    /// Whether the renderer takes the pictures of Android's decoders from their surface.
    fn supports_mediacodec_surface_frames(&self) -> (r: bool)
        default_ensures
            !r,
    {
        false
    }

    /// Tells how much brighter than white the display gets; `headroom` holds the bits of the
    /// ratio. A renderer that has no use for it passes it over.
    fn set_output_headroom(&mut self, _headroom: u32, _known: bool)
        default_ensures
            *final(self) == *old(self),
    {
    }
}

} // verus!
