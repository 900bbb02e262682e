//! Surfaces that pictures are shown on, and what a renderer is told and tells of itself.
use crate::rate::normalize_surface_scale;
use crate::time::Duration;
use vstd::prelude::*;

verus! {

/// Exact native drawable extent. Width and height are physical pixels and are never derived from
/// the content scale.
#[derive(Clone, Copy, Debug, PartialEq, Eq, Structural)]
pub struct SurfacePhysicalExtent {
    pub width: u32,
    pub height: u32,
}

/// A side of a surface has at least one pixel.
pub open spec fn visible_side(side: u32) -> u32 {
    if side == 0 { 1 } else { side }
}

fn at_least_one(side: u32) -> (r: u32)
    ensures
        r == visible_side(side),
{
    if side == 0 {
        1
    } else {
        side
    }
}

impl SurfacePhysicalExtent {
    pub fn new(width: u32, height: u32) -> (r: Self)
        ensures
            r == (SurfacePhysicalExtent {
                width: visible_side(width),
                height: visible_side(height),
            }),
    {
        SurfacePhysicalExtent { width: at_least_one(width), height: at_least_one(height) }
    }
}

/// The size of a surface: `physical_extent` configures the GPU target, and `content_scale` (the
/// bits of a double) converts logical units to physical pixels without changing that extent.
#[derive(Clone, Copy, Debug, PartialEq, Eq, Structural)]
pub struct SurfaceMetrics {
    pub physical_extent: SurfacePhysicalExtent,
    pub content_scale: u64,
}

/// The metrics of a surface.
pub open spec fn metrics_of(width: u32, height: u32, content_scale: u64) -> SurfaceMetrics {
    SurfaceMetrics {
        physical_extent: SurfacePhysicalExtent {
            width: visible_side(width),
            height: visible_side(height),
        },
        content_scale: crate::rate::positive_or_unit(content_scale),
    }
}

impl SurfaceMetrics {
    pub fn new(width: u32, height: u32, content_scale: u64) -> (r: Self)
        ensures
            r == metrics_of(width, height, content_scale),
    {
        SurfaceMetrics {
            physical_extent: SurfacePhysicalExtent::new(width, height),
            content_scale: normalize_surface_scale(content_scale),
        }
    }

    pub fn resized(self, width: u32, height: u32, content_scale: u64) -> (r: Self)
        ensures
            r == metrics_of(width, height, content_scale),
    {
        SurfaceMetrics::new(width, height, content_scale)
    }

    pub fn physical_size(self) -> (r: (u32, u32))
        ensures
            r == (self.physical_extent.width, self.physical_extent.height),
    {
        (self.physical_extent.width, self.physical_extent.height)
    }
}

/// The extent of a surface does not depend on its content scale.
pub proof fn law_the_scale_leaves_the_extent(width: u32, height: u32, a: u64, b: u64)
    ensures
        metrics_of(width, height, a).physical_extent == metrics_of(
            width,
            height,
            b,
        ).physical_extent,
        metrics_of(width, height, a).physical_extent.width >= 1,
        metrics_of(width, height, a).physical_extent.height >= 1,
{
}

#[derive(Clone, Copy, Debug, PartialEq, Eq, Structural)]
pub struct MetalSurfaceHandle {
    pub raw_layer: u64,
    pub metrics: SurfaceMetrics,
}

impl MetalSurfaceHandle {
    pub fn new(raw_layer: u64, width: u32, height: u32, scale: u64) -> (r: Self)
        ensures
            r == (MetalSurfaceHandle { raw_layer, metrics: metrics_of(width, height, scale) }),
    {
        MetalSurfaceHandle { raw_layer, metrics: SurfaceMetrics::new(width, height, scale) }
    }
}

#[derive(Clone, Copy, Debug, PartialEq, Eq, Structural)]
pub enum WgpuSurfaceKind {
    Unknown,
    MacOsNsView,
    MacOsCaMetalLayer,
    IosUiView,
    WindowsHwnd,
    XlibWindow,
    WaylandSurface,
    AndroidNativeWindow,
    OhosNativeWindow,
}

/// What the host of a surface can show.
#[derive(Clone, Debug, PartialEq, Eq)]
pub struct SurfaceOutputCapabilities {
    /// The display is eligible for an extended-linear signal.
    pub extended_linear: bool,
    /// The native surface bypasses texture-layer composition.
    pub direct_composition: bool,
    /// Requested display headroom relative to SDR reference white, as the bits of a float.
    pub desired_headroom: u32,
    /// Why extended-linear output is not available, where the host says so.
    pub fallback_reason: Option<String>,
}

/// A host that can show nothing special.
pub open spec fn plain_output() -> SurfaceOutputCapabilities {
    SurfaceOutputCapabilities {
        extended_linear: false,
        direct_composition: false,
        desired_headroom: 0,
        fallback_reason: None,
    }
}

impl SurfaceOutputCapabilities {
    pub fn duplicate(&self) -> (r: Self)
        ensures
            r == *self,
    {
        SurfaceOutputCapabilities {
            extended_linear: self.extended_linear,
            direct_composition: self.direct_composition,
            desired_headroom: self.desired_headroom,
            fallback_reason: crate::text::copied_text(&self.fallback_reason),
        }
    }
}

impl Default for SurfaceOutputCapabilities {
    fn default() -> (r: Self)
        ensures
            r == plain_output(),
    {
        SurfaceOutputCapabilities {
            extended_linear: false,
            direct_composition: false,
            desired_headroom: 0,
            fallback_reason: None,
        }
    }
}

#[derive(Clone, Debug, PartialEq, Eq)]
pub struct WgpuSurfaceHandle {
    pub kind: WgpuSurfaceKind,
    pub raw_window: u64,
    pub raw_display: u64,
    pub metrics: SurfaceMetrics,
    pub output_capabilities: SurfaceOutputCapabilities,
}

impl WgpuSurfaceHandle {
    pub fn new(
        kind: WgpuSurfaceKind,
        raw_window: u64,
        raw_display: u64,
        width: u32,
        height: u32,
        scale: u64,
    ) -> (r: Self)
        ensures
            r == (WgpuSurfaceHandle {
                kind,
                raw_window,
                raw_display,
                metrics: metrics_of(width, height, scale),
                output_capabilities: plain_output(),
            }),
    {
        WgpuSurfaceHandle {
            kind,
            raw_window,
            raw_display,
            metrics: SurfaceMetrics::new(width, height, scale),
            output_capabilities: SurfaceOutputCapabilities {
                extended_linear: false,
                direct_composition: false,
                desired_headroom: 0,
                fallback_reason: None,
            },
        }
    }

    pub fn metrics(&self) -> (r: SurfaceMetrics)
        ensures
            r == self.metrics,
    {
        self.metrics
    }

    pub fn resize(&mut self, metrics: SurfaceMetrics)
        ensures
            *final(self) == (WgpuSurfaceHandle { metrics, ..*old(self) }),
    {
        self.metrics = metrics;
    }

    pub fn with_output_capabilities(self, output_capabilities: SurfaceOutputCapabilities) -> (r:
        Self)
        ensures
            r == (WgpuSurfaceHandle { output_capabilities, ..self }),
    {
        WgpuSurfaceHandle { output_capabilities, ..self }
    }
}

#[derive(Clone, Copy, Debug, PartialEq, Eq, Structural)]
pub enum FlutterTextureKind {
    Unknown,
    MacOsTextureRegistrar,
    IosTextureRegistrar,
    AndroidSurfaceTexture,
    WindowsTextureRegistrar,
    LinuxTextureRegistrar,
}

#[derive(Clone, Copy, Debug, PartialEq, Eq, Structural)]
pub struct FlutterTextureHandle {
    pub kind: FlutterTextureKind,
    pub texture_id: i64,
    pub metrics: SurfaceMetrics,
    pub hdr_capable: bool,
}

impl FlutterTextureHandle {
    pub fn new(kind: FlutterTextureKind, texture_id: i64, width: u32, height: u32, scale: u64) -> (r:
        Self)
        ensures
            r == (FlutterTextureHandle {
                kind,
                texture_id,
                metrics: metrics_of(width, height, scale),
                hdr_capable: false,
            }),
    {
        FlutterTextureHandle {
            kind,
            texture_id,
            metrics: SurfaceMetrics::new(width, height, scale),
            hdr_capable: false,
        }
    }
}

#[derive(Clone, Debug, PartialEq, Eq)]
pub enum PlatformSurface {
    Metal(MetalSurfaceHandle),
    Wgpu(WgpuSurfaceHandle),
    FlutterTexture(FlutterTextureHandle),
}

impl PlatformSurface {
    pub open spec fn size(self) -> SurfaceMetrics {
        match self {
            PlatformSurface::Metal(handle) => handle.metrics,
            PlatformSurface::Wgpu(handle) => handle.metrics,
            PlatformSurface::FlutterTexture(handle) => handle.metrics,
        }
    }

    pub fn metrics(&self) -> (r: SurfaceMetrics)
        ensures
            r == self.size(),
    {
        match self {
            PlatformSurface::Metal(handle) => handle.metrics,
            PlatformSurface::Wgpu(handle) => handle.metrics(),
            PlatformSurface::FlutterTexture(handle) => handle.metrics,
        }
    }

    pub fn duplicate(&self) -> (r: Self)
        ensures
            r == *self,
    {
        match self {
            PlatformSurface::Metal(handle) => PlatformSurface::Metal(*handle),
            PlatformSurface::Wgpu(handle) => PlatformSurface::Wgpu(
                WgpuSurfaceHandle {
                    kind: handle.kind,
                    raw_window: handle.raw_window,
                    raw_display: handle.raw_display,
                    metrics: handle.metrics,
                    output_capabilities: handle.output_capabilities.duplicate(),
                },
            ),
            PlatformSurface::FlutterTexture(handle) => PlatformSurface::FlutterTexture(*handle),
        }
    }
}

/// What a renderer is told of the frame that it draws: an overlay of the kind `O` and moving
/// comments of the kind `D` may go on top.
pub struct RenderFrameContext<'a, O, D> {
    pub media_time: Duration,
    pub generation: u64,
    pub overlay: Option<&'a O>,
    pub danmaku: Option<&'a D>,
    pub output_width: u32,
    pub output_height: u32,
}

impl<'a, O, D> RenderFrameContext<'a, O, D> {
    pub fn new(media_time: Duration, generation: u64) -> (r: Self)
        ensures
            r == (RenderFrameContext::<'a, O, D> {
                media_time,
                generation,
                overlay: None,
                danmaku: None,
                output_width: 0,
                output_height: 0,
            }),
    {
        RenderFrameContext {
            media_time,
            generation,
            overlay: None,
            danmaku: None,
            output_width: 0,
            output_height: 0,
        }
    }

    pub fn overlay(self, overlay: Option<&'a O>) -> (r: Self)
        ensures
            r == (RenderFrameContext::<'a, O, D> { overlay, ..self }),
    {
        RenderFrameContext { overlay, ..self }
    }

    pub fn danmaku(self, danmaku: Option<&'a D>) -> (r: Self)
        ensures
            r == (RenderFrameContext::<'a, O, D> { danmaku, ..self }),
    {
        RenderFrameContext { danmaku, ..self }
    }

    pub fn output_size(self, width: u32, height: u32) -> (r: Self)
        ensures
            r == (RenderFrameContext::<'a, O, D> {
                output_width: width,
                output_height: height,
                ..self
            }),
    {
        RenderFrameContext { output_width: width, output_height: height, ..self }
    }
}

#[derive(Clone, Debug, PartialEq, Eq)]
pub struct RendererFrameCapture {
    pub width: u32,
    pub height: u32,
    pub rgba: Vec<u8>,
}

#[derive(Clone, Copy, Debug, PartialEq, Eq, Structural)]
pub enum LumaUpscalerBackendStatus {
    Off,
    Inactive,
    Building,
    Scalar,
    SimdgroupMatrix,
}

impl Default for LumaUpscalerBackendStatus {
    fn default() -> (r: Self)
        ensures
            r == LumaUpscalerBackendStatus::Off,
    {
        LumaUpscalerBackendStatus::Off
    }
}

/// What a renderer counts of its own work.
#[derive(Clone, Copy, Debug, PartialEq, Eq, Structural)]
pub struct RendererRuntimeStats {
    pub surface_width: u32,
    pub surface_height: u32,
    pub rendered_frames: u64,
    pub offscreen_frames: u64,
    pub prepared_overlay_frames: u64,
    pub prepared_overlay_subtitle_planes: u64,
    pub danmaku_passes: u64,
    pub danmaku_draw_items: u64,
    pub overlay_alpha_atlas_uploads: u64,
    pub overlay_alpha_atlas_reuses: u64,
    pub last_danmaku_atlas_duration: Duration,
    pub last_danmaku_vertex_build_duration: Duration,
    pub last_danmaku_vertex_copy_duration: Duration,
    pub last_danmaku_encode_duration: Duration,
    pub last_danmaku_vertex_bytes: usize,
    pub last_danmaku_vertex_count: usize,
    pub upscaler_backend: LumaUpscalerBackendStatus,
    pub upscaler_fallbacks: u64,
    pub upscaled_frames: u64,
    pub last_upscaler_encode_duration: Duration,
    pub last_gpu_duration: Duration,
    pub attached: bool,
    pub software_video_frames: u64,
    pub hardware_video_frames: u64,
    pub zero_copy_video_frames: u64,
    pub direct_zero_copy_video_frames: u64,
    pub shared_handle_video_frames: u64,
    pub cpu_video_frame_fallbacks: u64,
    pub hdr_source_frames: u64,
    pub hdr10_output_frames: u64,
    pub sdr_tonemap_frames: u64,
    pub hdr10_metadata_updates: u64,
    pub hdr10_metadata_failures: u64,
    pub hdr10_output_failures: u64,
    pub hdr10_output_active: bool,
}

/// A renderer that has done nothing yet.
pub open spec fn idle_renderer() -> RendererRuntimeStats {
    let none = Duration { nanos: 0 };
    RendererRuntimeStats {
        surface_width: 0,
        surface_height: 0,
        rendered_frames: 0,
        offscreen_frames: 0,
        prepared_overlay_frames: 0,
        prepared_overlay_subtitle_planes: 0,
        danmaku_passes: 0,
        danmaku_draw_items: 0,
        overlay_alpha_atlas_uploads: 0,
        overlay_alpha_atlas_reuses: 0,
        last_danmaku_atlas_duration: none,
        last_danmaku_vertex_build_duration: none,
        last_danmaku_vertex_copy_duration: none,
        last_danmaku_encode_duration: none,
        last_danmaku_vertex_bytes: 0,
        last_danmaku_vertex_count: 0,
        upscaler_backend: LumaUpscalerBackendStatus::Off,
        upscaler_fallbacks: 0,
        upscaled_frames: 0,
        last_upscaler_encode_duration: none,
        last_gpu_duration: none,
        attached: false,
        software_video_frames: 0,
        hardware_video_frames: 0,
        zero_copy_video_frames: 0,
        direct_zero_copy_video_frames: 0,
        shared_handle_video_frames: 0,
        cpu_video_frame_fallbacks: 0,
        hdr_source_frames: 0,
        hdr10_output_frames: 0,
        sdr_tonemap_frames: 0,
        hdr10_metadata_updates: 0,
        hdr10_metadata_failures: 0,
        hdr10_output_failures: 0,
        hdr10_output_active: false,
    }
}

impl Default for RendererRuntimeStats {
    fn default() -> (r: Self)
        ensures
            r == idle_renderer(),
    {
        let none = Duration::zero();
        RendererRuntimeStats {
            surface_width: 0,
            surface_height: 0,
            rendered_frames: 0,
            offscreen_frames: 0,
            prepared_overlay_frames: 0,
            prepared_overlay_subtitle_planes: 0,
            danmaku_passes: 0,
            danmaku_draw_items: 0,
            overlay_alpha_atlas_uploads: 0,
            overlay_alpha_atlas_reuses: 0,
            last_danmaku_atlas_duration: none,
            last_danmaku_vertex_build_duration: none,
            last_danmaku_vertex_copy_duration: none,
            last_danmaku_encode_duration: none,
            last_danmaku_vertex_bytes: 0,
            last_danmaku_vertex_count: 0,
            upscaler_backend: LumaUpscalerBackendStatus::Off,
            upscaler_fallbacks: 0,
            upscaled_frames: 0,
            last_upscaler_encode_duration: none,
            last_gpu_duration: none,
            attached: false,
            software_video_frames: 0,
            hardware_video_frames: 0,
            zero_copy_video_frames: 0,
            direct_zero_copy_video_frames: 0,
            shared_handle_video_frames: 0,
            cpu_video_frame_fallbacks: 0,
            hdr_source_frames: 0,
            hdr10_output_frames: 0,
            sdr_tonemap_frames: 0,
            hdr10_metadata_updates: 0,
            hdr10_metadata_failures: 0,
            hdr10_output_failures: 0,
            hdr10_output_active: false,
        }
    }
}

/// A surface keeps the size that it is given, but no side is without a pixel, and a scale that makes
/// no sense is one.
pub proof fn law_a_surface_keeps_its_size(width: u32, height: u32, content_scale: u64)
    ensures
        width > 0 ==> metrics_of(width, height, content_scale).physical_extent.width == width,
        height > 0 ==> metrics_of(width, height, content_scale).physical_extent.height == height,
        width == 0 ==> metrics_of(width, height, content_scale).physical_extent.width == 1,
        height == 0 ==> metrics_of(width, height, content_scale).physical_extent.height == 1,
        0 < content_scale < 0x7ff0_0000_0000_0000 ==> metrics_of(
            width,
            height,
            content_scale,
        ).content_scale == content_scale,
        content_scale == 0 || content_scale >= 0x7ff0_0000_0000_0000 ==> metrics_of(
            width,
            height,
            content_scale,
        ).content_scale == 0x3ff0_0000_0000_0000,
{
}

} // verus!
