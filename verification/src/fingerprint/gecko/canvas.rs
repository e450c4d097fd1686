//! Canvas readback: Strict renders through one cohort-locked rasterizer
//! configuration; Standard passes the native rasterizer through (its
//! readbacks are farbled instead).
use vstd::prelude::*;
use crate::config::schema::Mode;
use crate::fingerprint::interface::{FingerprintOverride, OverrideContext, WebIdlSurface};
use super::fonts::{BundledFontSet, is_bundled_font_set_v1};

verus! {

#[derive(Debug, Clone, Copy, PartialEq, Eq, Hash, Structural)]
pub enum AntialiasMode {
    /// No antialiasing.
    Off,
    Grayscale,
    SubpixelRgb,
    SubpixelBgr,
}

#[derive(Debug, Clone, Copy, PartialEq, Eq, Hash, Structural)]
pub enum HintingMode {
    /// No hinting.
    Off,
    Slight,
    Full,
}

#[derive(Debug, Clone, Copy, PartialEq, Eq, Hash, Structural)]
pub enum Rasterizer {
    Cpu,
    Gpu,
}

#[derive(Debug, Clone, Copy, PartialEq, Eq, Hash, Structural)]
pub enum ColorSpace {
    SRgb,
    DisplayP3,
    Linear,
}

#[derive(Debug, Clone, Copy, PartialEq, Eq, Hash, Structural)]
pub enum PixelSnap {
    /// No snapping.
    Off,
    SnapToInteger,
}

/// Rasterizer configuration every Strict canvas renders through.
#[derive(Debug, Clone, Copy, PartialEq, Eq, Hash)]
pub struct CanvasRenderProfile {
    pub font_set: &'static BundledFontSet,
    pub antialias: AntialiasMode,
    pub hinting: HintingMode,
    pub rasterizer: Rasterizer,
    pub color_space: ColorSpace,
    pub pixel_snap: PixelSnap,
}

/// `p` is the locked Strict canvas profile: bundled fonts, grayscale
/// antialiasing, no hinting, CPU rasterizer, sRGB, integer pixel snap.
pub open spec fn is_locked_canvas_profile(p: CanvasRenderProfile) -> bool {
    &&& is_bundled_font_set_v1(*p.font_set)
    &&& p.antialias == AntialiasMode::Grayscale
    &&& p.hinting == HintingMode::Off
    &&& p.rasterizer == Rasterizer::Cpu
    &&& p.color_space == ColorSpace::SRgb
    &&& p.pixel_snap == PixelSnap::SnapToInteger
}

/// The locked Strict canvas profile.
pub fn locked_canvas_profile() -> (r: &'static CanvasRenderProfile)
    ensures
        is_locked_canvas_profile(*r),
{
    &CanvasRenderProfile {
        font_set: &BundledFontSet {
            label: "devbrowse-bundled-v1",
            family_names: &[
                "Arimo",
                "Tinos",
                "Cousine",
                "Noto Sans",
                "Noto Sans CJK SC",
                "Noto Sans CJK JP",
                "Noto Sans CJK KR",
                "Noto Naskh Arabic",
                "Noto Nastaliq Urdu",
                "Noto Sans Devanagari",
                "Noto Sans Thai",
                "Noto Sans Bengali",
                "Noto Sans Tamil",
                "STIX Two Math",
                "Noto Emoji",
            ],
        },
        antialias: AntialiasMode::Grayscale,
        hinting: HintingMode::Off,
        rasterizer: Rasterizer::Cpu,
        color_space: ColorSpace::SRgb,
        pixel_snap: PixelSnap::SnapToInteger,
    }
}

/// Per-mode canvas readback policy.
#[derive(Debug, Clone, Copy, PartialEq, Eq, Hash)]
pub enum CanvasReadbackPolicy {
    /// Standard: native rasterizer.
    NativePassThrough,
    /// Strict: the locked profile.
    NormalizedRasterizer(&'static CanvasRenderProfile),
}

/// The policy `p` is the one `mode` resolves to.
pub open spec fn is_canvas_policy_for(mode: Mode, p: CanvasReadbackPolicy) -> bool {
    match mode {
        Mode::Standard => p == CanvasReadbackPolicy::NativePassThrough,
        Mode::Strict => p matches CanvasReadbackPolicy::NormalizedRasterizer(prof)
            && is_locked_canvas_profile(*prof),
    }
}

pub open spec fn canvas_policy_profile(p: CanvasReadbackPolicy) -> Option<
    &'static CanvasRenderProfile,
> {
    match p {
        CanvasReadbackPolicy::NativePassThrough => None,
        CanvasReadbackPolicy::NormalizedRasterizer(prof) => Some(prof),
    }
}

impl CanvasReadbackPolicy {
    pub fn for_mode(mode: Mode) -> (r: Self)
        ensures
            is_canvas_policy_for(mode, r),
    {
        match mode {
            Mode::Standard => CanvasReadbackPolicy::NativePassThrough,
            Mode::Strict => CanvasReadbackPolicy::NormalizedRasterizer(locked_canvas_profile()),
        }
    }

    /// The locked profile, or `None` under pass-through.
    pub fn profile(&self) -> (r: Option<&'static CanvasRenderProfile>)
        ensures
            r == canvas_policy_profile(*self),
    {
        match self {
            CanvasReadbackPolicy::NativePassThrough => None,
            CanvasReadbackPolicy::NormalizedRasterizer(p) => Some(*p),
        }
    }

    /// Whether readbacks go through the locked profile.
    pub fn normalizes(&self) -> (r: bool)
        ensures
            r == (*self is NormalizedRasterizer),
    {
        match self {
            CanvasReadbackPolicy::NativePassThrough => false,
            CanvasReadbackPolicy::NormalizedRasterizer(_) => true,
        }
    }
}

/// Every canvas readback pathway the bridge must wire.
#[derive(Debug, Clone, Copy, PartialEq, Eq, Hash, Structural)]
pub enum CanvasSurface {
    GetImageData,
    ToDataUrl,
    ToBlob,
    OffscreenGetImageData,
    OffscreenConvertToBlob,
    CreateImageBitmap,
    WebGlReadPixels,
}

pub open spec fn all_canvas_surfaces() -> Seq<CanvasSurface> {
    seq![
        CanvasSurface::GetImageData,
        CanvasSurface::ToDataUrl,
        CanvasSurface::ToBlob,
        CanvasSurface::OffscreenGetImageData,
        CanvasSurface::OffscreenConvertToBlob,
        CanvasSurface::CreateImageBitmap,
        CanvasSurface::WebGlReadPixels,
    ]
}

impl CanvasSurface {
    pub fn all() -> (r: &'static [CanvasSurface])
        ensures
            r@ == all_canvas_surfaces(),
    {
        &[
            CanvasSurface::GetImageData,
            CanvasSurface::ToDataUrl,
            CanvasSurface::ToBlob,
            CanvasSurface::OffscreenGetImageData,
            CanvasSurface::OffscreenConvertToBlob,
            CanvasSurface::CreateImageBitmap,
            CanvasSurface::WebGlReadPixels,
        ]
    }
}

/// The canvas override.
#[derive(Debug, Clone, Copy)]
pub struct CanvasOverride {
    policy: CanvasReadbackPolicy,
}

impl CanvasOverride {
    pub closed spec fn spec_policy(&self) -> CanvasReadbackPolicy {
        self.policy
    }

    pub fn new(mode: Mode) -> (r: Self)
        ensures
            is_canvas_policy_for(mode, r.spec_policy()),
    {
        CanvasOverride { policy: CanvasReadbackPolicy::for_mode(mode) }
    }

    pub fn policy(&self) -> (r: CanvasReadbackPolicy)
        ensures
            r == self.spec_policy(),
    {
        self.policy
    }

    pub fn profile(&self) -> (r: Option<&'static CanvasRenderProfile>)
        ensures
            r == canvas_policy_profile(self.spec_policy()),
    {
        self.policy.profile()
    }
}

impl FingerprintOverride for CanvasOverride {
    fn surface(&self) -> (r: WebIdlSurface)
        ensures
            r == WebIdlSurface::Canvas,
    {
        WebIdlSurface::Canvas
    }

    fn install(&self, ctx: &OverrideContext) {
    }
}

} // verus!
