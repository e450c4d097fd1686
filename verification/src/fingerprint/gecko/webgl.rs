//! WebGL: both modes report one cohort-locked parameter profile and block
//! the renderer-identifying extensions; Standard additionally farbles the
//! numeric `MAX_*` parameters.
use vstd::prelude::*;
use crate::config::schema::Mode;
use crate::fingerprint::farbling::{FarblingProfile, is_standard_farbling_profile};
use crate::fingerprint::interface::{FingerprintOverride, OverrideContext, WebIdlSurface};
use super::canvas::{
    AntialiasMode, CanvasRenderProfile, ColorSpace, HintingMode, PixelSnap, Rasterizer,
    is_locked_canvas_profile,
};
use super::fonts::BundledFontSet;

verus! {

/// Every WebGL parameter / readback the bridge must wire.
#[derive(Debug, Clone, Copy, PartialEq, Eq, Hash, Structural)]
pub enum WebGlParameter {
    Vendor,
    Renderer,
    Version,
    ShadingLanguageVersion,
    SupportedExtensions,
    MaxTextureSize,
    MaxViewportDims,
    MaxVertexUniformVectors,
    MaxFragmentUniformVectors,
    MaxVaryingVectors,
    MaxVertexAttribs,
    MaxRenderbufferSize,
    MaxCombinedTextureImageUnits,
    ReadPixels,
}

pub open spec fn all_webgl_parameters() -> Seq<WebGlParameter> {
    seq![
        WebGlParameter::Vendor,
        WebGlParameter::Renderer,
        WebGlParameter::Version,
        WebGlParameter::ShadingLanguageVersion,
        WebGlParameter::SupportedExtensions,
        WebGlParameter::MaxTextureSize,
        WebGlParameter::MaxViewportDims,
        WebGlParameter::MaxVertexUniformVectors,
        WebGlParameter::MaxFragmentUniformVectors,
        WebGlParameter::MaxVaryingVectors,
        WebGlParameter::MaxVertexAttribs,
        WebGlParameter::MaxRenderbufferSize,
        WebGlParameter::MaxCombinedTextureImageUnits,
        WebGlParameter::ReadPixels,
    ]
}

impl WebGlParameter {
    pub fn all() -> (r: &'static [WebGlParameter])
        ensures
            r@ == all_webgl_parameters(),
    {
        &[
            WebGlParameter::Vendor,
            WebGlParameter::Renderer,
            WebGlParameter::Version,
            WebGlParameter::ShadingLanguageVersion,
            WebGlParameter::SupportedExtensions,
            WebGlParameter::MaxTextureSize,
            WebGlParameter::MaxViewportDims,
            WebGlParameter::MaxVertexUniformVectors,
            WebGlParameter::MaxFragmentUniformVectors,
            WebGlParameter::MaxVaryingVectors,
            WebGlParameter::MaxVertexAttribs,
            WebGlParameter::MaxRenderbufferSize,
            WebGlParameter::MaxCombinedTextureImageUnits,
            WebGlParameter::ReadPixels,
        ]
    }
}

/// Extensions that are never exposed: they reveal the GPU or allow
/// high-resolution timing.
#[derive(Debug, Clone, Copy, PartialEq, Eq, Hash, Structural)]
pub enum WebGlBlockedExtension {
    DebugRendererInfo,
    DisjointTimerQuery,
    DisjointTimerQueryWebGl2,
}

pub open spec fn all_webgl_blocked_extensions() -> Seq<WebGlBlockedExtension> {
    seq![
        WebGlBlockedExtension::DebugRendererInfo,
        WebGlBlockedExtension::DisjointTimerQuery,
        WebGlBlockedExtension::DisjointTimerQueryWebGl2,
    ]
}

/// The JS extension name of a blocked extension.
pub open spec fn blocked_extension_js_name(e: WebGlBlockedExtension) -> &'static str {
    match e {
        WebGlBlockedExtension::DebugRendererInfo => "WEBGL_debug_renderer_info",
        WebGlBlockedExtension::DisjointTimerQuery => "EXT_disjoint_timer_query",
        WebGlBlockedExtension::DisjointTimerQueryWebGl2 => "EXT_disjoint_timer_query_webgl2",
    }
}

impl WebGlBlockedExtension {
    pub fn all() -> (r: &'static [WebGlBlockedExtension])
        ensures
            r@ == all_webgl_blocked_extensions(),
    {
        &[
            WebGlBlockedExtension::DebugRendererInfo,
            WebGlBlockedExtension::DisjointTimerQuery,
            WebGlBlockedExtension::DisjointTimerQueryWebGl2,
        ]
    }

    /// The extension's name as JS requests it.
    pub fn js_name(&self) -> (r: &'static str)
        ensures
            r == blocked_extension_js_name(*self),
    {
        match self {
            WebGlBlockedExtension::DebugRendererInfo => "WEBGL_debug_renderer_info",
            WebGlBlockedExtension::DisjointTimerQuery => "EXT_disjoint_timer_query",
            WebGlBlockedExtension::DisjointTimerQueryWebGl2 => "EXT_disjoint_timer_query_webgl2",
        }
    }
}

/// Every value a WebGL context reports, locked for the cohort.
#[derive(Debug, Clone, Copy, PartialEq, Eq, Hash)]
pub struct WebGlProfile {
    pub vendor: &'static str,
    pub renderer: &'static str,
    pub version_webgl1: &'static str,
    pub version_webgl2: &'static str,
    pub shading_language_version_webgl1: &'static str,
    pub shading_language_version_webgl2: &'static str,
    pub extensions: &'static [&'static str],
    pub max_texture_size: u32,
    pub max_viewport_dims: [u32; 2],
    pub max_vertex_uniform_vectors: u32,
    pub max_fragment_uniform_vectors: u32,
    pub max_varying_vectors: u32,
    pub max_vertex_attribs: u32,
    pub max_renderbuffer_size: u32,
    pub max_combined_texture_image_units: u32,
    pub canvas_profile: &'static CanvasRenderProfile,
}

/// The extensions a locked context may expose.
pub open spec fn strict_extensions_allowlist() -> Seq<&'static str> {
    seq![
        "OES_standard_derivatives",
        "OES_element_index_uint",
        "OES_vertex_array_object",
        "ANGLE_instanced_arrays",
        "WEBGL_lose_context",
    ]
}

/// `p` is the locked WebGL profile.
pub open spec fn is_locked_webgl_profile(p: WebGlProfile) -> bool {
    &&& p.vendor == "Mozilla"
    &&& p.renderer == "Mozilla"
    &&& p.version_webgl1 == "WebGL 1.0"
    &&& p.version_webgl2 == "WebGL 2.0"
    &&& p.shading_language_version_webgl1 == "WebGL GLSL ES 1.0"
    &&& p.shading_language_version_webgl2 == "WebGL GLSL ES 3.00"
    &&& p.extensions@ == strict_extensions_allowlist()
    &&& p.max_texture_size == 16384
    &&& p.max_viewport_dims@ == seq![16384u32, 16384u32]
    &&& p.max_vertex_uniform_vectors == 1024
    &&& p.max_fragment_uniform_vectors == 1024
    &&& p.max_varying_vectors == 30
    &&& p.max_vertex_attribs == 16
    &&& p.max_renderbuffer_size == 16384
    &&& p.max_combined_texture_image_units == 32
    &&& is_locked_canvas_profile(*p.canvas_profile)
}

/// The locked WebGL profile.
pub fn locked_webgl_profile() -> (r: &'static WebGlProfile)
    ensures
        is_locked_webgl_profile(*r),
{
    let r: &'static WebGlProfile = &WebGlProfile {
        vendor: "Mozilla",
        renderer: "Mozilla",
        version_webgl1: "WebGL 1.0",
        version_webgl2: "WebGL 2.0",
        shading_language_version_webgl1: "WebGL GLSL ES 1.0",
        shading_language_version_webgl2: "WebGL GLSL ES 3.00",
        extensions: &[
            "OES_standard_derivatives",
            "OES_element_index_uint",
            "OES_vertex_array_object",
            "ANGLE_instanced_arrays",
            "WEBGL_lose_context",
        ],
        max_texture_size: 16384,
        max_viewport_dims: [16384, 16384],
        max_vertex_uniform_vectors: 1024,
        max_fragment_uniform_vectors: 1024,
        max_varying_vectors: 30,
        max_vertex_attribs: 16,
        max_renderbuffer_size: 16384,
        max_combined_texture_image_units: 32,
        canvas_profile: &CanvasRenderProfile {
            font_set: &BundledFontSet {
                label: "devbrowse-bundled-v1",
                family_names: &[
                    "Arimo",
                    "Tinos",
                    "Cousine",
                    "Noto Sans",
                    "Noto Sans CJK SC",
                    "Noto Sans CJK JP",
                    "Noto Sans CJK KR",
                    "Noto Naskh Arabic",
                    "Noto Nastaliq Urdu",
                    "Noto Sans Devanagari",
                    "Noto Sans Thai",
                    "Noto Sans Bengali",
                    "Noto Sans Tamil",
                    "STIX Two Math",
                    "Noto Emoji",
                ],
            },
            antialias: AntialiasMode::Grayscale,
            hinting: HintingMode::Off,
            rasterizer: Rasterizer::Cpu,
            color_space: ColorSpace::SRgb,
            pixel_snap: PixelSnap::SnapToInteger,
        },
    };
    assert(r.max_viewport_dims@ == seq![16384u32, 16384u32]);
    r
}

/// Per-mode WebGL policy: always the locked profile; Standard farbles.
#[derive(Debug, Clone, Copy, PartialEq)]
pub enum WebGlReadbackPolicy {
    Normalized {
        profile: &'static WebGlProfile,
        farbling: Option<&'static FarblingProfile>,
    },
}

/// The policy `p` is the one `mode` resolves to.
pub open spec fn is_webgl_policy_for(mode: Mode, p: WebGlReadbackPolicy) -> bool {
    &&& is_locked_webgl_profile(*p->profile)
    &&& match mode {
        Mode::Standard => p->farbling matches Some(f) && is_standard_farbling_profile(*f),
        Mode::Strict => p->farbling is None,
    }
}

impl WebGlReadbackPolicy {
    pub fn for_mode(mode: Mode) -> (r: Self)
        ensures
            is_webgl_policy_for(mode, r),
    {
        match mode {
            Mode::Standard => WebGlReadbackPolicy::Normalized {
                profile: locked_webgl_profile(),
                farbling: Some(crate::fingerprint::farbling::standard_farbling_profile()),
            },
            Mode::Strict => WebGlReadbackPolicy::Normalized {
                profile: locked_webgl_profile(),
                farbling: None,
            },
        }
    }

    pub fn profile(&self) -> (r: &'static WebGlProfile)
        ensures
            r == self->profile,
    {
        match self {
            WebGlReadbackPolicy::Normalized { profile, .. } => profile,
        }
    }

    pub fn farbling(&self) -> (r: Option<&'static FarblingProfile>)
        ensures
            r == self->farbling,
    {
        match self {
            WebGlReadbackPolicy::Normalized { farbling, .. } => *farbling,
        }
    }

    /// The canvas profile the locked WebGL profile renders with.
    pub fn canvas_profile(&self) -> (r: &'static CanvasRenderProfile)
        ensures
            r == self->profile.canvas_profile,
    {
        self.profile().canvas_profile
    }

    /// Every WebGL policy normalizes.
    pub fn normalizes(&self) -> (r: bool)
        ensures
            r,
    {
        match self {
            WebGlReadbackPolicy::Normalized { .. } => true,
        }
    }
}

/// The WebGL override.
#[derive(Debug, Clone, Copy)]
pub struct WebGlOverride {
    policy: WebGlReadbackPolicy,
}

impl WebGlOverride {
    pub closed spec fn spec_policy(&self) -> WebGlReadbackPolicy {
        self.policy
    }

    pub fn new(mode: Mode) -> (r: Self)
        ensures
            is_webgl_policy_for(mode, r.spec_policy()),
    {
        WebGlOverride { policy: WebGlReadbackPolicy::for_mode(mode) }
    }

    pub fn policy(&self) -> (r: WebGlReadbackPolicy)
        ensures
            r == self.spec_policy(),
    {
        self.policy
    }

    pub fn profile(&self) -> (r: &'static WebGlProfile)
        ensures
            r == self.spec_policy()->profile,
    {
        self.policy.profile()
    }

    pub fn canvas_profile(&self) -> (r: &'static CanvasRenderProfile)
        ensures
            r == self.spec_policy()->profile.canvas_profile,
    {
        self.policy.canvas_profile()
    }
}

impl FingerprintOverride for WebGlOverride {
    fn surface(&self) -> (r: WebIdlSurface)
        ensures
            r == WebIdlSurface::WebGl,
    {
        WebIdlSurface::WebGl
    }

    fn install(&self, ctx: &OverrideContext) {
    }
}

} // verus!
