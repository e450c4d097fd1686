use devbrowse::config::schema::Mode;
use devbrowse::extensions::version::Version;
use devbrowse::fingerprint::farbling::standard_farbling_profile;
use devbrowse::fingerprint::gecko::canvas::locked_canvas_profile;
use devbrowse::fingerprint::gecko::webgl::{WebGlBlockedExtension, WebGlOverride, WebGlParameter, WebGlProfile, WebGlReadbackPolicy, locked_webgl_profile};
use devbrowse::fingerprint::interface::{FingerprintOverride, JsContext, OverrideContext, WebIdlSurface};

#[test]
fn webgl_locked_profile_matches_strict_cohort_parameters() {
    assert_eq!(locked_webgl_profile().vendor, "Mozilla");
    assert_eq!(locked_webgl_profile().renderer, "Mozilla");
    assert_eq!(locked_webgl_profile().version_webgl1, "WebGL 1.0");
    assert_eq!(locked_webgl_profile().version_webgl2, "WebGL 2.0");
    assert_eq!(
        locked_webgl_profile().shading_language_version_webgl1,
        "WebGL GLSL ES 1.0"
    );
    assert_eq!(
        locked_webgl_profile().shading_language_version_webgl2,
        "WebGL GLSL ES 3.00"
    );
    assert_eq!(locked_webgl_profile().max_texture_size, 16384);
    assert_eq!(locked_webgl_profile().max_viewport_dims, [16384, 16384]);
    assert_eq!(locked_webgl_profile().max_vertex_uniform_vectors, 1024);
    assert_eq!(locked_webgl_profile().max_fragment_uniform_vectors, 1024);
    assert_eq!(locked_webgl_profile().max_varying_vectors, 30);
    assert_eq!(locked_webgl_profile().max_vertex_attribs, 16);
    assert_eq!(locked_webgl_profile().max_renderbuffer_size, 16384);
    assert_eq!(locked_webgl_profile().max_combined_texture_image_units, 32);
}

#[test]
fn locked_profile_canvas_profile_is_module_27_singleton() {
    assert!((*locked_webgl_profile().canvas_profile == *locked_canvas_profile()));
}

#[test]
fn webgl_standard_resolves_to_cohort_base_with_farbling() {
    let p = WebGlReadbackPolicy::for_mode(Mode::Standard);
    assert!(matches!(p, WebGlReadbackPolicy::Normalized { .. }));
    assert!((*p.profile() == *locked_webgl_profile()));
    assert!((*p.canvas_profile() == *locked_canvas_profile()));
    let f = p
        .farbling()
        .expect("Standard MUST carry a farbling profile");
    assert!((*f == *devbrowse::fingerprint::farbling::standard_farbling_profile()));
    assert!(p.normalizes());
}

#[test]
fn webgl_strict_resolves_to_cohort_base_without_farbling() {
    let p = WebGlReadbackPolicy::for_mode(Mode::Strict);
    assert!(matches!(p, WebGlReadbackPolicy::Normalized { .. }));
    assert!((*p.profile() == *locked_webgl_profile()));
    assert!((*p.canvas_profile() == *locked_canvas_profile()));
    assert_eq!(p.farbling(), None);
    assert!(p.normalizes());
}

#[test]
fn standard_and_strict_share_webgl_cohort_base() {
    let s = WebGlReadbackPolicy::for_mode(Mode::Standard);
    let r = WebGlReadbackPolicy::for_mode(Mode::Strict);
    assert!((*s.profile() == *r.profile()));
    assert!((*s.canvas_profile() == *r.canvas_profile()));
    assert!(s.farbling().is_some());
    assert!(r.farbling().is_none());
}

#[test]
fn webgl_parameter_all_covers_edge_cases() {
    assert_eq!(WebGlParameter::all().len(), 14);

    for v in [
        WebGlParameter::Vendor,
        WebGlParameter::Renderer,
        WebGlParameter::Version,
        WebGlParameter::ShadingLanguageVersion,
        WebGlParameter::SupportedExtensions,
        WebGlParameter::MaxTextureSize,
        WebGlParameter::MaxViewportDims,
        WebGlParameter::MaxVertexUniformVectors,
        WebGlParameter::MaxFragmentUniformVectors,
        WebGlParameter::MaxVaryingVectors,
        WebGlParameter::MaxVertexAttribs,
        WebGlParameter::MaxRenderbufferSize,
        WebGlParameter::MaxCombinedTextureImageUnits,
        WebGlParameter::ReadPixels,
    ] {
        assert!(
            WebGlParameter::all().contains(&v),
            "missing WebGL parameter: {:?}",
            v
        );
    }
}

#[test]
fn blocked_extension_all_covers_edge_cases() {
    assert_eq!(WebGlBlockedExtension::all().len(), 3);

    for v in [
        WebGlBlockedExtension::DebugRendererInfo,
        WebGlBlockedExtension::DisjointTimerQuery,
        WebGlBlockedExtension::DisjointTimerQueryWebGl2,
    ] {
        assert!(
            WebGlBlockedExtension::all().contains(&v),
            "missing blocked extension: {:?}",
            v
        );
    }

    assert_eq!(
        WebGlBlockedExtension::DebugRendererInfo.js_name(),
        "WEBGL_debug_renderer_info"
    );
    assert_eq!(
        WebGlBlockedExtension::DisjointTimerQuery.js_name(),
        "EXT_disjoint_timer_query"
    );
    assert_eq!(
        WebGlBlockedExtension::DisjointTimerQueryWebGl2.js_name(),
        "EXT_disjoint_timer_query_webgl2"
    );
}

#[test]
fn extensions_allowlist_does_not_include_blocked_extensions() {
    for blocked in WebGlBlockedExtension::all() {
        let name = blocked.js_name();
        assert!(
            !locked_webgl_profile().extensions.contains(&name),
            "Strict allowlist must not include blocked extension {}",
            name
        );
    }
}

#[test]
fn webgl_override_reports_webgl_surface_under_both_modes() {
    assert_eq!(
        WebGlOverride::new(Mode::Standard).surface(),
        WebIdlSurface::WebGl
    );
    assert_eq!(
        WebGlOverride::new(Mode::Strict).surface(),
        WebIdlSurface::WebGl
    );
}

#[test]
fn webgl_both_overrides_carry_the_locked_profile_v1_23() {
    let standard = WebGlOverride::new(Mode::Standard);
    let strict = WebGlOverride::new(Mode::Strict);
    assert!((*standard.profile() == *locked_webgl_profile()));
    assert!((*strict.profile() == *locked_webgl_profile()));
    assert!((*standard.canvas_profile() == *locked_canvas_profile()));
    assert!((*strict.canvas_profile() == *locked_canvas_profile()));
    assert!(standard.policy().farbling().is_some());
    assert_eq!(strict.policy().farbling(), None);

    let p = strict.profile();
    assert!((*p == *locked_webgl_profile()));

    let c = strict.canvas_profile();
    assert!((*c == *locked_canvas_profile()));
}

#[test]
fn webgl_override_install_is_context_inert() {
    let pid = uuid::Uuid::parse_str("00000000-0000-4000-8000-000000000028").unwrap();
    for mode in [Mode::Standard, Mode::Strict] {
        let ovr = WebGlOverride::new(mode);
        let policy_before = ovr.policy();
        for jsc in JsContext::all() {
            let ctx = OverrideContext::new(mode, pid, *jsc);
            ovr.install(&ctx);
        }
        assert_eq!(ovr.policy(), policy_before);
        assert_eq!(ovr.surface(), WebIdlSurface::WebGl);
    }
}

#[test]
fn webgl_override_is_send_sync() {
    fn assert_send_sync<T: Send + Sync>() {}
    assert_send_sync::<WebGlOverride>();
    assert_send_sync::<WebGlReadbackPolicy>();
    assert_send_sync::<WebGlProfile>();
    assert_send_sync::<WebGlParameter>();
    assert_send_sync::<WebGlBlockedExtension>();
}

#[test]
fn parameter_dispatch_is_exhaustive_friendly() {
    fn route(p: WebGlParameter) -> &'static str {
        match p {
            WebGlParameter::Vendor => "vendor",
            WebGlParameter::Renderer => "renderer",
            WebGlParameter::Version => "version",
            WebGlParameter::ShadingLanguageVersion => "shading-language-version",
            WebGlParameter::SupportedExtensions => "supported-extensions",
            WebGlParameter::MaxTextureSize => "max-texture-size",
            WebGlParameter::MaxViewportDims => "max-viewport-dims",
            WebGlParameter::MaxVertexUniformVectors => "max-vertex-uniform-vectors",
            WebGlParameter::MaxFragmentUniformVectors => "max-fragment-uniform-vectors",
            WebGlParameter::MaxVaryingVectors => "max-varying-vectors",
            WebGlParameter::MaxVertexAttribs => "max-vertex-attribs",
            WebGlParameter::MaxRenderbufferSize => "max-renderbuffer-size",
            WebGlParameter::MaxCombinedTextureImageUnits => "max-combined-texture-image-units",
            WebGlParameter::ReadPixels => "read-pixels",
        }
    }
    for p in WebGlParameter::all() {
        assert!(!route(*p).is_empty());
    }
}

#[test]
fn blocked_extension_dispatch_is_exhaustive_friendly() {
    fn route(e: WebGlBlockedExtension) -> &'static str {
        match e {
            WebGlBlockedExtension::DebugRendererInfo => "debug-renderer-info",
            WebGlBlockedExtension::DisjointTimerQuery => "disjoint-timer-query",
            WebGlBlockedExtension::DisjointTimerQueryWebGl2 => "disjoint-timer-query-webgl2",
        }
    }
    for e in WebGlBlockedExtension::all() {
        assert!(!route(*e).is_empty());
    }
}

#[test]
fn webgl_policy_dispatch_is_exhaustive_friendly() {
    fn arm(p: WebGlReadbackPolicy) -> &'static str {
        match p {
            WebGlReadbackPolicy::Normalized { farbling: None, .. } => "cohort-locked",
            WebGlReadbackPolicy::Normalized {
                farbling: Some(_), ..
            } => "cohort-locked-farbled",
        }
    }
    assert_eq!(
        arm(WebGlReadbackPolicy::for_mode(Mode::Standard)),
        "cohort-locked-farbled",
    );
    assert_eq!(
        arm(WebGlReadbackPolicy::for_mode(Mode::Strict)),
        "cohort-locked",
    );
}
