use devbrowse::config::schema::Mode;
use devbrowse::fingerprint::gecko::canvas::{AntialiasMode, CanvasOverride, CanvasReadbackPolicy, CanvasSurface, ColorSpace, HintingMode, PixelSnap, Rasterizer, locked_canvas_profile};
use devbrowse::fingerprint::gecko::fonts::bundled_font_set_v1;
use devbrowse::fingerprint::interface::{FingerprintOverride, JsContext, OverrideContext, WebIdlSurface};

#[test]
fn canvas_locked_profile_matches_strict_cohort_parameters() {
    assert_eq!(locked_canvas_profile().font_set.label, "devbrowse-bundled-v1");
    assert_eq!(locked_canvas_profile().antialias, AntialiasMode::Grayscale);
    assert_eq!(locked_canvas_profile().hinting, HintingMode::Off);
    assert_eq!(locked_canvas_profile().rasterizer, Rasterizer::Cpu);
    assert_eq!(locked_canvas_profile().color_space, ColorSpace::SRgb);
    assert_eq!(locked_canvas_profile().pixel_snap, PixelSnap::SnapToInteger);
}

#[test]
fn locked_profile_font_set_unifies_with_module_30() {
    assert!((*locked_canvas_profile().font_set == *bundled_font_set_v1()));
}

#[test]
fn canvas_standard_returns_native_pass_through() {
    let p = CanvasReadbackPolicy::for_mode(Mode::Standard);
    assert!(matches!(p, CanvasReadbackPolicy::NativePassThrough));
    assert_eq!(p.profile(), None);
    assert!(!p.normalizes());
}

#[test]
fn strict_returns_normalized_rasterizer_with_locked_profile() {
    let p = CanvasReadbackPolicy::for_mode(Mode::Strict);
    assert!(matches!(p, CanvasReadbackPolicy::NormalizedRasterizer(_)));
    let profile = p.profile().expect("Strict policy MUST carry a profile");
    assert!((*profile == *locked_canvas_profile()));
    assert!(p.normalizes());
}

#[test]
fn canvas_surface_all_covers_edge_cases() {
    assert_eq!(CanvasSurface::all().len(), 7);

    for v in [
        CanvasSurface::GetImageData,
        CanvasSurface::ToDataUrl,
        CanvasSurface::ToBlob,
        CanvasSurface::OffscreenGetImageData,
        CanvasSurface::OffscreenConvertToBlob,
        CanvasSurface::CreateImageBitmap,
        CanvasSurface::WebGlReadPixels,
    ] {
        assert!(CanvasSurface::all().contains(&v), "missing pathway: {:?}", v);
    }
}

#[test]
fn canvas_override_reports_canvas_surface_under_both_modes() {
    assert_eq!(
        CanvasOverride::new(Mode::Standard).surface(),
        WebIdlSurface::Canvas
    );
    assert_eq!(
        CanvasOverride::new(Mode::Strict).surface(),
        WebIdlSurface::Canvas
    );
}

#[test]
fn canvas_standard_override_has_no_profile_strict_does() {
    let standard = CanvasOverride::new(Mode::Standard);
    let strict = CanvasOverride::new(Mode::Strict);
    assert_eq!(standard.profile(), None);
    let p = strict.profile().expect("Strict MUST carry a profile");
    assert!((*p == *locked_canvas_profile()));
}

#[test]
fn canvas_override_install_is_context_inert() {
    let pid = uuid::Uuid::parse_str("00000000-0000-4000-8000-000000000027").unwrap();
    for mode in [Mode::Standard, Mode::Strict] {
        let ovr = CanvasOverride::new(mode);
        let policy_before = ovr.policy();
        for jsc in JsContext::all() {
            let ctx = OverrideContext::new(mode, pid, *jsc);
            ovr.install(&ctx);
        }
        assert_eq!(ovr.policy(), policy_before);
        assert_eq!(ovr.surface(), WebIdlSurface::Canvas);
    }
}

#[test]
fn canvas_override_is_send_sync() {
    fn assert_send_sync<T: Send + Sync>() {}
    assert_send_sync::<CanvasOverride>();
    assert_send_sync::<CanvasReadbackPolicy>();
}

#[test]
fn canvas_surface_dispatch_is_exhaustive_friendly() {
    fn route(s: CanvasSurface) -> &'static str {
        match s {
            CanvasSurface::GetImageData => "get-image-data",
            CanvasSurface::ToDataUrl => "to-data-url",
            CanvasSurface::ToBlob => "to-blob",
            CanvasSurface::OffscreenGetImageData => "offscreen-get-image-data",
            CanvasSurface::OffscreenConvertToBlob => "offscreen-convert-to-blob",
            CanvasSurface::CreateImageBitmap => "create-image-bitmap",
            CanvasSurface::WebGlReadPixels => "webgl-read-pixels",
        }
    }
    for s in CanvasSurface::all() {
        assert!(!route(*s).is_empty());
    }
}

#[test]
fn canvas_policy_dispatch_is_exhaustive_friendly() {
    fn arm(p: CanvasReadbackPolicy) -> &'static str {
        match p {
            CanvasReadbackPolicy::NativePassThrough => "native",
            CanvasReadbackPolicy::NormalizedRasterizer(_) => "normalized",
        }
    }
    assert_eq!(
        arm(CanvasReadbackPolicy::for_mode(Mode::Standard)),
        "native"
    );
    assert_eq!(
        arm(CanvasReadbackPolicy::for_mode(Mode::Strict)),
        "normalized"
    );
}
