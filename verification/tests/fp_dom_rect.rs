use devbrowse::config::schema::Mode;
use devbrowse::fingerprint::farbling::FarblingSeed;
use devbrowse::fingerprint::gecko::dom_rect::{DomRectOverride, DomRectPolicy, DomRectSurface, dom_rect_coord_offset, text_metric_offset};
use devbrowse::fingerprint::interface::{FingerprintOverride, JsContext, OverrideContext, WebIdlSurface};

fn seed_a() -> FarblingSeed {
    [0x10; 16]
}

#[test]
fn dom_rect_policy_for_mode_dispatch() {
    assert_eq!(
        DomRectPolicy::for_mode(Mode::Strict),
        DomRectPolicy::IntegerSnapOnly
    );
    assert_eq!(
        DomRectPolicy::for_mode(Mode::Standard),
        DomRectPolicy::SnapAndFarble
    );
}

#[test]
fn strict_snaps_to_integer_no_farble() {
    let seed = seed_a();
    for (input, expected) in [
        (10.0, 10.0),
        (10.4, 10.0),
        (10.5, 11.0),
        (10.6, 11.0),
        (-1.3, -1.0),
        (-1.7, -2.0),
        (0.0, 0.0),
    ] {
        let result = snap_dom_rect_coord(DomRectPolicy::IntegerSnapOnly, input, &seed, 0);
        assert_eq!(
            result, expected,
            "Strict snap of {} should be {}, got {}",
            input, expected, result
        );
    }
}

#[test]
fn standard_snaps_then_adds_farble_in_bound() {
    let seed = seed_a();
    for input in [0.0_f64, 1.5, 100.7, -5.3] {
        for index in 0..50_u64 {
            let result = snap_dom_rect_coord(DomRectPolicy::SnapAndFarble, input, &seed, index);
            let snapped = input.round();
            let delta = (result - snapped).abs();
            assert!(
                delta <= 1.0,
                "Standard snap+farble({}) should be within ±1 of round({})={}; got {}",
                input,
                input,
                snapped,
                result,
            );
            assert_eq!(
                result,
                result.round(),
                "result {} should be integer",
                result
            );
        }
    }
}

#[test]
fn standard_farble_is_deterministic_per_seed_index() {
    let seed = seed_a();
    for index in 0..30_u64 {
        let a = snap_dom_rect_coord(DomRectPolicy::SnapAndFarble, 100.0, &seed, index);
        let b = snap_dom_rect_coord(DomRectPolicy::SnapAndFarble, 100.0, &seed, index);
        assert_eq!(a, b);
    }
}

#[test]
fn dom_rect_and_text_metric_streams_are_disjoint() {
    let seed = seed_a();
    let mut disagree = 0;
    for i in 0..200_u64 {
        let dr = snap_dom_rect_coord(DomRectPolicy::SnapAndFarble, 100.0, &seed, i);
        let tm = snap_text_metric(DomRectPolicy::SnapAndFarble, 100.0, &seed, i);
        if dr != tm {
            disagree += 1;
        }
    }
    assert!(
        disagree > 80,
        "DomRect and TextMetrics streams should differ on most indices; saw {}/200 disagreement",
        disagree,
    );
}

#[test]
fn standard_different_seeds_diverge() {
    let seed_x = [0x10; 16];
    let seed_y = [0x20; 16];
    let mut disagree = 0;
    for i in 0..200_u64 {
        let x = snap_dom_rect_coord(DomRectPolicy::SnapAndFarble, 100.0, &seed_x, i);
        let y = snap_dom_rect_coord(DomRectPolicy::SnapAndFarble, 100.0, &seed_y, i);
        if x != y {
            disagree += 1;
        }
    }
    assert!(
        disagree > 80,
        "different seeds should produce different farbled output for most indices; saw {}/200",
        disagree,
    );
}

#[test]
fn dom_rect_surface_all_covers_phase_file_pathways() {
    assert_eq!(DomRectSurface::all().len(), 6);
    for v in [
        DomRectSurface::ElementGetClientRects,
        DomRectSurface::ElementGetBoundingClientRect,
        DomRectSurface::RangeGetClientRects,
        DomRectSurface::RangeGetBoundingClientRect,
        DomRectSurface::CanvasMeasureText,
        DomRectSurface::SvgGetBBox,
    ] {
        assert!(DomRectSurface::all().contains(&v));
    }
}

#[test]
fn override_reports_dom_rect_surface() {
    assert_eq!(
        DomRectOverride::new(Mode::Strict).surface(),
        WebIdlSurface::DomRect
    );
    assert_eq!(
        DomRectOverride::new(Mode::Standard).surface(),
        WebIdlSurface::DomRect
    );
}

#[test]
fn dom_rect_override_install_is_context_inert() {
    let pid = uuid::Uuid::parse_str("00000000-0000-4000-8000-000000035110").unwrap();
    for mode in [Mode::Standard, Mode::Strict] {
        let ovr = DomRectOverride::new(mode);
        let policy_before = ovr.policy();
        for jsc in JsContext::all() {
            let ctx = OverrideContext::new(mode, pid, *jsc);
            ovr.install(&ctx);
        }
        assert_eq!(ovr.policy(), policy_before);
    }
}

#[test]
fn dom_rect_types_are_send_sync() {
    fn assert_send_sync<T: Send + Sync>() {}
    assert_send_sync::<DomRectOverride>();
    assert_send_sync::<DomRectPolicy>();
    assert_send_sync::<DomRectSurface>();
}

#[test]
fn policy_and_surface_dispatch_is_exhaustive_friendly() {
    fn arm_policy(p: DomRectPolicy) -> &'static str {
        match p {
            DomRectPolicy::IntegerSnapOnly => "snap-only",
            DomRectPolicy::SnapAndFarble => "snap-and-farble",
        }
    }
    fn arm_surface(s: DomRectSurface) -> &'static str {
        match s {
            DomRectSurface::ElementGetClientRects => "element-get-client-rects",
            DomRectSurface::ElementGetBoundingClientRect => "element-get-bounding-client-rect",
            DomRectSurface::RangeGetClientRects => "range-get-client-rects",
            DomRectSurface::RangeGetBoundingClientRect => "range-get-bounding-client-rect",
            DomRectSurface::CanvasMeasureText => "canvas-measure-text",
            DomRectSurface::SvgGetBBox => "svg-get-b-box",
        }
    }
    for s in DomRectSurface::all() {
        assert!(!arm_surface(*s).is_empty());
    }
    assert_eq!(
        arm_policy(DomRectPolicy::for_mode(Mode::Strict)),
        "snap-only"
    );
    assert_eq!(
        arm_policy(DomRectPolicy::for_mode(Mode::Standard)),
        "snap-and-farble"
    );
}

/// Rounds, then adds the policy's integer DOMRect offset.
fn snap_dom_rect_coord(policy: DomRectPolicy, coord: f64, seed: &FarblingSeed, index: u64) -> f64 {
    let snapped = coord.round();
    match policy {
        DomRectPolicy::IntegerSnapOnly => snapped,
        DomRectPolicy::SnapAndFarble => snapped + dom_rect_coord_offset(policy, seed, index) as f64,
    }
}

/// Rounds, then adds the policy's integer TextMetrics offset.
fn snap_text_metric(policy: DomRectPolicy, metric: f64, seed: &FarblingSeed, index: u64) -> f64 {
    let snapped = metric.round();
    match policy {
        DomRectPolicy::IntegerSnapOnly => snapped,
        DomRectPolicy::SnapAndFarble => snapped + text_metric_offset(policy, seed, index) as f64,
    }
}
