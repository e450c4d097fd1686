use devbrowse::config::schema::Mode;
use devbrowse::fingerprint::gecko::storage_estimate::{StorageEstimateOverride, StorageEstimatePolicy, StorageEstimateProfile, StorageEstimateSurface, standard_storage_estimate, strict_storage_estimate};
use devbrowse::fingerprint::interface::{FingerprintOverride, JsContext, OverrideContext, WebIdlSurface};

#[test]
fn strict_profile_matches_tor_zero_zero_posture() {
    assert_eq!(strict_storage_estimate().quota_bytes, 0);
    assert_eq!(strict_storage_estimate().usage_bytes, 0);
}

#[test]
fn standard_profile_matches_1_gib_cohort() {
    assert_eq!(standard_storage_estimate().quota_bytes, 1_073_741_824);
    assert_eq!(standard_storage_estimate().quota_bytes, 1 << 30);
    assert_eq!(standard_storage_estimate().usage_bytes, 0);
}

#[test]
fn both_modes_report_zero_usage_for_per_origin_safety() {
    assert_eq!(strict_storage_estimate().usage_bytes, 0);
    assert_eq!(standard_storage_estimate().usage_bytes, 0);
}

#[test]
fn strict_resolves_to_strict_static_by_address() {
    let p = StorageEstimatePolicy::for_mode(Mode::Strict);
    match p {
        StorageEstimatePolicy::Locked(profile) => {
            assert!(
                (*profile == *strict_storage_estimate()),
                "Strict Locked must point at strict_storage_estimate() by address",
            );
        }
    }
}

#[test]
fn standard_resolves_to_standard_static_by_address() {
    let p = StorageEstimatePolicy::for_mode(Mode::Standard);
    match p {
        StorageEstimatePolicy::Locked(profile) => {
            assert!(
                (*profile == *standard_storage_estimate()),
                "Standard Locked must point at standard_storage_estimate() by address",
            );
        }
    }
}

#[test]
fn modes_resolve_to_distinct_profiles() {
    let strict = StorageEstimatePolicy::for_mode(Mode::Strict);
    let standard = StorageEstimatePolicy::for_mode(Mode::Standard);
    assert_ne!(strict.profile(), standard.profile());
    assert!((*strict.profile() != *standard.profile()));
}

#[test]
fn storage_estimate_strict_resolution_is_idempotent_and_non_loosenable() {
    let a = StorageEstimatePolicy::for_mode(Mode::Strict);
    let b = StorageEstimatePolicy::for_mode(Mode::Strict);
    assert_eq!(a, b);
    assert_eq!(*a.profile(), *strict_storage_estimate());
}

#[test]
fn storage_estimate_standard_resolution_is_idempotent_and_non_loosenable() {
    let a = StorageEstimatePolicy::for_mode(Mode::Standard);
    let b = StorageEstimatePolicy::for_mode(Mode::Standard);
    assert_eq!(a, b);
    assert_eq!(*a.profile(), *standard_storage_estimate());
}

#[test]
fn storage_estimate_surface_all_covers_phase_file_scope() {
    assert_eq!(StorageEstimateSurface::all().len(), 1);
    assert!(StorageEstimateSurface::all().contains(&StorageEstimateSurface::Estimate));
}

#[test]
fn override_reports_storage_estimate_surface_in_both_modes() {
    assert_eq!(
        StorageEstimateOverride::new(Mode::Standard).surface(),
        WebIdlSurface::StorageEstimate,
    );
    assert_eq!(
        StorageEstimateOverride::new(Mode::Strict).surface(),
        WebIdlSurface::StorageEstimate,
    );
}

#[test]
fn storage_estimate_override_carries_per_mode_policy() {
    let standard = StorageEstimateOverride::new(Mode::Standard);
    let strict = StorageEstimateOverride::new(Mode::Strict);
    assert_ne!(standard.policy(), strict.policy());
    assert_eq!(standard.policy().profile(), standard_storage_estimate());
    assert_eq!(strict.policy().profile(), strict_storage_estimate());
}

#[test]
fn storage_estimate_override_install_is_context_inert() {
    let pid = uuid::Uuid::parse_str("00000000-0000-4000-8000-000000035092").unwrap();
    for mode in [Mode::Standard, Mode::Strict] {
        let ovr = StorageEstimateOverride::new(mode);
        let policy_before = ovr.policy();
        for jsc in JsContext::all() {
            let ctx = OverrideContext::new(mode, pid, *jsc);
            ovr.install(&ctx);
        }
        assert_eq!(ovr.policy(), policy_before);
        assert_eq!(ovr.surface(), WebIdlSurface::StorageEstimate);
    }
}

#[test]
fn storage_estimate_types_are_send_sync() {
    fn assert_send_sync<T: Send + Sync>() {}
    assert_send_sync::<StorageEstimateOverride>();
    assert_send_sync::<StorageEstimatePolicy>();
    assert_send_sync::<StorageEstimateProfile>();
    assert_send_sync::<StorageEstimateSurface>();
}

#[test]
fn storage_estimate_policy_dispatch_is_exhaustive_friendly() {
    fn arm(p: StorageEstimatePolicy) -> &'static str {
        match p {
            StorageEstimatePolicy::Locked(_) => "locked",
        }
    }
    assert_eq!(arm(StorageEstimatePolicy::for_mode(Mode::Strict)), "locked");
    assert_eq!(
        arm(StorageEstimatePolicy::for_mode(Mode::Standard)),
        "locked",
    );
}

#[test]
fn storage_estimate_surface_dispatch_is_exhaustive_friendly() {
    fn route(s: StorageEstimateSurface) -> &'static str {
        match s {
            StorageEstimateSurface::Estimate => "estimate",
        }
    }
    for s in StorageEstimateSurface::all() {
        assert!(!route(*s).is_empty());
    }
}
