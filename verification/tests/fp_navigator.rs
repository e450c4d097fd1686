use devbrowse::config::schema::Mode;
use devbrowse::fingerprint::gecko::navigator::{LOCKED_LANGUAGE, LOCKED_USER_AGENT, NavigatorOverride, NavigatorPolicy, NavigatorProfile, NavigatorSurface, locked_languages, standard_navigator_profile, strict_navigator_profile};
use devbrowse::fingerprint::interface::{FingerprintOverride, JsContext, OverrideContext, WebIdlSurface};

#[test]
fn standard_profile_matches_cohort_definition() {
    assert_eq!(standard_navigator_profile().user_agent, LOCKED_USER_AGENT);
    assert_eq!(standard_navigator_profile().app_name, "Netscape");
    assert_eq!(standard_navigator_profile().app_version, "5.0 (X11)");
    assert_eq!(standard_navigator_profile().vendor, "");
    assert_eq!(standard_navigator_profile().platform, "Linux x86_64");
    assert_eq!(standard_navigator_profile().product, "Gecko");
    assert_eq!(standard_navigator_profile().product_sub, "20100101");
    assert_eq!(standard_navigator_profile().language, "en-US");
    assert_eq!(standard_navigator_profile().languages, &["en-US", "en"]);
    assert_eq!(standard_navigator_profile().hardware_concurrency, 4);
    assert_eq!(standard_navigator_profile().device_memory_gib, 8);
    assert_eq!(standard_navigator_profile().do_not_track, "1");
    assert!(standard_navigator_profile().global_privacy_control);
    assert!(!standard_navigator_profile().webdriver);
    assert_eq!(standard_navigator_profile().plugins_count, 0);
    assert_eq!(standard_navigator_profile().mime_types_count, 0);
}

#[test]
fn strict_profile_matches_cohort_definition() {
    assert_eq!(strict_navigator_profile().user_agent, LOCKED_USER_AGENT);
    assert_eq!(strict_navigator_profile().app_name, "Netscape");
    assert_eq!(strict_navigator_profile().app_version, "5.0 (X11)");
    assert_eq!(strict_navigator_profile().vendor, "");
    assert_eq!(strict_navigator_profile().platform, "Linux x86_64");
    assert_eq!(strict_navigator_profile().product, "Gecko");
    assert_eq!(strict_navigator_profile().product_sub, "20100101");
    assert_eq!(strict_navigator_profile().language, "en-US");
    assert_eq!(strict_navigator_profile().languages, &["en-US", "en"]);
    assert_eq!(strict_navigator_profile().hardware_concurrency, 2);
    assert_eq!(strict_navigator_profile().device_memory_gib, 8);
    assert_eq!(strict_navigator_profile().do_not_track, "1");
    assert!(strict_navigator_profile().global_privacy_control);
    assert!(!strict_navigator_profile().webdriver);
    assert_eq!(strict_navigator_profile().plugins_count, 0);
    assert_eq!(strict_navigator_profile().mime_types_count, 0);
}

#[test]
fn strict_hardware_concurrency_matches_tor_mullvad_firefox_rfp() {
    assert_eq!(strict_navigator_profile().hardware_concurrency, 2);
}

#[test]
fn standard_and_strict_share_every_field_except_hardware_concurrency() {
    assert_eq!(
        standard_navigator_profile().user_agent,
        strict_navigator_profile().user_agent
    );
    assert_eq!(
        standard_navigator_profile().app_name,
        strict_navigator_profile().app_name
    );
    assert_eq!(
        standard_navigator_profile().app_version,
        strict_navigator_profile().app_version
    );
    assert_eq!(
        standard_navigator_profile().vendor,
        strict_navigator_profile().vendor
    );
    assert_eq!(
        standard_navigator_profile().platform,
        strict_navigator_profile().platform
    );
    assert_eq!(
        standard_navigator_profile().product,
        strict_navigator_profile().product
    );
    assert_eq!(
        standard_navigator_profile().product_sub,
        strict_navigator_profile().product_sub
    );
    assert_eq!(
        standard_navigator_profile().language,
        strict_navigator_profile().language
    );
    assert_eq!(
        standard_navigator_profile().languages,
        strict_navigator_profile().languages
    );
    assert_eq!(
        standard_navigator_profile().device_memory_gib,
        strict_navigator_profile().device_memory_gib
    );
    assert_eq!(
        standard_navigator_profile().do_not_track,
        strict_navigator_profile().do_not_track
    );
    assert_eq!(
        standard_navigator_profile().global_privacy_control,
        strict_navigator_profile().global_privacy_control
    );
    assert_eq!(
        standard_navigator_profile().webdriver,
        strict_navigator_profile().webdriver
    );
    assert_eq!(
        standard_navigator_profile().plugins_count,
        strict_navigator_profile().plugins_count
    );
    assert_eq!(
        standard_navigator_profile().mime_types_count,
        strict_navigator_profile().mime_types_count
    );
    assert_ne!(
        standard_navigator_profile().hardware_concurrency,
        strict_navigator_profile().hardware_concurrency
    );
}

#[test]
fn navigator_ua_matches_module_22_constant() {
    const MODULE_22_EXPECTED_UA: &str =
        "Mozilla/5.0 (X11; Linux x86_64; rv:128.0) Gecko/20100101 Firefox/128.0";
    assert_eq!(LOCKED_USER_AGENT, MODULE_22_EXPECTED_UA);
    assert_eq!(standard_navigator_profile().user_agent, MODULE_22_EXPECTED_UA);
    assert_eq!(strict_navigator_profile().user_agent, MODULE_22_EXPECTED_UA);
}

#[test]
fn navigator_language_matches_module_22_accept_language() {
    const MODULE_22_EXPECTED_LANGUAGE: &str = "en-US";
    const MODULE_22_EXPECTED_LANGUAGES: &[&str] = &["en-US", "en"];
    assert_eq!(LOCKED_LANGUAGE, MODULE_22_EXPECTED_LANGUAGE);
    assert_eq!(locked_languages(), MODULE_22_EXPECTED_LANGUAGES);
}

#[test]
fn navigator_dnt_and_gpc_match_module_22_send_flags() {
    assert_eq!(standard_navigator_profile().do_not_track, "1");
    assert!(standard_navigator_profile().global_privacy_control);
    assert_eq!(strict_navigator_profile().do_not_track, "1");
    assert!(strict_navigator_profile().global_privacy_control);
}

#[test]
fn for_mode_picks_per_mode_profile() {
    let s = NavigatorPolicy::for_mode(Mode::Standard);
    let r = NavigatorPolicy::for_mode(Mode::Strict);
    assert!(matches!(s, NavigatorPolicy::Locked(_)));
    assert!(matches!(r, NavigatorPolicy::Locked(_)));
    assert!((*s.profile() == *standard_navigator_profile()));
    assert!((*r.profile() == *strict_navigator_profile()));
    assert!((*s.profile() != *r.profile()));
    assert_eq!(s.profile().hardware_concurrency, 4);
    assert_eq!(r.profile().hardware_concurrency, 2);
}

#[test]
fn navigator_surface_all_covers_idl() {
    assert_eq!(NavigatorSurface::all().len(), 17);
    for v in [
        NavigatorSurface::UserAgent,
        NavigatorSurface::AppName,
        NavigatorSurface::AppVersion,
        NavigatorSurface::Vendor,
        NavigatorSurface::Platform,
        NavigatorSurface::Product,
        NavigatorSurface::ProductSub,
        NavigatorSurface::Language,
        NavigatorSurface::Languages,
        NavigatorSurface::HardwareConcurrency,
        NavigatorSurface::DeviceMemory,
        NavigatorSurface::Plugins,
        NavigatorSurface::MimeTypes,
        NavigatorSurface::UserAgentData,
        NavigatorSurface::Webdriver,
        NavigatorSurface::DoNotTrack,
        NavigatorSurface::GlobalPrivacyControl,
    ] {
        assert!(
            NavigatorSurface::all().contains(&v),
            "missing surface: {:?}",
            v
        );
    }
}

#[test]
fn navigator_override_reports_navigator_surface_under_both_modes() {
    assert_eq!(
        NavigatorOverride::new(Mode::Standard).surface(),
        WebIdlSurface::Navigator
    );
    assert_eq!(
        NavigatorOverride::new(Mode::Strict).surface(),
        WebIdlSurface::Navigator
    );
}

#[test]
fn override_carries_per_mode_profile() {
    let standard = NavigatorOverride::new(Mode::Standard);
    let strict = NavigatorOverride::new(Mode::Strict);
    assert!((*standard.profile() == *standard_navigator_profile()));
    assert!((*strict.profile() == *strict_navigator_profile()));
    assert!((*standard.profile() != *strict.profile()));
    assert_eq!(standard.profile().hardware_concurrency, 4);
    assert_eq!(strict.profile().hardware_concurrency, 2);
}

#[test]
fn navigator_override_install_is_context_inert() {
    let pid = uuid::Uuid::parse_str("00000000-0000-4000-8000-000000000034").unwrap();
    for mode in [Mode::Standard, Mode::Strict] {
        let ovr = NavigatorOverride::new(mode);
        let policy_before = ovr.policy();
        for jsc in JsContext::all() {
            let ctx = OverrideContext::new(mode, pid, *jsc);
            ovr.install(&ctx);
        }
        assert_eq!(ovr.policy(), policy_before);
        assert_eq!(ovr.surface(), WebIdlSurface::Navigator);
    }
}

#[test]
fn navigator_override_is_send_sync() {
    fn assert_send_sync<T: Send + Sync>() {}
    assert_send_sync::<NavigatorOverride>();
    assert_send_sync::<NavigatorPolicy>();
    assert_send_sync::<NavigatorProfile>();
}

#[test]
fn navigator_surface_dispatch_is_exhaustive_friendly() {
    fn route(s: NavigatorSurface) -> &'static str {
        match s {
            NavigatorSurface::UserAgent => "user-agent",
            NavigatorSurface::AppName => "app-name",
            NavigatorSurface::AppVersion => "app-version",
            NavigatorSurface::Vendor => "vendor",
            NavigatorSurface::Platform => "platform",
            NavigatorSurface::Product => "product",
            NavigatorSurface::ProductSub => "product-sub",
            NavigatorSurface::Language => "language",
            NavigatorSurface::Languages => "languages",
            NavigatorSurface::HardwareConcurrency => "hardware-concurrency",
            NavigatorSurface::DeviceMemory => "device-memory",
            NavigatorSurface::Plugins => "plugins",
            NavigatorSurface::MimeTypes => "mime-types",
            NavigatorSurface::UserAgentData => "user-agent-data",
            NavigatorSurface::Webdriver => "webdriver",
            NavigatorSurface::DoNotTrack => "do-not-track",
            NavigatorSurface::GlobalPrivacyControl => "global-privacy-control",
        }
    }
    for s in NavigatorSurface::all() {
        assert!(!route(*s).is_empty());
    }
}

#[test]
fn navigator_policy_dispatch_is_exhaustive_friendly() {
    fn arm(p: NavigatorPolicy) -> &'static str {
        match p {
            NavigatorPolicy::Locked(_) => "locked",
        }
    }
    assert_eq!(arm(NavigatorPolicy::for_mode(Mode::Standard)), "locked");
    assert_eq!(arm(NavigatorPolicy::for_mode(Mode::Strict)), "locked");
}
