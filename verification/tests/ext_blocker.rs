use devbrowse::config::schema::Mode;
use devbrowse::extensions::blocker::{BlockMechanism, BlockerPolicy, ExtensionApiSurface, block_for_mode, surfaces_blocked_for_mode};
#[test]
fn all_enumerates_five_strict_blocked_families() {
    assert_eq!(ExtensionApiSurface::all().len(), 5);
}

#[test]
fn all_covers_every_phase_file_named_family() {
    let all = ExtensionApiSurface::all();
    assert!(all.contains(&ExtensionApiSurface::WebExtensionGlobals));
    assert!(all.contains(&ExtensionApiSurface::ContentScripts));
    assert!(all.contains(&ExtensionApiSurface::BackgroundContexts));
    assert!(all.contains(&ExtensionApiSurface::DeclarativeNetRequest));
    assert!(all.contains(&ExtensionApiSurface::BootstrappedManifest));
}

#[test]
fn legacy_bootstrap_manifest_is_a_blocked_family() {
    assert!(ExtensionApiSurface::all().contains(&ExtensionApiSurface::BootstrappedManifest));
    assert_eq!(
        ExtensionApiSurface::BootstrappedManifest.block_mechanism(),
        BlockMechanism::ManifestEntryRefused,
        "bootstrap manifests must be refused at parse, not lazily at tab spawn",
    );
}

#[test]
fn declarative_net_request_is_a_blocked_family() {
    assert!(ExtensionApiSurface::all().contains(&ExtensionApiSurface::DeclarativeNetRequest));
    assert_eq!(
        ExtensionApiSurface::DeclarativeNetRequest.block_mechanism(),
        BlockMechanism::ManifestEntryRefused,
        "DNR rules must be dropped at manifest parse so they never reach pb-network broker",
    );
}

#[test]
fn web_request_is_not_in_this_list() {
    for surface in ExtensionApiSurface::all() {
        for js_name in surface.js_surfaces() {
            let lower = js_name.to_lowercase();
            assert!(
                !lower.contains("webrequest"),
                "the blocker must not enumerate webRequest ({js_name:?} in {surface:?}); \
                 the network broker owns that block",
            );
            assert!(
                !lower.contains("webnavigation"),
                "the blocker must not enumerate webNavigation ({js_name:?} in {surface:?}); \
                 network observation surfaces are pb-network broker territory",
            );
        }
    }
}

#[test]
fn block_for_mode_strict_returns_all_blocked() {
    assert_eq!(block_for_mode(Mode::Strict), BlockerPolicy::AllBlocked);
}

#[test]
fn block_for_mode_standard_delegates_to_module_41() {
    assert_eq!(
        block_for_mode(Mode::Standard),
        BlockerPolicy::StandardSubjectToAllowlist,
    );
}

#[test]
fn block_for_mode_strict_is_pure_on_mode_only() {
    for _ in 0..16 {
        assert_eq!(block_for_mode(Mode::Strict), BlockerPolicy::AllBlocked);
    }
}

#[test]
fn surfaces_blocked_for_mode_strict_returns_full_all() {
    let strict = surfaces_blocked_for_mode(Mode::Strict);
    assert_eq!(strict.len(), ExtensionApiSurface::all().len());
    assert_eq!(strict, ExtensionApiSurface::all());
}

#[test]
fn surfaces_blocked_for_mode_standard_returns_empty() {
    assert!(surfaces_blocked_for_mode(Mode::Standard).is_empty());
}

#[test]
fn every_family_has_a_block_mechanism() {
    for surface in ExtensionApiSurface::all() {
        let _ = surface.block_mechanism();
    }
}

#[test]
fn every_family_has_at_least_one_js_surface() {
    for surface in ExtensionApiSurface::all() {
        let names = surface.js_surfaces();
        assert!(
            !names.is_empty(),
            "{surface:?} must enumerate at least one WebExtension API name / manifest key",
        );
        for name in names {
            assert!(
                !name.is_empty(),
                "{surface:?} js_surface name must be non-empty",
            );
        }
    }
}

#[test]
fn block_mechanism_cluster_assignment_matches_design() {
    assert_eq!(
        ExtensionApiSurface::WebExtensionGlobals.block_mechanism(),
        BlockMechanism::ApiGlobalAbsent,
    );
    assert_eq!(
        ExtensionApiSurface::ContentScripts.block_mechanism(),
        BlockMechanism::RuntimeContextNotSpawned,
    );
    assert_eq!(
        ExtensionApiSurface::BackgroundContexts.block_mechanism(),
        BlockMechanism::RuntimeContextNotSpawned,
    );
    assert_eq!(
        ExtensionApiSurface::DeclarativeNetRequest.block_mechanism(),
        BlockMechanism::ManifestEntryRefused,
    );
    assert_eq!(
        ExtensionApiSurface::BootstrappedManifest.block_mechanism(),
        BlockMechanism::ManifestEntryRefused,
    );
}

#[test]
fn web_extension_globals_enumerates_both_namespaces() {
    let names = ExtensionApiSurface::WebExtensionGlobals.js_surfaces();
    assert!(names.contains(&"browser"));
    assert!(names.contains(&"chrome"));
}

#[test]
fn every_browser_namespaced_surface_has_chrome_compat_pair() {
    for surface in ExtensionApiSurface::all() {
        if matches!(surface, ExtensionApiSurface::WebExtensionGlobals) {
            continue;
        }
        let names = surface.js_surfaces();
        let browser_calls: Vec<&str> = names
            .iter()
            .filter(|n| n.starts_with("browser."))
            .copied()
            .collect();
        let chrome_calls: Vec<&str> = names
            .iter()
            .filter(|n| n.starts_with("chrome."))
            .copied()
            .collect();
        for b in &browser_calls {
            let tail = b.strip_prefix("browser.").unwrap();
            let expected = format!("chrome.{tail}");
            assert!(
                chrome_calls.iter().any(|c| *c == expected),
                "{surface:?} lists {b:?} (Firefox-native) but is missing its Chrome-compat shim {expected:?}; \
                 Gecko exposes both — darking only one leaves a probe surface",
            );
        }
        for c in &chrome_calls {
            let tail = c.strip_prefix("chrome.").unwrap();
            let expected = format!("browser.{tail}");
            assert!(
                browser_calls.iter().any(|b| *b == expected),
                "{surface:?} lists {c:?} (Chrome-compat shim) but is missing its Firefox-native pair {expected:?}",
            );
        }
    }
}
