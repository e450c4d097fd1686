use devbrowse::config::schema::{CURRENT_SCHEMA_VERSION, Config, DohProvider, FingerprintLevel, HistoryRetention, Mode, SearchEngine, SyncBackend, SyncConfig, TabLayout};
#[test]
fn defaults_match_locked_policy() {
    let c = Config::default();
    assert_eq!(c.version, CURRENT_SCHEMA_VERSION);
    assert_eq!(c.privacy.default_mode, Mode::Standard);
    assert_eq!(c.privacy.fingerprint_level, FingerprintLevel::Standard);
    assert!(
        !c.privacy.translation_enabled,
        "translation OFF by default"
    );
    assert!(
        !c.privacy.spellcheck_enabled,
        "spellcheck OFF by default"
    );
    assert_eq!(
        c.network.provider,
        DohProvider::Quad9,
        "Quad9 is the locked default DoH provider; NextDNS \
         requires a wizard-supplied config ID and is persisted as Custom"
    );
    assert!(
        c.storage.strict_wipe_on_close,
        "Strict-wipe is mandatory"
    );
    assert_eq!(
        c.search.default_engine,
        SearchEngine::DuckDuckGo,
        "DDG default"
    );
    assert!(
        c.search.suggestions_enabled,
        "suggestions ON via chosen engine"
    );
    assert!(
        c.ui.show_identity_in_tab_bar,
        "Identity selector is a flagship UX"
    );
    assert_eq!(
        c.ui.tab_layout,
        TabLayout::SidebarHover,
        "sidebar-hover is the locked v1 default layout"
    );
    assert!(
        !c.ui.reduce_transparency,
        "transparency not forced off by default; user opts in via OS setting"
    );
    assert_eq!(
        c.history.retention,
        HistoryRetention::Forever,
        "history retention default is forever"
    );
    assert!(
        !c.logging.disk_logging_enabled,
        "logs stay in RAM by default; disk opt-in only"
    );
    assert!(!c.wizard.completed);
    assert!(c.wizard.completed_at_version.is_none());
    assert!(!c.sync.enabled, "sync OFF until wizard");
    assert!(c.sync.backend.is_none());
    assert!(!c.telemetry.enabled, "Anti-goal: telemetry forbidden");
}

