use devbrowse::config::loader::{ConfigError, validate};
use devbrowse::config::schema::{CURRENT_SCHEMA_VERSION, Config, DohProvider, Mode, SearchEngine, SyncBackend, SyncConfig};
#[test]
fn validate_default_config_passes() {
    let cfg = Config::default();
    validate(&cfg).expect("default config must pass validation");
}

#[test]
fn validate_rejects_http_custom_doh() {
    let mut cfg = Config::default();
    cfg.network.provider = DohProvider::Custom {
        url: "http://insecure.example/dns-query".into(),
    };
    match validate(&cfg) {
        Err(ConfigError::Validation(_)) => {}
        other => panic!("expected Validation error, got {other:?}"),
    }
}

#[test]
fn validate_rejects_system_dns_with_strict_default() {
    let mut cfg = Config::default();
    cfg.privacy.default_mode = Mode::Strict;
    cfg.network.provider = DohProvider::System;
    match validate(&cfg) {
        Err(ConfigError::Validation(_)) => {}
        other => panic!("expected Validation error, got {other:?}"),
    }
}

#[test]
fn validate_accepts_system_dns_with_standard_default() {
    let mut cfg = Config::default();
    cfg.network.provider = DohProvider::System;
    validate(&cfg).expect("system DNS is allowed in Standard mode");
}

#[test]
fn validate_accepts_curated_doh_providers() {
    for provider in [
        DohProvider::NextDns,
        DohProvider::Cloudflare,
        DohProvider::Quad9,
    ] {
        let mut cfg = Config::default();
        cfg.network.provider = provider.clone();
        validate(&cfg)
            .unwrap_or_else(|e| panic!("curated provider {provider:?} must validate: {e:?}"));
    }
}

#[test]
fn validate_rejects_custom_search_without_https() {
    let mut cfg = Config::default();
    cfg.search.default_engine = SearchEngine::Custom {
        url: "http://example.com/?q={query}".into(),
    };
    match validate(&cfg) {
        Err(ConfigError::Validation(_)) => {}
        other => panic!("expected Validation error, got {other:?}"),
    }
}

#[test]
fn validate_rejects_custom_search_without_query_placeholder() {
    let mut cfg = Config::default();
    cfg.search.default_engine = SearchEngine::Custom {
        url: "https://example.com/no-placeholder".into(),
    };
    match validate(&cfg) {
        Err(ConfigError::Validation(_)) => {}
        other => panic!("expected Validation error, got {other:?}"),
    }
}

#[test]
fn validate_rejects_sync_enabled_without_backend() {
    let cfg = Config {
        sync: SyncConfig {
            enabled: true,
            backend: None,
        },
        ..Config::default()
    };
    match validate(&cfg) {
        Err(ConfigError::Validation(_)) => {}
        other => panic!("expected Validation error, got {other:?}"),
    }
}

#[test]
fn validate_rejects_http_webdav() {
    let cfg = Config {
        sync: SyncConfig {
            enabled: true,
            backend: Some(SyncBackend::WebDav {
                url: "http://evil.example/dav".into(),
            }),
        },
        ..Config::default()
    };
    match validate(&cfg) {
        Err(ConfigError::Validation(_)) => {}
        other => panic!("expected Validation error, got {other:?}"),
    }
}

#[test]
fn validate_accepts_localhost_webdav_for_self_host() {
    let cfg = Config {
        sync: SyncConfig {
            enabled: true,
            backend: Some(SyncBackend::WebDav {
                url: "http://localhost:8080/dav".into(),
            }),
        },
        ..Config::default()
    };
    validate(&cfg).expect("self-hosted localhost WebDAV must be allowed");
}

#[test]
fn validate_rejects_wrong_schema_version() {
    let cfg = Config {
        version: 9999,
        ..Config::default()
    };
    match validate(&cfg) {
        Err(ConfigError::SchemaVersion {
            found: 9999,
            expected,
        }) => assert_eq!(expected, CURRENT_SCHEMA_VERSION),
        other => panic!("expected SchemaVersion error, got {other:?}"),
    }
}

