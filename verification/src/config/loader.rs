//! Schema-level validation of a configuration, and the error type of the
//! load / save path.
use vstd::prelude::*;
use crate::text::{contains, debug_str, is_prefix, spec_debug_str, str_contains, str_starts_with};
use super::schema::{
    is_default_config, Config, DohProvider, Mode, SearchEngine, SyncBackend, SyncConfig,
    CURRENT_SCHEMA_VERSION,
};

verus! {

#[verifier::external_type_specification]
#[verifier::external_body]
pub struct ExIoError(std::io::Error);

#[verifier::external_type_specification]
#[verifier::external_body]
pub struct ExTomlDeError(toml::de::Error);

#[verifier::external_type_specification]
#[verifier::external_body]
pub struct ExTomlSerError(toml::ser::Error);

/// Why a configuration could not be loaded, saved, or accepted.
#[derive(Debug)]
pub enum ConfigError {
    Io(std::io::Error),
    Parse(toml::de::Error),
    Serialize(toml::ser::Error),
    SchemaVersion { found: u32, expected: u32 },
    Validation(String),
    Permission(String),
}

pub open spec fn https() -> Seq<char> {
    "https://"@
}

/// A WebDAV URL must be HTTPS, or plain HTTP to localhost.
pub open spec fn webdav_url_ok(url: Seq<char>) -> bool {
    is_prefix("https://"@, url) || is_prefix("http://localhost"@, url) || is_prefix(
        "http://127.0.0.1"@,
        url,
    )
}

/// Strict default mode with the OS resolver (no DNS-over-HTTPS).
pub open spec fn strict_with_system_dns(c: Config) -> bool {
    c.privacy.default_mode == Mode::Strict && c.network.provider is System
}

pub open spec fn custom_doh_not_https(c: Config) -> bool {
    c.network.provider matches DohProvider::Custom { url } && !is_prefix(https(), url@)
}

pub open spec fn custom_search_not_https(c: Config) -> bool {
    c.search.default_engine matches SearchEngine::Custom { url } && !is_prefix(https(), url@)
}

pub open spec fn custom_search_without_placeholder(c: Config) -> bool {
    c.search.default_engine matches SearchEngine::Custom { url } && !contains(url@, "{query}"@)
}

pub open spec fn sync_without_backend(c: Config) -> bool {
    c.sync.enabled && c.sync.backend is None
}

pub open spec fn webdav_not_secure(c: Config) -> bool {
    c.sync.backend matches Some(SyncBackend::WebDav { url }) && !webdav_url_ok(url@)
}

/// The configuration passes every schema-level check.
pub open spec fn config_valid(c: Config) -> bool {
    &&& c.version == CURRENT_SCHEMA_VERSION
    &&& !strict_with_system_dns(c)
    &&& !custom_doh_not_https(c)
    &&& !custom_search_not_https(c)
    &&& !custom_search_without_placeholder(c)
    &&& !sync_without_backend(c)
    &&& !webdav_not_secure(c)
}

/// Abstract outcome of validation.
pub enum ValidationModel {
    Valid,
    SchemaVersion { found: u32, expected: u32 },
    Invalid(Seq<char>),
    Other,
}

pub open spec fn validation_view(r: Result<(), ConfigError>) -> ValidationModel {
    match r {
        Ok(()) => ValidationModel::Valid,
        Err(ConfigError::SchemaVersion { found, expected }) => ValidationModel::SchemaVersion {
            found,
            expected,
        },
        Err(ConfigError::Validation(m)) => ValidationModel::Invalid(m@),
        Err(_) => ValidationModel::Other,
    }
}

/// The checks in order; the first failure is reported with its message.
pub open spec fn spec_validate(c: Config) -> ValidationModel {
    if c.version != CURRENT_SCHEMA_VERSION {
        ValidationModel::SchemaVersion { found: c.version, expected: CURRENT_SCHEMA_VERSION }
    } else if strict_with_system_dns(c) {
        ValidationModel::Invalid(
            "network.provider = system is not allowed when privacy.default_mode = strict"@,
        )
    } else if custom_doh_not_https(c) {
        ValidationModel::Invalid(
            "network.provider custom URL must be https://, got "@ + spec_debug_str(
                c.network.provider->url@,
            ),
        )
    } else if custom_search_not_https(c) {
        ValidationModel::Invalid(
            "search.default_engine custom URL must be https://, got "@ + spec_debug_str(
                c.search.default_engine->url@,
            ),
        )
    } else if custom_search_without_placeholder(c) {
        ValidationModel::Invalid(
            "search.default_engine custom URL must contain a {query} placeholder"@,
        )
    } else if sync_without_backend(c) {
        ValidationModel::Invalid("sync.enabled = true requires sync.backend to be set"@)
    } else if webdav_not_secure(c) {
        ValidationModel::Invalid(
            "sync.backend webdav.url must be https:// (or http://localhost for self-host), got "@
                + spec_debug_str(c.sync.backend->0->url@),
        )
    } else {
        ValidationModel::Valid
    }
}

/// The default configuration passes every check.
pub proof fn lemma_default_config_valid(c: Config)
    requires
        is_default_config(c),
    ensures
        config_valid(c),
        spec_validate(c) == ValidationModel::Valid,
{
}

/// Turning on sync with a WebDAV backend keeps a valid configuration valid
/// exactly when the URL starts with `https://`, or is plain HTTP to the
/// local machine: `http://localhost` or `http://127.0.0.1`. In particular
/// the default configuration with such a backend validates.
pub proof fn lemma_webdav_backend_accepted(c: Config, url: String)
    requires
        spec_validate(c) == ValidationModel::Valid,
    ensures
        ({
            let c2 = Config {
                sync: SyncConfig { enabled: true, backend: Some(SyncBackend::WebDav { url }) },
                ..c
            };
            spec_validate(c2) == ValidationModel::Valid <==> (is_prefix("https://"@, url@)
                || is_prefix("http://localhost"@, url@) || is_prefix("http://127.0.0.1"@, url@))
        }),
{
}

/// Schema-level invariants checked on every load and save, in order: the
/// schema version; no OS resolver under a Strict default; custom DoH
/// URL is HTTPS; custom search URL is HTTPS and has a `{query}`
/// placeholder; sync enabled implies a backend; WebDAV URL is HTTPS or
/// localhost. The first failing check is reported.
pub fn validate(cfg: &Config) -> (r: Result<(), ConfigError>)
    ensures
        r is Ok <==> config_valid(*cfg),
        validation_view(r) == spec_validate(*cfg),
{
    if cfg.version != CURRENT_SCHEMA_VERSION {
        return Err(
            ConfigError::SchemaVersion { found: cfg.version, expected: CURRENT_SCHEMA_VERSION },
        );
    }
    if cfg.privacy.default_mode == Mode::Strict && matches!(cfg.network.provider, DohProvider::System) {
        return Err(
            ConfigError::Validation(
                String::from_str(
                    "network.provider = system is not allowed when privacy.default_mode = strict",
                ),
            ),
        );
    }
    if let DohProvider::Custom { url } = &cfg.network.provider {
        if !str_starts_with(url.as_str(), "https://") {
            let msg = String::from_str("network.provider custom URL must be https://, got ");
            let d = debug_str(url.as_str());
            return Err(ConfigError::Validation(msg.concat(d.as_str())));
        }
    }
    if let SearchEngine::Custom { url } = &cfg.search.default_engine {
        if !str_starts_with(url.as_str(), "https://") {
            let msg = String::from_str("search.default_engine custom URL must be https://, got ");
            let d = debug_str(url.as_str());
            return Err(ConfigError::Validation(msg.concat(d.as_str())));
        }
        if !str_contains(url.as_str(), "{query}") {
            return Err(
                ConfigError::Validation(
                    String::from_str(
                        "search.default_engine custom URL must contain a {query} placeholder",
                    ),
                ),
            );
        }
    }
    if cfg.sync.enabled && cfg.sync.backend.is_none() {
        return Err(
            ConfigError::Validation(
                String::from_str("sync.enabled = true requires sync.backend to be set"),
            ),
        );
    }
    if let Some(SyncBackend::WebDav { url }) = &cfg.sync.backend {
        let is_localhost_http = str_starts_with(url.as_str(), "http://localhost")
            || str_starts_with(url.as_str(), "http://127.0.0.1");
        if !(str_starts_with(url.as_str(), "https://") || is_localhost_http) {
            let msg = String::from_str(
                "sync.backend webdav.url must be https:// (or http://localhost for self-host), got ",
            );
            let d = debug_str(url.as_str());
            return Err(ConfigError::Validation(msg.concat(d.as_str())));
        }
    }
    Ok(())
}

} // verus!
