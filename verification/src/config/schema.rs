//! Typed configuration: one struct per section, with the locked
//! privacy-first defaults (DuckDuckGo search, translation and spellcheck
//! off, sync off, telemetry off, Quad9 DNS-over-HTTPS).
use vstd::prelude::*;

verus! {

/// Schema version this build reads and writes.
pub const CURRENT_SCHEMA_VERSION: u32 = 1;

#[verifier::external_type_specification]
#[verifier::external_body]
pub struct ExPathBuf(std::path::PathBuf);

/// `PathBuf::clone`, which the derived `Clone` impls call; nothing is
/// claimed of the copy.
pub assume_specification[ <std::path::PathBuf as Clone>::clone ](p: &std::path::PathBuf) -> std::path::PathBuf;

/// Privacy posture suggested for new identity profiles.
#[derive(Debug, Clone, Copy, PartialEq, Eq, Structural)]
pub enum Mode {
    Standard,
    Strict,
}

impl Default for Mode {
    fn default() -> (r: Self)
        ensures
            r == Mode::Standard,
    {
        Mode::Standard
    }
}

/// Fingerprint bucketing level.
#[derive(Debug, Clone, Copy, PartialEq, Eq, Structural)]
pub enum FingerprintLevel {
    /// Coarse bucketing.
    Standard,
    /// Tight bucketing, full hardware identifier normalization.
    Strict,
}

impl Default for FingerprintLevel {
    fn default() -> (r: Self)
        ensures
            r == FingerprintLevel::Standard,
    {
        FingerprintLevel::Standard
    }
}

#[derive(Debug, Clone, PartialEq, Eq)]
pub struct PrivacyConfig {
    pub default_mode: Mode,
    pub fingerprint_level: FingerprintLevel,
    /// Off by default; local-only when on.
    pub translation_enabled: bool,
    /// Off by default; local-only when on.
    pub spellcheck_enabled: bool,
}

impl Default for PrivacyConfig {
    fn default() -> (r: Self)
        ensures
            r == (PrivacyConfig {
                default_mode: Mode::Standard,
                fingerprint_level: FingerprintLevel::Standard,
                translation_enabled: false,
                spellcheck_enabled: false,
            }),
    {
        PrivacyConfig {
            default_mode: Mode::default(),
            fingerprint_level: FingerprintLevel::default(),
            translation_enabled: false,
            spellcheck_enabled: false,
        }
    }
}

/// DNS-over-HTTPS provider. Quad9 is the default; `System` (no DoH) is
/// refused when the default mode is Strict; a `Custom` URL must be HTTPS.
#[derive(Debug, Clone, PartialEq, Eq)]
pub enum DohProvider {
    Quad9,
    NextDns,
    Cloudflare,
    System,
    Custom { url: String },
}

impl Default for DohProvider {
    fn default() -> (r: Self)
        ensures
            r == DohProvider::Quad9,
    {
        DohProvider::Quad9
    }
}

#[derive(Debug, Clone, PartialEq, Eq)]
pub struct NetworkConfig {
    pub provider: DohProvider,
}

impl Default for NetworkConfig {
    fn default() -> (r: Self)
        ensures
            r == (NetworkConfig { provider: DohProvider::Quad9 }),
    {
        NetworkConfig { provider: DohProvider::default() }
    }
}

/// The default of `storage.strict_wipe_on_close` when it is omitted.
pub fn default_true() -> (r: bool)
    ensures
        r,
{
    true
}

#[derive(Debug, Clone, PartialEq, Eq)]
pub struct StorageConfig {
    /// `None` = OS default data directory.
    pub data_dir: Option<std::path::PathBuf>,
    /// Strict-mode tabs wipe their partition on close; always true in v1.
    pub strict_wipe_on_close: bool,
}

impl Default for StorageConfig {
    fn default() -> (r: Self)
        ensures
            r.data_dir is None,
            r.strict_wipe_on_close,
    {
        StorageConfig { data_dir: None, strict_wipe_on_close: default_true() }
    }
}

/// Default search engine; a `Custom` URL must be HTTPS and contain a
/// `{query}` placeholder.
#[derive(Debug, Clone, PartialEq, Eq)]
pub enum SearchEngine {
    DuckDuckGo,
    Startpage,
    BraveSearch,
    Mojeek,
    Custom { url: String },
}

impl Default for SearchEngine {
    fn default() -> (r: Self)
        ensures
            r == SearchEngine::DuckDuckGo,
    {
        SearchEngine::DuckDuckGo
    }
}

#[derive(Debug, Clone, PartialEq, Eq)]
pub struct SearchConfig {
    pub default_engine: SearchEngine,
    /// Suggestions go only through the chosen engine.
    pub suggestions_enabled: bool,
}

impl Default for SearchConfig {
    fn default() -> (r: Self)
        ensures
            r == (SearchConfig { default_engine: SearchEngine::DuckDuckGo, suggestions_enabled: true }),
    {
        SearchConfig { default_engine: SearchEngine::default(), suggestions_enabled: true }
    }
}

#[derive(Debug, Clone, Copy, PartialEq, Eq, Structural)]
pub enum Theme {
    System,
    Light,
    Dark,
}

impl Default for Theme {
    fn default() -> (r: Self)
        ensures
            r == Theme::System,
    {
        Theme::System
    }
}

/// Tab strip layout; `SidebarHover` is the default.
#[derive(Debug, Clone, Copy, PartialEq, Eq, Structural)]
pub enum TabLayout {
    SidebarHover,
    TopHorizontal,
    FullVertical,
}

impl Default for TabLayout {
    fn default() -> (r: Self)
        ensures
            r == TabLayout::SidebarHover,
    {
        TabLayout::SidebarHover
    }
}

#[derive(Debug, Clone, PartialEq, Eq)]
pub struct UiConfig {
    pub theme: Theme,
    /// Identity selector visible in the tab strip.
    pub show_identity_in_tab_bar: bool,
    pub tab_layout: TabLayout,
    /// Honour the OS "reduce transparency" setting.
    pub reduce_transparency: bool,
}

impl Default for UiConfig {
    fn default() -> (r: Self)
        ensures
            r == (UiConfig {
                theme: Theme::System,
                show_identity_in_tab_bar: true,
                tab_layout: TabLayout::SidebarHover,
                reduce_transparency: false,
            }),
    {
        UiConfig {
            theme: Theme::default(),
            show_identity_in_tab_bar: true,
            tab_layout: TabLayout::default(),
            reduce_transparency: false,
        }
    }
}

#[derive(Debug, Clone, PartialEq, Eq)]
pub struct WizardConfig {
    /// Whether the first-launch wizard has been completed.
    pub completed: bool,
    /// Schema version at which the wizard was last completed.
    pub completed_at_version: Option<u32>,
}

impl Default for WizardConfig {
    fn default() -> (r: Self)
        ensures
            r == (WizardConfig { completed: false, completed_at_version: None }),
    {
        WizardConfig { completed: false, completed_at_version: None }
    }
}

/// Bring-your-own-cloud sync backend. A WebDAV URL must be HTTPS (or
/// plain HTTP to localhost for self-hosting).
#[derive(Debug, Clone, PartialEq, Eq)]
pub enum SyncBackend {
    WebDav { url: String },
    GoogleDrive,
    ICloud,
    Dropbox,
    OneDrive,
    /// Local file backup/import.
    LocalFile { path: std::path::PathBuf },
}

#[derive(Debug, Clone, PartialEq, Eq)]
pub struct SyncConfig {
    /// Off by default.
    pub enabled: bool,
    /// Required whenever `enabled` is true.
    pub backend: Option<SyncBackend>,
}

impl Default for SyncConfig {
    fn default() -> (r: Self)
        ensures
            r.enabled == false,
            r.backend is None,
    {
        SyncConfig { enabled: false, backend: None }
    }
}

#[derive(Debug, Clone, PartialEq, Eq)]
pub struct TelemetryConfig {
    /// Persisted "no" from the wizard; never read as true.
    pub enabled: bool,
}

impl Default for TelemetryConfig {
    fn default() -> (r: Self)
        ensures
            r == (TelemetryConfig { enabled: false }),
    {
        TelemetryConfig { enabled: false }
    }
}

/// History retention window (Standard mode only).
#[derive(Debug, Clone, Copy, PartialEq, Eq, Structural)]
pub enum HistoryRetention {
    Forever,
    Session,
    Week,
    Month,
}

impl Default for HistoryRetention {
    fn default() -> (r: Self)
        ensures
            r == HistoryRetention::Forever,
    {
        HistoryRetention::Forever
    }
}

#[derive(Debug, Clone, PartialEq, Eq)]
pub struct HistoryConfig {
    pub retention: HistoryRetention,
}

impl Default for HistoryConfig {
    fn default() -> (r: Self)
        ensures
            r == (HistoryConfig { retention: HistoryRetention::Forever }),
    {
        HistoryConfig { retention: HistoryRetention::default() }
    }
}

#[derive(Debug, Clone, PartialEq, Eq)]
pub struct LoggingConfig {
    /// Off by default: logs stay in a RAM ring buffer.
    pub disk_logging_enabled: bool,
}

impl Default for LoggingConfig {
    fn default() -> (r: Self)
        ensures
            r == (LoggingConfig { disk_logging_enabled: false }),
    {
        LoggingConfig { disk_logging_enabled: false }
    }
}

/// The whole configuration file.
#[derive(Debug, Clone, PartialEq, Eq)]
pub struct Config {
    pub version: u32,
    pub privacy: PrivacyConfig,
    pub network: NetworkConfig,
    pub storage: StorageConfig,
    pub search: SearchConfig,
    pub ui: UiConfig,
    pub history: HistoryConfig,
    pub logging: LoggingConfig,
    pub wizard: WizardConfig,
    pub sync: SyncConfig,
    pub telemetry: TelemetryConfig,
}

/// The locked defaults.
pub open spec fn is_default_config(c: Config) -> bool {
    &&& c.version == CURRENT_SCHEMA_VERSION
    &&& c.privacy == PrivacyConfig {
        default_mode: Mode::Standard,
        fingerprint_level: FingerprintLevel::Standard,
        translation_enabled: false,
        spellcheck_enabled: false,
    }
    &&& c.network == NetworkConfig { provider: DohProvider::Quad9 }
    &&& c.storage.data_dir is None
    &&& c.storage.strict_wipe_on_close
    &&& c.search == SearchConfig {
        default_engine: SearchEngine::DuckDuckGo,
        suggestions_enabled: true,
    }
    &&& c.ui == UiConfig {
        theme: Theme::System,
        show_identity_in_tab_bar: true,
        tab_layout: TabLayout::SidebarHover,
        reduce_transparency: false,
    }
    &&& c.history == HistoryConfig { retention: HistoryRetention::Forever }
    &&& c.logging == LoggingConfig { disk_logging_enabled: false }
    &&& c.wizard == WizardConfig { completed: false, completed_at_version: None }
    &&& !c.sync.enabled
    &&& c.sync.backend is None
    &&& c.telemetry == TelemetryConfig { enabled: false }
}

impl Default for Config {
    fn default() -> (r: Self)
        ensures
            is_default_config(r),
    {
        Config {
            version: CURRENT_SCHEMA_VERSION,
            privacy: PrivacyConfig::default(),
            network: NetworkConfig::default(),
            storage: StorageConfig::default(),
            search: SearchConfig::default(),
            ui: UiConfig::default(),
            history: HistoryConfig::default(),
            logging: LoggingConfig::default(),
            wizard: WizardConfig::default(),
            sync: SyncConfig::default(),
            telemetry: TelemetryConfig::default(),
        }
    }
}

} // verus!
