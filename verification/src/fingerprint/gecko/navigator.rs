//! `navigator.*` identity fields: a locked Firefox-ESR-on-Linux profile in
//! both modes; Strict reports fewer cores.
use vstd::prelude::*;
use crate::config::schema::Mode;
use crate::fingerprint::interface::{FingerprintOverride, OverrideContext, WebIdlSurface};

verus! {

/// The locked user-agent string.
pub const LOCKED_USER_AGENT: &'static str =
    "Mozilla/5.0 (X11; Linux x86_64; rv:128.0) Gecko/20100101 Firefox/128.0";

/// The locked primary language.
pub const LOCKED_LANGUAGE: &'static str = "en-US";

/// The locked `navigator.languages` list.
pub open spec fn spec_locked_languages() -> Seq<&'static str> {
    seq!["en-US", "en"]
}

pub fn locked_languages() -> (r: &'static [&'static str])
    ensures
        r@ == spec_locked_languages(),
{
    &["en-US", "en"]
}

/// Every value `navigator` reports.
#[derive(Debug, Clone, Copy, PartialEq, Eq, Hash)]
pub struct NavigatorProfile {
    pub user_agent: &'static str,
    pub app_name: &'static str,
    pub app_version: &'static str,
    pub vendor: &'static str,
    pub platform: &'static str,
    pub product: &'static str,
    pub product_sub: &'static str,
    pub language: &'static str,
    pub languages: &'static [&'static str],
    pub hardware_concurrency: u32,
    pub device_memory_gib: u32,
    pub do_not_track: &'static str,
    pub global_privacy_control: bool,
    pub webdriver: bool,
    pub plugins_count: u32,
    pub mime_types_count: u32,
}

/// `p` is the locked navigator profile reporting `cores` hardware threads.
pub open spec fn is_locked_navigator_profile(p: NavigatorProfile, cores: u32) -> bool {
    &&& p.user_agent == LOCKED_USER_AGENT
    &&& p.app_name == "Netscape"
    &&& p.app_version == "5.0 (X11)"
    &&& p.vendor == ""
    &&& p.platform == "Linux x86_64"
    &&& p.product == "Gecko"
    &&& p.product_sub == "20100101"
    &&& p.language == LOCKED_LANGUAGE
    &&& p.languages@ == spec_locked_languages()
    &&& p.hardware_concurrency == cores
    &&& p.device_memory_gib == 8
    &&& p.do_not_track == "1"
    &&& p.global_privacy_control
    &&& !p.webdriver
    &&& p.plugins_count == 0
    &&& p.mime_types_count == 0
}

/// Standard: the locked profile with 4 cores.
pub fn standard_navigator_profile() -> (r: &'static NavigatorProfile)
    ensures
        is_locked_navigator_profile(*r, 4),
{
    &NavigatorProfile {
        user_agent: LOCKED_USER_AGENT,
        app_name: "Netscape",
        app_version: "5.0 (X11)",
        vendor: "",
        platform: "Linux x86_64",
        product: "Gecko",
        product_sub: "20100101",
        language: LOCKED_LANGUAGE,
        languages: &["en-US", "en"],
        hardware_concurrency: 4,
        device_memory_gib: 8,
        do_not_track: "1",
        global_privacy_control: true,
        webdriver: false,
        plugins_count: 0,
        mime_types_count: 0,
    }
}

/// Strict: the locked profile with 2 cores.
pub fn strict_navigator_profile() -> (r: &'static NavigatorProfile)
    ensures
        is_locked_navigator_profile(*r, 2),
{
    &NavigatorProfile {
        user_agent: LOCKED_USER_AGENT,
        app_name: "Netscape",
        app_version: "5.0 (X11)",
        vendor: "",
        platform: "Linux x86_64",
        product: "Gecko",
        product_sub: "20100101",
        language: LOCKED_LANGUAGE,
        languages: &["en-US", "en"],
        hardware_concurrency: 2,
        device_memory_gib: 8,
        do_not_track: "1",
        global_privacy_control: true,
        webdriver: false,
        plugins_count: 0,
        mime_types_count: 0,
    }
}

/// Per-mode navigator policy.
#[derive(Debug, Clone, Copy, PartialEq, Eq, Hash)]
pub enum NavigatorPolicy {
    Locked(&'static NavigatorProfile),
}

pub open spec fn is_navigator_policy_for(mode: Mode, p: NavigatorPolicy) -> bool {
    match mode {
        Mode::Standard => is_locked_navigator_profile(*p->0, 4),
        Mode::Strict => is_locked_navigator_profile(*p->0, 2),
    }
}

impl NavigatorPolicy {
    pub fn for_mode(mode: Mode) -> (r: Self)
        ensures
            is_navigator_policy_for(mode, r),
    {
        match mode {
            Mode::Standard => NavigatorPolicy::Locked(standard_navigator_profile()),
            Mode::Strict => NavigatorPolicy::Locked(strict_navigator_profile()),
        }
    }

    pub fn profile(&self) -> (r: &'static NavigatorProfile)
        ensures
            r == self->0,
    {
        match *self {
            NavigatorPolicy::Locked(p) => p,
        }
    }
}

/// Every `navigator` field the bridge must wire.
#[derive(Debug, Clone, Copy, PartialEq, Eq, Hash, Structural)]
pub enum NavigatorSurface {
    UserAgent,
    AppName,
    AppVersion,
    Vendor,
    Platform,
    Product,
    ProductSub,
    Language,
    Languages,
    HardwareConcurrency,
    DeviceMemory,
    Plugins,
    MimeTypes,
    UserAgentData,
    Webdriver,
    DoNotTrack,
    GlobalPrivacyControl,
}

pub open spec fn all_navigator_surfaces() -> Seq<NavigatorSurface> {
    seq![
        NavigatorSurface::UserAgent,
        NavigatorSurface::AppName,
        NavigatorSurface::AppVersion,
        NavigatorSurface::Vendor,
        NavigatorSurface::Platform,
        NavigatorSurface::Product,
        NavigatorSurface::ProductSub,
        NavigatorSurface::Language,
        NavigatorSurface::Languages,
        NavigatorSurface::HardwareConcurrency,
        NavigatorSurface::DeviceMemory,
        NavigatorSurface::Plugins,
        NavigatorSurface::MimeTypes,
        NavigatorSurface::UserAgentData,
        NavigatorSurface::Webdriver,
        NavigatorSurface::DoNotTrack,
        NavigatorSurface::GlobalPrivacyControl,
    ]
}

impl NavigatorSurface {
    pub fn all() -> (r: &'static [NavigatorSurface])
        ensures
            r@ == all_navigator_surfaces(),
    {
        &[
            NavigatorSurface::UserAgent,
            NavigatorSurface::AppName,
            NavigatorSurface::AppVersion,
            NavigatorSurface::Vendor,
            NavigatorSurface::Platform,
            NavigatorSurface::Product,
            NavigatorSurface::ProductSub,
            NavigatorSurface::Language,
            NavigatorSurface::Languages,
            NavigatorSurface::HardwareConcurrency,
            NavigatorSurface::DeviceMemory,
            NavigatorSurface::Plugins,
            NavigatorSurface::MimeTypes,
            NavigatorSurface::UserAgentData,
            NavigatorSurface::Webdriver,
            NavigatorSurface::DoNotTrack,
            NavigatorSurface::GlobalPrivacyControl,
        ]
    }
}

/// The override, with its policy resolved once at construction.
#[derive(Debug, Clone, Copy)]
pub struct NavigatorOverride {
    policy: NavigatorPolicy,
}

impl NavigatorOverride {
    pub closed spec fn spec_policy(&self) -> NavigatorPolicy {
        self.policy
    }

    pub fn new(mode: Mode) -> (r: Self)
        ensures
            is_navigator_policy_for(mode, r.spec_policy()),
    {
        NavigatorOverride { policy: NavigatorPolicy::for_mode(mode) }
    }

    pub fn policy(&self) -> (r: NavigatorPolicy)
        ensures
            r == self.spec_policy(),
    {
        self.policy
    }

    pub fn profile(&self) -> (r: &'static NavigatorProfile)
        ensures
            r == self.spec_policy()->0,
    {
        self.policy.profile()
    }
}

impl FingerprintOverride for NavigatorOverride {
    fn surface(&self) -> (r: WebIdlSurface)
        ensures
            r == WebIdlSurface::Navigator,
    {
        WebIdlSurface::Navigator
    }

    fn install(&self, ctx: &OverrideContext) {
    }
}

} // verus!
