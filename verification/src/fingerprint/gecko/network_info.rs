//! `navigator.connection`: removed in Strict; a locked "4g / wifi" cohort
//! profile in Standard. Bandwidths (floating point) are kept as their
//! `f64` bit patterns.
use vstd::prelude::*;
use crate::config::schema::Mode;
use crate::fingerprint::interface::{FingerprintOverride, OverrideContext, WebIdlSurface};

verus! {

/// The locked connection values.
#[derive(Debug, Clone, Copy, PartialEq, Eq, Hash)]
pub struct NetworkInformationProfile {
    pub effective_type: &'static str,
    pub downlink_bits: u64,
    pub rtt: u32,
    pub save_data: bool,
    pub connection_type: &'static str,
    pub downlink_max_bits: u64,
}

/// "4g", 10 Mbit/s downlink (and max), 50 ms RTT, no save-data, "wifi".
pub open spec fn spec_locked_network_information_profile() -> NetworkInformationProfile {
    NetworkInformationProfile {
        effective_type: "4g",
        downlink_bits: 0x4024_0000_0000_0000,
        rtt: 50,
        save_data: false,
        connection_type: "wifi",
        downlink_max_bits: 0x4024_0000_0000_0000,
    }
}

pub fn locked_network_information_profile() -> (r: &'static NetworkInformationProfile)
    ensures
        *r == spec_locked_network_information_profile(),
{
    &NetworkInformationProfile {
        effective_type: "4g",
        downlink_bits: 0x4024_0000_0000_0000,
        rtt: 50,
        save_data: false,
        connection_type: "wifi",
        downlink_max_bits: 0x4024_0000_0000_0000,
    }
}

/// Per-mode connection policy.
#[derive(Debug, Clone, Copy, PartialEq, Eq, Hash)]
pub enum NetworkInformationPolicy {
    /// Strict: `navigator.connection` is absent.
    Removed,
    /// Standard: the locked cohort profile.
    LockedCohort(&'static NetworkInformationProfile),
}

pub open spec fn is_network_policy_for(mode: Mode, p: NetworkInformationPolicy) -> bool {
    match mode {
        Mode::Strict => p == NetworkInformationPolicy::Removed,
        Mode::Standard => p matches NetworkInformationPolicy::LockedCohort(prof)
            && *prof == spec_locked_network_information_profile(),
    }
}

impl NetworkInformationPolicy {
    pub fn for_mode(mode: Mode) -> (r: Self)
        ensures
            is_network_policy_for(mode, r),
    {
        match mode {
            Mode::Standard => NetworkInformationPolicy::LockedCohort(
                locked_network_information_profile(),
            ),
            Mode::Strict => NetworkInformationPolicy::Removed,
        }
    }

    pub fn is_removed(&self) -> (r: bool)
        ensures
            r == (*self is Removed),
    {
        match self {
            NetworkInformationPolicy::Removed => true,
            NetworkInformationPolicy::LockedCohort(_) => false,
        }
    }
}

/// Every connection pathway the bridge must wire.
#[derive(Debug, Clone, Copy, PartialEq, Eq, Hash, Structural)]
pub enum NetworkInformationSurface {
    NavigatorConnection,
    EffectiveType,
    Downlink,
    Rtt,
    SaveData,
    Type,
    DownlinkMax,
    OnChange,
}

pub open spec fn all_network_information_surfaces() -> Seq<NetworkInformationSurface> {
    seq![
        NetworkInformationSurface::NavigatorConnection,
        NetworkInformationSurface::EffectiveType,
        NetworkInformationSurface::Downlink,
        NetworkInformationSurface::Rtt,
        NetworkInformationSurface::SaveData,
        NetworkInformationSurface::Type,
        NetworkInformationSurface::DownlinkMax,
        NetworkInformationSurface::OnChange,
    ]
}

impl NetworkInformationSurface {
    pub fn all() -> (r: &'static [NetworkInformationSurface])
        ensures
            r@ == all_network_information_surfaces(),
    {
        &[
            NetworkInformationSurface::NavigatorConnection,
            NetworkInformationSurface::EffectiveType,
            NetworkInformationSurface::Downlink,
            NetworkInformationSurface::Rtt,
            NetworkInformationSurface::SaveData,
            NetworkInformationSurface::Type,
            NetworkInformationSurface::DownlinkMax,
            NetworkInformationSurface::OnChange,
        ]
    }
}

/// The override, with its policy resolved once at construction.
#[derive(Debug, Clone, Copy)]
pub struct NetworkInformationOverride {
    policy: NetworkInformationPolicy,
}

impl NetworkInformationOverride {
    pub closed spec fn spec_policy(&self) -> NetworkInformationPolicy {
        self.policy
    }

    pub fn new(mode: Mode) -> (r: Self)
        ensures
            is_network_policy_for(mode, r.spec_policy()),
    {
        NetworkInformationOverride { policy: NetworkInformationPolicy::for_mode(mode) }
    }

    pub fn policy(&self) -> (r: NetworkInformationPolicy)
        ensures
            r == self.spec_policy(),
    {
        self.policy
    }
}

impl FingerprintOverride for NetworkInformationOverride {
    fn surface(&self) -> (r: WebIdlSurface)
        ensures
            r == WebIdlSurface::NetworkInformation,
    {
        WebIdlSurface::NetworkInformation
    }

    fn install(&self, ctx: &OverrideContext) {
    }
}

} // verus!
