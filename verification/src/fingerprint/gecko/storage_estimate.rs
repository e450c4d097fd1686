//! `navigator.storage.estimate()`: a fixed quota and usage per mode
//! (nothing in Strict, 1 GiB quota in Standard), never the host's disk.
use vstd::prelude::*;
use crate::config::schema::Mode;
use crate::fingerprint::interface::{FingerprintOverride, OverrideContext, WebIdlSurface};

verus! {

/// The values `estimate()` resolves to.
#[derive(Debug, Clone, Copy, PartialEq, Eq, Hash, Structural)]
pub struct StorageEstimateProfile {
    pub quota_bytes: u64,
    pub usage_bytes: u64,
}

pub open spec fn spec_strict_storage_estimate() -> StorageEstimateProfile {
    StorageEstimateProfile { quota_bytes: 0, usage_bytes: 0 }
}

pub open spec fn spec_standard_storage_estimate() -> StorageEstimateProfile {
    StorageEstimateProfile { quota_bytes: 1_073_741_824, usage_bytes: 0 }
}

/// Strict: zero quota, zero usage.
pub fn strict_storage_estimate() -> (r: &'static StorageEstimateProfile)
    ensures
        *r == spec_strict_storage_estimate(),
{
    &StorageEstimateProfile { quota_bytes: 0, usage_bytes: 0 }
}

/// Standard: a 1 GiB quota, zero usage.
pub fn standard_storage_estimate() -> (r: &'static StorageEstimateProfile)
    ensures
        *r == spec_standard_storage_estimate(),
{
    &StorageEstimateProfile { quota_bytes: 1_073_741_824, usage_bytes: 0 }
}

/// Per-mode storage-estimate policy.
#[derive(Debug, Clone, Copy, PartialEq, Eq, Hash)]
pub enum StorageEstimatePolicy {
    Locked(&'static StorageEstimateProfile),
}

pub open spec fn is_storage_estimate_policy_for(mode: Mode, p: StorageEstimatePolicy) -> bool {
    match mode {
        Mode::Standard => *p->0 == spec_standard_storage_estimate(),
        Mode::Strict => *p->0 == spec_strict_storage_estimate(),
    }
}

impl StorageEstimatePolicy {
    pub fn for_mode(mode: Mode) -> (r: Self)
        ensures
            is_storage_estimate_policy_for(mode, r),
    {
        match mode {
            Mode::Standard => StorageEstimatePolicy::Locked(standard_storage_estimate()),
            Mode::Strict => StorageEstimatePolicy::Locked(strict_storage_estimate()),
        }
    }

    pub fn profile(&self) -> (r: &'static StorageEstimateProfile)
        ensures
            r == self->0,
    {
        match self {
            StorageEstimatePolicy::Locked(p) => p,
        }
    }
}

/// Every storage-estimate pathway the bridge must wire.
#[derive(Debug, Clone, Copy, PartialEq, Eq, Hash, Structural)]
pub enum StorageEstimateSurface {
    Estimate,
}

pub open spec fn all_storage_estimate_surfaces() -> Seq<StorageEstimateSurface> {
    seq![
        StorageEstimateSurface::Estimate,
    ]
}

impl StorageEstimateSurface {
    pub fn all() -> (r: &'static [StorageEstimateSurface])
        ensures
            r@ == all_storage_estimate_surfaces(),
    {
        &[
            StorageEstimateSurface::Estimate,
        ]
    }
}

/// The override, with its policy resolved once at construction.
#[derive(Debug, Clone, Copy)]
pub struct StorageEstimateOverride {
    policy: StorageEstimatePolicy,
}

impl StorageEstimateOverride {
    pub closed spec fn spec_policy(&self) -> StorageEstimatePolicy {
        self.policy
    }

    pub fn new(mode: Mode) -> (r: Self)
        ensures
            is_storage_estimate_policy_for(mode, r.spec_policy()),
    {
        StorageEstimateOverride { policy: StorageEstimatePolicy::for_mode(mode) }
    }

    pub fn policy(&self) -> (r: StorageEstimatePolicy)
        ensures
            r == self.spec_policy(),
    {
        self.policy
    }
}

impl FingerprintOverride for StorageEstimateOverride {
    fn surface(&self) -> (r: WebIdlSurface)
        ensures
            r == WebIdlSurface::StorageEstimate,
    {
        WebIdlSurface::StorageEstimate
    }

    fn install(&self, ctx: &OverrideContext) {
    }
}

} // verus!
