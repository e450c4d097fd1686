//! `navigator.gpu`: one cohort-locked adapter profile (vendor, empty
//! architecture / driver / description, no optional features, fixed
//! limits); Strict reports it verbatim, Standard reports the vendor
//! through coarse buckets.
use vstd::prelude::*;
use crate::config::schema::Mode;
use crate::fingerprint::interface::{FingerprintOverride, OverrideContext, WebIdlSurface};

verus! {

/// Adapter vendor, as reported or bucketed.
#[derive(Debug, Clone, Copy, PartialEq, Eq, Hash, Structural)]
pub enum WebGpuVendor {
    Mozilla,
    Intel,
    NVIDIA,
    AMD,
    Apple,
    Other,
}

pub open spec fn vendor_name(v: WebGpuVendor) -> &'static str {
    match v {
        WebGpuVendor::Mozilla => "Mozilla",
        WebGpuVendor::Intel => "Intel",
        WebGpuVendor::NVIDIA => "NVIDIA",
        WebGpuVendor::AMD => "AMD",
        WebGpuVendor::Apple => "Apple",
        WebGpuVendor::Other => "Other",
    }
}

/// The vendor buckets Standard may report.
pub open spec fn standard_vendor_buckets() -> Seq<WebGpuVendor> {
    seq![
        WebGpuVendor::Intel,
        WebGpuVendor::NVIDIA,
        WebGpuVendor::AMD,
        WebGpuVendor::Apple,
        WebGpuVendor::Other,
    ]
}

impl WebGpuVendor {
    /// The vendor string JS sees.
    pub fn as_str(self) -> (r: &'static str)
        ensures
            r == vendor_name(self),
    {
        match self {
            WebGpuVendor::Mozilla => "Mozilla",
            WebGpuVendor::Intel => "Intel",
            WebGpuVendor::NVIDIA => "NVIDIA",
            WebGpuVendor::AMD => "AMD",
            WebGpuVendor::Apple => "Apple",
            WebGpuVendor::Other => "Other",
        }
    }

    /// The vendor buckets Standard may report (the cohort vendor is not
    /// among them).
    pub fn standard_buckets() -> (r: &'static [WebGpuVendor])
        ensures
            r@ == standard_vendor_buckets(),
    {
        &[
            WebGpuVendor::Intel,
            WebGpuVendor::NVIDIA,
            WebGpuVendor::AMD,
            WebGpuVendor::Apple,
            WebGpuVendor::Other,
        ]
    }
}

/// Adapter limits.
#[derive(Debug, Clone, Copy, PartialEq, Eq, Hash, Structural)]
pub struct WebGpuLimits {
    pub max_texture_dimension_1d: u32,
    pub max_texture_dimension_2d: u32,
    pub max_texture_dimension_3d: u32,
    pub max_texture_array_layers: u32,
    pub max_bind_groups: u32,
    pub max_buffer_size: u64,
    pub max_compute_workgroup_size_x: u32,
    pub max_compute_workgroup_size_y: u32,
    pub max_compute_workgroup_size_z: u32,
    pub max_compute_invocations_per_workgroup: u32,
}

/// The locked limits (a 256 MiB maximum buffer).
pub open spec fn spec_locked_webgpu_limits() -> WebGpuLimits {
    WebGpuLimits {
        max_texture_dimension_1d: 8192,
        max_texture_dimension_2d: 8192,
        max_texture_dimension_3d: 2048,
        max_texture_array_layers: 256,
        max_bind_groups: 4,
        max_buffer_size: 268_435_456,
        max_compute_workgroup_size_x: 256,
        max_compute_workgroup_size_y: 256,
        max_compute_workgroup_size_z: 64,
        max_compute_invocations_per_workgroup: 256,
    }
}

/// Everything an adapter reports.
#[derive(Debug, Clone, Copy, PartialEq, Eq, Hash)]
pub struct WebGpuProfile {
    pub vendor: WebGpuVendor,
    pub architecture: &'static str,
    pub driver: &'static str,
    pub description: &'static str,
    pub features: &'static [&'static str],
    pub limits: WebGpuLimits,
}

/// `p` is the locked adapter profile.
pub open spec fn is_locked_webgpu_profile(p: WebGpuProfile) -> bool {
    &&& p.vendor == WebGpuVendor::Mozilla
    &&& p.architecture == ""
    &&& p.driver == ""
    &&& p.description == ""
    &&& p.features@ == Seq::<&'static str>::empty()
    &&& p.limits == spec_locked_webgpu_limits()
}

pub fn locked_webgpu_profile() -> (r: &'static WebGpuProfile)
    ensures
        is_locked_webgpu_profile(*r),
{
    let r: &'static WebGpuProfile = &WebGpuProfile {
        vendor: WebGpuVendor::Mozilla,
        architecture: "",
        driver: "",
        description: "",
        features: &[],
        limits: WebGpuLimits {
            max_texture_dimension_1d: 8192,
            max_texture_dimension_2d: 8192,
            max_texture_dimension_3d: 2048,
            max_texture_array_layers: 256,
            max_bind_groups: 4,
            max_buffer_size: 268_435_456,
            max_compute_workgroup_size_x: 256,
            max_compute_workgroup_size_y: 256,
            max_compute_workgroup_size_z: 64,
            max_compute_invocations_per_workgroup: 256,
        },
    };
    assert(r.features@ =~= Seq::<&'static str>::empty());
    r
}

/// Per-mode adapter policy.
#[derive(Debug, Clone, Copy, PartialEq, Eq, Hash)]
pub enum WebGpuReadbackPolicy {
    /// Strict: the locked profile verbatim.
    CohortLocked(&'static WebGpuProfile),
    /// Standard: the locked profile with the vendor bucketed.
    Bucketed(&'static WebGpuProfile),
}

pub open spec fn webgpu_policy_profile(p: WebGpuReadbackPolicy) -> &'static WebGpuProfile {
    match p {
        WebGpuReadbackPolicy::CohortLocked(prof) => prof,
        WebGpuReadbackPolicy::Bucketed(prof) => prof,
    }
}

pub open spec fn is_webgpu_policy_for(mode: Mode, p: WebGpuReadbackPolicy) -> bool {
    &&& is_locked_webgpu_profile(*webgpu_policy_profile(p))
    &&& match mode {
        Mode::Standard => p is Bucketed,
        Mode::Strict => p is CohortLocked,
    }
}

impl WebGpuReadbackPolicy {
    pub fn for_mode(mode: Mode) -> (r: Self)
        ensures
            is_webgpu_policy_for(mode, r),
    {
        match mode {
            Mode::Standard => WebGpuReadbackPolicy::Bucketed(locked_webgpu_profile()),
            Mode::Strict => WebGpuReadbackPolicy::CohortLocked(locked_webgpu_profile()),
        }
    }

    pub fn profile(&self) -> (r: &'static WebGpuProfile)
        ensures
            r == webgpu_policy_profile(*self),
    {
        match self {
            WebGpuReadbackPolicy::CohortLocked(p) => p,
            WebGpuReadbackPolicy::Bucketed(p) => p,
        }
    }
}

/// Every WebGPU pathway the bridge must wire.
#[derive(Debug, Clone, Copy, PartialEq, Eq, Hash, Structural)]
pub enum WebGpuSurface {
    RequestAdapter,
    AdapterInfo,
    AdapterFeatures,
    AdapterLimits,
    DeviceLost,
}

pub open spec fn all_webgpu_surfaces() -> Seq<WebGpuSurface> {
    seq![
        WebGpuSurface::RequestAdapter,
        WebGpuSurface::AdapterInfo,
        WebGpuSurface::AdapterFeatures,
        WebGpuSurface::AdapterLimits,
        WebGpuSurface::DeviceLost,
    ]
}

impl WebGpuSurface {
    pub fn all() -> (r: &'static [WebGpuSurface])
        ensures
            r@ == all_webgpu_surfaces(),
    {
        &[
            WebGpuSurface::RequestAdapter,
            WebGpuSurface::AdapterInfo,
            WebGpuSurface::AdapterFeatures,
            WebGpuSurface::AdapterLimits,
            WebGpuSurface::DeviceLost,
        ]
    }
}

/// The override, with its policy resolved once at construction.
#[derive(Debug, Clone, Copy)]
pub struct WebGpuOverride {
    policy: WebGpuReadbackPolicy,
}

impl WebGpuOverride {
    pub closed spec fn spec_policy(&self) -> WebGpuReadbackPolicy {
        self.policy
    }

    pub fn new(mode: Mode) -> (r: Self)
        ensures
            is_webgpu_policy_for(mode, r.spec_policy()),
    {
        WebGpuOverride { policy: WebGpuReadbackPolicy::for_mode(mode) }
    }

    pub fn policy(&self) -> (r: WebGpuReadbackPolicy)
        ensures
            r == self.spec_policy(),
    {
        self.policy
    }

    pub fn profile(&self) -> (r: &'static WebGpuProfile)
        ensures
            r == webgpu_policy_profile(self.spec_policy()),
    {
        self.policy.profile()
    }
}

impl FingerprintOverride for WebGpuOverride {
    fn surface(&self) -> (r: WebIdlSurface)
        ensures
            r == WebIdlSurface::WebGpu,
    {
        WebIdlSurface::WebGpu
    }

    fn install(&self, ctx: &OverrideContext) {
    }
}

} // verus!
