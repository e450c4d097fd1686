//! Battery Status API: removed in both modes (`navigator.getBattery` is
//! absent), so charge level and timing cannot identify a device.
use vstd::prelude::*;
use crate::config::schema::Mode;
use crate::fingerprint::interface::{FingerprintOverride, OverrideContext, WebIdlSurface};

verus! {

/// Per-mode battery policy; the API is removed in every mode.
#[derive(Debug, Clone, Copy, PartialEq, Eq, Hash, Structural)]
pub enum BatteryApiPolicy {
    Removed,
}

pub open spec fn is_battery_policy_for(mode: Mode, p: BatteryApiPolicy) -> bool {
    p == BatteryApiPolicy::Removed
}

impl BatteryApiPolicy {
    pub fn for_mode(mode: Mode) -> (r: Self)
        ensures
            is_battery_policy_for(mode, r),
    {
        BatteryApiPolicy::Removed
    }

    pub fn is_removed(&self) -> (r: bool)
        ensures
            r == (*self == BatteryApiPolicy::Removed),
    {
        match self {
            BatteryApiPolicy::Removed => true,
        }
    }
}

/// Every battery pathway the bridge must remove.
#[derive(Debug, Clone, Copy, PartialEq, Eq, Hash, Structural)]
pub enum BatterySurface {
    NavigatorGetBattery,
    BatteryManagerLevel,
    BatteryManagerCharging,
    BatteryManagerChargingTime,
    BatteryManagerDischargingTime,
    BatteryManagerEvents,
}

pub open spec fn all_battery_surfaces() -> Seq<BatterySurface> {
    seq![
        BatterySurface::NavigatorGetBattery,
        BatterySurface::BatteryManagerLevel,
        BatterySurface::BatteryManagerCharging,
        BatterySurface::BatteryManagerChargingTime,
        BatterySurface::BatteryManagerDischargingTime,
        BatterySurface::BatteryManagerEvents,
    ]
}

impl BatterySurface {
    pub fn all() -> (r: &'static [BatterySurface])
        ensures
            r@ == all_battery_surfaces(),
    {
        &[
            BatterySurface::NavigatorGetBattery,
            BatterySurface::BatteryManagerLevel,
            BatterySurface::BatteryManagerCharging,
            BatterySurface::BatteryManagerChargingTime,
            BatterySurface::BatteryManagerDischargingTime,
            BatterySurface::BatteryManagerEvents,
        ]
    }
}

/// The override, with its policy resolved once at construction.
#[derive(Debug, Clone, Copy)]
pub struct BatteryOverride {
    policy: BatteryApiPolicy,
}

impl BatteryOverride {
    pub closed spec fn spec_policy(&self) -> BatteryApiPolicy {
        self.policy
    }

    pub fn new(mode: Mode) -> (r: Self)
        ensures
            is_battery_policy_for(mode, r.spec_policy()),
    {
        BatteryOverride { policy: BatteryApiPolicy::for_mode(mode) }
    }

    pub fn policy(&self) -> (r: BatteryApiPolicy)
        ensures
            r == self.spec_policy(),
    {
        self.policy
    }
}

impl FingerprintOverride for BatteryOverride {
    fn surface(&self) -> (r: WebIdlSurface)
        ensures
            r == WebIdlSurface::Battery,
    {
        WebIdlSurface::Battery
    }

    fn install(&self, ctx: &OverrideContext) {
    }
}

} // verus!
