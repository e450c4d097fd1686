//! `navigator.permissions.query()`: Strict answers "denied" for every
//! recognized permission name and "prompt" for an unrecognized one (so the
//! gate itself is not a signal) without consulting any store; Standard
//! asks the configured [`PermissionStore`], one name at a time.
use vstd::prelude::*;
use std::sync::Arc;
use crate::config::schema::Mode;
use crate::fingerprint::interface::{FingerprintOverride, OverrideContext, WebIdlSurface};
use crate::fingerprint::strict::disabled_apis::DisabledApi;

verus! {

/// W3C permission names, plus `Unknown` for any string the bridge does not
/// recognize.
#[derive(Debug, Clone, Copy, PartialEq, Eq, Hash, Structural)]
pub enum PermissionName {
    /// `"geolocation"`.
    Geolocation,
    /// `"notifications"`.
    Notifications,
    /// `"push"`.
    Push,
    /// `"midi"`.
    Midi,
    /// `"camera"`.
    Camera,
    /// `"microphone"`.
    Microphone,
    /// `"display-capture"`.
    DisplayCapture,
    /// `"captured-surface-control"`.
    CapturedSurfaceControl,
    /// `"accelerometer"`.
    AccelerometerSensor,
    /// `"gyroscope"`.
    GyroscopeSensor,
    /// `"magnetometer"`.
    MagnetometerSensor,
    /// `"ambient-light-sensor"`.
    AmbientLightSensor,
    /// `"screen-wake-lock"`.
    ScreenWakeLock,
    /// `"system-wake-lock"`.
    SystemWakeLock,
    /// `"idle-detection"`.
    IdleDetection,
    /// `"payment-handler"`.
    PaymentHandler,
    /// `"persistent-storage"`.
    PersistentStorage,
    /// `"storage-access"`.
    StorageAccess,
    /// `"top-level-storage-access"`.
    TopLevelStorageAccess,
    /// `"window-management"`.
    WindowManagement,
    /// `"background-fetch"`.
    BackgroundFetch,
    /// `"background-sync"`.
    BackgroundSync,
    /// `"periodic-background-sync"`.
    PeriodicBackgroundSync,
    /// `"clipboard-read"`.
    ClipboardRead,
    /// `"clipboard-write"`.
    ClipboardWrite,
    /// `"speaker-selection"`.
    SpeakerSelection,
    /// `"local-fonts"`.
    LocalFonts,
    /// `"accessibility-events"`.
    AccessibilityEvents,
    /// Any unrecognized name.
    Unknown,
}

/// Every recognized name (all but `Unknown`).
pub open spec fn all_recognized_permissions() -> Seq<PermissionName> {
    seq![
        PermissionName::Geolocation,
        PermissionName::Notifications,
        PermissionName::Push,
        PermissionName::Midi,
        PermissionName::Camera,
        PermissionName::Microphone,
        PermissionName::DisplayCapture,
        PermissionName::CapturedSurfaceControl,
        PermissionName::AccelerometerSensor,
        PermissionName::GyroscopeSensor,
        PermissionName::MagnetometerSensor,
        PermissionName::AmbientLightSensor,
        PermissionName::ScreenWakeLock,
        PermissionName::SystemWakeLock,
        PermissionName::IdleDetection,
        PermissionName::PaymentHandler,
        PermissionName::PersistentStorage,
        PermissionName::StorageAccess,
        PermissionName::TopLevelStorageAccess,
        PermissionName::WindowManagement,
        PermissionName::BackgroundFetch,
        PermissionName::BackgroundSync,
        PermissionName::PeriodicBackgroundSync,
        PermissionName::ClipboardRead,
        PermissionName::ClipboardWrite,
        PermissionName::SpeakerSelection,
        PermissionName::LocalFonts,
        PermissionName::AccessibilityEvents,
    ]
}

impl PermissionName {
    /// Every recognized name, in W3C order; `Unknown` is not among them.
    pub fn all_recognized() -> (r: &'static [PermissionName])
        ensures
            r@ == all_recognized_permissions(),
            !r@.contains(PermissionName::Unknown),
    {
        let r: &'static [PermissionName] = &[
            PermissionName::Geolocation,
            PermissionName::Notifications,
            PermissionName::Push,
            PermissionName::Midi,
            PermissionName::Camera,
            PermissionName::Microphone,
            PermissionName::DisplayCapture,
            PermissionName::CapturedSurfaceControl,
            PermissionName::AccelerometerSensor,
            PermissionName::GyroscopeSensor,
            PermissionName::MagnetometerSensor,
            PermissionName::AmbientLightSensor,
            PermissionName::ScreenWakeLock,
            PermissionName::SystemWakeLock,
            PermissionName::IdleDetection,
            PermissionName::PaymentHandler,
            PermissionName::PersistentStorage,
            PermissionName::StorageAccess,
            PermissionName::TopLevelStorageAccess,
            PermissionName::WindowManagement,
            PermissionName::BackgroundFetch,
            PermissionName::BackgroundSync,
            PermissionName::PeriodicBackgroundSync,
            PermissionName::ClipboardRead,
            PermissionName::ClipboardWrite,
            PermissionName::SpeakerSelection,
            PermissionName::LocalFonts,
            PermissionName::AccessibilityEvents,
        ];
        assert(r@ == all_recognized_permissions());
        assert(!r@.contains(PermissionName::Unknown)) by {
            assert(forall|i: int| 0 <= i < r@.len() ==> r@[i] != PermissionName::Unknown);
        }
        r
    }
}

/// W3C permission state.
#[derive(Debug, Clone, Copy, PartialEq, Eq, Hash, Structural)]
pub enum PermissionState {
    Granted,
    Denied,
    Prompt,
}

/// The Strict-disabled API behind a permission name, if any.
pub open spec fn spec_l44_disabled(name: PermissionName) -> Option<DisabledApi> {
    match name {
        PermissionName::Geolocation => Some(DisabledApi::Geolocation),
        PermissionName::Notifications => Some(DisabledApi::Notification),
        PermissionName::Camera
        | PermissionName::Microphone
        | PermissionName::DisplayCapture
        | PermissionName::CapturedSurfaceControl => Some(DisabledApi::MediaDevices),
        PermissionName::AccelerometerSensor
        | PermissionName::GyroscopeSensor
        | PermissionName::MagnetometerSensor
        | PermissionName::AmbientLightSensor => Some(DisabledApi::SensorApis),
        PermissionName::ScreenWakeLock | PermissionName::SystemWakeLock => Some(
            DisabledApi::WakeLock,
        ),
        PermissionName::IdleDetection => Some(DisabledApi::IdleDetector),
        PermissionName::PaymentHandler => Some(DisabledApi::PaymentRequest),
        _ => None,
    }
}

/// Maps a permission name to the Strict-disabled API it gates; `None` for
/// the names with no such API and for `Unknown`. The Strict answer does
/// not depend on this mapping.
pub fn l44_disabled(name: PermissionName) -> (r: Option<DisabledApi>)
    ensures
        r == spec_l44_disabled(name),
{
    match name {
        PermissionName::Geolocation => Some(DisabledApi::Geolocation),
        PermissionName::Notifications => Some(DisabledApi::Notification),
        PermissionName::Camera
        | PermissionName::Microphone
        | PermissionName::DisplayCapture
        | PermissionName::CapturedSurfaceControl => Some(DisabledApi::MediaDevices),
        PermissionName::AccelerometerSensor
        | PermissionName::GyroscopeSensor
        | PermissionName::MagnetometerSensor
        | PermissionName::AmbientLightSensor => Some(DisabledApi::SensorApis),
        PermissionName::ScreenWakeLock | PermissionName::SystemWakeLock => Some(
            DisabledApi::WakeLock,
        ),
        PermissionName::IdleDetection => Some(DisabledApi::IdleDetector),
        PermissionName::PaymentHandler => Some(DisabledApi::PaymentRequest),
        _ => None,
    }
}

/// Per-name permission lookup consulted in Standard mode.
pub trait PermissionStore: Send + Sync {
    /// The state this store holds for `name`.
    spec fn answer(&self, name: PermissionName) -> PermissionState;

    /// Resolves `name`.
    fn query(&self, name: &PermissionName) -> (r: PermissionState)
        ensures
            r == self.answer(*name),
    ;
}

/// The default store: "prompt" for every name.
#[derive(Debug, Clone, Copy, Default)]
pub struct DefaultPromptStore;

impl PermissionStore for DefaultPromptStore {
    open spec fn answer(&self, name: PermissionName) -> PermissionState {
        PermissionState::Prompt
    }

    fn query(&self, name: &PermissionName) -> (r: PermissionState) {
        PermissionState::Prompt
    }
}

/// Per-mode resolution policy.
#[derive(Debug, Clone, Copy, PartialEq, Eq, Hash, Structural)]
pub enum PermissionsPolicy {
    /// Strict: hard-coded answers; the store is never consulted.
    StrictHardCoded,
    /// Standard: the store answers.
    StandardDelegated,
}

pub open spec fn is_permissions_policy_for(mode: Mode, p: PermissionsPolicy) -> bool {
    match mode {
        Mode::Strict => p == PermissionsPolicy::StrictHardCoded,
        Mode::Standard => p == PermissionsPolicy::StandardDelegated,
    }
}

impl PermissionsPolicy {
    pub fn for_mode(mode: Mode) -> (r: Self)
        ensures
            is_permissions_policy_for(mode, r),
    {
        match mode {
            Mode::Strict => PermissionsPolicy::StrictHardCoded,
            Mode::Standard => PermissionsPolicy::StandardDelegated,
        }
    }
}

/// The answer to a query for `name` under `policy`, given what the store
/// holds for it.
pub open spec fn resolve_permission(
    policy: PermissionsPolicy,
    name: PermissionName,
    stored: PermissionState,
) -> PermissionState {
    match policy {
        PermissionsPolicy::StrictHardCoded => if name == PermissionName::Unknown {
            PermissionState::Prompt
        } else {
            PermissionState::Denied
        },
        PermissionsPolicy::StandardDelegated => stored,
    }
}

/// Strict answers do not depend on the store: every recognized name is
/// denied, an unrecognized one is "prompt".
pub proof fn lemma_strict_ignores_store(
    name: PermissionName,
    stored_a: PermissionState,
    stored_b: PermissionState,
)
    ensures
        resolve_permission(PermissionsPolicy::StrictHardCoded, name, stored_a) == resolve_permission(
            PermissionsPolicy::StrictHardCoded,
            name,
            stored_b,
        ),
        all_recognized_permissions().contains(name) ==> resolve_permission(
            PermissionsPolicy::StrictHardCoded,
            name,
            stored_a,
        ) == PermissionState::Denied,
        resolve_permission(PermissionsPolicy::StrictHardCoded, PermissionName::Unknown, stored_a)
            == PermissionState::Prompt,
{
    if all_recognized_permissions().contains(name) {
        let i = choose|i: int|
            0 <= i < all_recognized_permissions().len() && all_recognized_permissions()[i] == name;
        assert(name != PermissionName::Unknown);
    }
}

/// Every permissions pathway the bridge must wire.
#[derive(Debug, Clone, Copy, PartialEq, Eq, Hash, Structural)]
pub enum PermissionsSurface {
    Query,
    OnChange,
}

pub open spec fn all_permissions_surfaces() -> Seq<PermissionsSurface> {
    seq![
        PermissionsSurface::Query,
        PermissionsSurface::OnChange,
    ]
}

impl PermissionsSurface {
    pub fn all() -> (r: &'static [PermissionsSurface])
        ensures
            r@ == all_permissions_surfaces(),
    {
        &[
            PermissionsSurface::Query,
            PermissionsSurface::OnChange,
        ]
    }
}

/// The permissions override: the policy and the store Standard consults.
#[derive(Debug, Clone)]
pub struct PermissionsOverride<S: PermissionStore> {
    policy: PermissionsPolicy,
    store: Arc<S>,
}

impl<S: PermissionStore> PermissionsOverride<S> {
    pub closed spec fn spec_policy(&self) -> PermissionsPolicy {
        self.policy
    }

    pub closed spec fn spec_store(&self) -> S {
        *self.store
    }

    pub fn new(mode: Mode, store: Arc<S>) -> (r: Self)
        ensures
            is_permissions_policy_for(mode, r.spec_policy()),
            r.spec_store() == *store,
    {
        PermissionsOverride { policy: PermissionsPolicy::for_mode(mode), store }
    }

    pub fn policy(&self) -> (r: PermissionsPolicy)
        ensures
            r == self.spec_policy(),
    {
        self.policy
    }

    /// Resolves one query.
    pub fn query(&self, name: PermissionName) -> (r: PermissionState)
        ensures
            r == resolve_permission(self.spec_policy(), name, self.spec_store().answer(name)),
    {
        match self.policy {
            PermissionsPolicy::StrictHardCoded => match name {
                PermissionName::Unknown => PermissionState::Prompt,
                _ => PermissionState::Denied,
            },
            PermissionsPolicy::StandardDelegated => self.store.query(&name),
        }
    }
}

impl PermissionsOverride<DefaultPromptStore> {
    /// The override wired to the default "prompt" store.
    pub fn with_default_store(mode: Mode) -> (r: Self)
        ensures
            is_permissions_policy_for(mode, r.spec_policy()),
    {
        PermissionsOverride::new(mode, Arc::new(DefaultPromptStore))
    }
}

impl<S: PermissionStore> FingerprintOverride for PermissionsOverride<S> {
    fn surface(&self) -> (r: WebIdlSurface)
        ensures
            r == WebIdlSurface::Permissions,
    {
        WebIdlSurface::Permissions
    }

    fn install(&self, ctx: &OverrideContext) {
    }
}

} // verus!
