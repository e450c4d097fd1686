//! The trait surface every per-surface fingerprint override implements,
//! the context it is installed under, and the enumerations the engine
//! bridge iterates at startup.
use vstd::prelude::*;
use crate::config::schema::Mode;

verus! {

/// Declares `uuid::Uuid` (the identity profile id) so that it can be
/// carried opaquely through an [`OverrideContext`].
#[verifier::external_type_specification]
#[verifier::external_body]
pub struct ExUuid(uuid::Uuid);

/// JavaScript execution context an override is invoked from. Every scope
/// has its own `Date`, `performance`, `navigator`, ...; the bridge must
/// register each override in every one of them.
#[derive(Debug, Clone, Copy, PartialEq, Eq, Hash, Structural)]
pub enum JsContext {
    /// Top-level document.
    TopFrame,
    /// Cross- or same-origin `<iframe>` document.
    IFrame,
    /// Dedicated worker scope.
    DedicatedWorker,
    /// Shared worker scope.
    SharedWorker,
    /// Service worker scope.
    ServiceWorker,
}

pub open spec fn all_js_contexts() -> Seq<JsContext> {
    seq![
        JsContext::TopFrame,
        JsContext::IFrame,
        JsContext::DedicatedWorker,
        JsContext::SharedWorker,
        JsContext::ServiceWorker,
    ]
}

impl JsContext {
    /// Every JS context the bridge registers an override into.
    pub fn all() -> (r: &'static [JsContext])
        ensures
            r@ == all_js_contexts(),
    {
        &[
            JsContext::TopFrame,
            JsContext::IFrame,
            JsContext::DedicatedWorker,
            JsContext::SharedWorker,
            JsContext::ServiceWorker,
        ]
    }
}

/// Context passed to every override installation: the mode locked at
/// identity-profile creation, the opaque profile id, and the (purely
/// informational) JS scope.
#[derive(Debug, Clone, Copy, PartialEq, Eq)]
pub struct OverrideContext {
    mode: Mode,
    profile_id: uuid::Uuid,
    js_context: JsContext,
}

impl OverrideContext {
    pub closed spec fn spec_mode(&self) -> Mode {
        self.mode
    }

    pub closed spec fn spec_profile_id(&self) -> uuid::Uuid {
        self.profile_id
    }

    pub closed spec fn spec_js_context(&self) -> JsContext {
        self.js_context
    }

    pub fn new(mode: Mode, profile_id: uuid::Uuid, js_context: JsContext) -> (r: Self)
        ensures
            r.spec_mode() == mode,
            r.spec_profile_id() == profile_id,
            r.spec_js_context() == js_context,
    {
        OverrideContext { mode, profile_id, js_context }
    }

    /// Mode locked at identity-profile creation.
    pub fn mode(&self) -> (r: Mode)
        ensures
            r == self.spec_mode(),
    {
        self.mode
    }

    /// The profile id; opaque to every override.
    pub fn profile_id(&self) -> (r: uuid::Uuid)
        ensures
            r == self.spec_profile_id(),
    {
        self.profile_id
    }

    /// The JS scope of this installation. Overrides must not branch on it.
    pub fn js_context(&self) -> (r: JsContext)
        ensures
            r == self.spec_js_context(),
    {
        self.js_context
    }
}

/// Every WebIDL plumb-in point an override owns. [`WebIdlSurface::all`]
/// lists the core surfaces wired for every profile; the later variants are
/// the surfaces the extended overrides own.
#[derive(Debug, Clone, Copy, PartialEq, Eq, Hash, Structural)]
pub enum WebIdlSurface {
    /// Canvas readback.
    Canvas,
    /// WebGL parameters, extensions and readback.
    WebGl,
    /// Audio rendering and analyser readback.
    Audio,
    /// Font enumeration.
    Fonts,
    /// `navigator.getBattery`.
    Battery,
    /// `Date.now` / `performance.now` and friends.
    Timers,
    /// Time-zone resolution.
    Timezone,
    /// `navigator.*` identity fields.
    Navigator,
    /// DOMRect and TextMetrics geometry.
    DomRect,
    /// `Intl.*` resolved-option defaults.
    Intl,
    /// `navigator.keyboard.getLayoutMap`.
    KeyboardLayoutMap,
    /// `navigator.mediaCapabilities`.
    MediaCapabilities,
    /// `navigator.connection`.
    NetworkInformation,
    /// `navigator.permissions.query`.
    Permissions,
    /// `speechSynthesis.getVoices`.
    SpeechSynthesis,
    /// `navigator.storage.estimate`.
    StorageEstimate,
    /// `navigator.gpu`.
    WebGpu,
}

pub open spec fn core_webidl_surfaces() -> Seq<WebIdlSurface> {
    seq![
        WebIdlSurface::Canvas,
        WebIdlSurface::WebGl,
        WebIdlSurface::Audio,
        WebIdlSurface::Fonts,
        WebIdlSurface::Battery,
        WebIdlSurface::Timers,
        WebIdlSurface::Timezone,
        WebIdlSurface::Navigator,
    ]
}

impl WebIdlSurface {
    /// The core surfaces the bridge wires for every profile.
    pub fn all() -> (r: &'static [WebIdlSurface])
        ensures
            r@ == core_webidl_surfaces(),
    {
        &[
            WebIdlSurface::Canvas,
            WebIdlSurface::WebGl,
            WebIdlSurface::Audio,
            WebIdlSurface::Fonts,
            WebIdlSurface::Battery,
            WebIdlSurface::Timers,
            WebIdlSurface::Timezone,
            WebIdlSurface::Navigator,
        ]
    }
}

/// Implemented by every per-surface override. `install` must be a pure
/// function of the context's mode and profile id: the same for every
/// [`JsContext`].
pub trait FingerprintOverride: Send + Sync {
    /// The surface this override owns.
    fn surface(&self) -> WebIdlSurface;

    /// Called once per (renderer, JS context) at startup.
    fn install(&self, ctx: &OverrideContext);
}

} // verus!
