use devbrowse::config::schema::Mode;
use devbrowse::fingerprint::interface::{FingerprintOverride, JsContext, OverrideContext, WebIdlSurface};
use uuid::Uuid;

use std::sync::Mutex;

fn fixed_profile_id() -> Uuid {
    Uuid::parse_str("00000000-0000-4000-8000-000000000001").unwrap()
}

#[test]
fn override_context_round_trips_fields() {
    let pid = fixed_profile_id();
    let ctx = OverrideContext::new(Mode::Strict, pid, JsContext::DedicatedWorker);

    assert_eq!(ctx.mode(), Mode::Strict);
    assert_eq!(ctx.profile_id(), pid);
    assert_eq!(ctx.js_context(), JsContext::DedicatedWorker);
}

#[test]
fn override_context_is_copy() {
    let pid = fixed_profile_id();
    let ctx = OverrideContext::new(Mode::Standard, pid, JsContext::TopFrame);
    let a = ctx;
    let b = ctx;
    assert_eq!(a.mode(), b.mode());
}

#[test]
fn js_context_all_covers_every_variant() {
    assert_eq!(JsContext::all().len(), 5);
    for v in [
        JsContext::TopFrame,
        JsContext::IFrame,
        JsContext::DedicatedWorker,
        JsContext::SharedWorker,
        JsContext::ServiceWorker,
    ] {
        assert!(JsContext::all().contains(&v), "missing JsContext: {:?}", v);
    }
}

#[test]
fn webidl_surface_all_covers_modules_27_through_34() {
    assert_eq!(WebIdlSurface::all().len(), 8);
    for v in [
        WebIdlSurface::Canvas,
        WebIdlSurface::WebGl,
        WebIdlSurface::Audio,
        WebIdlSurface::Fonts,
        WebIdlSurface::Battery,
        WebIdlSurface::Timers,
        WebIdlSurface::Timezone,
        WebIdlSurface::Navigator,
    ] {
        assert!(WebIdlSurface::all().contains(&v), "missing surface: {:?}", v);
    }
}
#[derive(Debug, Default)]
struct RecordingOverride {
    installs: Mutex<Vec<(Mode, Uuid, JsContext)>>,
}

impl FingerprintOverride for RecordingOverride {
    fn surface(&self) -> WebIdlSurface {
        WebIdlSurface::Canvas
    }

    fn install(&self, ctx: &OverrideContext) {
        self.installs
            .lock()
            .unwrap()
            .push((ctx.mode(), ctx.profile_id(), ctx.js_context()));
    }
}

#[test]
fn override_is_invoked_in_every_js_context() {
    let pid = fixed_profile_id();
    let ovr = RecordingOverride::default();

    for jsc in JsContext::all() {
        let ctx = OverrideContext::new(Mode::Standard, pid, *jsc);
        ovr.install(&ctx);
    }

    let installs = ovr.installs.lock().unwrap();
    assert_eq!(installs.len(), JsContext::all().len());
    for (m, p, _jsc) in installs.iter() {
        assert_eq!(*m, Mode::Standard);
        assert_eq!(*p, pid);
    }
}

#[test]
fn interface_surface_dispatch_is_exhaustive_friendly() {
    fn route(s: WebIdlSurface) -> &'static str {
        match s {
            WebIdlSurface::Canvas => "canvas",
            WebIdlSurface::WebGl => "webgl",
            WebIdlSurface::Audio => "audio",
            WebIdlSurface::Fonts => "fonts",
            WebIdlSurface::Battery => "battery",
            WebIdlSurface::Timers => "timers",
            WebIdlSurface::Timezone => "timezone",
            WebIdlSurface::Navigator => "navigator",
            WebIdlSurface::DomRect => "dom-rect",
            WebIdlSurface::Intl => "intl",
            WebIdlSurface::KeyboardLayoutMap => "keyboard-layout-map",
            WebIdlSurface::MediaCapabilities => "media-capabilities",
            WebIdlSurface::NetworkInformation => "network-information",
            WebIdlSurface::Permissions => "permissions",
            WebIdlSurface::SpeechSynthesis => "speech-synthesis",
            WebIdlSurface::StorageEstimate => "storage-estimate",
            WebIdlSurface::WebGpu => "webgpu",
        }
    }
    for s in WebIdlSurface::all() {
        assert!(!route(*s).is_empty());
    }
}
