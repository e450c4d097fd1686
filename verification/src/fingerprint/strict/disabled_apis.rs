//! The JS APIs Strict mode makes structurally absent (disabled by default,
//! no per-site opt-in).
use vstd::prelude::*;

verus! {

/// A JS API that is absent in Strict mode.
#[derive(Debug, Clone, Copy, PartialEq, Eq, Hash, Structural)]
pub enum DisabledApi {
    Geolocation,
    Notification,
    MediaDevices,
    SensorApis,
    WakeLock,
    IdleDetector,
    PaymentRequest,
    WebUsb,
    WebHid,
    WebSerial,
    Gamepad,
    Beacon,
    PresentationRequest,
    WebBluetooth,
    WebNfc,
    SharedMemoryAndAtomics,
}

pub open spec fn all_disabled_apis() -> Seq<DisabledApi> {
    seq![
        DisabledApi::Geolocation,
        DisabledApi::Notification,
        DisabledApi::MediaDevices,
        DisabledApi::SensorApis,
        DisabledApi::WakeLock,
        DisabledApi::IdleDetector,
        DisabledApi::PaymentRequest,
        DisabledApi::WebUsb,
        DisabledApi::WebHid,
        DisabledApi::WebSerial,
        DisabledApi::Gamepad,
        DisabledApi::Beacon,
        DisabledApi::PresentationRequest,
        DisabledApi::WebBluetooth,
        DisabledApi::WebNfc,
        DisabledApi::SharedMemoryAndAtomics,
    ]
}

impl DisabledApi {
    pub fn all() -> (r: &'static [DisabledApi])
        ensures
            r@ == all_disabled_apis(),
    {
        &[
            DisabledApi::Geolocation,
            DisabledApi::Notification,
            DisabledApi::MediaDevices,
            DisabledApi::SensorApis,
            DisabledApi::WakeLock,
            DisabledApi::IdleDetector,
            DisabledApi::PaymentRequest,
            DisabledApi::WebUsb,
            DisabledApi::WebHid,
            DisabledApi::WebSerial,
            DisabledApi::Gamepad,
            DisabledApi::Beacon,
            DisabledApi::PresentationRequest,
            DisabledApi::WebBluetooth,
            DisabledApi::WebNfc,
            DisabledApi::SharedMemoryAndAtomics,
        ]
    }
}

} // verus!
