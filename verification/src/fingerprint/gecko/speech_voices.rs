//! `speechSynthesis.getVoices()`: Strict reports one locked cohort voice
//! set; Standard buckets the host voices by locale.
use vstd::prelude::*;
use crate::config::schema::Mode;
use crate::fingerprint::interface::{FingerprintOverride, OverrideContext, WebIdlSurface};

verus! {

/// One reported voice.
#[derive(Debug, Clone, Copy, PartialEq, Eq, Hash)]
pub struct VoiceProfile {
    pub voice_uri: &'static str,
    pub name: &'static str,
    pub lang: &'static str,
    pub default: bool,
    pub local_service: bool,
}

/// The locked Strict voice set: en-US (default), en-GB, ja-JP, ar-SA.
pub open spec fn spec_locked_voice_set() -> Seq<VoiceProfile> {
    seq![
        VoiceProfile {
            voice_uri: "devbrowse-cohort-en-US-v1",
            name: "DevBrowse Standard Voice (en-US)",
            lang: "en-US",
            default: true,
            local_service: true,
        },
        VoiceProfile {
            voice_uri: "devbrowse-cohort-en-GB-v1",
            name: "DevBrowse Standard Voice (en-GB)",
            lang: "en-GB",
            default: false,
            local_service: true,
        },
        VoiceProfile {
            voice_uri: "devbrowse-cohort-ja-JP-v1",
            name: "DevBrowse Standard Voice (ja-JP)",
            lang: "ja-JP",
            default: false,
            local_service: true,
        },
        VoiceProfile {
            voice_uri: "devbrowse-cohort-ar-SA-v1",
            name: "DevBrowse Standard Voice (ar-SA)",
            lang: "ar-SA",
            default: false,
            local_service: true,
        },
    ]
}

pub fn locked_voice_set() -> (r: &'static [VoiceProfile])
    ensures
        r@ == spec_locked_voice_set(),
{
    &[
        VoiceProfile {
            voice_uri: "devbrowse-cohort-en-US-v1",
            name: "DevBrowse Standard Voice (en-US)",
            lang: "en-US",
            default: true,
            local_service: true,
        },
        VoiceProfile {
            voice_uri: "devbrowse-cohort-en-GB-v1",
            name: "DevBrowse Standard Voice (en-GB)",
            lang: "en-GB",
            default: false,
            local_service: true,
        },
        VoiceProfile {
            voice_uri: "devbrowse-cohort-ja-JP-v1",
            name: "DevBrowse Standard Voice (ja-JP)",
            lang: "ja-JP",
            default: false,
            local_service: true,
        },
        VoiceProfile {
            voice_uri: "devbrowse-cohort-ar-SA-v1",
            name: "DevBrowse Standard Voice (ar-SA)",
            lang: "ar-SA",
            default: false,
            local_service: true,
        },
    ]
}

/// Per-mode voice policy.
#[derive(Debug, Clone, Copy, PartialEq, Eq, Hash)]
pub enum SpeechVoicesPolicy {
    /// Strict: exactly the locked set.
    CohortLocked(&'static [VoiceProfile]),
    /// Standard: host voices bucketed by locale.
    LocaleBucketed,
}

pub open spec fn is_speech_policy_for(mode: Mode, p: SpeechVoicesPolicy) -> bool {
    match mode {
        Mode::Standard => p == SpeechVoicesPolicy::LocaleBucketed,
        Mode::Strict => p matches SpeechVoicesPolicy::CohortLocked(v) && v@ == spec_locked_voice_set(),
    }
}

impl SpeechVoicesPolicy {
    pub fn for_mode(mode: Mode) -> (r: Self)
        ensures
            is_speech_policy_for(mode, r),
    {
        match mode {
            Mode::Standard => SpeechVoicesPolicy::LocaleBucketed,
            Mode::Strict => SpeechVoicesPolicy::CohortLocked(locked_voice_set()),
        }
    }
}

/// Every speech-synthesis pathway the bridge must wire.
#[derive(Debug, Clone, Copy, PartialEq, Eq, Hash, Structural)]
pub enum SpeechVoicesSurface {
    GetVoices,
    OnVoicesChanged,
}

pub open spec fn all_speech_voices_surfaces() -> Seq<SpeechVoicesSurface> {
    seq![
        SpeechVoicesSurface::GetVoices,
        SpeechVoicesSurface::OnVoicesChanged,
    ]
}

impl SpeechVoicesSurface {
    pub fn all() -> (r: &'static [SpeechVoicesSurface])
        ensures
            r@ == all_speech_voices_surfaces(),
    {
        &[
            SpeechVoicesSurface::GetVoices,
            SpeechVoicesSurface::OnVoicesChanged,
        ]
    }
}

/// The override, with its policy resolved once at construction.
#[derive(Debug, Clone, Copy)]
pub struct SpeechVoicesOverride {
    policy: SpeechVoicesPolicy,
}

impl SpeechVoicesOverride {
    pub closed spec fn spec_policy(&self) -> SpeechVoicesPolicy {
        self.policy
    }

    pub fn new(mode: Mode) -> (r: Self)
        ensures
            is_speech_policy_for(mode, r.spec_policy()),
    {
        SpeechVoicesOverride { policy: SpeechVoicesPolicy::for_mode(mode) }
    }

    pub fn policy(&self) -> (r: SpeechVoicesPolicy)
        ensures
            r == self.spec_policy(),
    {
        self.policy
    }
}

impl FingerprintOverride for SpeechVoicesOverride {
    fn surface(&self) -> (r: WebIdlSurface)
        ensures
            r == WebIdlSurface::SpeechSynthesis,
    {
        WebIdlSurface::SpeechSynthesis
    }

    fn install(&self, ctx: &OverrideContext) {
    }
}

} // verus!
