//! Audio: both modes render through one cohort-locked DSP profile
//! (sample rate, latencies, quantization, compressor, scalar DSP path);
//! Standard additionally farbles sample readbacks. Floating-point values
//! are kept as their IEEE-754 bit patterns.
use vstd::prelude::*;
use crate::config::schema::Mode;
use crate::fingerprint::farbling::{FarblingProfile, is_standard_farbling_profile};
use crate::fingerprint::interface::{FingerprintOverride, OverrideContext, WebIdlSurface};

verus! {

/// Dynamics-compressor implementation.
#[derive(Debug, Clone, Copy, PartialEq, Eq, Hash, Structural)]
pub enum CompressorImpl {
    Native,
    CohortLocked,
}

/// DSP code path.
#[derive(Debug, Clone, Copy, PartialEq, Eq, Hash, Structural)]
pub enum DspPath {
    Native,
    ScalarReference,
}

/// The locked audio rendering parameters. `*_bits` fields hold the bits
/// of an `f64` (latencies, seconds) or `f32` (quantization step).
#[derive(Debug, Clone, Copy, PartialEq, Eq, Hash, Structural)]
pub struct AudioProfile {
    pub sample_rate_hz: u32,
    pub channel_count: u32,
    pub base_latency_seconds_bits: u64,
    pub output_latency_seconds_bits: u64,
    pub f32_quantization_step_bits: u32,
    pub compressor: CompressorImpl,
    pub dsp_path: DspPath,
}

/// 44.1 kHz stereo, 5 ms base and 20 ms output latency, a 1e-7 sample
/// quantization step, the cohort compressor and the scalar DSP path.
pub open spec fn spec_locked_audio_profile() -> AudioProfile {
    AudioProfile {
        sample_rate_hz: 44_100,
        channel_count: 2,
        base_latency_seconds_bits: 0x3f74_7ae1_47ae_147b,
        output_latency_seconds_bits: 0x3f94_7ae1_47ae_147b,
        f32_quantization_step_bits: 0x33d6_bf95,
        compressor: CompressorImpl::CohortLocked,
        dsp_path: DspPath::ScalarReference,
    }
}

pub fn locked_audio_profile() -> (r: &'static AudioProfile)
    ensures
        *r == spec_locked_audio_profile(),
{
    &AudioProfile {
        sample_rate_hz: 44_100,
        channel_count: 2,
        base_latency_seconds_bits: 0x3f74_7ae1_47ae_147b,
        output_latency_seconds_bits: 0x3f94_7ae1_47ae_147b,
        f32_quantization_step_bits: 0x33d6_bf95,
        compressor: CompressorImpl::CohortLocked,
        dsp_path: DspPath::ScalarReference,
    }
}

/// Per-mode audio policy: always the locked profile; Standard farbles.
#[derive(Debug, Clone, Copy, PartialEq)]
pub enum AudioReadbackPolicy {
    Normalized {
        profile: &'static AudioProfile,
        farbling: Option<&'static FarblingProfile>,
    },
}

pub open spec fn is_audio_policy_for(mode: Mode, p: AudioReadbackPolicy) -> bool {
    &&& *p->profile == spec_locked_audio_profile()
    &&& match mode {
        Mode::Standard => p->farbling matches Some(f) && is_standard_farbling_profile(*f),
        Mode::Strict => p->farbling is None,
    }
}

impl AudioReadbackPolicy {
    pub fn for_mode(mode: Mode) -> (r: Self)
        ensures
            is_audio_policy_for(mode, r),
    {
        match mode {
            Mode::Standard => AudioReadbackPolicy::Normalized {
                profile: locked_audio_profile(),
                farbling: Some(crate::fingerprint::farbling::standard_farbling_profile()),
            },
            Mode::Strict => AudioReadbackPolicy::Normalized {
                profile: locked_audio_profile(),
                farbling: None,
            },
        }
    }

    pub fn profile(&self) -> (r: &'static AudioProfile)
        ensures
            r == self->profile,
    {
        match self {
            AudioReadbackPolicy::Normalized { profile, .. } => profile,
        }
    }

    pub fn farbling(&self) -> (r: Option<&'static FarblingProfile>)
        ensures
            r == self->farbling,
    {
        match self {
            AudioReadbackPolicy::Normalized { farbling, .. } => *farbling,
        }
    }

    /// Every audio policy normalizes.
    pub fn normalizes(&self) -> (r: bool)
        ensures
            r,
    {
        match self {
            AudioReadbackPolicy::Normalized { .. } => true,
        }
    }
}

/// Every audio readback pathway the bridge must wire.
#[derive(Debug, Clone, Copy, PartialEq, Eq, Hash, Structural)]
pub enum AudioSurface {
    OfflineRenderBuffer,
    AudioBufferGetChannelData,
    AnalyserByteFrequencyData,
    AnalyserFloatFrequencyData,
    AnalyserByteTimeDomainData,
    AnalyserFloatTimeDomainData,
    AudioContextBaseLatency,
    AudioContextOutputLatency,
    AudioContextSampleRate,
}

pub open spec fn all_audio_surfaces() -> Seq<AudioSurface> {
    seq![
        AudioSurface::OfflineRenderBuffer,
        AudioSurface::AudioBufferGetChannelData,
        AudioSurface::AnalyserByteFrequencyData,
        AudioSurface::AnalyserFloatFrequencyData,
        AudioSurface::AnalyserByteTimeDomainData,
        AudioSurface::AnalyserFloatTimeDomainData,
        AudioSurface::AudioContextBaseLatency,
        AudioSurface::AudioContextOutputLatency,
        AudioSurface::AudioContextSampleRate,
    ]
}

impl AudioSurface {
    pub fn all() -> (r: &'static [AudioSurface])
        ensures
            r@ == all_audio_surfaces(),
    {
        &[
            AudioSurface::OfflineRenderBuffer,
            AudioSurface::AudioBufferGetChannelData,
            AudioSurface::AnalyserByteFrequencyData,
            AudioSurface::AnalyserFloatFrequencyData,
            AudioSurface::AnalyserByteTimeDomainData,
            AudioSurface::AnalyserFloatTimeDomainData,
            AudioSurface::AudioContextBaseLatency,
            AudioSurface::AudioContextOutputLatency,
            AudioSurface::AudioContextSampleRate,
        ]
    }
}

/// The override, with its policy resolved once at construction.
#[derive(Debug, Clone, Copy)]
pub struct AudioOverride {
    policy: AudioReadbackPolicy,
}

impl AudioOverride {
    pub closed spec fn spec_policy(&self) -> AudioReadbackPolicy {
        self.policy
    }

    pub fn new(mode: Mode) -> (r: Self)
        ensures
            is_audio_policy_for(mode, r.spec_policy()),
    {
        AudioOverride { policy: AudioReadbackPolicy::for_mode(mode) }
    }

    pub fn policy(&self) -> (r: AudioReadbackPolicy)
        ensures
            r == self.spec_policy(),
    {
        self.policy
    }

    pub fn profile(&self) -> (r: &'static AudioProfile)
        ensures
            r == self.spec_policy()->profile,
    {
        self.policy.profile()
    }
}

impl FingerprintOverride for AudioOverride {
    fn surface(&self) -> (r: WebIdlSurface)
        ensures
            r == WebIdlSurface::Audio,
    {
        WebIdlSurface::Audio
    }

    fn install(&self, ctx: &OverrideContext) {
    }
}

} // verus!
