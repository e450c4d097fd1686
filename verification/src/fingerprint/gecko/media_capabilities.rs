//! `navigator.mediaCapabilities`: one locked codec table in both modes
//! (widely supported codecs yes, hardware-dependent HEVC / AV1 no).
use vstd::prelude::*;
use crate::config::schema::Mode;
use crate::fingerprint::interface::{FingerprintOverride, OverrideContext, WebIdlSurface};

verus! {

/// One row of the codec table.
#[derive(Debug, Clone, Copy, PartialEq, Eq, Hash)]
pub struct CodecSupport {
    pub content_type: &'static str,
    pub supported: bool,
    pub smooth: bool,
    pub power_efficient: bool,
}

/// The locked codec table.
pub open spec fn spec_locked_media_capabilities() -> Seq<CodecSupport> {
    seq![
        CodecSupport {
            content_type: "video/mp4; codecs=\"avc1.42E01E\"",
            supported: true,
            smooth: true,
            power_efficient: true,
        },
        CodecSupport {
            content_type: "video/webm; codecs=\"vp09.00.10.08\"",
            supported: true,
            smooth: true,
            power_efficient: true,
        },
        CodecSupport {
            content_type: "audio/mp4; codecs=\"mp4a.40.2\"",
            supported: true,
            smooth: true,
            power_efficient: true,
        },
        CodecSupport {
            content_type: "audio/ogg; codecs=\"opus\"",
            supported: true,
            smooth: true,
            power_efficient: true,
        },
        CodecSupport {
            content_type: "audio/mpeg",
            supported: true,
            smooth: true,
            power_efficient: true,
        },
        CodecSupport {
            content_type: "video/mp4; codecs=\"hvc1.1.6.L93.B0\"",
            supported: false,
            smooth: false,
            power_efficient: false,
        },
        CodecSupport {
            content_type: "video/mp4; codecs=\"av01.0.05M.08\"",
            supported: false,
            smooth: false,
            power_efficient: false,
        },
    ]
}

pub fn locked_media_capabilities() -> (r: &'static [CodecSupport])
    ensures
        r@ == spec_locked_media_capabilities(),
{
    &[
        CodecSupport {
            content_type: "video/mp4; codecs=\"avc1.42E01E\"",
            supported: true,
            smooth: true,
            power_efficient: true,
        },
        CodecSupport {
            content_type: "video/webm; codecs=\"vp09.00.10.08\"",
            supported: true,
            smooth: true,
            power_efficient: true,
        },
        CodecSupport {
            content_type: "audio/mp4; codecs=\"mp4a.40.2\"",
            supported: true,
            smooth: true,
            power_efficient: true,
        },
        CodecSupport {
            content_type: "audio/ogg; codecs=\"opus\"",
            supported: true,
            smooth: true,
            power_efficient: true,
        },
        CodecSupport {
            content_type: "audio/mpeg",
            supported: true,
            smooth: true,
            power_efficient: true,
        },
        CodecSupport {
            content_type: "video/mp4; codecs=\"hvc1.1.6.L93.B0\"",
            supported: false,
            smooth: false,
            power_efficient: false,
        },
        CodecSupport {
            content_type: "video/mp4; codecs=\"av01.0.05M.08\"",
            supported: false,
            smooth: false,
            power_efficient: false,
        },
    ]
}

/// Per-mode codec policy: locked in both modes.
#[derive(Debug, Clone, Copy, PartialEq, Eq, Hash)]
pub enum MediaCapabilitiesPolicy {
    Locked(&'static [CodecSupport]),
}

pub open spec fn is_media_policy_for(mode: Mode, p: MediaCapabilitiesPolicy) -> bool {
    p->0@ == spec_locked_media_capabilities()
}

impl MediaCapabilitiesPolicy {
    pub fn for_mode(mode: Mode) -> (r: Self)
        ensures
            is_media_policy_for(mode, r),
    {
        MediaCapabilitiesPolicy::Locked(locked_media_capabilities())
    }

    pub fn table(&self) -> (r: &'static [CodecSupport])
        ensures
            r == self->0,
    {
        match self {
            MediaCapabilitiesPolicy::Locked(t) => t,
        }
    }
}

/// Every media-capabilities pathway the bridge must wire.
#[derive(Debug, Clone, Copy, PartialEq, Eq, Hash, Structural)]
pub enum MediaCapabilitiesSurface {
    DecodingInfo,
    EncodingInfo,
}

pub open spec fn all_media_capabilities_surfaces() -> Seq<MediaCapabilitiesSurface> {
    seq![
        MediaCapabilitiesSurface::DecodingInfo,
        MediaCapabilitiesSurface::EncodingInfo,
    ]
}

impl MediaCapabilitiesSurface {
    pub fn all() -> (r: &'static [MediaCapabilitiesSurface])
        ensures
            r@ == all_media_capabilities_surfaces(),
    {
        &[
            MediaCapabilitiesSurface::DecodingInfo,
            MediaCapabilitiesSurface::EncodingInfo,
        ]
    }
}

/// The override, with its policy resolved once at construction.
#[derive(Debug, Clone, Copy)]
pub struct MediaCapabilitiesOverride {
    policy: MediaCapabilitiesPolicy,
}

impl MediaCapabilitiesOverride {
    pub closed spec fn spec_policy(&self) -> MediaCapabilitiesPolicy {
        self.policy
    }

    pub fn new(mode: Mode) -> (r: Self)
        ensures
            is_media_policy_for(mode, r.spec_policy()),
    {
        MediaCapabilitiesOverride { policy: MediaCapabilitiesPolicy::for_mode(mode) }
    }

    pub fn policy(&self) -> (r: MediaCapabilitiesPolicy)
        ensures
            r == self.spec_policy(),
    {
        self.policy
    }
}

impl FingerprintOverride for MediaCapabilitiesOverride {
    fn surface(&self) -> (r: WebIdlSurface)
        ensures
            r == WebIdlSurface::MediaCapabilities,
    {
        WebIdlSurface::MediaCapabilities
    }

    fn install(&self, ctx: &OverrideContext) {
    }
}

} // verus!
