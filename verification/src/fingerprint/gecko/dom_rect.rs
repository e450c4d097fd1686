//! DOMRect and TextMetrics geometry: Strict snaps to integers; Standard
//! snaps and adds a ±1 farbled offset. The offsets are integer
//! projections of their own farbling streams; the snapping itself is
//! floating point and stays with the engine bridge.
use vstd::prelude::*;
use crate::config::schema::Mode;
use crate::fingerprint::farbling::{
    FarblingSeed, FarblingSurface, byte_offset, project_byte, spec_stream_byte, stream_byte,
};
use crate::fingerprint::interface::{FingerprintOverride, OverrideContext, WebIdlSurface};

verus! {

/// Per-mode geometry policy.
#[derive(Debug, Clone, Copy, PartialEq, Eq, Hash, Structural)]
pub enum DomRectPolicy {
    /// Strict: round to the nearest integer.
    IntegerSnapOnly,
    /// Standard: round, then add a farbled offset in `[-1, +1]`.
    SnapAndFarble,
}

pub open spec fn is_dom_rect_policy_for(mode: Mode, p: DomRectPolicy) -> bool {
    match mode {
        Mode::Strict => p == DomRectPolicy::IntegerSnapOnly,
        Mode::Standard => p == DomRectPolicy::SnapAndFarble,
    }
}

impl DomRectPolicy {
    pub fn for_mode(mode: Mode) -> (r: Self)
        ensures
            is_dom_rect_policy_for(mode, r),
    {
        match mode {
            Mode::Strict => DomRectPolicy::IntegerSnapOnly,
            Mode::Standard => DomRectPolicy::SnapAndFarble,
        }
    }
}

/// Every geometry pathway the bridge must wire.
#[derive(Debug, Clone, Copy, PartialEq, Eq, Hash, Structural)]
pub enum DomRectSurface {
    ElementGetClientRects,
    ElementGetBoundingClientRect,
    RangeGetClientRects,
    RangeGetBoundingClientRect,
    CanvasMeasureText,
    SvgGetBBox,
}

pub open spec fn all_dom_rect_surfaces() -> Seq<DomRectSurface> {
    seq![
        DomRectSurface::ElementGetClientRects,
        DomRectSurface::ElementGetBoundingClientRect,
        DomRectSurface::RangeGetClientRects,
        DomRectSurface::RangeGetBoundingClientRect,
        DomRectSurface::CanvasMeasureText,
        DomRectSurface::SvgGetBBox,
    ]
}

impl DomRectSurface {
    pub fn all() -> (r: &'static [DomRectSurface])
        ensures
            r@ == all_dom_rect_surfaces(),
    {
        &[
            DomRectSurface::ElementGetClientRects,
            DomRectSurface::ElementGetBoundingClientRect,
            DomRectSurface::RangeGetClientRects,
            DomRectSurface::RangeGetBoundingClientRect,
            DomRectSurface::CanvasMeasureText,
            DomRectSurface::SvgGetBBox,
        ]
    }
}

/// Offset added to a snapped DOMRect coordinate at `index`, from the
/// DOMRect stream.
pub fn farble_dom_rect_offset(seed: &FarblingSeed, index: u64, amplitude: u8) -> (r: i8)
    ensures
        r == byte_offset(spec_stream_byte(seed@, FarblingSurface::DomRect, index), amplitude),
{
    if amplitude == 0 {
        return 0;
    }
    let b = stream_byte(seed, FarblingSurface::DomRect, index);
    project_byte(b, amplitude)
}

/// Offset added to a snapped TextMetrics width at `index`, from the
/// TextMetrics stream.
pub fn farble_text_metric_offset(seed: &FarblingSeed, index: u64, amplitude: u8) -> (r: i8)
    ensures
        r == byte_offset(spec_stream_byte(seed@, FarblingSurface::TextMetrics, index), amplitude),
{
    if amplitude == 0 {
        return 0;
    }
    let b = stream_byte(seed, FarblingSurface::TextMetrics, index);
    project_byte(b, amplitude)
}

/// The integer offset a policy adds to a snapped coordinate: none under
/// Strict, the ±1 DOMRect farble under Standard.
pub fn dom_rect_coord_offset(policy: DomRectPolicy, seed: &FarblingSeed, index: u64) -> (r: i8)
    ensures
        r == (match policy {
            DomRectPolicy::IntegerSnapOnly => 0i8,
            DomRectPolicy::SnapAndFarble => byte_offset(
                spec_stream_byte(seed@, FarblingSurface::DomRect, index),
                1,
            ),
        }),
{
    match policy {
        DomRectPolicy::IntegerSnapOnly => 0,
        DomRectPolicy::SnapAndFarble => farble_dom_rect_offset(seed, index, 1),
    }
}

/// The integer offset a policy adds to a snapped text metric: none under
/// Strict, the ±1 TextMetrics farble under Standard.
pub fn text_metric_offset(policy: DomRectPolicy, seed: &FarblingSeed, index: u64) -> (r: i8)
    ensures
        r == (match policy {
            DomRectPolicy::IntegerSnapOnly => 0i8,
            DomRectPolicy::SnapAndFarble => byte_offset(
                spec_stream_byte(seed@, FarblingSurface::TextMetrics, index),
                1,
            ),
        }),
{
    match policy {
        DomRectPolicy::IntegerSnapOnly => 0,
        DomRectPolicy::SnapAndFarble => farble_text_metric_offset(seed, index, 1),
    }
}

/// The override, with its policy resolved once at construction.
#[derive(Debug, Clone, Copy)]
pub struct DomRectOverride {
    policy: DomRectPolicy,
}

impl DomRectOverride {
    pub closed spec fn spec_policy(&self) -> DomRectPolicy {
        self.policy
    }

    pub fn new(mode: Mode) -> (r: Self)
        ensures
            is_dom_rect_policy_for(mode, r.spec_policy()),
    {
        DomRectOverride { policy: DomRectPolicy::for_mode(mode) }
    }

    pub fn policy(&self) -> (r: DomRectPolicy)
        ensures
            r == self.spec_policy(),
    {
        self.policy
    }
}

impl FingerprintOverride for DomRectOverride {
    fn surface(&self) -> (r: WebIdlSurface)
        ensures
            r == WebIdlSurface::DomRect,
    {
        WebIdlSurface::DomRect
    }

    fn install(&self, ctx: &OverrideContext) {
    }
}

} // verus!
