//! Deterministic per-(origin, identity profile) farbling of dynamic
//! readbacks.
//!
//! Every offset is a projection of one stream byte: the first byte of the
//! SHA-256 of `domain ‖ [epoch ‖] seed ‖ surface tag ‖ index (LE u64)`.
//! Offsets therefore depend on nothing but their inputs (no clock, no call
//! count), differ per seed and per surface, and the epoch path (v2) lives
//! under a separate domain label from the deterministic path (v1).
use vstd::prelude::*;
use crate::digest::{sha256, spec_sha256};

verus! {

/// Width of a farbling seed in bytes.
pub const FARBLING_SEED_LEN: usize = 16;

/// A farbling seed, derived from a storage partition key. Privacy
/// sensitive: whoever knows it can predict every offset of its partition.
pub type FarblingSeed = [u8; FARBLING_SEED_LEN];

/// A per-session epoch for the v2 path; all zeroes means "no epoch".
pub type FarblingEpoch = [u8; 16];

/// The "no epoch" sentinel: sixteen zero bytes.
pub fn no_farbling_epoch() -> (r: FarblingEpoch)
    ensures
        forall|i: int| 0 <= i < 16 ==> r[i] == 0u8,
{
    [0u8; 16]
}

/// Readback surfaces with disjoint farbling streams.
#[derive(Debug, Clone, Copy, PartialEq, Eq, Hash, Structural)]
pub enum FarblingSurface {
    /// Canvas readback.
    Canvas,
    /// WebGL numeric `MAX_*` parameters.
    WebGlNumeric,
    /// Audio buffer readback.
    Audio,
    /// DOMRect coordinates.
    DomRect,
    /// TextMetrics widths.
    TextMetrics,
}

/// The one-byte tag of each surface's stream.
pub open spec fn surface_tag(s: FarblingSurface) -> u8 {
    match s {
        FarblingSurface::Canvas => 0x01,
        FarblingSurface::WebGlNumeric => 0x02,
        FarblingSurface::Audio => 0x03,
        FarblingSurface::DomRect => 0x04,
        FarblingSurface::TextMetrics => 0x05,
    }
}

impl FarblingSurface {
    /// The byte that separates this surface's stream from the others.
    pub fn tag(self) -> (r: u8)
        ensures
            r == surface_tag(self),
    {
        match self {
            FarblingSurface::Canvas => 0x01,
            FarblingSurface::WebGlNumeric => 0x02,
            FarblingSurface::Audio => 0x03,
            FarblingSurface::DomRect => 0x04,
            FarblingSurface::TextMetrics => 0x05,
        }
    }
}

/// Distinct surfaces have distinct tags, so their streams are separate.
pub proof fn lemma_surface_tags_distinct(a: FarblingSurface, b: FarblingSurface)
    requires
        a != b,
    ensures
        surface_tag(a) != surface_tag(b),
{
}

/// Per-mode farbling parameters. The audio amplitude is an `f32` kept
/// here as its IEEE-754 bit pattern.
#[derive(Debug, Clone, Copy, PartialEq, Eq, Hash)]
pub struct FarblingProfile {
    /// Profile version label.
    pub label: &'static str,
    /// Canvas per-byte amplitude: offsets in `[-a, +a]`.
    pub canvas_lsb_amplitude: u8,
    /// Bits of the audio per-sample amplitude (`1e-5` in v1).
    pub audio_quantization_eps_bits: u32,
    /// WebGL `MAX_*` amplitude: offsets in `[-a, +a]`.
    pub webgl_numeric_amplitude: i32,
}

/// `p` is the locked Standard-mode profile (v1 values).
pub open spec fn is_standard_farbling_profile(p: FarblingProfile) -> bool {
    &&& p.label == "devbrowse-farbling-standard-v1"
    &&& p.canvas_lsb_amplitude == 1
    &&& p.audio_quantization_eps_bits == 0x3727_c5ac
    &&& p.webgl_numeric_amplitude == 1
}

/// The locked Standard-mode farbling profile.
pub fn standard_farbling_profile() -> (r: &'static FarblingProfile)
    ensures
        is_standard_farbling_profile(*r),
{
    &FarblingProfile {
        label: "devbrowse-farbling-standard-v1",
        canvas_lsb_amplitude: 1,
        audio_quantization_eps_bits: 0x3727_c5ac,
        webgl_numeric_amplitude: 1,
    }
}

// ── Stream derivation ───────────────────────────────────────────────────

/// The v1 domain label, `b"PB-FARBLE-V1"`.
pub open spec fn farble_domain_v1() -> Seq<u8> {
    seq![0x50u8, 0x42, 0x2d, 0x46, 0x41, 0x52, 0x42, 0x4c, 0x45, 0x2d, 0x56, 0x31]
}

/// The v2 domain label, `b"PB-FARBLE-V2"`.
pub open spec fn farble_domain_v2() -> Seq<u8> {
    seq![0x50u8, 0x42, 0x2d, 0x46, 0x41, 0x52, 0x42, 0x4c, 0x45, 0x2d, 0x56, 0x32]
}

/// Little-endian bytes of a `u64`.
pub open spec fn le_bytes_u64(x: u64) -> Seq<u8> {
    seq![
        x as u8,
        (x >> 8u64) as u8,
        (x >> 16u64) as u8,
        (x >> 24u64) as u8,
        (x >> 32u64) as u8,
        (x >> 40u64) as u8,
        (x >> 48u64) as u8,
        (x >> 56u64) as u8,
    ]
}

/// Hash input before the index, v1 path.
pub open spec fn v1_prefix(seed: Seq<u8>, surface: FarblingSurface) -> Seq<u8> {
    farble_domain_v1() + seed + seq![surface_tag(surface)]
}

/// Hash input before the index, v2 path.
pub open spec fn v2_prefix(epoch: Seq<u8>, seed: Seq<u8>, surface: FarblingSurface) -> Seq<u8> {
    farble_domain_v2() + epoch + seed + seq![surface_tag(surface)]
}

/// First byte of the SHA-256 of `prefix ‖ LE(index)`.
pub open spec fn prefixed_stream_byte(prefix: Seq<u8>, index: u64) -> u8 {
    spec_sha256(prefix + le_bytes_u64(index))[0]
}

/// The v1 stream byte of `(seed, surface, index)`.
pub open spec fn spec_stream_byte(seed: Seq<u8>, surface: FarblingSurface, index: u64) -> u8 {
    prefixed_stream_byte(v1_prefix(seed, surface), index)
}

/// The v2 stream byte of `(epoch, seed, surface, index)`.
pub open spec fn spec_stream_byte_v2(
    epoch: Seq<u8>,
    seed: Seq<u8>,
    surface: FarblingSurface,
    index: u64,
) -> u8 {
    prefixed_stream_byte(v2_prefix(epoch, seed, surface), index)
}

fn append_bytes(v: &mut Vec<u8>, s: &[u8])
    ensures
        final(v)@ == old(v)@ + s@,
{
    let mut i: usize = 0;
    while i < s.len()
        invariant
            i <= s.len(),
            v@ == old(v)@ + s@.subrange(0, i as int),
        decreases s.len() - i,
    {
        v.push(s[i]);
        i = i + 1;
        assert(s@.subrange(0, i as int) == s@.subrange(0, i - 1 as int).push(s@[i - 1]));
    }
    assert(s@.subrange(0, s.len() as int) == s@);
}

fn append_le_u64(v: &mut Vec<u8>, x: u64)
    ensures
        final(v)@ == old(v)@ + le_bytes_u64(x),
{
    v.push(x as u8);
    v.push((x >> 8u64) as u8);
    v.push((x >> 16u64) as u8);
    v.push((x >> 24u64) as u8);
    v.push((x >> 32u64) as u8);
    v.push((x >> 40u64) as u8);
    v.push((x >> 48u64) as u8);
    v.push((x >> 56u64) as u8);
}

fn domain_v1() -> (r: Vec<u8>)
    ensures
        r@ == farble_domain_v1(),
{
    let r: Vec<u8> = vec![0x50u8, 0x42, 0x2d, 0x46, 0x41, 0x52, 0x42, 0x4c, 0x45, 0x2d, 0x56, 0x31];
    assert(r@ == farble_domain_v1());
    r
}

fn domain_v2() -> (r: Vec<u8>)
    ensures
        r@ == farble_domain_v2(),
{
    let r: Vec<u8> = vec![0x50u8, 0x42, 0x2d, 0x46, 0x41, 0x52, 0x42, 0x4c, 0x45, 0x2d, 0x56, 0x32];
    assert(r@ == farble_domain_v2());
    r
}

fn build_v1_prefix(seed: &FarblingSeed, surface: FarblingSurface) -> (r: Vec<u8>)
    ensures
        r@ == v1_prefix(seed@, surface),
{
    let mut m = domain_v1();
    append_bytes(&mut m, seed);
    m.push(surface.tag());
    m
}

fn build_v2_prefix(epoch: &FarblingEpoch, seed: &FarblingSeed, surface: FarblingSurface) -> (r:
    Vec<u8>)
    ensures
        r@ == v2_prefix(epoch@, seed@, surface),
{
    let mut m = domain_v2();
    append_bytes(&mut m, epoch);
    append_bytes(&mut m, seed);
    m.push(surface.tag());
    m
}

fn prefixed_byte(prefix: &Vec<u8>, index: u64) -> (r: u8)
    ensures
        r == prefixed_stream_byte(prefix@, index),
{
    let mut m = prefix.clone();
    append_le_u64(&mut m, index);
    let d = sha256(m.as_slice());
    d[0]
}

/// One uniform byte of the v1 (deterministic) stream.
pub fn stream_byte(seed: &FarblingSeed, surface: FarblingSurface, index: u64) -> (r: u8)
    ensures
        r == spec_stream_byte(seed@, surface, index),
{
    let prefix = build_v1_prefix(seed, surface);
    prefixed_byte(&prefix, index)
}

/// One uniform byte of the v2 (per-session epoch) stream.
pub fn stream_byte_v2(
    epoch: &FarblingEpoch,
    seed: &FarblingSeed,
    surface: FarblingSurface,
    index: u64,
) -> (r: u8)
    ensures
        r == spec_stream_byte_v2(epoch@, seed@, surface, index),
{
    let prefix = build_v2_prefix(epoch, seed, surface);
    prefixed_byte(&prefix, index)
}

/// A v1 stream key pre-derived for one `(seed, surface)`: the hash input up
/// to the index, computed once per readback.
#[derive(Debug, Clone)]
pub struct FarblingStreamKey {
    prefix: Vec<u8>,
}

impl FarblingStreamKey {
    pub closed spec fn spec_prefix(&self) -> Seq<u8> {
        self.prefix@
    }

    pub fn new(seed: &FarblingSeed, surface: FarblingSurface) -> (r: Self)
        ensures
            r.spec_prefix() == v1_prefix(seed@, surface),
    {
        FarblingStreamKey { prefix: build_v1_prefix(seed, surface) }
    }

    /// The stream byte at `index`.
    pub fn byte_at(&self, index: u64) -> (r: u8)
        ensures
            r == prefixed_stream_byte(self.spec_prefix(), index),
    {
        prefixed_byte(&self.prefix, index)
    }
}

/// A v2 stream key pre-derived for one `(epoch, seed, surface)`.
#[derive(Debug, Clone)]
pub struct FarblingStreamKeyV2 {
    prefix: Vec<u8>,
}

impl FarblingStreamKeyV2 {
    pub closed spec fn spec_prefix(&self) -> Seq<u8> {
        self.prefix@
    }

    pub fn new(epoch: &FarblingEpoch, seed: &FarblingSeed, surface: FarblingSurface) -> (r: Self)
        ensures
            r.spec_prefix() == v2_prefix(epoch@, seed@, surface),
    {
        FarblingStreamKeyV2 { prefix: build_v2_prefix(epoch, seed, surface) }
    }

    /// The stream byte at `index`.
    pub fn byte_at(&self, index: u64) -> (r: u8)
        ensures
            r == prefixed_stream_byte(self.spec_prefix(), index),
    {
        prefixed_byte(&self.prefix, index)
    }
}

/// A key made for `(seed, surface)` emits, at every index, exactly the
/// per-call v1 stream byte.
pub proof fn lemma_stream_key_matches_stream_byte(
    key: FarblingStreamKey,
    seed: FarblingSeed,
    surface: FarblingSurface,
    index: u64,
)
    requires
        key.spec_prefix() == v1_prefix(seed@, surface),
    ensures
        prefixed_stream_byte(key.spec_prefix(), index) == spec_stream_byte(seed@, surface, index),
{
}

/// A v2 key made for `(epoch, seed, surface)` emits, at every index,
/// exactly the per-call v2 stream byte.
pub proof fn lemma_stream_key_v2_matches_stream_byte_v2(
    key: FarblingStreamKeyV2,
    epoch: FarblingEpoch,
    seed: FarblingSeed,
    surface: FarblingSurface,
    index: u64,
)
    requires
        key.spec_prefix() == v2_prefix(epoch@, seed@, surface),
    ensures
        prefixed_stream_byte(key.spec_prefix(), index) == spec_stream_byte_v2(
            epoch@,
            seed@,
            surface,
            index,
        ),
{
}

/// Domain separation: no v1 hash input is ever a v2 hash input (the
/// domain labels differ in their last byte), whatever the epoch, seeds,
/// surfaces and indices; and two v1 inputs for the same seed but different
/// surfaces differ at the tag byte.
pub proof fn lemma_stream_inputs_disjoint(
    epoch: FarblingEpoch,
    seed: FarblingSeed,
    seed2: FarblingSeed,
    a: FarblingSurface,
    b: FarblingSurface,
    i: u64,
    j: u64,
)
    ensures
        v1_prefix(seed@, a) + le_bytes_u64(i) != v2_prefix(epoch@, seed2@, b) + le_bytes_u64(j),
        a != b ==> v1_prefix(seed@, a) + le_bytes_u64(i) != v1_prefix(seed@, b) + le_bytes_u64(j),
{
    let x = v1_prefix(seed@, a) + le_bytes_u64(i);
    let y = v2_prefix(epoch@, seed2@, b) + le_bytes_u64(j);
    assert(x[11] == 0x31u8);
    assert(y[11] == 0x32u8);
    if a != b {
        let z = v1_prefix(seed@, b) + le_bytes_u64(j);
        assert(x[28] == surface_tag(a));
        assert(z[28] == surface_tag(b));
        lemma_surface_tags_distinct(a, b);
    }
}

// ── Projections ─────────────────────────────────────────────────────────

/// A stream byte projected into `[-a, +a]` (`a` a byte amplitude; the
/// result is taken as an `i8`), or 0 for `a == 0`.
pub open spec fn byte_offset(b: u8, amplitude: u8) -> i8 {
    if amplitude == 0 {
        0
    } else {
        ((b as int % (2 * amplitude + 1)) - amplitude) as i8
    }
}

/// The largest WebGL amplitude bound: amplitudes at or above it are
/// rejected, like non-positive ones.
pub open spec fn webgl_amplitude_limit() -> int {
    i32::MAX / 2
}

/// A stream byte projected into `[-a, +a]` for a WebGL amplitude, or 0 for
/// a rejected amplitude.
pub open spec fn int_offset(b: u8, amplitude: i32) -> i32 {
    if amplitude <= 0 || amplitude >= webgl_amplitude_limit() {
        0
    } else {
        ((b as int % (2 * amplitude + 1)) - amplitude) as i32
    }
}

/// Projects a stream byte into `[-amplitude, +amplitude]`.
pub fn project_byte(b: u8, amplitude: u8) -> (r: i8)
    ensures
        r == byte_offset(b, amplitude),
{
    if amplitude == 0 {
        return 0;
    }
    let span: u16 = 2u16 * (amplitude as u16) + 1;
    let bucket: i16 = ((b as u16) % span) as i16;
    (bucket - amplitude as i16) as i8
}

/// Projects a stream byte into `[-amplitude, +amplitude]` for a WebGL
/// amplitude; rejected amplitudes give 0.
pub fn project_int(b: u8, amplitude: i32) -> (r: i32)
    ensures
        r == int_offset(b, amplitude),
{
    if amplitude <= 0 || amplitude >= i32::MAX / 2 {
        return 0;
    }
    let span: u32 = (2i32 * amplitude + 1) as u32;
    let bucket: u32 = (b as u32) % span;
    (bucket as i32) - amplitude
}

/// For amplitudes that fit an `i8`, the byte projection stays in
/// `[-a, +a]`; amplitude 0 gives 0.
pub proof fn lemma_byte_offset_bounded(b: u8, amplitude: u8)
    requires
        amplitude <= 127,
    ensures
        -(amplitude as int) <= byte_offset(b, amplitude) <= amplitude,
        amplitude == 0 ==> byte_offset(b, amplitude) == 0,
{
    if amplitude > 0 {
        let m = b as int % (2 * amplitude + 1);
        assert(0 <= m < 2 * amplitude + 1);
    }
}

/// The WebGL projection stays in `[-a, +a]`, and is 0 for rejected
/// amplitudes.
pub proof fn lemma_int_offset_bounded(b: u8, amplitude: i32)
    ensures
        0 < amplitude < webgl_amplitude_limit() ==> -(amplitude as int) <= int_offset(b, amplitude)
            <= amplitude,
        amplitude <= 0 || amplitude >= webgl_amplitude_limit() ==> int_offset(b, amplitude) == 0,
{
    if 0 < amplitude < webgl_amplitude_limit() {
        let m = b as int % (2 * amplitude + 1);
        assert(0 <= m < 2 * amplitude + 1);
    }
}

/// For an accepted WebGL amplitude `a`, the offset is the one value in
/// `[-a, +a]` that is congruent to the stream byte shifted by `-a`, modulo
/// `2a + 1`: it follows the byte, and reaches `+a` exactly when the byte is
/// `2a` modulo `2a + 1`.
pub proof fn lemma_int_offset_tracks_byte(b: u8, amplitude: i32)
    requires
        0 < amplitude < webgl_amplitude_limit(),
    ensures
        -(amplitude as int) <= int_offset(b, amplitude) <= amplitude,
        (int_offset(b, amplitude) + amplitude) % (2 * amplitude + 1) == b as int % (2 * amplitude
            + 1),
        int_offset(b, amplitude) == amplitude <==> b as int % (2 * amplitude + 1) == 2
            * amplitude,
{
    let n = 2 * amplitude + 1;
    let m = b as int % n;
    assert(0 <= m < n);
    assert((m - amplitude + amplitude) % n == m % n);
    vstd::arithmetic::div_mod::lemma_mod_twice(b as int, n);
}

/// For a canvas amplitude `a` that fits an `i8`, the offset is the one
/// value in `[-a, +a]` congruent to the stream byte shifted by `-a`,
/// modulo `2a + 1`.
pub proof fn lemma_byte_offset_tracks_byte(b: u8, amplitude: u8)
    requires
        0 < amplitude <= 127,
    ensures
        -(amplitude as int) <= byte_offset(b, amplitude) <= amplitude,
        (byte_offset(b, amplitude) + amplitude) % (2 * amplitude + 1) == b as int % (2
            * amplitude + 1),
{
    let n = 2 * amplitude + 1;
    let m = b as int % n;
    assert(0 <= m < n);
    vstd::arithmetic::div_mod::lemma_mod_twice(b as int, n);
}

// ── Public farble helpers ───────────────────────────────────────────────

/// Canvas readback offset for byte `byte_index` (v1).
pub fn farble_canvas_byte(seed: &FarblingSeed, byte_index: u64, amplitude: u8) -> (r: i8)
    ensures
        r == byte_offset(spec_stream_byte(seed@, FarblingSurface::Canvas, byte_index), amplitude),
{
    if amplitude == 0 {
        return 0;
    }
    let b = stream_byte(seed, FarblingSurface::Canvas, byte_index);
    project_byte(b, amplitude)
}

/// WebGL numeric-parameter offset for `param_index` (v1).
pub fn farble_webgl_int(seed: &FarblingSeed, param_index: u64, amplitude: i32) -> (r: i32)
    ensures
        r == int_offset(
            spec_stream_byte(seed@, FarblingSurface::WebGlNumeric, param_index),
            amplitude,
        ),
{
    if amplitude <= 0 || amplitude >= i32::MAX / 2 {
        return 0;
    }
    let b = stream_byte(seed, FarblingSurface::WebGlNumeric, param_index);
    project_int(b, amplitude)
}

/// Canvas readback offset under a session epoch (v2).
pub fn farble_canvas_byte_with_epoch(
    epoch: &FarblingEpoch,
    seed: &FarblingSeed,
    byte_index: u64,
    amplitude: u8,
) -> (r: i8)
    ensures
        r == byte_offset(
            spec_stream_byte_v2(epoch@, seed@, FarblingSurface::Canvas, byte_index),
            amplitude,
        ),
{
    if amplitude == 0 {
        return 0;
    }
    let b = stream_byte_v2(epoch, seed, FarblingSurface::Canvas, byte_index);
    project_byte(b, amplitude)
}

/// WebGL numeric-parameter offset under a session epoch (v2).
pub fn farble_webgl_int_with_epoch(
    epoch: &FarblingEpoch,
    seed: &FarblingSeed,
    param_index: u64,
    amplitude: i32,
) -> (r: i32)
    ensures
        r == int_offset(
            spec_stream_byte_v2(epoch@, seed@, FarblingSurface::WebGlNumeric, param_index),
            amplitude,
        ),
{
    if amplitude <= 0 || amplitude >= i32::MAX / 2 {
        return 0;
    }
    let b = stream_byte_v2(epoch, seed, FarblingSurface::WebGlNumeric, param_index);
    project_int(b, amplitude)
}

} // verus!
