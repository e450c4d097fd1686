//! Timer quantization: every JS-visible clock is floored to a per-mode
//! quantum (1 ms Standard, 100 ms Strict); GPU timestamps to 2 ms in both.
use vstd::prelude::*;
use vstd::arithmetic::div_mod::{
    lemma_div_is_ordered, lemma_div_multiples_vanish, lemma_fundamental_div_mod,
    lemma_mod_multiples_basic, lemma_mod_pos_bound,
};
use vstd::arithmetic::mul::lemma_mul_inequality;
use crate::config::schema::Mode;
use crate::fingerprint::interface::{FingerprintOverride, OverrideContext, WebIdlSurface};

verus! {

/// GPU timestamp quantum, the same in both modes.
pub const GPU_QUANTUM_NS: u64 = 2_000_000;

/// A timer profile: a version label and the JS and GPU quanta.
#[derive(Debug, Clone, Copy, PartialEq, Eq, Hash)]
pub struct TimerProfile {
    pub label: &'static str,
    pub js_quantum_ns: u64,
    pub gpu_quantum_ns: u64,
}

/// `t` floored to a multiple of `q`.
pub open spec fn floor_to_quantum(t: u64, q: u64) -> int {
    (t / q) * q
}

/// Floors are at most the input, within one quantum of it, and multiples
/// of the quantum.
pub proof fn lemma_floor_to_quantum(t: u64, q: u64)
    requires
        q > 0,
    ensures
        0 <= floor_to_quantum(t, q) <= t,
        t < floor_to_quantum(t, q) + q,
        floor_to_quantum(t, q) % (q as int) == 0,
{
    lemma_fundamental_div_mod(t as int, q as int);
    lemma_mod_pos_bound(t as int, q as int);
    lemma_mod_multiples_basic(t as int / q as int, q as int);
    assert((t as int / q as int) * q as int == q as int * (t as int / q as int)) by (nonlinear_arith);
    assert(0 <= t as int / q as int);
    assert(0 <= (t as int / q as int) * q as int) by (nonlinear_arith)
        requires
            0 <= t as int / q as int,
            q > 0,
    ;
}

/// Flooring is monotone: a later instant never reads earlier.
pub proof fn lemma_floor_to_quantum_monotone(t1: u64, t2: u64, q: u64)
    requires
        q > 0,
        t1 <= t2,
    ensures
        floor_to_quantum(t1, q) <= floor_to_quantum(t2, q),
{
    lemma_div_is_ordered(t1 as int, t2 as int, q as int);
    lemma_mul_inequality(t1 as int / q as int, t2 as int / q as int, q as int);
}

/// Flooring is idempotent: a quantized reading quantizes to itself.
pub proof fn lemma_floor_to_quantum_idempotent(t: u64, q: u64)
    requires
        q > 0,
    ensures
        floor_to_quantum(floor_to_quantum(t, q) as u64, q) == floor_to_quantum(t, q),
{
    lemma_floor_to_quantum(t, q);
    let k = t as int / q as int;
    assert(k * q as int == q as int * k) by (nonlinear_arith);
    lemma_div_multiples_vanish(k, q as int);
    assert(floor_to_quantum(t, q) as u64 == k * q);
}

fn floor_quantum(t: u64, q: u64) -> (r: u64)
    requires
        q > 0,
    ensures
        r == floor_to_quantum(t, q),
{
    proof {
        lemma_floor_to_quantum(t, q);
    }
    (t / q) * q
}

impl TimerProfile {
    /// `now_ns` floored to the JS quantum. The quantum must be positive.
    pub fn quantize_js_ns(&self, now_ns: u64) -> (r: u64)
        requires
            self.js_quantum_ns > 0,
        ensures
            r == floor_to_quantum(now_ns, self.js_quantum_ns),
    {
        floor_quantum(now_ns, self.js_quantum_ns)
    }

    /// `now_ns` floored to the GPU quantum. The quantum must be positive.
    pub fn quantize_gpu_ns(&self, now_ns: u64) -> (r: u64)
        requires
            self.gpu_quantum_ns > 0,
        ensures
            r == floor_to_quantum(now_ns, self.gpu_quantum_ns),
    {
        floor_quantum(now_ns, self.gpu_quantum_ns)
    }
}

/// `p` is the Standard timer profile (1 ms JS quantum).
pub open spec fn is_standard_timer_profile(p: TimerProfile) -> bool {
    &&& p.label == "devbrowse-timer-standard-v1"
    &&& p.js_quantum_ns == 1_000_000
    &&& p.gpu_quantum_ns == GPU_QUANTUM_NS
}

/// `p` is the Strict timer profile (100 ms JS quantum).
pub open spec fn is_strict_timer_profile(p: TimerProfile) -> bool {
    &&& p.label == "devbrowse-timer-strict-v1"
    &&& p.js_quantum_ns == 100_000_000
    &&& p.gpu_quantum_ns == GPU_QUANTUM_NS
}

pub fn standard_timer_profile() -> (r: &'static TimerProfile)
    ensures
        is_standard_timer_profile(*r),
{
    &TimerProfile {
        label: "devbrowse-timer-standard-v1",
        js_quantum_ns: 1_000_000,
        gpu_quantum_ns: GPU_QUANTUM_NS,
    }
}

pub fn strict_timer_profile() -> (r: &'static TimerProfile)
    ensures
        is_strict_timer_profile(*r),
{
    &TimerProfile {
        label: "devbrowse-timer-strict-v1",
        js_quantum_ns: 100_000_000,
        gpu_quantum_ns: GPU_QUANTUM_NS,
    }
}

/// Per-mode timer policy.
#[derive(Debug, Clone, Copy, PartialEq, Eq, Hash)]
pub enum TimerQuantizationPolicy {
    Quantized(&'static TimerProfile),
}

/// The policy `p` is the one `mode` resolves to.
pub open spec fn is_timer_policy_for(mode: Mode, p: TimerQuantizationPolicy) -> bool {
    match mode {
        Mode::Standard => is_standard_timer_profile(*p->0),
        Mode::Strict => is_strict_timer_profile(*p->0),
    }
}

impl TimerQuantizationPolicy {
    pub fn for_mode(mode: Mode) -> (r: Self)
        ensures
            is_timer_policy_for(mode, r),
    {
        match mode {
            Mode::Standard => TimerQuantizationPolicy::Quantized(standard_timer_profile()),
            Mode::Strict => TimerQuantizationPolicy::Quantized(strict_timer_profile()),
        }
    }

    pub fn profile(&self) -> (r: &'static TimerProfile)
        ensures
            r == self->0,
    {
        match *self {
            TimerQuantizationPolicy::Quantized(p) => p,
        }
    }
}

/// Every clock surface the bridge must quantize.
#[derive(Debug, Clone, Copy, PartialEq, Eq, Hash, Structural)]
pub enum TimerSurface {
    DateNow,
    PerformanceNow,
    PerformanceTimeOrigin,
    PerformanceTiming,
    PerformanceObserverEntry,
    RequestAnimationFrameTimestamp,
    EventTimeStamp,
}

pub open spec fn all_timer_surfaces() -> Seq<TimerSurface> {
    seq![
        TimerSurface::DateNow,
        TimerSurface::PerformanceNow,
        TimerSurface::PerformanceTimeOrigin,
        TimerSurface::PerformanceTiming,
        TimerSurface::PerformanceObserverEntry,
        TimerSurface::RequestAnimationFrameTimestamp,
        TimerSurface::EventTimeStamp,
    ]
}

impl TimerSurface {
    pub fn all() -> (r: &'static [TimerSurface])
        ensures
            r@ == all_timer_surfaces(),
    {
        &[
            TimerSurface::DateNow,
            TimerSurface::PerformanceNow,
            TimerSurface::PerformanceTimeOrigin,
            TimerSurface::PerformanceTiming,
            TimerSurface::PerformanceObserverEntry,
            TimerSurface::RequestAnimationFrameTimestamp,
            TimerSurface::EventTimeStamp,
        ]
    }
}

/// The timer override.
#[derive(Debug, Clone, Copy)]
pub struct TimerOverride {
    policy: TimerQuantizationPolicy,
}

impl TimerOverride {
    pub closed spec fn spec_policy(&self) -> TimerQuantizationPolicy {
        self.policy
    }

    pub fn new(mode: Mode) -> (r: Self)
        ensures
            is_timer_policy_for(mode, r.spec_policy()),
    {
        TimerOverride { policy: TimerQuantizationPolicy::for_mode(mode) }
    }

    pub fn policy(&self) -> (r: TimerQuantizationPolicy)
        ensures
            r == self.spec_policy(),
    {
        self.policy
    }

    pub fn profile(&self) -> (r: &'static TimerProfile)
        ensures
            r == self.spec_policy()->0,
    {
        self.policy.profile()
    }
}

impl FingerprintOverride for TimerOverride {
    fn surface(&self) -> (r: WebIdlSurface)
        ensures
            r == WebIdlSurface::Timers,
    {
        WebIdlSurface::Timers
    }

    fn install(&self, ctx: &OverrideContext) {
    }
}

} // verus!
