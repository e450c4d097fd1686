//! Time zone: Strict resolves every surface to UTC and ignores any user
//! choice; Standard passes the host zone through unless the user picked
//! one of the curated zones.
use vstd::prelude::*;
use crate::config::schema::Mode;
use crate::fingerprint::interface::{FingerprintOverride, OverrideContext, WebIdlSurface};

verus! {

/// A time zone as reported to JS.
#[derive(Debug, Clone, Copy, PartialEq, Eq, Hash)]
pub struct TimezoneProfile {
    pub iana_name: &'static str,
    pub offset_minutes: i32,
    pub dst_observed: bool,
    pub abbreviation: &'static str,
}

pub open spec fn spec_locked_timezone_profile() -> TimezoneProfile {
    TimezoneProfile {
        iana_name: "UTC",
        offset_minutes: 0i32,
        dst_observed: false,
        abbreviation: "UTC",
    }
}

/// Strict: UTC, no DST.
pub fn locked_timezone_profile() -> (r: &'static TimezoneProfile)
    ensures
        *r == spec_locked_timezone_profile(),
{
    &TimezoneProfile {
        iana_name: "UTC",
        offset_minutes: 0i32,
        dst_observed: false,
        abbreviation: "UTC",
    }
}

pub open spec fn spec_america_new_york() -> TimezoneProfile {
    TimezoneProfile {
        iana_name: "America/New_York",
        offset_minutes: -300i32,
        dst_observed: true,
        abbreviation: "EST",
    }
}

/// America/New_York (standard-time offset -300 minutes).
pub fn america_new_york() -> (r: &'static TimezoneProfile)
    ensures
        *r == spec_america_new_york(),
{
    &TimezoneProfile {
        iana_name: "America/New_York",
        offset_minutes: -300i32,
        dst_observed: true,
        abbreviation: "EST",
    }
}

pub open spec fn spec_america_chicago() -> TimezoneProfile {
    TimezoneProfile {
        iana_name: "America/Chicago",
        offset_minutes: -360i32,
        dst_observed: true,
        abbreviation: "CST",
    }
}

/// America/Chicago (standard-time offset -360 minutes).
pub fn america_chicago() -> (r: &'static TimezoneProfile)
    ensures
        *r == spec_america_chicago(),
{
    &TimezoneProfile {
        iana_name: "America/Chicago",
        offset_minutes: -360i32,
        dst_observed: true,
        abbreviation: "CST",
    }
}

pub open spec fn spec_america_los_angeles() -> TimezoneProfile {
    TimezoneProfile {
        iana_name: "America/Los_Angeles",
        offset_minutes: -480i32,
        dst_observed: true,
        abbreviation: "PST",
    }
}

/// America/Los_Angeles (standard-time offset -480 minutes).
pub fn america_los_angeles() -> (r: &'static TimezoneProfile)
    ensures
        *r == spec_america_los_angeles(),
{
    &TimezoneProfile {
        iana_name: "America/Los_Angeles",
        offset_minutes: -480i32,
        dst_observed: true,
        abbreviation: "PST",
    }
}

pub open spec fn spec_europe_london() -> TimezoneProfile {
    TimezoneProfile {
        iana_name: "Europe/London",
        offset_minutes: 0i32,
        dst_observed: true,
        abbreviation: "GMT",
    }
}

/// Europe/London (standard-time offset 0 minutes).
pub fn europe_london() -> (r: &'static TimezoneProfile)
    ensures
        *r == spec_europe_london(),
{
    &TimezoneProfile {
        iana_name: "Europe/London",
        offset_minutes: 0i32,
        dst_observed: true,
        abbreviation: "GMT",
    }
}

pub open spec fn spec_europe_berlin() -> TimezoneProfile {
    TimezoneProfile {
        iana_name: "Europe/Berlin",
        offset_minutes: 60i32,
        dst_observed: true,
        abbreviation: "CET",
    }
}

/// Europe/Berlin (standard-time offset 60 minutes).
pub fn europe_berlin() -> (r: &'static TimezoneProfile)
    ensures
        *r == spec_europe_berlin(),
{
    &TimezoneProfile {
        iana_name: "Europe/Berlin",
        offset_minutes: 60i32,
        dst_observed: true,
        abbreviation: "CET",
    }
}

pub open spec fn spec_asia_kolkata() -> TimezoneProfile {
    TimezoneProfile {
        iana_name: "Asia/Kolkata",
        offset_minutes: 330i32,
        dst_observed: false,
        abbreviation: "IST",
    }
}

/// Asia/Kolkata (standard-time offset 330 minutes).
pub fn asia_kolkata() -> (r: &'static TimezoneProfile)
    ensures
        *r == spec_asia_kolkata(),
{
    &TimezoneProfile {
        iana_name: "Asia/Kolkata",
        offset_minutes: 330i32,
        dst_observed: false,
        abbreviation: "IST",
    }
}

pub open spec fn spec_asia_singapore() -> TimezoneProfile {
    TimezoneProfile {
        iana_name: "Asia/Singapore",
        offset_minutes: 480i32,
        dst_observed: false,
        abbreviation: "SGT",
    }
}

/// Asia/Singapore (standard-time offset 480 minutes).
pub fn asia_singapore() -> (r: &'static TimezoneProfile)
    ensures
        *r == spec_asia_singapore(),
{
    &TimezoneProfile {
        iana_name: "Asia/Singapore",
        offset_minutes: 480i32,
        dst_observed: false,
        abbreviation: "SGT",
    }
}

pub open spec fn spec_asia_tokyo() -> TimezoneProfile {
    TimezoneProfile {
        iana_name: "Asia/Tokyo",
        offset_minutes: 540i32,
        dst_observed: false,
        abbreviation: "JST",
    }
}

/// Asia/Tokyo (standard-time offset 540 minutes).
pub fn asia_tokyo() -> (r: &'static TimezoneProfile)
    ensures
        *r == spec_asia_tokyo(),
{
    &TimezoneProfile {
        iana_name: "Asia/Tokyo",
        offset_minutes: 540i32,
        dst_observed: false,
        abbreviation: "JST",
    }
}

pub open spec fn spec_australia_sydney() -> TimezoneProfile {
    TimezoneProfile {
        iana_name: "Australia/Sydney",
        offset_minutes: 600i32,
        dst_observed: true,
        abbreviation: "AEST",
    }
}

/// Australia/Sydney (standard-time offset 600 minutes).
pub fn australia_sydney() -> (r: &'static TimezoneProfile)
    ensures
        *r == spec_australia_sydney(),
{
    &TimezoneProfile {
        iana_name: "Australia/Sydney",
        offset_minutes: 600i32,
        dst_observed: true,
        abbreviation: "AEST",
    }
}

/// The curated list a user may pick from: UTC first, then west to east.
pub open spec fn spec_common_timezones() -> Seq<TimezoneProfile> {
    seq![
        spec_locked_timezone_profile(),
        spec_america_los_angeles(),
        spec_america_chicago(),
        spec_america_new_york(),
        spec_europe_london(),
        spec_europe_berlin(),
        spec_asia_kolkata(),
        spec_asia_singapore(),
        spec_asia_tokyo(),
        spec_australia_sydney(),
    ]
}

/// The curated zones.
pub fn common_timezones() -> (r: &'static [&'static TimezoneProfile])
    ensures
        r@.len() == spec_common_timezones().len(),
        forall|i: int| 0 <= i < r@.len() ==> *r@[i] == spec_common_timezones()[i],
{
    &[
        &TimezoneProfile {
            iana_name: "UTC",
            offset_minutes: 0i32,
            dst_observed: false,
            abbreviation: "UTC",
        },
        &TimezoneProfile {
            iana_name: "America/Los_Angeles",
            offset_minutes: -480i32,
            dst_observed: true,
            abbreviation: "PST",
        },
        &TimezoneProfile {
            iana_name: "America/Chicago",
            offset_minutes: -360i32,
            dst_observed: true,
            abbreviation: "CST",
        },
        &TimezoneProfile {
            iana_name: "America/New_York",
            offset_minutes: -300i32,
            dst_observed: true,
            abbreviation: "EST",
        },
        &TimezoneProfile {
            iana_name: "Europe/London",
            offset_minutes: 0i32,
            dst_observed: true,
            abbreviation: "GMT",
        },
        &TimezoneProfile {
            iana_name: "Europe/Berlin",
            offset_minutes: 60i32,
            dst_observed: true,
            abbreviation: "CET",
        },
        &TimezoneProfile {
            iana_name: "Asia/Kolkata",
            offset_minutes: 330i32,
            dst_observed: false,
            abbreviation: "IST",
        },
        &TimezoneProfile {
            iana_name: "Asia/Singapore",
            offset_minutes: 480i32,
            dst_observed: false,
            abbreviation: "SGT",
        },
        &TimezoneProfile {
            iana_name: "Asia/Tokyo",
            offset_minutes: 540i32,
            dst_observed: false,
            abbreviation: "JST",
        },
        &TimezoneProfile {
            iana_name: "Australia/Sydney",
            offset_minutes: 600i32,
            dst_observed: true,
            abbreviation: "AEST",
        },
    ]
}

/// Per-mode time-zone policy.
#[derive(Debug, Clone, Copy, PartialEq, Eq, Hash)]
pub enum TimezonePolicy {
    /// Standard without a selection: the host zone.
    NativePassThrough,
    /// Standard with a selection: the selected zone.
    UserConfigured(&'static TimezoneProfile),
    /// Strict: UTC.
    NormalizedUtc(&'static TimezoneProfile),
}

/// The policy `p` is the one `mode` resolves to given the user's selection
/// (Strict ignores it).
pub open spec fn is_timezone_policy_with(
    mode: Mode,
    user_tz: Option<&'static TimezoneProfile>,
    p: TimezonePolicy,
) -> bool {
    match mode {
        Mode::Strict => p matches TimezonePolicy::NormalizedUtc(z) && *z
            == spec_locked_timezone_profile(),
        Mode::Standard => match user_tz {
            Some(z) => p == TimezonePolicy::UserConfigured(z),
            None => p == TimezonePolicy::NativePassThrough,
        },
    }
}

/// The policy `p` is the one `mode` resolves to without a selection.
pub open spec fn is_timezone_policy_for(mode: Mode, p: TimezonePolicy) -> bool {
    is_timezone_policy_with(mode, None, p)
}

pub open spec fn timezone_policy_profile(p: TimezonePolicy) -> Option<&'static TimezoneProfile> {
    match p {
        TimezonePolicy::NativePassThrough => None,
        TimezonePolicy::UserConfigured(z) => Some(z),
        TimezonePolicy::NormalizedUtc(z) => Some(z),
    }
}

/// Strict resolves to UTC whatever the user selected: the same policy as
/// without a selection.
pub proof fn lemma_strict_ignores_user_selection(
    user_tz: Option<&'static TimezoneProfile>,
    p: TimezonePolicy,
)
    requires
        is_timezone_policy_with(Mode::Strict, user_tz, p),
    ensures
        is_timezone_policy_for(Mode::Strict, p),
        timezone_policy_profile(p) matches Some(z) && *z == spec_locked_timezone_profile(),
{
}

impl TimezonePolicy {
    pub fn for_mode(mode: Mode) -> (r: Self)
        ensures
            is_timezone_policy_for(mode, r),
    {
        match mode {
            Mode::Standard => TimezonePolicy::NativePassThrough,
            Mode::Strict => TimezonePolicy::NormalizedUtc(locked_timezone_profile()),
        }
    }

    pub fn for_mode_with_user_selection(
        mode: Mode,
        user_tz: Option<&'static TimezoneProfile>,
    ) -> (r: Self)
        ensures
            is_timezone_policy_with(mode, user_tz, r),
    {
        match (mode, user_tz) {
            (Mode::Strict, _) => TimezonePolicy::NormalizedUtc(locked_timezone_profile()),
            (Mode::Standard, Some(tz)) => TimezonePolicy::UserConfigured(tz),
            (Mode::Standard, None) => TimezonePolicy::NativePassThrough,
        }
    }

    pub fn profile(&self) -> (r: Option<&'static TimezoneProfile>)
        ensures
            r == timezone_policy_profile(*self),
    {
        match *self {
            TimezonePolicy::NativePassThrough => None,
            TimezonePolicy::UserConfigured(p) => Some(p),
            TimezonePolicy::NormalizedUtc(p) => Some(p),
        }
    }

    /// Whether a fixed zone is reported instead of the host's.
    pub fn normalizes(&self) -> (r: bool)
        ensures
            r == !(*self is NativePassThrough),
    {
        match self {
            TimezonePolicy::NativePassThrough => false,
            _ => true,
        }
    }
}

/// Every time-zone pathway the bridge must wire.
#[derive(Debug, Clone, Copy, PartialEq, Eq, Hash, Structural)]
pub enum TimezoneSurface {
    IntlDateTimeFormatResolvedTimeZone,
    DateGetTimezoneOffset,
    DateToString,
    DateToLocaleString,
    IntlLocaleDefaults,
}

pub open spec fn all_timezone_surfaces() -> Seq<TimezoneSurface> {
    seq![
        TimezoneSurface::IntlDateTimeFormatResolvedTimeZone,
        TimezoneSurface::DateGetTimezoneOffset,
        TimezoneSurface::DateToString,
        TimezoneSurface::DateToLocaleString,
        TimezoneSurface::IntlLocaleDefaults,
    ]
}

impl TimezoneSurface {
    pub fn all() -> (r: &'static [TimezoneSurface])
        ensures
            r@ == all_timezone_surfaces(),
    {
        &[
            TimezoneSurface::IntlDateTimeFormatResolvedTimeZone,
            TimezoneSurface::DateGetTimezoneOffset,
            TimezoneSurface::DateToString,
            TimezoneSurface::DateToLocaleString,
            TimezoneSurface::IntlLocaleDefaults,
        ]
    }
}

/// The override, with its policy resolved once at construction.
#[derive(Debug, Clone, Copy)]
pub struct TimezoneOverride {
    policy: TimezonePolicy,
}

impl TimezoneOverride {
    pub closed spec fn spec_policy(&self) -> TimezonePolicy {
        self.policy
    }

    pub fn new(mode: Mode) -> (r: Self)
        ensures
            is_timezone_policy_for(mode, r.spec_policy()),
    {
        TimezoneOverride { policy: TimezonePolicy::for_mode(mode) }
    }

    pub fn policy(&self) -> (r: TimezonePolicy)
        ensures
            r == self.spec_policy(),
    {
        self.policy
    }

    pub fn with_user_selection(mode: Mode, user_tz: Option<&'static TimezoneProfile>) -> (r: Self)
        ensures
            is_timezone_policy_with(mode, user_tz, r.spec_policy()),
    {
        TimezoneOverride { policy: TimezonePolicy::for_mode_with_user_selection(mode, user_tz) }
    }

    pub fn profile(&self) -> (r: Option<&'static TimezoneProfile>)
        ensures
            r == timezone_policy_profile(self.spec_policy()),
    {
        self.policy.profile()
    }
}

/// An override's policy depends on the mode alone and no install changes
/// it: built for `mode`, it reports the policy `TimezonePolicy::for_mode`
/// gives, and since `install` takes the override by shared reference,
/// `states[i]`, the override after the first `i` of any run of installs on
/// `contexts`, reports that same policy.
pub proof fn lemma_timezone_policy_context_inert(
    mode: Mode,
    contexts: Seq<OverrideContext>,
    states: Seq<TimezoneOverride>,
    p: TimezonePolicy,
)
    requires
        is_timezone_policy_for(mode, p),
        states.len() == contexts.len() + 1,
        is_timezone_policy_for(mode, states[0].spec_policy()),
        forall|i: int| 0 <= i < contexts.len() ==> #[trigger] states[i + 1] == states[i],
    ensures
        forall|i: int| 0 <= i < states.len() ==> #[trigger] states[i].spec_policy() == p,
    decreases contexts.len(),
{
    let q = states[0].spec_policy();
    if mode is Strict {
        // Both carry the locked profile, and references are equal when
        // what they point to is.
        assert(*p->NormalizedUtc_0 == *q->NormalizedUtc_0);
    }
    assert(q == p);
    if contexts.len() > 0 {
        let n: int = contexts.len() as int;
        let pc = contexts.drop_last();
        let ps = states.drop_last();
        assert forall|i: int| 0 <= i < pc.len() implies #[trigger] ps[i + 1] == ps[i] by {
            assert(states[i + 1] == states[i]);
        }
        lemma_timezone_policy_context_inert(mode, pc, ps, p);
        assert(states[n] == states[n - 1]);
        assert(ps[n - 1] == states[n - 1]);
        assert forall|i: int| 0 <= i < states.len() implies #[trigger] states[i].spec_policy() == p by {
            if i < n {
                assert(ps[i] == states[i]);
            }
        }
    }
}

impl FingerprintOverride for TimezoneOverride {
    fn surface(&self) -> (r: WebIdlSurface)
        ensures
            r == WebIdlSurface::Timezone,
    {
        WebIdlSurface::Timezone
    }

    fn install(&self, ctx: &OverrideContext) {
    }
}

} // verus!
