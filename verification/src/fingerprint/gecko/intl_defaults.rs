//! `Intl.*` resolved-option defaults: one locked set (numbering system,
//! collation, currency, plural rules) in both modes.
use vstd::prelude::*;
use crate::config::schema::Mode;
use crate::fingerprint::interface::{FingerprintOverride, OverrideContext, WebIdlSurface};

verus! {

/// The resolved-option defaults every `Intl` constructor reports.
#[derive(Debug, Clone, Copy, PartialEq, Eq, Hash)]
pub struct IntlDefaultsProfile {
    pub numbering_system: &'static str,
    pub collator_sensitivity: &'static str,
    pub collator_case_first: &'static str,
    pub default_currency: &'static str,
    pub plural_rules_default_type: &'static str,
}

pub open spec fn spec_locked_intl_defaults() -> IntlDefaultsProfile {
    IntlDefaultsProfile {
        numbering_system: "latn",
        collator_sensitivity: "variant",
        collator_case_first: "false",
        default_currency: "USD",
        plural_rules_default_type: "cardinal",
    }
}

pub fn locked_intl_defaults() -> (r: &'static IntlDefaultsProfile)
    ensures
        *r == spec_locked_intl_defaults(),
{
    &IntlDefaultsProfile {
        numbering_system: "latn",
        collator_sensitivity: "variant",
        collator_case_first: "false",
        default_currency: "USD",
        plural_rules_default_type: "cardinal",
    }
}

/// Per-mode `Intl` policy: locked in both modes.
#[derive(Debug, Clone, Copy, PartialEq, Eq, Hash)]
pub enum IntlDefaultsPolicy {
    Locked(&'static IntlDefaultsProfile),
}

pub open spec fn is_intl_policy_for(mode: Mode, p: IntlDefaultsPolicy) -> bool {
    *p->0 == spec_locked_intl_defaults()
}

impl IntlDefaultsPolicy {
    pub fn for_mode(mode: Mode) -> (r: Self)
        ensures
            is_intl_policy_for(mode, r),
    {
        IntlDefaultsPolicy::Locked(locked_intl_defaults())
    }

    pub fn profile(&self) -> (r: &'static IntlDefaultsProfile)
        ensures
            r == self->0,
    {
        match self {
            IntlDefaultsPolicy::Locked(p) => p,
        }
    }
}

/// Every `Intl` pathway the bridge must wire.
#[derive(Debug, Clone, Copy, PartialEq, Eq, Hash, Structural)]
pub enum IntlSurface {
    NumberFormatResolved,
    CollatorResolved,
    RelativeTimeFormatResolved,
    PluralRulesResolved,
}

pub open spec fn all_intl_surfaces() -> Seq<IntlSurface> {
    seq![
        IntlSurface::NumberFormatResolved,
        IntlSurface::CollatorResolved,
        IntlSurface::RelativeTimeFormatResolved,
        IntlSurface::PluralRulesResolved,
    ]
}

impl IntlSurface {
    pub fn all() -> (r: &'static [IntlSurface])
        ensures
            r@ == all_intl_surfaces(),
    {
        &[
            IntlSurface::NumberFormatResolved,
            IntlSurface::CollatorResolved,
            IntlSurface::RelativeTimeFormatResolved,
            IntlSurface::PluralRulesResolved,
        ]
    }
}

/// The override, with its policy resolved once at construction.
#[derive(Debug, Clone, Copy)]
pub struct IntlDefaultsOverride {
    policy: IntlDefaultsPolicy,
}

impl IntlDefaultsOverride {
    pub closed spec fn spec_policy(&self) -> IntlDefaultsPolicy {
        self.policy
    }

    pub fn new(mode: Mode) -> (r: Self)
        ensures
            is_intl_policy_for(mode, r.spec_policy()),
    {
        IntlDefaultsOverride { policy: IntlDefaultsPolicy::for_mode(mode) }
    }

    pub fn policy(&self) -> (r: IntlDefaultsPolicy)
        ensures
            r == self.spec_policy(),
    {
        self.policy
    }
}

impl FingerprintOverride for IntlDefaultsOverride {
    fn surface(&self) -> (r: WebIdlSurface)
        ensures
            r == WebIdlSurface::Intl,
    {
        WebIdlSurface::Intl
    }

    fn install(&self, ctx: &OverrideContext) {
    }
}

} // verus!
