//! Font enumeration: Strict exposes exactly the bundled cohort font set,
//! Standard a coarse script-coverage bucket view. Per-site full
//! enumeration in Standard goes through a [`FontsGrants`] hook that Strict
//! never consults.
use vstd::prelude::*;
use crate::config::schema::Mode;
use crate::fingerprint::interface::{FingerprintOverride, OverrideContext, WebIdlSurface};

verus! {

/// A cohort-locked bundled font set: a version label and the CSS family
/// names exposed in order.
#[derive(Debug, Clone, Copy, PartialEq, Eq, Hash)]
pub struct BundledFontSet {
    pub label: &'static str,
    pub family_names: &'static [&'static str],
}

/// Family names of the v1 bundled set: metric-compatible Latin
/// substitutes, Noto coverage of the major non-Latin scripts, math and
/// emoji.
pub open spec fn bundled_family_names_v1() -> Seq<&'static str> {
    seq![
        "Arimo",
        "Tinos",
        "Cousine",
        "Noto Sans",
        "Noto Sans CJK SC",
        "Noto Sans CJK JP",
        "Noto Sans CJK KR",
        "Noto Naskh Arabic",
        "Noto Nastaliq Urdu",
        "Noto Sans Devanagari",
        "Noto Sans Thai",
        "Noto Sans Bengali",
        "Noto Sans Tamil",
        "STIX Two Math",
        "Noto Emoji",
    ]
}

/// `s` is the v1 bundled font set.
pub open spec fn is_bundled_font_set_v1(s: BundledFontSet) -> bool {
    &&& s.label == "devbrowse-bundled-v1"
    &&& s.family_names@ == bundled_family_names_v1()
}

/// The v1 bundled font set (Strict cohort).
pub fn bundled_font_set_v1() -> (r: &'static BundledFontSet)
    ensures
        is_bundled_font_set_v1(*r),
{
    &BundledFontSet {
        label: "devbrowse-bundled-v1",
        family_names: &[
            "Arimo",
            "Tinos",
            "Cousine",
            "Noto Sans",
            "Noto Sans CJK SC",
            "Noto Sans CJK JP",
            "Noto Sans CJK KR",
            "Noto Naskh Arabic",
            "Noto Nastaliq Urdu",
            "Noto Sans Devanagari",
            "Noto Sans Thai",
            "Noto Sans Bengali",
            "Noto Sans Tamil",
            "STIX Two Math",
            "Noto Emoji",
        ],
    }
}

/// Coarse Unicode-script-coverage bucket surfaced by Standard enumeration.
#[derive(Debug, Clone, Copy, PartialEq, Eq, Hash, Structural)]
pub enum FontBucket {
    LatinBase,
    LatinExtended,
    Cjk,
    Arabic,
    Devanagari,
    Cyrillic,
    Greek,
    SymbolsEmoji,
    Math,
}

pub open spec fn all_font_buckets() -> Seq<FontBucket> {
    seq![
        FontBucket::LatinBase,
        FontBucket::LatinExtended,
        FontBucket::Cjk,
        FontBucket::Arabic,
        FontBucket::Devanagari,
        FontBucket::Cyrillic,
        FontBucket::Greek,
        FontBucket::SymbolsEmoji,
        FontBucket::Math,
    ]
}

impl FontBucket {
    /// Every bucket the bucketed enumerator may surface.
    pub fn all() -> (r: &'static [FontBucket])
        ensures
            r@ == all_font_buckets(),
    {
        &[
            FontBucket::LatinBase,
            FontBucket::LatinExtended,
            FontBucket::Cjk,
            FontBucket::Arabic,
            FontBucket::Devanagari,
            FontBucket::Cyrillic,
            FontBucket::Greek,
            FontBucket::SymbolsEmoji,
            FontBucket::Math,
        ]
    }
}

/// The Standard-mode bucket table: a label and the buckets that may be
/// surfaced.
#[derive(Debug, Clone, Copy, PartialEq, Eq, Hash)]
pub struct StandardBucketedTable {
    pub label: &'static str,
    pub buckets: &'static [FontBucket],
}

/// `t` is the v1 Standard bucket table, which exposes every bucket.
pub open spec fn is_standard_bucketed_table_v1(t: StandardBucketedTable) -> bool {
    &&& t.label == "devbrowse-standard-buckets-v1"
    &&& t.buckets@ == all_font_buckets()
}

/// The v1 Standard bucket table.
pub fn standard_bucketed_table_v1() -> (r: &'static StandardBucketedTable)
    ensures
        is_standard_bucketed_table_v1(*r),
{
    &StandardBucketedTable {
        label: "devbrowse-standard-buckets-v1",
        buckets: &[
            FontBucket::LatinBase,
            FontBucket::LatinExtended,
            FontBucket::Cjk,
            FontBucket::Arabic,
            FontBucket::Devanagari,
            FontBucket::Cyrillic,
            FontBucket::Greek,
            FontBucket::SymbolsEmoji,
            FontBucket::Math,
        ],
    }
}

/// Per-mode font enumeration policy; both modes normalize.
#[derive(Debug, Clone, Copy, PartialEq, Eq, Hash)]
pub enum FontsEnumerationPolicy {
    /// Standard: bucketed enumeration.
    BucketedEnumeration(&'static StandardBucketedTable),
    /// Strict: exactly the bundled family names, whatever the host has.
    LockedAllowlist(&'static BundledFontSet),
}

/// The policy `p` is the one `mode` resolves to.
pub open spec fn is_fonts_policy_for(mode: Mode, p: FontsEnumerationPolicy) -> bool {
    match mode {
        Mode::Standard => p matches FontsEnumerationPolicy::BucketedEnumeration(t)
            && is_standard_bucketed_table_v1(*t),
        Mode::Strict => p matches FontsEnumerationPolicy::LockedAllowlist(s)
            && is_bundled_font_set_v1(*s),
    }
}

impl FontsEnumerationPolicy {
    /// Standard buckets through the v1 table; Strict locks to the v1
    /// bundled set.
    pub fn for_mode(mode: Mode) -> (r: Self)
        ensures
            is_fonts_policy_for(mode, r),
    {
        match mode {
            Mode::Standard => FontsEnumerationPolicy::BucketedEnumeration(
                standard_bucketed_table_v1(),
            ),
            Mode::Strict => FontsEnumerationPolicy::LockedAllowlist(bundled_font_set_v1()),
        }
    }

    /// The bundled set, exactly when the policy is the Strict allowlist.
    pub fn allowlist(&self) -> (r: Option<&'static BundledFontSet>)
        ensures
            r == (match *self {
                FontsEnumerationPolicy::BucketedEnumeration(_) => None,
                FontsEnumerationPolicy::LockedAllowlist(s) => Some(s),
            }),
    {
        match self {
            FontsEnumerationPolicy::BucketedEnumeration(_) => None,
            FontsEnumerationPolicy::LockedAllowlist(s) => Some(*s),
        }
    }

    /// The bucket table, exactly when the policy is the Standard view.
    pub fn bucketed(&self) -> (r: Option<&'static StandardBucketedTable>)
        ensures
            r == (match *self {
                FontsEnumerationPolicy::BucketedEnumeration(t) => Some(t),
                FontsEnumerationPolicy::LockedAllowlist(_) => None,
            }),
    {
        match self {
            FontsEnumerationPolicy::BucketedEnumeration(t) => Some(*t),
            FontsEnumerationPolicy::LockedAllowlist(_) => None,
        }
    }
}

/// Per-site permission hook for Standard full font enumeration. The
/// bridge consults it only under the bucketed (Standard) policy.
pub trait FontsGrants: Send + Sync {
    /// Whether this origin was granted full font enumeration.
    fn allows_full_enumeration(&self, ctx: &OverrideContext, origin: &str) -> bool;
}

/// Default grants: never allow full enumeration.
#[derive(Debug, Default, Clone, Copy)]
pub struct DenyAllFontsGrants;

impl FontsGrants for DenyAllFontsGrants {
    fn allows_full_enumeration(&self, ctx: &OverrideContext, origin: &str) -> (r: bool)
        ensures
            !r,
    {
        false
    }
}

/// Adversarial grants that allow every origin; Strict must never consult
/// it.
#[derive(Debug, Default, Clone, Copy)]
pub struct HostileFontsGrants;

impl FontsGrants for HostileFontsGrants {
    fn allows_full_enumeration(&self, ctx: &OverrideContext, origin: &str) -> (r: bool)
        ensures
            r,
    {
        true
    }
}

/// Every JS pathway that can enumerate fonts.
#[derive(Debug, Clone, Copy, PartialEq, Eq, Hash, Structural)]
pub enum FontsSurface {
    DocumentFontsIterator,
    DocumentFontsCheck,
    CssFontFamilyEnumeration,
    FontFaceLoad,
    FontLoadCallback,
}

pub open spec fn all_fonts_surfaces() -> Seq<FontsSurface> {
    seq![
        FontsSurface::DocumentFontsIterator,
        FontsSurface::DocumentFontsCheck,
        FontsSurface::CssFontFamilyEnumeration,
        FontsSurface::FontFaceLoad,
        FontsSurface::FontLoadCallback,
    ]
}

impl FontsSurface {
    /// Every enumeration pathway the bridge must wire.
    pub fn all() -> (r: &'static [FontsSurface])
        ensures
            r@ == all_fonts_surfaces(),
    {
        &[
            FontsSurface::DocumentFontsIterator,
            FontsSurface::DocumentFontsCheck,
            FontsSurface::CssFontFamilyEnumeration,
            FontsSurface::FontFaceLoad,
            FontsSurface::FontLoadCallback,
        ]
    }
}

/// The fonts override: the policy resolved once at construction.
#[derive(Debug, Clone, Copy)]
pub struct FontsOverride {
    policy: FontsEnumerationPolicy,
}

impl FontsOverride {
    pub closed spec fn spec_policy(&self) -> FontsEnumerationPolicy {
        self.policy
    }

    pub fn new(mode: Mode) -> (r: Self)
        ensures
            is_fonts_policy_for(mode, r.spec_policy()),
    {
        FontsOverride { policy: FontsEnumerationPolicy::for_mode(mode) }
    }

    pub fn policy(&self) -> (r: FontsEnumerationPolicy)
        ensures
            r == self.spec_policy(),
    {
        self.policy
    }

    /// The bundled set iff this override is Strict.
    pub fn allowlist(&self) -> (r: Option<&'static BundledFontSet>)
        ensures
            r == (match self.spec_policy() {
                FontsEnumerationPolicy::BucketedEnumeration(_) => None,
                FontsEnumerationPolicy::LockedAllowlist(s) => Some(s),
            }),
    {
        self.policy.allowlist()
    }

    /// The bucket table iff this override is Standard.
    pub fn bucketed(&self) -> (r: Option<&'static StandardBucketedTable>)
        ensures
            r == (match self.spec_policy() {
                FontsEnumerationPolicy::BucketedEnumeration(t) => Some(t),
                FontsEnumerationPolicy::LockedAllowlist(_) => None,
            }),
    {
        self.policy.bucketed()
    }
}

impl FingerprintOverride for FontsOverride {
    fn surface(&self) -> (r: WebIdlSurface)
        ensures
            r == WebIdlSurface::Fonts,
    {
        WebIdlSurface::Fonts
    }

    fn install(&self, ctx: &OverrideContext) {
    }
}

} // verus!
