//! Strict-mode extension blocker: in Strict every extension API surface is
//! dark, whatever the allowlist says; Standard delegates per-extension
//! gating to the allowlist.
use vstd::prelude::*;
use crate::config::schema::Mode;
use crate::text::{contains, is_prefix};

verus! {

/// How the engine bridge wires one Strict block.
#[derive(Debug, Clone, Copy, PartialEq, Eq, Hash, Structural)]
pub enum BlockMechanism {
    /// `browser` and `chrome` are absent globals.
    ApiGlobalAbsent,
    /// No content script is injected and no background context spawned.
    RuntimeContextNotSpawned,
    /// The manifest field is refused at install/parse time.
    ManifestEntryRefused,
}

/// The extension API surface families Strict darks.
#[derive(Debug, Clone, Copy, PartialEq, Eq, Hash, Structural)]
pub enum ExtensionApiSurface {
    /// The `browser.*` and `chrome.*` namespaces.
    WebExtensionGlobals,
    /// Manifest content scripts and programmatic injection.
    ContentScripts,
    /// Background pages, event pages, extension service workers.
    BackgroundContexts,
    /// Declarative net request rules (static and dynamic).
    DeclarativeNetRequest,
    /// Legacy bootstrap manifests.
    BootstrappedManifest,
}

/// The families, in bridge iteration order.
pub open spec fn all_surfaces() -> Seq<ExtensionApiSurface> {
    seq![
        ExtensionApiSurface::WebExtensionGlobals,
        ExtensionApiSurface::ContentScripts,
        ExtensionApiSurface::BackgroundContexts,
        ExtensionApiSurface::DeclarativeNetRequest,
        ExtensionApiSurface::BootstrappedManifest,
    ]
}

/// The API names / manifest keys of one family; every `browser.*` call
/// comes with its `chrome.*` counterpart.
pub open spec fn spec_js_surfaces(s: ExtensionApiSurface) -> Seq<&'static str> {
    match s {
        ExtensionApiSurface::WebExtensionGlobals => seq!["browser", "chrome"],
        ExtensionApiSurface::ContentScripts => seq![
            "manifest.content_scripts",
            "browser.scripting.executeScript",
            "browser.tabs.executeScript",
            "chrome.scripting.executeScript",
            "chrome.tabs.executeScript",
        ],
        ExtensionApiSurface::BackgroundContexts => seq![
            "manifest.background.page",
            "manifest.background.scripts",
            "manifest.background.service_worker",
            "manifest.background.persistent",
        ],
        ExtensionApiSurface::DeclarativeNetRequest => seq![
            "manifest.declarative_net_request",
            "browser.declarativeNetRequest.updateDynamicRules",
            "browser.declarativeNetRequest.updateSessionRules",
            "chrome.declarativeNetRequest.updateDynamicRules",
            "chrome.declarativeNetRequest.updateSessionRules",
        ],
        ExtensionApiSurface::BootstrappedManifest => seq![
            "manifest.bootstrap",
            "manifest.legacy",
            "manifest.type=bootstrap",
        ],
    }
}

pub open spec fn spec_block_mechanism(s: ExtensionApiSurface) -> BlockMechanism {
    match s {
        ExtensionApiSurface::WebExtensionGlobals => BlockMechanism::ApiGlobalAbsent,
        ExtensionApiSurface::ContentScripts | ExtensionApiSurface::BackgroundContexts =>
            BlockMechanism::RuntimeContextNotSpawned,
        ExtensionApiSurface::DeclarativeNetRequest | ExtensionApiSurface::BootstrappedManifest =>
            BlockMechanism::ManifestEntryRefused,
    }
}

impl ExtensionApiSurface {
    /// Every family Strict darks (three runtime surfaces, two manifest
    /// entries).
    pub fn all() -> (r: &'static [ExtensionApiSurface])
        ensures
            r@ == all_surfaces(),
    {
        &[
            ExtensionApiSurface::WebExtensionGlobals,
            ExtensionApiSurface::ContentScripts,
            ExtensionApiSurface::BackgroundContexts,
            ExtensionApiSurface::DeclarativeNetRequest,
            ExtensionApiSurface::BootstrappedManifest,
        ]
    }

    /// The API names / manifest keys / runtime context types of this
    /// family.
    pub fn js_surfaces(&self) -> (r: &'static [&'static str])
        ensures
            r@ == spec_js_surfaces(*self),
    {
        match self {
            ExtensionApiSurface::WebExtensionGlobals => &["browser", "chrome"],
            ExtensionApiSurface::ContentScripts => &[
                "manifest.content_scripts",
                "browser.scripting.executeScript",
                "browser.tabs.executeScript",
                "chrome.scripting.executeScript",
                "chrome.tabs.executeScript",
            ],
            ExtensionApiSurface::BackgroundContexts => &[
                "manifest.background.page",
                "manifest.background.scripts",
                "manifest.background.service_worker",
                "manifest.background.persistent",
            ],
            ExtensionApiSurface::DeclarativeNetRequest => &[
                "manifest.declarative_net_request",
                "browser.declarativeNetRequest.updateDynamicRules",
                "browser.declarativeNetRequest.updateSessionRules",
                "chrome.declarativeNetRequest.updateDynamicRules",
                "chrome.declarativeNetRequest.updateSessionRules",
            ],
            ExtensionApiSurface::BootstrappedManifest => &[
                "manifest.bootstrap",
                "manifest.legacy",
                "manifest.type=bootstrap",
            ],
        }
    }

    /// How the bridge wires this family's block.
    pub fn block_mechanism(&self) -> (r: BlockMechanism)
        ensures
            r == spec_block_mechanism(*self),
    {
        match self {
            ExtensionApiSurface::WebExtensionGlobals => BlockMechanism::ApiGlobalAbsent,
            ExtensionApiSurface::ContentScripts | ExtensionApiSurface::BackgroundContexts =>
                BlockMechanism::RuntimeContextNotSpawned,
            ExtensionApiSurface::DeclarativeNetRequest
            | ExtensionApiSurface::BootstrappedManifest => BlockMechanism::ManifestEntryRefused,
        }
    }
}

// ── The surface-name law ────────────────────────────────────────────────

/// The names of one family, as character sequences.
pub open spec fn surface_names(s: ExtensionApiSurface) -> Seq<Seq<char>> {
    spec_js_surfaces(s).map_values(|n: &'static str| n@)
}

/// ASCII lower case of one character.
pub open spec fn ascii_lower(c: char) -> char {
    if 'A' <= c && c <= 'Z' {
        ((c as int) + 32) as char
    } else {
        c
    }
}

/// ASCII lower case of a string.
pub open spec fn lowercase(s: Seq<char>) -> Seq<char> {
    s.map_values(|c: char| ascii_lower(c))
}

/// No `w` (either case) is followed by an `e` (either case).
pub open spec fn no_we(s: Seq<char>) -> bool {
    forall|i: int|
        0 <= i < s.len() - 1 ==> !(#[trigger] ascii_lower(s[i]) == 'w' && ascii_lower(s[i + 1])
            == 'e')
}

proof fn lemma_no_we_excludes(s: Seq<char>, p: Seq<char>)
    requires
        no_we(s),
        p.len() >= 2,
        p[0] == 'w',
        p[1] == 'e',
    ensures
        !contains(lowercase(s), p),
{
    if contains(lowercase(s), p) {
        let i = choose|i: int| crate::text::contains_at(lowercase(s), p, i);
        let l = lowercase(s);
        assert(l.subrange(i, i + p.len())[0] == l[i]);
        assert(l.subrange(i, i + p.len())[1] == l[i + 1]);
        assert(ascii_lower(s[i]) == 'w' && ascii_lower(s[i + 1]) == 'e');
    }
}

proof fn lemma_prefix_split(p: Seq<char>, t: Seq<char>, n: Seq<char>)
    requires
        n == p + t,
    ensures
        is_prefix(p, n),
        n.skip(p.len() as int) == t,
{
    assert(n.subrange(0, p.len() as int) =~= p);
    assert(n.skip(p.len() as int) =~= t);
}

/// Some name in `names` is exactly `n`.
pub open spec fn has_name(names: Seq<Seq<char>>, n: Seq<char>) -> bool {
    exists|i: int| 0 <= i < names.len() && names[i] == n
}

proof fn lemma_has_name_witness(names: Seq<Seq<char>>, i: int, n: Seq<char>)
    requires
        0 <= i < names.len(),
        names[i] == n,
    ensures
        has_name(names, n),
{
}

proof fn lemma_not_prefix_at(p: Seq<char>, n: Seq<char>, k: int)
    requires
        0 <= k < p.len(),
        k < n.len(),
        p[k] != n[k],
    ensures
        !is_prefix(p, n),
{
    if is_prefix(p, n) {
        assert(n.subrange(0, p.len() as int)[k] == n[k]);
    }
}

/// Per-name facts of one family's table.
proof fn lemma_surface_name_facts(s: ExtensionApiSurface)
    ensures
        surface_names(s).len() > 0,
        forall|i: int|
            0 <= i < surface_names(s).len() ==> surface_names(s)[i].len() > 0 && no_we(
                #[trigger] surface_names(s)[i],
            ),
        forall|i: int|
            0 <= i < surface_names(s).len() && is_prefix("browser."@, #[trigger] surface_names(s)[i])
                ==> has_name(surface_names(s), "chrome."@ + surface_names(s)[i].skip(8)),
        forall|i: int|
            0 <= i < surface_names(s).len() && is_prefix("chrome."@, #[trigger] surface_names(s)[i])
                ==> has_name(surface_names(s), "browser."@ + surface_names(s)[i].skip(7)),
{
    match s {
        ExtensionApiSurface::WebExtensionGlobals => {
            reveal_strlit("browser.");
            reveal_strlit("chrome.");
            assert("browser."@ =~= seq!['b', 'r', 'o', 'w', 's', 'e', 'r', '.']);
            assert("chrome."@ =~= seq!['c', 'h', 'r', 'o', 'm', 'e', '.']);
            reveal_strlit("browser");
            assert("browser"@ =~= seq!['b', 'r', 'o', 'w', 's', 'e', 'r']);
            reveal_strlit("chrome");
            assert("chrome"@ =~= seq!['c', 'h', 'r', 'o', 'm', 'e']);
            let names = surface_names(s);
            assert(names.len() == 2);
            assert(names[0] == "browser"@);
            assert(names[1] == "chrome"@);
            assert forall|i: int| 0 <= i < names.len() implies names[i].len() > 0 && no_we(names[i]) by {
                if i == 0 {} else if i == 1 {}
            }
            assert forall|i: int| 0 <= i < names.len() && is_prefix("browser."@, names[i]) implies has_name(names, "chrome."@ + names[i].skip(8)) by {
                if i == 0 {
                    assert(names[0].len() < 8);
                } else if i == 1 {
                    lemma_not_prefix_at("browser."@, names[1], 0);
                }
            }
            assert forall|i: int| 0 <= i < names.len() && is_prefix("chrome."@, names[i]) implies has_name(names, "browser."@ + names[i].skip(7)) by {
                if i == 0 {
                    lemma_not_prefix_at("chrome."@, names[0], 0);
                } else if i == 1 {
                    assert(names[1].len() < 7);
                }
            }
        },
        ExtensionApiSurface::ContentScripts => {
            reveal_strlit("browser.");
            reveal_strlit("chrome.");
            assert("browser."@ =~= seq!['b', 'r', 'o', 'w', 's', 'e', 'r', '.']);
            assert("chrome."@ =~= seq!['c', 'h', 'r', 'o', 'm', 'e', '.']);
            reveal_strlit("manifest.content_scripts");
            assert("manifest.content_scripts"@ =~= seq!['m', 'a', 'n', 'i', 'f', 'e', 's', 't', '.', 'c', 'o', 'n', 't', 'e', 'n', 't', '_', 's', 'c', 'r', 'i', 'p', 't', 's']);
            reveal_strlit("browser.scripting.executeScript");
            assert("browser.scripting.executeScript"@ =~= seq!['b', 'r', 'o', 'w', 's', 'e', 'r', '.', 's', 'c', 'r', 'i', 'p', 't', 'i', 'n', 'g', '.', 'e', 'x', 'e', 'c', 'u', 't', 'e', 'S', 'c', 'r', 'i', 'p', 't']);
            reveal_strlit("browser.tabs.executeScript");
            assert("browser.tabs.executeScript"@ =~= seq!['b', 'r', 'o', 'w', 's', 'e', 'r', '.', 't', 'a', 'b', 's', '.', 'e', 'x', 'e', 'c', 'u', 't', 'e', 'S', 'c', 'r', 'i', 'p', 't']);
            reveal_strlit("chrome.scripting.executeScript");
            assert("chrome.scripting.executeScript"@ =~= seq!['c', 'h', 'r', 'o', 'm', 'e', '.', 's', 'c', 'r', 'i', 'p', 't', 'i', 'n', 'g', '.', 'e', 'x', 'e', 'c', 'u', 't', 'e', 'S', 'c', 'r', 'i', 'p', 't']);
            reveal_strlit("chrome.tabs.executeScript");
            assert("chrome.tabs.executeScript"@ =~= seq!['c', 'h', 'r', 'o', 'm', 'e', '.', 't', 'a', 'b', 's', '.', 'e', 'x', 'e', 'c', 'u', 't', 'e', 'S', 'c', 'r', 'i', 'p', 't']);
            let names = surface_names(s);
            assert(names.len() == 5);
            assert(names[0] == "manifest.content_scripts"@);
            assert(names[1] == "browser.scripting.executeScript"@);
            assert(names[2] == "browser.tabs.executeScript"@);
            assert(names[3] == "chrome.scripting.executeScript"@);
            assert(names[4] == "chrome.tabs.executeScript"@);
            assert forall|i: int| 0 <= i < names.len() implies names[i].len() > 0 && no_we(names[i]) by {
                if i == 0 {} else if i == 1 {} else if i == 2 {} else if i == 3 {} else if i == 4 {}
            }
            assert forall|i: int| 0 <= i < names.len() && is_prefix("browser."@, names[i]) implies has_name(names, "chrome."@ + names[i].skip(8)) by {
                if i == 0 {
                    lemma_not_prefix_at("browser."@, names[0], 0);
                } else if i == 1 {
                    assert("chrome."@ + names[1].skip(8) =~= names[3]);
                lemma_has_name_witness(names, 3, "chrome."@ + names[1].skip(8));
                } else if i == 2 {
                    assert("chrome."@ + names[2].skip(8) =~= names[4]);
                lemma_has_name_witness(names, 4, "chrome."@ + names[2].skip(8));
                } else if i == 3 {
                    lemma_not_prefix_at("browser."@, names[3], 0);
                } else if i == 4 {
                    lemma_not_prefix_at("browser."@, names[4], 0);
                }
            }
            assert forall|i: int| 0 <= i < names.len() && is_prefix("chrome."@, names[i]) implies has_name(names, "browser."@ + names[i].skip(7)) by {
                if i == 0 {
                    lemma_not_prefix_at("chrome."@, names[0], 0);
                } else if i == 1 {
                    lemma_not_prefix_at("chrome."@, names[1], 0);
                } else if i == 2 {
                    lemma_not_prefix_at("chrome."@, names[2], 0);
                } else if i == 3 {
                    assert("browser."@ + names[3].skip(7) =~= names[1]);
                lemma_has_name_witness(names, 1, "browser."@ + names[3].skip(7));
                } else if i == 4 {
                    assert("browser."@ + names[4].skip(7) =~= names[2]);
                lemma_has_name_witness(names, 2, "browser."@ + names[4].skip(7));
                }
            }
        },
        ExtensionApiSurface::BackgroundContexts => {
            reveal_strlit("browser.");
            reveal_strlit("chrome.");
            assert("browser."@ =~= seq!['b', 'r', 'o', 'w', 's', 'e', 'r', '.']);
            assert("chrome."@ =~= seq!['c', 'h', 'r', 'o', 'm', 'e', '.']);
            reveal_strlit("manifest.background.page");
            assert("manifest.background.page"@ =~= seq!['m', 'a', 'n', 'i', 'f', 'e', 's', 't', '.', 'b', 'a', 'c', 'k', 'g', 'r', 'o', 'u', 'n', 'd', '.', 'p', 'a', 'g', 'e']);
            reveal_strlit("manifest.background.scripts");
            assert("manifest.background.scripts"@ =~= seq!['m', 'a', 'n', 'i', 'f', 'e', 's', 't', '.', 'b', 'a', 'c', 'k', 'g', 'r', 'o', 'u', 'n', 'd', '.', 's', 'c', 'r', 'i', 'p', 't', 's']);
            reveal_strlit("manifest.background.service_worker");
            assert("manifest.background.service_worker"@ =~= seq!['m', 'a', 'n', 'i', 'f', 'e', 's', 't', '.', 'b', 'a', 'c', 'k', 'g', 'r', 'o', 'u', 'n', 'd', '.', 's', 'e', 'r', 'v', 'i', 'c', 'e', '_', 'w', 'o', 'r', 'k', 'e', 'r']);
            reveal_strlit("manifest.background.persistent");
            assert("manifest.background.persistent"@ =~= seq!['m', 'a', 'n', 'i', 'f', 'e', 's', 't', '.', 'b', 'a', 'c', 'k', 'g', 'r', 'o', 'u', 'n', 'd', '.', 'p', 'e', 'r', 's', 'i', 's', 't', 'e', 'n', 't']);
            let names = surface_names(s);
            assert(names.len() == 4);
            assert(names[0] == "manifest.background.page"@);
            assert(names[1] == "manifest.background.scripts"@);
            assert(names[2] == "manifest.background.service_worker"@);
            assert(names[3] == "manifest.background.persistent"@);
            assert forall|i: int| 0 <= i < names.len() implies names[i].len() > 0 && no_we(names[i]) by {
                if i == 0 {} else if i == 1 {} else if i == 2 {} else if i == 3 {}
            }
            assert forall|i: int| 0 <= i < names.len() && is_prefix("browser."@, names[i]) implies has_name(names, "chrome."@ + names[i].skip(8)) by {
                if i == 0 {
                    lemma_not_prefix_at("browser."@, names[0], 0);
                } else if i == 1 {
                    lemma_not_prefix_at("browser."@, names[1], 0);
                } else if i == 2 {
                    lemma_not_prefix_at("browser."@, names[2], 0);
                } else if i == 3 {
                    lemma_not_prefix_at("browser."@, names[3], 0);
                }
            }
            assert forall|i: int| 0 <= i < names.len() && is_prefix("chrome."@, names[i]) implies has_name(names, "browser."@ + names[i].skip(7)) by {
                if i == 0 {
                    lemma_not_prefix_at("chrome."@, names[0], 0);
                } else if i == 1 {
                    lemma_not_prefix_at("chrome."@, names[1], 0);
                } else if i == 2 {
                    lemma_not_prefix_at("chrome."@, names[2], 0);
                } else if i == 3 {
                    lemma_not_prefix_at("chrome."@, names[3], 0);
                }
            }
        },
        ExtensionApiSurface::DeclarativeNetRequest => {
            reveal_strlit("browser.");
            reveal_strlit("chrome.");
            assert("browser."@ =~= seq!['b', 'r', 'o', 'w', 's', 'e', 'r', '.']);
            assert("chrome."@ =~= seq!['c', 'h', 'r', 'o', 'm', 'e', '.']);
            reveal_strlit("manifest.declarative_net_request");
            assert("manifest.declarative_net_request"@ =~= seq!['m', 'a', 'n', 'i', 'f', 'e', 's', 't', '.', 'd', 'e', 'c', 'l', 'a', 'r', 'a', 't', 'i', 'v', 'e', '_', 'n', 'e', 't', '_', 'r', 'e', 'q', 'u', 'e', 's', 't']);
            reveal_strlit("browser.declarativeNetRequest.updateDynamicRules");
            assert("browser.declarativeNetRequest.updateDynamicRules"@ =~= seq!['b', 'r', 'o', 'w', 's', 'e', 'r', '.', 'd', 'e', 'c', 'l', 'a', 'r', 'a', 't', 'i', 'v', 'e', 'N', 'e', 't', 'R', 'e', 'q', 'u', 'e', 's', 't', '.', 'u', 'p', 'd', 'a', 't', 'e', 'D', 'y', 'n', 'a', 'm', 'i', 'c', 'R', 'u', 'l', 'e', 's']);
            reveal_strlit("browser.declarativeNetRequest.updateSessionRules");
            assert("browser.declarativeNetRequest.updateSessionRules"@ =~= seq!['b', 'r', 'o', 'w', 's', 'e', 'r', '.', 'd', 'e', 'c', 'l', 'a', 'r', 'a', 't', 'i', 'v', 'e', 'N', 'e', 't', 'R', 'e', 'q', 'u', 'e', 's', 't', '.', 'u', 'p', 'd', 'a', 't', 'e', 'S', 'e', 's', 's', 'i', 'o', 'n', 'R', 'u', 'l', 'e', 's']);
            reveal_strlit("chrome.declarativeNetRequest.updateDynamicRules");
            assert("chrome.declarativeNetRequest.updateDynamicRules"@ =~= seq!['c', 'h', 'r', 'o', 'm', 'e', '.', 'd', 'e', 'c', 'l', 'a', 'r', 'a', 't', 'i', 'v', 'e', 'N', 'e', 't', 'R', 'e', 'q', 'u', 'e', 's', 't', '.', 'u', 'p', 'd', 'a', 't', 'e', 'D', 'y', 'n', 'a', 'm', 'i', 'c', 'R', 'u', 'l', 'e', 's']);
            reveal_strlit("chrome.declarativeNetRequest.updateSessionRules");
            assert("chrome.declarativeNetRequest.updateSessionRules"@ =~= seq!['c', 'h', 'r', 'o', 'm', 'e', '.', 'd', 'e', 'c', 'l', 'a', 'r', 'a', 't', 'i', 'v', 'e', 'N', 'e', 't', 'R', 'e', 'q', 'u', 'e', 's', 't', '.', 'u', 'p', 'd', 'a', 't', 'e', 'S', 'e', 's', 's', 'i', 'o', 'n', 'R', 'u', 'l', 'e', 's']);
            let names = surface_names(s);
            assert(names.len() == 5);
            assert(names[0] == "manifest.declarative_net_request"@);
            assert(names[1] == "browser.declarativeNetRequest.updateDynamicRules"@);
            assert(names[2] == "browser.declarativeNetRequest.updateSessionRules"@);
            assert(names[3] == "chrome.declarativeNetRequest.updateDynamicRules"@);
            assert(names[4] == "chrome.declarativeNetRequest.updateSessionRules"@);
            assert forall|i: int| 0 <= i < names.len() implies names[i].len() > 0 && no_we(names[i]) by {
                if i == 0 {} else if i == 1 {} else if i == 2 {} else if i == 3 {} else if i == 4 {}
            }
            assert forall|i: int| 0 <= i < names.len() && is_prefix("browser."@, names[i]) implies has_name(names, "chrome."@ + names[i].skip(8)) by {
                if i == 0 {
                    lemma_not_prefix_at("browser."@, names[0], 0);
                } else if i == 1 {
                    assert("chrome."@ + names[1].skip(8) =~= names[3]);
                lemma_has_name_witness(names, 3, "chrome."@ + names[1].skip(8));
                } else if i == 2 {
                    assert("chrome."@ + names[2].skip(8) =~= names[4]);
                lemma_has_name_witness(names, 4, "chrome."@ + names[2].skip(8));
                } else if i == 3 {
                    lemma_not_prefix_at("browser."@, names[3], 0);
                } else if i == 4 {
                    lemma_not_prefix_at("browser."@, names[4], 0);
                }
            }
            assert forall|i: int| 0 <= i < names.len() && is_prefix("chrome."@, names[i]) implies has_name(names, "browser."@ + names[i].skip(7)) by {
                if i == 0 {
                    lemma_not_prefix_at("chrome."@, names[0], 0);
                } else if i == 1 {
                    lemma_not_prefix_at("chrome."@, names[1], 0);
                } else if i == 2 {
                    lemma_not_prefix_at("chrome."@, names[2], 0);
                } else if i == 3 {
                    assert("browser."@ + names[3].skip(7) =~= names[1]);
                lemma_has_name_witness(names, 1, "browser."@ + names[3].skip(7));
                } else if i == 4 {
                    assert("browser."@ + names[4].skip(7) =~= names[2]);
                lemma_has_name_witness(names, 2, "browser."@ + names[4].skip(7));
                }
            }
        },
        ExtensionApiSurface::BootstrappedManifest => {
            reveal_strlit("browser.");
            reveal_strlit("chrome.");
            assert("browser."@ =~= seq!['b', 'r', 'o', 'w', 's', 'e', 'r', '.']);
            assert("chrome."@ =~= seq!['c', 'h', 'r', 'o', 'm', 'e', '.']);
            reveal_strlit("manifest.bootstrap");
            assert("manifest.bootstrap"@ =~= seq!['m', 'a', 'n', 'i', 'f', 'e', 's', 't', '.', 'b', 'o', 'o', 't', 's', 't', 'r', 'a', 'p']);
            reveal_strlit("manifest.legacy");
            assert("manifest.legacy"@ =~= seq!['m', 'a', 'n', 'i', 'f', 'e', 's', 't', '.', 'l', 'e', 'g', 'a', 'c', 'y']);
            reveal_strlit("manifest.type=bootstrap");
            assert("manifest.type=bootstrap"@ =~= seq!['m', 'a', 'n', 'i', 'f', 'e', 's', 't', '.', 't', 'y', 'p', 'e', '=', 'b', 'o', 'o', 't', 's', 't', 'r', 'a', 'p']);
            let names = surface_names(s);
            assert(names.len() == 3);
            assert(names[0] == "manifest.bootstrap"@);
            assert(names[1] == "manifest.legacy"@);
            assert(names[2] == "manifest.type=bootstrap"@);
            assert forall|i: int| 0 <= i < names.len() implies names[i].len() > 0 && no_we(names[i]) by {
                if i == 0 {} else if i == 1 {} else if i == 2 {}
            }
            assert forall|i: int| 0 <= i < names.len() && is_prefix("browser."@, names[i]) implies has_name(names, "chrome."@ + names[i].skip(8)) by {
                if i == 0 {
                    lemma_not_prefix_at("browser."@, names[0], 0);
                } else if i == 1 {
                    lemma_not_prefix_at("browser."@, names[1], 0);
                } else if i == 2 {
                    lemma_not_prefix_at("browser."@, names[2], 0);
                }
            }
            assert forall|i: int| 0 <= i < names.len() && is_prefix("chrome."@, names[i]) implies has_name(names, "browser."@ + names[i].skip(7)) by {
                if i == 0 {
                    lemma_not_prefix_at("chrome."@, names[0], 0);
                } else if i == 1 {
                    lemma_not_prefix_at("chrome."@, names[1], 0);
                } else if i == 2 {
                    lemma_not_prefix_at("chrome."@, names[2], 0);
                }
            }
        },
    }
}

/// Every family has names, none empty; no name mentions `webRequest` or
/// `webNavigation` (in any case); and a `browser.X` name is listed exactly
/// when its `chrome.X` counterpart is. The globals family is exactly
/// `browser` and `chrome`.
pub proof fn lemma_surface_names(s: ExtensionApiSurface)
    ensures
        surface_names(s).len() > 0,
        forall|i: int|
            0 <= i < surface_names(s).len() ==> {
                &&& (#[trigger] surface_names(s)[i]).len() > 0
                &&& !contains(lowercase(surface_names(s)[i]), "webrequest"@)
                &&& !contains(lowercase(surface_names(s)[i]), "webnavigation"@)
            },
        forall|t: Seq<char>|
            has_name(surface_names(s), #[trigger] ("browser."@ + t)) <==> has_name(
                surface_names(s),
                "chrome."@ + t,
            ),
        spec_js_surfaces(ExtensionApiSurface::WebExtensionGlobals) == seq!["browser", "chrome"],
{
    lemma_surface_name_facts(s);
    let names = surface_names(s);
    reveal_strlit("webrequest");
    reveal_strlit("webnavigation");
    reveal_strlit("browser.");
    reveal_strlit("chrome.");
    assert forall|i: int| 0 <= i < names.len() implies {
        &&& (#[trigger] names[i]).len() > 0
        &&& !contains(lowercase(names[i]), "webrequest"@)
        &&& !contains(lowercase(names[i]), "webnavigation"@)
    } by {
        lemma_no_we_excludes(names[i], "webrequest"@);
        lemma_no_we_excludes(names[i], "webnavigation"@);
    }
    assert forall|t: Seq<char>| has_name(names, #[trigger] ("browser."@ + t)) <==> has_name(
        names,
        "chrome."@ + t,
    ) by {
        if has_name(names, "browser."@ + t) {
            let i = choose|i: int| 0 <= i < names.len() && names[i] == "browser."@ + t;
            lemma_prefix_split("browser."@, t, names[i]);
        }
        if has_name(names, "chrome."@ + t) {
            let i = choose|i: int| 0 <= i < names.len() && names[i] == "chrome."@ + t;
            lemma_prefix_split("chrome."@, t, names[i]);
        }
    }
}

/// The mode-level extension policy.
#[derive(Debug, Clone, Copy, PartialEq, Eq, Hash, Structural)]
pub enum BlockerPolicy {
    /// Strict: every surface blocked, allowlist irrelevant.
    AllBlocked,
    /// Standard: per-extension gating by the allowlist.
    StandardSubjectToAllowlist,
}

/// Strict always resolves to `AllBlocked`, Standard to
/// `StandardSubjectToAllowlist`; nothing but the mode is an input.
pub fn block_for_mode(mode: Mode) -> (r: BlockerPolicy)
    ensures
        mode == Mode::Strict ==> r == BlockerPolicy::AllBlocked,
        mode == Mode::Standard ==> r == BlockerPolicy::StandardSubjectToAllowlist,
{
    match mode {
        Mode::Standard => BlockerPolicy::StandardSubjectToAllowlist,
        Mode::Strict => BlockerPolicy::AllBlocked,
    }
}

/// The surfaces darked in `mode`: all of them in Strict, none in
/// Standard.
pub fn surfaces_blocked_for_mode(mode: Mode) -> (r: &'static [ExtensionApiSurface])
    ensures
        mode == Mode::Strict ==> r@ == all_surfaces(),
        mode == Mode::Standard ==> r@ == Seq::<ExtensionApiSurface>::empty(),
{
    match mode {
        Mode::Standard => &[],
        Mode::Strict => ExtensionApiSurface::all(),
    }
}

} // verus!
