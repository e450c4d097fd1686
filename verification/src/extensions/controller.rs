//! Extension controller: the active allowlist manifest, the registry of
//! installed extensions, and the install / manifest-swap / removal
//! decisions. Every decision reports a typed [`WarningIntent`] for the
//! orchestrator to emit.
use vstd::prelude::*;
use crate::digest::spec_sha256;
use super::allowlist::{
    candidate_sig_ok, lookup_entry, manifest_from_decoded, spec_check_manifest,
    spec_install_gates, spec_satisfies, verify_install, verify_manifest_signature,
    AllowlistManifest, AllowlistParseError, Ed25519PubKeyBytes, Ed25519SigBytes, EntryModel,
    ExtensionId, InstallCandidate, InstallVerifyError, ManifestModel, SignatureVerifier,
    SignatureVerifyError, Version,
};
use super::json::{decode_json, spec_decode_json, JsonValue};

verus! {

/// Lifecycle state of one installed extension.
#[derive(Debug, Clone, Copy, PartialEq, Eq, Hash)]
pub enum InstalledState {
    /// Installed, verified, runtime-enabled.
    Enabled,
    /// Installed but not run (user toggle, recall, or tightened constraint).
    Disabled,
}

/// Record of one installed extension.
#[derive(Debug, Clone)]
pub struct InstalledExtension {
    pub extension_id: ExtensionId,
    pub version: Version,
    pub state: InstalledState,
}

/// Abstract view of an [`InstalledExtension`].
pub struct InstalledModel {
    pub extension_id: Seq<char>,
    pub version: Version,
    pub state: InstalledState,
}

impl View for InstalledExtension {
    type V = InstalledModel;

    open spec fn view(&self) -> InstalledModel {
        InstalledModel {
            extension_id: self.extension_id@,
            version: self.version,
            state: self.state,
        }
    }
}

/// Typed warning the orchestrator turns into a user-facing warning.
#[derive(Debug, Clone, PartialEq, Eq)]
pub enum WarningIntent {
    /// Install gate (a): id not on the active allowlist.
    ExtensionInstallRejectedOffAllowlist(ExtensionId),
    /// Install gate (b): version constraint unsatisfied.
    ExtensionInstallRejectedVersionConstraint(ExtensionId),
    /// Install gate (c): `.xpi` SHA-256 mismatch.
    ExtensionInstallRejectedXpiHashMismatch(ExtensionId),
    /// Install gate (d): detached signature rejected.
    ExtensionInstallRejectedSignatureMismatch(ExtensionId),
    /// Manifest swap refused (parse, signature, or non-monotonic version);
    /// the live manifest is unchanged.
    AllowlistManifestUpdateRejected,
    /// Swap done; this installed id left the allowlist and was disabled.
    ExtensionAutoDisabledByRecall(ExtensionId),
    /// Swap done; this installed version no longer satisfies the new
    /// constraint and was disabled.
    ExtensionAutoDisabledByUpdateConstraint(ExtensionId),
}

/// Abstract view of a [`WarningIntent`].
pub enum IntentModel {
    RejectedOffAllowlist(Seq<char>),
    RejectedVersionConstraint(Seq<char>),
    RejectedXpiHashMismatch(Seq<char>),
    RejectedSignatureMismatch(Seq<char>),
    ManifestUpdateRejected,
    DisabledByRecall(Seq<char>),
    DisabledByUpdateConstraint(Seq<char>),
}

impl View for WarningIntent {
    type V = IntentModel;

    open spec fn view(&self) -> IntentModel {
        match self {
            WarningIntent::ExtensionInstallRejectedOffAllowlist(id) =>
                IntentModel::RejectedOffAllowlist(id@),
            WarningIntent::ExtensionInstallRejectedVersionConstraint(id) =>
                IntentModel::RejectedVersionConstraint(id@),
            WarningIntent::ExtensionInstallRejectedXpiHashMismatch(id) =>
                IntentModel::RejectedXpiHashMismatch(id@),
            WarningIntent::ExtensionInstallRejectedSignatureMismatch(id) =>
                IntentModel::RejectedSignatureMismatch(id@),
            WarningIntent::AllowlistManifestUpdateRejected => IntentModel::ManifestUpdateRejected,
            WarningIntent::ExtensionAutoDisabledByRecall(id) => IntentModel::DisabledByRecall(id@),
            WarningIntent::ExtensionAutoDisabledByUpdateConstraint(id) =>
                IntentModel::DisabledByUpdateConstraint(id@),
        }
    }
}

/// Result of an install attempt.
#[derive(Debug)]
pub enum InstallOutcome {
    Installed,
    Rejected(WarningIntent),
}

/// Result of a manifest swap attempt.
#[derive(Debug)]
pub enum SwapOutcome {
    /// Swap done; one intent per installed extension whose state changed.
    Swapped { intents: Vec<WarningIntent> },
    /// Swap refused; live manifest unchanged.
    Rejected(WarningIntent),
}

/// The warning for a failed install gate.
pub open spec fn install_intent(e: InstallVerifyError, id: Seq<char>) -> IntentModel {
    match e {
        InstallVerifyError::NotOnAllowlist => IntentModel::RejectedOffAllowlist(id),
        InstallVerifyError::VersionConstraintUnsatisfied => IntentModel::RejectedVersionConstraint(
            id,
        ),
        InstallVerifyError::XpiHashMismatch => IntentModel::RejectedXpiHashMismatch(id),
        InstallVerifyError::SignatureMismatch => IntentModel::RejectedSignatureMismatch(id),
    }
}

impl WarningIntent {
    fn for_install_error(id: ExtensionId, e: &InstallVerifyError) -> (r: Self)
        ensures
            r@ == install_intent(*e, id@),
    {
        match e {
            InstallVerifyError::NotOnAllowlist => Self::ExtensionInstallRejectedOffAllowlist(id),
            InstallVerifyError::VersionConstraintUnsatisfied =>
                Self::ExtensionInstallRejectedVersionConstraint(id),
            InstallVerifyError::XpiHashMismatch => Self::ExtensionInstallRejectedXpiHashMismatch(
                id,
            ),
            InstallVerifyError::SignatureMismatch =>
                Self::ExtensionInstallRejectedSignatureMismatch(id),
        }
    }

    fn for_parse_error(_e: &AllowlistParseError) -> (r: Self)
        ensures
            r@ == IntentModel::ManifestUpdateRejected,
    {
        Self::AllowlistManifestUpdateRejected
    }

    fn for_sig_error(_e: &SignatureVerifyError) -> (r: Self)
        ensures
            r@ == IntentModel::ManifestUpdateRejected,
    {
        Self::AllowlistManifestUpdateRejected
    }
}

// ── Registry model ──────────────────────────────────────────────────────

/// Installed ids are pairwise distinct.
pub open spec fn registry_distinct(s: Seq<InstalledModel>) -> bool {
    forall|i: int, j: int| 0 <= i < j < s.len() ==> s[i].extension_id != s[j].extension_id
}

pub open spec fn registry_has(s: Seq<InstalledModel>, id: Seq<char>) -> bool {
    exists|i: int| 0 <= i < s.len() && s[i].extension_id == id
}

/// Index of the record for `id` (meaningful when present).
pub open spec fn registry_index(s: Seq<InstalledModel>, id: Seq<char>) -> int {
    choose|i: int| 0 <= i < s.len() && s[i].extension_id == id
}

/// Inserting a record replaces the record with the same id, or appends.
pub open spec fn registry_upsert(s: Seq<InstalledModel>, rec: InstalledModel) -> Seq<
    InstalledModel,
> {
    if registry_has(s, rec.extension_id) {
        s.update(registry_index(s, rec.extension_id), rec)
    } else {
        s.push(rec)
    }
}

/// Removing an extension that an install has just added (it was not
/// installed before) gives the registry back as it was.
pub proof fn lemma_remove_undoes_fresh_install(s: Seq<InstalledModel>, rec: InstalledModel)
    requires
        !registry_has(s, rec.extension_id),
    ensures
        registry_has(registry_upsert(s, rec), rec.extension_id),
        registry_upsert(s, rec).remove(
            registry_index(registry_upsert(s, rec), rec.extension_id),
        ) == s,
{
    let t = registry_upsert(s, rec);
    assert(t == s.push(rec));
    assert(t[s.len() as int].extension_id == rec.extension_id);
    let i = registry_index(t, rec.extension_id);
    assert(0 <= i < t.len() && t[i].extension_id == rec.extension_id);
    assert(i == s.len()) by {
        if i < s.len() {
            assert(s[i].extension_id == rec.extension_id);
        }
    }
    assert(t.remove(i) =~= s);
}

/// What a new manifest does to one installed extension: nothing if its
/// id is still listed and its version still satisfies the constraint;
/// otherwise it is disabled, with the matching warning.
pub open spec fn reconcile_one(m: ManifestModel, e: InstalledModel) -> (
    InstalledModel,
    Option<IntentModel>,
) {
    match lookup_entry(m.entries, e.extension_id) {
        Some(entry) => if spec_satisfies(entry.version_constraint, e.version) {
            (e, None)
        } else {
            (
                InstalledModel { state: InstalledState::Disabled, ..e },
                Some(IntentModel::DisabledByUpdateConstraint(e.extension_id)),
            )
        },
        None => (
            InstalledModel { state: InstalledState::Disabled, ..e },
            Some(IntentModel::DisabledByRecall(e.extension_id)),
        ),
    }
}

pub open spec fn reconciled(m: ManifestModel, s: Seq<InstalledModel>) -> Seq<InstalledModel> {
    s.map_values(|e: InstalledModel| reconcile_one(m, e).0)
}

/// The warnings of a reconciliation, in registry order.
pub open spec fn reconcile_intents(m: ManifestModel, s: Seq<InstalledModel>) -> Seq<IntentModel>
    decreases s.len(),
{
    if s.len() == 0 {
        seq![]
    } else {
        let prev = reconcile_intents(m, s.drop_last());
        match reconcile_one(m, s.last()).1 {
            Some(w) => prev.push(w),
            None => prev,
        }
    }
}

/// A manifest swap never enables anything and keeps ids and versions; an
/// extension left enabled is listed in the new manifest and its version
/// satisfies the listed constraint. Reconciling twice changes nothing more.
pub proof fn lemma_reconciled_enabled_are_allowed(m: ManifestModel, s: Seq<InstalledModel>, i: int)
    requires
        0 <= i < s.len(),
    ensures
        reconciled(m, s).len() == s.len(),
        reconciled(m, s)[i].extension_id == s[i].extension_id,
        reconciled(m, s)[i].version == s[i].version,
        reconciled(m, s)[i].state == InstalledState::Enabled ==> {
            &&& s[i].state == InstalledState::Enabled
            &&& lookup_entry(m.entries, s[i].extension_id) matches Some(e) && spec_satisfies(
                e.version_constraint,
                s[i].version,
            )
        },
        reconciled(m, reconciled(m, s)) == reconciled(m, s),
{
    let r = reconciled(m, s);
    assert forall|j: int| 0 <= j < r.len() implies #[trigger] reconcile_one(m, r[j]).0 == r[j] by {
        let e = s[j];
        match lookup_entry(m.entries, e.extension_id) {
            Some(entry) => {},
            None => {},
        }
    }
    assert(reconciled(m, r) =~= r);
}

pub open spec fn intents_view(v: Seq<WarningIntent>) -> Seq<IntentModel> {
    v.map_values(|w: WarningIntent| w@)
}

/// What one call on the controller does to the active manifest.
pub enum ManifestEvent {
    /// The active manifest stays as it was: `install`, `remove`,
    /// `active_manifest`, `installed_summary` and a refused swap.
    Kept,
    /// An accepted swap made this manifest the active one.
    Swapped(ManifestModel),
}

/// The active manifest after `ev`, given the one before it.
pub open spec fn manifest_step(active: ManifestModel, ev: ManifestEvent) -> ManifestModel {
    match ev {
        ManifestEvent::Kept => active,
        ManifestEvent::Swapped(m) => m,
    }
}

/// What a swap attempt does to the active manifest: it is accepted when the
/// document parses as a manifest, the signature is accepted and the
/// manifest version increases.
pub open spec fn swap_event(
    parsed: Result<ManifestModel, AllowlistParseError>,
    accepted: bool,
    active: ManifestModel,
) -> ManifestEvent {
    if parsed is Ok && accepted && parsed->Ok_0.manifest_version > active.manifest_version {
        ManifestEvent::Swapped(parsed->Ok_0)
    } else {
        ManifestEvent::Kept
    }
}

/// The active manifest after `events`, starting from `seed`.
pub open spec fn active_after(seed: ManifestModel, events: Seq<ManifestEvent>) -> ManifestModel
    decreases events.len(),
{
    if events.len() == 0 {
        seed
    } else {
        manifest_step(active_after(seed, events.drop_last()), events.last())
    }
}

proof fn lemma_states_follow_events(seed: ManifestModel, events: Seq<ManifestEvent>, states: Seq<ManifestModel>)
    requires
        states.len() == events.len() + 1,
        states[0] == seed,
        forall|i: int|
            0 <= i < events.len() ==> states[i + 1] == manifest_step(states[i], #[trigger] events[i]),
    ensures
        states.last() == active_after(seed, events),
    decreases events.len(),
{
    let n = events.len();
    if n > 0 {
        let pe = events.drop_last();
        let ps = states.drop_last();
        assert forall|i: int| 0 <= i < pe.len() implies ps[i + 1] == manifest_step(
            ps[i],
            #[trigger] pe[i],
        ) by {
            assert(events[i] == pe[i]);
        }
        lemma_states_follow_events(seed, pe, ps);
        assert(states.last() == manifest_step(states[n - 1], events[n - 1]));
    }
}

proof fn lemma_active_after_no_swap(seed: ManifestModel, events: Seq<ManifestEvent>)
    requires
        forall|i: int| 0 <= i < events.len() ==> #[trigger] events[i] is Kept,
    ensures
        active_after(seed, events) == seed,
    decreases events.len(),
{
    if events.len() > 0 {
        let pe = events.drop_last();
        assert forall|i: int| 0 <= i < pe.len() implies #[trigger] pe[i] is Kept by {
            assert(events[i] == pe[i]);
        }
        lemma_active_after_no_swap(seed, pe);
        assert(events[events.len() - 1] is Kept);
    }
}

proof fn lemma_active_after_last_swap(seed: ManifestModel, events: Seq<ManifestEvent>, i: int)
    requires
        0 <= i < events.len(),
        events[i] is Swapped,
        forall|j: int| i < j < events.len() ==> #[trigger] events[j] is Kept,
    ensures
        active_after(seed, events) == events[i]->0,
    decreases events.len(),
{
    let n = events.len();
    if i < n - 1 {
        let pe = events.drop_last();
        assert(pe[i] == events[i]);
        assert forall|j: int| i < j < pe.len() implies #[trigger] pe[j] is Kept by {
            assert(events[j] == pe[j]);
        }
        lemma_active_after_last_swap(seed, pe, i);
        assert(events[n - 1] is Kept);
    }
}

/// Across any run of calls on a controller built from `seed`, where
/// `states[i]` is the active manifest before the `i`-th call and
/// `events[i]` what that call did to it, the active manifest at the end is
/// the seed when no swap was accepted, and otherwise the manifest of the
/// last accepted swap.
pub proof fn lemma_active_manifest_is_last_accepted_swap(
    seed: ManifestModel,
    events: Seq<ManifestEvent>,
    states: Seq<ManifestModel>,
)
    requires
        states.len() == events.len() + 1,
        states[0] == seed,
        forall|i: int|
            0 <= i < events.len() ==> states[i + 1] == manifest_step(states[i], #[trigger] events[i]),
    ensures
        states.last() == active_after(seed, events),
        (forall|i: int| 0 <= i < events.len() ==> #[trigger] events[i] is Kept) ==> states.last()
            == seed,
        forall|i: int|
            #![trigger events[i]]
            0 <= i < events.len() && events[i] is Swapped && (forall|j: int|
                i < j < events.len() ==> #[trigger] events[j] is Kept) ==> states.last()
                == events[i]->0,
{
    lemma_states_follow_events(seed, events, states);
    if forall|i: int| 0 <= i < events.len() ==> #[trigger] events[i] is Kept {
        lemma_active_after_no_swap(seed, events);
    }
    assert forall|i: int|
        #![trigger events[i]]
        0 <= i < events.len() && events[i] is Swapped && (forall|j: int|
            i < j < events.len() ==> #[trigger] events[j] is Kept) implies states.last()
        == events[i]->0 by {
        lemma_active_after_last_swap(seed, events, i);
    }
}

/// Controller: active manifest plus installed-extension registry.
#[derive(Debug)]
pub struct ExtensionController {
    manifest: AllowlistManifest,
    installed: Vec<InstalledExtension>,
}

impl ExtensionController {
    #[verifier::type_invariant]
    spec fn wf(self) -> bool {
        registry_distinct(self.installed@.map_values(|e: InstalledExtension| e@))
    }

    /// The active manifest.
    pub closed spec fn manifest_model(&self) -> ManifestModel {
        self.manifest@
    }

    /// The installed extensions, in registry order.
    pub closed spec fn registry(&self) -> Seq<InstalledModel> {
        self.installed@.map_values(|e: InstalledExtension| e@)
    }

    /// Starts with the seed manifest and nothing installed.
    pub fn new(seed_manifest: AllowlistManifest) -> (r: Self)
        ensures
            r.manifest_model() == seed_manifest@,
            r.registry() == Seq::<InstalledModel>::empty(),
            registry_distinct(r.registry()),
    {
        let r = ExtensionController { manifest: seed_manifest, installed: Vec::new() };
        assert(r.installed@.map_values(|e: InstalledExtension| e@) =~= Seq::<
            InstalledModel,
        >::empty());
        r
    }

    /// The active manifest.
    pub fn active_manifest(&self) -> (r: &AllowlistManifest)
        ensures
            r@ == self.manifest_model(),
    {
        &self.manifest
    }

    /// Snapshot of the installed extensions: one record per installed id,
    /// no id twice.
    pub fn installed_summary(&self) -> (r: Vec<InstalledExtension>)
        ensures
            r@.map_values(|e: InstalledExtension| e@) == self.registry(),
            registry_distinct(self.registry()),
            registry_distinct(r@.map_values(|e: InstalledExtension| e@)),
    {
        proof {
            use_type_invariant(self);
        }
        let mut out: Vec<InstalledExtension> = Vec::new();
        let mut i: usize = 0;
        while i < self.installed.len()
            invariant
                i <= self.installed@.len(),
                out@.len() == i,
                forall|k: int| 0 <= k < i ==> (#[trigger] out@[k])@ == self.installed@[k]@,
            decreases self.installed@.len() - i,
        {
            let e = &self.installed[i];
            out.push(
                InstalledExtension {
                    extension_id: ExtensionId(e.extension_id.0.clone()),
                    version: e.version,
                    state: e.state,
                },
            );
            i = i + 1;
        }
        assert(out@.map_values(|e: InstalledExtension| e@) =~= self.registry());
        out
    }

    /// Position of `id` in the registry.
    fn find_installed(&self, id: &ExtensionId) -> (r: Option<usize>)
        ensures
            match r {
                Some(i) => i < self.registry().len() && self.registry()[i as int].extension_id
                    == id@ && registry_has(self.registry(), id@) && registry_index(
                    self.registry(),
                    id@,
                ) == i,
                None => !registry_has(self.registry(), id@),
            },
    {
        proof {
            use_type_invariant(self);
        }
        let ghost reg = self.registry();
        let mut i: usize = 0;
        while i < self.installed.len()
            invariant
                reg == self.registry(),
                reg.len() == self.installed@.len(),
                registry_distinct(reg),
                i <= self.installed@.len(),
                forall|k: int| 0 <= k < i ==> reg[k].extension_id != id@,
            decreases self.installed@.len() - i,
        {
            if self.installed[i].extension_id.0 == id.0 {
                assert(reg[i as int].extension_id == id@);
                let ghost j = registry_index(reg, id@);
                assert(reg[j].extension_id == id@);
                assert(j == i) by {
                    if j != i {
                        if j < i {
                            assert(reg[j].extension_id != reg[i as int].extension_id);
                        } else {
                            assert(reg[i as int].extension_id != reg[j].extension_id);
                        }
                    }
                }
                return Some(i);
            }
            i = i + 1;
        }
        None
    }

    /// Attempts to install an `.xpi` candidate against the active
    /// manifest. On success the extension is recorded as enabled
    /// (replacing any record with the same id); on failure the registry
    /// is unchanged and the matching warning is returned.
    pub fn install<V: SignatureVerifier>(&mut self, candidate: InstallCandidate<'_>, verifier: &V) -> (r:
        InstallOutcome)
        ensures
            final(self).manifest_model() == old(self).manifest_model(),
            registry_distinct(final(self).registry()),
            ({
                let gates = spec_install_gates(
                    old(self).manifest_model(),
                    candidate.extension_id@,
                    candidate.version,
                    spec_sha256(candidate.xpi_bytes@),
                    candidate_sig_ok(*verifier, candidate),
                );
                match gates {
                    Ok(_) => r is Installed && final(self).registry() == registry_upsert(
                        old(self).registry(),
                        InstalledModel {
                            extension_id: candidate.extension_id@,
                            version: candidate.version,
                            state: InstalledState::Enabled,
                        },
                    ),
                    Err(e) => r matches InstallOutcome::Rejected(w) && w@ == install_intent(
                        e,
                        candidate.extension_id@,
                    ) && final(self).registry() == old(self).registry(),
                }
            }),
    {
        proof {
            use_type_invariant(&*self);
        }
        let gate = verify_install(&candidate, &self.manifest, verifier);
        match gate {
            Ok(_entry) => {
                let rec = InstalledExtension {
                    extension_id: ExtensionId(candidate.extension_id.0.clone()),
                    version: candidate.version,
                    state: InstalledState::Enabled,
                };
                let ghost old_reg = self.registry();
                let pos = self.find_installed(&candidate.extension_id);
                let ghost new_reg = match pos {
                    Some(i) => old_reg.update(i as int, rec@),
                    None => old_reg.push(rec@),
                };
                proof {
                    let s = new_reg;
                    assert forall|a: int, b: int| 0 <= a < b < s.len() implies s[a].extension_id
                        != s[b].extension_id by {
                        if a < old_reg.len() && b < old_reg.len() {
                            if pos is Some {
                                let i = pos->0 as int;
                                if a != i && b != i {
                                    assert(s[a] == old_reg[a] && s[b] == old_reg[b]);
                                } else if a == i {
                                    assert(s[b] == old_reg[b]);
                                    assert(old_reg[a].extension_id != old_reg[b].extension_id);
                                } else {
                                    assert(s[a] == old_reg[a]);
                                    assert(old_reg[a].extension_id != old_reg[b].extension_id);
                                }
                            } else {
                                assert(s[a] == old_reg[a] && s[b] == old_reg[b]);
                            }
                        } else {
                            assert(pos is None);
                            assert(b == old_reg.len());
                            assert(s[a] == old_reg[a]);
                        }
                    }
                }
                let mut installed: Vec<InstalledExtension> = Vec::new();
                core::mem::swap(&mut installed, &mut self.installed);
                assert(installed@.map_values(|e: InstalledExtension| e@) == old_reg);
                match pos {
                    Some(i) => {
                        installed.set(i, rec);
                    },
                    None => {
                        installed.push(rec);
                    },
                }
                assert(installed@.map_values(|e: InstalledExtension| e@) =~= new_reg);
                self.installed = installed;
                InstallOutcome::Installed
            },
            Err(e) => InstallOutcome::Rejected(
                WarningIntent::for_install_error(
                    ExtensionId(candidate.extension_id.0.clone()),
                    &e,
                ),
            ),
        }
    }

    /// Swaps to a new manifest given its decoded document: refused (live
    /// manifest and registry unchanged) when the document does not parse
    /// as a manifest, when the detached signature is rejected, or when
    /// `manifest_version` does not increase; otherwise the new manifest
    /// becomes active and every installed extension is reconciled.
    pub fn try_swap_decoded_manifest<V: SignatureVerifier>(
        &mut self,
        decoded: Option<JsonValue>,
        new_manifest_bytes: &[u8],
        detached_sig: &Ed25519SigBytes,
        root_pubkey: &Ed25519PubKeyBytes,
        verifier: &V,
    ) -> (r: SwapOutcome)
        ensures
            registry_distinct(final(self).registry()),
            final(self).manifest_model() == manifest_step(
                old(self).manifest_model(),
                swap_event(
                    spec_check_manifest(decoded),
                    verifier.accepts(root_pubkey.0@, new_manifest_bytes@, detached_sig.0@),
                    old(self).manifest_model(),
                ),
            ),
            ({
                let parsed = spec_check_manifest(decoded);
                let accepted = verifier.accepts(
                    root_pubkey.0@,
                    new_manifest_bytes@,
                    detached_sig.0@,
                );
                if parsed is Ok && accepted && parsed->Ok_0.manifest_version > old(
                    self,
                ).manifest_model().manifest_version {
                    let m = parsed->Ok_0;
                    &&& r matches SwapOutcome::Swapped { intents } && intents_view(intents@)
                        == reconcile_intents(m, old(self).registry())
                    &&& final(self).manifest_model() == m
                    &&& final(self).registry() == reconciled(m, old(self).registry())
                } else {
                    &&& r matches SwapOutcome::Rejected(w) && w@ == IntentModel::ManifestUpdateRejected
                    &&& final(self).manifest_model() == old(self).manifest_model()
                    &&& final(self).registry() == old(self).registry()
                }
            }),
    {
        proof {
            use_type_invariant(&*self);
        }
        let new_manifest = match manifest_from_decoded(decoded) {
            Ok(m) => m,
            Err(e) => return SwapOutcome::Rejected(WarningIntent::for_parse_error(&e)),
        };
        match verify_manifest_signature(verifier, root_pubkey, new_manifest_bytes, detached_sig) {
            Ok(()) => {},
            Err(e) => return SwapOutcome::Rejected(WarningIntent::for_sig_error(&e)),
        }
        if new_manifest.manifest_version <= self.manifest.manifest_version {
            return SwapOutcome::Rejected(WarningIntent::AllowlistManifestUpdateRejected);
        }
        let ghost m = new_manifest@;
        let ghost old_reg = self.registry();
        let mut intents: Vec<WarningIntent> = Vec::new();
        let mut updated: Vec<InstalledExtension> = Vec::new();
        let mut i: usize = 0;
        assert(old_reg.take(0) =~= Seq::<InstalledModel>::empty());
        while i < self.installed.len()
            invariant
                m == new_manifest@,
                old_reg == self.registry(),
                old_reg.len() == self.installed@.len(),
                i <= self.installed@.len(),
                updated@.map_values(|e: InstalledExtension| e@) == reconciled(m, old_reg.take(i as int)),
                intents_view(intents@) == reconcile_intents(m, old_reg.take(i as int)),
            decreases self.installed@.len() - i,
        {
            let cur = &self.installed[i];
            assert(old_reg[i as int] == cur@);
            let id = ExtensionId(cur.extension_id.0.clone());
            let ghost prev_u = updated@.map_values(|e: InstalledExtension| e@);
            let ghost prev_w = intents_view(intents@);
            match new_manifest.entry_for(&cur.extension_id) {
                Some(entry) => {
                    if entry.version_constraint.satisfies(&cur.version) {
                        updated.push(
                            InstalledExtension {
                                extension_id: id,
                                version: cur.version,
                                state: cur.state,
                            },
                        );
                    } else {
                        updated.push(
                            InstalledExtension {
                                extension_id: id,
                                version: cur.version,
                                state: InstalledState::Disabled,
                            },
                        );
                        intents.push(
                            WarningIntent::ExtensionAutoDisabledByUpdateConstraint(
                                ExtensionId(cur.extension_id.0.clone()),
                            ),
                        );
                    }
                },
                None => {
                    updated.push(
                        InstalledExtension {
                            extension_id: id,
                            version: cur.version,
                            state: InstalledState::Disabled,
                        },
                    );
                    intents.push(
                        WarningIntent::ExtensionAutoDisabledByRecall(
                            ExtensionId(cur.extension_id.0.clone()),
                        ),
                    );
                },
            }
            let ghost t1 = old_reg.take(i + 1);
            assert(t1.drop_last() =~= old_reg.take(i as int));
            assert(t1.last() == old_reg[i as int]);
            assert(updated@.map_values(|e: InstalledExtension| e@) =~= prev_u.push(
                reconcile_one(m, old_reg[i as int]).0,
            ));
            assert(reconciled(m, t1) =~= reconciled(m, old_reg.take(i as int)).push(
                reconcile_one(m, old_reg[i as int]).0,
            ));
            assert(intents_view(intents@) =~= (match reconcile_one(m, old_reg[i as int]).1 {
                Some(w) => prev_w.push(w),
                None => prev_w,
            }));
            i = i + 1;
        }
        assert(old_reg.take(old_reg.len() as int) =~= old_reg);
        proof {
            let s = updated@.map_values(|e: InstalledExtension| e@);
            assert forall|a: int, b: int| 0 <= a < b < s.len() implies s[a].extension_id
                != s[b].extension_id by {
                assert(s[a].extension_id == old_reg[a].extension_id);
                assert(s[b].extension_id == old_reg[b].extension_id);
            }
        }
        self.installed = updated;
        self.manifest = new_manifest;
        SwapOutcome::Swapped { intents }
    }

    /// Atomically swaps to a new allowlist manifest given its bytes and
    /// detached signature; see [`Self::try_swap_decoded_manifest`].
    pub fn try_swap_allowlist_manifest<V: SignatureVerifier>(
        &mut self,
        new_manifest_bytes: &[u8],
        detached_sig: &Ed25519SigBytes,
        root_pubkey: &Ed25519PubKeyBytes,
        verifier: &V,
    ) -> (r: SwapOutcome)
        ensures
            registry_distinct(final(self).registry()),
            final(self).manifest_model() == manifest_step(
                old(self).manifest_model(),
                swap_event(
                    spec_check_manifest(spec_decode_json(new_manifest_bytes@)),
                    verifier.accepts(root_pubkey.0@, new_manifest_bytes@, detached_sig.0@),
                    old(self).manifest_model(),
                ),
            ),
            ({
                let parsed = spec_check_manifest(spec_decode_json(new_manifest_bytes@));
                let accepted = verifier.accepts(
                    root_pubkey.0@,
                    new_manifest_bytes@,
                    detached_sig.0@,
                );
                if parsed is Ok && accepted && parsed->Ok_0.manifest_version > old(
                    self,
                ).manifest_model().manifest_version {
                    let m = parsed->Ok_0;
                    &&& r matches SwapOutcome::Swapped { intents } && intents_view(intents@)
                        == reconcile_intents(m, old(self).registry())
                    &&& final(self).manifest_model() == m
                    &&& final(self).registry() == reconciled(m, old(self).registry())
                } else {
                    &&& r matches SwapOutcome::Rejected(w) && w@ == IntentModel::ManifestUpdateRejected
                    &&& final(self).manifest_model() == old(self).manifest_model()
                    &&& final(self).registry() == old(self).registry()
                }
            }),
    {
        let decoded = decode_json(new_manifest_bytes);
        self.try_swap_decoded_manifest(decoded, new_manifest_bytes, detached_sig, root_pubkey, verifier)
    }

    /// Removes an installed extension; returns whether it was present.
    pub fn remove(&mut self, id: &ExtensionId) -> (r: bool)
        ensures
            final(self).manifest_model() == old(self).manifest_model(),
            registry_distinct(final(self).registry()),
            r == registry_has(old(self).registry(), id@),
            r ==> final(self).registry() == old(self).registry().remove(
                registry_index(old(self).registry(), id@),
            ),
            !r ==> final(self).registry() == old(self).registry(),
    {
        proof {
            use_type_invariant(&*self);
        }
        match self.find_installed(id) {
            Some(i) => {
                let ghost old_reg = self.registry();
                let ghost new_reg = old_reg.remove(i as int);
                proof {
                    let s = new_reg;
                    assert forall|a: int, b: int| 0 <= a < b < s.len() implies s[a].extension_id
                        != s[b].extension_id by {
                        let a2 = if a < i { a } else { a + 1 };
                        let b2 = if b < i { b } else { b + 1 };
                        assert(s[a] == old_reg[a2]);
                        assert(s[b] == old_reg[b2]);
                    }
                }
                let mut installed: Vec<InstalledExtension> = Vec::new();
                core::mem::swap(&mut installed, &mut self.installed);
                assert(installed@.map_values(|e: InstalledExtension| e@) == old_reg);
                installed.remove(i);
                assert(installed@.map_values(|e: InstalledExtension| e@) =~= new_reg);
                self.installed = installed;
                true
            },
            None => false,
        }
    }
}

} // verus!
