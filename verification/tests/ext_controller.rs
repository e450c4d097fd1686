use devbrowse::config::schema::Mode;
use devbrowse::extensions::allowlist::{ALLOWLIST_FORMAT_VERSION, AllowlistEntry, AllowlistManifest, Ed25519PubKeyBytes, Ed25519SigBytes, ExtensionId, InMemoryTrustedVerifier, InstallCandidate, RejectAllVerifier, Sha256Hash};
use devbrowse::extensions::blocker::{BlockerPolicy, block_for_mode};
use devbrowse::extensions::controller::{ExtensionController, InstallOutcome, InstalledState, SwapOutcome, WarningIntent};
use devbrowse::extensions::encoding::b64_encode;
use devbrowse::extensions::version::{Version, VersionConstraint};
fn key_a() -> Ed25519PubKeyBytes {
    Ed25519PubKeyBytes([0x11; 32])
}
fn sig_a() -> Ed25519SigBytes {
    Ed25519SigBytes([0xAA; 64])
}

fn xpi_bytes() -> &'static [u8] {
    b"<<fake xpi bytes for ublock>>"
}

fn seed_manifest() -> AllowlistManifest {
    AllowlistManifest {
        format_version: ALLOWLIST_FORMAT_VERSION,
        manifest_version: 1,
        entries: vec![AllowlistEntry {
            extension_id: ExtensionId::new("uBlock0@raymondhill.net"),
            version_constraint: VersionConstraint::AtLeast(Version::new(1, 50, 0)),
            sha256_of_xpi: Sha256Hash::of(xpi_bytes()),
            signing_pubkey: key_a(),
        }],
    }
}

fn working_verifier() -> InMemoryTrustedVerifier {
    InMemoryTrustedVerifier::new().trust(
        key_a(),
        xpi_bytes().to_vec(),
        sig_a(),
    )
}

fn install_ublock(c: &mut ExtensionController) -> InstallOutcome {
    c.install(
        InstallCandidate {
            extension_id: ExtensionId::new("uBlock0@raymondhill.net"),
            version: Version::new(1, 51, 0),
            xpi_bytes: xpi_bytes(),
            xpi_signature: sig_a(),
        },
        &working_verifier(),
    )
}

#[test]
fn construct_with_seed_manifest_exposes_active_manifest() {
    let mut c = ExtensionController::new(seed_manifest());
    assert_eq!(c.active_manifest().manifest_version, 1);
    assert_eq!(c.installed_summary().len(), 0);
}

#[test]
fn install_happy_path_records_enabled() {
    let mut c = ExtensionController::new(seed_manifest());
    match install_ublock(&mut c) {
        InstallOutcome::Installed => {}
        other => panic!("expected Installed, got {other:?}"),
    }
    let summary = c.installed_summary();
    assert_eq!(summary.len(), 1);
    assert_eq!(summary[0].state, InstalledState::Enabled);
}

#[test]
fn install_off_allowlist_emits_typed_intent() {
    let mut c = ExtensionController::new(seed_manifest());
    let out = c.install(
        InstallCandidate {
            extension_id: ExtensionId::new("malicious@nowhere.test"),
            version: Version::new(1, 0, 0),
            xpi_bytes: b"<<other>>",
            xpi_signature: sig_a(),
        },
        &working_verifier(),
    );
    match out {
        InstallOutcome::Rejected(WarningIntent::ExtensionInstallRejectedOffAllowlist(id)) => {
            assert_eq!(id.as_str(), "malicious@nowhere.test");
        }
        other => panic!("expected OffAllowlist intent, got {other:?}"),
    }
    assert!(c.installed_summary().is_empty());
}

#[test]
fn install_each_gate_maps_to_distinct_intent() {
    let mut c = ExtensionController::new(seed_manifest());
    let r = c.install(
        InstallCandidate {
            extension_id: ExtensionId::new("uBlock0@raymondhill.net"),
            version: Version::new(1, 0, 0),
            xpi_bytes: xpi_bytes(),
            xpi_signature: sig_a(),
        },
        &working_verifier(),
    );
    assert!(matches!(
        r,
        InstallOutcome::Rejected(WarningIntent::ExtensionInstallRejectedVersionConstraint(_))
    ));
    let r = c.install(
        InstallCandidate {
            extension_id: ExtensionId::new("uBlock0@raymondhill.net"),
            version: Version::new(1, 51, 0),
            xpi_bytes: b"<<TAMPERED>>",
            xpi_signature: sig_a(),
        },
        &working_verifier(),
    );
    assert!(matches!(
        r,
        InstallOutcome::Rejected(WarningIntent::ExtensionInstallRejectedXpiHashMismatch(_))
    ));
    let r = c.install(
        InstallCandidate {
            extension_id: ExtensionId::new("uBlock0@raymondhill.net"),
            version: Version::new(1, 51, 0),
            xpi_bytes: xpi_bytes(),
            xpi_signature: sig_a(),
        },
        &RejectAllVerifier,
    );
    assert!(matches!(
        r,
        InstallOutcome::Rejected(WarningIntent::ExtensionInstallRejectedSignatureMismatch(_))
    ));
    assert!(c.installed_summary().is_empty());
}

fn bytes_and_sig(m: &AllowlistManifest) -> (Vec<u8>, Ed25519SigBytes) {
    let bytes = manifest_json(m);
    (bytes, sig_a())
}

fn swap_verifier(bytes: &[u8]) -> InMemoryTrustedVerifier {
    InMemoryTrustedVerifier::new().trust(key_a(), bytes.to_vec(), sig_a())
}

#[test]
fn swap_happy_path_updates_active_manifest() {
    let mut c = ExtensionController::new(seed_manifest());
    let mut new_m = seed_manifest();
    new_m.manifest_version = 2;
    let (bytes, sig) = bytes_and_sig(&new_m);
    match c.try_swap_allowlist_manifest(&bytes, &sig, &key_a(), &swap_verifier(&bytes)) {
        SwapOutcome::Swapped { intents } => assert!(intents.is_empty()),
        other => panic!("expected Swapped, got {other:?}"),
    }
    assert_eq!(c.active_manifest().manifest_version, 2);
}

#[test]
fn swap_with_bad_signature_keeps_previous_manifest() {
    let mut c = ExtensionController::new(seed_manifest());
    assert!(matches!(install_ublock(&mut c), InstallOutcome::Installed));

    let mut new_m = seed_manifest();
    new_m.manifest_version = 2;
    new_m.entries.clear();
    let bytes = manifest_json(&new_m);
    let v = InMemoryTrustedVerifier::new();

    match c.try_swap_allowlist_manifest(&bytes, &sig_a(), &key_a(), &v) {
        SwapOutcome::Rejected(WarningIntent::AllowlistManifestUpdateRejected) => {}
        other => panic!("expected Rejected (sig fail), got {other:?}"),
    }
    assert_eq!(c.active_manifest().manifest_version, 1);
    assert!(c
        .active_manifest()
        .entry_for(&ExtensionId::new("uBlock0@raymondhill.net"))
        .is_some());
    let summary = c.installed_summary();
    assert_eq!(summary.len(), 1);
    assert_eq!(summary[0].state, InstalledState::Enabled);
}

#[test]
fn swap_with_bad_json_keeps_previous_manifest() {
    let mut c = ExtensionController::new(seed_manifest());
    match c.try_swap_allowlist_manifest(
        b"not json at all",
        &sig_a(),
        &key_a(),
        &working_verifier(),
    ) {
        SwapOutcome::Rejected(WarningIntent::AllowlistManifestUpdateRejected) => {}
        other => panic!("expected Rejected (parse fail), got {other:?}"),
    }
    assert_eq!(c.active_manifest().manifest_version, 1);
}

#[test]
fn swap_refuses_non_monotonic_manifest_version() {
    let mut c = ExtensionController::new(seed_manifest());
    let mut older = seed_manifest();
    older.manifest_version = 0;
    let (bytes, sig) = bytes_and_sig(&older);
    match c.try_swap_allowlist_manifest(&bytes, &sig, &key_a(), &swap_verifier(&bytes)) {
        SwapOutcome::Rejected(WarningIntent::AllowlistManifestUpdateRejected) => {}
        other => panic!("expected Rejected (non-monotonic), got {other:?}"),
    }
}

#[test]
fn swap_recall_auto_disables_and_emits_intent() {
    let mut c = ExtensionController::new(seed_manifest());
    assert!(matches!(install_ublock(&mut c), InstallOutcome::Installed));

    let mut recall = seed_manifest();
    recall.manifest_version = 2;
    recall.entries.clear();
    let (bytes, sig) = bytes_and_sig(&recall);

    match c.try_swap_allowlist_manifest(&bytes, &sig, &key_a(), &swap_verifier(&bytes)) {
        SwapOutcome::Swapped { intents } => {
            assert_eq!(intents.len(), 1);
            match &intents[0] {
                WarningIntent::ExtensionAutoDisabledByRecall(id) => {
                    assert_eq!(id.as_str(), "uBlock0@raymondhill.net");
                }
                other => panic!("expected Recall intent, got {other:?}"),
            }
        }
        other => panic!("expected Swapped, got {other:?}"),
    }
    let summary = c.installed_summary();
    assert_eq!(summary.len(), 1);
    assert_eq!(summary[0].state, InstalledState::Disabled);
}

#[test]
fn swap_constraint_tightening_auto_disables_with_distinct_intent() {
    let mut c = ExtensionController::new(seed_manifest());
    assert!(matches!(install_ublock(&mut c), InstallOutcome::Installed));
    let mut tighter = seed_manifest();
    tighter.manifest_version = 2;
    tighter.entries[0].version_constraint = VersionConstraint::AtLeast(Version::new(2, 0, 0));
    let (bytes, sig) = bytes_and_sig(&tighter);

    match c.try_swap_allowlist_manifest(&bytes, &sig, &key_a(), &swap_verifier(&bytes)) {
        SwapOutcome::Swapped { intents } => {
            assert_eq!(intents.len(), 1);
            assert!(matches!(
                &intents[0],
                WarningIntent::ExtensionAutoDisabledByUpdateConstraint(_)
            ));
        }
        other => panic!("expected Swapped, got {other:?}"),
    }
    assert_eq!(c.installed_summary()[0].state, InstalledState::Disabled);
}

#[test]
fn install_gates_on_active_manifest_snapshot() {
    let mut c = ExtensionController::new(seed_manifest());
    let pre = c.active_manifest().clone();
    let _ = c.try_swap_allowlist_manifest(b"junk", &sig_a(), &key_a(), &working_verifier());
    let post = c.active_manifest().clone();
    assert_eq!(pre.manifest_version, post.manifest_version);
    assert_eq!(pre.entries, post.entries);
    assert!(matches!(install_ublock(&mut c), InstallOutcome::Installed));
}

#[test]
fn remove_takes_extension_out_of_registry() {
    let mut c = ExtensionController::new(seed_manifest());
    assert!(matches!(install_ublock(&mut c), InstallOutcome::Installed));
    assert_eq!(c.installed_summary().len(), 1);
    assert!(c.remove(&ExtensionId::new("uBlock0@raymondhill.net")));
    assert!(c.installed_summary().is_empty());
    assert!(!c.remove(&ExtensionId::new("uBlock0@raymondhill.net")));
}

#[test]
fn strict_callers_must_not_reach_controller() {
    assert_eq!(block_for_mode(Mode::Strict), BlockerPolicy::AllBlocked);
}

/// The manifest's wire form: JSON with the hash in hex and the key in
/// base64.
fn manifest_json(m: &AllowlistManifest) -> Vec<u8> {
    let entries: Vec<String> = m
        .entries
        .iter()
        .map(|e| {
            format!(
                "{{\"extension_id\":{},\"version_constraint\":\"{}\",\"sha256_of_xpi\":\"{}\",\"signing_pubkey\":\"{}\"}}",
                serde_json::to_string(e.extension_id.as_str()).unwrap(),
                e.version_constraint.to_string(),
                e.sha256_of_xpi.to_hex(),
                b64_encode(&e.signing_pubkey.0),
            )
        })
        .collect();
    format!(
        "{{\"format_version\":{},\"manifest_version\":{},\"entries\":[{}]}}",
        m.format_version,
        m.manifest_version,
        entries.join(","),
    )
    .into_bytes()
}

#[test]
fn installed_state_not_exposed_through_controller_surface() {
    fn assert_not_serializable<T: serde::Serialize>(_t: &T) {}
    let _c = ExtensionController::new(seed_manifest());
    let dummy = String::from("anything serializable");
    assert_not_serializable(&dummy);
}

#[test]
fn active_manifest_is_last_accepted_swap_across_calls() {
    let mut c = ExtensionController::new(seed_manifest());
    assert_eq!(c.active_manifest(), &seed_manifest());

    let mut m3 = seed_manifest();
    m3.manifest_version = 3;
    let (bytes3, sig3) = bytes_and_sig(&m3);
    assert!(matches!(
        c.try_swap_allowlist_manifest(&bytes3, &sig3, &key_a(), &swap_verifier(&bytes3)),
        SwapOutcome::Swapped { .. }
    ));
    assert!(matches!(install_ublock(&mut c), InstallOutcome::Installed));
    assert!(c.remove(&ExtensionId::new("uBlock0@raymondhill.net")));

    let mut m2 = seed_manifest();
    m2.manifest_version = 2;
    let (bytes2, sig2) = bytes_and_sig(&m2);
    assert!(matches!(
        c.try_swap_allowlist_manifest(&bytes2, &sig2, &key_a(), &swap_verifier(&bytes2)),
        SwapOutcome::Rejected(WarningIntent::AllowlistManifestUpdateRejected)
    ));
    assert!(matches!(
        c.try_swap_allowlist_manifest(b"not json", &sig_a(), &key_a(), &working_verifier()),
        SwapOutcome::Rejected(WarningIntent::AllowlistManifestUpdateRejected)
    ));
    assert_eq!(c.active_manifest(), &m3);
}
