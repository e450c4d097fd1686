use devbrowse::config::permissions::is_owner_only;
use devbrowse::config::loader::{validate, ConfigError};
use devbrowse::config::schema::{Config, DohProvider, Mode};
use devbrowse::extensions::allowlist::Sha256Hash;
use devbrowse::extensions::encoding::{b64_decode, b64_encode};
use devbrowse::extensions::version::{Version, VersionConstraint};
use devbrowse::fingerprint::farbling::{
    farble_canvas_byte, farble_canvas_byte_with_epoch, farble_webgl_int, stream_byte,
    FarblingSeed, FarblingStreamKey, FarblingSurface,
};
use devbrowse::fingerprint::gecko::dom_rect::{
    dom_rect_coord_offset, farble_dom_rect_offset, farble_text_metric_offset, text_metric_offset,
    DomRectPolicy,
};
use devbrowse::fingerprint::gecko::timers::{standard_timer_profile, strict_timer_profile};
use devbrowse::fingerprint::gecko::timezone::{asia_tokyo, TimezonePolicy};
use sha2::{Digest, Sha256};

fn seed_c() -> FarblingSeed {
    [0x5a; 16]
}

#[test]
fn sha256_hash_of_matches_known_digest() {
    let h = Sha256Hash::of(b"abc");
    assert_eq!(
        h.to_hex(),
        "ba7816bf8f01cfea414140de5dae2223b00361a396177a9cb410ff61f20015ad"
    );
}

#[test]
fn sha256_hex_round_trips_for_several_inputs() {
    for input in [&b""[..], b"a", b"DevBrowse", &[0xffu8; 100][..]] {
        let h = Sha256Hash::of(input);
        let hex = h.to_hex();
        assert_eq!(hex.len(), 64);
        assert!(hex.chars().all(|c| c.is_ascii_digit() || ('a'..='f').contains(&c)));
        assert_eq!(Sha256Hash::from_hex(&hex).unwrap(), h);
        assert_eq!(Sha256Hash::from_hex(&hex.to_uppercase()).unwrap(), h);
    }
}

#[test]
fn b64_encode_known_answers() {
    assert_eq!(b64_encode(b""), "");
    assert_eq!(b64_encode(b"f"), "Zg");
    assert_eq!(b64_encode(b"fo"), "Zm8");
    assert_eq!(b64_encode(b"foo"), "Zm9v");
    assert_eq!(b64_encode(b"hello"), "aGVsbG8");
    assert_eq!(b64_encode(&[0xfb, 0xff]), "-_8");
}

#[test]
fn b64_round_trips_for_every_length_up_to_ten() {
    let data: Vec<u8> = (0u8..10).map(|i| i.wrapping_mul(37).wrapping_add(200)).collect();
    for n in 0..=data.len() {
        let enc = b64_encode(&data[..n]);
        assert_eq!(b64_decode(&enc).unwrap(), data[..n].to_vec());
    }
}

#[test]
fn b64_decode_rejects_padding_and_foreign_bytes() {
    assert!(b64_decode("Zg==").is_err());
    assert!(b64_decode("Zm9v+").is_err());
    assert!(b64_decode("a b").is_err());
}

#[test]
fn version_constraint_text_round_trips() {
    for c in [
        VersionConstraint::Exact(Version::new(0, 0, 0)),
        VersionConstraint::Exact(Version::new(4294967295, 10, 9)),
        VersionConstraint::AtLeast(Version::new(1, 50, 0)),
        VersionConstraint::AtLeast(Version::new(12, 345, 6789)),
    ] {
        let s = c.to_string();
        assert_eq!(VersionConstraint::parse(&s).unwrap(), c);
    }
    assert_eq!(VersionConstraint::AtLeast(Version::new(1, 50, 0)).to_string(), ">=1.50.0");
}

#[test]
fn version_text_round_trips() {
    for v in [Version::new(0, 0, 0), Version::new(1, 2, 3), Version::new(4294967295, 0, 7)] {
        assert_eq!(Version::parse(&v.to_string()).unwrap(), v);
    }
    assert_eq!(Version::new(10, 0, 1).to_string(), "10.0.1");
}

#[test]
fn quantize_floors_within_one_quantum() {
    for p in [standard_timer_profile(), strict_timer_profile()] {
        let q = p.js_quantum_ns;
        let mut prev = 0u64;
        for t in [0u64, 1, q - 1, q, q + 1, 7 * q + 3, u64::MAX] {
            let f = p.quantize_js_ns(t);
            assert!(f <= t);
            assert!(t - f < q);
            assert_eq!(f % q, 0);
            assert_eq!(p.quantize_js_ns(f), f);
            assert!(f >= prev);
            prev = f;
        }
        assert_eq!(p.quantize_gpu_ns(5_999_999), 4_000_000);
    }
}

#[test]
fn farble_offsets_stay_within_amplitude_for_every_stream_byte() {
    let seed = seed_c();
    for amp in [1u8, 3, 64, 127] {
        for i in 0..300u64 {
            let v = farble_canvas_byte(&seed, i, amp) as i16;
            assert!(-(amp as i16) <= v && v <= amp as i16);
            let w = farble_webgl_int(&seed, i, amp as i32);
            assert!(-(amp as i32) <= w && w <= amp as i32);
        }
    }
}

#[test]
fn canvas_offset_is_the_projected_stream_byte() {
    let seed = seed_c();
    for i in 0..50u64 {
        let b = stream_byte(&seed, FarblingSurface::Canvas, i);
        assert_eq!(farble_canvas_byte(&seed, i, 2), (b % 5) as i8 - 2);
        let mut h = Sha256::new();
        h.update(b"PB-FARBLE-V1");
        h.update(seed);
        h.update([0x01u8]);
        h.update(i.to_le_bytes());
        assert_eq!(b, h.finalize()[0]);
    }
}

#[test]
fn epoch_stream_matches_its_hash_chain() {
    let seed = seed_c();
    let epoch = [0x3cu8; 16];
    for i in 0..20u64 {
        let mut h = Sha256::new();
        h.update(b"PB-FARBLE-V2");
        h.update(epoch);
        h.update(seed);
        h.update([0x01u8]);
        h.update(i.to_le_bytes());
        let b = h.finalize()[0];
        assert_eq!(farble_canvas_byte_with_epoch(&epoch, &seed, i, 1), (b % 3) as i8 - 1);
    }
}

#[test]
fn stream_key_matches_stream_byte_for_geometry_surfaces() {
    let seed = seed_c();
    for surface in [FarblingSurface::DomRect, FarblingSurface::TextMetrics] {
        let key = FarblingStreamKey::new(&seed, surface);
        for i in 0..100u64 {
            assert_eq!(key.byte_at(i), stream_byte(&seed, surface, i));
        }
    }
}

#[test]
fn geometry_offsets_follow_policy() {
    let seed = seed_c();
    for i in 0..100u64 {
        assert_eq!(dom_rect_coord_offset(DomRectPolicy::IntegerSnapOnly, &seed, i), 0);
        assert_eq!(text_metric_offset(DomRectPolicy::IntegerSnapOnly, &seed, i), 0);
        assert_eq!(
            dom_rect_coord_offset(DomRectPolicy::SnapAndFarble, &seed, i),
            farble_dom_rect_offset(&seed, i, 1)
        );
        assert_eq!(
            text_metric_offset(DomRectPolicy::SnapAndFarble, &seed, i),
            farble_text_metric_offset(&seed, i, 1)
        );
        assert_eq!(farble_dom_rect_offset(&seed, i, 0), 0);
    }
}

#[test]
fn strict_timezone_ignores_every_user_selection() {
    let with = TimezonePolicy::for_mode_with_user_selection(Mode::Strict, Some(asia_tokyo()));
    let without = TimezonePolicy::for_mode_with_user_selection(Mode::Strict, None);
    assert_eq!(with, without);
    assert_eq!(with, TimezonePolicy::for_mode(Mode::Strict));
    assert_eq!(
        TimezonePolicy::for_mode_with_user_selection(Mode::Standard, None),
        TimezonePolicy::for_mode(Mode::Standard)
    );
}

#[test]
fn validation_message_quotes_the_rejected_url() {
    let mut cfg = Config::default();
    cfg.network.provider = DohProvider::Custom { url: "http://insecure.example/dns-\"query\"".into() };
    match validate(&cfg) {
        Err(ConfigError::Validation(m)) => assert_eq!(
            m,
            "network.provider custom URL must be https://, got \"http://insecure.example/dns-\\\"query\\\"\""
        ),
        other => panic!("expected Validation error, got {other:?}"),
    }
}

#[test]
fn validation_reports_the_schema_version_first() {
    let mut cfg = Config::default();
    cfg.version = 2;
    cfg.network.provider = DohProvider::Custom { url: "http://x".into() };
    match validate(&cfg) {
        Err(ConfigError::SchemaVersion { found: 2, expected: 1 }) => {}
        other => panic!("expected SchemaVersion error, got {other:?}"),
    }
}

#[test]
fn owner_only_rule_rejects_group_and_world_bits() {
    assert!(is_owner_only(0o600));
    assert!(is_owner_only(0o700));
    assert!(!is_owner_only(0o660));
    assert!(!is_owner_only(0o604));
    assert!(!is_owner_only(0o644));
}
