use devbrowse::fingerprint::farbling::{FarblingEpoch, FarblingProfile, FarblingSeed, FarblingStreamKey, FarblingStreamKeyV2, FarblingSurface, farble_canvas_byte, farble_canvas_byte_with_epoch, farble_webgl_int, farble_webgl_int_with_epoch, no_farbling_epoch, standard_farbling_profile, stream_byte, stream_byte_v2};
use sha2::{Digest, Sha256};

fn seed_a() -> FarblingSeed {
    [
        0x01, 0x23, 0x45, 0x67, 0x89, 0xab, 0xcd, 0xef, 0x10, 0x32, 0x54, 0x76, 0x98, 0xba,
        0xdc, 0xfe,
    ]
}

fn seed_b() -> FarblingSeed {
    [0xff; 16]
}

#[test]
fn standard_farbling_profile_locks_v1_values() {
    assert_eq!(
        standard_farbling_profile().label,
        "devbrowse-farbling-standard-v1"
    );
    assert_eq!(standard_farbling_profile().canvas_lsb_amplitude, 1);
    assert_eq!(f32::from_bits(standard_farbling_profile().audio_quantization_eps_bits), 1e-5);
    assert_eq!(standard_farbling_profile().webgl_numeric_amplitude, 1);
}

#[test]
fn farbling_surface_tags_are_pairwise_distinct() {
    let tags = [
        FarblingSurface::Canvas.tag(),
        FarblingSurface::WebGlNumeric.tag(),
        FarblingSurface::Audio.tag(),
        FarblingSurface::DomRect.tag(),
        FarblingSurface::TextMetrics.tag(),
    ];
    for i in 0..tags.len() {
        for j in (i + 1)..tags.len() {
            assert_ne!(tags[i], tags[j], "duplicate surface tag");
        }
    }
}

#[test]
fn farble_canvas_byte_is_deterministic() {
    let seed = seed_a();
    for i in 0..100 {
        let a = farble_canvas_byte(&seed, i, 1);
        let b = farble_canvas_byte(&seed, i, 1);
        assert_eq!(a, b, "non-deterministic at index {}", i);
    }
}

#[test]
fn farble_canvas_byte_respects_amplitude_bound() {
    let seed = seed_a();
    for amp in [1u8, 2, 5, 8, 32, 127] {
        for i in 0..1000_u64 {
            let v = farble_canvas_byte(&seed, i, amp);
            let amp_i = amp as i8;
            assert!(
                v >= -amp_i && v <= amp_i,
                "amp={} i={} v={} out of [-{}, +{}]",
                amp,
                i,
                v,
                amp,
                amp,
            );
        }
    }
}

#[test]
fn farble_canvas_byte_amplitude_zero_returns_zero() {
    let seed = seed_a();
    for i in 0..50 {
        assert_eq!(farble_canvas_byte(&seed, i, 0), 0);
    }
}

#[test]
fn farble_canvas_byte_differs_across_seeds() {
    let a = seed_a();
    let b = seed_b();
    let mut agree = 0;
    for i in 0..200_u64 {
        if farble_canvas_byte(&a, i, 1) == farble_canvas_byte(&b, i, 1) {
            agree += 1;
        }
    }
    assert!(
        agree < 100,
        "expected most indices to disagree across seeds, got {}/200 agreement",
        agree,
    );
}

#[test]
fn farble_canvas_byte_amplitude_one_uses_three_buckets() {
    let seed = seed_a();
    let mut seen = [false; 3];
    for i in 0..300_u64 {
        let v = farble_canvas_byte(&seed, i, 1);
        seen[(v + 1) as usize] = true;
    }
    assert!(seen[0] && seen[1] && seen[2], "buckets seen: {:?}", seen);
}

#[test]
fn farble_audio_sample_is_deterministic() {
    let seed = seed_a();
    for i in 0..100 {
        let a = farble_audio_sample(&seed, i, 1e-5);
        let b = farble_audio_sample(&seed, i, 1e-5);
        assert_eq!(a.to_bits(), b.to_bits());
    }
}

#[test]
fn farble_audio_sample_respects_eps_bound() {
    let seed = seed_a();
    for eps in [1e-7_f32, 1e-5, 1e-3, 1.0] {
        for i in 0..500_u64 {
            let v = farble_audio_sample(&seed, i, eps);
            assert!(
                v >= -eps && v <= eps,
                "eps={} i={} v={} out of [-eps, +eps]",
                eps,
                i,
                v,
            );
        }
    }
}

#[test]
fn farble_audio_sample_eps_zero_returns_zero() {
    let seed = seed_a();
    for i in 0..50 {
        assert_eq!(farble_audio_sample(&seed, i, 0.0), 0.0);
    }
}

#[test]
fn farble_audio_sample_handles_non_finite_or_negative_eps() {
    let seed = seed_a();
    for i in 0..50 {
        assert_eq!(farble_audio_sample(&seed, i, f32::NAN), 0.0);
        assert_eq!(farble_audio_sample(&seed, i, f32::INFINITY), 0.0);
        assert_eq!(farble_audio_sample(&seed, i, f32::NEG_INFINITY), 0.0);
        assert_eq!(farble_audio_sample(&seed, i, -1e-5), 0.0);
        assert_eq!(farble_audio_sample(&seed, i, -1.0), 0.0);
    }
}

#[test]
fn farble_webgl_int_is_deterministic() {
    let seed = seed_a();
    for i in 0..100 {
        let a = farble_webgl_int(&seed, i, 1);
        let b = farble_webgl_int(&seed, i, 1);
        assert_eq!(a, b);
    }
}

#[test]
fn farble_webgl_int_respects_amplitude_bound() {
    let seed = seed_a();
    for amp in [1_i32, 2, 5, 16] {
        for i in 0..500_u64 {
            let v = farble_webgl_int(&seed, i, amp);
            assert!(
                v >= -amp && v <= amp,
                "amp={} i={} v={} out of [-{}, +{}]",
                amp,
                i,
                v,
                amp,
                amp,
            );
        }
    }
}

#[test]
fn farble_webgl_int_rejects_negative_or_overflow_amplitude() {
    let seed = seed_a();
    for i in 0..50_u64 {
        assert_eq!(farble_webgl_int(&seed, i, 0), 0);
        assert_eq!(farble_webgl_int(&seed, i, -1), 0);
        assert_eq!(farble_webgl_int(&seed, i, -1000), 0);
        assert_eq!(farble_webgl_int(&seed, i, i32::MIN), 0);
        assert_eq!(farble_webgl_int(&seed, i, i32::MAX), 0);
        assert_eq!(farble_webgl_int(&seed, i, i32::MAX / 2), 0);
        let safe_amp = i32::MAX / 2 - 1;
        let v = farble_webgl_int(&seed, i, safe_amp);
        assert!(v.abs() < i32::MAX / 2);
    }
}

#[test]
fn farble_streams_are_independent_across_surfaces() {
    let seed = seed_a();
    let mut disagree = 0;
    for i in 0..200_u64 {
        let c = stream_byte(&seed, FarblingSurface::Canvas, i);
        let w = stream_byte(&seed, FarblingSurface::WebGlNumeric, i);
        let a = stream_byte(&seed, FarblingSurface::Audio, i);
        if c != w {
            disagree += 1;
        }
        if c != a {
            disagree += 1;
        }
        if w != a {
            disagree += 1;
        }
    }
    assert!(
        disagree > 500,
        "expected cross-surface independence, got {}/600 disagreement",
        disagree,
    );
}

#[test]
fn farble_canvas_byte_known_answer_v1() {
    let seed = seed_a();
    let mut h = Sha256::new();
    h.update(b"PB-FARBLE-V1");
    h.update(seed);
    h.update([0x01_u8]);
    h.update(42_u64.to_le_bytes());
    let expected_byte = h.finalize()[0];
    let expected_v = ((expected_byte as u16 % 3) as i16 - 1) as i8;
    assert_eq!(farble_canvas_byte(&seed, 42, 1), expected_v);
}

#[test]
fn farbling_types_are_send_sync() {
    fn assert_send_sync<T: Send + Sync>() {}
    assert_send_sync::<FarblingProfile>();
    assert_send_sync::<FarblingSurface>();
    assert_send_sync::<FarblingStreamKey>();
    assert_send_sync::<FarblingStreamKeyV2>();
}

fn epoch_a() -> FarblingEpoch {
    [
        0xa1, 0xa2, 0xa3, 0xa4, 0xa5, 0xa6, 0xa7, 0xa8, 0xa9, 0xaa, 0xab, 0xac, 0xad, 0xae,
        0xaf, 0xb0,
    ]
}

fn epoch_b() -> FarblingEpoch {
    [
        0xc0, 0xc1, 0xc2, 0xc3, 0xc4, 0xc5, 0xc6, 0xc7, 0xc8, 0xc9, 0xca, 0xcb, 0xcc, 0xcd,
        0xce, 0xcf,
    ]
}

#[test]
fn v2_is_disjoint_from_v1_by_domain_prefix() {
    let seed = seed_a();
    let mut equal_count = 0;
    for i in 0..200 {
        let v1 = farble_canvas_byte(&seed, i, 8);
        let v2 = farble_canvas_byte_with_epoch(&no_farbling_epoch(), &seed, i, 8);
        if v1 == v2 {
            equal_count += 1;
        }
    }
    assert!(
        equal_count < 40,
        "v1 and v2 outputs should be disjoint streams; saw {}/200 agreement",
        equal_count,
    );
}

#[test]
fn v2_rotates_per_epoch() {
    let seed = seed_a();
    let ea = epoch_a();
    let eb = epoch_b();
    let mut equal_count = 0;
    for i in 0..200 {
        let va = farble_canvas_byte_with_epoch(&ea, &seed, i, 8);
        let vb = farble_canvas_byte_with_epoch(&eb, &seed, i, 8);
        if va == vb {
            equal_count += 1;
        }
    }
    assert!(
        equal_count < 40,
        "v2 epochs should rotate the stream; saw {}/200 agreement",
        equal_count,
    );
}

#[test]
fn v2_is_deterministic_for_fixed_epoch() {
    let seed = seed_a();
    let epoch = epoch_a();
    for i in 0..100 {
        let a = farble_canvas_byte_with_epoch(&epoch, &seed, i, 4);
        let b = farble_canvas_byte_with_epoch(&epoch, &seed, i, 4);
        assert_eq!(a, b);
    }
}

#[test]
fn v2_audio_handles_non_finite_eps() {
    let seed = seed_a();
    let epoch = epoch_a();
    for i in 0..30 {
        assert_eq!(
            farble_audio_sample_with_epoch(&epoch, &seed, i, f32::NAN),
            0.0
        );
        assert_eq!(farble_audio_sample_with_epoch(&epoch, &seed, i, -1e-5), 0.0);
    }
}

#[test]
fn v2_webgl_rejects_overflow_amplitude() {
    let seed = seed_a();
    let epoch = epoch_a();
    for i in 0..30_u64 {
        assert_eq!(farble_webgl_int_with_epoch(&epoch, &seed, i, 0), 0);
        assert_eq!(farble_webgl_int_with_epoch(&epoch, &seed, i, -1), 0);
        assert_eq!(farble_webgl_int_with_epoch(&epoch, &seed, i, i32::MAX), 0);
    }
}

#[test]
fn stream_key_v1_byte_at_matches_stream_byte() {
    let seed = seed_a();
    for surface in [
        FarblingSurface::Canvas,
        FarblingSurface::WebGlNumeric,
        FarblingSurface::Audio,
    ] {
        let key = FarblingStreamKey::new(&seed, surface);
        for i in 0..200_u64 {
            assert_eq!(
                key.byte_at(i),
                stream_byte(&seed, surface, i),
                "surface {:?} index {}",
                surface,
                i,
            );
        }
    }
}

#[test]
fn stream_key_v2_byte_at_matches_stream_byte_v2() {
    let seed = seed_a();
    let epoch = epoch_a();
    for surface in [
        FarblingSurface::Canvas,
        FarblingSurface::WebGlNumeric,
        FarblingSurface::Audio,
    ] {
        let key = FarblingStreamKeyV2::new(&epoch, &seed, surface);
        for i in 0..200_u64 {
            assert_eq!(
                key.byte_at(i),
                stream_byte_v2(&epoch, &seed, surface, i),
                "surface {:?} index {}",
                surface,
                i,
            );
        }
    }
}

/// Maps the audio stream byte to `[-eps, +eps]`; non-finite or
/// non-positive `eps` gives 0.
fn farble_audio_sample(seed: &FarblingSeed, sample_index: u64, eps: f32) -> f32 {
    if !eps.is_finite() || eps <= 0.0 {
        return 0.0;
    }
    let b = stream_byte(seed, FarblingSurface::Audio, sample_index);
    let unit = (b as f32) * (2.0 / 255.0) - 1.0;
    unit * eps
}

fn farble_audio_sample_with_epoch(
    epoch: &FarblingEpoch,
    seed: &FarblingSeed,
    sample_index: u64,
    eps: f32,
) -> f32 {
    if !eps.is_finite() || eps <= 0.0 {
        return 0.0;
    }
    let b = stream_byte_v2(epoch, seed, FarblingSurface::Audio, sample_index);
    let unit = (b as f32) * (2.0 / 255.0) - 1.0;
    unit * eps
}
