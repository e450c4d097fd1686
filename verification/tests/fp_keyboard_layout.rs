use devbrowse::config::schema::Mode;
use devbrowse::fingerprint::gecko::keyboard_layout::{KeyboardKeyEntry, KeyboardLayoutOverride, KeyboardLayoutPolicy, KeyboardLayoutSurface, us_qwerty_layout};
use devbrowse::fingerprint::interface::{FingerprintOverride, JsContext, OverrideContext, WebIdlSurface};

#[test]
fn us_qwerty_layout_covers_alphabet_digits_and_punctuation() {
    assert_eq!(us_qwerty_layout().len(), 48);
    for c in 'a'..='z' {
        let code = format!("Key{}", c.to_ascii_uppercase());
        let entry = us_qwerty_layout()
            .iter()
            .find(|e| e.code == code.as_str())
            .unwrap_or_else(|| panic!("missing alphabet entry: {}", code));
        assert_eq!(entry.value, c.to_string().as_str());
    }
    for d in 0..=9 {
        let code = format!("Digit{}", d);
        let entry = us_qwerty_layout()
            .iter()
            .find(|e| e.code == code.as_str())
            .unwrap_or_else(|| panic!("missing digit entry: {}", code));
        assert_eq!(entry.value, d.to_string().as_str());
    }
}

#[test]
fn us_qwerty_codes_are_unique() {
    let mut codes: Vec<&str> = us_qwerty_layout().iter().map(|e| e.code).collect();
    codes.sort();
    let len_before = codes.len();
    codes.dedup();
    assert_eq!(
        len_before,
        codes.len(),
        "duplicate code in us_qwerty_layout()"
    );
}

#[test]
fn keyboard_layout_for_mode_is_mode_invariant() {
    let s = KeyboardLayoutPolicy::for_mode(Mode::Standard);
    let t = KeyboardLayoutPolicy::for_mode(Mode::Strict);
    assert_eq!(s, t);
    match s {
        KeyboardLayoutPolicy::Locked(map) => {
            assert!((*map == *us_qwerty_layout()));
        }
    }
}

#[test]
fn surface_all_covers_get_layout_and_lock() {
    assert_eq!(KeyboardLayoutSurface::all().len(), 2);
}

#[test]
fn override_reports_keyboard_layout_surface() {
    assert_eq!(
        KeyboardLayoutOverride::new(Mode::Strict).surface(),
        WebIdlSurface::KeyboardLayoutMap,
    );
    assert_eq!(
        KeyboardLayoutOverride::new(Mode::Standard).surface(),
        WebIdlSurface::KeyboardLayoutMap,
    );
}

#[test]
fn keyboard_layout_override_install_is_context_inert() {
    let pid = uuid::Uuid::parse_str("00000000-0000-4000-8000-000000035130").unwrap();
    for mode in [Mode::Standard, Mode::Strict] {
        let ovr = KeyboardLayoutOverride::new(mode);
        let policy_before = ovr.policy();
        for jsc in JsContext::all() {
            let ctx = OverrideContext::new(mode, pid, *jsc);
            ovr.install(&ctx);
        }
        assert_eq!(ovr.policy(), policy_before);
    }
}

#[test]
fn keyboard_layout_types_are_send_sync() {
    fn assert_send_sync<T: Send + Sync>() {}
    assert_send_sync::<KeyboardLayoutOverride>();
    assert_send_sync::<KeyboardLayoutPolicy>();
    assert_send_sync::<KeyboardLayoutSurface>();
    assert_send_sync::<KeyboardKeyEntry>();
}
