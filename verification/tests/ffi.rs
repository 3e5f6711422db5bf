use vnkey_core::ffi::{
    VnkeyActionKind, VnkeyConfig, VnkeyEngine, VnkeyInputMethod, VnkeyTonePlacement,
    VNKEY_INSERT_MAX,
};

fn default_config() -> VnkeyConfig {
    VnkeyConfig {
        method: VnkeyInputMethod::Telex,
        placement: VnkeyTonePlacement::Modern,
        enabled: true,
        auto_restore: true,
    }
}

#[test]
fn roundtrip_create_free() {
    let engine = VnkeyEngine::new(default_config());
    drop(engine);
}

#[test]
fn roundtrip_process() {
    let mut engine = VnkeyEngine::new(default_config());

    // Type 'h', 'a', 's' → expect an Insert("há") at some point.
    let mut saw_insert = false;
    for ch in "has".chars() {
        let result = engine.process(ch as u32, false);
        for i in 0..result.action_count as usize {
            if let VnkeyActionKind::Insert = result.actions[i].kind {
                saw_insert = true;
            }
        }
    }
    assert!(saw_insert, "expected at least one Insert action");
}

#[test]
fn invalid_codepoint_safety() {
    let mut engine = VnkeyEngine::new(default_config());
    // 0xD800 is a surrogate — not a valid Unicode scalar.
    let result = engine.process(0xD800, false);
    // Should return passthrough, not crash.
    assert_eq!(result.action_count, 0);
    let result = engine.process(0x110000, false);
    assert_eq!(result.action_count, 0);
}

#[test]
fn reset_clears_state() {
    let mut engine = VnkeyEngine::new(default_config());
    engine.process('h' as u32, false);
    engine.process('a' as u32, false);
    engine.reset();
    // After reset, processing 'h' again should not produce a backspace for old state.
    let result = engine.process('h' as u32, false);
    // First char 'h' alone should not produce a backspace > 1.
    for i in 0..result.action_count as usize {
        if let VnkeyActionKind::Backspace = result.actions[i].kind {
            assert!(result.actions[i].count <= 1);
        }
    }
}

#[test]
fn insert_text_is_utf8_and_nul_terminated() {
    let mut engine = VnkeyEngine::new(default_config());
    engine.process('h' as u32, false);
    engine.process('a' as u32, false);
    let result = engine.process('s' as u32, false);
    assert_eq!(result.action_count, 2);
    assert!(matches!(result.actions[0].kind, VnkeyActionKind::Backspace));
    assert_eq!(result.actions[0].count, 1);
    assert!(matches!(result.actions[1].kind, VnkeyActionKind::Insert));
    let bytes = "á".as_bytes();
    assert_eq!(&result.actions[1].text[..bytes.len()], bytes);
    assert!(result.actions[1].text[bytes.len()..].iter().all(|b| *b == 0));
    for slot in &result.actions[2..] {
        assert!(matches!(slot.kind, VnkeyActionKind::NoAction));
        assert_eq!(slot.count, 0);
    }
}

#[test]
fn restored_word_arrives_whole() {
    let mut engine = VnkeyEngine::new(VnkeyConfig { auto_restore: true, ..default_config() });
    // Fifteen two-byte vowels still make a syllable prefix; the 'q' after
    // them does not, so auto-restore types all sixteen raw keys back.
    for _ in 0..15 {
        engine.process('ê' as u32, false);
    }
    let result = engine.process('q' as u32, false);
    assert!(result.action_count >= 1);
    let insert = &result.actions[result.action_count as usize - 1];
    assert!(matches!(insert.kind, VnkeyActionKind::Insert));
    let word = format!("{}q", "ê".repeat(15));
    let bytes = word.as_bytes();
    assert!(bytes.len() < VNKEY_INSERT_MAX);
    assert_eq!(&insert.text[..bytes.len()], bytes);
    assert!(insert.text[bytes.len()..].iter().all(|b| *b == 0));
}

#[test]
fn boundary_flag_and_config() {
    let mut engine = VnkeyEngine::new(default_config());
    engine.process('h' as u32, false);
    let result = engine.process(' ' as u32, true);
    assert_eq!(result.action_count, 1);
    assert_eq!(result.actions[0].text[0], b' ');
    engine.set_config(VnkeyConfig { enabled: false, ..default_config() });
    let result = engine.process('a' as u32, false);
    assert_eq!(result.action_count, 0);
    engine.set_config(VnkeyConfig { method: VnkeyInputMethod::Vni, ..default_config() });
    engine.process('a' as u32, false);
    let result = engine.process('1' as u32, false);
    assert_eq!(result.action_count, 2);
}
