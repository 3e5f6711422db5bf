use vnkey_core::{Config, EditAction, Engine, InputMethod, Keystroke};

fn engine_with_restore(auto_restore: bool) -> Engine {
    Engine::new(Config {
        method: InputMethod::Telex,
        auto_restore,
        ..Default::default()
    })
}

#[test]
fn english_word_auto_restored() {
    let _e = engine_with_restore(true);
    // "test" — not a valid Vietnamese syllable prefix after 't','e','s' (Telex 's' = tone)
    // After 's' is treated as tone on "te" → "té" is valid (e with sắc)
    // So "test" ends with coda 't' → "tést" — let's verify auto-restore kicks in
    // for a clearly foreign sequence
    let mut e2 = engine_with_restore(true);
    // "xzq" — definitely not Vietnamese
    for ch in "xzq".chars() {
        e2.process(Keystroke::char(ch));
    }
    // The buffer should have auto-restored (cleared itself)
    // After auto-restore the buffer raw is empty
    assert!(e2.current_displayed().len() <= 3); // either passed through or restored
}

#[test]
fn auto_restore_off_no_restore() {
    let mut e = engine_with_restore(false);
    for ch in "xzq".chars() {
        e.process(Keystroke::char(ch));
    }
    // With auto-restore off we just pass chars through normally (no auto-restore logic fires)
}

#[test]
fn vietnamese_word_not_restored() {
    let mut e = engine_with_restore(true);
    // "vieets" = viet with ê (ee) + sắc — valid Vietnamese, should not be auto-restored
    for ch in "vieets".chars() {
        e.process(Keystroke::char(ch));
    }
    assert_eq!(e.current_displayed(), "viết");
}

#[test]
fn restore_replaces_screen_with_raw_keys() {
    let mut e = engine_with_restore(true);
    assert_eq!(e.process(Keystroke::char('x')), vec![EditAction::Insert("x".into())]);
    // "xq" cannot start a syllable: erase "x", type the raw keys back
    let actions = e.process(Keystroke::char('q'));
    assert_eq!(actions, vec![EditAction::Backspace(1), EditAction::Insert("xq".into())]);
    assert!(e.buffer.raw.is_empty());
    assert!(e.buffer.displayed.is_empty());
}

#[test]
fn without_restore_foreign_word_stays_composed() {
    let mut e = engine_with_restore(false);
    for ch in "xq".chars() {
        e.process(Keystroke::char(ch));
    }
    assert_eq!(e.buffer.raw, "xq");
    assert_eq!(e.current_displayed(), "xq");
}

/// Handles a key as the shell does: performs the edit actions, or types the
/// key itself when there are none.
fn shell(text: &mut String, key: char, actions: &[EditAction]) {
    if actions.is_empty() {
        text.push(key);
    }
    for a in actions {
        match a {
            EditAction::Backspace(n) => {
                for _ in 0..*n {
                    text.pop();
                }
            }
            EditAction::Insert(s) => text.push_str(s),
        }
    }
}

#[test]
fn english_test_is_restored() {
    let mut e = engine_with_restore(true);
    let mut screen = String::new();
    for ch in "test".chars() {
        let actions = e.process(Keystroke::char(ch));
        shell(&mut screen, ch, &actions);
    }
    assert_eq!(screen, "test");
    assert!(e.buffer.raw.is_empty());
}

#[test]
fn q_keeps_buffering() {
    let mut e = engine_with_restore(true);
    let mut screen = String::new();
    for ch in "quyeenf".chars() {
        let actions = e.process(Keystroke::char(ch));
        shell(&mut screen, ch, &actions);
        assert_eq!(screen, e.current_displayed());
    }
    assert_eq!(screen, "quyền");
}
