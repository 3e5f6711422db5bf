use vnkey_core::{Config, EditAction, Engine, InputMethod, Keystroke, TonePlacementMode};

fn engine() -> Engine {
    Engine::new(Config::default())
}

fn type_str(e: &mut Engine, s: &str) -> Vec<EditAction> {
    let mut all = vec![];
    for ch in s.chars() {
        all = e.process(Keystroke::char(ch));
    }
    all
}

#[test]
fn telex_viet() {
    let mut e = engine();
    // "vieetj" = viet with ê (ee) and nặng (j) tone → "việt"
    type_str(&mut e, "vieetj");
    assert_eq!(e.buffer.displayed, "việt");
}

#[test]
fn telex_viet_sharp() {
    let mut e = engine();
    // "vieets" = viêt (ê from ee) with sắc → "viết"
    type_str(&mut e, "vieets");
    assert_eq!(e.buffer.displayed, "viết");
}

#[test]
fn telex_ha_sharp() {
    let mut e = engine();
    type_str(&mut e, "has");
    assert_eq!(e.buffer.displayed, "há");
}

#[test]
fn reset_clears_buffer() {
    let mut e = engine();
    type_str(&mut e, "ha");
    e.reset();
    assert!(e.buffer.raw.is_empty());
    assert!(e.buffer.displayed.is_empty());
}

#[test]
fn disabled_engine_passthrough() {
    let mut e = Engine::new(Config { enabled: false, ..Default::default() });
    let actions = e.process(Keystroke::char('a'));
    assert!(actions.is_empty());
}

#[test]
fn default_config_values() {
    let c = Config::default();
    assert_eq!(c.method, InputMethod::Telex);
    assert_eq!(c.placement, TonePlacementMode::Modern);
    assert!(c.enabled);
    assert!(c.auto_restore);
}

#[test]
fn word_boundary_commits_and_passes_through() {
    let mut e = engine();
    type_str(&mut e, "has");
    let actions = e.process(Keystroke::char(' '));
    assert_eq!(actions, vec![EditAction::Insert(" ".into())]);
    assert!(e.buffer.raw.is_empty());
    assert!(e.buffer.displayed.is_empty());
}

#[test]
fn shell_boundary_commits() {
    let mut e = engine();
    type_str(&mut e, "ha");
    let actions = e.process(Keystroke { ch: '\t', is_boundary: true });
    assert_eq!(actions, vec![EditAction::Insert("\t".into())]);
    let mut e = engine();
    type_str(&mut e, "ha");
    let actions = e.process(Keystroke { ch: '\0', is_boundary: true });
    assert!(actions.is_empty());
    assert!(e.buffer.displayed.is_empty());
}

#[test]
fn keystroke_actions_sequence() {
    let mut e = engine();
    assert_eq!(e.process(Keystroke::char('h')), vec![EditAction::Insert("h".into())]);
    assert_eq!(e.process(Keystroke::char('a')), vec![EditAction::Insert("a".into())]);
    assert_eq!(
        e.process(Keystroke::char('s')),
        vec![EditAction::Backspace(1), EditAction::Insert("á".into())]
    );
    assert_eq!(e.current_displayed(), "há");
}

#[test]
fn disabled_engine_keeps_state() {
    let mut e = engine();
    type_str(&mut e, "ha");
    e.set_config(Config { enabled: false, ..Default::default() });
    assert!(e.process(Keystroke::char('s')).is_empty());
    assert_eq!(e.buffer.raw, "ha");
    assert_eq!(e.current_displayed(), "ha");
}

#[test]
fn vni_engine() {
    let mut e = Engine::new(Config { method: InputMethod::Vni, ..Default::default() });
    type_str(&mut e, "vie6t5");
    assert_eq!(e.current_displayed(), "việt");
}

#[test]
fn classic_placement_engine() {
    let mut e = Engine::new(Config { placement: TonePlacementMode::Classic, ..Default::default() });
    type_str(&mut e, "hoaf");
    assert_eq!(e.current_displayed(), "hòa");
    let mut e = engine();
    type_str(&mut e, "hoaf");
    assert_eq!(e.current_displayed(), "hoà");
}

#[test]
fn uppercase_keys_are_lowercased() {
    let mut e = engine();
    type_str(&mut e, "HAS");
    assert_eq!(e.current_displayed(), "há");
}

/// Handles a key as the shell does: performs the edit actions, or types the
/// key itself when there are none.
fn shell(text: &mut Vec<char>, key: char, actions: &[EditAction]) {
    if actions.is_empty() {
        text.push(key);
    }
    for a in actions {
        match a {
            EditAction::Backspace(n) => {
                let keep = text.len().saturating_sub(*n as usize);
                text.truncate(keep);
            }
            EditAction::Insert(s) => text.extend(s.chars()),
        }
    }
}

#[test]
fn screen_shows_composed_word() {
    for (method, keys, word) in [
        (InputMethod::Telex, "nguwowif", "người"),
        (InputMethod::Telex, "truwowngf", "trường"),
        (InputMethod::Vni, "duong72", "dường"),
    ] {
        let mut e = Engine::new(Config { method, ..Default::default() });
        let mut screen: Vec<char> = Vec::new();
        for ch in keys.chars() {
            let actions = e.process(Keystroke::char(ch));
            shell(&mut screen, ch, &actions);
            assert_eq!(screen.iter().collect::<String>(), e.current_displayed());
        }
        assert_eq!(screen.iter().collect::<String>(), word);
    }
}

#[test]
fn consumed_key_is_swallowed() {
    let mut e = engine();
    type_str(&mut e, "ha");
    // 'z' sets the flat tone the word already has: nothing changes on screen,
    // but the key is consumed.
    assert_eq!(e.process(Keystroke::char('z')), vec![EditAction::Insert(String::new())]);
    assert_eq!(e.current_displayed(), "ha");
    let mut e = engine();
    type_str(&mut e, "has");
    // "hass" keeps the tone key at the end: still "há" on screen.
    assert_eq!(e.process(Keystroke::char('s')), vec![EditAction::Insert(String::new())]);
    assert_eq!(e.current_displayed(), "há");
}

#[test]
fn screen_and_word_stay_in_step() {
    for (method, keys) in [
        (InputMethod::Telex, "hazs"),
        (InputMethod::Telex, "hassf"),
        (InputMethod::Telex, "test tiesng"),
        (InputMethod::Telex, "aiaiaiaiaiaiaiaiaiaiai"),
        (InputMethod::Vni, "ha11a2 xq"),
    ] {
        let mut e = Engine::new(Config { method, ..Default::default() });
        let mut screen: Vec<char> = Vec::new();
        for ch in keys.chars() {
            let actions = e.process(Keystroke::char(ch));
            shell(&mut screen, ch, &actions);
            let shown: String = screen.iter().collect();
            assert!(shown.ends_with(&e.current_displayed()), "{shown} / {}", e.current_displayed());
            assert!(e.buffer.raw.chars().count() <= 16);
        }
    }
}

#[test]
fn haz_then_s_shows_ha_sharp() {
    let mut e = engine();
    let mut screen: Vec<char> = Vec::new();
    for ch in "hazs".chars() {
        let actions = e.process(Keystroke::char(ch));
        shell(&mut screen, ch, &actions);
    }
    assert_eq!(screen.iter().collect::<String>(), "há");
}

#[test]
fn long_word_is_committed() {
    let mut e = engine();
    for _ in 0..16 {
        e.process(Keystroke::char('i'));
    }
    assert_eq!(e.buffer.raw.chars().count(), 16);
    // The seventeenth key starts a new word.
    assert_eq!(e.process(Keystroke::char('i')), vec![EditAction::Insert("i".into())]);
    assert_eq!(e.buffer.raw, "i");
    assert_eq!(e.current_displayed(), "i");
}

#[test]
fn second_boundary_changes_nothing() {
    let mut e = engine();
    type_str(&mut e, "has");
    let first = e.process(Keystroke::char(' '));
    assert_eq!(first, vec![EditAction::Insert(" ".into())]);
    let second = e.process(Keystroke::char(' '));
    assert_eq!(second, first);
    assert!(e.buffer.raw.is_empty());
    assert!(e.buffer.displayed.is_empty());
}
