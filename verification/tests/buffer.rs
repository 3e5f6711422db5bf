use vnkey_core::buffer::CompositionBuffer;
use vnkey_core::EditAction;

#[test]
fn diff_no_change() {
    let mut buf = CompositionBuffer { raw: String::new(), displayed: "ha".into() };
    let actions = buf.diff_to("ha");
    assert!(actions.is_empty());
}

#[test]
fn diff_extend() {
    // "h" → "hà": common prefix "h" (1 char), delete 0, insert "à"
    let mut buf = CompositionBuffer { raw: String::new(), displayed: "h".into() };
    let actions = buf.diff_to("hà");
    assert_eq!(actions, vec![EditAction::Insert("à".into())]);
}

#[test]
fn diff_replace() {
    // "ha" → "há": common prefix "h" (1 char), delete 1 ('a'), insert 'á'
    let mut buf = CompositionBuffer { raw: String::new(), displayed: "ha".into() };
    let actions = buf.diff_to("há");
    assert_eq!(actions, vec![EditAction::Backspace(1), EditAction::Insert("á".into())]);
}

/// Performs edit actions on a text, as the shell does.
fn apply(text: &str, actions: &[EditAction]) -> String {
    let mut chars: Vec<char> = text.chars().collect();
    for a in actions {
        match a {
            EditAction::Backspace(n) => {
                let keep = chars.len().saturating_sub(*n as usize);
                chars.truncate(keep);
            }
            EditAction::Insert(s) => chars.extend(s.chars()),
        }
    }
    chars.into_iter().collect()
}

#[test]
fn diff_delete_only() {
    let mut buf = CompositionBuffer { raw: String::new(), displayed: "hoà".into() };
    let actions = buf.diff_to("ho");
    assert_eq!(actions, vec![EditAction::Backspace(1)]);
    assert_eq!(buf.displayed, "ho");
}

#[test]
fn diff_actions_reach_target() {
    for (from, to) in [("", "việt"), ("viêt", "việt"), ("người", "ngươi"), ("abc", "xyz"), ("ha", "")] {
        let mut buf = CompositionBuffer { raw: "raw".into(), displayed: from.into() };
        let actions = buf.diff_to(to);
        assert_eq!(apply(from, &actions), to);
        assert_eq!(buf.displayed, to);
        assert_eq!(buf.raw, "raw");
    }
}

#[test]
fn diff_deletes_only_after_common_prefix() {
    let mut buf = CompositionBuffer { raw: String::new(), displayed: "viêt".into() };
    let actions = buf.diff_to("việt");
    assert_eq!(actions, vec![EditAction::Backspace(2), EditAction::Insert("ệt".into())]);
}

#[test]
fn clear_actions_erases_display() {
    let mut buf = CompositionBuffer { raw: "hoaf".into(), displayed: "hoà".into() };
    let actions = buf.clear_actions();
    assert_eq!(actions, vec![EditAction::Backspace(3)]);
    assert_eq!(apply("hoà", &actions), "");
    assert!(buf.raw.is_empty());
    assert!(buf.displayed.is_empty());

    let mut empty = CompositionBuffer::new();
    assert!(empty.clear_actions().is_empty());
}

#[test]
fn push_and_reset() {
    let mut buf = CompositionBuffer::new();
    buf.push('h');
    buf.push('ư');
    assert_eq!(buf.raw, "hư");
    assert!(buf.displayed.is_empty());
    buf.reset();
    assert!(buf.raw.is_empty());
}
