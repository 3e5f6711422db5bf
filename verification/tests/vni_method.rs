use vnkey_core::methods::vni::{compose_vni, process_vni};
use vnkey_core::methods::{InputMethodProcessor, VniMethod};
use vnkey_core::Tone;

fn vni(s: &str) -> (String, Tone) {
    let r = process_vni(s);
    (r.bare, r.tone)
}

#[test]
fn vni_basic_tones() {
    assert_eq!(vni("ha1"), ("ha".into(), Tone::Sharp));
    assert_eq!(vni("ha2"), ("ha".into(), Tone::Grave));
    assert_eq!(vni("ha3"), ("ha".into(), Tone::Hook));
    assert_eq!(vni("ha4"), ("ha".into(), Tone::Tilde));
    assert_eq!(vni("ha5"), ("ha".into(), Tone::Dot));
    assert_eq!(vni("ha0"), ("ha".into(), Tone::Flat));
}

#[test]
fn circumflex() {
    assert_eq!(vni("a6").0, "â");
    assert_eq!(vni("e6").0, "ê");
    assert_eq!(vni("o6").0, "ô");
}

#[test]
fn horn() {
    assert_eq!(vni("o7").0, "ơ");
    assert_eq!(vni("u7").0, "ư");
}

#[test]
fn breve() {
    assert_eq!(vni("a8").0, "ă");
}

#[test]
fn vni_stroke_d() {
    assert_eq!(vni("d9").0, "đ");
}

#[test]
fn combined() {
    // "duong7" → ư applied to 'u' → "dương" bare
    let (bare, tone) = vni("duong7");
    assert_eq!(bare, "dương");
    assert_eq!(tone, Tone::Flat);

    // "duong71" → ư + sắc
    let (bare, tone) = vni("duong71");
    assert_eq!(bare, "dương");
    assert_eq!(tone, Tone::Sharp);
}

#[test]
fn digit_without_target_is_kept() {
    assert_eq!(vni("1"), ("1".into(), Tone::Flat));
    assert_eq!(vni("b6").0, "b6");
    assert_eq!(vni("b9").0, "b9");
    assert_eq!(vni("i8").0, "i8");
}

#[test]
fn mark_goes_on_last_eligible_letter() {
    assert_eq!(vni("ai6").0, "âi");
    assert_eq!(vni("hoa6").0, "hoâ");
    assert_eq!(vni("tuu7").0, "tuư");
    assert_eq!(vni("ho7").0, "hơ");
}

#[test]
fn uppercase_letters_lowercased() {
    assert_eq!(vni("HA1"), ("ha".into(), Tone::Sharp));
}

#[test]
fn compose_with_given_lowercase() {
    let r = compose_vni(&['X', 'a', '1'], &['y', 'a', '1']);
    assert_eq!(r.bare, "ya");
    assert_eq!(r.tone, Tone::Sharp);
    let r = compose_vni(&['d', 'o', '9'], &['d', 'o', '9']);
    assert_eq!(r.bare, "đo");
}

#[test]
fn vni_processor_empty_is_none() {
    assert!(VniMethod.process("").is_none());
    assert_eq!(VniMethod.process("a8").unwrap().bare, "ă");
}

#[test]
fn last_tone_digit_wins() {
    assert_eq!(vni("ha15"), ("ha".into(), Tone::Dot));
    assert_eq!(vni("ha10"), ("ha".into(), Tone::Flat));
}

#[test]
fn vni_foreign_keys_are_flagged() {
    assert!(process_vni("xq").is_foreign);
    assert!(!process_vni("vie6t5").is_foreign);
    assert!(VniMethod.process("bbb").unwrap().is_foreign);
}
