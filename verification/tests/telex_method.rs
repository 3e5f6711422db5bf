use vnkey_core::methods::telex::{compose_telex, process_telex};
use vnkey_core::methods::{InputMethodProcessor, TelexMethod};
use vnkey_core::Tone;

fn telex(s: &str) -> (String, Tone) {
    let r = process_telex(s);
    (r.bare, r.tone)
}

#[test]
fn telex_basic_tones() {
    assert_eq!(telex("has"), ("ha".into(), Tone::Sharp));
    assert_eq!(telex("haf"), ("ha".into(), Tone::Grave));
    assert_eq!(telex("har"), ("ha".into(), Tone::Hook));
    assert_eq!(telex("hax"), ("ha".into(), Tone::Tilde));
    assert_eq!(telex("haj"), ("ha".into(), Tone::Dot));
    assert_eq!(telex("haz"), ("ha".into(), Tone::Flat));
}

#[test]
fn vowel_diacritics() {
    assert_eq!(telex("aa").0, "â");
    assert_eq!(telex("aw").0, "ă");
    assert_eq!(telex("ee").0, "ê");
    assert_eq!(telex("oo").0, "ô");
    assert_eq!(telex("ow").0, "ơ");
    assert_eq!(telex("uw").0, "ư");
    assert_eq!(telex("dd").0, "đ");
}

#[test]
fn combined_diacritic_and_tone() {
    let (bare, tone) = telex("haas");
    assert_eq!(bare, "hâ");
    assert_eq!(tone, Tone::Sharp);

    let (bare, tone) = telex("haws");
    assert_eq!(bare, "hă");
    assert_eq!(tone, Tone::Sharp);
}

#[test]
fn restore_on_triple() {
    // "aaa" → first 'aa' → â, then 'a' → restore to 'a'
    assert_eq!(telex("aaa").0, "a");
    assert_eq!(telex("eee").0, "e");
    assert_eq!(telex("ddd").0, "d");
}

#[test]
fn viet() {
    // "viet" in Telex — 'i' is a vowel, 't' is a coda — no diacritic keys
    let (bare, tone) = telex("viet");
    assert_eq!(bare, "viet");
    assert_eq!(tone, Tone::Flat);
}

#[test]
fn vief_t() {
    // "viets" → sắc on nucleus
    let (bare, tone) = telex("viets");
    assert_eq!(bare, "viet");
    assert_eq!(tone, Tone::Sharp);
}

#[test]
fn tone_key_without_vowel_is_a_letter() {
    assert_eq!(telex("s"), ("s".into(), Tone::Flat));
    assert_eq!(telex("tr"), ("tr".into(), Tone::Flat));
    // 'z' always resets the tone, even without a vowel
    assert_eq!(telex("z"), ("".into(), Tone::Flat));
}

#[test]
fn last_tone_key_wins() {
    assert_eq!(telex("hasf"), ("ha".into(), Tone::Grave));
    assert_eq!(telex("hasz"), ("ha".into(), Tone::Flat));
}

#[test]
fn double_key_restores() {
    assert_eq!(telex("haww").0, "ha");
    assert_eq!(telex("howw").0, "ho");
    assert_eq!(telex("huww").0, "hu");
    assert_eq!(telex("hooo").0, "ho");
}

#[test]
fn uppercase_is_lowercased() {
    assert_eq!(telex("VIEETJ"), ("viêt".into(), Tone::Dot));
}

#[test]
fn compose_from_lowercase_keys() {
    let r = compose_telex(&['n', 'g', 'u', 'w', 'o', 'w', 'i', 'f']);
    assert_eq!(r.bare, "ngươi");
    assert_eq!(r.tone, Tone::Grave);
    assert!(!r.is_foreign);
}

#[test]
fn telex_processor_empty_is_none() {
    assert!(TelexMethod.process("").is_none());
    let r = TelexMethod.process("dda").unwrap();
    assert_eq!(r.bare, "đa");
}

#[test]
fn foreign_keys_are_flagged() {
    assert!(process_telex("xzq").is_foreign);
    assert!(process_telex("test").is_foreign);
    assert!(!process_telex("tes").is_foreign);
    assert!(!process_telex("q").is_foreign);
    assert!(TelexMethod.process("xzq").unwrap().is_foreign);
}

#[test]
fn tone_key_inside_a_word_is_a_letter() {
    assert_eq!(telex("test"), ("test".into(), Tone::Flat));
    assert_eq!(telex("tes"), ("te".into(), Tone::Sharp));
    assert_eq!(telex("tiengs"), ("tieng".into(), Tone::Sharp));
}
