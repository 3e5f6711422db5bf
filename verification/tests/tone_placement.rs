use vnkey_core::tone_placement::{apply_tone, toned_vowel, tone_position};
use vnkey_core::validator::{is_valid_syllable, strip_tone_marks};
use vnkey_core::{Tone, TonePlacementMode};

const M: TonePlacementMode = TonePlacementMode::Modern;
const C: TonePlacementMode = TonePlacementMode::Classic;

#[test]
fn single_vowel() {
    assert_eq!(apply_tone("ha", Tone::Sharp, M), "há");
    assert_eq!(apply_tone("nam", Tone::Grave, M), "nàm");
}

#[test]
fn diacritic_vowel_takes_the_mark() {
    assert_eq!(apply_tone("viêt", Tone::Dot, M), "việt");
    assert_eq!(apply_tone("ngươi", Tone::Grave, M), "người");
    assert_eq!(apply_tone("muôn", Tone::Sharp, M), "muốn");
    assert_eq!(apply_tone("hưu", Tone::Tilde, M), "hữu");
}

#[test]
fn coda_marks_last_vowel() {
    assert_eq!(apply_tone("viet", Tone::Sharp, M), "viét");
    assert_eq!(apply_tone("hoang", Tone::Grave, C), "hoàng");
}

#[test]
fn open_two_vowels() {
    assert_eq!(apply_tone("chao", Tone::Grave, M), "chào");
    assert_eq!(apply_tone("hoa", Tone::Grave, M), "hoà");
    assert_eq!(apply_tone("hoa", Tone::Grave, C), "hòa");
    assert_eq!(apply_tone("thuy", Tone::Sharp, M), "thuý");
    assert_eq!(apply_tone("thuy", Tone::Sharp, C), "thúy");
    assert_eq!(apply_tone("mua", Tone::Sharp, M), "múa");
}

#[test]
fn three_vowels_mark_the_middle() {
    assert_eq!(apply_tone("ngoai", Tone::Grave, M), "ngoài");
}

#[test]
fn qu_and_gi_onsets() {
    assert_eq!(apply_tone("qua", Tone::Sharp, M), "quá");
    assert_eq!(apply_tone("gia", Tone::Grave, M), "già");
    assert_eq!(apply_tone("gi", Tone::Grave, M), "gì");
}

#[test]
fn flat_and_no_vowel_unchanged() {
    assert_eq!(apply_tone("hoa", Tone::Flat, M), "hoa");
    assert_eq!(apply_tone("ng", Tone::Sharp, M), "ng");
    assert_eq!(apply_tone("", Tone::Sharp, M), "");
}

#[test]
fn toned_vowel_table() {
    assert_eq!(toned_vowel('a', Tone::Hook), 'ả');
    assert_eq!(toned_vowel('ư', Tone::Dot), 'ự');
    assert_eq!(toned_vowel('y', Tone::Tilde), 'ỹ');
    assert_eq!(toned_vowel('b', Tone::Sharp), 'b');
    assert_eq!(toned_vowel('e', Tone::Flat), 'e');
}

#[test]
fn position() {
    let s: Vec<char> = "chao".chars().collect();
    assert_eq!(tone_position(&s, M), Some(2));
    let s: Vec<char> = "xyz".chars().collect();
    assert_eq!(tone_position(&s, M), Some(1));
    let s: Vec<char> = "bcd".chars().collect();
    assert_eq!(tone_position(&s, M), None);
}

#[test]
fn stripping_undoes_tone() {
    for bare in ["hoa", "viêt", "ngươi", "quy", "b", "xyz"] {
        for tone in [Tone::Sharp, Tone::Grave, Tone::Hook, Tone::Tilde, Tone::Dot, Tone::Flat] {
            for p in [M, C] {
                let toned = apply_tone(bare, tone, p);
                assert_eq!(strip_tone_marks(&toned), strip_tone_marks(bare));
                assert_eq!(is_valid_syllable(&toned), is_valid_syllable(bare));
            }
        }
    }
}

#[test]
fn output_is_precomposed() {
    for word in ["hoa", "nguyen", "tieng", "khuya", "ươi", "quê", "gi"] {
        for tone in [Tone::Flat, Tone::Sharp, Tone::Grave, Tone::Hook, Tone::Tilde, Tone::Dot] {
            for placement in [M, C] {
                let out = apply_tone(word, tone, placement);
                assert_eq!(out.chars().count(), word.chars().count());
                assert!(out.chars().all(|c| !('\u{300}'..='\u{36f}').contains(&c)), "{out}");
            }
        }
    }
}
