use vnkey_core::validator::tables::{Coda, Nucleus, Onset};
use vnkey_core::validator::{
    base_vowel, is_valid_lowercase_prefix, is_valid_lowercase_syllable, is_valid_prefix,
    is_valid_syllable, parse_syllable, strip_tone_marks,
};

#[test]
fn basic_valid() {
    for word in &["ba", "me", "bà", "mẹ", "việt", "nam", "hoa", "hoà", "hòa",
                  "chào", "nghĩ", "quê", "đường", "thương", "trường"] {
        assert!(is_valid_syllable(word), "expected valid: {word}");
    }
}

#[test]
fn basic_invalid() {
    for word in &["test", "hello", "abc", "xzq", "bbb"] {
        assert!(!is_valid_syllable(word), "expected invalid: {word}");
    }
}

#[test]
fn gh_ngh_only_front_vowels() {
    assert!(is_valid_syllable("ghi"));
    assert!(is_valid_syllable("nghe"));
    assert!(!is_valid_syllable("gha"));
    assert!(!is_valid_syllable("ngha"));
}

#[test]
fn qu_onset() {
    assert!(is_valid_syllable("qua"));
    assert!(is_valid_syllable("quê"));
}

#[test]
fn strip_keeps_vowel_diacritics() {
    assert_eq!(strip_tone_marks("người"), "ngươi");
    assert_eq!(strip_tone_marks("việt"), "viêt");
    assert_eq!(strip_tone_marks("ha"), "ha");
    assert_eq!(base_vowel('ệ'), Some('ê'));
    assert_eq!(base_vowel('ỵ'), Some('y'));
    assert_eq!(base_vowel('ư'), Some('ư'));
    assert_eq!(base_vowel('a'), None);
    assert_eq!(base_vowel('b'), None);
}

#[test]
fn parse_parts() {
    let s: Vec<char> = "nghiêng".chars().collect();
    assert_eq!(parse_syllable(&s), Some((Some(Onset::Ngh), Nucleus::IECirc, Some(Coda::Ng))));
    let s: Vec<char> = "ươi".chars().collect();
    assert_eq!(parse_syllable(&s), Some((None, Nucleus::UHornOHornI, None)));
    let s: Vec<char> = "pt".chars().collect();
    assert_eq!(parse_syllable(&s), None);
}

#[test]
fn combination_rules() {
    assert!(is_valid_syllable("nghiêng"));  // iê + ng
    assert!(!is_valid_syllable("gii"));     // gi + i
    assert!(!is_valid_syllable("quư"));     // qu + ư
    assert!(!is_valid_syllable("tuôic"));   // triphthong + coda
    assert!(!is_valid_syllable("toch"));    // o + ch
    assert!(is_valid_syllable("huynh"));    // uy + nh
    assert!(!is_valid_syllable("hôch"));
}

#[test]
fn uppercase_is_lowercased_before_checking() {
    assert!(is_valid_syllable("NAM"));
    assert!(!is_valid_syllable("VIET")); // "viet" has no nucleus "ie"
    assert!(is_valid_prefix("NGH"));
}

#[test]
fn prefixes() {
    assert!(is_valid_prefix(""));
    assert!(is_valid_prefix("ngh"));
    assert!(is_valid_prefix("viê"));
    assert!(is_valid_prefix("ă"));
    assert!(!is_valid_prefix("xz"));
    assert!(!is_valid_prefix("1"));
    assert!(!is_valid_prefix("ba1"));
}

#[test]
fn valid_syllables_are_valid_prefixes() {
    for word in ["ba", "việt", "người", "ông", "xanh", "quê"] {
        assert!(is_valid_syllable(word));
        assert!(is_valid_prefix(word));
    }
}

#[test]
fn tone_marks_do_not_change_validity() {
    for word in ["việt", "hoà", "test", "gha", "mẹ"] {
        let stripped = strip_tone_marks(word);
        assert_eq!(is_valid_syllable(word), is_valid_syllable(&stripped));
        assert_eq!(is_valid_prefix(word), is_valid_prefix(&stripped));
    }
}

#[test]
fn lowercase_level_checks() {
    let s: Vec<char> = "ba".chars().collect();
    assert!(is_valid_lowercase_syllable(&s));
    let s: Vec<char> = "BA".chars().collect();
    assert!(!is_valid_lowercase_syllable(&s));
    assert!(!is_valid_lowercase_prefix(&s));
}

#[test]
fn strip_is_idempotent() {
    for word in ["người", "việt", "ha", "ỵ", "abc"] {
        let once = strip_tone_marks(word);
        assert_eq!(strip_tone_marks(&once), once);
    }
}

#[test]
fn common_syllables_are_legal() {
    for word in [
        "tiếng", "nghiêng", "gì", "gìn", "giá", "quý", "quyền", "quyết", "khuya", "nhuyễn",
        "nguyễn", "tuyết", "ngoài", "xoay", "khuây", "khuỷu", "ngoẹo", "quái", "quay", "quăn",
    ] {
        assert!(is_valid_syllable(word), "expected valid: {word}");
    }
}

#[test]
fn lone_q_is_a_prefix() {
    assert!(is_valid_prefix("q"));
    assert!(is_valid_prefix("qu"));
    assert!(is_valid_prefix("Q"));
    assert!(!is_valid_prefix("qa"));
    assert!(!is_valid_prefix("xzq"));
}

#[test]
fn every_prefix_of_a_legal_syllable_is_a_prefix() {
    for word in ["tiếng", "nghiêng", "gì", "quý", "quyền", "đường", "người", "khuya", "nguyễn"] {
        let chars: Vec<char> = word.chars().collect();
        for k in 0..=chars.len() {
            let p: String = chars[..k].iter().collect();
            assert!(is_valid_prefix(&p), "expected prefix: {p}");
        }
    }
}

#[test]
fn three_vowel_nuclei_take_no_coda() {
    assert!(!is_valid_syllable("ngoain"));
    assert!(!is_valid_syllable("khuyan"));
    assert!(is_valid_syllable("nguyên"));
}
