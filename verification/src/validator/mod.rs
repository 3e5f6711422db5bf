//! Vietnamese syllable validation: onset, nucleus and coda phonotactics.
pub mod tables;

use vstd::prelude::*;

use crate::text::{all_simple_lowercase, ascii_lower, chars_of, lowercase_str, lowercase_string, string_of};
use tables::{
    consume_coda, consume_nucleus, consume_onset, first_coda_from, first_nucleus_from,
    first_onset_from, nucleus_at, onset_at, onset_len, onset_of, Coda, Nucleus, Onset, CODA_COUNT, NUCLEUS_COUNT,
    ONSET_COUNT,
};

verus! {

// ── Tone stripping ──────────────────────────────────────────────────────────

/// The base form of a vowel carrying a tone mark (the vowel's own diacritic,
/// as in `â` or `ư`, is kept); `None` for every other character.
pub open spec fn base_vowel_spec(c: char) -> Option<char> {
    match c {
        'à' | 'á' | 'ả' | 'ã' | 'ạ' => Some('a'),
        'ầ' | 'ấ' | 'ẩ' | 'ẫ' | 'ậ' | 'â' => Some('â'),
        'ằ' | 'ắ' | 'ẳ' | 'ẵ' | 'ặ' | 'ă' => Some('ă'),
        'è' | 'é' | 'ẻ' | 'ẽ' | 'ẹ' => Some('e'),
        'ề' | 'ế' | 'ể' | 'ễ' | 'ệ' | 'ê' => Some('ê'),
        'ì' | 'í' | 'ỉ' | 'ĩ' | 'ị' => Some('i'),
        'ò' | 'ó' | 'ỏ' | 'õ' | 'ọ' => Some('o'),
        'ồ' | 'ố' | 'ổ' | 'ỗ' | 'ộ' | 'ô' => Some('ô'),
        'ờ' | 'ớ' | 'ở' | 'ỡ' | 'ợ' | 'ơ' => Some('ơ'),
        'ù' | 'ú' | 'ủ' | 'ũ' | 'ụ' => Some('u'),
        'ừ' | 'ứ' | 'ử' | 'ữ' | 'ự' | 'ư' => Some('ư'),
        'ỳ' | 'ý' | 'ỷ' | 'ỹ' | 'ỵ' => Some('y'),
        _ => None,
    }
}

/// `c` with its tone mark removed.
pub open spec fn strip_char(c: char) -> char {
    match base_vowel_spec(c) {
        Some(b) => b,
        None => c,
    }
}

/// `s` with every tone mark removed.
pub open spec fn strip_spec(s: Seq<char>) -> Seq<char> {
    s.map_values(|c: char| strip_char(c))
}

/// Map a toned/diacritical vowel to its base form.
pub fn base_vowel(c: char) -> (r: Option<char>)
    ensures
        r == base_vowel_spec(c),
{
    match c {
        'à' | 'á' | 'ả' | 'ã' | 'ạ' => Some('a'),
        'ầ' | 'ấ' | 'ẩ' | 'ẫ' | 'ậ' | 'â' => Some('â'),
        'ằ' | 'ắ' | 'ẳ' | 'ẵ' | 'ặ' | 'ă' => Some('ă'),
        'è' | 'é' | 'ẻ' | 'ẽ' | 'ẹ' => Some('e'),
        'ề' | 'ế' | 'ể' | 'ễ' | 'ệ' | 'ê' => Some('ê'),
        'ì' | 'í' | 'ỉ' | 'ĩ' | 'ị' => Some('i'),
        'ò' | 'ó' | 'ỏ' | 'õ' | 'ọ' => Some('o'),
        'ồ' | 'ố' | 'ổ' | 'ỗ' | 'ộ' | 'ô' => Some('ô'),
        'ờ' | 'ớ' | 'ở' | 'ỡ' | 'ợ' | 'ơ' => Some('ơ'),
        'ù' | 'ú' | 'ủ' | 'ũ' | 'ụ' => Some('u'),
        'ừ' | 'ứ' | 'ử' | 'ữ' | 'ự' | 'ư' => Some('ư'),
        'ỳ' | 'ý' | 'ỷ' | 'ỹ' | 'ỵ' => Some('y'),
        _ => None,
    }
}

/// Removes the tone marks of the characters `s`.
pub fn strip_chars(s: &[char]) -> (r: Vec<char>)
    ensures
        r@ == strip_spec(s@),
{
    let mut out: Vec<char> = Vec::new();
    let mut i: usize = 0;
    while i < s.len()
        invariant
            i <= s@.len(),
            out@ == strip_spec(s@.take(i as int)),
        decreases s@.len() - i,
    {
        let c = s[i];
        let b = match base_vowel(c) {
            Some(b) => b,
            None => c,
        };
        out.push(b);
        i = i + 1;
        assert(strip_spec(s@.take(i as int)) =~= strip_spec(s@.take(i - 1)).push(b));
    }
    assert(s@.take(s@.len() as int) =~= s@);
    out
}

/// Removes the tone marks of `s`, keeping vowel diacritics (`â`, `ư`, ...).
pub fn strip_tone_marks(s: &str) -> (r: String)
    ensures
        r@ == strip_spec(s@),
{
    let chars = chars_of(s);
    let stripped = strip_chars(chars.as_slice());
    string_of(stripped.as_slice())
}

// ── Character classes ────────────────────────────────────────────────────────

/// The twelve Vietnamese vowel letters without tone marks.
pub open spec fn is_vowel_spec(c: char) -> bool {
    match c {
        'a' | 'ă' | 'â' | 'e' | 'ê' | 'i' | 'o' | 'ô' | 'ơ' | 'u' | 'ư' | 'y' => true,
        _ => false,
    }
}

/// The letters that can appear in a coda.
pub open spec fn is_coda_spec(c: char) -> bool {
    match c {
        'c' | 'h' | 'm' | 'n' | 'g' | 'p' | 't' => true,
        _ => false,
    }
}

pub fn is_vowel_char(c: char) -> (r: bool)
    ensures
        r == is_vowel_spec(c),
{
    matches!(c, 'a' | 'ă' | 'â' | 'e' | 'ê' | 'i' | 'o' | 'ô' | 'ơ' | 'u' | 'ư' | 'y')
}

pub fn is_coda_char(c: char) -> (r: bool)
    ensures
        r == is_coda_spec(c),
{
    matches!(c, 'c' | 'h' | 'm' | 'n' | 'g' | 'p' | 't')
}

// ── Parsing ─────────────────────────────────────────────────────────────────

/// The onset of a syllable: the first table entry `s` starts with (none if
/// no entry fits), except that `gi` with no nucleus after it (as in `gì`,
/// `gìn`) is the onset `g` followed by the vowel `i`.
pub open spec fn syllable_onset(s: Seq<char>) -> Option<Onset> {
    if onset_of(s) == Some(Onset::Gi) && first_nucleus_from(s.skip(2), 0) is None {
        Some(Onset::G)
    } else {
        onset_of(s)
    }
}

/// The split of a lowercase, toneless syllable into onset, nucleus and coda:
/// the onset is `syllable_onset(s)`, the nucleus the first table entry the
/// rest starts with, and what is left must be empty or exactly a coda.
pub open spec fn parse_syllable_spec(s: Seq<char>) -> Option<(Option<Onset>, Nucleus, Option<Coda>)> {
    let onset = syllable_onset(s);
    let after_onset = s.skip(onset_len(onset));
    match first_nucleus_from(after_onset, 0) {
        None => None,
        Some(n) => {
            let after_nucleus = after_onset.skip(n.text().len() as int);
            if after_nucleus.len() == 0 {
                Some((onset, n, None))
            } else {
                match first_coda_from(after_nucleus, 0) {
                    Some(c) => Some((onset, n, Some(c))),
                    None => None,
                }
            }
        }
    }
}

proof fn lemma_onset_is_prefix(s: Seq<char>, i: int)
    ensures
        first_onset_from(s, i) matches Some(o) ==> o.text().is_prefix_of(s),
    decreases ONSET_COUNT - i,
{
    if i < ONSET_COUNT {
        lemma_onset_is_prefix(s, i + 1);
    }
}

proof fn lemma_nucleus_is_prefix(s: Seq<char>, i: int)
    ensures
        first_nucleus_from(s, i) matches Some(n) ==> n.text().is_prefix_of(s),
    decreases NUCLEUS_COUNT - i,
{
    if i < NUCLEUS_COUNT {
        lemma_nucleus_is_prefix(s, i + 1);
    }
}

proof fn lemma_coda_is_exact(s: Seq<char>, i: int)
    ensures
        first_coda_from(s, i) matches Some(c) ==> c.text() == s,
    decreases CODA_COUNT - i,
{
    if i < CODA_COUNT {
        lemma_coda_is_exact(s, i + 1);
    }
}

proof fn lemma_syllable_onset_is_prefix(s: Seq<char>)
    ensures
        onset_len(syllable_onset(s)) <= s.len(),
{
    lemma_onset_is_prefix(s, 0);
    if onset_of(s) == Some(Onset::Gi) {
        assert(seq!['g', 'i'].is_prefix_of(s));
    }
}

fn onset_length(o: Option<Onset>) -> (r: usize)
    ensures
        r == onset_len(o),
{
    match o {
        Some(o) => o.chars().len(),
        None => 0,
    }
}

/// The onset of a syllable (see `syllable_onset`).
fn find_syllable_onset(s: &[char]) -> (r: Option<Onset>)
    ensures
        r == syllable_onset(s@),
{
    assert(s@.skip(0) =~= s@);
    let onset = consume_onset(s, 0);
    proof {
        lemma_onset_is_prefix(s@, 0);
        if onset == Some(Onset::Gi) {
            assert(seq!['g', 'i'].is_prefix_of(s@));
        }
    }
    if matches!(onset, Some(Onset::Gi)) && consume_nucleus(s, 2).is_none() {
        // "gì": the i of "gi" is the nucleus, not part of the onset
        return Some(Onset::G);
    }
    onset
}

/// Splits a lowercase, toneless syllable into (onset, nucleus, coda).
pub fn parse_syllable(s: &[char]) -> (r: Option<(Option<Onset>, Nucleus, Option<Coda>)>)
    ensures
        r == parse_syllable_spec(s@),
{
    let onset = find_syllable_onset(s);
    let olen = onset_length(onset);
    proof {
        lemma_syllable_onset_is_prefix(s@);
    }
    let ghost after_onset = s@.skip(olen as int);
    let nucleus = match consume_nucleus(s, olen) {
        Some(n) => n,
        None => return None,
    };
    proof {
        lemma_nucleus_is_prefix(after_onset, 0);
    }
    let nlen = nucleus.chars().len();
    let pos = olen + nlen;
    assert(after_onset.skip(nlen as int) =~= s@.skip(pos as int));
    if pos == s.len() {
        return Some((onset, nucleus, None));
    }
    match consume_coda(s, pos) {
        Some(c) => Some((onset, nucleus, Some(c))),
        None => None,
    }
}

// ── Compatibility rules ─────────────────────────────────────────────────────

/// Nuclei that start with a front vowel (`e`, `ê`, `i`).
pub open spec fn front_nucleus(n: Nucleus) -> bool {
    match n {
        Nucleus::E | Nucleus::ECirc | Nucleus::I | Nucleus::IECirc | Nucleus::IA => true,
        _ => false,
    }
}

/// Nuclei that start with `i`, redundant after the onset `gi`.
pub open spec fn i_nucleus(n: Nucleus) -> bool {
    match n {
        Nucleus::I | Nucleus::IA | Nucleus::IECirc => true,
        _ => false,
    }
}

/// Nuclei allowed after the onset `qu`.
pub open spec fn qu_nucleus(n: Nucleus) -> bool {
    match n {
        Nucleus::A | Nucleus::ACirc | Nucleus::E | Nucleus::ECirc | Nucleus::I | Nucleus::O
        | Nucleus::OCirc | Nucleus::OA | Nucleus::OE | Nucleus::UY | Nucleus::U | Nucleus::Y
        | Nucleus::YECirc | Nucleus::AI | Nucleus::AY | Nucleus::ACircY | Nucleus::ABreve
            | Nucleus::EO | Nucleus::OHorn => true,
        _ => false,
    }
}

/// The three-vowel nuclei that close a syllable and take no coda (every one
/// but `uyê`, as in "nguyên").
pub open spec fn triphthong(n: Nucleus) -> bool {
    match n {
        Nucleus::UOCircI | Nucleus::UHornOHornI | Nucleus::IECircU | Nucleus::UHornOHornU
            | Nucleus::UYA | Nucleus::UYU | Nucleus::OAI | Nucleus::OAY | Nucleus::OEO | Nucleus::UACircY => true,
        _ => false,
    }
}

/// Nuclei allowed before the coda `ch`.
pub open spec fn ch_nucleus(n: Nucleus) -> bool {
    match n {
        Nucleus::A | Nucleus::ABreve | Nucleus::ACirc | Nucleus::E | Nucleus::ECirc | Nucleus::I
        | Nucleus::IA | Nucleus::IECirc | Nucleus::OA | Nucleus::U => true,
        _ => false,
    }
}

/// Nuclei allowed before the coda `nh`.
pub open spec fn nh_nucleus(n: Nucleus) -> bool {
    ch_nucleus(n) || n == Nucleus::UY || n == Nucleus::Y
}

/// Whether an onset, nucleus and coda may form a syllable together.
pub open spec fn combination_ok(onset: Option<Onset>, nucleus: Nucleus, coda: Option<Coda>) -> bool {
    &&& (onset == Some(Onset::Gh) || onset == Some(Onset::Ngh)) ==> front_nucleus(nucleus)
    &&& onset == Some(Onset::Gi) ==> !i_nucleus(nucleus)
    &&& onset == Some(Onset::Qu) ==> qu_nucleus(nucleus)
    &&& match coda {
        Some(Coda::C) | Some(Coda::P) => !triphthong(nucleus),
        Some(Coda::Ch) => ch_nucleus(nucleus),
        Some(Coda::Nh) => nh_nucleus(nucleus),
        _ => true,
    }
    &&& triphthong(nucleus) ==> coda is None
}

fn validate_combination(onset: Option<Onset>, nucleus: Nucleus, coda: Option<Coda>) -> (r: bool)
    ensures
        r == combination_ok(onset, nucleus, coda),
{
    // gh / ngh only with front vowels e, ê, i
    if matches!(onset, Some(Onset::Gh) | Some(Onset::Ngh)) && !matches!(
        nucleus,
        Nucleus::E | Nucleus::ECirc | Nucleus::I | Nucleus::IECirc | Nucleus::IA
    ) {
        return false;
    }
    // gi onset: nucleus must not start with 'i' (would be a redundant "gii")
    if matches!(onset, Some(Onset::Gi)) && matches!(
        nucleus,
        Nucleus::I | Nucleus::IA | Nucleus::IECirc
    ) {
        return false;
    }
    // qu onset requires a nucleus that can follow the u-glide
    if matches!(onset, Some(Onset::Qu)) && !matches!(
        nucleus,
        Nucleus::A | Nucleus::ACirc | Nucleus::E | Nucleus::ECirc | Nucleus::I | Nucleus::O
            | Nucleus::OCirc | Nucleus::OA | Nucleus::OE | Nucleus::UY | Nucleus::U | Nucleus::Y
            | Nucleus::YECirc | Nucleus::AI | Nucleus::AY | Nucleus::ACircY | Nucleus::ABreve
            | Nucleus::EO | Nucleus::OHorn
    ) {
        return false;
    }
    // Coda constraints
    match coda {
        Some(Coda::C) | Some(Coda::P) => {
            if matches!(
                nucleus,
                Nucleus::UOCircI | Nucleus::UHornOHornI | Nucleus::IECircU | Nucleus::UHornOHornU
            | Nucleus::UYA | Nucleus::UYU | Nucleus::OAI | Nucleus::OAY | Nucleus::OEO | Nucleus::UACircY
            ) {
                return false;
            }
        },
        Some(Coda::Ch) => {
            if !matches!(
                nucleus,
                Nucleus::A | Nucleus::ABreve | Nucleus::ACirc | Nucleus::E | Nucleus::ECirc
                    | Nucleus::I | Nucleus::IA | Nucleus::IECirc | Nucleus::OA | Nucleus::U
            ) {
                return false;
            }
        },
        Some(Coda::Nh) => {
            if !matches!(
                nucleus,
                Nucleus::A | Nucleus::ABreve | Nucleus::ACirc | Nucleus::E | Nucleus::ECirc
                    | Nucleus::I | Nucleus::IA | Nucleus::IECirc | Nucleus::OA | Nucleus::U
                    | Nucleus::UY | Nucleus::Y
            ) {
                return false;
            }
        },
        _ => {},
    }
    // Triphthong nuclei must be open (no coda)
    if matches!(
        nucleus,
        Nucleus::UOCircI | Nucleus::UHornOHornI | Nucleus::IECircU | Nucleus::UHornOHornU
            | Nucleus::UYA | Nucleus::UYU | Nucleus::OAI | Nucleus::OAY | Nucleus::OEO | Nucleus::UACircY
    ) && coda.is_some() {
        return false;
    }
    true
}

// ── Public checks ───────────────────────────────────────────────────────────

/// A lowercase, toneless text parses into parts that may stand together.
pub open spec fn syllable_parts_ok(s: Seq<char>) -> bool {
    match parse_syllable_spec(s) {
        Some((o, n, c)) => combination_ok(o, n, c),
        None => false,
    }
}

/// A lowercase, toneless text can still grow into a syllable: it is the
/// first letter `q` of the onset `qu`, or after its onset come only vowels
/// and coda letters, and without an onset it starts with a vowel.
pub open spec fn prefix_parts_ok(s: Seq<char>) -> bool {
    let onset = onset_of(s);
    let rest = s.skip(onset_len(onset));
    ||| s == seq!['q']
    ||| {
        &&& (onset is None && rest.len() > 0) ==> is_vowel_spec(rest[0])
        &&& forall|i: int| 0 <= i < rest.len() ==> is_vowel_spec(#[trigger] rest[i]) || is_coda_spec(rest[i])
    }
}

/// `s` is a legal Vietnamese syllable: it is not empty, and once its tone
/// marks are stripped and it is lowercased its parts may stand together.
pub open spec fn syllable_valid(s: Seq<char>) -> bool {
    s.len() > 0 && syllable_parts_ok(lowercase_str(strip_spec(s)))
}

/// `s` could still become a Vietnamese syllable: it is empty, or once its
/// tone marks are stripped and it is lowercased it passes `prefix_parts_ok`.
pub open spec fn prefix_valid(s: Seq<char>) -> bool {
    s.len() == 0 || prefix_parts_ok(lowercase_str(strip_spec(s)))
}

/// `syllable_valid` for a text made of ASCII characters and lowercase
/// Vietnamese letters once its tone marks are stripped, where lowercasing
/// is `ascii_lower` on each character.
pub open spec fn simple_syllable_valid(s: Seq<char>) -> bool {
    s.len() > 0 && syllable_parts_ok(strip_spec(s).map_values(|c: char| ascii_lower(c)))
}

/// `prefix_valid` for a text made of ASCII characters and lowercase
/// Vietnamese letters once its tone marks are stripped, where lowercasing
/// is `ascii_lower` on each character.
pub open spec fn simple_prefix_valid(s: Seq<char>) -> bool {
    s.len() == 0 || prefix_parts_ok(strip_spec(s).map_values(|c: char| ascii_lower(c)))
}

/// Checks an already lowercased, toneless syllable.
pub fn is_valid_lowercase_syllable(s: &[char]) -> (r: bool)
    ensures
        r == syllable_parts_ok(s@),
{
    match parse_syllable(s) {
        Some((onset, nucleus, coda)) => validate_combination(onset, nucleus, coda),
        None => false,
    }
}

/// Checks an already lowercased, toneless prefix of a syllable.
pub fn is_valid_lowercase_prefix(s: &[char]) -> (r: bool)
    ensures
        r == prefix_parts_ok(s@),
{
    if s.len() == 1 && s[0] == 'q' {
        // the start of the onset "qu"
        assert(s@ =~= seq!['q']);
        return true;
    }
    assert(s@.skip(0) =~= s@);
    let onset = consume_onset(s, 0);
    proof {
        lemma_onset_is_prefix(s@, 0);
    }
    let olen: usize = match onset {
        Some(o) => o.chars().len(),
        None => 0,
    };
    let ghost rest = s@.skip(olen as int);
    if onset.is_none() && olen < s.len() {
        // No onset consumed: only valid if the first char is a vowel (zero onset)
        if !is_vowel_char(s[olen]) {
            assert(rest[0] == s@[olen as int]);
            return false;
        }
    }
    // The rest must be vowels or coda letters (a partial nucleus and coda).
    let mut i: usize = olen;
    while i < s.len()
        invariant
            olen <= i <= s@.len(),
            rest == s@.skip(olen as int),
            olen == onset_len(onset_of(s@)),
            s@ != seq!['q'],
            forall|j: int| 0 <= j < i - olen ==> is_vowel_spec(#[trigger] rest[j]) || is_coda_spec(rest[j]),
        decreases s@.len() - i,
    {
        let ch = s[i];
        if !is_vowel_char(ch) && !is_coda_char(ch) {
            assert(rest[i - olen] == ch);
            return false;
        }
        i = i + 1;
    }
    true
}

/// Returns true if `syllable` is a legal Vietnamese syllable.
///
/// Checks onset → nucleus → coda compatibility according to standard
/// Vietnamese phonotactics. Tone marks are stripped before analysis.
pub fn is_valid_syllable(syllable: &str) -> (r: bool)
    ensures
        r == syllable_valid(syllable@),
        all_simple_lowercase(strip_spec(syllable@)) ==> r == simple_syllable_valid(syllable@),
{
    if syllable.is_empty() {
        return false;
    }
    let bare = strip_tone_marks(syllable);
    let lowered = lowercase_string(bare.as_str());
    let chars = chars_of(lowered.as_str());
    is_valid_lowercase_syllable(chars.as_slice())
}

/// Returns true if `s` could be a valid prefix of a Vietnamese syllable
/// (i.e., we should keep buffering rather than auto-restore).
pub fn is_valid_prefix(s: &str) -> (r: bool)
    ensures
        r == prefix_valid(s@),
        all_simple_lowercase(strip_spec(s@)) ==> r == simple_prefix_valid(s@),
{
    if s.is_empty() {
        return true;
    }
    let bare = strip_tone_marks(s);
    let lowered = lowercase_string(bare.as_str());
    let chars = chars_of(lowered.as_str());
    is_valid_lowercase_prefix(chars.as_slice())
}

// ── Laws ────────────────────────────────────────────────────────────────────

proof fn lemma_nucleus_letters(n: Nucleus)
    ensures
        n.text().len() > 0,
        forall|i: int| 0 <= i < n.text().len() ==> is_vowel_spec(#[trigger] n.text()[i]),
{
}

proof fn lemma_coda_letters(c: Coda)
    ensures
        forall|i: int| 0 <= i < c.text().len() ==> is_coda_spec(#[trigger] c.text()[i]),
{
}

/// Stripping tone marks twice strips no more than stripping once.
pub proof fn lemma_strip_idempotent(s: Seq<char>)
    ensures
        strip_spec(strip_spec(s)) == strip_spec(s),
{
    assert(strip_spec(strip_spec(s)) =~= strip_spec(s));
}

/// A lowercase, toneless text that parses as a syllable also passes the
/// prefix check.
pub proof fn lemma_parts_ok_is_prefix_ok(s: Seq<char>)
    requires
        syllable_parts_ok(s),
    ensures
        prefix_parts_ok(s),
{
    let onset = syllable_onset(s);
    let len = onset_len(onset);
    let rest = s.skip(len);
    lemma_onset_is_prefix(s, 0);
    if onset_of(s) == Some(Onset::Gi) {
        assert(seq!['g', 'i'].is_prefix_of(s));
        assert(s.len() >= 2);
    }
    lemma_nucleus_is_prefix(rest, 0);
    let n = first_nucleus_from(rest, 0)->0;
    let nlen = n.text().len() as int;
    lemma_nucleus_letters(n);
    let tail = rest.skip(nlen);
    if tail.len() > 0 {
        lemma_coda_is_exact(tail, 0);
        lemma_coda_letters(first_coda_from(tail, 0)->0);
    }
    assert forall|i: int| 0 <= i < rest.len() implies is_vowel_spec(#[trigger] rest[i])
        || is_coda_spec(rest[i]) by {
        if i < nlen {
            assert(n.text()[i] == rest[i]);
        } else {
            assert(tail[i - nlen] == rest[i]);
        }
    }
    assert(n.text()[0] == rest[0]);
    // The prefix check reads past the onset that `onset_of` finds, which is
    // the syllable's onset or, for `gi` + vowel `i`, one letter longer.
    let plen = onset_len(onset_of(s));
    let prest = s.skip(plen);
    assert(plen >= len);
    assert forall|i: int| 0 <= i < prest.len() implies is_vowel_spec(#[trigger] prest[i])
        || is_coda_spec(prest[i]) by {
        assert(prest[i] == rest[i + plen - len]);
    }
}

/// The onset found on the first `k` letters is the one found on the whole
/// text, when that onset fits in them.
proof fn lemma_onset_on_prefix(s: Seq<char>, k: int, i: int)
    requires
        0 <= k <= s.len(),
        first_onset_from(s, i) matches Some(o) ==> o.text().len() <= k,
    ensures
        first_onset_from(s.take(k), i) == first_onset_from(s, i),
    decreases ONSET_COUNT - i,
{
    if i < ONSET_COUNT {
        let t = onset_at(i).text();
        if t.is_prefix_of(s) {
            assert(s.take(k).subrange(0, t.len() as int) =~= s.subrange(0, t.len() as int));
        } else {
            if t.is_prefix_of(s.take(k)) {
                assert(s.take(k).subrange(0, t.len() as int) =~= s.subrange(0, t.len() as int));
            }
            lemma_onset_on_prefix(s, k, i + 1);
        }
    }
}

/// A text that starts with the onset of entry `j` has an onset from any
/// entry `i <= j` on.
proof fn lemma_onset_found(s: Seq<char>, i: int, j: int)
    requires
        0 <= i <= j < ONSET_COUNT,
        onset_at(j).text().is_prefix_of(s),
    ensures
        first_onset_from(s, i) is Some,
    decreases j - i,
{
    if i < j && !onset_at(i).text().is_prefix_of(s) {
        lemma_onset_found(s, i + 1, j);
    }
}

/// Every letter of an onset is a non-empty text.
proof fn lemma_onset_nonempty(o: Onset)
    ensures
        o.text().len() >= 1,
{
}

/// Passing the prefix check is kept by every shorter prefix: a text that
/// could still grow into a syllable could also do so after fewer letters.
pub proof fn lemma_prefix_ok_is_prefix_closed(s: Seq<char>, k: int)
    requires
        prefix_parts_ok(s),
        0 <= k <= s.len(),
    ensures
        prefix_parts_ok(s.take(k)),
{
    let p = s.take(k);
    let onset = onset_of(s);
    if k > 0 && s == seq!['q'] {
        assert(p =~= s);
    } else if k == 0 {
        assert(p =~= Seq::<char>::empty());
        if onset_of(p) is Some {
            lemma_onset_is_prefix(p, 0);
            lemma_onset_nonempty(onset_of(p)->0);
        }
        assert(prefix_parts_ok(p));
    } else if onset_len(onset) <= k {
        lemma_onset_on_prefix(s, k, 0);
        let len = onset_len(onset);
        let rest = s.skip(len);
        let prest = p.skip(len);
        assert forall|i: int| 0 <= i < prest.len() implies is_vowel_spec(#[trigger] prest[i])
            || is_coda_spec(prest[i]) by {
            assert(prest[i] == rest[i]);
        }
        if onset is None && prest.len() > 0 {
            assert(prest[0] == rest[0]);
        }
        assert(prefix_parts_ok(p));
    } else {
        let o = onset->0;
        lemma_onset_is_prefix(s, 0);
        assert(o.text().is_prefix_of(s));
        assert(p =~= o.text().take(k));
        let c = p[0];
        assert(c == o.text()[0]);
        if o == Onset::Qu {
            assert(p =~= seq!['q']);
        } else {
            let j: int = if c == 'n' {
                20
            } else if c == 'g' {
                15
            } else if c == 'p' {
                21
            } else if c == 't' {
                24
            } else if c == 'c' {
                12
            } else {
                17
            };
            assert(onset_at(j).text() =~= seq![c]);
            assert(p.subrange(0, 1) =~= seq![c]);
            lemma_onset_found(p, 0, j);
            let o2 = onset_of(p)->0;
            lemma_onset_is_prefix(p, 0);
            lemma_onset_nonempty(o2);
            let prest = p.skip(onset_len(onset_of(p)));
            assert forall|i: int| 0 <= i < prest.len() implies is_vowel_spec(#[trigger] prest[i])
                || is_coda_spec(prest[i]) by {
                assert(prest[i] == p[i + o2.text().len()]);
                assert(o == Onset::Ngh);
                assert(p[1] == 'g');
            }
            assert(prefix_parts_ok(p));
        }
    }
}

/// Every prefix of a legal syllable (lowercase, without tone marks) passes
/// the prefix check, so the engine keeps buffering while it is typed.
pub proof fn lemma_syllable_prefixes_are_prefixes(s: Seq<char>, k: int)
    requires
        syllable_parts_ok(s),
        0 <= k <= s.len(),
    ensures
        prefix_parts_ok(s.take(k)),
{
    lemma_parts_ok_is_prefix_ok(s);
    lemma_prefix_ok_is_prefix_closed(s, k);
}

/// The coda `ch` follows exactly the nuclei a, ă, â, e, ê, i, ia, iê, oa and
/// u (as in sách, sắc, ếch, lịch, tiếc, hoạch, húc): after an onset with no
/// rule of its own (or none), a syllable that parses with the coda `ch` is
/// legal exactly when its nucleus is one of them.
pub proof fn lemma_ch_coda_nuclei(s: Seq<char>, onset: Option<Onset>, nucleus: Nucleus)
    requires
        onset != Some(Onset::Gh) && onset != Some(Onset::Ngh) && onset != Some(Onset::Gi)
            && onset != Some(Onset::Qu),
    ensures
        combination_ok(onset, nucleus, Some(Coda::Ch)) <==> (nucleus == Nucleus::A || nucleus
            == Nucleus::ABreve || nucleus == Nucleus::ACirc || nucleus == Nucleus::E || nucleus
            == Nucleus::ECirc || nucleus == Nucleus::I || nucleus == Nucleus::IA || nucleus
            == Nucleus::IECirc || nucleus == Nucleus::OA || nucleus == Nucleus::U),
        parse_syllable_spec(s) == Some((onset, nucleus, Some(Coda::Ch))) ==> (syllable_parts_ok(s) <==> (
        nucleus == Nucleus::A || nucleus == Nucleus::ABreve || nucleus == Nucleus::ACirc || nucleus
            == Nucleus::E || nucleus == Nucleus::ECirc || nucleus == Nucleus::I || nucleus
            == Nucleus::IA || nucleus == Nucleus::IECirc || nucleus == Nucleus::OA || nucleus
            == Nucleus::U)),
{
}

proof fn lemma_onset_skip(s: Seq<char>, i: int, j: int)
    requires
        0 <= i <= j < ONSET_COUNT,
        onset_at(j).text().is_prefix_of(s),
        forall|k: int| i <= k < j ==> !(#[trigger] onset_at(k)).text().is_prefix_of(s),
    ensures
        first_onset_from(s, i) == Some(onset_at(j)),
    decreases j - i,
{
    if i < j {
        lemma_onset_skip(s, i + 1, j);
    }
}

proof fn lemma_nucleus_skip(s: Seq<char>, i: int, j: int)
    requires
        0 <= i <= j < NUCLEUS_COUNT,
        nucleus_at(j).text().is_prefix_of(s),
        forall|k: int| i <= k < j ==> !(#[trigger] nucleus_at(k)).text().is_prefix_of(s),
    ensures
        first_nucleus_from(s, i) == Some(nucleus_at(j)),
    decreases j - i,
{
    if i < j {
        lemma_nucleus_skip(s, i + 1, j);
    }
}

/// Every one-letter onset followed by `ach` makes a legal syllable (bạch,
/// cách, gạch, lách, mạch, sách, vạch, xách, ...): the onset, the nucleus
/// `a` and the coda `ch` are read off in that order.
pub proof fn lemma_ach_syllables(c: char)
    requires
        c == 'b' || c == 'c' || c == 'd' || c == 'đ' || c == 'g' || c == 'h' || c == 'k' || c == 'l'
            || c == 'm' || c == 'n' || c == 'p' || c == 'r' || c == 's' || c == 't' || c == 'v'
            || c == 'x',
    ensures
        parse_syllable_spec(seq![c, 'a', 'c', 'h']) matches Some((Some(o), n, Some(k)))
            && o.text() == seq![c] && n == Nucleus::A && k == Coda::Ch,
        syllable_parts_ok(seq![c, 'a', 'c', 'h']),
{
    let s = seq![c, 'a', 'c', 'h'];
    let j: int = if c == 'b' {
        11
    } else if c == 'c' {
        12
    } else if c == 'd' {
        13
    } else if c == 'đ' {
        14
    } else if c == 'g' {
        15
    } else if c == 'h' {
        16
    } else if c == 'k' {
        17
    } else if c == 'l' {
        18
    } else if c == 'm' {
        19
    } else if c == 'n' {
        20
    } else if c == 'p' {
        21
    } else if c == 'r' {
        22
    } else if c == 's' {
        23
    } else if c == 't' {
        24
    } else if c == 'v' {
        25
    } else {
        26
    };
    assert(onset_at(j).text() =~= seq![c]);
    assert(s.subrange(0, 1) =~= seq![c]);
    assert forall|k: int| 0 <= k < j implies !(#[trigger] onset_at(k)).text().is_prefix_of(s) by {
        let t = onset_at(k).text();
        if t.is_prefix_of(s) {
            assert(s.subrange(0, t.len() as int)[0] == s[0]);
            if t.len() >= 2 {
                assert(s.subrange(0, t.len() as int)[1] == s[1]);
            }
        }
    }
    lemma_onset_skip(s, 0, j);
    let o = onset_at(j);
    assert(syllable_onset(s) == Some(o));
    let rest = s.skip(1);
    assert(rest =~= seq!['a', 'c', 'h']);
    assert(nucleus_at(40).text() =~= seq!['a']);
    assert(rest.subrange(0, 1) =~= seq!['a']);
    assert forall|k: int| 0 <= k < 40 implies !(#[trigger] nucleus_at(k)).text().is_prefix_of(rest) by {
        let t = nucleus_at(k).text();
        if t.is_prefix_of(rest) {
            assert(rest.subrange(0, t.len() as int)[0] == rest[0]);
            if t.len() >= 2 {
                assert(rest.subrange(0, t.len() as int)[1] == rest[1]);
            }
        }
    }
    lemma_nucleus_skip(rest, 0, 40);
    let tail = rest.skip(1);
    assert(tail =~= seq!['c', 'h']);
    assert(seq!['n', 'g'][0] != tail[0]);
    assert(seq!['n', 'h'][0] != tail[0]);
    assert(first_coda_from(tail, 2) == Some(Coda::Ch));
    assert(first_coda_from(tail, 1) == Some(Coda::Ch));
    assert(first_coda_from(tail, 0) == Some(Coda::Ch));
}

/// The rules an onset lays on the nucleus of an open syllable: `gh` and
/// `ngh` only before e, ê, i, ia, iê; `gi` never before a nucleus that
/// starts with i; `qu` only before a, â, ă, e, ê, i, o, ô, ơ, oa, oe, uy, u,
/// y, yê, ai, ay, ây, eo.
pub proof fn lemma_onset_rules(n: Nucleus)
    ensures
        combination_ok(Some(Onset::Gh), n, None) <==> (n == Nucleus::E || n == Nucleus::ECirc || n
            == Nucleus::I || n == Nucleus::IA || n == Nucleus::IECirc),
        combination_ok(Some(Onset::Ngh), n, None) <==> (n == Nucleus::E || n == Nucleus::ECirc || n
            == Nucleus::I || n == Nucleus::IA || n == Nucleus::IECirc),
        combination_ok(Some(Onset::Gi), n, None) <==> !(n == Nucleus::I || n == Nucleus::IA || n
            == Nucleus::IECirc),
        combination_ok(Some(Onset::Qu), n, None) <==> (n == Nucleus::A || n == Nucleus::ACirc || n
            == Nucleus::ABreve || n == Nucleus::E || n == Nucleus::ECirc || n == Nucleus::I || n
            == Nucleus::O || n == Nucleus::OCirc || n == Nucleus::OHorn || n == Nucleus::OA || n
            == Nucleus::OE || n == Nucleus::UY || n == Nucleus::U || n == Nucleus::Y || n
            == Nucleus::YECirc || n == Nucleus::AI || n == Nucleus::AY || n == Nucleus::ACircY || n
            == Nucleus::EO),
{
}

/// The rules a coda lays on the nucleus: the three-vowel nuclei uôi, ươi,
/// iêu, ươu, uya, uyu, oai, oay, oeo, uây take no coda at all, and `nh`
/// follows exactly a, ă, â, e, ê, i, ia, iê, oa, u, uy, y.
pub proof fn lemma_coda_rules(onset: Option<Onset>, n: Nucleus, c: Coda)
    requires
        onset != Some(Onset::Gh) && onset != Some(Onset::Ngh) && onset != Some(Onset::Gi)
            && onset != Some(Onset::Qu),
    ensures
        (n == Nucleus::UOCircI || n == Nucleus::UHornOHornI || n == Nucleus::IECircU || n
            == Nucleus::UHornOHornU || n == Nucleus::UYA || n == Nucleus::UYU || n == Nucleus::OAI
            || n == Nucleus::OAY || n == Nucleus::OEO || n == Nucleus::UACircY) ==> !combination_ok(
            onset,
            n,
            Some(c),
        ),
        combination_ok(onset, n, Some(Coda::Nh)) <==> (n == Nucleus::A || n == Nucleus::ABreve || n
            == Nucleus::ACirc || n == Nucleus::E || n == Nucleus::ECirc || n == Nucleus::I || n
            == Nucleus::IA || n == Nucleus::IECirc || n == Nucleus::OA || n == Nucleus::U || n
            == Nucleus::UY || n == Nucleus::Y),
{
}

/// Past its onset, a text that passes the prefix check holds only the
/// twelve vowels a, ă, â, e, ê, i, o, ô, ơ, u, ư, y and the coda letters
/// c, h, m, n, g, p, t, and without an onset it starts with a vowel (the
/// lone `q` of `qu` aside): any other letter there, such as the `l` of
/// "tel", ends the syllable.
pub proof fn lemma_prefix_letters(s: Seq<char>)
    requires
        prefix_parts_ok(s),
        s != seq!['q'],
    ensures
        forall|i: int| onset_len(onset_of(s)) <= i < s.len() ==> {
            let c = #[trigger] s[i];
            c == 'a' || c == 'ă' || c == 'â' || c == 'e' || c == 'ê' || c == 'i' || c == 'o' || c == 'ô'
                || c == 'ơ' || c == 'u' || c == 'ư' || c == 'y' || c == 'c' || c == 'h' || c == 'm'
                || c == 'n' || c == 'g' || c == 'p' || c == 't'
        },
        onset_of(s) is None && s.len() > 0 ==> (s[0] == 'a' || s[0] == 'ă' || s[0] == 'â' || s[0] == 'e'
            || s[0] == 'ê' || s[0] == 'i' || s[0] == 'o' || s[0] == 'ô' || s[0] == 'ơ' || s[0] == 'u'
            || s[0] == 'ư' || s[0] == 'y'),
{
    let len = onset_len(onset_of(s));
    let rest = s.skip(len);
    if onset_of(s) is Some {
        lemma_onset_is_prefix(s, 0);
    }
    assert forall|i: int| len <= i < s.len() implies {
        let c = #[trigger] s[i];
        c == 'a' || c == 'ă' || c == 'â' || c == 'e' || c == 'ê' || c == 'i' || c == 'o' || c == 'ô'
            || c == 'ơ' || c == 'u' || c == 'ư' || c == 'y' || c == 'c' || c == 'h' || c == 'm'
            || c == 'n' || c == 'g' || c == 'p' || c == 't'
    } by {
        assert(rest[i - len] == s[i]);
    }
    if onset_of(s) is None && s.len() > 0 {
        assert(rest[0] == s[0]);
    }
}

/// Conversely, a text whose letters past its onset are all among the twelve
/// vowels and c, h, m, n, g, p, t, and which starts with a vowel when it has
/// no onset, passes the prefix check.
pub proof fn lemma_prefix_letters_suffice(s: Seq<char>)
    requires
        forall|i: int| onset_len(onset_of(s)) <= i < s.len() ==> {
            let c = #[trigger] s[i];
            c == 'a' || c == 'ă' || c == 'â' || c == 'e' || c == 'ê' || c == 'i' || c == 'o' || c == 'ô'
                || c == 'ơ' || c == 'u' || c == 'ư' || c == 'y' || c == 'c' || c == 'h' || c == 'm'
                || c == 'n' || c == 'g' || c == 'p' || c == 't'
        },
        onset_of(s) is None && s.len() > 0 ==> (s[0] == 'a' || s[0] == 'ă' || s[0] == 'â' || s[0] == 'e'
            || s[0] == 'ê' || s[0] == 'i' || s[0] == 'o' || s[0] == 'ô' || s[0] == 'ơ' || s[0] == 'u'
            || s[0] == 'ư' || s[0] == 'y'),
    ensures
        prefix_parts_ok(s),
{
    let len = onset_len(onset_of(s));
    if onset_of(s) is Some {
        lemma_onset_is_prefix(s, 0);
    }
    let rest = s.skip(len);
    assert forall|i: int| 0 <= i < rest.len() implies is_vowel_spec(#[trigger] rest[i]) || is_coda_spec(
        rest[i],
    ) by {
        assert(rest[i] == s[i + len]);
    }
    if onset_of(s) is None && rest.len() > 0 {
        assert(rest[0] == s[0]);
    }
}

/// Every legal syllable is also a legal syllable prefix: a word that is
/// already a complete syllable is never auto-restored.
pub proof fn lemma_valid_syllable_is_valid_prefix(s: Seq<char>)
    requires
        syllable_valid(s),
    ensures
        prefix_valid(s),
{
    lemma_parts_ok_is_prefix_ok(lowercase_str(strip_spec(s)));
}

/// Tone marks do not change whether a text is a legal syllable, nor whether
/// it is a legal syllable prefix.
pub proof fn lemma_validity_ignores_tone_marks(s: Seq<char>)
    ensures
        syllable_valid(strip_spec(s)) == syllable_valid(s),
        prefix_valid(strip_spec(s)) == prefix_valid(s),
{
    lemma_strip_idempotent(s);
}

} // verus!
