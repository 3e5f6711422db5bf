//! The Telex input method.
use vstd::prelude::*;

use super::{has_vowel, has_vowel_spec, InputMethodProcessor, MethodResult};
use crate::text::{all_simple_lowercase, ascii_lower, chars_of, lower_char, lowercase_first, string_of};
use crate::types::Tone;
use crate::validator::{is_valid_prefix, prefix_valid, simple_prefix_valid, strip_spec};

verus! {

pub struct TelexMethod;

impl InputMethodProcessor for TelexMethod {
    fn process(&self, raw: &str) -> (r: Option<MethodResult>)
        ensures
            r is None <==> raw@.len() == 0,
            r matches Some(m) ==> m.bare@ == telex_spec(raw@).0 && m.tone == telex_spec(raw@).1
                && m.is_foreign == !prefix_valid(m.bare@)
                && (all_simple_lowercase(strip_spec(m.bare@)) ==> m.is_foreign == !simple_prefix_valid(m.bare@)),
            r matches Some(m) ==> (all_simple_lowercase(raw@) ==> (m.bare@, m.tone) == telex_compose_spec(raw@.map_values(|c: char| ascii_lower(c)))),
    {
        if raw.is_empty() {
            return None;
        }
        Some(process_telex(raw))
    }
}

// ── Tone keys ────────────────────────────────────────────────────────────────

/// The tone a Telex key selects: s sắc, f huyền, r hỏi, x ngã, j nặng, z none.
pub open spec fn tone_key_spec(c: char) -> Option<Tone> {
    match c {
        's' => Some(Tone::Sharp),
        'f' => Some(Tone::Grave),
        'r' => Some(Tone::Hook),
        'x' => Some(Tone::Tilde),
        'j' => Some(Tone::Dot),
        'z' => Some(Tone::Flat),
        _ => None,
    }
}

fn tone_key(ch: char) -> (r: Option<Tone>)
    ensures
        r == tone_key_spec(ch),
{
    match ch {
        's' => Some(Tone::Sharp),
        'f' => Some(Tone::Grave),
        'r' => Some(Tone::Hook),
        'x' => Some(Tone::Tilde),
        'j' => Some(Tone::Dot),
        'z' => Some(Tone::Flat),
        _ => None,
    }
}

// ── Diacritic pairs ─────────────────────────────────────────────────────────

/// The letter that the key `ch` turns the letter `last` into: aa → â, aw → ă,
/// ee → ê, oo → ô, ow → ơ, uw → ư, dd → đ, and the same key once more turns
/// the marked letter back into the plain one.
pub open spec fn pair_target(last: char, ch: char) -> Option<char> {
    match (last, ch) {
        ('a', 'a') => Some('â'),
        ('â', 'a') => Some('a'),
        ('a', 'w') => Some('ă'),
        ('ă', 'w') => Some('a'),
        ('e', 'e') => Some('ê'),
        ('ê', 'e') => Some('e'),
        ('o', 'o') => Some('ô'),
        ('ô', 'o') => Some('o'),
        ('o', 'w') => Some('ơ'),
        ('ơ', 'w') => Some('o'),
        ('u', 'w') => Some('ư'),
        ('ư', 'w') => Some('u'),
        ('d', 'd') => Some('đ'),
        ('đ', 'd') => Some('d'),
        _ => None,
    }
}

/// The pair takes a mark off (a restore) rather than putting one on.
pub open spec fn pair_restores(last: char) -> bool {
    match last {
        'â' | 'ă' | 'ê' | 'ô' | 'ơ' | 'ư' | 'đ' => true,
        _ => false,
    }
}

/// The syllable after the key `ch` forms a diacritic pair with the end of
/// `syllable`, or `None` when it forms none.
pub open spec fn diacritic_pair_spec(syllable: Seq<char>, ch: char) -> Option<Seq<char>> {
    if syllable.len() == 0 {
        None
    } else {
        match pair_target(syllable.last(), ch) {
            Some(c) => Some(syllable.drop_last().push(c)),
            None => None,
        }
    }
}

enum PairResult {
    Replace(Vec<char>),
    Restore(Vec<char>),
}

/// Check whether the new character `ch` forms a diacritic pair with the end
/// of `syllable`. Returns the new syllable on match, or None.
fn diacritic_pair(syllable: &[char], ch: char) -> (r: Option<PairResult>)
    ensures
        match r {
            Some(PairResult::Replace(v)) => diacritic_pair_spec(syllable@, ch) == Some(v@)
                && !pair_restores(syllable@.last()),
            Some(PairResult::Restore(v)) => diacritic_pair_spec(syllable@, ch) == Some(v@)
                && pair_restores(syllable@.last()),
            None => diacritic_pair_spec(syllable@, ch) is None,
        },
{
    if syllable.len() == 0 {
        return None;
    }
    let last = syllable[syllable.len() - 1];
    let mut prefix: Vec<char> = Vec::new();
    let n = syllable.len() - 1;
    let mut i: usize = 0;
    while i < n
        invariant
            n == syllable@.len() - 1,
            i <= n,
            prefix@ == syllable@.take(i as int),
        decreases syllable@.len() - i,
    {
        prefix.push(syllable[i]);
        i = i + 1;
        assert(prefix@ =~= syllable@.take(i as int));
    }
    assert(prefix@ =~= syllable@.drop_last());
    match (last, ch) {
        // aa → â  (if already ends with â → restore to a)
        ('a', 'a') => { prefix.push('â'); Some(PairResult::Replace(prefix)) },
        ('â', 'a') => { prefix.push('a'); Some(PairResult::Restore(prefix)) },
        // aw → ă
        ('a', 'w') => { prefix.push('ă'); Some(PairResult::Replace(prefix)) },
        ('ă', 'w') => { prefix.push('a'); Some(PairResult::Restore(prefix)) },
        // ee → ê
        ('e', 'e') => { prefix.push('ê'); Some(PairResult::Replace(prefix)) },
        ('ê', 'e') => { prefix.push('e'); Some(PairResult::Restore(prefix)) },
        // oo → ô
        ('o', 'o') => { prefix.push('ô'); Some(PairResult::Replace(prefix)) },
        ('ô', 'o') => { prefix.push('o'); Some(PairResult::Restore(prefix)) },
        // ow → ơ
        ('o', 'w') => { prefix.push('ơ'); Some(PairResult::Replace(prefix)) },
        ('ơ', 'w') => { prefix.push('o'); Some(PairResult::Restore(prefix)) },
        // uw → ư
        ('u', 'w') => { prefix.push('ư'); Some(PairResult::Replace(prefix)) },
        ('ư', 'w') => { prefix.push('u'); Some(PairResult::Restore(prefix)) },
        // dd → đ
        ('d', 'd') => { prefix.push('đ'); Some(PairResult::Replace(prefix)) },
        ('đ', 'd') => { prefix.push('d'); Some(PairResult::Restore(prefix)) },
        _ => None,
    }
}

// ── The composition state machine ───────────────────────────────────────────

/// One Telex key (already lowercased) applied to (syllable, tone):
/// a tone key sets the tone when the syllable has a vowel (`z` always);
/// otherwise a key that forms a diacritic pair with the last letter rewrites
/// it; otherwise the key is a letter of the syllable.
pub open spec fn telex_step(state: (Seq<char>, Tone), lower: char) -> (Seq<char>, Tone) {
    let (syllable, tone) = state;
    if tone_key_spec(lower) is Some && (has_vowel_spec(syllable) || tone_key_spec(lower)->0
        == Tone::Flat) {
        (syllable, tone_key_spec(lower)->0)
    } else {
        match diacritic_pair_spec(syllable, lower) {
            Some(s) => (s, tone),
            None => (syllable.push(lower), tone),
        }
    }
}

/// A key taken as a letter: it rewrites the last letter when the two form a
/// diacritic pair, and is added to the syllable otherwise.
pub open spec fn letter_step(syllable: Seq<char>, lower: char) -> Seq<char> {
    match diacritic_pair_spec(syllable, lower) {
        Some(s) => s,
        None => syllable.push(lower),
    }
}

/// The syllable the lowercased keys `lowered` spell when every key, tone keys
/// included, is taken as a letter.
pub open spec fn telex_letters(lowered: Seq<char>) -> Seq<char>
    decreases lowered.len(),
{
    if lowered.len() == 0 {
        Seq::empty()
    } else {
        letter_step(telex_letters(lowered.drop_last()), lowered.last())
    }
}

/// (bare syllable, tone) after the lowercased keys `lowered`. Tone keys are
/// suffixes: only the tone keys that end the sequence act as tones (each as
/// `telex_step` says); a key followed by any other key is a letter, and a
/// sequence that ends in a letter has the flat tone.
pub open spec fn telex_compose_spec(lowered: Seq<char>) -> (Seq<char>, Tone)
    decreases lowered.len(),
{
    if lowered.len() == 0 {
        (Seq::empty(), Tone::Flat)
    } else if tone_key_spec(lowered.last()) is Some {
        telex_step(telex_compose_spec(lowered.drop_last()), lowered.last())
    } else {
        (telex_letters(lowered), Tone::Flat)
    }
}

/// (bare syllable, tone) that the Telex keystrokes `raw` produce.
pub open spec fn telex_spec(raw: Seq<char>) -> (Seq<char>, Tone) {
    telex_compose_spec(raw.map_values(|c: char| lowercase_first(c)))
}

struct TelexState {
    /// Accumulated bare consonants + vowels (no tone mark).
    syllable: Vec<char>,
    /// Current tone.
    tone: Tone,
}

impl TelexState {
    /// A key of the ending run of tone keys.
    fn push(&mut self, lower: char)
        ensures
            (final(self).syllable@, final(self).tone) == telex_step(
                (old(self).syllable@, old(self).tone),
                lower,
            ),
    {
        // --- Tone key? ---
        if let Some(tone) = tone_key(lower) {
            // Tone keys apply if the syllable has a vowel; 'z' always resets.
            if has_vowel(self.syllable.as_slice()) || tone == Tone::Flat {
                self.tone = tone;
                return;
            }
            // Otherwise fall through and treat as a literal character.
        }
        self.push_letter(lower);
    }

    /// A key taken as a letter.
    fn push_letter(&mut self, lower: char)
        ensures
            final(self).syllable@ == letter_step(old(self).syllable@, lower),
            final(self).tone == old(self).tone,
    {
        // --- Diacritic pair? ---
        if let Some(replacement) = diacritic_pair(self.syllable.as_slice(), lower) {
            match replacement {
                PairResult::Replace(new_syl) => {
                    self.syllable = new_syl;
                    return;
                },
                PairResult::Restore(new_syl) => {
                    self.syllable = new_syl;
                    return;
                },
            }
        }
        // --- Regular character ---
        self.syllable.push(lower);
    }

    fn finish(self) -> (r: MethodResult)
        ensures
            r.bare@ == self.syllable@,
            r.tone == self.tone,
            r.is_foreign == !prefix_valid(self.syllable@),
            all_simple_lowercase(strip_spec(self.syllable@)) ==> r.is_foreign == !simple_prefix_valid(self.syllable@),
    {
        let bare = string_of(self.syllable.as_slice());
        // The word is unambiguously foreign when it cannot start a syllable.
        let is_foreign = !is_valid_prefix(bare.as_str());
        MethodResult { bare, tone: self.tone, is_foreign }
    }
}

/// Runs the Telex rules over keys that are already lowercased.
pub fn compose_telex(lowered: &[char]) -> (r: MethodResult)
    ensures
        r.bare@ == telex_compose_spec(lowered@).0,
        r.tone == telex_compose_spec(lowered@).1,
        r.is_foreign == !prefix_valid(r.bare@),
        all_simple_lowercase(strip_spec(r.bare@)) ==> r.is_foreign == !simple_prefix_valid(r.bare@),
{
    // The keys before the ending run of tone keys are letters.
    let mut body: usize = lowered.len();
    while body > 0 && tone_key(lowered[body - 1]).is_some()
        invariant
            body <= lowered@.len(),
            forall|j: int| body <= j < lowered@.len() ==> tone_key_spec(#[trigger] lowered@[j]) is Some,
        decreases body,
    {
        body = body - 1;
    }
    let mut state = TelexState { syllable: Vec::new(), tone: Tone::Flat };
    let mut i: usize = 0;
    while i < body
        invariant
            body <= lowered@.len(),
            i <= body,
            state.syllable@ == telex_letters(lowered@.take(i as int)),
            state.tone == Tone::Flat,
        decreases body - i,
    {
        assert(lowered@.take(i + 1).drop_last() =~= lowered@.take(i as int));
        state.push_letter(lowered[i]);
        i = i + 1;
    }
    if body > 0 {
        assert(lowered@.take(body as int).last() == lowered@[body - 1]);
    }
    while i < lowered.len()
        invariant
            body <= i <= lowered@.len(),
            forall|j: int| body <= j < lowered@.len() ==> tone_key_spec(#[trigger] lowered@[j]) is Some,
            (state.syllable@, state.tone) == telex_compose_spec(lowered@.take(i as int)),
        decreases lowered@.len() - i,
    {
        assert(lowered@.take(i + 1).drop_last() =~= lowered@.take(i as int));
        assert(lowered@.take(i + 1).last() == lowered@[i as int]);
        state.push(lowered[i]);
        i = i + 1;
    }
    assert(lowered@.take(lowered@.len() as int) =~= lowered@);
    state.finish()
}

/// Process a raw Telex keystroke sequence into a bare syllable + tone.
///
/// Telex rules:
///   Vowel diacritics (by doubling or special key):
///     aa → â,  aw → ă,  ee → ê,  oo → ô,  ow → ơ,  uw → ư,  dd → đ
///   Tone suffix (last unambiguous tone key wins):
///     s → sắc, f → huyền, r → hỏi, x → ngã, j → nặng, z → ngang (remove)
///     A tone key followed by another key is a letter, so "test" stays "test".
///   Restore: typing the base letter a third time restores the base letter
///     (e.g. "aaa" → "a").
pub fn process_telex(raw: &str) -> (r: MethodResult)
    ensures
        r.bare@ == telex_spec(raw@).0,
        r.tone == telex_spec(raw@).1,
        r.is_foreign == !prefix_valid(r.bare@),
        all_simple_lowercase(strip_spec(r.bare@)) ==> r.is_foreign == !simple_prefix_valid(r.bare@),
        all_simple_lowercase(raw@) ==> (r.bare@, r.tone) == telex_compose_spec(raw@.map_values(|c: char| ascii_lower(c))),
{
    let chars = chars_of(raw);
    let mut lowered: Vec<char> = Vec::new();
    let mut i: usize = 0;
    while i < chars.len()
        invariant
            i <= chars@.len(),
            chars@ == raw@,
            lowered@ == raw@.take(i as int).map_values(|c: char| lowercase_first(c)),
            all_simple_lowercase(raw@) ==> lowered@ == raw@.take(i as int).map_values(|c: char| ascii_lower(c)),
        decreases chars@.len() - i,
    {
        let l = lower_char(chars[i]);
        assert(raw@[i as int] == chars@[i as int]);
        lowered.push(l);
        i = i + 1;
        assert(lowered@ =~= raw@.take(i as int).map_values(|c: char| lowercase_first(c)));
        assert(all_simple_lowercase(raw@) ==> lowered@ =~= raw@.take(i as int).map_values(|c: char| ascii_lower(c)));
    }
    assert(raw@.take(raw@.len() as int) =~= raw@);
    compose_telex(lowered.as_slice())
}

// ── Laws ────────────────────────────────────────────────────────────────────

/// The diacritic pairs: after a plain letter that a key marks (aa → â,
/// aw → ă, ee → ê, oo → ô, ow → ơ, uw → ư, dd → đ) the key replaces it with
/// the marked letter, and after the marked letter the same key restores the
/// plain one; an empty syllable forms no pair.
pub proof fn lemma_telex_diacritic_pairs(prefix: Seq<char>, letter: char, key: char)
    requires
        pair_target(letter, key) is Some,
        !pair_restores(letter),
    ensures
        diacritic_pair_spec(prefix.push(letter), key) == Some(prefix.push(pair_target(letter, key)->0)),
        diacritic_pair_spec(prefix.push(pair_target(letter, key)->0), key) == Some(prefix.push(letter)),
        pair_restores(pair_target(letter, key)->0),
        diacritic_pair_spec(Seq::empty(), key) is None,
{
    let marked = pair_target(letter, key)->0;
    assert(prefix.push(letter).drop_last() =~= prefix);
    assert(prefix.push(marked).drop_last() =~= prefix);
}

/// The marking pairs are exactly aa → â, aw → ă, ee → ê, oo → ô, ow → ơ,
/// uw → ư and dd → đ; any other last letter and key form no pair, and
/// leave the syllable to take the key as a letter.
pub proof fn lemma_telex_marking_pairs(syllable: Seq<char>, letter: char, key: char)
    ensures
        (pair_target(letter, key) is Some && !pair_restores(letter)) <==> (
            (letter, key) == ('a', 'a') || (letter, key) == ('a', 'w') || (letter, key) == ('e', 'e')
            || (letter, key) == ('o', 'o') || (letter, key) == ('o', 'w') || (letter, key) == ('u', 'w')
            || (letter, key) == ('d', 'd')),
        pair_target('a', 'a') == Some('â'),
        pair_target('a', 'w') == Some('ă'),
        pair_target('e', 'e') == Some('ê'),
        pair_target('o', 'o') == Some('ô'),
        pair_target('o', 'w') == Some('ơ'),
        pair_target('u', 'w') == Some('ư'),
        pair_target('d', 'd') == Some('đ'),
        pair_target(letter, key) is None ==> diacritic_pair_spec(syllable.push(letter), key) is None
            && letter_step(syllable.push(letter), key) == syllable.push(letter).push(key),
{
}

/// Restore: after a letter that a key marks, pressing the key twice gives the
/// plain letter back ("aaa" → "a"), whatever came before.
pub proof fn lemma_telex_pair_restores(syllable: Seq<char>, letter: char, key: char)
    requires
        pair_target(letter, key) is Some,
    ensures
        letter_step(letter_step(syllable.push(letter), key), key) == syllable.push(letter),
{
    let marked = pair_target(letter, key)->0;
    assert(syllable.push(letter).drop_last() =~= syllable);
    assert(syllable.push(marked).drop_last() =~= syllable);
}

/// Tone keys are suffixes: when the keys end in a key that is not a tone key,
/// every key is a letter and the tone is flat.
pub proof fn lemma_telex_tone_keys_are_suffixes(lowered: Seq<char>)
    requires
        lowered.len() > 0,
        tone_key_spec(lowered.last()) is None,
    ensures
        telex_compose_spec(lowered) == (telex_letters(lowered), Tone::Flat),
{
}

/// The bare syllable has no more letters than there are keys.
pub proof fn lemma_telex_len(lowered: Seq<char>)
    ensures
        telex_letters(lowered).len() <= lowered.len(),
        telex_compose_spec(lowered).0.len() <= lowered.len(),
    decreases lowered.len(),
{
    if lowered.len() > 0 {
        lemma_telex_len(lowered.drop_last());
        let prev = telex_letters(lowered.drop_last());
        if prev.len() > 0 {
            assert(prev.drop_last().len() == prev.len() - 1);
        }
    }
}

/// The last tone key wins: once the syllable has a vowel (for `z`, always),
/// a tone key sets the tone and leaves the letters as they are.
pub proof fn lemma_telex_last_tone_key_wins(lowered: Seq<char>, key: char)
    requires
        tone_key_spec(key) is Some,
        has_vowel_spec(telex_compose_spec(lowered).0) || key == 'z',
    ensures
        telex_compose_spec(lowered.push(key)) == (
            telex_compose_spec(lowered).0,
            tone_key_spec(key)->0,
        ),
{
    assert(lowered.push(key).drop_last() =~= lowered);
}

/// Once the syllable has a vowel, a final s gives sắc, f huyền, r hỏi,
/// x ngã, j nặng, and z takes the tone off; the letters stay as they are.
pub proof fn lemma_telex_tone_key_meanings(lowered: Seq<char>, key: char)
    requires
        has_vowel_spec(telex_compose_spec(lowered).0),
        key == 's' || key == 'f' || key == 'r' || key == 'x' || key == 'j' || key == 'z',
    ensures
        telex_compose_spec(lowered.push(key)).0 == telex_compose_spec(lowered).0,
        telex_compose_spec(lowered.push(key)).1 == if key == 's' {
            Tone::Sharp
        } else if key == 'f' {
            Tone::Grave
        } else if key == 'r' {
            Tone::Hook
        } else if key == 'x' {
            Tone::Tilde
        } else if key == 'j' {
            Tone::Dot
        } else {
            Tone::Flat
        },
{
    assert(lowered.push(key).drop_last() =~= lowered);
}

/// Before the syllable has a vowel, the tone keys s, f, r, x, j are
/// letters: they are added to the syllable and the tone stays.
pub proof fn lemma_telex_tone_key_without_vowel(lowered: Seq<char>, key: char)
    requires
        !has_vowel_spec(telex_compose_spec(lowered).0),
        key == 's' || key == 'f' || key == 'r' || key == 'x' || key == 'j',
    ensures
        telex_compose_spec(lowered.push(key)) == (
            telex_compose_spec(lowered).0.push(key),
            telex_compose_spec(lowered).1,
        ),
{
    assert(lowered.push(key).drop_last() =~= lowered);
}

} // verus!
