//! The VNI input method.
use vstd::prelude::*;

use super::{has_vowel, has_vowel_spec, InputMethodProcessor, MethodResult};
use crate::text::{all_simple_lowercase, ascii_lower, chars_of, lower_char, lowercase_first, string_of};
use crate::types::Tone;
use crate::validator::{is_valid_prefix, prefix_valid, simple_prefix_valid, strip_spec};

verus! {

pub struct VniMethod;

impl InputMethodProcessor for VniMethod {
    fn process(&self, raw: &str) -> (r: Option<MethodResult>)
        ensures
            r is None <==> raw@.len() == 0,
            r matches Some(m) ==> m.bare@ == vni_spec(raw@).0 && m.tone == vni_spec(raw@).1
                && m.is_foreign == !prefix_valid(m.bare@)
                && (all_simple_lowercase(strip_spec(m.bare@)) ==> m.is_foreign == !simple_prefix_valid(m.bare@)),
            r matches Some(m) ==> (all_simple_lowercase(raw@) ==> (m.bare@, m.tone) == vni_compose_spec(raw@, raw@.map_values(|c: char| ascii_lower(c)))),
    {
        if raw.is_empty() {
            return None;
        }
        Some(process_vni(raw))
    }
}

/// A diacritic that a VNI digit puts on a vowel.
pub enum Mark {
    /// 6: a → â, e → ê, o → ô
    Circumflex,
    /// 7 on u: u → ư
    HornU,
    /// 7 on o: o → ơ
    HornO,
    /// 8: a → ă
    Breve,
}

/// The letter `c` carrying `mark`, if the mark applies to it.
pub open spec fn mark_target(mark: Mark, c: char) -> Option<char> {
    match mark {
        Mark::Circumflex => match c {
            'a' => Some('â'),
            'e' => Some('ê'),
            'o' => Some('ô'),
            _ => None,
        },
        Mark::HornU => if c == 'u' {
            Some('ư')
        } else {
            None
        },
        Mark::HornO => if c == 'o' {
            Some('ơ')
        } else {
            None
        },
        Mark::Breve => if c == 'a' {
            Some('ă')
        } else {
            None
        },
    }
}

fn mark_target_exec(mark: &Mark, c: char) -> (r: Option<char>)
    ensures
        r == mark_target(*mark, c),
{
    match mark {
        Mark::Circumflex => match c {
            'a' => Some('â'),
            'e' => Some('ê'),
            'o' => Some('ô'),
            _ => None,
        },
        Mark::HornU => if c == 'u' {
            Some('ư')
        } else {
            None
        },
        Mark::HornO => if c == 'o' {
            Some('ơ')
        } else {
            None
        },
        Mark::Breve => if c == 'a' {
            Some('ă')
        } else {
            None
        },
    }
}

/// Index of the last letter of `s[..hi]` that `mark` applies to.
pub open spec fn last_markable(s: Seq<char>, mark: Mark, hi: int) -> Option<int>
    decreases hi,
{
    if hi <= 0 {
        None
    } else if mark_target(mark, s[hi - 1]) is Some {
        Some(hi - 1)
    } else {
        last_markable(s, mark, hi - 1)
    }
}

/// `s` with `mark` put on the last letter it applies to; `None` if there is none.
pub open spec fn mark_last_spec(s: Seq<char>, mark: Mark) -> Option<Seq<char>> {
    match last_markable(s, mark, s.len() as int) {
        Some(i) => Some(s.update(i, mark_target(mark, s[i])->0)),
        None => None,
    }
}

/// Index of the first `u` directly followed by `o` in `s[i..]`.
pub open spec fn find_uo_from(s: Seq<char>, i: int) -> Option<int>
    decreases s.len() - i,
{
    if i + 1 >= s.len() {
        None
    } else if s[i] == 'u' && s[i + 1] == 'o' {
        Some(i)
    } else {
        find_uo_from(s, i + 1)
    }
}

/// The horn (7): the first `uo` becomes `ươ`; otherwise the last `u` becomes
/// `ư`; otherwise the last `o` becomes `ơ`.
pub open spec fn horn_spec(s: Seq<char>) -> Option<Seq<char>> {
    match find_uo_from(s, 0) {
        Some(p) => Some(s.update(p, 'ư').update(p + 1, 'ơ')),
        None => match mark_last_spec(s, Mark::HornU) {
            Some(t) => Some(t),
            None => mark_last_spec(s, Mark::HornO),
        },
    }
}

/// The stroke (9): a leading `d` becomes `đ`.
pub open spec fn stroke_d_spec(s: Seq<char>) -> Option<Seq<char>> {
    if s.len() > 0 && s[0] == 'd' {
        Some(s.update(0, 'đ'))
    } else {
        None
    }
}

/// The tone a VNI digit selects: 1 sắc, 2 huyền, 3 hỏi, 4 ngã, 5 nặng, 0 none.
pub open spec fn tone_digit(c: char) -> Option<Tone> {
    match c {
        '1' => Some(Tone::Sharp),
        '2' => Some(Tone::Grave),
        '3' => Some(Tone::Hook),
        '4' => Some(Tone::Tilde),
        '5' => Some(Tone::Dot),
        '0' => Some(Tone::Flat),
        _ => None,
    }
}

/// The syllable after a diacritic digit (6 to 9), or `None` if the digit
/// finds no letter to mark.
pub open spec fn mark_digit_spec(s: Seq<char>, c: char) -> Option<Seq<char>> {
    match c {
        '6' => mark_last_spec(s, Mark::Circumflex),
        '7' => horn_spec(s),
        '8' => mark_last_spec(s, Mark::Breve),
        _ => stroke_d_spec(s),
    }
}

/// One VNI key `ch` (with `lower` its lowercase) applied to (syllable, tone):
/// a tone digit sets the tone when the syllable has a vowel and is a letter
/// otherwise; a diacritic digit marks its letter, and is a letter when there
/// is none; any other key is added lowercased.
pub open spec fn vni_step(state: (Seq<char>, Tone), ch: char, lower: char) -> (Seq<char>, Tone) {
    let (syllable, tone) = state;
    if tone_digit(ch) is Some {
        if has_vowel_spec(syllable) {
            (syllable, tone_digit(ch)->0)
        } else {
            (syllable.push(ch), tone)
        }
    } else if ch == '6' || ch == '7' || ch == '8' || ch == '9' {
        match mark_digit_spec(syllable, ch) {
            Some(s) => (s, tone),
            None => (syllable.push(ch), tone),
        }
    } else {
        (syllable.push(lower), tone)
    }
}

/// (bare syllable, tone) after the keys `raw`, whose lowercase forms are
/// `lowered`, from an empty syllable with the flat tone.
pub open spec fn vni_compose_spec(raw: Seq<char>, lowered: Seq<char>) -> (Seq<char>, Tone)
    decreases raw.len(),
{
    if raw.len() == 0 {
        (Seq::empty(), Tone::Flat)
    } else {
        vni_step(
            vni_compose_spec(raw.drop_last(), lowered.take(raw.len() - 1)),
            raw.last(),
            lowered[raw.len() - 1],
        )
    }
}

/// (bare syllable, tone) that the VNI keystrokes `raw` produce.
pub open spec fn vni_spec(raw: Seq<char>) -> (Seq<char>, Tone) {
    vni_compose_spec(raw, raw.map_values(|c: char| lowercase_first(c)))
}

/// Replace the last letter of `s` that `mark` applies to. Returns true if a
/// replacement was made.
fn replace_last_vowel(s: &mut Vec<char>, mark: Mark) -> (r: bool)
    ensures
        r == (mark_last_spec(old(s)@, mark) is Some),
        r ==> final(s)@ == mark_last_spec(old(s)@, mark)->0,
        !r ==> final(s)@ == old(s)@,
{
    let mut i: usize = s.len();
    while i > 0
        invariant
            i <= s@.len(),
            s@ == old(s)@,
            last_markable(s@, mark, s@.len() as int) == last_markable(s@, mark, i as int),
        decreases i,
    {
        if let Some(replacement) = mark_target_exec(&mark, s[i - 1]) {
            s.set(i - 1, replacement);
            return true;
        }
        i = i - 1;
    }
    false
}

/// Apply circumflex to the last eligible vowel (a→â, e→ê, o→ô). Returns true if applied.
fn apply_circumflex(s: &mut Vec<char>) -> (r: bool)
    ensures
        r == (mark_digit_spec(old(s)@, '6') is Some),
        r ==> final(s)@ == mark_digit_spec(old(s)@, '6')->0,
        !r ==> final(s)@ == old(s)@,
{
    replace_last_vowel(s, Mark::Circumflex)
}

/// Apply horn (o→ơ, u→ư). Returns true if applied.
/// The compound "uo" cluster → "ươ" both chars together.
fn apply_horn(s: &mut Vec<char>) -> (r: bool)
    ensures
        r == (mark_digit_spec(old(s)@, '7') is Some),
        r ==> final(s)@ == mark_digit_spec(old(s)@, '7')->0,
        !r ==> final(s)@ == old(s)@,
{
    // Handle "uo" compound: both u and o get horn together.
    let mut p: usize = 0;
    while p < s.len() && p + 1 < s.len()
        invariant
            p <= s@.len(),
            s@ == old(s)@,
            find_uo_from(s@, 0) == find_uo_from(s@, p as int),
        decreases s@.len() - p,
    {
        if s[p] == 'u' && s[p + 1] == 'o' {
            s.set(p, 'ư');
            s.set(p + 1, 'ơ');
            return true;
        }
        p = p + 1;
    }
    // Single vowel: try 'u' first, then 'o'.
    if replace_last_vowel(s, Mark::HornU) {
        return true;
    }
    replace_last_vowel(s, Mark::HornO)
}

/// Apply breve (a→ă). Returns true if applied.
fn apply_breve(s: &mut Vec<char>) -> (r: bool)
    ensures
        r == (mark_digit_spec(old(s)@, '8') is Some),
        r ==> final(s)@ == mark_digit_spec(old(s)@, '8')->0,
        !r ==> final(s)@ == old(s)@,
{
    replace_last_vowel(s, Mark::Breve)
}

/// Replace 'd' at the start of the syllable with 'đ'. Returns true if applied.
fn apply_stroke_d(s: &mut Vec<char>) -> (r: bool)
    ensures
        r == (mark_digit_spec(old(s)@, '9') is Some),
        r ==> final(s)@ == mark_digit_spec(old(s)@, '9')->0,
        !r ==> final(s)@ == old(s)@,
{
    if s.len() > 0 && s[0] == 'd' {
        s.set(0, 'đ');
        true
    } else {
        false
    }
}

/// Runs the VNI rules over the keys `raw`, given their lowercase forms.
pub fn compose_vni(raw: &[char], lowered: &[char]) -> (r: MethodResult)
    requires
        raw@.len() == lowered@.len(),
    ensures
        r.bare@ == vni_compose_spec(raw@, lowered@).0,
        r.tone == vni_compose_spec(raw@, lowered@).1,
        r.is_foreign == !prefix_valid(r.bare@),
        all_simple_lowercase(strip_spec(r.bare@)) ==> r.is_foreign == !simple_prefix_valid(r.bare@),
{
    let mut syllable: Vec<char> = Vec::new();
    let mut tone = Tone::Flat;
    let mut i: usize = 0;
    while i < raw.len()
        invariant
            i <= raw@.len(),
            raw@.len() == lowered@.len(),
            (syllable@, tone) == vni_compose_spec(raw@.take(i as int), lowered@.take(i as int)),
        decreases raw@.len() - i,
    {
        let ghost before = (syllable@, tone);
        assert(raw@.take(i + 1).drop_last() =~= raw@.take(i as int));
        assert(lowered@.take(i + 1).take(i as int) =~= lowered@.take(i as int));
        let ch = raw[i];
        match ch {
            '1' => { if has_vowel(syllable.as_slice()) { tone = Tone::Sharp; } else { syllable.push(ch); } },
            '2' => { if has_vowel(syllable.as_slice()) { tone = Tone::Grave; } else { syllable.push(ch); } },
            '3' => { if has_vowel(syllable.as_slice()) { tone = Tone::Hook; } else { syllable.push(ch); } },
            '4' => { if has_vowel(syllable.as_slice()) { tone = Tone::Tilde; } else { syllable.push(ch); } },
            '5' => { if has_vowel(syllable.as_slice()) { tone = Tone::Dot; } else { syllable.push(ch); } },
            '0' => { if has_vowel(syllable.as_slice()) { tone = Tone::Flat; } else { syllable.push(ch); } },
            '6' => {
                if apply_circumflex(&mut syllable) { /* applied */ } else { syllable.push(ch); }
            },
            '7' => {
                if apply_horn(&mut syllable) { /* applied */ } else { syllable.push(ch); }
            },
            '8' => {
                if apply_breve(&mut syllable) { /* applied */ } else { syllable.push(ch); }
            },
            '9' => {
                if apply_stroke_d(&mut syllable) { /* applied */ } else { syllable.push(ch); }
            },
            _ => {
                syllable.push(lowered[i]);
            },
        }
        assert((syllable@, tone) == vni_step(before, raw@[i as int], lowered@[i as int]));
        i = i + 1;
    }
    assert(raw@.take(raw@.len() as int) =~= raw@);
    assert(lowered@.take(lowered@.len() as int) =~= lowered@);
    let bare = string_of(syllable.as_slice());
    // The word is unambiguously foreign when it cannot start a syllable.
    let is_foreign = !is_valid_prefix(bare.as_str());
    MethodResult { bare, tone, is_foreign }
}

/// Process a raw VNI keystroke sequence.
///
/// VNI rules:
///   1 → sắc, 2 → huyền, 3 → hỏi, 4 → ngã, 5 → nặng, 0 → remove tone
///   6 → circumflex on preceding vowel (a→â, e→ê, o→ô)
///   7 → horn on preceding vowel (o→ơ, u→ư)
///   8 → breve on preceding vowel (a→ă)
///   9 → đ (only replaces 'd' at onset)
pub fn process_vni(raw: &str) -> (r: MethodResult)
    ensures
        r.bare@ == vni_spec(raw@).0,
        r.tone == vni_spec(raw@).1,
        r.is_foreign == !prefix_valid(r.bare@),
        all_simple_lowercase(strip_spec(r.bare@)) ==> r.is_foreign == !simple_prefix_valid(r.bare@),
        all_simple_lowercase(raw@) ==> (r.bare@, r.tone) == vni_compose_spec(raw@, raw@.map_values(|c: char| ascii_lower(c))),
{
    let chars = chars_of(raw);
    let mut lowered: Vec<char> = Vec::new();
    let mut i: usize = 0;
    while i < chars.len()
        invariant
            i <= chars@.len(),
            chars@ == raw@,
            lowered@ == raw@.take(i as int).map_values(|c: char| lowercase_first(c)),
            all_simple_lowercase(raw@) ==> lowered@ == raw@.take(i as int).map_values(|c: char| ascii_lower(c)),
        decreases chars@.len() - i,
    {
        let l = lower_char(chars[i]);
        assert(raw@[i as int] == chars@[i as int]);
        lowered.push(l);
        i = i + 1;
        assert(lowered@ =~= raw@.take(i as int).map_values(|c: char| lowercase_first(c)));
        assert(all_simple_lowercase(raw@) ==> lowered@ =~= raw@.take(i as int).map_values(|c: char| ascii_lower(c)));
    }
    assert(raw@.take(raw@.len() as int) =~= raw@);
    compose_vni(chars.as_slice(), lowered.as_slice())
}

// ── Laws ────────────────────────────────────────────────────────────────────

/// The last tone digit wins: once the syllable has a vowel, a tone digit
/// sets the tone (0 removes it) and leaves the letters as they are.
pub proof fn lemma_vni_last_tone_digit_wins(raw: Seq<char>, lowered: Seq<char>, digit: char, lower: char)
    requires
        raw.len() == lowered.len(),
        tone_digit(digit) is Some,
        has_vowel_spec(vni_compose_spec(raw, lowered).0),
    ensures
        vni_compose_spec(raw.push(digit), lowered.push(lower)) == (
            vni_compose_spec(raw, lowered).0,
            tone_digit(digit)->0,
        ),
{
    assert(raw.push(digit).drop_last() =~= raw);
    assert(lowered.push(lower).take(raw.len() as int) =~= lowered);
}

/// Once the syllable has a vowel, a digit 1 gives sắc, 2 huyền, 3 hỏi,
/// 4 ngã, 5 nặng, and 0 takes the tone off; before it has one, the digit is
/// a letter of the syllable.
pub proof fn lemma_vni_tone_digit_meanings(raw: Seq<char>, lowered: Seq<char>, digit: char, lower: char)
    requires
        raw.len() == lowered.len(),
        digit == '1' || digit == '2' || digit == '3' || digit == '4' || digit == '5' || digit == '0',
    ensures
        has_vowel_spec(vni_compose_spec(raw, lowered).0) ==> vni_compose_spec(raw.push(digit), lowered.push(lower)) == (
            vni_compose_spec(raw, lowered).0,
            if digit == '1' {
                Tone::Sharp
            } else if digit == '2' {
                Tone::Grave
            } else if digit == '3' {
                Tone::Hook
            } else if digit == '4' {
                Tone::Tilde
            } else if digit == '5' {
                Tone::Dot
            } else {
                Tone::Flat
            },
        ),
        !has_vowel_spec(vni_compose_spec(raw, lowered).0) ==> vni_compose_spec(raw.push(digit), lowered.push(lower)) == (
            vni_compose_spec(raw, lowered).0.push(digit),
            vni_compose_spec(raw, lowered).1,
        ),
{
    assert(raw.push(digit).drop_last() =~= raw);
    assert(lowered.push(lower).take(raw.len() as int) =~= lowered);
}

/// The digit 9 turns a syllable's leading `d` into `đ` and keeps the tone;
/// when the syllable does not start with `d`, the digit is a letter.
pub proof fn lemma_vni_nine_strokes_leading_d(raw: Seq<char>, lowered: Seq<char>, lower: char)
    requires
        raw.len() == lowered.len(),
    ensures
        ({
            let (s, tone) = vni_compose_spec(raw, lowered);
            vni_compose_spec(raw.push('9'), lowered.push(lower)) == if s.len() > 0 && s[0] == 'd' {
                (s.update(0, 'đ'), tone)
            } else {
                (s.push('9'), tone)
            }
        }),
{
    assert(raw.push('9').drop_last() =~= raw);
    assert(lowered.push(lower).take(raw.len() as int) =~= lowered);
}

/// A diacritic digit that finds no letter to mark is kept as a letter.
pub proof fn lemma_vni_unmatched_mark_is_kept(raw: Seq<char>, lowered: Seq<char>, digit: char, lower: char)
    requires
        raw.len() == lowered.len(),
        digit == '6' || digit == '7' || digit == '8' || digit == '9',
        mark_digit_spec(vni_compose_spec(raw, lowered).0, digit) is None,
    ensures
        vni_compose_spec(raw.push(digit), lowered.push(lower)) == (
            vni_compose_spec(raw, lowered).0.push(digit),
            vni_compose_spec(raw, lowered).1,
        ),
{
    assert(raw.push(digit).drop_last() =~= raw);
    assert(lowered.push(lower).take(raw.len() as int) =~= lowered);
}

/// The letter that `last_markable` finds is the last one the mark applies
/// to, however many letters follow it.
proof fn lemma_last_markable_is(s: Seq<char>, mark: Mark, hi: int, i: int)
    requires
        0 <= i < hi <= s.len(),
        mark_target(mark, s[i]) is Some,
        forall|j: int| i < j < hi ==> mark_target(mark, #[trigger] s[j]) is None,
    ensures
        last_markable(s, mark, hi) == Some(i),
    decreases hi,
{
    if hi - 1 > i {
        lemma_last_markable_is(s, mark, hi - 1, i);
    }
}

proof fn lemma_no_uo_before(s: Seq<char>, from: int, p: int)
    requires
        0 <= from <= p,
        p + 1 < s.len(),
        s[p] == 'u' && s[p + 1] == 'o',
        forall|j: int| from <= j < p ==> !(#[trigger] s[j] == 'u' && s[j + 1] == 'o'),
    ensures
        find_uo_from(s, from) == Some(p),
    decreases p - from,
{
    if from < p {
        lemma_no_uo_before(s, from + 1, p);
    }
}

proof fn lemma_no_uo(s: Seq<char>, from: int)
    requires
        0 <= from,
        forall|j: int| from <= j && j + 1 < s.len() ==> !(#[trigger] s[j] == 'u' && s[j + 1] == 'o'),
    ensures
        find_uo_from(s, from) is None,
    decreases s.len() - from,
{
    if from + 1 < s.len() {
        lemma_no_uo(s, from + 1);
    }
}

/// The digit 6 puts the circumflex on the last `a`, `e` or `o` of the
/// syllable (a → â, e → ê, o → ô), wherever it stands, and keeps the tone.
pub proof fn lemma_vni_six_marks_last_vowel(raw: Seq<char>, lowered: Seq<char>, lower: char, i: int)
    requires
        raw.len() == lowered.len(),
        0 <= i < vni_compose_spec(raw, lowered).0.len(),
        ({
            let s = vni_compose_spec(raw, lowered).0;
            &&& s[i] == 'a' || s[i] == 'e' || s[i] == 'o'
            &&& forall|j: int| i < j < s.len() ==> #[trigger] s[j] != 'a' && s[j] != 'e' && s[j] != 'o'
        }),
    ensures
        ({
            let (s, tone) = vni_compose_spec(raw, lowered);
            vni_compose_spec(raw.push('6'), lowered.push(lower)) == (
                s.update(i, if s[i] == 'a' { 'â' } else if s[i] == 'e' { 'ê' } else { 'ô' }),
                tone,
            )
        }),
{
    let s = vni_compose_spec(raw, lowered).0;
    lemma_last_markable_is(s, Mark::Circumflex, s.len() as int, i);
    assert(raw.push('6').drop_last() =~= raw);
    assert(lowered.push(lower).take(raw.len() as int) =~= lowered);
}

/// The digit 8 puts the breve on the last `a` of the syllable (a → ă),
/// wherever it stands, and keeps the tone.
pub proof fn lemma_vni_eight_marks_last_a(raw: Seq<char>, lowered: Seq<char>, lower: char, i: int)
    requires
        raw.len() == lowered.len(),
        0 <= i < vni_compose_spec(raw, lowered).0.len(),
        vni_compose_spec(raw, lowered).0[i] == 'a',
        forall|j: int| i < j < vni_compose_spec(raw, lowered).0.len()
            ==> #[trigger] vni_compose_spec(raw, lowered).0[j] != 'a',
    ensures
        vni_compose_spec(raw.push('8'), lowered.push(lower)) == (
            vni_compose_spec(raw, lowered).0.update(i, 'ă'),
            vni_compose_spec(raw, lowered).1,
        ),
{
    let s = vni_compose_spec(raw, lowered).0;
    lemma_last_markable_is(s, Mark::Breve, s.len() as int, i);
    assert(raw.push('8').drop_last() =~= raw);
    assert(lowered.push(lower).take(raw.len() as int) =~= lowered);
}

/// The digit 7 puts the horn on the first `uo` of the syllable (uo → ươ),
/// wherever it stands, and keeps the tone.
pub proof fn lemma_vni_seven_marks_uo(raw: Seq<char>, lowered: Seq<char>, lower: char, i: int)
    requires
        raw.len() == lowered.len(),
        0 <= i && i + 1 < vni_compose_spec(raw, lowered).0.len(),
        vni_compose_spec(raw, lowered).0[i] == 'u' && vni_compose_spec(raw, lowered).0[i + 1] == 'o',
        forall|j: int| 0 <= j < i ==> !(#[trigger] vni_compose_spec(raw, lowered).0[j] == 'u'
            && vni_compose_spec(raw, lowered).0[j + 1] == 'o'),
    ensures
        vni_compose_spec(raw.push('7'), lowered.push(lower)) == (
            vni_compose_spec(raw, lowered).0.update(i, 'ư').update(i + 1, 'ơ'),
            vni_compose_spec(raw, lowered).1,
        ),
{
    let s = vni_compose_spec(raw, lowered).0;
    lemma_no_uo_before(s, 0, i);
    assert(raw.push('7').drop_last() =~= raw);
    assert(lowered.push(lower).take(raw.len() as int) =~= lowered);
}

/// Without a `uo`, the digit 7 puts the horn on the last `u` of the
/// syllable (u → ư), or, when it has no `u`, on its last `o` (o → ơ),
/// wherever that letter stands, and keeps the tone.
pub proof fn lemma_vni_seven_marks_last_u_or_o(raw: Seq<char>, lowered: Seq<char>, lower: char, i: int)
    requires
        raw.len() == lowered.len(),
        0 <= i < vni_compose_spec(raw, lowered).0.len(),
        forall|j: int| 0 <= j && j + 1 < vni_compose_spec(raw, lowered).0.len()
            ==> !(#[trigger] vni_compose_spec(raw, lowered).0[j] == 'u'
            && vni_compose_spec(raw, lowered).0[j + 1] == 'o'),
        ({
            let s = vni_compose_spec(raw, lowered).0;
            ||| s[i] == 'u' && forall|j: int| i < j < s.len() ==> #[trigger] s[j] != 'u'
            ||| s[i] == 'o' && forall|j: int| 0 <= j < s.len() ==> #[trigger] s[j] != 'u' && (j > i
                ==> s[j] != 'o')
        }),
    ensures
        ({
            let (s, tone) = vni_compose_spec(raw, lowered);
            vni_compose_spec(raw.push('7'), lowered.push(lower)) == (
                s.update(i, if s[i] == 'u' { 'ư' } else { 'ơ' }),
                tone,
            )
        }),
{
    let s = vni_compose_spec(raw, lowered).0;
    lemma_no_uo(s, 0);
    if s[i] == 'u' {
        lemma_last_markable_is(s, Mark::HornU, s.len() as int, i);
    } else {
        assert forall|j: int| 0 <= j < s.len() implies mark_target(Mark::HornU, #[trigger] s[j]) is None by {
        }
        lemma_last_markable_none(s, Mark::HornU, s.len() as int);
        lemma_last_markable_is(s, Mark::HornO, s.len() as int, i);
    }
    assert(raw.push('7').drop_last() =~= raw);
    assert(lowered.push(lower).take(raw.len() as int) =~= lowered);
}

proof fn lemma_last_markable_none(s: Seq<char>, mark: Mark, hi: int)
    requires
        hi <= s.len(),
        forall|j: int| 0 <= j < hi ==> mark_target(mark, #[trigger] s[j]) is None,
    ensures
        last_markable(s, mark, hi) is None,
    decreases hi,
{
    if hi > 0 {
        lemma_last_markable_none(s, mark, hi - 1);
    }
}

/// The bare syllable has no more letters than there are keys.
pub proof fn lemma_vni_len(raw: Seq<char>, lowered: Seq<char>)
    ensures
        vni_compose_spec(raw, lowered).0.len() <= raw.len(),
    decreases raw.len(),
{
    if raw.len() > 0 {
        lemma_vni_len(raw.drop_last(), lowered.take(raw.len() - 1));
        let prev = vni_compose_spec(raw.drop_last(), lowered.take(raw.len() - 1)).0;
        let c = raw.last();
        if c == '6' || c == '8' {
            if let Some(i) = last_markable(prev, if c == '6' { Mark::Circumflex } else { Mark::Breve }, prev.len() as int) {
                lemma_last_markable_bounds(prev, if c == '6' { Mark::Circumflex } else { Mark::Breve }, prev.len() as int);
            }
        } else if c == '7' {
            lemma_last_markable_bounds(prev, Mark::HornU, prev.len() as int);
            lemma_last_markable_bounds(prev, Mark::HornO, prev.len() as int);
            lemma_find_uo_bounds(prev, 0);
        }
    }
}

proof fn lemma_last_markable_bounds(s: Seq<char>, mark: Mark, hi: int)
    ensures
        last_markable(s, mark, hi) matches Some(i) ==> 0 <= i < hi,
    decreases hi,
{
    if hi > 0 && mark_target(mark, s[hi - 1]) is None {
        lemma_last_markable_bounds(s, mark, hi - 1);
    }
}

proof fn lemma_find_uo_bounds(s: Seq<char>, i: int)
    requires
        0 <= i,
    ensures
        find_uo_from(s, i) matches Some(p) ==> i <= p && p + 1 < s.len(),
    decreases s.len() - i,
{
    if i + 1 < s.len() && !(s[i] == 'u' && s[i + 1] == 'o') {
        lemma_find_uo_bounds(s, i + 1);
    }
}

} // verus!
