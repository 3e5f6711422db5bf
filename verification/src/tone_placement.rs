//! Placing the tone mark on the right vowel of a syllable.
use vstd::prelude::*;

use crate::text::{chars_of, string_of};
use crate::types::{Tone, TonePlacementMode};
use crate::validator::{
    is_vowel_char, is_vowel_spec, prefix_valid, strip_char, strip_spec, syllable_valid,
};

verus! {

/// The vowel `c` carrying `tone`. `Flat` and characters that are not one of
/// the twelve toneless vowels are returned unchanged.
pub open spec fn toned_spec(c: char, tone: Tone) -> char {
    match tone {
        Tone::Flat => c,
        Tone::Grave => match c {
            'a' => 'à',
            'â' => 'ầ',
            'ă' => 'ằ',
            'e' => 'è',
            'ê' => 'ề',
            'i' => 'ì',
            'o' => 'ò',
            'ô' => 'ồ',
            'ơ' => 'ờ',
            'u' => 'ù',
            'ư' => 'ừ',
            'y' => 'ỳ',
            _ => c,
        },
        Tone::Sharp => match c {
            'a' => 'á',
            'â' => 'ấ',
            'ă' => 'ắ',
            'e' => 'é',
            'ê' => 'ế',
            'i' => 'í',
            'o' => 'ó',
            'ô' => 'ố',
            'ơ' => 'ớ',
            'u' => 'ú',
            'ư' => 'ứ',
            'y' => 'ý',
            _ => c,
        },
        Tone::Hook => match c {
            'a' => 'ả',
            'â' => 'ẩ',
            'ă' => 'ẳ',
            'e' => 'ẻ',
            'ê' => 'ể',
            'i' => 'ỉ',
            'o' => 'ỏ',
            'ô' => 'ổ',
            'ơ' => 'ở',
            'u' => 'ủ',
            'ư' => 'ử',
            'y' => 'ỷ',
            _ => c,
        },
        Tone::Tilde => match c {
            'a' => 'ã',
            'â' => 'ẫ',
            'ă' => 'ẵ',
            'e' => 'ẽ',
            'ê' => 'ễ',
            'i' => 'ĩ',
            'o' => 'õ',
            'ô' => 'ỗ',
            'ơ' => 'ỡ',
            'u' => 'ũ',
            'ư' => 'ữ',
            'y' => 'ỹ',
            _ => c,
        },
        Tone::Dot => match c {
            'a' => 'ạ',
            'â' => 'ậ',
            'ă' => 'ặ',
            'e' => 'ẹ',
            'ê' => 'ệ',
            'i' => 'ị',
            'o' => 'ọ',
            'ô' => 'ộ',
            'ơ' => 'ợ',
            'u' => 'ụ',
            'ư' => 'ự',
            'y' => 'ỵ',
            _ => c,
        },
    }
}

/// The vowel `c` carrying `tone` (see `toned_spec`).
pub fn toned_vowel(c: char, tone: Tone) -> (r: char)
    ensures
        r == toned_spec(c, tone),
{
    match tone {
        Tone::Flat => c,
        Tone::Grave => match c {
            'a' => 'à',
            'â' => 'ầ',
            'ă' => 'ằ',
            'e' => 'è',
            'ê' => 'ề',
            'i' => 'ì',
            'o' => 'ò',
            'ô' => 'ồ',
            'ơ' => 'ờ',
            'u' => 'ù',
            'ư' => 'ừ',
            'y' => 'ỳ',
            _ => c,
        },
        Tone::Sharp => match c {
            'a' => 'á',
            'â' => 'ấ',
            'ă' => 'ắ',
            'e' => 'é',
            'ê' => 'ế',
            'i' => 'í',
            'o' => 'ó',
            'ô' => 'ố',
            'ơ' => 'ớ',
            'u' => 'ú',
            'ư' => 'ứ',
            'y' => 'ý',
            _ => c,
        },
        Tone::Hook => match c {
            'a' => 'ả',
            'â' => 'ẩ',
            'ă' => 'ẳ',
            'e' => 'ẻ',
            'ê' => 'ể',
            'i' => 'ỉ',
            'o' => 'ỏ',
            'ô' => 'ổ',
            'ơ' => 'ở',
            'u' => 'ủ',
            'ư' => 'ử',
            'y' => 'ỷ',
            _ => c,
        },
        Tone::Tilde => match c {
            'a' => 'ã',
            'â' => 'ẫ',
            'ă' => 'ẵ',
            'e' => 'ẽ',
            'ê' => 'ễ',
            'i' => 'ĩ',
            'o' => 'õ',
            'ô' => 'ỗ',
            'ơ' => 'ỡ',
            'u' => 'ũ',
            'ư' => 'ữ',
            'y' => 'ỹ',
            _ => c,
        },
        Tone::Dot => match c {
            'a' => 'ạ',
            'â' => 'ậ',
            'ă' => 'ặ',
            'e' => 'ẹ',
            'ê' => 'ệ',
            'i' => 'ị',
            'o' => 'ọ',
            'ô' => 'ộ',
            'ơ' => 'ợ',
            'u' => 'ụ',
            'ư' => 'ự',
            'y' => 'ỵ',
            _ => c,
        },
    }
}

/// Vowels that already carry a diacritic of their own.
pub open spec fn has_diacritic(c: char) -> bool {
    match c {
        'ă' | 'â' | 'ê' | 'ô' | 'ơ' | 'ư' => true,
        _ => false,
    }
}

fn has_diacritic_exec(c: char) -> (r: bool)
    ensures
        r == has_diacritic(c),
{
    matches!(c, 'ă' | 'â' | 'ê' | 'ô' | 'ơ' | 'ư')
}

/// Index of the first vowel of `s` at or after `i` (`s.len()` if none).
pub open spec fn first_vowel_from(s: Seq<char>, i: int) -> int
    decreases s.len() - i,
{
    if i >= s.len() {
        s.len() as int
    } else if is_vowel_spec(s[i]) {
        i
    } else {
        first_vowel_from(s, i + 1)
    }
}

/// Index just past the run of vowels that starts at `i`.
pub open spec fn vowel_run_end(s: Seq<char>, i: int) -> int
    decreases s.len() - i,
{
    if i >= s.len() {
        s.len() as int
    } else if is_vowel_spec(s[i]) {
        vowel_run_end(s, i + 1)
    } else {
        i
    }
}

/// Index of the last vowel with a diacritic in `s[lo..hi]`.
pub open spec fn last_diacritic_in(s: Seq<char>, lo: int, hi: int) -> Option<int>
    decreases hi - lo,
{
    if hi <= lo {
        None
    } else if has_diacritic(s[hi - 1]) {
        Some(hi - 1)
    } else {
        last_diacritic_in(s, lo, hi - 1)
    }
}

/// Where the nucleus starts: at the first vowel, except that the `u` of `qu`
/// and the `i` of `gi` belong to the onset when another vowel follows them.
pub open spec fn nucleus_start(s: Seq<char>) -> int {
    let f = first_vowel_from(s, 0);
    if f == 1 && s.len() > 2 && ((s[0] == 'q' && s[1] == 'u') || (s[0] == 'g' && s[1] == 'i'))
        && is_vowel_spec(s[2]) {
        2
    } else {
        f
    }
}

/// Open two-vowel nuclei that the modern style marks on the second vowel.
pub open spec fn modern_second(a: char, b: char) -> bool {
    (a == 'o' && (b == 'a' || b == 'e')) || (a == 'u' && b == 'y')
}

/// The index of the vowel that carries the tone mark, if `s` has a vowel:
/// the last vowel of the nucleus with a diacritic of its own; else the only
/// vowel; else, before a coda, the last vowel; else the middle one of three;
/// else, of two, the first, except that the modern style marks the second of
/// `oa`, `oe` and `uy`.
pub open spec fn tone_position_spec(s: Seq<char>, placement: TonePlacementMode) -> Option<int> {
    let start = nucleus_start(s);
    if start >= s.len() {
        None
    } else {
        let end = vowel_run_end(s, start);
        match last_diacritic_in(s, start, end) {
            Some(p) => Some(p),
            None => if end - start == 1 {
                Some(start)
            } else if end < s.len() {
                Some(end - 1)
            } else if end - start >= 3 {
                Some(start + 1)
            } else if placement == TonePlacementMode::Modern && modern_second(s[start], s[start + 1]) {
                Some(start + 1)
            } else {
                Some(start)
            },
        }
    }
}

/// `s` with `tone` marked on its tone-carrying vowel; unchanged for `Flat`
/// and for a text without vowels.
pub open spec fn apply_tone_spec(s: Seq<char>, tone: Tone, placement: TonePlacementMode) -> Seq<char> {
    if tone == Tone::Flat {
        s
    } else {
        match tone_position_spec(s, placement) {
            Some(p) => s.update(p, toned_spec(s[p], tone)),
            None => s,
        }
    }
}

proof fn lemma_first_vowel_bounds(s: Seq<char>, i: int)
    requires
        0 <= i,
    ensures
        i <= first_vowel_from(s, i) <= s.len() || (i > s.len() && first_vowel_from(s, i) == s.len()),
        first_vowel_from(s, i) < s.len() ==> is_vowel_spec(s[first_vowel_from(s, i)]),
    decreases s.len() - i,
{
    if i < s.len() && !is_vowel_spec(s[i]) {
        lemma_first_vowel_bounds(s, i + 1);
    }
}

proof fn lemma_run_end_bounds(s: Seq<char>, i: int)
    requires
        0 <= i <= s.len(),
    ensures
        i <= vowel_run_end(s, i) <= s.len(),
        forall|k: int| i <= k < vowel_run_end(s, i) ==> is_vowel_spec(#[trigger] s[k]),
        vowel_run_end(s, i) < s.len() ==> !is_vowel_spec(s[vowel_run_end(s, i)]),
        i < s.len() && is_vowel_spec(s[i]) ==> vowel_run_end(s, i) > i,
    decreases s.len() - i,
{
    if i < s.len() && is_vowel_spec(s[i]) {
        lemma_run_end_bounds(s, i + 1);
    }
}

proof fn lemma_last_diacritic_bounds(s: Seq<char>, lo: int, hi: int)
    ensures
        last_diacritic_in(s, lo, hi) matches Some(p) ==> lo <= p < hi && has_diacritic(s[p]),
    decreases hi - lo,
{
    if hi > lo && !has_diacritic(s[hi - 1]) {
        lemma_last_diacritic_bounds(s, lo, hi - 1);
    }
}

/// The tone-carrying vowel is a vowel of `s`.
pub proof fn lemma_tone_position_is_vowel(s: Seq<char>, placement: TonePlacementMode)
    ensures
        tone_position_spec(s, placement) matches Some(p) ==> 0 <= p < s.len() && is_vowel_spec(s[p]),
{
    lemma_first_vowel_bounds(s, 0);
    let start = nucleus_start(s);
    if start < s.len() {
        lemma_run_end_bounds(s, start);
        let end = vowel_run_end(s, start);
        lemma_last_diacritic_bounds(s, start, end);
    }
}

fn nucleus_start_exec(s: &[char]) -> (r: usize)
    ensures
        r == nucleus_start(s@),
{
    let mut f: usize = 0;
    while f < s.len() && !is_vowel_char(s[f])
        invariant
            f <= s@.len(),
            first_vowel_from(s@, 0) == first_vowel_from(s@, f as int),
        decreases s@.len() - f,
    {
        f = f + 1;
    }
    if f == 1 && s.len() > 2 && ((s[0] == 'q' && s[1] == 'u') || (s[0] == 'g' && s[1] == 'i'))
        && is_vowel_char(s[2]) {
        2
    } else {
        f
    }
}

fn vowel_run_end_exec(s: &[char], start: usize) -> (r: usize)
    requires
        start <= s@.len(),
    ensures
        r == vowel_run_end(s@, start as int),
{
    let mut e: usize = start;
    while e < s.len() && is_vowel_char(s[e])
        invariant
            start <= e <= s@.len(),
            vowel_run_end(s@, start as int) == vowel_run_end(s@, e as int),
        decreases s@.len() - e,
    {
        e = e + 1;
    }
    e
}

fn last_diacritic_exec(s: &[char], lo: usize, hi: usize) -> (r: Option<usize>)
    requires
        lo <= hi <= s@.len(),
    ensures
        match r {
            Some(p) => last_diacritic_in(s@, lo as int, hi as int) == Some(p as int),
            None => last_diacritic_in(s@, lo as int, hi as int) is None,
        },
{
    let mut h: usize = hi;
    while h > lo
        invariant
            lo <= h <= hi,
            hi <= s@.len(),
            last_diacritic_in(s@, lo as int, hi as int) == last_diacritic_in(s@, lo as int, h as int),
        decreases h - lo,
    {
        if has_diacritic_exec(s[h - 1]) {
            return Some(h - 1);
        }
        h = h - 1;
    }
    None
}

/// The index of the vowel of `s` that carries the tone mark.
pub fn tone_position(s: &[char], placement: TonePlacementMode) -> (r: Option<usize>)
    ensures
        match r {
            Some(p) => tone_position_spec(s@, placement) == Some(p as int),
            None => tone_position_spec(s@, placement) is None,
        },
{
    let start = nucleus_start_exec(s);
    if start >= s.len() {
        return None;
    }
    let end = vowel_run_end_exec(s, start);
    proof {
        lemma_first_vowel_bounds(s@, 0);
        lemma_run_end_bounds(s@, start as int);
    }
    match last_diacritic_exec(s, start, end) {
        Some(p) => Some(p),
        None => {
            if end - start == 1 {
                Some(start)
            } else if end < s.len() {
                Some(end - 1)
            } else if end - start >= 3 {
                Some(start + 1)
            } else if placement == TonePlacementMode::Modern && ((s[start] == 'o' && (s[start
                + 1] == 'a' || s[start + 1] == 'e')) || (s[start] == 'u' && s[start + 1] == 'y')) {
                Some(start + 1)
            } else {
                Some(start)
            }
        },
    }
}

/// Marks `tone` on the tone-carrying vowel of the characters `bare`.
pub fn apply_tone_chars(bare: &[char], tone: Tone, placement: TonePlacementMode) -> (r: Vec<char>)
    ensures
        r@ == apply_tone_spec(bare@, tone, placement),
{
    let mut out = vstd::slice::slice_to_vec(bare);
    if tone == Tone::Flat {
        return out;
    }
    proof {
        lemma_tone_position_is_vowel(bare@, placement);
    }
    match tone_position(bare, placement) {
        Some(p) => {
            let c = toned_vowel(bare[p], tone);
            out.set(p, c);
            out
        },
        None => out,
    }
}

/// Marks `tone` on the right vowel of the bare syllable `bare`.
pub fn apply_tone(bare: &str, tone: Tone, placement: TonePlacementMode) -> (r: String)
    ensures
        r@ == apply_tone_spec(bare@, tone, placement),
{
    let chars = chars_of(bare);
    let toned = apply_tone_chars(chars.as_slice(), tone, placement);
    string_of(toned.as_slice())
}

// ── Laws ────────────────────────────────────────────────────────────────────

/// Stripping the tone mark off a toned vowel gives back the vowel.
pub proof fn lemma_strip_toned_vowel(c: char, tone: Tone)
    requires
        is_vowel_spec(c),
    ensures
        strip_char(toned_spec(c, tone)) == c,
        strip_char(c) == c,
{
}

/// Marking a tone changes no letter but the tone: stripping tone marks
/// afterwards gives what stripping gave before.
pub proof fn lemma_strip_undoes_tone(s: Seq<char>, tone: Tone, placement: TonePlacementMode)
    ensures
        strip_spec(apply_tone_spec(s, tone, placement)) == strip_spec(s),
        apply_tone_spec(s, tone, placement).len() == s.len(),
{
    lemma_tone_position_is_vowel(s, placement);
    if tone != Tone::Flat {
        if let Some(p) = tone_position_spec(s, placement) {
            lemma_strip_toned_vowel(s[p], tone);
            assert(strip_spec(apply_tone_spec(s, tone, placement)) =~= strip_spec(s));
        }
    }
}

/// The flat tone leaves a syllable as it is.
pub proof fn lemma_flat_tone_is_identity(s: Seq<char>, placement: TonePlacementMode)
    ensures
        apply_tone_spec(s, Tone::Flat, placement) == s,
{
}

/// Marking a tone never changes whether a text is a legal syllable, or a
/// legal syllable prefix.
pub proof fn lemma_tone_keeps_validity(s: Seq<char>, tone: Tone, placement: TonePlacementMode)
    ensures
        syllable_valid(apply_tone_spec(s, tone, placement)) == syllable_valid(s),
        prefix_valid(apply_tone_spec(s, tone, placement)) == prefix_valid(s),
{
    lemma_strip_undoes_tone(s, tone, placement);
}

/// `c` is a combining diacritical mark (U+0300 to U+036F), the kind of
/// character a decomposed (non-NFC) text uses for tone marks.
pub open spec fn is_combining_mark(c: char) -> bool {
    0x300 <= (c as u32) && (c as u32) <= 0x36F
}

/// No character of `s` is a combining mark.
pub open spec fn no_combining_marks(s: Seq<char>) -> bool {
    forall|i: int| 0 <= i < s.len() ==> !is_combining_mark(#[trigger] s[i])
}

/// A vowel carrying a tone is one precomposed character.
pub proof fn lemma_toned_is_precomposed(c: char, tone: Tone)
    requires
        !is_combining_mark(c),
    ensures
        !is_combining_mark(toned_spec(c, tone)),
{
}

/// Tone placement writes precomposed letters (NFC): it adds no combining
/// mark, and keeps the length of the text.
pub proof fn lemma_tone_output_precomposed(s: Seq<char>, tone: Tone, placement: TonePlacementMode)
    requires
        no_combining_marks(s),
    ensures
        no_combining_marks(apply_tone_spec(s, tone, placement)),
        apply_tone_spec(s, tone, placement).len() == s.len(),
{
    lemma_strip_undoes_tone(s, tone, placement);
    lemma_tone_position_is_vowel(s, placement);
    if tone != Tone::Flat {
        if let Some(p) = tone_position_spec(s, placement) {
            lemma_toned_is_precomposed(s[p], tone);
        }
    }
}

proof fn lemma_first_vowel_is(s: Seq<char>, i: int, k: int)
    requires
        0 <= i <= k < s.len(),
        is_vowel_spec(s[k]),
        forall|j: int| i <= j < k ==> !is_vowel_spec(#[trigger] s[j]),
    ensures
        first_vowel_from(s, i) == k,
    decreases k - i,
{
    if i < k {
        lemma_first_vowel_is(s, i + 1, k);
    }
}

/// An open syllable whose nucleus is one of the two-vowel groups `ai`, `ao`,
/// `au`, `ay`, `eo`, `ia`, `iu`, `oi`, `ua`, `ui` carries its tone on the
/// first vowel of the group, in the modern and in the classic style alike
/// (the `i` of `gi` and the `u` of `qu` belong to the onset, so `gia` and
/// `qua` are left out).
pub proof fn lemma_open_pair_marks_first(onset: Seq<char>, a: char, b: char, tone: Tone, placement: TonePlacementMode)
    requires
        forall|j: int| 0 <= j < onset.len() ==> !is_vowel_spec(#[trigger] onset[j]),
        (a, b) == ('a', 'i') || (a, b) == ('a', 'o') || (a, b) == ('a', 'u') || (a, b) == ('a', 'y')
            || (a, b) == ('e', 'o') || (a, b) == ('i', 'a') || (a, b) == ('i', 'u') || (a, b) == ('o', 'i')
            || (a, b) == ('u', 'a') || (a, b) == ('u', 'i'),
        !(onset == seq!['q'] && a == 'u'),
        !(onset == seq!['g'] && a == 'i'),
    ensures
        tone_position_spec(onset + seq![a, b], placement) == Some(onset.len() as int),
        apply_tone_spec(onset + seq![a, b], tone, placement) == onset + seq![toned_spec(a, tone), b],
{
    let s = onset + seq![a, b];
    let k = onset.len() as int;
    assert forall|j: int| 0 <= j < k implies !is_vowel_spec(#[trigger] s[j]) by {
        assert(s[j] == onset[j]);
    }
    assert(s[k] == a && s[k + 1] == b);
    lemma_first_vowel_is(s, 0, k);
    if k == 1 {
        assert(s[0] == onset[0]);
        assert(onset =~= seq![onset[0]]);
    }
    assert(nucleus_start(s) == k);
    assert(vowel_run_end(s, k + 2) == k + 2);
    assert(vowel_run_end(s, k + 1) == k + 2);
    assert(vowel_run_end(s, k) == k + 2);
    assert(last_diacritic_in(s, k, k) is None);
    assert(last_diacritic_in(s, k, k + 1) is None);
    assert(last_diacritic_in(s, k, k + 2) is None);
    if tone != Tone::Flat {
        assert(s.update(k, toned_spec(a, tone)) =~= onset + seq![toned_spec(a, tone), b]);
    } else {
        assert(s =~= onset + seq![toned_spec(a, tone), b]);
    }
}

/// The two styles differ only on an open syllable that ends in `oa`, `oe`
/// or `uy` with neither vowel carrying a diacritic: the modern style marks
/// its second vowel, the classic style its first.
pub proof fn lemma_styles_differ_only_on_oa_oe_uy(s: Seq<char>)
    ensures
        tone_position_spec(s, TonePlacementMode::Modern) != tone_position_spec(s, TonePlacementMode::Classic)
            ==> {
            let st = nucleus_start(s);
            &&& 0 <= st && st + 2 == s.len()
            &&& (s[st] == 'o' && (s[st + 1] == 'a' || s[st + 1] == 'e')) || (s[st] == 'u' && s[st + 1] == 'y')
            &&& tone_position_spec(s, TonePlacementMode::Modern) == Some(st + 1)
            &&& tone_position_spec(s, TonePlacementMode::Classic) == Some(st)
        },
{
    lemma_first_vowel_bounds(s, 0);
    let start = nucleus_start(s);
    if start < s.len() {
        lemma_run_end_bounds(s, start);
    }
}

proof fn lemma_run_end_is(s: Seq<char>, i: int, e: int)
    requires
        0 <= i <= e <= s.len(),
        forall|j: int| i <= j < e ==> is_vowel_spec(#[trigger] s[j]),
        e == s.len() || !is_vowel_spec(s[e]),
    ensures
        vowel_run_end(s, i) == e,
    decreases e - i,
{
    if i < e {
        lemma_run_end_is(s, i + 1, e);
    }
}

proof fn lemma_last_diacritic_is(s: Seq<char>, lo: int, hi: int, d: int)
    requires
        lo <= d < hi,
        has_diacritic(s[d]),
        forall|j: int| d < j < hi ==> !has_diacritic(#[trigger] s[j]),
    ensures
        last_diacritic_in(s, lo, hi) == Some(d),
    decreases hi - lo,
{
    if hi - 1 > d {
        lemma_last_diacritic_is(s, lo, hi - 1, d);
    }
}

proof fn lemma_no_diacritic(s: Seq<char>, lo: int, hi: int)
    requires
        forall|j: int| lo <= j < hi ==> !has_diacritic(#[trigger] s[j]),
    ensures
        last_diacritic_in(s, lo, hi) is None,
    decreases hi - lo,
{
    if hi > lo {
        lemma_no_diacritic(s, lo, hi - 1);
    }
}

/// Where the nucleus of `onset + nucleus + coda` lies, when the onset holds
/// no vowel, the nucleus only vowels and the coda starts with a consonant.
proof fn lemma_syllable_split(onset: Seq<char>, nucleus: Seq<char>, coda: Seq<char>)
    requires
        forall|j: int| 0 <= j < onset.len() ==> !is_vowel_spec(#[trigger] onset[j]),
        nucleus.len() > 0,
        forall|j: int| 0 <= j < nucleus.len() ==> is_vowel_spec(#[trigger] nucleus[j]),
        coda.len() > 0 ==> !is_vowel_spec(coda[0]),
        !(onset == seq!['q'] && nucleus[0] == 'u'),
        !(onset == seq!['g'] && nucleus[0] == 'i'),
    ensures
        nucleus_start(onset + nucleus + coda) == onset.len(),
        vowel_run_end(onset + nucleus + coda, onset.len() as int) == onset.len() + nucleus.len(),
        forall|j: int| 0 <= j < nucleus.len() ==> (onset + nucleus + coda)[onset.len() + j] == nucleus[j],
{
    let s = onset + nucleus + coda;
    let k = onset.len() as int;
    let e = k + nucleus.len();
    assert forall|j: int| 0 <= j < k implies !is_vowel_spec(#[trigger] s[j]) by {
        assert(s[j] == onset[j]);
    }
    assert forall|j: int| k <= j < e implies is_vowel_spec(#[trigger] s[j]) by {
        assert(s[j] == nucleus[j - k]);
    }
    assert(s[k] == nucleus[0]);
    if e < s.len() {
        assert(s[e] == coda[0]);
    }
    lemma_first_vowel_is(s, 0, k);
    lemma_run_end_is(s, k, e);
    if k == 1 {
        assert(s[0] == onset[0]);
        assert(onset =~= seq![onset[0]]);
    }
    assert forall|j: int| 0 <= j < nucleus.len() implies s[k + j] == nucleus[j] by {}
}

/// When the nucleus holds a vowel with a diacritic of its own (ă, â, ê, ô,
/// ơ, ư), the tone goes on the last of them, in both styles and with or
/// without a coda (tiếng, người, muốn, cứu).
pub proof fn lemma_tone_on_last_marked_vowel(
    onset: Seq<char>,
    nucleus: Seq<char>,
    coda: Seq<char>,
    d: int,
    placement: TonePlacementMode,
)
    requires
        forall|j: int| 0 <= j < onset.len() ==> !is_vowel_spec(#[trigger] onset[j]),
        nucleus.len() > 0,
        forall|j: int| 0 <= j < nucleus.len() ==> is_vowel_spec(#[trigger] nucleus[j]),
        coda.len() > 0 ==> !is_vowel_spec(coda[0]),
        !(onset == seq!['q'] && nucleus[0] == 'u'),
        !(onset == seq!['g'] && nucleus[0] == 'i'),
        0 <= d < nucleus.len(),
        nucleus[d] == 'ă' || nucleus[d] == 'â' || nucleus[d] == 'ê' || nucleus[d] == 'ô'
            || nucleus[d] == 'ơ' || nucleus[d] == 'ư',
        forall|j: int| d < j < nucleus.len() ==> {
            let c = #[trigger] nucleus[j];
            c != 'ă' && c != 'â' && c != 'ê' && c != 'ô' && c != 'ơ' && c != 'ư'
        },
    ensures
        tone_position_spec(onset + nucleus + coda, placement) == Some(onset.len() + d),
{
    let s = onset + nucleus + coda;
    let k = onset.len() as int;
    lemma_syllable_split(onset, nucleus, coda);
    assert(s[k + d] == nucleus[d]);
    assert forall|j: int| k + d < j < k + nucleus.len() implies !has_diacritic(#[trigger] s[j]) by {
        assert(s[j] == nucleus[j - k]);
    }
    lemma_last_diacritic_is(s, k, k + nucleus.len(), k + d);
}

/// A nucleus of two plain vowels (a, e, i, o, u, y) followed by a coda
/// carries the tone on its second vowel, in both styles (hoàn, toán, khoát,
/// tuýt).
pub proof fn lemma_closed_pair_marks_second(
    onset: Seq<char>,
    a: char,
    b: char,
    coda: Seq<char>,
    placement: TonePlacementMode,
)
    requires
        forall|j: int| 0 <= j < onset.len() ==> !is_vowel_spec(#[trigger] onset[j]),
        a == 'a' || a == 'e' || a == 'i' || a == 'o' || a == 'u' || a == 'y',
        b == 'a' || b == 'e' || b == 'i' || b == 'o' || b == 'u' || b == 'y',
        coda.len() > 0,
        !is_vowel_spec(coda[0]),
        !(onset == seq!['q'] && a == 'u'),
        !(onset == seq!['g'] && a == 'i'),
    ensures
        tone_position_spec(onset + seq![a, b] + coda, placement) == Some(onset.len() + 1int),
{
    let s = onset + seq![a, b] + coda;
    let k = onset.len() as int;
    lemma_syllable_split(onset, seq![a, b], coda);
    assert(s[k] == a && s[k + 1] == b);
    lemma_no_diacritic(s, k, k + 2);
}

/// A nucleus of one vowel carries the tone, in both styles (há, hàm, quá,
/// gió): after `qu` and `gi` that vowel is the one after the glide.
pub proof fn lemma_single_vowel_marked(onset: Seq<char>, v: char, coda: Seq<char>, placement: TonePlacementMode)
    requires
        forall|j: int| 0 <= j < onset.len() ==> !is_vowel_spec(#[trigger] onset[j]),
        is_vowel_spec(v),
        coda.len() > 0 ==> !is_vowel_spec(coda[0]),
    ensures
        !(onset == seq!['q'] && v == 'u') && !(onset == seq!['g'] && v == 'i')
            ==> tone_position_spec(onset + seq![v] + coda, placement) == Some(onset.len() as int),
        tone_position_spec(seq!['q', 'u', v] + coda, placement) == Some(2int),
        tone_position_spec(seq!['g', 'i', v] + coda, placement) == Some(2int),
{
    let k = onset.len() as int;
    if !(onset == seq!['q'] && v == 'u') && !(onset == seq!['g'] && v == 'i') {
        let s = onset + seq![v] + coda;
        lemma_syllable_split(onset, seq![v], coda);
        assert(s[k] == v);
        if has_diacritic(v) {
            lemma_last_diacritic_is(s, k, k + 1, k);
        } else {
            lemma_no_diacritic(s, k, k + 1);
        }
    }
    let s = seq!['q', 'u', v] + coda;
    let t = seq!['g', 'i', v] + coda;
    assert(s[0] == 'q' && s[1] == 'u' && s[2] == v);
    assert(t[0] == 'g' && t[1] == 'i' && t[2] == v);
    assert(first_vowel_from(s, 1) == 1);
    assert(first_vowel_from(s, 0) == 1);
    assert(first_vowel_from(t, 1) == 1);
    assert(first_vowel_from(t, 0) == 1);
    if s.len() > 3 {
        assert(s[3] == coda[0]);
        assert(t[3] == coda[0]);
    }
    lemma_run_end_is(s, 2, 3);
    lemma_run_end_is(t, 2, 3);
    if has_diacritic(v) {
        lemma_last_diacritic_is(s, 2, 3, 2);
        lemma_last_diacritic_is(t, 2, 3, 2);
    } else {
        lemma_no_diacritic(s, 2, 3);
        lemma_no_diacritic(t, 2, 3);
    }
}

/// An open syllable whose nucleus is three plain vowels (a, e, i, o, u, y)
/// carries the tone on the middle one, in both styles (ngoài, khuỷu, ngoáy).
pub proof fn lemma_open_triple_marks_middle(
    onset: Seq<char>,
    a: char,
    b: char,
    c: char,
    placement: TonePlacementMode,
)
    requires
        forall|j: int| 0 <= j < onset.len() ==> !is_vowel_spec(#[trigger] onset[j]),
        a == 'a' || a == 'e' || a == 'i' || a == 'o' || a == 'u' || a == 'y',
        b == 'a' || b == 'e' || b == 'i' || b == 'o' || b == 'u' || b == 'y',
        c == 'a' || c == 'e' || c == 'i' || c == 'o' || c == 'u' || c == 'y',
        !(onset == seq!['q'] && a == 'u'),
        !(onset == seq!['g'] && a == 'i'),
    ensures
        tone_position_spec(onset + seq![a, b, c], placement) == Some(onset.len() + 1int),
{
    let s = onset + seq![a, b, c];
    let k = onset.len() as int;
    lemma_syllable_split(onset, seq![a, b, c], Seq::empty());
    assert(onset + seq![a, b, c] + Seq::<char>::empty() =~= s);
    assert(s[k] == a && s[k + 1] == b && s[k + 2] == c);
    lemma_no_diacritic(s, k, k + 3);
}

} // verus!
