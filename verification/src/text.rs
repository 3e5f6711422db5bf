use vstd::prelude::*;

verus! {

/// Appends `c` to `s`.
///
/// Calls `String::push`, which per its documentation appends the given char
/// to the end of the string; the contract states exactly that.
#[verifier::external_body]
pub(crate) fn push_char(s: &mut String, c: char)
    ensures
        final(s)@ == old(s)@.push(c),
{
    s.push(c);
}

/// The first character of the Unicode lowercase mapping of `c`, as
/// `char::to_lowercase` yields it.
pub uninterp spec fn lowercase_first(c: char) -> char;

/// The Unicode lowercase of the text `s`, as `str::to_lowercase` returns it.
pub uninterp spec fn lowercase_str(s: Seq<char>) -> Seq<char>;

/// ASCII lowercasing: `A`..`Z` become `a`..`z`, every other character stays.
pub open spec fn ascii_lower(c: char) -> char {
    if 'A' <= c && c <= 'Z' {
        ((c as u32) + 32) as char
    } else {
        c
    }
}

/// A lowercase Vietnamese letter outside ASCII: `đ`, the vowels with a
/// diacritic (`â`, `ư`, ...) and the lowercase vowels carrying a tone mark.
/// None of them has a lowercase mapping of its own.
pub open spec fn viet_lowercase_letter(c: char) -> bool {
    c == 'đ' || crate::validator::base_vowel_spec(c) is Some
}

/// Characters whose lowercase `ascii_lower` gives: ASCII characters and the
/// lowercase Vietnamese letters.
pub open spec fn simple_lowercase(c: char) -> bool {
    (c as u32) < 128 || viet_lowercase_letter(c)
}

/// True when every character of `s` is one whose lowercase `ascii_lower` gives.
pub open spec fn all_simple_lowercase(s: Seq<char>) -> bool {
    forall|i: int| 0 <= i < s.len() ==> simple_lowercase(#[trigger] s[i])
}

/// Lowercases one character.
///
/// Calls `char::to_lowercase` and takes the first character it yields (the
/// iterator always yields at least one). The result is named
/// `lowercase_first(c)`; beyond that the contract states what the Unicode
/// data gives plainly: uppercase ASCII letters map to their lowercase letter,
/// and a character without a lowercase mapping (other ASCII characters, the
/// lowercase Vietnamese letters) is yielded unchanged. Nothing is stated of
/// other characters, such as uppercase Vietnamese letters.
#[verifier::external_body]
pub(crate) fn lower_char(c: char) -> (r: char)
    ensures
        r == lowercase_first(c),
        simple_lowercase(c) ==> r == ascii_lower(c),
{
    c.to_lowercase().next().unwrap_or(c)
}

/// Lowercases a whole text.
///
/// Calls `str::to_lowercase`. The result is named `lowercase_str(s@)`; the
/// contract states, beyond the name, that a text made only of ASCII
/// characters and lowercase Vietnamese letters is lowercased character by
/// character: ASCII uppercase letters become lowercase and every other of
/// these characters, having no lowercase mapping, stays. Nothing is stated of
/// texts holding other characters (Unicode lowercasing may change their
/// length, and maps the final capital sigma by context).
#[verifier::external_body]
pub(crate) fn lowercase_string(s: &str) -> (r: String)
    ensures
        r@ == lowercase_str(s@),
        all_simple_lowercase(s@) ==> r@ == s@.map_values(|c: char| ascii_lower(c)),
{
    s.to_lowercase()
}

/// Collects the characters of `s`.
pub fn chars_of(s: &str) -> (r: Vec<char>)
    ensures
        r@ == s@,
{
    let mut out: Vec<char> = Vec::new();
    for c in it: s.chars()
        invariant
            out@ == it.seq().take(it.index() as int),
            it.seq() == s@,
    {
        out.push(c);
    }
    out
}

/// Builds a `String` holding exactly the given characters.
pub fn string_of(v: &[char]) -> (r: String)
    ensures
        r@ == v@,
{
    assert(v@.skip(0) =~= v@);
    string_from(v, 0)
}

/// Builds a `String` holding the characters of `v` from index `start` on.
pub fn string_from(v: &[char], start: usize) -> (r: String)
    requires
        start <= v@.len(),
    ensures
        r@ == v@.skip(start as int),
{
    let mut out = String::new();
    let mut i: usize = start;
    while i < v.len()
        invariant
            start <= i <= v@.len(),
            out@ == v@.subrange(start as int, i as int),
        decreases v@.len() - i,
    {
        push_char(&mut out, v[i]);
        i = i + 1;
        assert(out@ =~= v@.subrange(start as int, i as int));
    }
    assert(v@.subrange(start as int, v@.len() as int) =~= v@.skip(start as int));
    out
}

/// A `String` holding the single character `ch`.
pub fn char_string(ch: char) -> (r: String)
    ensures
        r@ == seq![ch],
{
    let mut s = String::new();
    push_char(&mut s, ch);
    s
}

} // verus!
