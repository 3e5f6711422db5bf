//! Input methods: turning the raw keystrokes of a word into a bare syllable
//! and a tone.
pub mod telex;
pub mod vni;

pub use telex::TelexMethod;
pub use vni::VniMethod;


use vstd::prelude::*;

use crate::types::Tone;
use crate::validator::is_vowel_spec;

verus! {

/// Result of processing the raw buffer through an input method.
#[derive(Debug, Clone, PartialEq, Eq)]
pub struct MethodResult {
    /// The bare syllable (diacritics applied, no tone mark yet).
    pub bare: String,
    /// The tone extracted from the key sequence.
    pub tone: Tone,
    /// True if the sequence is unambiguously non-Vietnamese (auto-restore).
    pub is_foreign: bool,
}

pub trait InputMethodProcessor {
    /// Process the full raw buffer and return a MethodResult.
    /// Returns None if the buffer is empty.
    fn process(&self, raw: &str) -> (r: Option<MethodResult>)
        ensures
            r is None <==> raw@.len() == 0,
    ;
}

/// `s` holds one of the twelve toneless vowel letters.
pub open spec fn has_vowel_spec(s: Seq<char>) -> bool {
    exists|i: int| 0 <= i < s.len() && is_vowel_spec(#[trigger] s[i])
}

/// True if `s` holds a vowel letter.
pub fn has_vowel(s: &[char]) -> (r: bool)
    ensures
        r == has_vowel_spec(s@),
{
    let mut i: usize = 0;
    while i < s.len()
        invariant
            i <= s@.len(),
            forall|j: int| 0 <= j < i ==> !is_vowel_spec(#[trigger] s@[j]),
        decreases s@.len() - i,
    {
        if crate::validator::is_vowel_char(s[i]) {
            return true;
        }
        i = i + 1;
    }
    false
}

} // verus!
