//! The engine: keystroke in, edit actions out.
use vstd::prelude::*;

use crate::buffer::{
    clear_actions_spec, common_prefix_len, diff_actions, lemma_clear_erases, lemma_common_prefix,
    lemma_diff_empty_iff_equal, lemma_diff_keeps_before,
    CompositionBuffer,
};
use crate::methods::telex::{lemma_telex_len, telex_compose_spec, telex_spec};
use crate::methods::vni::{lemma_vni_len, vni_compose_spec, vni_spec};
use crate::methods::{InputMethodProcessor, TelexMethod, VniMethod};
use crate::text::{all_simple_lowercase, ascii_lower, char_string, chars_of, lowercase_first};
use crate::tone_placement::{apply_tone, apply_tone_spec, lemma_strip_undoes_tone};
use crate::types::{
    actions_view, apply_actions, Config, EditAction, EditView, InputMethod, Keystroke, Tone,
};
use crate::validator::{
    is_valid_prefix, lemma_valid_syllable_is_valid_prefix, prefix_valid, simple_prefix_valid, strip_spec,
    syllable_valid,
};

verus! {

pub struct Engine {
    pub buffer: CompositionBuffer,
    pub config: Config,
}

/// Characters that end a word; they are passed through untouched.
/// Digits are not boundaries: VNI uses them for tones and diacritics.
pub open spec fn is_word_boundary_spec(ch: char) -> bool {
    match ch {
        ' ' | '\t' | '\n' | '\r' | '.' | ',' | '!' | '?' | ';' | ':' | '(' | ')' | '[' | ']' | '{'
        | '}' | '"' | '\'' | '`' | '/' | '\\' | '|' | '-' | '_' => true,
        _ => false,
    }
}

/// (bare syllable, tone) that `method` makes of the keystrokes `raw`.
pub open spec fn method_spec(method: InputMethod, raw: Seq<char>) -> (Seq<char>, Tone) {
    match method {
        InputMethod::Telex => telex_spec(raw),
        InputMethod::Vni => vni_spec(raw),
    }
}

/// What `method_spec` is for keys made of ASCII characters and lowercase
/// Vietnamese letters, lowercased by `ascii_lower`.
pub open spec fn method_simple_spec(method: InputMethod, raw: Seq<char>) -> (Seq<char>, Tone) {
    match method {
        InputMethod::Telex => telex_compose_spec(raw.map_values(|c: char| ascii_lower(c))),
        InputMethod::Vni => vni_compose_spec(raw, raw.map_values(|c: char| ascii_lower(c))),
    }
}

/// The keys, and the bare syllable they make with their tone marks
/// stripped, are made of ASCII characters and lowercase Vietnamese letters.
pub open spec fn simple_word(method: InputMethod, raw: Seq<char>) -> bool {
    &&& all_simple_lowercase(raw)
    &&& all_simple_lowercase(strip_spec(method_simple_spec(method, raw).0))
}

/// On such keys the method's syllable and the prefix check are those that
/// `ascii_lower` gives.
pub open spec fn simple_word_facts(method: InputMethod, raw: Seq<char>) -> bool {
    simple_word(method, raw) ==> {
        &&& method_spec(method, raw) == method_simple_spec(method, raw)
        &&& prefix_valid(method_spec(method, raw).0) == simple_prefix_valid(method_spec(method, raw).0)
    }
}

/// The keystrokes of the word once `key` is added to `raw` (a new word
/// when `raw` is already `MAX_WORD_KEYS` long).
pub open spec fn word_keys(raw: Seq<char>, key: Keystroke) -> Seq<char> {
    if raw.len() >= MAX_WORD_KEYS {
        seq![key.ch]
    } else {
        raw.push(key.ch)
    }
}

/// No Vietnamese syllable takes more keystrokes than this; a longer word is
/// committed as it stands and the next key starts a new word, so the state
/// of the engine stays bounded.
pub const MAX_WORD_KEYS: usize = 16;

/// The edits that show `target` where `displayed` is: the diff, or, when
/// nothing on screen changes, an insert of nothing, so that the shell still
/// swallows the key the engine has consumed.
pub open spec fn show_actions(displayed: Seq<char>, target: Seq<char>) -> Seq<EditView> {
    if diff_actions(displayed, target).len() == 0 {
        seq![EditView::Insert(Seq::empty())]
    } else {
        diff_actions(displayed, target)
    }
}

/// (raw keystrokes, text on screen, actions) after the word's keystrokes
/// became `raw` with `displayed` on screen: the method's bare syllable, if
/// it cannot start a Vietnamese syllable and auto-restore is on, is replaced
/// by the raw keystrokes and the buffer is emptied; otherwise the syllable
/// with its tone placed becomes the text on screen.
pub open spec fn recompute_spec(config: Config, raw: Seq<char>, displayed: Seq<char>) -> (
    Seq<char>,
    Seq<char>,
    Seq<EditView>,
) {
    if raw.len() == 0 {
        (raw, displayed, Seq::empty())
    } else {
        let (bare, tone) = method_spec(config.method, raw);
        if config.auto_restore && !prefix_valid(bare) {
            (
                Seq::empty(),
                Seq::empty(),
                clear_actions_spec(displayed).push(EditView::Insert(raw)),
            )
        } else {
            let target = apply_tone_spec(bare, tone, config.placement);
            (raw, target, show_actions(displayed, target))
        }
    }
}

/// (raw keystrokes, text on screen, actions) after the key `key`: nothing
/// happens when the engine is disabled; a boundary ends the word and is typed
/// through (a boundary key flagged by the shell with the NUL character types
/// nothing); any other key is added to the word, after committing a word
/// that already has `MAX_WORD_KEYS` keys, and the word recomputed.
pub open spec fn process_spec(config: Config, raw: Seq<char>, displayed: Seq<char>, key: Keystroke) -> (
    Seq<char>,
    Seq<char>,
    Seq<EditView>,
) {
    if !config.enabled {
        (raw, displayed, Seq::empty())
    } else if key.is_boundary {
        (
            Seq::empty(),
            Seq::empty(),
            if key.ch == '\0' {
                Seq::empty()
            } else {
                seq![EditView::Insert(seq![key.ch])]
            },
        )
    } else if is_word_boundary_spec(key.ch) {
        (Seq::empty(), Seq::empty(), seq![EditView::Insert(seq![key.ch])])
    } else if raw.len() >= MAX_WORD_KEYS {
        recompute_spec(config, seq![key.ch], Seq::empty())
    } else {
        recompute_spec(config, raw.push(key.ch), displayed)
    }
}

impl Engine {
    pub fn new(config: Config) -> (e: Self)
        ensures
            e.config == config,
            e.buffer.raw@ == Seq::<char>::empty(),
            e.buffer.displayed@ == Seq::<char>::empty(),
    {
        Self { buffer: CompositionBuffer::new(), config }
    }

    pub fn set_config(&mut self, config: Config)
        ensures
            final(self).config == config,
            final(self).buffer == old(self).buffer,
    {
        self.config = config;
    }

    /// Process one keystroke and return the edit actions the shell must execute.
    pub fn process(&mut self, key: Keystroke) -> (actions: Vec<EditAction>)
        ensures
            (final(self).buffer.raw@, final(self).buffer.displayed@, actions_view(actions@))
                == process_spec(old(self).config, old(self).buffer.raw@, old(self).buffer.displayed@, key),
            final(self).config == old(self).config,
            old(self).config.enabled && !key.is_boundary && !is_word_boundary_spec(key.ch)
                ==> simple_word_facts(old(self).config.method, word_keys(old(self).buffer.raw@, key)),
    {
        if !self.config.enabled {
            let actions: Vec<EditAction> = Vec::new();
            assert(actions_view(actions@) =~= Seq::<EditView>::empty());
            return actions;
        }
        if key.is_boundary {
            return self.commit_and_reset(Some(key.ch));
        }
        let ch = key.ch;
        // Word boundary characters — commit current word, then pass the char through.
        if is_word_boundary(ch) {
            let mut actions = self.commit_and_reset(None);
            // The boundary character itself is passed through untouched.
            actions.push(EditAction::Insert(char_string(ch)));
            assert(actions_view(actions@) =~= seq![EditView::Insert(seq![ch])]);
            return actions;
        }
        if chars_of(self.buffer.raw.as_str()).len() >= MAX_WORD_KEYS {
            // Too long to be a syllable: commit the word as it stands.
            self.buffer.reset();
            assert(self.buffer.raw@.push(ch) =~= seq![ch]);
        }
        self.buffer.push(ch);
        self.recompute()
    }

    /// Recompute the target Vietnamese word from the current raw buffer,
    /// and return the diff actions needed to update the on-screen text.
    fn recompute(&mut self) -> (actions: Vec<EditAction>)
        ensures
            (final(self).buffer.raw@, final(self).buffer.displayed@, actions_view(actions@))
                == recompute_spec(old(self).config, old(self).buffer.raw@, old(self).buffer.displayed@),
            final(self).config == old(self).config,
            old(self).buffer.raw@.len() > 0 ==> simple_word_facts(old(self).config.method, old(self).buffer.raw@),
    {
        let raw = self.buffer.raw.clone();
        let result = match self.config.method {
            InputMethod::Telex => TelexMethod.process(raw.as_str()),
            InputMethod::Vni => VniMethod.process(raw.as_str()),
        };
        let method_result = match result {
            Some(r) => r,
            None => {
                let actions: Vec<EditAction> = Vec::new();
                assert(actions_view(actions@) =~= Seq::<EditView>::empty());
                return actions;
            },
        };
        let bare = &method_result.bare;
        let tone = method_result.tone;
        // Check whether the current buffer could still form a valid Vietnamese syllable.
        // If definitely not, and auto-restore is on, output raw keystrokes.
        if self.config.auto_restore && method_result.is_foreign {
            // Auto-restore: emit raw characters and stop buffering.
            let raw_str = raw.clone();
            let ghost cleared = self.buffer.displayed@;
            let mut actions = self.buffer.clear_actions();
            actions.push(EditAction::Insert(raw_str));
            assert(actions_view(actions@) =~= clear_actions_spec(cleared).push(EditView::Insert(raw@)));
            return actions;
        }
        // Apply tone placement to form the target word.
        let target = apply_tone(bare.as_str(), tone, self.config.placement);
        let actions = self.buffer.diff_to(target.as_str());
        if actions.len() == 0 {
            // The key changed nothing on screen, but the engine consumed it.
            let mut swallow: Vec<EditAction> = Vec::new();
            swallow.push(EditAction::Insert(String::new()));
            assert(actions_view(swallow@) =~= seq![EditView::Insert(Seq::empty())]);
            return swallow;
        }
        actions
    }

    /// Commit the current buffer (validate, then clear) and return diff actions.
    /// `extra_char` is inserted literally after the commit (e.g. a space).
    fn commit_and_reset(&mut self, extra_char: Option<char>) -> (actions: Vec<EditAction>)
        ensures
            final(self).buffer.raw@ == Seq::<char>::empty(),
            final(self).buffer.displayed@ == Seq::<char>::empty(),
            final(self).config == old(self).config,
            actions_view(actions@) == match extra_char {
                Some(ch) => if ch == '\0' {
                    Seq::<EditView>::empty()
                } else {
                    seq![EditView::Insert(seq![ch])]
                },
                None => Seq::<EditView>::empty(),
            },
    {
        // On boundary, we just need to clear internal state; the text already on
        // screen was kept in sync by recompute(). No extra backspaces needed.
        self.buffer.reset();
        let mut actions: Vec<EditAction> = Vec::new();
        if let Some(ch) = extra_char {
            if ch != '\0' {
                actions.push(EditAction::Insert(char_string(ch)));
            }
        }
        assert(actions_view(actions@) =~= match extra_char {
            Some(ch) => if ch == '\0' {
                Seq::<EditView>::empty()
            } else {
                seq![EditView::Insert(seq![ch])]
            },
            None => Seq::<EditView>::empty(),
        });
        actions
    }

    /// Force-reset the buffer (e.g. on mouse click / focus change).
    pub fn reset(&mut self)
        ensures
            final(self).buffer.raw@ == Seq::<char>::empty(),
            final(self).buffer.displayed@ == Seq::<char>::empty(),
            final(self).config == old(self).config,
    {
        self.buffer.reset();
    }

    /// Returns the string currently displayed on-screen for the active word.
    /// Primarily for testing.
    pub fn current_displayed(&self) -> (s: String)
        ensures
            s@ == self.buffer.displayed@,
    {
        self.buffer.displayed.clone()
    }
}

/// True for the characters that end a word.
pub fn is_word_boundary(ch: char) -> (r: bool)
    ensures
        r == is_word_boundary_spec(ch),
{
    matches!(ch,
        ' ' | '\t' | '\n' | '\r'
        | '.' | ',' | '!' | '?' | ';' | ':'
        | '(' | ')' | '[' | ']' | '{' | '}'
        | '"' | '\'' | '`'
        | '/' | '\\' | '|' | '-' | '_'
        // Note: digits are NOT boundaries — VNI uses them for tone/diacritic input.
    )
}

// ── Laws ────────────────────────────────────────────────────────────────────

/// A disabled engine passes every key through: no actions, no change of state.
pub proof fn lemma_disabled_passes_through(config: Config, raw: Seq<char>, displayed: Seq<char>, key: Keystroke)
    requires
        !config.enabled,
    ensures
        process_spec(config, raw, displayed, key) == (raw, displayed, Seq::<EditView>::empty()),
{
}

/// A word boundary ends the word: the buffer is emptied and the boundary
/// character itself is typed.
pub proof fn lemma_boundary_commits(config: Config, raw: Seq<char>, displayed: Seq<char>, key: Keystroke)
    requires
        config.enabled,
        key.is_boundary || is_word_boundary_spec(key.ch),
        key.ch != '\0',
    ensures
        process_spec(config, raw, displayed, key) == (
            Seq::<char>::empty(),
            Seq::<char>::empty(),
            seq![EditView::Insert(seq![key.ch])],
        ),
{
}

/// The word-ending characters are exactly space, tab, newline, carriage
/// return and the punctuation `. , ! ? ; : ( ) [ ] { } " ' ` / \ | - _`
/// (digits are not among them: VNI types tones with them). On an enabled
/// engine each of them commits the word, whatever it was, and is typed
/// through as it stands.
pub proof fn lemma_punctuation_ends_word(
    config: Config,
    raw: Seq<char>,
    displayed: Seq<char>,
    c: char,
    flagged: bool,
)
    requires
        config.enabled,
    ensures
        is_word_boundary_spec(c) <==> (c == ' ' || c == '\t' || c == '\n' || c == '\r' || c == '.'
            || c == ',' || c == '!' || c == '?' || c == ';' || c == ':' || c == '(' || c == ')'
            || c == '[' || c == ']' || c == '{' || c == '}' || c == '"' || c == '\'' || c == '`'
            || c == '/' || c == '\\' || c == '|' || c == '-' || c == '_'),
        (c == ' ' || c == '\t' || c == '\n' || c == '\r' || c == '.' || c == ',' || c == '!'
            || c == '?' || c == ';' || c == ':' || c == '(' || c == ')' || c == '[' || c == ']'
            || c == '{' || c == '}' || c == '"' || c == '\'' || c == '`' || c == '/' || c == '\\'
            || c == '|' || c == '-' || c == '_') ==> process_spec(
            config,
            raw,
            displayed,
            (Keystroke { ch: c, is_boundary: flagged }),
        ) == (Seq::<char>::empty(), Seq::<char>::empty(), seq![EditView::Insert(seq![c])]),
{
}

/// Committing is idempotent: after a word boundary the buffer is empty, and
/// a second boundary leaves it so and gives the same actions as the first.
pub proof fn lemma_commit_idempotent(config: Config, raw: Seq<char>, displayed: Seq<char>, key: Keystroke)
    requires
        config.enabled,
        key.is_boundary || is_word_boundary_spec(key.ch),
    ensures
        ({
            let (raw1, displayed1, actions1) = process_spec(config, raw, displayed, key);
            process_spec(config, raw1, displayed1, key) == (raw1, displayed1, actions1)
        }),
{
}

/// Every key the engine takes into a word returns at least one action, so
/// the shell swallows it and never types it on top of the word.
pub proof fn lemma_word_keys_are_swallowed(config: Config, raw: Seq<char>, displayed: Seq<char>, key: Keystroke)
    requires
        config.enabled,
        !key.is_boundary,
        !is_word_boundary_spec(key.ch),
    ensures
        process_spec(config, raw, displayed, key).2.len() > 0,
{
}

/// While a word is being composed, the actions turn the text on screen into
/// the engine's new text for the word (as long as a deletion fits a `u8`).
pub proof fn lemma_actions_track_composition(config: Config, raw: Seq<char>, displayed: Seq<char>, key: Keystroke)
    requires
        config.enabled,
        !key.is_boundary,
        !is_word_boundary_spec(key.ch),
        raw.len() < MAX_WORD_KEYS,
        process_spec(config, raw, displayed, key).0.len() > 0,
        displayed.len() - common_prefix_len(displayed, process_spec(config, raw, displayed, key).1) < 256,
    ensures
        apply_actions(displayed, process_spec(config, raw, displayed, key).2)
            == process_spec(config, raw, displayed, key).1,
{
    let target = process_spec(config, raw, displayed, key).1;
    lemma_diff_keeps_before(Seq::empty(), displayed, target);
    assert(Seq::<char>::empty() + displayed =~= displayed);
    assert(Seq::<char>::empty() + target =~= target);
    lemma_diff_empty_iff_equal(displayed, target);
    reveal_with_fuel(apply_actions, 2);
    assert(seq![EditView::Insert(Seq::<char>::empty())].drop_first() =~= Seq::<EditView>::empty());
    assert(displayed + Seq::<char>::empty() =~= displayed);
}

/// Auto-restore: when the word can no longer become a Vietnamese syllable,
/// the actions replace what is on screen by the raw keystrokes, and the buffer
/// starts over (as long as the text on screen is shorter than 256 characters).
pub proof fn lemma_auto_restore_shows_raw(config: Config, raw: Seq<char>, displayed: Seq<char>, key: Keystroke)
    requires
        config.enabled,
        config.auto_restore,
        !key.is_boundary,
        !is_word_boundary_spec(key.ch),
        raw.len() < MAX_WORD_KEYS,
        !prefix_valid(method_spec(config.method, raw.push(key.ch)).0),
        displayed.len() < 256,
    ensures
        apply_actions(displayed, process_spec(config, raw, displayed, key).2) == raw.push(key.ch),
        process_spec(config, raw, displayed, key).0 == Seq::<char>::empty(),
        process_spec(config, raw, displayed, key).1 == Seq::<char>::empty(),
{
    reveal_with_fuel(apply_actions, 3);
    lemma_clear_erases(displayed);
    let acts = clear_actions_spec(displayed).push(EditView::Insert(raw.push(key.ch)));
    if displayed.len() > 0 {
        assert((displayed.len() as u8) == displayed.len());
        assert(acts.drop_first().drop_first() =~= Seq::<EditView>::empty());
        assert(displayed.take(0) =~= Seq::<char>::empty());
    } else {
        assert(acts.drop_first() =~= Seq::<EditView>::empty());
    }
    assert(Seq::<char>::empty() + raw.push(key.ch) =~= raw.push(key.ch));
}

/// A word that is already a legal Vietnamese syllable is never auto-restored:
/// the engine keeps composing it and shows it with its tone.
pub proof fn lemma_valid_syllable_not_restored(config: Config, raw: Seq<char>, displayed: Seq<char>, key: Keystroke)
    requires
        config.enabled,
        !key.is_boundary,
        !is_word_boundary_spec(key.ch),
        raw.len() < MAX_WORD_KEYS,
        syllable_valid(method_spec(config.method, raw.push(key.ch)).0),
    ensures
        process_spec(config, raw, displayed, key).0 == raw.push(key.ch),
        process_spec(config, raw, displayed, key).1 == apply_tone_spec(
            method_spec(config.method, raw.push(key.ch)).0,
            method_spec(config.method, raw.push(key.ch)).1,
            config.placement,
        ),
{
    lemma_valid_syllable_is_valid_prefix(method_spec(config.method, raw.push(key.ch)).0);
}

/// The text on screen after the shell handles `key`: it performs `actions`
/// and swallows the key, or types the key when there are none.
pub open spec fn shell_step(screen: Seq<char>, key: Keystroke, actions: Seq<EditView>) -> Seq<char> {
    if actions.len() == 0 {
        screen.push(key.ch)
    } else {
        apply_actions(screen, actions)
    }
}

/// (raw keystrokes, engine's text for the word, text on screen) after the
/// keys `keys`, starting from an empty buffer and an empty screen.
pub open spec fn run_keys(config: Config, keys: Seq<Keystroke>) -> (Seq<char>, Seq<char>, Seq<char>)
    decreases keys.len(),
{
    if keys.len() == 0 {
        (Seq::empty(), Seq::empty(), Seq::empty())
    } else {
        let (raw, displayed, screen) = run_keys(config, keys.drop_last());
        let (raw2, displayed2, actions) = process_spec(config, raw, displayed, keys.last());
        (raw2, displayed2, shell_step(screen, keys.last(), actions))
    }
}

proof fn lemma_method_len(method: InputMethod, raw: Seq<char>)
    ensures
        method_spec(method, raw).0.len() <= raw.len(),
{
    match method {
        InputMethod::Telex => lemma_telex_len(raw.map_values(|c: char| lowercase_first(c))),
        InputMethod::Vni => lemma_vni_len(raw, raw.map_values(|c: char| lowercase_first(c))),
    }
}

/// What `recompute_spec` keeps when the word ends the screen: the new word
/// ends the screen once the shell has handled the key, and is no longer than
/// the keystrokes.
proof fn lemma_recompute_ends_screen(config: Config, raw: Seq<char>, before: Seq<char>, displayed: Seq<char>, key: Keystroke)
    requires
        raw.len() > 0,
        displayed.len() < 256,
    ensures
        ({
            let (raw2, displayed2, actions) = recompute_spec(config, raw, displayed);
            let screen2 = shell_step(before + displayed, key, actions);
            &&& raw2.len() <= raw.len()
            &&& displayed2.len() <= raw2.len()
            &&& displayed2.len() <= screen2.len()
            &&& screen2.skip(screen2.len() - displayed2.len()) == displayed2
        }),
{
    let (bare, tone) = method_spec(config.method, raw);
    lemma_method_len(config.method, raw);
    let (raw2, displayed2, actions) = recompute_spec(config, raw, displayed);
    let screen2 = shell_step(before + displayed, key, actions);
    if config.auto_restore && !prefix_valid(bare) {
        assert(screen2.skip(screen2.len() - 0) =~= Seq::<char>::empty());
    } else {
        let target = apply_tone_spec(bare, tone, config.placement);
        lemma_strip_undoes_tone(bare, tone, config.placement);
        lemma_common_prefix(displayed, target, 0);
        lemma_diff_empty_iff_equal(displayed, target);
        if diff_actions(displayed, target).len() == 0 {
            reveal_with_fuel(apply_actions, 2);
            assert(seq![EditView::Insert(Seq::<char>::empty())].drop_first() =~= Seq::<EditView>::empty());
            assert(screen2 =~= before + displayed);
        } else {
            lemma_diff_keeps_before(before, displayed, target);
        }
        assert(screen2.skip(screen2.len() - displayed2.len()) =~= displayed2);
    }
}

/// On an enabled engine, whatever keys come, the engine's text for the word
/// is what ends the screen once the shell has handled each key (performed
/// the actions, or typed the key when there were none), and the state stays
/// bounded: at most `MAX_WORD_KEYS` keystrokes and as many characters.
pub proof fn lemma_screen_ends_with_word(config: Config, keys: Seq<Keystroke>)
    requires
        config.enabled,
    ensures
        ({
            let (raw, displayed, screen) = run_keys(config, keys);
            &&& raw.len() <= MAX_WORD_KEYS
            &&& displayed.len() <= raw.len()
            &&& displayed.len() <= screen.len()
            &&& screen.skip(screen.len() - displayed.len()) == displayed
        }),
    decreases keys.len(),
{
    if keys.len() > 0 {
        let prev = keys.drop_last();
        lemma_screen_ends_with_word(config, prev);
        let (raw, displayed, screen) = run_keys(config, prev);
        let key = keys.last();
        let (raw2, displayed2, actions) = process_spec(config, raw, displayed, key);
        let screen2 = shell_step(screen, key, actions);
        let before = screen.take(screen.len() - displayed.len());
        assert(screen =~= before + displayed);
        if key.is_boundary || is_word_boundary_spec(key.ch) {
            assert(screen2.skip(screen2.len() - 0) =~= Seq::<char>::empty());
        } else if raw.len() >= MAX_WORD_KEYS {
            assert(screen + Seq::<char>::empty() =~= screen);
            lemma_recompute_ends_screen(config, seq![key.ch], screen, Seq::empty(), key);
        } else {
            lemma_recompute_ends_screen(config, raw.push(key.ch), before, displayed, key);
        }
    }
}

} // verus!
