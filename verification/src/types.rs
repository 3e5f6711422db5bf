use vstd::prelude::*;

verus! {

/// The six Vietnamese tones. `Flat` (ngang) carries no mark.
#[derive(Debug, Clone, Copy, PartialEq, Eq, Structural)]
pub enum Tone {
    /// ngang: no tone mark
    Flat,
    /// sắc: acute accent
    Sharp,
    /// huyền: grave accent
    Grave,
    /// hỏi: hook above
    Hook,
    /// ngã: tilde
    Tilde,
    /// nặng: dot below
    Dot,
}

impl Default for Tone {
    fn default() -> (t: Self)
        ensures
            t == Tone::Flat,
    {
        Tone::Flat
    }
}

/// Where the tone mark goes in an open two-vowel nucleus such as `oa`:
/// `Modern` writes `hoà`, `Classic` writes `hòa`.
#[derive(Debug, Clone, Copy, PartialEq, Eq, Structural)]
pub enum TonePlacementMode {
    Modern,
    Classic,
}

impl Default for TonePlacementMode {
    fn default() -> (m: Self)
        ensures
            m == TonePlacementMode::Modern,
    {
        TonePlacementMode::Modern
    }
}

/// The keystroke convention used to type diacritics and tones.
#[derive(Debug, Clone, Copy, PartialEq, Eq, Structural)]
pub enum InputMethod {
    Telex,
    Vni,
}

impl Default for InputMethod {
    fn default() -> (m: Self)
        ensures
            m == InputMethod::Telex,
    {
        InputMethod::Telex
    }
}

/// Engine configuration.
#[derive(Debug, Clone, Copy, PartialEq, Eq, Structural)]
pub struct Config {
    pub method: InputMethod,
    pub placement: TonePlacementMode,
    /// When false the engine passes every keystroke through untouched.
    pub enabled: bool,
    /// When true, a word that cannot become a Vietnamese syllable is put back
    /// on screen as the raw keystrokes that were typed.
    pub auto_restore: bool,
}

impl Default for Config {
    fn default() -> (c: Self)
        ensures
            c == (Config {
                method: InputMethod::Telex,
                placement: TonePlacementMode::Modern,
                enabled: true,
                auto_restore: true,
            }),
    {
        Config {
            method: InputMethod::Telex,
            placement: TonePlacementMode::Modern,
            enabled: true,
            auto_restore: true,
        }
    }
}

/// One key press delivered by the shell.
#[derive(Debug, Clone, Copy, PartialEq, Eq, Structural)]
pub struct Keystroke {
    pub ch: char,
    /// Set by the shell for keys it already knows end a word
    /// (navigation keys, focus changes).
    pub is_boundary: bool,
}

impl Keystroke {
    /// An ordinary character key.
    pub fn char(ch: char) -> (k: Self)
        ensures
            k == (Keystroke { ch, is_boundary: false }),
    {
        Keystroke { ch, is_boundary: false }
    }
}

/// An edit the shell must perform on the text left of the cursor.
#[derive(Debug, Clone, PartialEq, Eq)]
pub enum EditAction {
    /// Delete this many characters to the left of the cursor.
    Backspace(u8),
    /// Type this text at the cursor.
    Insert(String),
}

/// The mathematical value of an [`EditAction`].
pub enum EditView {
    Backspace(u8),
    Insert(Seq<char>),
}

impl View for EditAction {
    type V = EditView;

    open spec fn view(&self) -> EditView {
        match self {
            EditAction::Backspace(n) => EditView::Backspace(*n),
            EditAction::Insert(s) => EditView::Insert(s@),
        }
    }
}

/// The values of a list of edit actions.
pub open spec fn actions_view(v: Seq<EditAction>) -> Seq<EditView> {
    v.map_values(|a: EditAction| a@)
}

/// What the text left of the cursor becomes once `actions` are performed on it.
/// A backspace past the start of the text deletes what there is.
pub open spec fn apply_actions(text: Seq<char>, actions: Seq<EditView>) -> Seq<char>
    decreases actions.len(),
{
    if actions.len() == 0 {
        text
    } else {
        let next = match actions[0] {
            EditView::Backspace(n) => if n <= text.len() {
                text.take(text.len() - n)
            } else {
                Seq::empty()
            },
            EditView::Insert(s) => text + s,
        };
        apply_actions(next, actions.drop_first())
    }
}

} // verus!
