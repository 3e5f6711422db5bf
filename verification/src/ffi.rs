//! The values that cross the C ABI, and the engine handle behind it.
//!
//! The `extern "C"` entry points themselves (raw pointers, panic isolation)
//! live in the application crate; everything they compute is here.
use vstd::prelude::*;
use vstd::string::StringSliceAdditionalSpecFns;
use vstd::utf8::{is_char_boundary, valid_utf8};

use crate::engine::{process_spec, Engine};
use crate::types::{
    actions_view, Config, EditAction, EditView, InputMethod, Keystroke, TonePlacementMode,
};

verus! {

// ── C-facing types ────────────────────────────────────────────────────────────

/// Input method selector.
#[derive(Debug, Clone, Copy, PartialEq, Eq, Structural)]
pub enum VnkeyInputMethod {
    Telex,
    Vni,
}

/// Tone-placement mode.
#[derive(Debug, Clone, Copy, PartialEq, Eq, Structural)]
pub enum VnkeyTonePlacement {
    Modern,
    Classic,
}

/// Configuration passed when creating or reconfiguring an engine.
pub struct VnkeyConfig {
    pub method: VnkeyInputMethod,
    pub placement: VnkeyTonePlacement,
    pub enabled: bool,
    pub auto_restore: bool,
}

/// The kind of one edit action returned to the shell.
#[derive(Debug, Clone, Copy, PartialEq, Eq, Structural)]
pub enum VnkeyActionKind {
    /// No action — used as a null sentinel in arrays.
    NoAction,
    /// Delete `count` characters to the left.
    Backspace,
    /// Insert UTF-8 text (pointer into action's `text` buffer).
    Insert,
}

/// Maximum length of an inserted string in one action.
pub const VNKEY_INSERT_MAX: usize = 64;

/// One edit action.
pub struct VnkeyAction {
    pub kind: VnkeyActionKind,
    /// For Backspace: number of characters to delete.
    pub count: u8,
    /// For Insert: null-terminated UTF-8 string.
    pub text: [u8; VNKEY_INSERT_MAX],
}

/// Result of processing one keystroke.
pub struct VnkeyResult {
    /// Number of valid actions in `actions`.
    pub action_count: u8,
    pub actions: [VnkeyAction; 4],
}

/// Opaque engine handle.
pub struct VnkeyEngine(Engine);

// ── Specifications ────────────────────────────────────────────────────────────

/// The largest character boundary of the UTF-8 text `bytes` that is at most `k`.
pub open spec fn boundary_at_most(bytes: Seq<u8>, k: int) -> int
    decreases k,
{
    if k <= 0 || vstd::utf8::is_char_boundary(bytes, k) {
        k
    } else {
        boundary_at_most(bytes, k - 1)
    }
}

/// How many bytes of the UTF-8 text `bytes` fit in the text buffer: the
/// largest character boundary that leaves room for the terminating NUL.
pub open spec fn fitting_len(bytes: Seq<u8>) -> int {
    boundary_at_most(
        bytes,
        if bytes.len() < VNKEY_INSERT_MAX - 1 {
            bytes.len() as int
        } else {
            VNKEY_INSERT_MAX - 1
        },
    )
}

/// The text buffer holds the longest prefix of the UTF-8 text `bytes` that
/// ends on a character boundary and leaves room for a NUL, and zeros after.
pub open spec fn text_holds(text: Seq<u8>, bytes: Seq<u8>) -> bool {
    let len = fitting_len(bytes);
    &&& text.len() == VNKEY_INSERT_MAX
    &&& forall|i: int| 0 <= i < VNKEY_INSERT_MAX ==> #[trigger] text[i] == if i < len {
        bytes[i]
    } else {
        0u8
    }
}

/// The null sentinel action.
pub open spec fn is_none_action(a: VnkeyAction) -> bool {
    &&& a.kind == VnkeyActionKind::NoAction
    &&& a.count == 0
    &&& text_holds(a.text@, Seq::empty())
}

/// `a` is the C form of the edit `e`: a backspace carries its count, an
/// insert its text in UTF-8, truncated to fit the buffer.
pub open spec fn action_matches(a: VnkeyAction, e: EditView) -> bool {
    match e {
        EditView::Backspace(n) => a.kind == VnkeyActionKind::Backspace && a.count == n && text_holds(
            a.text@,
            Seq::empty(),
        ),
        EditView::Insert(s) => a.kind == VnkeyActionKind::Insert && a.count == 0 && text_holds(
            a.text@,
            vstd::utf8::encode_utf8(s),
        ),
    }
}

/// `r` is the C form of the first four edits of `actions`; the slots after
/// them hold the null sentinel.
pub open spec fn result_matches(r: VnkeyResult, actions: Seq<EditView>) -> bool {
    let count = if actions.len() < 4 {
        actions.len() as int
    } else {
        4
    };
    &&& r.action_count == count
    &&& forall|i: int| 0 <= i < 4 ==> if i < count {
        action_matches(#[trigger] r.actions@[i], actions[i])
    } else {
        is_none_action(r.actions@[i])
    }
}

/// The engine configuration a C configuration selects.
pub open spec fn core_config(c: VnkeyConfig) -> Config {
    Config {
        method: match c.method {
            VnkeyInputMethod::Telex => InputMethod::Telex,
            VnkeyInputMethod::Vni => InputMethod::Vni,
        },
        placement: match c.placement {
            VnkeyTonePlacement::Modern => TonePlacementMode::Modern,
            VnkeyTonePlacement::Classic => TonePlacementMode::Classic,
        },
        enabled: c.enabled,
        auto_restore: c.auto_restore,
    }
}

/// A Unicode scalar value: a code point that is not a surrogate.
pub open spec fn is_scalar_value(c: u32) -> bool {
    c < 0xD800 || (0xE000 <= c && c <= 0x10FFFF)
}

// ── Conversions ───────────────────────────────────────────────────────────────

/// Converts a code point to a `char`.
///
/// Calls `char::from_u32`, which per its documentation returns `None` when
/// the value is not a valid `char` (a surrogate, or above `0x10FFFF`) and the
/// `char` with that value otherwise.
#[verifier::external_body]
fn char_from_u32(c: u32) -> (r: Option<char>)
    ensures
        r == if is_scalar_value(c) {
            Some(c as char)
        } else {
            None
        },
{
    char::from_u32(c)
}

fn zero_text() -> (t: [u8; VNKEY_INSERT_MAX])
    ensures
        text_holds(t@, Seq::empty()),
{
    let t = [0u8; 64];
    assert(t@.len() == VNKEY_INSERT_MAX);
    t
}

impl VnkeyAction {
    fn none() -> (a: Self)
        ensures
            is_none_action(a),
    {
        Self { kind: VnkeyActionKind::NoAction, count: 0, text: zero_text() }
    }

    fn backspace(n: u8) -> (a: Self)
        ensures
            action_matches(a, EditView::Backspace(n)),
    {
        Self { kind: VnkeyActionKind::Backspace, count: n, text: zero_text() }
    }

    fn insert(s: &str) -> (a: Self)
        ensures
            action_matches(a, EditView::Insert(s@)),
    {
        let mut text = zero_text();
        let bytes = s.as_bytes();
        let mut len = if bytes.len() < VNKEY_INSERT_MAX - 1 {
            bytes.len()
        } else {
            VNKEY_INSERT_MAX - 1
        };
        // Cut at a character boundary so that the text stays valid UTF-8.
        while len > 0 && !s.is_char_boundary(len)
            invariant
                len <= bytes@.len(),
                len < VNKEY_INSERT_MAX,
                bytes@ == s.spec_bytes(),
                fitting_len(bytes@) == boundary_at_most(bytes@, len as int),
            decreases len,
        {
            len = len - 1;
        }
        let mut i: usize = 0;
        while i < len
            invariant
                len <= bytes@.len(),
                len < VNKEY_INSERT_MAX,
                i <= len,
                text@.len() == VNKEY_INSERT_MAX,
                forall|j: int| 0 <= j < VNKEY_INSERT_MAX ==> #[trigger] text@[j] == if j < i {
                    bytes@[j]
                } else {
                    0u8
                },
            decreases len - i,
        {
            text[i] = bytes[i];
            i = i + 1;
        }
        Self { kind: VnkeyActionKind::Insert, count: 0, text }
    }
}

impl VnkeyResult {
    pub fn passthrough() -> (r: Self)
        ensures
            result_matches(r, Seq::empty()),
    {
        Self {
            action_count: 0,
            actions: [VnkeyAction::none(), VnkeyAction::none(), VnkeyAction::none(), VnkeyAction::none()],
        }
    }

    fn from_actions(edit_actions: Vec<EditAction>) -> (r: Self)
        ensures
            result_matches(r, actions_view(edit_actions@)),
    {
        let mut result = Self::passthrough();
        let count: usize = if edit_actions.len() < 4 {
            edit_actions.len()
        } else {
            4
        };
        result.action_count = count as u8;
        let mut i: usize = 0;
        while i < count
            invariant
                count <= 4,
                count <= edit_actions@.len(),
                i <= count,
                result.action_count == count,
                forall|j: int| 0 <= j < 4 ==> if j < i {
                    action_matches(#[trigger] result.actions@[j], edit_actions@[j]@)
                } else {
                    is_none_action(result.actions@[j])
                },
            decreases count - i,
        {
            let a = match &edit_actions[i] {
                EditAction::Backspace(n) => VnkeyAction::backspace(*n),
                EditAction::Insert(s) => VnkeyAction::insert(s.as_str()),
            };
            result.actions[i] = a;
            i = i + 1;
        }
        proof {
            assert forall|j: int| 0 <= j < count implies actions_view(edit_actions@)[j] == edit_actions@[j]@ by {}
        }
        result
    }
}

fn to_core_config(c: VnkeyConfig) -> (r: Config)
    ensures
        r == core_config(c),
{
    Config {
        method: match c.method {
            VnkeyInputMethod::Telex => InputMethod::Telex,
            VnkeyInputMethod::Vni => InputMethod::Vni,
        },
        placement: match c.placement {
            VnkeyTonePlacement::Modern => TonePlacementMode::Modern,
            VnkeyTonePlacement::Classic => TonePlacementMode::Classic,
        },
        enabled: c.enabled,
        auto_restore: c.auto_restore,
    }
}

// ── The engine handle ─────────────────────────────────────────────────────────

impl VnkeyEngine {
    /// The engine behind the handle.
    pub closed spec fn engine(&self) -> Engine {
        self.0
    }

    /// Creates an engine with the given configuration and an empty buffer.
    pub fn new(config: VnkeyConfig) -> (e: Self)
        ensures
            e.engine().config == core_config(config),
            e.engine().buffer.raw@ == Seq::<char>::empty(),
            e.engine().buffer.displayed@ == Seq::<char>::empty(),
    {
        let cfg = to_core_config(config);
        VnkeyEngine(Engine::new(cfg))
    }

    /// Processes one keystroke given as a code point. A value that is not a
    /// Unicode scalar value is passed through: no actions, no change.
    pub fn process(&mut self, codepoint: u32, is_boundary: bool) -> (r: VnkeyResult)
        ensures
            !is_scalar_value(codepoint) ==> result_matches(r, Seq::empty()) && final(self).engine()
                == old(self).engine(),
            is_scalar_value(codepoint) ==> {
                let key = Keystroke { ch: codepoint as char, is_boundary };
                let (raw, displayed, actions) = process_spec(
                    old(self).engine().config,
                    old(self).engine().buffer.raw@,
                    old(self).engine().buffer.displayed@,
                    key,
                );
                &&& result_matches(r, actions)
                &&& final(self).engine().buffer.raw@ == raw
                &&& final(self).engine().buffer.displayed@ == displayed
                &&& final(self).engine().config == old(self).engine().config
            },
    {
        let ch = match char_from_u32(codepoint) {
            Some(c) => c,
            None => return VnkeyResult::passthrough(),  // invalid Unicode scalar → pass through
        };
        let key = if is_boundary {
            Keystroke { ch, is_boundary: true }
        } else {
            Keystroke::char(ch)
        };
        let actions = self.0.process(key);
        VnkeyResult::from_actions(actions)
    }

    /// Resets the composition buffer (e.g. on focus change / mouse click).
    pub fn reset(&mut self)
        ensures
            final(self).engine().buffer.raw@ == Seq::<char>::empty(),
            final(self).engine().buffer.displayed@ == Seq::<char>::empty(),
            final(self).engine().config == old(self).engine().config,
    {
        self.0.reset();
    }

    /// Replaces the configuration, keeping the buffer.
    pub fn set_config(&mut self, config: VnkeyConfig)
        ensures
            final(self).engine().config == core_config(config),
            final(self).engine().buffer == old(self).engine().buffer,
    {
        self.0.set_config(to_core_config(config));
    }
}

// ── Laws ────────────────────────────────────────────────────────────────────

proof fn lemma_boundary_at_most(bytes: Seq<u8>, k: int)
    requires
        valid_utf8(bytes),
        0 <= k <= bytes.len(),
    ensures
        0 <= boundary_at_most(bytes, k) <= k,
        is_char_boundary(bytes, boundary_at_most(bytes, k)),
        forall|j: int| boundary_at_most(bytes, k) < j <= k ==> !#[trigger] is_char_boundary(bytes, j),
    decreases k,
{
    if k > 0 && !is_char_boundary(bytes, k) {
        lemma_boundary_at_most(bytes, k - 1);
    }
}

/// The text an insert carries is cut at the last character boundary that
/// leaves room for the NUL (at most 63 bytes): what is kept is whole UTF-8
/// characters, no longer cut would fit, and a text of at most 63 bytes is
/// kept whole.
pub proof fn lemma_insert_text_is_whole_characters(bytes: Seq<u8>)
    requires
        valid_utf8(bytes),
    ensures
        0 <= fitting_len(bytes) <= 63,
        fitting_len(bytes) <= bytes.len(),
        is_char_boundary(bytes, fitting_len(bytes)),
        valid_utf8(bytes.subrange(0, fitting_len(bytes))),
        forall|j: int| fitting_len(bytes) < j <= bytes.len() && j <= 63 ==> !#[trigger] is_char_boundary(bytes, j),
        bytes.len() <= 63 ==> fitting_len(bytes) == bytes.len(),
{
    let k: int = if bytes.len() < 63 { bytes.len() as int } else { 63 };
    lemma_boundary_at_most(bytes, k);
    vstd::utf8::is_char_boundary_start_end_of_seq(bytes);
    vstd::utf8::valid_utf8_split(bytes, fitting_len(bytes));
}

} // verus!
