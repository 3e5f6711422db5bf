//! The composition buffer: the keystrokes of the current word and the text
//! currently on screen for it.
use vstd::prelude::*;

use crate::text::{chars_of, push_char, string_from, string_of};
use crate::types::{actions_view, apply_actions, EditAction, EditView};

verus! {

/// Tracks what raw keystrokes have been accumulated since the last word boundary,
/// and what string is currently displayed on-screen for the current word.
#[derive(Debug, Clone)]
pub struct CompositionBuffer {
    /// Raw keystrokes accumulated for the current word.
    pub raw: String,
    /// The string currently showing on-screen (what the shell has displayed so far).
    pub displayed: String,
}

impl Default for CompositionBuffer {
    fn default() -> (b: Self)
        ensures
            b.raw@ == Seq::<char>::empty(),
            b.displayed@ == Seq::<char>::empty(),
    {
        CompositionBuffer { raw: String::new(), displayed: String::new() }
    }
}

/// Length of the longest common prefix of `a` and `b`, counting from `i`.
pub open spec fn common_prefix_from(a: Seq<char>, b: Seq<char>, i: int) -> int
    decreases a.len() - i,
{
    if 0 <= i < a.len() && i < b.len() && a[i] == b[i] {
        common_prefix_from(a, b, i + 1)
    } else {
        i
    }
}

/// Length of the longest common prefix of `a` and `b`.
pub open spec fn common_prefix_len(a: Seq<char>, b: Seq<char>) -> int {
    common_prefix_from(a, b, 0)
}

/// The edits that turn `displayed` into `target`: delete what follows their
/// longest common prefix (a count truncated to `u8`), then type the rest of
/// `target`. Either edit is left out when it would do nothing.
pub open spec fn diff_actions(displayed: Seq<char>, target: Seq<char>) -> Seq<EditView> {
    let common = common_prefix_len(displayed, target);
    let to_delete = displayed.len() - common;
    (if to_delete > 0 {
        seq![EditView::Backspace(to_delete as u8)]
    } else {
        Seq::empty()
    }) + (if common < target.len() {
        seq![EditView::Insert(target.skip(common))]
    } else {
        Seq::empty()
    })
}

/// The edits that erase `displayed`: one backspace per character (a count
/// truncated to `u8`), none for an empty text.
pub open spec fn clear_actions_spec(displayed: Seq<char>) -> Seq<EditView> {
    if displayed.len() > 0 {
        seq![EditView::Backspace(displayed.len() as u8)]
    } else {
        Seq::empty()
    }
}

/// What `common_prefix_len` is.
pub proof fn lemma_common_prefix(a: Seq<char>, b: Seq<char>, i: int)
    requires
        0 <= i,
        i <= a.len(),
        i <= b.len(),
        forall|j: int| 0 <= j < i ==> a[j] == b[j],
    ensures
        i <= common_prefix_from(a, b, i) <= a.len(),
        common_prefix_from(a, b, i) <= b.len(),
        forall|j: int| 0 <= j < common_prefix_from(a, b, i) ==> a[j] == b[j],
        common_prefix_from(a, b, i) < a.len() && common_prefix_from(a, b, i) < b.len() ==> a[common_prefix_from(a, b, i)] != b[common_prefix_from(a, b, i)],
    decreases a.len() - i,
{
    if i < a.len() && i < b.len() && a[i] == b[i] {
        lemma_common_prefix(a, b, i + 1);
    }
}

impl CompositionBuffer {
    pub fn new() -> (b: Self)
        ensures
            b.raw@ == Seq::<char>::empty(),
            b.displayed@ == Seq::<char>::empty(),
    {
        Self::default()
    }

    pub fn push(&mut self, ch: char)
        ensures
            final(self).raw@ == old(self).raw@.push(ch),
            final(self).displayed@ == old(self).displayed@,
    {
        push_char(&mut self.raw, ch);
    }

    pub fn reset(&mut self)
        ensures
            final(self).raw@ == Seq::<char>::empty(),
            final(self).displayed@ == Seq::<char>::empty(),
    {
        self.raw = String::new();
        self.displayed = String::new();
    }

    /// Compute the minimal edit actions to transition from `self.displayed` to `target`.
    /// Updates `self.displayed` to `target`.
    pub fn diff_to(&mut self, target: &str) -> (actions: Vec<EditAction>)
        ensures
            actions_view(actions@) == diff_actions(old(self).displayed@, target@),
            final(self).displayed@ == target@,
            final(self).raw@ == old(self).raw@,
    {
        let mut actions: Vec<EditAction> = Vec::new();

        let displayed_chars = chars_of(self.displayed.as_str());
        let target_chars = chars_of(target);
        // Find the longest common prefix (in chars) between displayed and target.
        let mut common: usize = 0;
        while common < displayed_chars.len() && common < target_chars.len()
            && displayed_chars[common] == target_chars[common]
            invariant
                common <= displayed_chars@.len(),
                common_prefix_len(displayed_chars@, target_chars@) == common_prefix_from(
                    displayed_chars@,
                    target_chars@,
                    common as int,
                ),
            decreases displayed_chars@.len() - common,
        {
            common = common + 1;
        }
        proof {
            lemma_common_prefix(displayed_chars@, target_chars@, 0);
        }
        let to_delete = displayed_chars.len() - common;
        if to_delete > 0 {
            actions.push(EditAction::Backspace(#[verifier::truncate] (to_delete as u8)));
        }
        if common < target_chars.len() {
            let target_tail = string_from(target_chars.as_slice(), common);
            actions.push(EditAction::Insert(target_tail));
        }
        proof {
            assert(actions_view(actions@) =~= diff_actions(old(self).displayed@, target@));
        }
        self.displayed = string_of(target_chars.as_slice());
        actions
    }

    /// Produce actions to clear everything currently displayed, then reset.
    pub fn clear_actions(&mut self) -> (actions: Vec<EditAction>)
        ensures
            actions_view(actions@) == clear_actions_spec(old(self).displayed@),
            final(self).raw@ == Seq::<char>::empty(),
            final(self).displayed@ == Seq::<char>::empty(),
    {
        let len = chars_of(self.displayed.as_str()).len();
        let mut actions: Vec<EditAction> = Vec::new();
        if len > 0 {
            actions.push(EditAction::Backspace(#[verifier::truncate] (len as u8)));
        }
        self.reset();
        proof {
            assert(actions_view(actions@) =~= clear_actions_spec(old(self).displayed@));
        }
        actions
    }
}

// ── Laws ────────────────────────────────────────────────────────────────────

/// Performing the edits of `diff_actions` on the text on screen yields the
/// target, as long as the deletion count fits in a `u8`.
pub proof fn lemma_diff_reaches_target(displayed: Seq<char>, target: Seq<char>)
    requires
        displayed.len() - common_prefix_len(displayed, target) < 256,
    ensures
        apply_actions(displayed, diff_actions(displayed, target)) == target,
{
    reveal_with_fuel(apply_actions, 3);
    lemma_common_prefix(displayed, target, 0);
    let common = common_prefix_len(displayed, target);
    let to_delete = displayed.len() - common;
    let kept = displayed.take(common);
    assert(kept =~= target.take(common));
    let acts = diff_actions(displayed, target);
    if to_delete > 0 {
        assert((to_delete as u8) == to_delete);
        let rest = acts.drop_first();
        assert(apply_actions(displayed, acts) == apply_actions(kept, rest));
        if common < target.len() {
            assert(rest.drop_first() =~= Seq::<EditView>::empty());
            assert(kept + target.skip(common) =~= target);
        } else {
            assert(rest =~= Seq::<EditView>::empty());
            assert(kept =~= target);
        }
    } else {
        assert(displayed =~= kept);
        if common < target.len() {
            assert(acts.drop_first() =~= Seq::<EditView>::empty());
            assert(kept + target.skip(common) =~= target);
        } else {
            assert(acts =~= Seq::<EditView>::empty());
            assert(kept =~= target);
        }
    }
}

/// The diff only touches the end of the text: performed on a longer text
/// that ends in `displayed`, it turns that ending into `target` and keeps
/// what comes before, as long as the deletion count fits in a `u8`.
pub proof fn lemma_diff_keeps_before(before: Seq<char>, displayed: Seq<char>, target: Seq<char>)
    requires
        displayed.len() - common_prefix_len(displayed, target) < 256,
    ensures
        apply_actions(before + displayed, diff_actions(displayed, target)) == before + target,
{
    reveal_with_fuel(apply_actions, 3);
    lemma_common_prefix(displayed, target, 0);
    let common = common_prefix_len(displayed, target);
    let to_delete = displayed.len() - common;
    let text = before + displayed;
    let kept = before + target.take(common);
    assert(displayed.take(common) =~= target.take(common));
    let acts = diff_actions(displayed, target);
    if to_delete > 0 {
        assert((to_delete as u8) == to_delete);
        assert(text.take(text.len() - to_delete) =~= kept);
        let rest = acts.drop_first();
        assert(apply_actions(text, acts) == apply_actions(kept, rest));
        if common < target.len() {
            assert(rest.drop_first() =~= Seq::<EditView>::empty());
            assert(kept + target.skip(common) =~= before + target);
        } else {
            assert(rest =~= Seq::<EditView>::empty());
            assert(kept =~= before + target);
        }
    } else {
        assert(text =~= kept);
        if common < target.len() {
            assert(acts.drop_first() =~= Seq::<EditView>::empty());
            assert(kept + target.skip(common) =~= before + target);
        } else {
            assert(acts =~= Seq::<EditView>::empty());
            assert(kept =~= before + target);
        }
    }
}

/// The diff is empty exactly when the text on screen already is the target.
pub proof fn lemma_diff_empty_iff_equal(displayed: Seq<char>, target: Seq<char>)
    ensures
        (diff_actions(displayed, target).len() == 0) == (displayed == target),
{
    lemma_common_prefix(displayed, target, 0);
    let common = common_prefix_len(displayed, target);
    if displayed.len() == common && common == target.len() {
        assert(displayed =~= target.take(common));
        assert(target.take(common) =~= target);
    }
    if displayed == target {
        assert(common == displayed.len()) by {
            if common < displayed.len() {
                assert(displayed[common] == target[common]);
            }
        }
    }
}

/// The diff deletes as few characters as any edit "delete `k`, then type
/// `typed`" that turns `displayed` into `target` can.
pub proof fn lemma_diff_deletes_fewest(displayed: Seq<char>, target: Seq<char>, k: int, typed: Seq<char>)
    requires
        0 <= k <= displayed.len(),
        displayed.take(displayed.len() - k) + typed == target,
    ensures
        displayed.len() - common_prefix_len(displayed, target) <= k,
{
    lemma_common_prefix(displayed, target, 0);
    let common = common_prefix_len(displayed, target);
    let n = displayed.len();
    if n - common > k {
        let kept = displayed.take(n - k);
        assert(target[common] == (kept + typed)[common]);
        assert(kept[common] == displayed[common]);
    }
}

/// Performing the edits of `clear_actions_spec` erases the text on screen,
/// as long as its length fits in a `u8`.
pub proof fn lemma_clear_erases(displayed: Seq<char>)
    requires
        displayed.len() < 256,
    ensures
        apply_actions(displayed, clear_actions_spec(displayed)) == Seq::<char>::empty(),
{
    reveal_with_fuel(apply_actions, 2);
    if displayed.len() > 0 {
        let acts = clear_actions_spec(displayed);
        assert((displayed.len() as u8) == displayed.len());
        assert(acts.drop_first() =~= Seq::<EditView>::empty());
        assert(displayed.take(0) =~= Seq::<char>::empty());
    }
}

} // verus!
