# vnkey_core

The engine of a Vietnamese input method: keystrokes typed with the Telex or
VNI conventions go in, edit actions for the text on screen come out
(backspace *n*, insert *text*). The library's functions are verified with
Verus against their contracts, except four small wrappers around std calls
(`String::push`, `char::to_lowercase`, `str::to_lowercase`, `char::from_u32`)
whose contracts are trusted; each says in its doc comment what it claims.

A word holds at most 16 keystrokes: a longer one is committed as it stands
and the next key starts a new word. A keystroke the engine consumes without
changing the screen is answered by an empty insert, so the shell swallows it.

Layout:

- `src/types.rs` — configuration, keystrokes, tones, edit actions and what
  performing edit actions does to a text.
- `src/methods/` — the Telex and VNI state machines (keys → bare syllable + tone).
- `src/tone_placement.rs` — which vowel carries the tone mark (modern and
  classic styles).
- `src/validator/` — the onset / nucleus / coda tables and the syllable and
  syllable-prefix checks.
- `src/buffer.rs` — the composition buffer and the minimal diff to the screen.
- `src/engine.rs` — keystroke processing, word boundaries and auto-restore.
- `src/ffi.rs` — the values exchanged over the C ABI and the engine handle.
- `src/text.rs` — character and string helpers, including the calls into std
  that the contracts trust.
- `app/lib.rs` — the `extern "C"` entry points (raw pointers, panic isolation).

Laws that span functions are stated as `proof fn lemma_*` next to the
functions they are about.
