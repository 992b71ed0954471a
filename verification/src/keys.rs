//! Key events as plain values, and the debouncer that suppresses key-repeat
//! bursts coming from the terminal.

use vstd::prelude::*;

verus! {

/// The key codes the application reacts to. Anything else arrives as `Other`
/// and is ignored by every handler.
#[derive(Clone, Copy, Debug, PartialEq, Eq, Structural)]
pub enum KeyCode {
    Char(char),
    Enter,
    Esc,
    Backspace,
    Delete,
    Left,
    Right,
    Up,
    Down,
    Home,
    End,
    Tab,
    Function(u8),
    Other,
}

/// Modifier keys held together with a key code.
#[derive(Clone, Copy, Debug, PartialEq, Eq, Structural)]
pub struct KeyModifiers {
    pub control: bool,
    pub alt: bool,
    pub shift: bool,
}

/// One key press: a code together with its modifiers.
#[derive(Clone, Copy, Debug, PartialEq, Eq, Structural)]
pub struct KeyPress {
    pub code: KeyCode,
    pub modifiers: KeyModifiers,
}

/// Prevents long key presses from producing several accepted events: an
/// identical key repeated within the debounce window is dropped, a different
/// key is always accepted.
pub struct KeyDebouncer {
    pub last_key: Option<KeyPress>,
    pub last_time_ms: u64,
    pub debounce_ms: u64,
}

/// Whether the debouncer in state `d` accepts `key` at time `now_ms`:
/// a key different from the last accepted one always passes, a repeat passes
/// only once the debounce window has elapsed.
pub open spec fn debounce_accepts(d: KeyDebouncer, key: KeyPress, now_ms: u64) -> bool {
    d.last_key != Some(key) || now_ms >= d.last_time_ms + d.debounce_ms
}

/// The debouncer state after accepting `key` at `now_ms`.
pub open spec fn debounce_after_accept(d: KeyDebouncer, key: KeyPress, now_ms: u64) -> KeyDebouncer {
    KeyDebouncer { last_key: Some(key), last_time_ms: now_ms, debounce_ms: d.debounce_ms }
}

impl KeyDebouncer {
    pub fn new(debounce_ms: u64) -> (r: KeyDebouncer)
        ensures
            r.last_key is None,
            r.last_time_ms == 0,
            r.debounce_ms == debounce_ms,
    {
        KeyDebouncer { last_key: None, last_time_ms: 0, debounce_ms }
    }

    /// Decides whether `key`, arriving at `now_ms`, should be handled.
    /// Accepting records the key and its time; rejecting has no side effect.
    pub fn should_process(&mut self, key: &KeyPress, now_ms: u64) -> (r: bool)
        ensures
            r == debounce_accepts(*old(self), *key, now_ms),
            r ==> *final(self) == debounce_after_accept(*old(self), *key, now_ms),
            !r ==> *final(self) == *old(self),
    {
        let same_key = match self.last_key {
            Some(last) => last == *key,
            None => false,
        };

        // A different key is always accepted and restarts the window.
        if !same_key {
            self.last_key = Some(*key);
            self.last_time_ms = now_ms;
            return true;
        }

        // The same key again: accepted only once the window has elapsed.
        if now_ms >= self.last_time_ms && now_ms - self.last_time_ms >= self.debounce_ms {
            self.last_key = Some(*key);
            self.last_time_ms = now_ms;
            return true;
        }

        false
    }

    /// Forgets the last key so that the next key of any kind is accepted
    /// unconditionally; called on every view transition.
    pub fn reset(&mut self)
        ensures
            final(self).last_key is None,
            final(self).debounce_ms == old(self).debounce_ms,
    {
        self.last_key = None;
        self.last_time_ms = 0;
    }
}

/// Within a burst of one identical key, only the first press is accepted:
/// after an accepted press of `key` at `t0`, a repeat at any `t1` earlier
/// than `t0 + window` is rejected, while a repeat spaced at least the window
/// apart is accepted.
pub proof fn lemma_debounce_burst(d: KeyDebouncer, key: KeyPress, t0: u64, t1: u64)
    ensures
        t1 < t0 + d.debounce_ms ==> !debounce_accepts(
            debounce_after_accept(d, key, t0),
            key,
            t1,
        ),
        t1 >= t0 + d.debounce_ms ==> debounce_accepts(debounce_after_accept(d, key, t0), key, t1),
{
}

/// A key different from the last accepted one is always accepted, whatever
/// the timing, and accepting it restarts the window for its own kind.
pub proof fn lemma_debounce_different_key(d: KeyDebouncer, key: KeyPress, now_ms: u64)
    requires
        d.last_key != Some(key),
    ensures
        debounce_accepts(d, key, now_ms),
        debounce_after_accept(d, key, now_ms).last_key == Some(key),
        debounce_after_accept(d, key, now_ms).last_time_ms == now_ms,
{
}

} // verus!
