//! Keystroke counting.
use std::sync::Arc;
use std::sync::atomic::AtomicUsize;
use vstd::prelude::*;

verus! {

/// A keystroke counter shared between the keyboard listener, which adds to it,
/// and the watcher, which takes the count at every tick.
///
/// Clones share one count.
#[derive(Clone)]
pub struct KeyCounter {
    count: Arc<AtomicUsize>,
}

impl KeyCounter {
    /// A counter at zero, not yet attached to any listener.
    pub fn new() -> (counter: KeyCounter) {
        KeyCounter { count: Arc::new(AtomicUsize::new(0)) }
    }

    /// Adds one keystroke (the count wraps around past `usize::MAX`).
    pub fn record_key_press(&self) {
        self.count.fetch_add(1, std::sync::atomic::Ordering::Relaxed);
    }

    /// Returns the keystrokes counted since the previous call and starts again from zero.
    ///
    /// Other clones may add keystrokes at any moment, so nothing is stated of the
    /// value beyond its type.
    pub fn take_and_reset(&self) -> usize {
        self.count.swap(0, std::sync::atomic::Ordering::Relaxed)
    }
}

} // verus!
