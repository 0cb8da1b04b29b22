//! Per-machine tables of watcher callbacks, keyed by slot index.
//!
//! Each architecture assigns one slot to every watchable location (a memory
//! address, a register, or the condition code, combined with an access
//! direction where the architecture distinguishes directions).  A table
//! holds at most one watcher per slot: installing replaces, removing is
//! idempotent.
use vstd::prelude::*;

use crate::common::ConditionCode;
use crate::Watcher;

verus! {

/// One watcher notification, as recorded in a machine's ghost log of fired
/// watchers: which location was accessed and which value the watcher
/// received.  `R` is the architecture's register name type.
pub ghost enum WatcherEvent<R> {
    /// A memory write watcher fired with the word just written.
    MemoryWrite { address: u16, data: u16 },
    /// A memory read watcher fired with the word just read.
    MemoryRead { address: u16, data: u16 },
    /// A register write watcher fired with the word just written.
    RegisterWrite { register: R, data: u16 },
    /// A condition-code write watcher fired with the code just written.
    ConditionCodeWrite { code: ConditionCode },
}

/// A fixed-size table of optional watchers, one slot per watchable location.
/// Viewed as the sequence of its slots.
pub struct WatcherSlots<W> {
    slots: Vec<Option<W>>,
}

impl<W> View for WatcherSlots<W> {
    type V = Seq<Option<W>>;

    closed spec fn view(&self) -> Seq<Option<W>> {
        self.slots@
    }
}

impl<W> WatcherSlots<W> {
    /// A table of `len` empty slots.
    pub fn new(len: usize) -> (table: Self)
        ensures
            table@.len() == len,
            forall|slot: int| 0 <= slot < len ==> table@[slot] is None,
    {
        let mut slots: Vec<Option<W>> = Vec::new();
        let mut filled: usize = 0;
        while filled < len
            invariant
                filled <= len,
                slots@.len() == filled,
                forall|slot: int| 0 <= slot < filled ==> slots@[slot] is None,
            decreases len - filled,
        {
            slots.push(None);
            filled = filled + 1;
        }
        WatcherSlots { slots }
    }

    /// Installs a watcher in a slot, replacing any watcher already there.
    pub fn install(&mut self, slot: usize, watcher: W)
        requires
            slot < old(self)@.len(),
        ensures
            final(self)@ == old(self)@.update(slot as int, Some(watcher)),
    {
        self.slots.set(slot, Some(watcher));
    }

    /// Empties a slot; a no-op if no watcher is installed there.
    pub fn clear(&mut self, slot: usize)
        requires
            slot < old(self)@.len(),
        ensures
            final(self)@ == old(self)@.update(slot as int, None),
    {
        self.slots.set(slot, None);
    }
}

impl<W: Watcher> WatcherSlots<W> {
    /// Hands a data word to the watcher in a slot, if one is installed, and
    /// reports whether one fired.
    pub fn notify_data(&self, slot: usize, data: u16) -> (fired: bool)
        requires
            slot < self@.len(),
        ensures
            fired == (self@[slot as int] is Some),
    {
        match &self.slots[slot] {
            Some(watcher) => {
                watcher.on_data(data);
                true
            },
            None => false,
        }
    }

    /// Hands a condition code to the watcher in a slot, if one is installed,
    /// and reports whether one fired.
    pub fn notify_condition_code(&self, slot: usize, condition_code: ConditionCode) -> (fired: bool)
        requires
            slot < self@.len(),
        ensures
            fired == (self@[slot as int] is Some),
    {
        match &self.slots[slot] {
            Some(watcher) => {
                watcher.on_condition_code(condition_code);
                true
            },
            None => false,
        }
    }
}

} // verus!
