//! Latest-value broadcast cell: one current value, overwritten by every
//! publish, read by any number of observers, never queued.

use vstd::prelude::*;

verus! {

/// The version that follows `v`; versions wrap after 2^64 publishes.
pub open spec fn next_version(v: u64) -> u64 {
    if v == u64::MAX {
        0
    } else {
        (v + 1) as u64
    }
}

/// A single-slot cell. Each publish replaces the value and moves the version
/// on, so an observer detects a change by comparing versions.
pub struct BroadcastCell<T> {
    value: T,
    version: u64,
}

impl<T> BroadcastCell<T> {
    /// The value that a read sees now.
    pub closed spec fn value(&self) -> T {
        self.value
    }

    /// How many publishes the cell has seen, modulo 2^64.
    pub closed spec fn version(&self) -> u64 {
        self.version
    }

    /// A cell seeded with `v`, at version 0.
    pub fn new(v: T) -> (r: Self)
        ensures
            r.value() == v,
            r.version() == 0,
    {
        BroadcastCell { value: v, version: 0 }
    }

    /// Overwrites the value, whatever was there, and moves the version on.
    pub fn publish(&mut self, v: T)
        ensures
            final(self).value() == v,
            final(self).version() == next_version(old(self).version()),
    {
        self.value = v;
        self.version = self.version.wrapping_add(1);
    }

    /// The latest value.
    pub fn latest(&self) -> (r: &T)
        ensures
            *r == self.value(),
    {
        &self.value
    }

    /// The current version.
    pub fn current_version(&self) -> (r: u64)
        ensures
            r == self.version(),
    {
        self.version
    }

    /// Whether a value was published since the observer last saw version
    /// `seen`; `seen` then becomes the current version.
    pub fn observe(&self, seen: &mut u64) -> (changed: bool)
        ensures
            changed == (*old(seen) != self.version()),
            *final(seen) == self.version(),
    {
        let changed = *seen != self.version;
        *seen = self.version;
        changed
    }
}

} // verus!
