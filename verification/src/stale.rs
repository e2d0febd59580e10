//! A timestamped optional value with a fixed time to live.
//!
//! Every published telemetry field is one of these cells. Staleness is a
//! read-time projection: an update always overwrites value and timestamp,
//! and a read returns nothing once the time to live has elapsed, even
//! though the value is physically still there. Time is an explicit
//! millisecond count from a monotonic clock, passed in by the caller.

use vstd::prelude::*;

verus! {

/// Milliseconds a value stays fresh after an update.
pub const DISPLAY_VALUE_TIMEOUT_MS: u64 = 5000;

/// A value and the time it was last written; fresh for
/// `DISPLAY_VALUE_TIMEOUT_MS` after each write.
///
/// `get` is the sanctioned accessor for display and consumption code.
#[derive(Clone, Copy, Debug)]
pub struct DisplayValue<T> {
    pub value: Option<T>,
    pub last_updated: u64,
}

impl<T> DisplayValue<T> {
    /// A cell that never received a value. Indistinguishable through `get`
    /// from one whose value expired long ago.
    pub open spec fn spec_default() -> DisplayValue<T> {
        DisplayValue { value: None, last_updated: 0 }
    }

    /// The cell after a write of `value` at time `now`: an unconditional
    /// overwrite, with no comparison against what was there.
    pub open spec fn spec_update(self, value: T, now: u64) -> DisplayValue<T> {
        DisplayValue { value: Some(value), last_updated: now }
    }

    /// A value is present and its time to live has not elapsed.
    pub open spec fn spec_is_valid(self, now: u64) -> bool {
        &&& self.value is Some
        &&& self.last_updated <= now
        &&& now - self.last_updated < DISPLAY_VALUE_TIMEOUT_MS
    }

    /// What a read at time `now` returns: the value only while fresh.
    pub open spec fn spec_get(self, now: u64) -> Option<T> {
        if self.spec_is_valid(now) {
            self.value
        } else {
            None
        }
    }

    /// Overwrite value and timestamp.
    pub fn update(&mut self, value: T, now: u64)
        ensures
            *final(self) == old(self).spec_update(value, now),
    {
        self.value = Some(value);
        self.last_updated = now;
    }

    /// Whether a value is present and still fresh at time `now`.
    pub fn is_valid(&self, now: u64) -> (r: bool)
        ensures
            r == self.spec_is_valid(now),
    {
        self.value.is_some() && self.last_updated <= now && now - self.last_updated
            < DISPLAY_VALUE_TIMEOUT_MS
    }

    /// The value, or `None` once stale or never set.
    pub fn get(&self, now: u64) -> (r: Option<&T>)
        ensures
            match r {
                Some(v) => self.spec_get(now) == Some(*v),
                None => self.spec_get(now) is None,
            },
    {
        if self.is_valid(now) {
            self.value.as_ref()
        } else {
            None
        }
    }
}

impl<T> Default for DisplayValue<T> {
    /// A cell that never received a value.
    fn default() -> (r: Self)
        ensures
            r == Self::spec_default(),
    {
        DisplayValue { value: None, last_updated: 0 }
    }
}

/// Freshness law: a read at the very time of an update returns the value
/// just written.
pub proof fn lemma_update_then_get_fresh<T>(v: DisplayValue<T>, x: T, now: u64)
    ensures
        v.spec_update(x, now).spec_get(now) == Some(x),
        v.spec_update(x, now).spec_is_valid(now),
{
}

/// Expiry law: once the time to live has elapsed with no further update,
/// the cell reports invalid and a read returns nothing.
pub proof fn lemma_update_then_get_stale<T>(v: DisplayValue<T>, x: T, now: u64, later: u64)
    requires
        now + DISPLAY_VALUE_TIMEOUT_MS <= later,
    ensures
        !v.spec_update(x, now).spec_is_valid(later),
        v.spec_update(x, now).spec_get(later) is None,
{
}

/// Default law: a cell that never received a value reports invalid and
/// returns nothing at every time.
pub proof fn lemma_default_never_valid<T>(now: u64)
    ensures
        !DisplayValue::<T>::spec_default().spec_is_valid(now),
        DisplayValue::<T>::spec_default().spec_get(now) is None,
{
}

} // verus!
