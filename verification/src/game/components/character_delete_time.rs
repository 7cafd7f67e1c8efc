use crate::data::duration::Duration;
use vstd::prelude::*;

verus! {

/// How long a character that was marked for deletion can still be
/// recovered, in seconds.
pub const DELETE_CHARACTER_SECS: u64 = 3600;

/// The moment at which a character was marked for deletion, as the time
/// since the epoch.
#[derive(Copy, Clone, Debug, PartialEq, Eq, Structural)]
pub struct CharacterDeleteTime {
    pub start_time: Duration,
}

impl CharacterDeleteTime {
    /// The grace period in nanoseconds.
    pub open spec fn grace_nanos() -> nat {
        (DELETE_CHARACTER_SECS as nat) * 1_000_000_000
    }

    /// What is left of the grace period at the time `now`: the whole
    /// period while `now` is not after the mark, nothing once the period
    /// has passed.
    pub open spec fn nanos_until_delete(self, now: Duration) -> nat {
        let elapsed: int = if now.total_nanos() > self.start_time.total_nanos() {
            now.total_nanos() - self.start_time.total_nanos()
        } else {
            0
        };
        if elapsed >= Self::grace_nanos() {
            0
        } else {
            (Self::grace_nanos() - elapsed) as nat
        }
    }

    /// Marks a character for deletion at the time `now`.
    pub fn new(now: Duration) -> (mark: Self)
        ensures
            mark.start_time == now,
    {
        Self { start_time: now }
    }

    pub fn get_time_until_delete(&self, now: &Duration) -> (left: Duration)
        ensures
            left.total_nanos() == self.nanos_until_delete(*now),
    {
        let grace = Duration::from_secs(DELETE_CHARACTER_SECS);
        let elapsed = now.saturating_sub(&self.start_time);
        grace.saturating_sub(&elapsed)
    }

    /// Whether the grace period is over at the time `now`.
    pub fn is_expired(&self, now: &Duration) -> (expired: bool)
        ensures
            expired == (self.nanos_until_delete(*now) == 0),
    {
        self.get_time_until_delete(now).is_zero()
    }
}

} // verus!
