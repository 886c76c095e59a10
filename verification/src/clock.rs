//! Deciding whether wall-clock time can be trusted yet.

use vstd::prelude::*;

verus! {

/// Wall-clock readings below this many seconds since the epoch are taken to
/// come from a clock that has not been synchronised.
pub const MIN_PLAUSIBLE_EPOCH: u64 = 1_736_340_000;

/// The threshold that separates a synchronised clock from boot-time garbage.
#[derive(Clone, Copy, Debug, PartialEq, Eq, Structural)]
pub struct ClockAnchor {
    pub(crate) min_plausible_epoch: u64,
}

impl ClockAnchor {
    /// The threshold in seconds since the epoch.
    pub open(crate) spec fn threshold(self) -> u64 {
        self.min_plausible_epoch
    }

    /// The anchor with this threshold.
    pub open(crate) spec fn at(min_plausible_epoch: u64) -> Self {
        ClockAnchor { min_plausible_epoch }
    }

    /// A reading is trusted exactly when it has reached the threshold.
    pub open spec fn trusts(self, now: u64) -> bool {
        now >= self.threshold()
    }

    /// An anchor that trusts readings from `min_plausible_epoch` on.
    pub fn new(min_plausible_epoch: u64) -> (anchor: Self)
        ensures
            anchor == Self::at(min_plausible_epoch),
            anchor.threshold() == min_plausible_epoch,
    {
        ClockAnchor { min_plausible_epoch }
    }

    /// Whether `now` can be used for slot decisions. No side effects.
    pub fn is_trustworthy(&self, now: u64) -> (trusted: bool)
        ensures
            trusted == self.trusts(now),
    {
        now >= self.min_plausible_epoch
    }
}

/// Whether `now` can be trusted by the usual threshold: `true` exactly when
/// it has reached [`MIN_PLAUSIBLE_EPOCH`].
pub fn is_trustworthy(now: u64) -> (trusted: bool)
    ensures
        trusted == (now >= MIN_PLAUSIBLE_EPOCH),
{
    now >= MIN_PLAUSIBLE_EPOCH
}

/// What one look at the clock tells a caller that waits for synchronisation.
#[derive(Clone, Copy, Debug, PartialEq, Eq, Structural)]
pub enum SyncVerdict {
    /// The clock can be used.
    Trusted,
    /// Not yet: look again after a pause.
    KeepWaiting,
    /// Not yet, and the wait has used up its polls.
    GaveUp,
}

/// A wait for the clock to become trustworthy, bounded by a number of polls
/// or unbounded.
#[derive(Clone, Copy, Debug, PartialEq, Eq, Structural)]
pub struct ClockWait {
    pub(crate) anchor: ClockAnchor,
    pub(crate) max_polls: Option<u32>,
    pub(crate) polls: u32,
}

impl ClockWait {
    pub open(crate) spec fn anchor(self) -> ClockAnchor {
        self.anchor
    }

    /// The number of untrusted readings at which the wait gives up, if it is
    /// bounded.
    pub open(crate) spec fn bound(self) -> Option<u32> {
        self.max_polls
    }

    /// Untrusted readings seen so far.
    pub open(crate) spec fn seen(self) -> u32 {
        self.polls
    }

    pub open(crate) spec fn fresh(anchor: ClockAnchor, max_polls: Option<u32>) -> Self {
        ClockWait { anchor, max_polls, polls: 0 }
    }

    /// The count of untrusted readings once `now` has been looked at. It
    /// stops at the largest number it can hold.
    pub open spec fn seen_after(self, now: u64) -> u32 {
        if self.anchor().trusts(now) || self.seen() == u32::MAX {
            self.seen()
        } else {
            (self.seen() + 1) as u32
        }
    }

    /// A trusted reading ends the wait. An untrusted one is counted, and a
    /// bounded wait gives up when the count reaches its bound.
    pub open spec fn verdict(self, now: u64) -> SyncVerdict {
        if self.anchor().trusts(now) {
            SyncVerdict::Trusted
        } else {
            match self.bound() {
                Some(bound) if self.seen_after(now) >= bound => SyncVerdict::GaveUp,
                _ => SyncVerdict::KeepWaiting,
            }
        }
    }

    pub open(crate) spec fn after(self, now: u64) -> Self {
        ClockWait { polls: self.seen_after(now), ..self }
    }

    /// The wait after `count` untrusted readings in a row.
    pub open(crate) spec fn after_untrusted(self, count: nat) -> Self {
        ClockWait {
            polls: if self.polls + count >= u32::MAX {
                u32::MAX
            } else {
                (self.polls + count) as u32
            },
            ..self
        }
    }

    /// A wait that gives up at the `max_polls`-th untrusted reading.
    pub fn bounded(anchor: ClockAnchor, max_polls: u32) -> (wait: Self)
        ensures
            wait == Self::fresh(anchor, Some(max_polls)),
            wait.anchor() == anchor,
            wait.bound() == Some(max_polls),
            wait.seen() == 0,
    {
        ClockWait { anchor, max_polls: Some(max_polls), polls: 0 }
    }

    /// A wait that never gives up.
    pub fn unbounded(anchor: ClockAnchor) -> (wait: Self)
        ensures
            wait == Self::fresh(anchor, None),
            wait.anchor() == anchor,
            wait.bound() is None,
            wait.seen() == 0,
    {
        ClockWait { anchor, max_polls: None, polls: 0 }
    }

    pub fn polls(&self) -> (polls: u32)
        ensures
            polls == self.seen(),
    {
        self.polls
    }

    /// Looks at one reading of the clock.
    pub fn observe(&mut self, now: u64) -> (verdict: SyncVerdict)
        ensures
            verdict == old(self).verdict(now),
            *final(self) == old(self).after(now),
            final(self).anchor() == old(self).anchor(),
            final(self).bound() == old(self).bound(),
            final(self).seen() == old(self).seen_after(now),
            verdict is Trusted <==> old(self).anchor().trusts(now),
    {
        if self.anchor.is_trustworthy(now) {
            return SyncVerdict::Trusted;
        }
        if self.polls < u32::MAX {
            self.polls = self.polls + 1;
        }
        match self.max_polls {
            Some(bound) => if self.polls >= bound {
                SyncVerdict::GaveUp
            } else {
                SyncVerdict::KeepWaiting
            },
            None => SyncVerdict::KeepWaiting,
        }
    }
}

/// A bounded wait is bounded: counted from a fresh wait, the `n`-th untrusted
/// reading makes it give up exactly when `n` has reached the bound, so a
/// caller that stops at `GaveUp` looks at the clock at most `max(bound, 1)`
/// times.
pub proof fn law_bounded_wait_gives_up(anchor: ClockAnchor, max_polls: u32, n: nat, now: u64)
    requires
        n >= 1,
        !anchor.trusts(now),
    ensures
        ClockWait::fresh(anchor, Some(max_polls)).after_untrusted((n - 1) as nat).verdict(now)
            is GaveUp <==> n >= max_polls,
{
}

/// An unbounded wait never gives up.
pub proof fn law_unbounded_wait_never_gives_up(anchor: ClockAnchor, n: nat, now: u64)
    ensures
        !(ClockWait::fresh(anchor, None).after_untrusted(n).verdict(now) is GaveUp),
{
}

/// `after_untrusted` is what looking at untrusted readings one by one gives.
pub proof fn law_untrusted_readings_add_up(wait: ClockWait, count: nat, now: u64)
    requires
        !wait.anchor().trusts(now),
    ensures
        wait.after_untrusted(count).after(now) == wait.after_untrusted(count + 1),
        wait.after_untrusted(0) == wait,
{
}

} // verus!
