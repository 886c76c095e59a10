//! Cadence slots: fixed-width buckets of wall-clock time, each of which is
//! one opportunity to sample.

use vstd::prelude::*;

verus! {

/// A new slot is serviced only while it is still inside its window.
pub open spec fn serviceable(
    current_slot: u64,
    last_serviced_slot: u64,
    offset: u64,
    window_seconds: u64,
) -> bool {
    current_slot > last_serviced_slot && offset < window_seconds
}

/// Whether sampling may begin now: the slot is newer than the last one
/// serviced and its window has not closed yet.
pub fn should_service(
    current_slot: u64,
    last_serviced_slot: u64,
    offset: u64,
    window_seconds: u64,
) -> (service: bool)
    ensures
        service == serviceable(current_slot, last_serviced_slot, offset, window_seconds),
{
    current_slot > last_serviced_slot && offset < window_seconds
}

/// What to do about the slot that the clock is in.
#[derive(Clone, Copy, Debug, PartialEq, Eq, Structural)]
pub enum SlotDecision {
    /// The slot is new and its window is open: sample now.
    Service { slot: u64 },
    /// The slot is new but its window has closed: give it up for good.
    Skip { slot: u64 },
    /// The slot has been dealt with already.
    Hold,
}

impl SlotDecision {
    /// The last-serviced marker once this decision has been carried out.
    /// Serviced and skipped slots both move it; it never moves back.
    pub open spec fn marker_after(self, last_serviced_slot: u64) -> u64 {
        match self {
            SlotDecision::Service { slot } => slot,
            SlotDecision::Skip { slot } => slot,
            SlotDecision::Hold => last_serviced_slot,
        }
    }

    /// The last-serviced marker once this decision has been carried out.
    pub fn advance(&self, last_serviced_slot: u64) -> (marker: u64)
        ensures
            marker == self.marker_after(last_serviced_slot),
    {
        match self {
            SlotDecision::Service { slot } => *slot,
            SlotDecision::Skip { slot } => *slot,
            SlotDecision::Hold => last_serviced_slot,
        }
    }
}

/// Turns wall-clock seconds into slots of `interval` seconds, each with a
/// leading window of `window` seconds in which sampling may begin.
#[derive(Clone, Copy, Debug, PartialEq, Eq, Structural)]
pub struct SlotScheduler {
    pub(crate) interval_seconds: u64,
    pub(crate) window_seconds: u64,
}

impl SlotScheduler {
    #[verifier::type_invariant]
    pub open(crate) spec fn wf(self) -> bool {
        self.interval_seconds > 0
    }

    pub open(crate) spec fn interval(self) -> u64 {
        self.interval_seconds
    }

    pub open(crate) spec fn window(self) -> u64 {
        self.window_seconds
    }

    /// The scheduler with this cadence.
    pub open(crate) spec fn with_cadence(interval_seconds: u64, window_seconds: u64) -> Self {
        SlotScheduler { interval_seconds, window_seconds }
    }

    /// The slot that `now` falls into: `floor(now / interval)`.
    pub open spec fn slot_of(self, now: u64) -> u64 {
        now / self.interval()
    }

    /// Seconds elapsed since the start of the slot that `now` falls into.
    pub open spec fn offset_of(self, now: u64) -> u64 {
        now % self.interval()
    }

    /// Seconds from `now` to the start of the next slot.
    pub open spec fn until_next(self, now: u64) -> u64 {
        (self.interval() - self.offset_of(now)) as u64
    }

    /// The decision at `now`, given the last slot dealt with.
    pub open spec fn decision(self, now: u64, last_serviced_slot: u64) -> SlotDecision {
        if self.slot_of(now) <= last_serviced_slot {
            SlotDecision::Hold
        } else if self.offset_of(now) < self.window() {
            SlotDecision::Service { slot: self.slot_of(now) }
        } else {
            SlotDecision::Skip { slot: self.slot_of(now) }
        }
    }

    /// A scheduler for the given cadence, or `None` for an interval of zero
    /// seconds, which has no slots.
    pub fn new(interval_seconds: u64, window_seconds: u64) -> (made: Option<Self>)
        ensures
            made is None <==> interval_seconds == 0,
            made matches Some(s) ==> s == Self::with_cadence(interval_seconds, window_seconds)
                && s.wf() && s.interval() == interval_seconds && s.window() == window_seconds,
    {
        if interval_seconds == 0 {
            None
        } else {
            Some(SlotScheduler { interval_seconds, window_seconds })
        }
    }

    pub fn interval_seconds(&self) -> (seconds: u64)
        ensures
            seconds == self.interval(),
            seconds > 0,
    {
        proof {
            use_type_invariant(self);
        }
        self.interval_seconds
    }

    pub fn window_seconds(&self) -> (seconds: u64)
        ensures
            seconds == self.window(),
    {
        self.window_seconds
    }

    /// The slot that `now` falls into.
    pub fn current_slot(&self, now: u64) -> (slot: u64)
        ensures
            slot == self.slot_of(now),
    {
        proof {
            use_type_invariant(self);
        }
        now / self.interval_seconds
    }

    /// Seconds elapsed since the start of the slot that `now` falls into.
    pub fn offset(&self, now: u64) -> (offset: u64)
        ensures
            offset == self.offset_of(now),
            offset < self.interval(),
    {
        proof {
            use_type_invariant(self);
        }
        now % self.interval_seconds
    }

    /// Seconds from `now` to the start of the next slot: a whole interval at the
    /// exact start of a slot.
    pub fn seconds_until_next_slot(&self, now: u64) -> (seconds: u64)
        ensures
            seconds == self.until_next(now),
            seconds == self.interval() - self.offset_of(now),
            1 <= seconds <= self.interval(),
    {
        proof {
            use_type_invariant(self);
        }
        self.interval_seconds - now % self.interval_seconds
    }

    /// What to do at `now`, given the last slot dealt with: service a new slot
    /// inside its window, skip a new slot past it, hold otherwise.
    pub fn decide(&self, now: u64, last_serviced_slot: u64) -> (decision: SlotDecision)
        ensures
            decision == self.decision(now, last_serviced_slot),
            decision is Service <==> serviceable(
                self.slot_of(now),
                last_serviced_slot,
                self.offset_of(now),
                self.window(),
            ),
    {
        let slot: u64 = self.current_slot(now);
        let offset: u64 = self.offset(now);
        if should_service(slot, last_serviced_slot, offset, self.window_seconds) {
            SlotDecision::Service { slot }
        } else if slot > last_serviced_slot {
            SlotDecision::Skip { slot }
        } else {
            SlotDecision::Hold
        }
    }
}

/// At most once per slot: if a slot was serviceable at `now1` and the marker
/// has been advanced to it, it is not serviceable at any later moment `now2`
/// of the same slot; nor is it after whatever else was decided at `now1`.
pub proof fn law_at_most_once_per_slot(
    scheduler: SlotScheduler,
    now1: u64,
    now2: u64,
    last_serviced_slot: u64,
)
    requires
        scheduler.wf(),
        now1 < now2,
        scheduler.slot_of(now1) == scheduler.slot_of(now2),
    ensures
        serviceable(
            scheduler.slot_of(now1),
            last_serviced_slot,
            scheduler.offset_of(now1),
            scheduler.window(),
        ) ==> !serviceable(
            scheduler.slot_of(now2),
            scheduler.slot_of(now1),
            scheduler.offset_of(now2),
            scheduler.window(),
        ),
        ({
            let marker = scheduler.decision(now1, last_serviced_slot).marker_after(
                last_serviced_slot,
            );
            &&& marker >= scheduler.slot_of(now2)
            &&& !serviceable(
                scheduler.slot_of(now2),
                marker,
                scheduler.offset_of(now2),
                scheduler.window(),
            )
            &&& scheduler.decision(now2, marker) == SlotDecision::Hold
        }),
{
}

/// The marker closes a slot for good: against a marker that has reached a
/// slot, that slot and every earlier one are held.
pub proof fn law_marked_slot_is_held(scheduler: SlotScheduler, now: u64, marker: u64)
    requires
        scheduler.wf(),
        scheduler.slot_of(now) <= marker,
    ensures
        scheduler.decision(now, marker) == SlotDecision::Hold,
        !serviceable(scheduler.slot_of(now), marker, scheduler.offset_of(now), scheduler.window()),
{
}

/// No retroactive late sampling: a new slot found past its window is not
/// serviced, and the marker still moves to it.
pub proof fn law_late_slot_is_skipped_and_marked(
    scheduler: SlotScheduler,
    now: u64,
    last_serviced_slot: u64,
)
    requires
        scheduler.wf(),
        scheduler.slot_of(now) > last_serviced_slot,
        scheduler.offset_of(now) >= scheduler.window(),
    ensures
        !serviceable(
            scheduler.slot_of(now),
            last_serviced_slot,
            scheduler.offset_of(now),
            scheduler.window(),
        ),
        scheduler.decision(now, last_serviced_slot) == (SlotDecision::Skip {
            slot: scheduler.slot_of(now),
        }),
        scheduler.decision(now, last_serviced_slot).marker_after(last_serviced_slot)
            == scheduler.slot_of(now),
{
}

/// The marker is monotonic: carrying out a decision never moves it back.
pub proof fn law_marker_never_moves_back(
    scheduler: SlotScheduler,
    now: u64,
    last_serviced_slot: u64,
)
    requires
        scheduler.wf(),
    ensures
        scheduler.decision(now, last_serviced_slot).marker_after(last_serviced_slot)
            >= last_serviced_slot,
{
}

/// The exact start of a new slot is serviceable whenever the window is not
/// empty.
pub proof fn law_boundary_is_serviceable(
    scheduler: SlotScheduler,
    now: u64,
    last_serviced_slot: u64,
)
    requires
        scheduler.wf(),
        scheduler.window() > 0,
        scheduler.offset_of(now) == 0,
        scheduler.slot_of(now) > last_serviced_slot,
    ensures
        scheduler.decision(now, last_serviced_slot) == (SlotDecision::Service {
            slot: scheduler.slot_of(now),
        }),
{
}

/// Slots follow the clock: a later moment is never in an earlier slot.
pub proof fn law_slots_follow_the_clock(scheduler: SlotScheduler, now1: u64, now2: u64)
    requires
        scheduler.wf(),
        now1 <= now2,
    ensures
        scheduler.slot_of(now1) <= scheduler.slot_of(now2),
{
    assert(now1 / scheduler.interval() <= now2 / scheduler.interval()) by (nonlinear_arith)
        requires
            now1 <= now2,
            scheduler.interval() > 0,
    ;
}

} // verus!
