//! The profiling record of a completed command: the four device timestamps
//! every profiled event carries.
use vstd::prelude::*;

verus! {

/// The device timestamps of one profiled command, in nanoseconds. A value
/// of this type always carries timestamps in submission order: queued, then
/// submitted, then started, then ended.
#[derive(Debug, Clone, Copy, PartialEq, Eq)]
pub struct EventProfile {
    queued: u64,
    submitted: u64,
    started: u64,
    ended: u64,
}

impl EventProfile {
    /// Commands move one way through the queue: queued, submitted, started,
    /// ended, and the timestamps never run backwards.
    #[verifier::type_invariant]
    pub closed spec fn monotone(self) -> bool {
        self.queued <= self.submitted <= self.started <= self.ended
    }

    /// The queued timestamp.
    pub closed spec fn spec_queued(self) -> u64 {
        self.queued
    }

    /// The submitted timestamp.
    pub closed spec fn spec_submitted(self) -> u64 {
        self.submitted
    }

    /// The start timestamp.
    pub closed spec fn spec_started(self) -> u64 {
        self.started
    }

    /// The end timestamp.
    pub closed spec fn spec_ended(self) -> u64 {
        self.ended
    }

    /// Accepts the four timestamps of a profiled command, but only in
    /// submission order; a driver that reports them out of order yields
    /// nothing.
    pub fn new(queued: u64, submitted: u64, started: u64, ended: u64) -> (r: Option<EventProfile>)
        ensures
            r is Some <==> queued <= submitted <= started <= ended,
            r matches Some(p) ==> p.spec_queued() == queued && p.spec_submitted() == submitted
                && p.spec_started() == started && p.spec_ended() == ended,
    {
        if queued <= submitted && submitted <= started && started <= ended {
            Some(EventProfile { queued, submitted, started, ended })
        } else {
            None
        }
    }

    /// The queued timestamp.
    pub fn get_profiling_command_queued(&self) -> (r: u64)
        ensures
            r == self.spec_queued(),
    {
        self.queued
    }

    /// The submitted timestamp.
    pub fn get_profiling_command_submit(&self) -> (r: u64)
        ensures
            r == self.spec_submitted(),
    {
        self.submitted
    }

    /// The start timestamp.
    pub fn get_profiling_command_start(&self) -> (r: u64)
        ensures
            r == self.spec_started(),
    {
        self.started
    }

    /// The end timestamp.
    pub fn get_profiling_command_end(&self) -> (r: u64)
        ensures
            r == self.spec_ended(),
    {
        self.ended
    }

    /// How long the command ran on the device, end minus start.
    pub fn get_duration_nanos(&self) -> (r: u64)
        ensures
            r == self.spec_ended() - self.spec_started(),
    {
        proof {
            use_type_invariant(self);
        }
        self.ended - self.started
    }
}

/// How long a profiled command ran, as `get_duration_nanos` returns it.
pub open spec fn spec_duration(p: EventProfile) -> nat {
    if p.spec_ended() >= p.spec_started() {
        (p.spec_ended() - p.spec_started()) as nat
    } else {
        0
    }
}

impl EventProfile {
    /// The ordering law of profiling timestamps: for every profile this
    /// type hands out, queued precedes submitted, submitted precedes
    /// started, and started precedes ended, so the three deltas returned
    /// here — waiting, launch, and run time — are each well defined.
    pub fn delta_breakdown(&self) -> (r: (u64, u64, u64))
        ensures
            self.spec_queued() <= self.spec_submitted() <= self.spec_started()
                <= self.spec_ended(),
            r.0 == self.spec_submitted() - self.spec_queued(),
            r.1 == self.spec_started() - self.spec_submitted(),
            r.2 == self.spec_ended() - self.spec_started(),
    {
        proof {
            use_type_invariant(self);
        }
        (self.submitted - self.queued, self.started - self.submitted, self.ended - self.started)
    }
}

} // verus!
