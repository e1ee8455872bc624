//! Sensor-driven instruction policies: the proximity auto-locker's dwell
//! state machine. The cyclic polling that feeds it lives outside the
//! library; every decision it takes is made here.

use vstd::prelude::*;

verus! {

/// Distance below which the door counts as closed, in centimeters.
pub const FRAME_THRESHOLD_CM: u64 = 6;

/// How long the door must stay closed before the auto-lock fires, in
/// milliseconds.
pub const AUTOLOCK_INTERVAL_MS: u64 = 60_000;

/// How many far readings in a row are absorbed as noise before the dwell
/// timer resets.
pub const ERR_TOLERANCE: u64 = 3;

/// How long the auto-locker rests after firing, in milliseconds.
pub const AUTOLOCK_COOLDOWN_MS: u64 = 5_000;

/// Interval between ranging samples, in milliseconds.
pub const RANGING_POLL_MS: u64 = 1_000;

/// What the auto-locker asks of its caller after a sample: emit
/// `EnsureLocked` and rest through the cooldown window, or just keep
/// sampling.
#[derive(Debug, Clone, Copy, PartialEq, Eq, Structural)]
pub enum AutoLockVerdict {
    EmitLock,
    Continue,
}

/// The proximity auto-locker's dwell state machine. The dwell timer
/// accumulates how long near-presence has held continuously; isolated far
/// readings are absorbed up to a tolerance, sustained ones cancel the
/// pending auto-lock.
#[derive(Debug, Clone, Copy, PartialEq, Eq, Structural)]
pub struct AutoLocker {
    /// How long the near condition has held, in milliseconds.
    pub dwell_ms: u64,
    /// Consecutive tolerated far readings since the last near reading.
    pub errs: u64,
    /// Configuration: see `FRAME_THRESHOLD_CM`.
    pub threshold_cm: u64,
    /// Configuration: see `AUTOLOCK_INTERVAL_MS`.
    pub autolock_interval_ms: u64,
    /// Configuration: see `ERR_TOLERANCE`.
    pub err_tolerance: u64,
    /// Configuration: see `AUTOLOCK_COOLDOWN_MS`.
    pub cooldown_ms: u64,
}

/// One step of the dwell state machine: the policy state after a sample,
/// and whether `EnsureLocked` is emitted. `reading_cm` is the measured
/// distance, or `None` for a failed sample; `elapsed_ms` is the time that
/// passed since the previous sample was processed. Time always accumulates
/// on the dwell timer (saturating); a near reading emits once the dwell
/// reaches the interval and then resets both counters; a far reading
/// increments the error counter and resets the timer only past the
/// tolerance; a failed sample changes no counter.
pub open spec fn spec_observe(p: AutoLocker, reading_cm: Option<u64>, elapsed_ms: u64) -> (
    AutoLocker,
    bool,
) {
    let dwell = if p.dwell_ms + elapsed_ms <= u64::MAX {
        (p.dwell_ms + elapsed_ms) as u64
    } else {
        u64::MAX
    };
    match reading_cm {
        Some(cm) => if cm < p.threshold_cm {
            if dwell >= p.autolock_interval_ms {
                (AutoLocker { dwell_ms: 0, errs: 0, ..p }, true)
            } else {
                (AutoLocker { dwell_ms: dwell, ..p }, false)
            }
        } else {
            if p.errs >= p.err_tolerance {
                (AutoLocker { dwell_ms: 0, errs: 0, ..p }, false)
            } else {
                (AutoLocker { dwell_ms: dwell, errs: (p.errs + 1) as u64, ..p }, false)
            }
        },
        None => (AutoLocker { dwell_ms: dwell, ..p }, false),
    }
}

impl AutoLocker {
    /// A fresh auto-locker with the stock configuration.
    pub fn new() -> (r: AutoLocker)
        ensures
            r == (AutoLocker {
                dwell_ms: 0,
                errs: 0,
                threshold_cm: FRAME_THRESHOLD_CM,
                autolock_interval_ms: AUTOLOCK_INTERVAL_MS,
                err_tolerance: ERR_TOLERANCE,
                cooldown_ms: AUTOLOCK_COOLDOWN_MS,
            }),
    {
        AutoLocker {
            dwell_ms: 0,
            errs: 0,
            threshold_cm: FRAME_THRESHOLD_CM,
            autolock_interval_ms: AUTOLOCK_INTERVAL_MS,
            err_tolerance: ERR_TOLERANCE,
            cooldown_ms: AUTOLOCK_COOLDOWN_MS,
        }
    }

    /// A fresh auto-locker with an explicit configuration.
    pub fn with_config(
        threshold_cm: u64,
        autolock_interval_ms: u64,
        err_tolerance: u64,
        cooldown_ms: u64,
    ) -> (r: AutoLocker)
        ensures
            r == (AutoLocker {
                dwell_ms: 0,
                errs: 0,
                threshold_cm,
                autolock_interval_ms,
                err_tolerance,
                cooldown_ms,
            }),
    {
        AutoLocker {
            dwell_ms: 0,
            errs: 0,
            threshold_cm,
            autolock_interval_ms,
            err_tolerance,
            cooldown_ms,
        }
    }

    /// Feeds one ranging sample to the policy; see `spec_observe`.
    pub fn observe(&mut self, reading_cm: Option<u64>, elapsed_ms: u64) -> (v: AutoLockVerdict)
        ensures
            *final(self) == spec_observe(*old(self), reading_cm, elapsed_ms).0,
            (v is EmitLock) == spec_observe(*old(self), reading_cm, elapsed_ms).1,
    {
        let dwell = if self.dwell_ms <= u64::MAX - elapsed_ms {
            self.dwell_ms + elapsed_ms
        } else {
            u64::MAX
        };
        match reading_cm {
            Some(cm) => {
                if cm < self.threshold_cm {
                    if dwell >= self.autolock_interval_ms {
                        self.dwell_ms = 0;
                        self.errs = 0;
                        AutoLockVerdict::EmitLock
                    } else {
                        self.dwell_ms = dwell;
                        AutoLockVerdict::Continue
                    }
                } else {
                    if self.errs >= self.err_tolerance {
                        self.dwell_ms = 0;
                        self.errs = 0;
                    } else {
                        self.dwell_ms = dwell;
                        self.errs = self.errs + 1;
                    }
                    AutoLockVerdict::Continue
                }
            },
            None => {
                self.dwell_ms = dwell;
                AutoLockVerdict::Continue
            },
        }
    }
}

/// A near sample emits exactly when the dwell time including this sample's
/// elapsed time has reached the auto-lock interval.
pub proof fn lemma_emission_condition(p: AutoLocker, cm: u64, elapsed_ms: u64)
    requires
        cm < p.threshold_cm,
    ensures
        spec_observe(p, Some(cm), elapsed_ms).1 <==> (p.dwell_ms + elapsed_ms
            >= p.autolock_interval_ms),
{
}

/// An emission resets the dwell timer and error counter, so after the
/// cooldown a further emission again needs a full interval of continuous
/// near-presence.
pub proof fn lemma_emission_resets(p: AutoLocker, reading_cm: Option<u64>, elapsed_ms: u64)
    requires
        spec_observe(p, reading_cm, elapsed_ms).1,
    ensures
        spec_observe(p, reading_cm, elapsed_ms).0.dwell_ms == 0,
        spec_observe(p, reading_cm, elapsed_ms).0.errs == 0,
{
}

/// Immediately after an emission, no sample arriving sooner than a full
/// interval can emit again: at most one emission per dwell period.
pub proof fn lemma_no_double_emission(p: AutoLocker, first: Option<u64>, dt1: u64, second: Option<
    u64,
>, dt2: u64)
    requires
        spec_observe(p, first, dt1).1,
        dt2 < p.autolock_interval_ms,
    ensures
        !spec_observe(spec_observe(p, first, dt1).0, second, dt2).1,
{
}

/// An isolated far reading within the tolerance keeps the dwell timer
/// running and only counts the error; it does not cancel the pending
/// auto-lock.
pub proof fn lemma_far_within_tolerance_absorbed(p: AutoLocker, cm: u64, elapsed_ms: u64)
    requires
        cm >= p.threshold_cm,
        p.errs < p.err_tolerance,
    ensures
        spec_observe(p, Some(cm), elapsed_ms).0.dwell_ms >= p.dwell_ms,
        spec_observe(p, Some(cm), elapsed_ms).0.errs == p.errs + 1,
        !spec_observe(p, Some(cm), elapsed_ms).1,
{
}

/// Past the tolerance, a sustained run of far readings cancels the pending
/// auto-lock: the dwell timer resets.
pub proof fn lemma_far_past_tolerance_resets(p: AutoLocker, cm: u64, elapsed_ms: u64)
    requires
        cm >= p.threshold_cm,
        p.errs >= p.err_tolerance,
    ensures
        spec_observe(p, Some(cm), elapsed_ms).0.dwell_ms == 0,
        spec_observe(p, Some(cm), elapsed_ms).0.errs == 0,
        !spec_observe(p, Some(cm), elapsed_ms).1,
{
}

} // verus!
