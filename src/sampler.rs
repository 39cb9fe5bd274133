use vstd::prelude::*;

verus! {

/// The sampling period in milliseconds: no record is attempted before this
/// much time has passed since the last successful publish.
pub const SAMPLE_PERIOD_MS: u64 = 1000;

/// The boundary of the current reporting interval: when the last record was
/// published and what the pulse counter read then.
#[derive(Clone, Copy, Debug, PartialEq, Eq, Structural)]
pub struct SampleWindow {
    pub last_sample_time: u64,
    pub last_pulse_count: u32,
}

/// One record of telemetry: pulses and milliseconds since the window opened.
#[derive(Clone, Copy, Debug, PartialEq, Eq, Structural)]
pub struct TelemetryRecord {
    pub pulse_delta: u32,
    pub time_delta: u64,
}

/// A publish that the sampler asks for: the record, and the sample time and
/// counter value that become the new window if the publish succeeds.
#[derive(Clone, Copy, Debug, PartialEq, Eq, Structural)]
pub struct PublishAttempt {
    pub record: TelemetryRecord,
    pub sample_time: u64,
    pub pulse_count: u32,
}

/// What one cycle of the sampler decides.
#[derive(Clone, Copy, Debug, PartialEq, Eq, Structural)]
pub enum CycleDecision {
    /// The sampling period has not elapsed yet.
    NotDue,
    /// The period has elapsed, but the link or the session is down.
    Offline,
    /// Publish this record.
    Publish(PublishAttempt),
}

/// Time since the window opened; a clock reading before it counts as none.
pub open spec fn elapsed_ms(w: SampleWindow, now: u64) -> nat {
    if now >= w.last_sample_time {
        (now - w.last_sample_time) as nat
    } else {
        0
    }
}

/// Pulses since the window opened, clamped at zero.
pub open spec fn pulse_delta_of(w: SampleWindow, count: u32) -> u32 {
    if count >= w.last_pulse_count {
        (count - w.last_pulse_count) as u32
    } else {
        0
    }
}

/// The record for a cycle at `now` that reads `count`.
pub open spec fn record_of(w: SampleWindow, now: u64, count: u32) -> TelemetryRecord {
    TelemetryRecord { pulse_delta: pulse_delta_of(w, count), time_delta: elapsed_ms(w, now) as u64 }
}

/// What a cycle decides at `now`, given the counter and the two health flags.
pub open spec fn decision_of(
    w: SampleWindow,
    now: u64,
    count: u32,
    link_up: bool,
    session_up: bool,
) -> CycleDecision {
    if elapsed_ms(w, now) < SAMPLE_PERIOD_MS {
        CycleDecision::NotDue
    } else if !link_up || !session_up {
        CycleDecision::Offline
    } else {
        CycleDecision::Publish(
            PublishAttempt { record: record_of(w, now, count), sample_time: now, pulse_count: count },
        )
    }
}

/// The window after a publish attempt: it advances only on success.
pub open spec fn window_after(w: SampleWindow, attempt: PublishAttempt, published: bool) -> SampleWindow {
    if published {
        SampleWindow { last_sample_time: attempt.sample_time, last_pulse_count: attempt.pulse_count }
    } else {
        w
    }
}

/// Converts a reading of the microsecond timer to milliseconds; the timer
/// counts up from boot, so a negative reading stands for no time at all.
pub fn millis_from_micros(micros: i64) -> (r: u64)
    ensures
        r as int == if micros >= 0 {
            micros as int / 1000
        } else {
            0
        },
{
    if micros >= 0 {
        (micros / 1000) as u64
    } else {
        0
    }
}

impl SampleWindow {
    /// A window that opens at `start_time` with the counter at `start_count`.
    pub fn new(start_time: u64, start_count: u32) -> (r: SampleWindow)
        ensures
            r.last_sample_time == start_time,
            r.last_pulse_count == start_count,
    {
        SampleWindow { last_sample_time: start_time, last_pulse_count: start_count }
    }

    /// Milliseconds since the window opened, zero if `now` lies before it.
    pub fn elapsed(&self, now: u64) -> (r: u64)
        ensures
            r == elapsed_ms(*self, now),
    {
        now.saturating_sub(self.last_sample_time)
    }

    /// The record that a cycle at `now` reading `count` would report.
    pub fn record(&self, now: u64, count: u32) -> (r: TelemetryRecord)
        ensures
            r == record_of(*self, now, count),
            r.pulse_delta as int == if count >= self.last_pulse_count {
                count - self.last_pulse_count
            } else {
                0
            },
    {
        TelemetryRecord {
            pulse_delta: count.saturating_sub(self.last_pulse_count),
            time_delta: self.elapsed(now),
        }
    }

    /// One cycle of the sampler: gate on the period, then on the two health
    /// flags, then ask for a publish of the interval's record.
    pub fn decide(&self, now: u64, count: u32, link_up: bool, session_up: bool) -> (r:
        CycleDecision)
        ensures
            r == decision_of(*self, now, count, link_up, session_up),
    {
        if self.elapsed(now) < SAMPLE_PERIOD_MS {
            CycleDecision::NotDue
        } else if !link_up || !session_up {
            CycleDecision::Offline
        } else {
            let record = self.record(now, count);
            CycleDecision::Publish(PublishAttempt { record, sample_time: now, pulse_count: count })
        }
    }

    /// Takes in the outcome of a publish attempt: on success the window
    /// moves to the attempt's sample time and counter value; on failure it
    /// stays, so the next record covers the failed interval too.
    pub fn on_publish_result(&mut self, attempt: &PublishAttempt, published: bool)
        ensures
            *final(self) == window_after(*old(self), *attempt, published),
    {
        if published {
            self.last_sample_time = attempt.sample_time;
            self.last_pulse_count = attempt.pulse_count;
        }
    }
}

} // verus!
