//! Tracks battery level changes over time so the remaining time can be
//! estimated. This part decides when a level change yields a measurement
//! (how many percent changed over how long, and in which direction); the
//! caller folds measurements into its rolling seconds-per-percent averages.
//!
//! Charging-curve caveat: many Li-ion headsets report 99% for a long
//! constant-voltage trickle phase before ticking to 100%, so the last percent
//! step while charging measures as disproportionately long.

use vstd::prelude::*;

verus! {

/// One measurement: the battery level moved by `percent_delta` percent in
/// `elapsed_nanos` nanoseconds, while charging or discharging.
#[derive(Clone, Copy, Debug, PartialEq, Eq, Structural)]
pub struct RateSample {
    pub charging: bool,
    pub elapsed_nanos: u64,
    pub percent_delta: u32,
}

/// What the tracker remembers: the last level, when it last changed (on the
/// caller's monotonic clock, in nanoseconds) and the last charging state.
pub struct TrackerView {
    pub last_level: Option<i32>,
    pub last_level_changed_at: Option<u64>,
    pub last_charging_state: Option<bool>,
}

/// Tracks battery level changes over time.
pub struct BatteryRateTracker {
    last_level: Option<i32>,
    last_level_changed_at: Option<u64>,
    last_charging_state: Option<bool>,
}

impl View for BatteryRateTracker {
    type V = TrackerView;

    closed spec fn view(&self) -> TrackerView {
        TrackerView {
            last_level: self.last_level,
            last_level_changed_at: self.last_level_changed_at,
            last_charging_state: self.last_charging_state,
        }
    }
}

/// Time from `then` to `now`, zero if the clock reads earlier than `then`.
pub open spec fn elapsed_since(now: u64, then: u64) -> u64 {
    if now >= then {
        (now - then) as u64
    } else {
        0
    }
}

/// The distance between two levels, in percent.
pub open spec fn level_distance(a: i32, b: i32) -> int {
    if a >= b {
        a - b
    } else {
        b - a
    }
}

/// The measurement an update yields: none when the charging state flipped
/// (the baseline is reset instead), none when the level did not change, and
/// otherwise the change since the last level change.
pub open spec fn rate_sample(s: TrackerView, level: i32, charging: bool, now: u64) -> Option<RateSample> {
    if s.last_charging_state != Some(charging) {
        None
    } else {
        match (s.last_level, s.last_level_changed_at) {
            (Some(last), Some(at)) => if level != last {
                Some(
                    RateSample {
                        charging,
                        elapsed_nanos: elapsed_since(now, at),
                        percent_delta: level_distance(level, last) as u32,
                    },
                )
            } else {
                None
            },
            _ => None,
        }
    }
}

/// The tracker after an update.
pub open spec fn tracker_after(s: TrackerView, level: i32, charging: bool, now: u64) -> TrackerView {
    if s.last_charging_state != Some(charging) {
        TrackerView {
            last_level: Some(level),
            last_level_changed_at: Some(now),
            last_charging_state: Some(charging),
        }
    } else {
        match (s.last_level, s.last_level_changed_at) {
            (Some(last), Some(_)) => if level != last {
                TrackerView {
                    last_level: Some(level),
                    last_level_changed_at: Some(now),
                    last_charging_state: s.last_charging_state,
                }
            } else {
                s
            },
            _ => TrackerView {
                last_level: Some(level),
                last_level_changed_at: Some(now),
                last_charging_state: s.last_charging_state,
            },
        }
    }
}

/// How many percent remain to be charged (while charging) or discharged
/// (otherwise) from `level`; zero when nothing remains.
pub open spec fn remaining_percent_spec(level: i32, charging: bool) -> int {
    let rem = if charging {
        100 - level
    } else {
        level as int
    };
    if rem <= 0 {
        0
    } else {
        rem
    }
}

impl BatteryRateTracker {
    /// A tracker that has seen no reading yet.
    pub fn new() -> (r: Self)
        ensures
            r@ == (TrackerView {
                last_level: None,
                last_level_changed_at: None,
                last_charging_state: None,
            }),
    {
        BatteryRateTracker { last_level: None, last_level_changed_at: None, last_charging_state: None }
    }

    /// Records a reading taken at `now` and returns the measurement it
    /// completes, if any.
    pub fn update(&mut self, new_level: i32, charging: bool, now: u64) -> (r: Option<RateSample>)
        ensures
            r == rate_sample(old(self)@, new_level, charging, now),
            final(self)@ == tracker_after(old(self)@, new_level, charging, now),
    {
        let same_state = match self.last_charging_state {
            Some(c) => c == charging,
            None => false,
        };
        if !same_state {
            self.last_charging_state = Some(charging);
            self.last_level = Some(new_level);
            self.last_level_changed_at = Some(now);
            return None;
        }
        match (self.last_level, self.last_level_changed_at) {
            (Some(last_level), Some(last_changed_at)) => {
                if new_level != last_level {
                    let elapsed = if now >= last_changed_at {
                        now - last_changed_at
                    } else {
                        0
                    };
                    let diff: i64 = new_level as i64 - last_level as i64;
                    let magnitude: i64 = if diff < 0 {
                        -diff
                    } else {
                        diff
                    };
                    let percent_delta: u32 = magnitude as u32;
                    self.last_level = Some(new_level);
                    self.last_level_changed_at = Some(now);
                    Some(RateSample { charging, elapsed_nanos: elapsed, percent_delta })
                } else {
                    None
                }
            },
            _ => {
                self.last_level = Some(new_level);
                self.last_level_changed_at = Some(now);
                None
            },
        }
    }
}

/// How many percent remain until full (while charging) or empty (otherwise).
pub fn remaining_percent(current_level: i32, charging: bool) -> (r: u32)
    ensures
        r as int == remaining_percent_spec(current_level, charging),
{
    let rem: i64 = if charging {
        100 - current_level as i64
    } else {
        current_level as i64
    };
    if rem <= 0 {
        0
    } else {
        rem as u32
    }
}

/// A flip of the charging state yields no measurement and restarts the
/// baseline at the new reading.
pub proof fn charging_flip_resets(s: TrackerView, level: i32, charging: bool, now: u64)
    requires
        s.last_charging_state == Some(!charging),
    ensures
        rate_sample(s, level, charging, now) == None::<RateSample>,
        tracker_after(s, level, charging, now) == (TrackerView {
            last_level: Some(level),
            last_level_changed_at: Some(now),
            last_charging_state: Some(charging),
        }),
{
}

/// Every measurement covers a real change: its delta is positive and is
/// the distance between the new level and the last one.
pub proof fn samples_measure_real_changes(s: TrackerView, level: i32, charging: bool, now: u64)
    ensures
        rate_sample(s, level, charging, now) matches Some(m) ==> {
            &&& m.percent_delta > 0
            &&& m.charging == charging
            &&& s.last_level is Some
            &&& m.percent_delta == level_distance(level, s.last_level.unwrap())
        },
{
}

/// After a reading at `first` (time `t1`) that changed the level or the
/// charging state, the next reading in the same charging state at a
/// different level `second` (time `t2`) measures exactly the change from
/// `first` over the time since `t1`. Whatever the tracker held, the same
/// level read again right after a reading measures nothing.
pub proof fn consecutive_readings_measure_from_last_change(
    s: TrackerView,
    charging: bool,
    first: i32,
    t1: u64,
    second: i32,
    t2: u64,
)
    ensures
        (s.last_level != Some(first) || s.last_charging_state != Some(charging)) && second != first
            ==> rate_sample(tracker_after(s, first, charging, t1), second, charging, t2)
            == Some(
            RateSample {
                charging,
                elapsed_nanos: elapsed_since(t2, t1),
                percent_delta: level_distance(second, first) as u32,
            },
        ),
        rate_sample(tracker_after(s, first, charging, t1), first, charging, t2) == None::<RateSample>,
{
}

/// While discharging, what remains is the level itself; while charging, it
/// is what is missing to 100%. Both are never negative, and for a level
/// between 0 and 100 the two add up to 100.
pub proof fn remaining_percent_to_empty_and_to_full(level: i32)
    ensures
        level >= 0 ==> remaining_percent_spec(level, false) == level,
        level < 0 ==> remaining_percent_spec(level, false) == 0,
        level <= 100 ==> remaining_percent_spec(level, true) == 100 - level,
        level > 100 ==> remaining_percent_spec(level, true) == 0,
        0 <= level <= 100 ==> remaining_percent_spec(level, false) + remaining_percent_spec(level, true)
            == 100,
{
}

} // verus!
