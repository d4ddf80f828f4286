//! The decisions of the background poll: what a new report of the headset
//! means for the notifications and the battery-rate tracker, and when the
//! tray has failed too often to go on. Polling, sleeping and showing the
//! notices is left to the caller.

use vstd::prelude::*;

use crate::battery_rate::{rate_sample, tracker_after, BatteryRateTracker, RateSample};
use crate::config::Config;
use crate::headset_cli::{battery_charging, device_connected, first_device_spec, HeadsetControlOutput};
use crate::notifications::{
    after_battery,
    after_connection,
    battery_notice,
    connection_notice,
    Notice,
    NotificationManager,
    NotifierView,
};

verus! {

/// What one poll of the headset means: whether it is connected, the name
/// to report, and the battery reading to record (only for a connected
/// device that reports a level). A failed poll, or a report without
/// devices, counts as a disconnected device named `Headset`.
pub open spec fn poll_reading(status: Option<HeadsetControlOutput>) -> (bool, Seq<char>, Option<(i32, bool)>) {
    match status {
        Some(o) => match first_device_spec(o) {
            Some(d) => {
                let connected = device_connected(d);
                let reading = if connected {
                    match d.battery {
                        Some(b) => match b.level {
                            Some(l) => Some((l, battery_charging(b))),
                            None => None,
                        },
                        None => None,
                    }
                } else {
                    None
                };
                (connected, d.device@, reading)
            },
            None => (false, "Headset"@, None),
        },
        None => (false, "Headset"@, None),
    }
}

/// An optional value as a sequence of zero or one element.
pub open spec fn opt_seq<T>(o: Option<T>) -> Seq<T> {
    match o {
        Some(x) => seq![x],
        None => Seq::empty(),
    }
}

/// The view of a list of notices.
pub open spec fn notices_view(v: Seq<Notice>) -> Seq<(Seq<char>, Seq<char>)> {
    v.map_values(|n: Notice| (n.summary@, n.body@))
}

/// The notices a poll brings: the connection notice, then the battery
/// notice.
pub open spec fn poll_notices(
    s: NotifierView,
    status: Option<HeadsetControlOutput>,
    c: Config,
) -> Seq<(Seq<char>, Seq<char>)> {
    let (connected, name, reading) = poll_reading(status);
    let first = opt_seq(connection_notice(s.was_connected, connected, name, c.notifications_enabled));
    match reading {
        Some((l, ch)) => first + opt_seq(battery_notice(after_connection(s, connected), l, ch, c)),
        None => first,
    }
}

/// What a poll yields: the notices to show and the battery-rate measurement
/// to fold into the estimates.
pub struct PollOutcome {
    pub notices: Vec<Notice>,
    pub sample: Option<RateSample>,
}

/// Handles one poll: `status` is the decoded report, or `None` when the
/// poll failed; `now` is the caller's monotonic clock in nanoseconds.
pub fn poll_step(
    notifier: &mut NotificationManager,
    tracker: &mut BatteryRateTracker,
    config: &Config,
    status: Option<&HeadsetControlOutput>,
    now: u64,
) -> (r: PollOutcome)
    ensures
        ({
            let st = match status {
                Some(o) => Some(*o),
                None => None,
            };
            let (connected, name, reading) = poll_reading(st);
            &&& notices_view(r.notices@) == poll_notices(old(notifier)@, st, *config)
            &&& match reading {
                Some((l, ch)) => {
                    &&& final(notifier)@ == after_battery(
                        after_connection(old(notifier)@, connected),
                        l,
                        ch,
                        *config,
                    )
                    &&& final(tracker)@ == tracker_after(old(tracker)@, l, ch, now)
                    &&& r.sample == rate_sample(old(tracker)@, l, ch, now)
                },
                None => {
                    &&& final(notifier)@ == after_connection(old(notifier)@, connected)
                    &&& final(tracker)@ == old(tracker)@
                    &&& r.sample is None
                },
            }
        }),
{
    let ghost st = match status {
        Some(o) => Some(*o),
        None => None,
    };
    let mut notices: Vec<Notice> = Vec::new();
    let mut sample: Option<RateSample> = None;
    let enabled = config.notifications_enabled;
    let device = match status {
        Some(output) => output.first_device(),
        None => None,
    };
    match device {
        Some(d) => {
            let connected = d.is_connected();
            if let Some(n) = notifier.check_connection(connected, d.device.as_str(), enabled) {
                notices.push(n);
            }
            if connected {
                if let Some(b) = &d.battery {
                    if let Some(level) = b.level {
                        let charging = b.is_charging();
                        sample = tracker.update(level, charging, now);
                        if let Some(n) = notifier.check_battery(level, charging, config) {
                            notices.push(n);
                        }
                    }
                }
            }
        },
        None => {
            if let Some(n) = notifier.check_connection(false, "Headset", enabled) {
                notices.push(n);
            }
        },
    }
    assert(notices_view(notices@) =~= poll_notices(old(notifier)@, st, *config));
    PollOutcome { notices, sample }
}

/// Counts consecutive failures to refresh the tray.
pub struct TrayWatchdog {
    failures: u32,
}

impl View for TrayWatchdog {
    type V = nat;

    closed spec fn view(&self) -> nat {
        self.failures as nat
    }
}

/// How many failures in a row make the tray give up.
pub open spec fn failure_limit() -> nat {
    3
}

/// The failure count and the verdict after a refresh attempt: a success
/// clears the count, a failure adds one, and the tray gives up once the
/// count reaches the limit.
pub open spec fn watchdog_step(failures: nat, refreshed: bool) -> (nat, bool) {
    if refreshed {
        (0, false)
    } else {
        let f = if failures < u32::MAX {
            failures + 1
        } else {
            failures
        };
        (f, f >= failure_limit())
    }
}

impl TrayWatchdog {
    /// A watchdog that has seen no failure.
    pub fn new() -> (r: Self)
        ensures
            r@ == 0,
    {
        TrayWatchdog { failures: 0 }
    }

    /// Records whether the tray could be refreshed; returns whether it has
    /// now failed too often in a row to go on.
    pub fn record(&mut self, refreshed: bool) -> (give_up: bool)
        ensures
            (final(self)@, give_up) == watchdog_step(old(self)@, refreshed),
    {
        if refreshed {
            self.failures = 0;
            false
        } else {
            if self.failures < u32::MAX {
                self.failures = self.failures + 1;
            }
            self.failures >= 3
        }
    }
}

/// After a successful refresh, the tray gives up exactly at the third
/// failure in a row, not before.
pub proof fn third_failure_in_a_row_gives_up(start: nat)
    ensures
        ({
            let a = watchdog_step(start, true);
            let b = watchdog_step(a.0, false);
            let c = watchdog_step(b.0, false);
            let d = watchdog_step(c.0, false);
            !a.1 && !b.1 && !c.1 && d.1
        }),
{
}

/// A failed poll after the headset was seen connected brings exactly one
/// notice, the disconnection of `Headset`, when notifications are enabled,
/// and none when they are disabled.
pub proof fn failed_poll_reports_disconnection(s: NotifierView, c: Config)
    requires
        s.was_connected,
    ensures
        c.notifications_enabled ==> poll_notices(s, None, c) == seq![("Headset Disconnected"@, "Headset"@)],
        !c.notifications_enabled ==> poll_notices(s, None, c).len() == 0,
{
    assert(opt_seq(Some(("Headset Disconnected"@, "Headset"@))) =~= seq![("Headset Disconnected"@, "Headset"@)]);
}

/// The reading of a poll comes from the first device's own battery: when
/// that device's status is `success` and its battery reports level `l`, the
/// reading is `l` with the charging flag true exactly when the battery's
/// status is `BATTERY_CHARGING`; the device counts as connected and its name
/// is reported.
pub proof fn poll_reading_follows_the_battery(o: HeadsetControlOutput, l: i32)
    requires
        o.devices@.len() > 0,
        o.devices@[0].status@ == "success"@,
        o.devices@[0].battery is Some,
        o.devices@[0].battery.unwrap().level == Some(l),
    ensures
        poll_reading(Some(o)) == (
            true,
            o.devices@[0].device@,
            Some((l, o.devices@[0].battery.unwrap().status@ == "BATTERY_CHARGING"@)),
        ),
{
}

} // verus!
