//! When to tell the user about the headset: connection changes, a low
//! battery while discharging and a full enough battery while charging.
//! Each decision is made once per crossing of a threshold; showing the
//! notice is left to the caller.

use vstd::prelude::*;

use crate::config::Config;
use crate::text::{int_text, int_to_text};

verus! {

/// A desktop notification to show: a summary line and a body.
pub struct Notice {
    pub summary: String,
    pub body: String,
}

/// The view of an optional notice: its summary and body.
pub open spec fn notice_view(n: Option<Notice>) -> Option<(Seq<char>, Seq<char>)> {
    match n {
        Some(n) => Some((n.summary@, n.body@)),
        None => None,
    }
}

/// What the notification manager remembers between polls.
pub struct NotifierView {
    pub last_level: Option<i32>,
    pub discharged_notified: bool,
    pub charged_notified: bool,
    pub was_connected: bool,
}

/// Decides which notifications to show as the headset's state is polled.
pub struct NotificationManager {
    last_level: Option<i32>,
    discharged_notified: bool,
    charged_notified: bool,
    was_connected: bool,
}

impl View for NotificationManager {
    type V = NotifierView;

    closed spec fn view(&self) -> NotifierView {
        NotifierView {
            last_level: self.last_level,
            discharged_notified: self.discharged_notified,
            charged_notified: self.charged_notified,
            was_connected: self.was_connected,
        }
    }
}

/// The state of a manager that has seen nothing yet.
pub open spec fn initial_notifier() -> NotifierView {
    NotifierView {
        last_level: None,
        discharged_notified: false,
        charged_notified: false,
        was_connected: false,
    }
}

/// The notice for a connection poll: one on each change of the connected
/// state, none while notifications are disabled.
pub open spec fn connection_notice(was: bool, now: bool, device: Seq<char>, enabled: bool) -> Option<
    (Seq<char>, Seq<char>),
> {
    if enabled && now && !was {
        Some(("Headset Connected"@, device))
    } else if enabled && !now && was {
        Some(("Headset Disconnected"@, device))
    } else {
        None
    }
}

/// The state after a connection poll.
pub open spec fn after_connection(s: NotifierView, now: bool) -> NotifierView {
    NotifierView { was_connected: now, ..s }
}

/// The body of a battery notice.
pub open spec fn level_body(level: i32) -> Seq<char> {
    "Battery level is at "@ + int_text(level as int) + "%"@
}

/// Whether a low-battery notice is due: discharging at or below the
/// threshold, not yet told since the level was last above it, and
/// notifications enabled.
pub open spec fn low_notice_due(
    told: bool,
    level: i32,
    charging: bool,
    threshold: Option<u8>,
    enabled: bool,
) -> bool {
    match threshold {
        Some(t) => !charging && level <= t && !told && enabled,
        None => false,
    }
}

/// The low-battery flag after a poll: set at or below the threshold while
/// discharging, cleared above it, kept otherwise.
pub open spec fn discharged_after(told: bool, level: i32, charging: bool, threshold: Option<u8>) -> bool {
    match threshold {
        Some(t) => if !charging && level <= t {
            true
        } else if level > t {
            false
        } else {
            told
        },
        None => told,
    }
}

/// Whether a charged notice is due: charging at or above the threshold,
/// not yet told since the level was last below it, and notifications
/// enabled.
pub open spec fn charged_notice_due(
    told: bool,
    level: i32,
    charging: bool,
    threshold: Option<u8>,
    enabled: bool,
) -> bool {
    match threshold {
        Some(t) => charging && level >= t && !told && enabled,
        None => false,
    }
}

/// The charged flag after a poll: set at or above the threshold while
/// charging, cleared below it, kept otherwise.
pub open spec fn charged_after(told: bool, level: i32, charging: bool, threshold: Option<u8>) -> bool {
    match threshold {
        Some(t) => if charging && level >= t {
            true
        } else if level < t {
            false
        } else {
            told
        },
        None => told,
    }
}

/// The notice for a battery poll.
pub open spec fn battery_notice(s: NotifierView, level: i32, charging: bool, c: Config) -> Option<
    (Seq<char>, Seq<char>),
> {
    if low_notice_due(
        s.discharged_notified,
        level,
        charging,
        c.discharge_level,
        c.notifications_enabled,
    ) {
        Some(("Headset Battery Low"@, level_body(level)))
    } else if charged_notice_due(
        s.charged_notified,
        level,
        charging,
        c.charge_level,
        c.notifications_enabled,
    ) {
        Some(("Headset Battery Charged"@, level_body(level)))
    } else {
        None
    }
}

/// The state after a battery poll.
pub open spec fn after_battery(s: NotifierView, level: i32, charging: bool, c: Config) -> NotifierView {
    NotifierView {
        last_level: Some(level),
        discharged_notified: discharged_after(s.discharged_notified, level, charging, c.discharge_level),
        charged_notified: charged_after(s.charged_notified, level, charging, c.charge_level),
        was_connected: s.was_connected,
    }
}

fn make_notice(summary: &str, body: String) -> (n: Notice)
    ensures
        n.summary@ == summary@,
        n.body@ == body@,
{
    Notice { summary: String::from_str(summary), body }
}

fn battery_body(level: i32) -> (s: String)
    ensures
        s@ == level_body(level),
{
    let s = String::from_str("Battery level is at ");
    let digits = int_to_text(level);
    let s = s.concat(digits.as_str());
    s.concat("%")
}

impl NotificationManager {
    /// A manager that has seen no poll yet.
    pub fn new() -> (r: Self)
        ensures
            r@ == initial_notifier(),
    {
        NotificationManager {
            last_level: None,
            discharged_notified: false,
            charged_notified: false,
            was_connected: false,
        }
    }

    /// Records whether the headset is connected now and returns the notice
    /// to show for a change, if notifications are `enabled`.
    pub fn check_connection(&mut self, currently_connected: bool, device_name: &str, enabled: bool) -> (r:
        Option<Notice>)
        ensures
            notice_view(r) == connection_notice(
                old(self)@.was_connected,
                currently_connected,
                device_name@,
                enabled,
            ),
            final(self)@ == after_connection(old(self)@, currently_connected),
    {
        let mut notice = None;
        if enabled {
            if currently_connected && !self.was_connected {
                notice = Some(make_notice("Headset Connected", String::from_str(device_name)));
            } else if !currently_connected && self.was_connected {
                notice = Some(make_notice("Headset Disconnected", String::from_str(device_name)));
            }
        }
        self.was_connected = currently_connected;
        notice
    }

    /// Records a battery reading and returns the low-battery or charged
    /// notice that is due, if any.
    pub fn check_battery(&mut self, current_level: i32, charging: bool, config: &Config) -> (r: Option<
        Notice,
    >)
        ensures
            notice_view(r) == battery_notice(old(self)@, current_level, charging, *config),
            final(self)@ == after_battery(old(self)@, current_level, charging, *config),
    {
        let mut notice: Option<Notice> = None;
        if let Some(discharge_threshold) = config.discharge_level {
            if !charging && current_level <= discharge_threshold as i32 {
                if !self.discharged_notified {
                    if config.notifications_enabled {
                        notice = Some(make_notice("Headset Battery Low", battery_body(current_level)));
                    }
                    self.discharged_notified = true;
                }
            } else if current_level > discharge_threshold as i32 {
                self.discharged_notified = false;
            }
        }
        if let Some(charge_threshold) = config.charge_level {
            if charging && current_level >= charge_threshold as i32 {
                if !self.charged_notified {
                    if config.notifications_enabled {
                        notice = Some(
                            make_notice("Headset Battery Charged", battery_body(current_level)),
                        );
                    }
                    self.charged_notified = true;
                }
            } else if current_level < charge_threshold as i32 {
                self.charged_notified = false;
            }
        }
        self.last_level = Some(current_level);
        notice
    }
}

/// Once a low-battery notice has been decided (or the level was already at or
/// below the threshold while discharging), no further low-battery notice is
/// due as long as the level stays at or below the threshold.
pub proof fn low_battery_notice_not_repeated(
    s: NotifierView,
    c: Config,
    first: i32,
    second: i32,
    charging: bool,
)
    requires
        c.discharge_level matches Some(t) && first <= t && second <= t,
    ensures
        !low_notice_due(
            after_battery(s, first, false, c).discharged_notified,
            second,
            charging,
            c.discharge_level,
            c.notifications_enabled,
        ),
{
}

/// A reading above the low-battery threshold re-arms the notice: the next
/// reading at or below it while discharging, with notifications enabled,
/// brings the low-battery notice.
pub proof fn low_battery_notice_rearmed(s: NotifierView, c: Config, above: i32, charging: bool, below: i32)
    requires
        c.discharge_level matches Some(t) && above > t && below <= t,
        c.notifications_enabled,
    ensures
        battery_notice(after_battery(s, above, charging, c), below, false, c) == Some(
            ("Headset Battery Low"@, level_body(below)),
        ),
{
}

/// Once the battery has been seen at or above the charge threshold while
/// charging, no further charged notice is due as long as the level stays at
/// or above the threshold.
pub proof fn charged_notice_not_repeated(s: NotifierView, c: Config, first: i32, second: i32, charging: bool)
    requires
        c.charge_level matches Some(t) && first >= t && second >= t,
    ensures
        !charged_notice_due(
            after_battery(s, first, true, c).charged_notified,
            second,
            charging,
            c.charge_level,
            c.notifications_enabled,
        ),
{
}

/// A reading below the charge threshold re-arms the charged notice: the
/// next reading at or above it while charging, with notifications enabled,
/// brings the charged notice.
pub proof fn charged_notice_rearmed(s: NotifierView, c: Config, below: i32, charging: bool, above: i32)
    requires
        c.charge_level matches Some(t) && below < t && above >= t,
        c.notifications_enabled,
    ensures
        battery_notice(after_battery(s, below, charging, c), above, true, c) == Some(
            ("Headset Battery Charged"@, level_body(above)),
        ),
{
}

/// With notifications disabled no battery notice is ever decided, while the
/// flags still follow the readings.
pub proof fn disabled_battery_notices_are_silent(s: NotifierView, c: Config, level: i32, charging: bool)
    requires
        !c.notifications_enabled,
    ensures
        battery_notice(s, level, charging, c) == None::<(Seq<char>, Seq<char>)>,
{
}

/// A connection notice comes exactly when the connected state changes (and
/// notifications are enabled); reporting the same state again brings none.
pub proof fn connection_notice_only_on_change(s: NotifierView, now: bool, device: Seq<char>, enabled: bool)
    ensures
        (connection_notice(s.was_connected, now, device, enabled) is Some) <==> (enabled
            && s.was_connected != now),
        connection_notice(after_connection(s, now).was_connected, now, device, enabled) == None::<
            (Seq<char>, Seq<char>),
        >,
{
}

/// A poll the notification manager is told of: a connection state
/// (`check_connection`) or a battery reading (`check_battery`).
pub enum NotifierInput {
    Connection { connected: bool },
    Battery { level: i32, charging: bool },
}

/// The state after one input, with the settings `c`.
pub open spec fn after_input(s: NotifierView, input: NotifierInput, c: Config) -> NotifierView {
    match input {
        NotifierInput::Connection { connected } => after_connection(s, connected),
        NotifierInput::Battery { level, charging } => after_battery(s, level, charging, c),
    }
}

/// The state after a run of inputs, in order, all with the settings `c`.
pub open spec fn after_inputs(s: NotifierView, inputs: Seq<NotifierInput>, c: Config) -> NotifierView
    decreases inputs.len(),
{
    if inputs.len() == 0 {
        s
    } else {
        after_input(after_inputs(s, inputs.drop_last(), c), inputs.last(), c)
    }
}

/// Every battery reading of the run is at or below `t`.
pub open spec fn readings_at_or_below(inputs: Seq<NotifierInput>, t: int) -> bool {
    forall|i: int|
        0 <= i < inputs.len() ==> (#[trigger] inputs[i] matches NotifierInput::Battery { level, .. }
            ==> level <= t)
}

/// Every battery reading of the run is at or above `t`.
pub open spec fn readings_at_or_above(inputs: Seq<NotifierInput>, t: int) -> bool {
    forall|i: int|
        0 <= i < inputs.len() ==> (#[trigger] inputs[i] matches NotifierInput::Battery { level, .. }
            ==> level >= t)
}

proof fn low_flag_kept(s: NotifierView, inputs: Seq<NotifierInput>, c: Config)
    requires
        s.discharged_notified,
        c.discharge_level matches Some(t) && readings_at_or_below(inputs, t as int),
    ensures
        after_inputs(s, inputs, c).discharged_notified,
    decreases inputs.len(),
{
    if inputs.len() > 0 {
        let t = c.discharge_level.unwrap();
        assert forall|i: int| 0 <= i < inputs.drop_last().len() implies (
        #[trigger] inputs.drop_last()[i] matches NotifierInput::Battery { level, .. } ==> level
            <= t) by {
            assert(inputs.drop_last()[i] == inputs[i]);
        }
        low_flag_kept(s, inputs.drop_last(), c);
        assert(inputs[inputs.len() - 1] == inputs.last());
    }
}

proof fn charged_flag_kept(s: NotifierView, inputs: Seq<NotifierInput>, c: Config)
    requires
        s.charged_notified,
        c.charge_level matches Some(t) && readings_at_or_above(inputs, t as int),
    ensures
        after_inputs(s, inputs, c).charged_notified,
    decreases inputs.len(),
{
    if inputs.len() > 0 {
        let t = c.charge_level.unwrap();
        assert forall|i: int| 0 <= i < inputs.drop_last().len() implies (
        #[trigger] inputs.drop_last()[i] matches NotifierInput::Battery { level, .. } ==> level
            >= t) by {
            assert(inputs.drop_last()[i] == inputs[i]);
        }
        charged_flag_kept(s, inputs.drop_last(), c);
        assert(inputs[inputs.len() - 1] == inputs.last());
    }
}

/// The low-battery notice fires at most once per drop to or below the
/// threshold: after a discharging reading at or below it, no low-battery
/// notice is due for any later reading, as long as every battery reading in
/// between stayed at or below the threshold (charging or not, with any
/// connection polls in between and the same settings throughout).
pub proof fn low_battery_notice_once_per_drop(
    s: NotifierView,
    c: Config,
    first: i32,
    between: Seq<NotifierInput>,
    level: i32,
    charging: bool,
)
    requires
        c.discharge_level matches Some(t) && first <= t && level <= t && readings_at_or_below(
            between,
            t as int,
        ),
    ensures
        !low_notice_due(
            after_inputs(after_battery(s, first, false, c), between, c).discharged_notified,
            level,
            charging,
            c.discharge_level,
            c.notifications_enabled,
        ),
{
    low_flag_kept(after_battery(s, first, false, c), between, c);
}

/// The charged notice fires at most once per rise to or above the
/// threshold: after a charging reading at or above it, no charged notice is
/// due for any later reading, as long as every battery reading in between
/// stayed at or above the threshold (charging or not, with any connection
/// polls in between and the same settings throughout).
pub proof fn charged_notice_once_per_rise(
    s: NotifierView,
    c: Config,
    first: i32,
    between: Seq<NotifierInput>,
    level: i32,
    charging: bool,
)
    requires
        c.charge_level matches Some(t) && first >= t && level >= t && readings_at_or_above(
            between,
            t as int,
        ),
    ensures
        !charged_notice_due(
            after_inputs(after_battery(s, first, true, c), between, c).charged_notified,
            level,
            charging,
            c.charge_level,
            c.notifications_enabled,
        ),
{
    charged_flag_kept(after_battery(s, first, true, c), between, c);
}

/// What a battery reading can bring, said directly over the settings: a
/// discharging reading can only bring the low-battery notice, and only at or
/// below the low threshold, with notifications enabled, when it was not yet
/// told; a charging reading can only bring the charged notice, under the
/// mirror conditions. When those conditions hold the notice does come, and
/// its body is `Battery level is at <level>%`.
pub proof fn battery_notice_follows_the_charging_state(s: NotifierView, level: i32, charging: bool, c: Config)
    ensures
        !charging ==> (battery_notice(s, level, charging, c) matches Some(n) ==> {
            &&& n.0 == "Headset Battery Low"@
            &&& c.discharge_level is Some
            &&& level <= c.discharge_level.unwrap()
            &&& c.notifications_enabled
            &&& !s.discharged_notified
        }),
        charging ==> (battery_notice(s, level, charging, c) matches Some(n) ==> {
            &&& n.0 == "Headset Battery Charged"@
            &&& c.charge_level is Some
            &&& level >= c.charge_level.unwrap()
            &&& c.notifications_enabled
            &&& !s.charged_notified
        }),
        (!charging && c.discharge_level is Some && level <= c.discharge_level.unwrap()
            && c.notifications_enabled && !s.discharged_notified) ==> battery_notice(
            s,
            level,
            charging,
            c,
        ) == Some(("Headset Battery Low"@, "Battery level is at "@ + int_text(level as int) + "%"@)),
        (charging && c.charge_level is Some && level >= c.charge_level.unwrap() && c.notifications_enabled
            && !s.charged_notified) ==> battery_notice(s, level, charging, c) == Some(
            ("Headset Battery Charged"@, "Battery level is at "@ + int_text(level as int) + "%"@),
        ),
{
}

/// Only a charging reading sets the charged flag, and only a discharging
/// reading sets the low-battery flag; a reading on the other side of a
/// threshold clears its flag.
pub proof fn flags_are_set_only_by_their_own_direction(s: NotifierView, level: i32, charging: bool, c: Config)
    ensures
        after_battery(s, level, charging, c).charged_notified && !s.charged_notified ==> charging
            && c.charge_level is Some && level >= c.charge_level.unwrap(),
        after_battery(s, level, charging, c).discharged_notified && !s.discharged_notified ==> !charging
            && c.discharge_level is Some && level <= c.discharge_level.unwrap(),
        c.charge_level is Some && level < c.charge_level.unwrap() ==> !after_battery(
            s,
            level,
            charging,
            c,
        ).charged_notified,
        c.discharge_level is Some && level > c.discharge_level.unwrap() ==> !after_battery(
            s,
            level,
            charging,
            c,
        ).discharged_notified,
{
}

} // verus!
