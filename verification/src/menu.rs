//! The tray's menu as data: which entries it offers, which are checked, and
//! what choosing each of them does to the settings.

use vstd::prelude::*;

use crate::config::{opt_text, Config};
use crate::headset_cli::HeadsetControlOutput;
use crate::text::{nat_text, nat_to_text};
use crate::tray::{info_lines, info_lines_spec, texts_view};

verus! {

/// What choosing a menu entry asks for.
#[derive(Clone, Copy, Debug, PartialEq, Eq, Structural)]
pub enum MenuAction {
    ToggleNotifications,
    ToggleReapplyOnStartup,
    SetSidetone(u8),
    SetInactiveTime(u8),
    SetDischargeLevel(Option<u8>),
    SetChargeLevel(Option<u8>),
    ToggleAutostart,
    Quit,
}

/// What the caller must do after a menu entry was chosen.
#[derive(Clone, Copy, Debug, PartialEq, Eq, Structural)]
pub enum MenuEffect {
    /// Store the changed settings.
    SaveConfig,
    /// Store the changed settings and send the sidetone level to the headset.
    SaveConfigAndApplySidetone(u8),
    /// Store the changed settings and send the inactive time to the headset.
    SaveConfigAndApplyInactiveTime(u8),
    /// Install the autostart entry if it is absent, remove it otherwise.
    ToggleAutostart,
    /// Shut the tray down.
    Quit,
}

/// A checkable entry of a submenu.
pub struct Choice {
    pub label: String,
    pub checked: bool,
    pub action: MenuAction,
}

/// The whole menu: the information lines, the two switches, the four
/// submenus of choices and the autostart switch. The fixed entries
/// (separators, submenu titles, the switches' labels, Quit) are laid out by
/// the caller.
pub struct MenuModel {
    pub info: Vec<String>,
    pub notifications_checked: bool,
    pub reapply_checked: bool,
    pub sidetone: Vec<Choice>,
    pub inactive_time: Vec<Choice>,
    pub discharge: Vec<Choice>,
    pub charge: Vec<Choice>,
    pub autostart_checked: bool,
}

/// The view of a choice: label, checked state and action.
pub open spec fn choice_view(c: Choice) -> (Seq<char>, bool, MenuAction) {
    (c.label@, c.checked, c.action)
}

/// The view of a list of choices.
pub open spec fn choices_view(v: Seq<Choice>) -> Seq<(Seq<char>, bool, MenuAction)> {
    v.map_values(|c: Choice| choice_view(c))
}

/// The sidetone levels offered.
pub open spec fn sidetone_levels() -> Seq<u8> {
    seq![0u8, 14, 28, 42, 57, 71, 85, 99, 113, 128]
}

/// The inactive times offered, in minutes (0 disables the timeout).
pub open spec fn inactive_minutes() -> Seq<u8> {
    seq![0u8, 1, 2, 3, 5, 10, 15, 20, 30, 45, 60, 90]
}

/// A sidetone level counts as active when the stored level is within 4 of it.
pub open spec fn sidetone_active(stored: u8, level: u8) -> bool {
    -5 < stored - level < 5
}

/// The sidetone entry for `level`.
pub open spec fn sidetone_choice(c: Config, level: u8) -> (Seq<char>, bool, MenuAction) {
    ("Level "@ + nat_text(level as nat), sidetone_active(c.sidetone_level, level), MenuAction::SetSidetone(level))
}

/// The sidetone submenu.
pub open spec fn sidetone_choices(c: Config) -> Seq<(Seq<char>, bool, MenuAction)> {
    sidetone_levels().map_values(|l: u8| sidetone_choice(c, l))
}

/// The label of an inactive time: `Disabled` for 0, otherwise `<m> min`.
pub open spec fn inactive_label(m: u8) -> Seq<char> {
    if m == 0 {
        "Disabled"@
    } else {
        nat_text(m as nat) + " min"@
    }
}

/// The inactive-time entry for `m` minutes.
pub open spec fn inactive_choice(c: Config, m: u8) -> (Seq<char>, bool, MenuAction) {
    (inactive_label(m), c.inactive_time == m, MenuAction::SetInactiveTime(m))
}

/// The inactive-time submenu.
pub open spec fn inactive_choices(c: Config) -> Seq<(Seq<char>, bool, MenuAction)> {
    inactive_minutes().map_values(|m: u8| inactive_choice(c, m))
}

/// The action that stores a notification threshold.
pub open spec fn threshold_action(charge: bool, level: Option<u8>) -> MenuAction {
    if charge {
        MenuAction::SetChargeLevel(level)
    } else {
        MenuAction::SetDischargeLevel(level)
    }
}

/// A threshold submenu: `10%`, `20%`, ... up to `count * 10`%, then
/// `Disable`; an entry is checked when it is the stored threshold.
pub open spec fn threshold_choices(current: Option<u8>, count: nat, charge: bool) -> Seq<
    (Seq<char>, bool, MenuAction),
> {
    Seq::new(
        count,
        |i: int|
            {
                let level = (10 * (i + 1)) as u8;
                (
                    nat_text(level as nat) + "%"@,
                    current == Some(level),
                    threshold_action(charge, Some(level)),
                )
            },
    ).push(("Disable"@, current is None, threshold_action(charge, None)))
}

/// The low-battery threshold submenu: 10% to 90%, or disabled.
pub open spec fn discharge_choices(c: Config) -> Seq<(Seq<char>, bool, MenuAction)> {
    threshold_choices(c.discharge_level, 9, false)
}

/// The charged threshold submenu: 10% to 100%, or disabled.
pub open spec fn charge_choices(c: Config) -> Seq<(Seq<char>, bool, MenuAction)> {
    threshold_choices(c.charge_level, 10, true)
}

fn sidetone_level_list() -> (v: Vec<u8>)
    ensures
        v@ == sidetone_levels(),
{
    let mut v: Vec<u8> = Vec::new();
    v.push(0);
    v.push(14);
    v.push(28);
    v.push(42);
    v.push(57);
    v.push(71);
    v.push(85);
    v.push(99);
    v.push(113);
    v.push(128);
    assert(v@ =~= sidetone_levels());
    v
}

fn inactive_minute_list() -> (v: Vec<u8>)
    ensures
        v@ == inactive_minutes(),
{
    let mut v: Vec<u8> = Vec::new();
    v.push(0);
    v.push(1);
    v.push(2);
    v.push(3);
    v.push(5);
    v.push(10);
    v.push(15);
    v.push(20);
    v.push(30);
    v.push(45);
    v.push(60);
    v.push(90);
    assert(v@ =~= inactive_minutes());
    v
}

/// The sidetone submenu for the given settings.
pub fn sidetone_menu(config: &Config) -> (r: Vec<Choice>)
    ensures
        choices_view(r@) == sidetone_choices(*config),
{
    let levels = sidetone_level_list();
    let mut r: Vec<Choice> = Vec::new();
    let n = levels.len();
    for i in 0..n
        invariant
            n == levels@.len(),
            levels@ == sidetone_levels(),
            r@.len() == i,
            choices_view(r@) == sidetone_choices(*config).take(i as int),
    {
        let level = levels[i];
        let label = String::from_str("Level ").concat(nat_to_text(level as u64).as_str());
        let diff: i32 = config.sidetone_level as i32 - level as i32;
        let checked = -5 < diff && diff < 5;
        let ghost before = r@;
        r.push(Choice { label, checked, action: MenuAction::SetSidetone(level) });
        proof {
            let want = sidetone_choices(*config);
            assert(want[i as int] == sidetone_choice(*config, level));
            assert(choices_view(r@)[i as int] == want[i as int]);
            assert forall|j: int| 0 <= j < i implies choices_view(r@)[j] == want[j] by {
                assert(r@[j] == before[j]);
                assert(choices_view(before)[j] == want.take(i as int)[j]);
            }
            assert(choices_view(r@) =~= want.take(i + 1));
        }
    }
    assert(sidetone_choices(*config).take(n as int) =~= sidetone_choices(*config));
    r
}

/// The inactive-time submenu for the given settings.
pub fn inactive_time_menu(config: &Config) -> (r: Vec<Choice>)
    ensures
        choices_view(r@) == inactive_choices(*config),
{
    let minutes = inactive_minute_list();
    let mut r: Vec<Choice> = Vec::new();
    let n = minutes.len();
    for i in 0..n
        invariant
            n == minutes@.len(),
            minutes@ == inactive_minutes(),
            r@.len() == i,
            choices_view(r@) == inactive_choices(*config).take(i as int),
    {
        let m = minutes[i];
        let label = if m == 0 {
            String::from_str("Disabled")
        } else {
            nat_to_text(m as u64).concat(" min")
        };
        let ghost before = r@;
        r.push(Choice { label, checked: config.inactive_time == m, action: MenuAction::SetInactiveTime(m) });
        proof {
            let want = inactive_choices(*config);
            assert(want[i as int] == inactive_choice(*config, m));
            assert(choices_view(r@)[i as int] == want[i as int]);
            assert forall|j: int| 0 <= j < i implies choices_view(r@)[j] == want[j] by {
                assert(r@[j] == before[j]);
                assert(choices_view(before)[j] == want.take(i as int)[j]);
            }
            assert(choices_view(r@) =~= want.take(i + 1));
        }
    }
    assert(inactive_choices(*config).take(n as int) =~= inactive_choices(*config));
    r
}

fn make_threshold_action(charge: bool, level: Option<u8>) -> (a: MenuAction)
    ensures
        a == threshold_action(charge, level),
{
    if charge {
        MenuAction::SetChargeLevel(level)
    } else {
        MenuAction::SetDischargeLevel(level)
    }
}

fn threshold_menu(current: Option<u8>, count: u8, charge: bool) -> (r: Vec<Choice>)
    requires
        count <= 25,
    ensures
        choices_view(r@) == threshold_choices(current, count as nat, charge),
{
    let ghost full = threshold_choices(current, count as nat, charge);
    let mut r: Vec<Choice> = Vec::new();
    let mut i: u8 = 0;
    while i < count
        invariant
            i <= count <= 25,
            full == threshold_choices(current, count as nat, charge),
            r@.len() == i,
            full.len() == count + 1,
            choices_view(r@) == full.take(i as int),
        decreases count - i,
    {
        let level: u8 = 10 * (i + 1);
        let label = nat_to_text(level as u64).concat("%");
        let checked = match current {
            Some(c) => c == level,
            None => false,
        };
        let ghost before = r@;
        r.push(Choice { label, checked, action: make_threshold_action(charge, Some(level)) });
        proof {
            assert(choices_view(r@)[i as int] == full[i as int]);
            assert forall|j: int| 0 <= j < i implies choices_view(r@)[j] == full[j] by {
                assert(r@[j] == before[j]);
                assert(choices_view(before)[j] == full.take(i as int)[j]);
            }
            assert(choices_view(r@) =~= full.take(i + 1));
        }
        i = i + 1;
    }
    let ghost before = r@;
    r.push(
        Choice {
            label: String::from_str("Disable"),
            checked: current.is_none(),
            action: make_threshold_action(charge, None),
        },
    );
    proof {
        assert(choices_view(r@)[count as int] == full[count as int]);
        assert forall|j: int| 0 <= j < count implies choices_view(r@)[j] == full[j] by {
            assert(r@[j] == before[j]);
            assert(choices_view(before)[j] == full.take(count as int)[j]);
        }
        assert(choices_view(r@) =~= full);
    }
    r
}

/// The low-battery threshold submenu for the given settings.
pub fn discharge_menu(config: &Config) -> (r: Vec<Choice>)
    ensures
        choices_view(r@) == discharge_choices(*config),
{
    threshold_menu(config.discharge_level, 9, false)
}

/// The charged threshold submenu for the given settings.
pub fn charge_menu(config: &Config) -> (r: Vec<Choice>)
    ensures
        choices_view(r@) == charge_choices(*config),
{
    threshold_menu(config.charge_level, 10, true)
}

/// The menu for the given settings, last report, estimated remaining time
/// (already written out in hours) and autostart state.
pub fn menu_model(
    config: &Config,
    status: &Option<HeadsetControlOutput>,
    hours: Option<&str>,
    autostart_enabled: bool,
) -> (r: MenuModel)
    ensures
        texts_view(r.info@) == info_lines_spec(*status, opt_text(hours)),
        r.notifications_checked == config.notifications_enabled,
        r.reapply_checked == config.reapply_on_startup,
        choices_view(r.sidetone@) == sidetone_choices(*config),
        choices_view(r.inactive_time@) == inactive_choices(*config),
        choices_view(r.discharge@) == discharge_choices(*config),
        choices_view(r.charge@) == charge_choices(*config),
        r.autostart_checked == autostart_enabled,
{
    MenuModel {
        info: info_lines(status, hours),
        notifications_checked: config.notifications_enabled,
        reapply_checked: config.reapply_on_startup,
        sidetone: sidetone_menu(config),
        inactive_time: inactive_time_menu(config),
        discharge: discharge_menu(config),
        charge: charge_menu(config),
        autostart_checked: autostart_enabled,
    }
}

/// A submenu of choices with its title.
pub struct ChoiceMenu {
    pub label: String,
    pub choices: Vec<Choice>,
}

/// An entry of the tray's menu, in the order shown.
pub enum MenuEntry {
    /// A disabled line of information.
    Info(String),
    Separator,
    /// A checkable entry of the top level.
    Switch(Choice),
    /// A submenu of checkable choices.
    Choices(ChoiceMenu),
    /// A submenu of submenus of checkable choices.
    Group { label: String, submenus: Vec<ChoiceMenu> },
    /// A plain entry.
    Button { label: String, action: MenuAction },
}

/// The view of a menu entry.
pub enum EntryView {
    Info(Seq<char>),
    Separator,
    Switch((Seq<char>, bool, MenuAction)),
    Choices(Seq<char>, Seq<(Seq<char>, bool, MenuAction)>),
    Group(Seq<char>, Seq<(Seq<char>, Seq<(Seq<char>, bool, MenuAction)>)>),
    Button(Seq<char>, MenuAction),
}

/// The view of a submenu of choices: its title and its choices.
pub open spec fn choice_menu_view(m: ChoiceMenu) -> (Seq<char>, Seq<(Seq<char>, bool, MenuAction)>) {
    (m.label@, choices_view(m.choices@))
}

/// The view of a menu entry.
pub open spec fn entry_view(e: MenuEntry) -> EntryView {
    match e {
        MenuEntry::Info(l) => EntryView::Info(l@),
        MenuEntry::Separator => EntryView::Separator,
        MenuEntry::Switch(c) => EntryView::Switch(choice_view(c)),
        MenuEntry::Choices(m) => EntryView::Choices(m.label@, choices_view(m.choices@)),
        MenuEntry::Group { label, submenus } => EntryView::Group(
            label@,
            submenus@.map_values(|m: ChoiceMenu| choice_menu_view(m)),
        ),
        MenuEntry::Button { label, action } => EntryView::Button(label@, action),
    }
}

/// The view of a list of menu entries.
pub open spec fn entries_view(v: Seq<MenuEntry>) -> Seq<EntryView> {
    v.map_values(|e: MenuEntry| entry_view(e))
}

/// The whole menu: the information lines; a separator; the notification
/// and reapply switches; a separator; the sidetone, inactive-time and
/// battery-notification submenus (the last holding the discharge and charge
/// thresholds); a separator; the autostart switch; a separator; Quit.
pub open spec fn menu_layout_spec(
    c: Config,
    status: Option<HeadsetControlOutput>,
    hours: Option<Seq<char>>,
    autostart_enabled: bool,
) -> Seq<EntryView> {
    info_lines_spec(status, hours).map_values(|l: Seq<char>| EntryView::Info(l)) + seq![
        EntryView::Separator,
        EntryView::Switch(("Show Notifications"@, c.notifications_enabled, MenuAction::ToggleNotifications)),
        EntryView::Switch(
            ("Reapply settings on startup"@, c.reapply_on_startup, MenuAction::ToggleReapplyOnStartup),
        ),
        EntryView::Separator,
        EntryView::Choices("Sidetone Level"@, sidetone_choices(c)),
        EntryView::Choices("Inactive Time"@, inactive_choices(c)),
        EntryView::Group(
            "Battery Notifications"@,
            seq![("Discharge Level"@, discharge_choices(c)), ("Charge Level"@, charge_choices(c))],
        ),
        EntryView::Separator,
        EntryView::Switch(("Start on Login"@, autostart_enabled, MenuAction::ToggleAutostart)),
        EntryView::Separator,
        EntryView::Button("Quit"@, MenuAction::Quit),
    ]
}

/// The tray's menu, entry by entry, for the given settings, last report,
/// estimated remaining time (already written out in hours) and autostart
/// state.
pub fn menu_layout(
    config: &Config,
    status: &Option<HeadsetControlOutput>,
    hours: Option<&str>,
    autostart_enabled: bool,
) -> (r: Vec<MenuEntry>)
    ensures
        entries_view(r@) == menu_layout_spec(*config, *status, opt_text(hours), autostart_enabled),
{
    let model = menu_model(config, status, hours, autostart_enabled);
    let ghost info = texts_view(model.info@);
    let mut r: Vec<MenuEntry> = Vec::new();
    let n = model.info.len();
    for i in 0..n
        invariant
            n == model.info@.len(),
            info == texts_view(model.info@),
            r@.len() == i,
            entries_view(r@) == info.take(i as int).map_values(|l: Seq<char>| EntryView::Info(l)),
    {
        let ghost before = r@;
        r.push(MenuEntry::Info(model.info[i].clone()));
        proof {
            let want = info.take(i + 1).map_values(|l: Seq<char>| EntryView::Info(l));
            assert forall|j: int| 0 <= j < i + 1 implies entries_view(r@)[j] == want[j] by {
                if j < i {
                    assert(r@[j] == before[j]);
                    assert(entries_view(before)[j] == info.take(i as int).map_values(
                        |l: Seq<char>| EntryView::Info(l),
                    )[j]);
                }
            }
            assert(entries_view(r@) =~= want);
        }
    }
    assert(info.take(n as int) =~= info);
    let ghost head = entries_view(r@);
    r.push(MenuEntry::Separator);
    r.push(
        MenuEntry::Switch(
            Choice {
                label: String::from_str("Show Notifications"),
                checked: model.notifications_checked,
                action: MenuAction::ToggleNotifications,
            },
        ),
    );
    r.push(
        MenuEntry::Switch(
            Choice {
                label: String::from_str("Reapply settings on startup"),
                checked: model.reapply_checked,
                action: MenuAction::ToggleReapplyOnStartup,
            },
        ),
    );
    r.push(MenuEntry::Separator);
    r.push(
        MenuEntry::Choices(
            ChoiceMenu { label: String::from_str("Sidetone Level"), choices: model.sidetone },
        ),
    );
    r.push(
        MenuEntry::Choices(
            ChoiceMenu { label: String::from_str("Inactive Time"), choices: model.inactive_time },
        ),
    );
    let mut submenus: Vec<ChoiceMenu> = Vec::new();
    submenus.push(ChoiceMenu { label: String::from_str("Discharge Level"), choices: model.discharge });
    submenus.push(ChoiceMenu { label: String::from_str("Charge Level"), choices: model.charge });
    proof {
        assert(submenus@.map_values(|m: ChoiceMenu| choice_menu_view(m)) =~= seq![
            ("Discharge Level"@, discharge_choices(*config)),
            ("Charge Level"@, charge_choices(*config)),
        ]);
    }
    r.push(MenuEntry::Group { label: String::from_str("Battery Notifications"), submenus });
    r.push(MenuEntry::Separator);
    r.push(
        MenuEntry::Switch(
            Choice {
                label: String::from_str("Start on Login"),
                checked: model.autostart_checked,
                action: MenuAction::ToggleAutostart,
            },
        ),
    );
    r.push(MenuEntry::Separator);
    r.push(MenuEntry::Button { label: String::from_str("Quit"), action: MenuAction::Quit });
    proof {
        let want = menu_layout_spec(*config, *status, opt_text(hours), autostart_enabled);
        assert(head.len() == n);
        assert forall|j: int| 0 <= j < r@.len() implies entries_view(r@)[j] == want[j] by {
            if j < n {
                assert(entries_view(r@)[j] == head[j]);
            }
        }
        assert(entries_view(r@) =~= want);
    }
    r
}

/// The settings after a menu entry was chosen.
pub open spec fn apply_action_spec(c: Config, a: MenuAction) -> Config {
    match a {
        MenuAction::ToggleNotifications => Config { notifications_enabled: !c.notifications_enabled, ..c },
        MenuAction::ToggleReapplyOnStartup => Config { reapply_on_startup: !c.reapply_on_startup, ..c },
        MenuAction::SetSidetone(l) => Config { sidetone_level: l, ..c },
        MenuAction::SetInactiveTime(m) => Config { inactive_time: m, ..c },
        MenuAction::SetDischargeLevel(l) => Config { discharge_level: l, ..c },
        MenuAction::SetChargeLevel(l) => Config { charge_level: l, ..c },
        MenuAction::ToggleAutostart => c,
        MenuAction::Quit => c,
    }
}

/// What the caller must do after a menu entry was chosen.
pub open spec fn action_effect(a: MenuAction) -> MenuEffect {
    match a {
        MenuAction::SetSidetone(l) => MenuEffect::SaveConfigAndApplySidetone(l),
        MenuAction::SetInactiveTime(m) => MenuEffect::SaveConfigAndApplyInactiveTime(m),
        MenuAction::ToggleAutostart => MenuEffect::ToggleAutostart,
        MenuAction::Quit => MenuEffect::Quit,
        _ => MenuEffect::SaveConfig,
    }
}

/// Applies a chosen menu entry to the settings and says what else to do.
pub fn apply_menu_action(config: &mut Config, action: MenuAction) -> (e: MenuEffect)
    ensures
        *final(config) == apply_action_spec(*old(config), action),
        e == action_effect(action),
{
    match action {
        MenuAction::ToggleNotifications => {
            config.notifications_enabled = !config.notifications_enabled;
            MenuEffect::SaveConfig
        },
        MenuAction::ToggleReapplyOnStartup => {
            config.reapply_on_startup = !config.reapply_on_startup;
            MenuEffect::SaveConfig
        },
        MenuAction::SetSidetone(l) => {
            config.sidetone_level = l;
            MenuEffect::SaveConfigAndApplySidetone(l)
        },
        MenuAction::SetInactiveTime(m) => {
            config.inactive_time = m;
            MenuEffect::SaveConfigAndApplyInactiveTime(m)
        },
        MenuAction::SetDischargeLevel(l) => {
            config.discharge_level = l;
            MenuEffect::SaveConfig
        },
        MenuAction::SetChargeLevel(l) => {
            config.charge_level = l;
            MenuEffect::SaveConfig
        },
        MenuAction::ToggleAutostart => MenuEffect::ToggleAutostart,
        MenuAction::Quit => MenuEffect::Quit,
    }
}

/// Choosing a sidetone entry makes that entry, and no other, the checked one.
pub proof fn chosen_sidetone_is_the_checked_one(c: Config, i: int)
    requires
        0 <= i < sidetone_choices(c).len(),
    ensures
        sidetone_choices(apply_action_spec(c, sidetone_choices(c)[i].2))[i].1,
        forall|j: int|
            0 <= j < sidetone_choices(c).len() && j != i ==> !#[trigger] sidetone_choices(
                apply_action_spec(c, sidetone_choices(c)[i].2),
            )[j].1,
{
    let levels = sidetone_levels();
    assert(levels.len() == 10);
    let c2 = apply_action_spec(c, sidetone_choices(c)[i].2);
    assert(c2.sidetone_level == levels[i]);
    assert forall|j: int| 0 <= j < 10 && j != i implies !#[trigger] sidetone_choices(c2)[j].1 by {
        assert(sidetone_choices(c2)[j] == sidetone_choice(c2, levels[j]));
    }
}

/// Whatever level is stored, at most one sidetone entry is checked: the
/// offered levels lie at least 14 apart.
pub proof fn at_most_one_sidetone_checked(c: Config, i: int, j: int)
    requires
        0 <= i < sidetone_choices(c).len(),
        0 <= j < sidetone_choices(c).len(),
        i != j,
    ensures
        !(sidetone_choices(c)[i].1 && sidetone_choices(c)[j].1),
{
    let levels = sidetone_levels();
    assert(sidetone_choices(c)[i] == sidetone_choice(c, levels[i]));
    assert(sidetone_choices(c)[j] == sidetone_choice(c, levels[j]));
}

/// Choosing an inactive-time entry makes that entry, and no other, the
/// checked one.
pub proof fn chosen_inactive_time_is_the_checked_one(c: Config, i: int)
    requires
        0 <= i < inactive_choices(c).len(),
    ensures
        inactive_choices(apply_action_spec(c, inactive_choices(c)[i].2))[i].1,
        forall|j: int|
            0 <= j < inactive_choices(c).len() && j != i ==> !#[trigger] inactive_choices(
                apply_action_spec(c, inactive_choices(c)[i].2),
            )[j].1,
{
    let minutes = inactive_minutes();
    assert(minutes.len() == 12);
    let c2 = apply_action_spec(c, inactive_choices(c)[i].2);
    assert(c2.inactive_time == minutes[i]);
    assert forall|j: int| 0 <= j < 12 && j != i implies !#[trigger] inactive_choices(c2)[j].1 by {
        assert(inactive_choices(c2)[j] == inactive_choice(c2, minutes[j]));
    }
}

/// Choosing a low-battery threshold entry makes that entry, and no other,
/// the checked one.
pub proof fn chosen_discharge_level_is_the_checked_one(c: Config, i: int)
    requires
        0 <= i < discharge_choices(c).len(),
    ensures
        discharge_choices(apply_action_spec(c, discharge_choices(c)[i].2))[i].1,
        forall|j: int|
            0 <= j < discharge_choices(c).len() && j != i ==> !#[trigger] discharge_choices(
                apply_action_spec(c, discharge_choices(c)[i].2),
            )[j].1,
{
    let c2 = apply_action_spec(c, discharge_choices(c)[i].2);
    assert(discharge_choices(c).len() == 10);
    assert forall|j: int| 0 <= j < 10 && j != i implies !#[trigger] discharge_choices(c2)[j].1 by {
    }
}

/// Choosing a charged threshold entry makes that entry, and no other, the
/// checked one.
pub proof fn chosen_charge_level_is_the_checked_one(c: Config, i: int)
    requires
        0 <= i < charge_choices(c).len(),
    ensures
        charge_choices(apply_action_spec(c, charge_choices(c)[i].2))[i].1,
        forall|j: int|
            0 <= j < charge_choices(c).len() && j != i ==> !#[trigger] charge_choices(
                apply_action_spec(c, charge_choices(c)[i].2),
            )[j].1,
{
    let c2 = apply_action_spec(c, charge_choices(c)[i].2);
    assert(charge_choices(c).len() == 11);
    assert forall|j: int| 0 <= j < 11 && j != i implies !#[trigger] charge_choices(c2)[j].1 by {
    }
}

/// Choosing a switch twice restores the settings.
pub proof fn switches_undo_themselves(c: Config)
    ensures
        apply_action_spec(apply_action_spec(c, MenuAction::ToggleNotifications), MenuAction::ToggleNotifications) == c,
        apply_action_spec(apply_action_spec(c, MenuAction::ToggleReapplyOnStartup), MenuAction::ToggleReapplyOnStartup) == c,
{
}

/// Every entry that changes the settings asks for them to be stored, and
/// the entries that do not store the settings leave them as they were.
pub proof fn changed_settings_are_saved(c: Config, a: MenuAction)
    ensures
        apply_action_spec(c, a) != c ==> (action_effect(a) matches MenuEffect::SaveConfig
            || action_effect(a) matches MenuEffect::SaveConfigAndApplySidetone(_)
            || action_effect(a) matches MenuEffect::SaveConfigAndApplyInactiveTime(_)),
        (action_effect(a) matches MenuEffect::ToggleAutostart || action_effect(a) matches MenuEffect::Quit)
            ==> apply_action_spec(c, a) == c,
{
}

/// The threshold submenus offer exactly the documented values: 10% to 90%
/// in steps of ten (or disabled) for the low-battery notice, 10% to 100%
/// (or disabled) for the charged notice.
pub proof fn thresholds_offered_are_the_documented_ones(c: Config, i: int)
    ensures
        0 <= i < 9 ==> discharge_choices(c)[i].2 == MenuAction::SetDischargeLevel(Some((10 * (i + 1)) as u8)),
        discharge_choices(c).len() == 10,
        discharge_choices(c)[9].2 == MenuAction::SetDischargeLevel(None),
        0 <= i < 10 ==> charge_choices(c)[i].2 == MenuAction::SetChargeLevel(Some((10 * (i + 1)) as u8)),
        charge_choices(c).len() == 11,
        charge_choices(c)[10].2 == MenuAction::SetChargeLevel(None),
{
}

} // verus!
