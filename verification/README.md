# headsetcontrol-tray

A system-tray companion for the `headsetcontrol` command-line tool: it polls
the headset every few seconds, shows its battery in the tray's icon, tool tip
and menu, notifies on connection changes and battery thresholds, and lets the
user set the sidetone level, the inactive time, the notification thresholds
and autostart on login.

- `src/` is the verified library (Verus): the notification decisions
  (`notifications`), the battery-rate tracker (`battery_rate`), the poll and
  watchdog decisions (`monitor`), the tray's texts (`tray`) and menu model
  (`menu`), the settings and their location (`config`, `autostart`), and the
  command-line protocol (`headset_cli`). Each public function states its
  result over spec functions; the laws of the library are proof functions
  beside the functions they speak of.
- `app/` is the program around it: the tray itself (ksni), desktop
  notifications (notify-rust), running the tool (tokio), the settings file and
  the autostart entry (serde_json and the file system), and the
  floating-point averaging of the measured battery rates.
- `tests/` runs the library on concrete values.
