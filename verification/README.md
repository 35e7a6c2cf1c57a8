# vigil

The decision logic of Vigil, a terminal system monitor, as a library verified
with Verus, and the program around it.

- `src/` — the verified library:
  - `controls.rs`: the views, the key presses and the state they drive
    (view shown, selected setting, quit), with the adjustment a key asks for;
  - `settings.rs`: the list of adjustable settings and the steps of the
    integer ones (refresh interval, alert cooldown);
  - `history.rs`: the bounded metric histories (last 200 samples);
  - `alert.rs`: timestamps, the per-type alert cooldown and the alert log
    (every alert of the session);
  - `suggestions.rs`: the CPU severity advice and the suggestion categories;
  - `metrics.rs`: the network traffic total;
  - `display.rs`: the usage bar of a core;
  - `input.rs`: the decisions of the input loop (how long to wait, whether
    to pass a key on, send a tick or stop, when to restart it).
- `app/` — the program: reading the machine (sysinfo), the configuration
  (toml, clap), the terminal (crossterm, ratatui), and every computation on
  floating-point metrics and thresholds.
- `tests/` — tests of the library on concrete values.
