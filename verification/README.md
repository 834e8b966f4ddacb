# track_your_day

An activity and system monitor ("track your day"): background watchers record
typing speed, the foreground program, the process count and CPU, memory and disk
figures into an in-memory log, and a terminal dashboard shows the latest readings
and short histories.

- `src/` — the verified library (Verus):
  - `activity` — the event records;
  - `store` — the in-memory log (`save`, `recent`) and its laws;
  - `query` — latest reading of each kind in a stretch of the log, and read-after-write laws;
  - `smbios` — scan of the raw SMBIOS table for populated memory slots, form factor and speed;
  - `cpu` — CPU time counters, processor topology, `FILETIME` joining, uptime text;
  - `disk` — disk kind, capacities in MiB, disk-performance counter deltas;
  - `keyboard` — the shared keystroke counter;
  - `watcher` — the order of readings in a tick, readings to events, reactions to deliveries;
  - `dashboard` — chart histories, the window list and key handling.
- `app/` — the program around it: OS readings (Windows API, keyboard hook,
  `sysinfo`, foreground window), the async store and watcher tasks, the typing
  speed, and the terminal UI. Floating-point figures are computed there.
- `tests/` — tests of the library on concrete values.
