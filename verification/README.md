# adc-lab-core

Evidence-bound operating contracts for small Linux targets: typed
artifacts, rule evaluation over them, approval-bound and restorable
privileged control, pressure and workload probes, suitability decisions
and the agent constraints generated from them.

## Layout

- `src/` is the library, verified with Verus. Every function states what
  it returns in its contract; the laws that span functions are public
  proof functions (`law_*`). Calls into outside crates (`sha2`,
  `serde_json`, `humantime`) stand behind a few trusted items whose doc
  comments say what is claimed of them.
- `app/` holds the file-system edges: the sysfs cpufreq backend, reading
  run directories and artifact texts, and handing them to the library.
- `tests/` runs the library on concrete values.

Readings of `/proc`, `/sys`, files and clocks are taken by the caller
and handed to the library as plain values; temperatures are thousandths
of a degree Celsius.
