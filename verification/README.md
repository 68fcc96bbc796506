# pc_doctor

The verified core of a small Windows health checker. The application scans
the PC for common problems (temporary files, low disk space, stopped
services, stale caches, failing drives, …) by running short PowerShell
scripts, and offers a one-click fix for each.

`src/` is the library, checked by Verus:

- `text`, `number`, `size` — trimming, case folding, splitting, substring
  search, whole numbers, and sizes read as `f64::from_str` reads them
  (exponents, infinity and `NaN` included), compared with limits and
  written to one decimal place as the nearest `f64` would be, in exact
  whole-number arithmetic, each with an exact specification;
- `catalog` — the checks, their ids, names and descriptions;
- `scripts` — the PowerShell scripts that the scans and fixes run;
- `powershell` — run requests, time limits, and the reading of how a run
  ended;
- `scan`, `fix` — one state machine each: given a check id it asks for a
  script run, then reads the run's output into the result shown to the user;
  every scan first hands off a background request that asks Windows Update
  to look for updates, which nothing waits for;
- `registry` — the process ids of runs under way, so they can be stopped;
- `history` — the lines of the run history.

`app/` is the Tauri shell: commands, processes, the history file.
`tests/` exercises the library on concrete values.
