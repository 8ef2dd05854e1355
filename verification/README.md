# good_scanner

The verified core of a scanner that reads a Genshin Impact account
(characters, weapons, artifacts) into the GOOD export format, and of the
local HTTP server through which a web page asks it to lock, unlock or equip
artifacts, or to scan.

Everything under `src/` is proved with Verus: each public function states
what it returns in its `ensures`, over spec functions on sequences and
integers, and the public proof functions state the laws that hold across
functions (what a job submission does to the server's state, which rows
of the inventory grid are kept, and so on).

## Layout

- `src/text.rs`, `numparse.rs`, `json.rs`: characters, numbers, JSON text.
- `src/levels.rs`, `level_text.rs`, `talents.rs`, `names.rs`, `fuzzy.rs`,
  `equip_parser.rs`, `artifact_text.rs`: reading OCR text into levels,
  talents, names, owners and artifact sets, and the decisions taken while
  one artifact is read (rarity and slot, main stat, substat lines).
- `src/matching.rs`, `orchestrator.rs`: matching requested artifacts to
  scanned ones, and the results of lock and equip jobs.
- `src/char_scan.rs`, `artifact_scan.rs`, `grid.rs`, `scan_runner.rs`: the
  decisions of the character and artifact scans; the screen work itself
  (input, capture, OCR) happens outside the library.
- `src/http.rs`, `server.rs`, `job_status.rs`, `models.rs`: routing, origin
  checks, job admission, progress and result caches of the server.
- `src/capture.rs`, `capture_phase.rs`, `capture_export.rs`: packet capture
  state, the capture tab's phases and export file names.
- `src/dump.rs`: the debug records of a scanned item, the directory its
  files go to, and its result file.
- `src/config.rs`, `mappings.rs`, `clock.rs`, `lang.rs`, `gui_state.rs`:
  configuration, name tables, time stamps, language and interface state.
- `app/`: the HTTP server program (tiny_http, threads, serde conversions)
  around `server::ServerCore`.
- `tests/`: tests on concrete values.
