# rldyour-cleaner

A janitor for developer machines: it removes build artifacts and tool caches
that are provably stale, on a schedule, without ever breaking a build or app
that is running.

## Layout

- `src/` is the library, verified with Verus. It holds the tool's
  decisions, each with a contract over plain mathematical values; what is
  left to the caller is reading, walking, measuring, deleting and printing:
  - `kinds`: the rule table (names and markers) that says what a directory is;
  - `scan`: the walk's per-entry decisions, the claims that keep candidates
    from nesting, nested caches, the age gate, the scan tally;
  - `safety`: the guards, as a state machine whose probes the caller runs;
  - `clean`: pending names, rename errors, the pending-dir reaper's decisions;
  - `homecache`: the tool-cache set, the per-cache decision machine and the
    old-version tally, both shared by real runs and previews;
  - `config`: the policy file's defaults, `~` expansion, load errors;
  - `os`: platform directories, fill levels, path components, and the
    `/proc` and `lsof` liveness parsers;
  - `report`: the run report and its tallies;
  - `lib.rs`: which run modes change anything, and what becomes of a
    candidate that passed its guards;
  - `text`: strings as character sequences.
- `app/` is the command-line program around the library: argument parsing,
  filesystem walks, probes, deletion, printing and persistence.
- `tests/` exercises the library on concrete values.
