# chatty_factory

The verified core of the Chatty Factory workbench. `src/` holds the logic,
each public function with a contract that Verus proves; `tests/` runs it on
concrete values; `app/` is the command-line shell that reads receipts and
project files from disk, runs acceptance plans, and hands plain values to
the library.

Modules of `src/`:

- `acceptance`, `helper_checks`, `module_contracts`, `surface`: the checks of
  an acceptance plan, each from the facts read off a project to a verdict.
- `failure`, `missing_files`: sorts a failure message into its class, and
  why a missing-target message is a missing-file failure.
- `refresh`, `governance_text`: when a governance view counts as stale, when
  it refreshes itself, and the texts that report it.
- `extensions`, `extension_sort`, `workbench`, `lane_report`, `registry`,
  `dashboard`: the extension-lane browser, its lists and its exports.
- `project_browser`, `constraint_shelf`, `proof_history`, `governance_panel`:
  the project browser's counts, filters and patch-risk order; the approved
  constraint shelf; the proof results; the governance panels' warnings and
  family selection.
- `proofs`, `profiles`, `families`, `patchability`, `xray`, `records`,
  `record_order`, `tally`, `tasks`, `toasts`: the other panels' decisions.
- `text`, `order`, `text_sort`, `search`: text helpers with their specs.
